//! Words and the dictionaries that name them.
//!
//! A word is first reserved and later completed. Until it is completed only
//! the lookups that take the reservation into account find it, which is what
//! lets a word under definition refer to itself.

use super::text::pairs_text;
use super::text::write_pairs;
use super::text::Text;
use super::value::Address;
use super::value::CodeAddress;
use super::value::EnvironmentStackRelativeAddress;
use vstd::prelude::*;
use vstd::string::StringExecFns;

verus! {

/// Why an operation on the dictionary failed.
#[derive(Debug)]
pub enum WordErrorReason {
    /// A completion with nothing reserved.
    CompleteWordInUnreserved,
    /// No word of that name.
    UndefinedWord(String),
    /// No word has been defined yet.
    EmptyDictionary,
}

impl Clone for WordErrorReason {
    fn clone(&self) -> (r: Self)
        ensures
            r == *self,
    {
        match self {
            WordErrorReason::CompleteWordInUnreserved => WordErrorReason::CompleteWordInUnreserved,
            WordErrorReason::UndefinedWord(n) => WordErrorReason::UndefinedWord(n.clone()),
            WordErrorReason::EmptyDictionary => WordErrorReason::EmptyDictionary,
        }
    }
}

/// What the dictionary knows of a word.
#[derive(Debug)]
pub struct Word {
    /// Where the word's body starts.
    pub code: CodeAddress,
    /// Whether the word runs while a definition is being compiled.
    pub immediate: bool,
    /// What the word's author wrote about it.
    pub document: String,
}

impl Clone for Word {
    fn clone(&self) -> (r: Self)
        ensures
            r == *self,
    {
        Word { code: self.code, immediate: self.immediate, document: self.document.clone() }
    }
}

impl Word {
    /// A word at `code` that is not immediate and has no documentation.
    pub fn new(code: CodeAddress) -> (r: Self)
        ensures
            r.code == code,
            !r.immediate,
            r.document@ == Seq::<char>::empty(),
    {
        Word { code, immediate: false, document: String::new() }
    }

    /// The address at which the body starts.
    pub fn code(&self) -> (r: CodeAddress)
        ensures
            r == self.code,
    {
        self.code
    }

    /// Moves the start of the body to `c`.
    pub fn set_code(&mut self, c: CodeAddress)
        ensures
            *final(self) == (Word { code: c, ..*old(self) }),
    {
        self.code = c;
    }

    /// Makes the word immediate.
    pub fn immediate(&mut self)
        ensures
            *final(self) == (Word { immediate: true, ..*old(self) }),
    {
        self.immediate = true;
    }

    /// Whether the word runs while a definition is compiled.
    pub fn is_immediate(&self) -> (r: bool)
        ensures
            r == self.immediate,
    {
        self.immediate
    }

    /// Replaces the description of the word.
    pub fn set_document(&mut self, doc: String)
        ensures
            *final(self) == (Word { document: doc, ..*old(self) }),
    {
        self.document = doc;
    }

    /// The description of the word.
    pub fn document(&self) -> (r: &String)
        ensures
            *r == self.document,
    {
        &self.document
    }
}

/// Whether the `i`-th of `entries` is the first that is called `n`.
pub open spec fn is_first_named<V>(entries: Seq<(String, V)>, n: Seq<char>, i: int) -> bool {
    &&& 0 <= i < entries.len()
    &&& entries[i].0@ == n
    &&& forall|j: int| 0 <= j < i ==> (#[trigger] entries[j]).0@ != n
}

/// Whether `after` is `before` with `value` placed under `name`: in the
/// place of the first entry of that name where there is one, and behind all
/// entries where there is none.
pub open spec fn placed<V>(
    before: Seq<(String, V)>,
    after: Seq<(String, V)>,
    name: Seq<char>,
    value: V,
) -> bool {
    if exists|i: int| is_first_named(before, name, i) {
        let i = choose|i: int| is_first_named(before, name, i);
        &&& after.len() == before.len()
        &&& after[i].0@ == name
        &&& after[i].1 == value
        &&& forall|j: int| 0 <= j < before.len() && j != i ==> #[trigger] after[j] == before[j]
    } else {
        &&& after.len() == before.len() + 1
        &&& after.last().0@ == name
        &&& after.last().1 == value
        &&& after.drop_last() == before
    }
}

/// What `entries` holds under the name `n`: of several entries of that name
/// the first counts.
pub open spec fn named<V>(entries: Seq<(String, V)>, n: Seq<char>) -> Option<V> {
    if exists|i: int| is_first_named(entries, n, i) {
        Some(entries[choose|i: int| is_first_named(entries, n, i)].1)
    } else {
        None
    }
}

proof fn named_at<V>(entries: Seq<(String, V)>, n: Seq<char>, i: int)
    requires
        is_first_named(entries, n, i),
    ensures
        named(entries, n) == Some(entries[i].1),
{
    let c = choose|c: int| is_first_named(entries, n, c);
}

proof fn named_nowhere<V>(entries: Seq<(String, V)>, n: Seq<char>)
    requires
        forall|j: int| 0 <= j < entries.len() ==> (#[trigger] entries[j]).0@ != n,
    ensures
        named(entries, n) is None,
{
    assert forall|i: int| !is_first_named(entries, n, i) by {
    }
}

/// If an entry is called the way the one before it was, the names keep what
/// they held, but for that name.
proof fn named_after_update<V>(
    before: Seq<(String, V)>,
    after: Seq<(String, V)>,
    i: int,
    n: Seq<char>,
)
    requires
        is_first_named(before, before[i].0@, i),
        after.len() == before.len(),
        after[i].0@ == before[i].0@,
        forall|j: int| 0 <= j < before.len() && j != i ==> #[trigger] after[j] == before[j],
    ensures
        named(after, n) == if n == before[i].0@ {
            Some(after[i].1)
        } else {
            named(before, n)
        },
{
    let key = before[i].0@;
    if n == key {
        assert(is_first_named(after, n, i)) by {
            assert forall|j: int| 0 <= j < i implies (#[trigger] after[j]).0@ != n by {
            }
        }
        named_at(after, n, i);
    } else if exists|c: int| is_first_named(before, n, c) {
        let c = choose|c: int| is_first_named(before, n, c);
        assert(is_first_named(after, n, c)) by {
            assert forall|j: int| 0 <= j < c implies (#[trigger] after[j]).0@ != n by {
            }
        }
        named_at(after, n, c);
        named_at(before, n, c);
    } else {
        assert forall|j: int| 0 <= j < after.len() implies (#[trigger] after[j]).0@ != n by {
            if after[j].0@ == n {
                let f = first_named_before(before, n, j);
            }
        }
        named_nowhere(after, n);
    }
}

/// Where an entry is called `n`, a first entry is.
proof fn first_named_before<V>(entries: Seq<(String, V)>, n: Seq<char>, j: int) -> (i: int)
    requires
        0 <= j < entries.len(),
        entries[j].0@ == n,
    ensures
        is_first_named(entries, n, i),
        i <= j,
    decreases j,
{
    if exists|k: int| 0 <= k < j && (#[trigger] entries[k]).0@ == n {
        let k = choose|k: int| 0 <= k < j && (#[trigger] entries[k]).0@ == n;
        first_named_before(entries, n, k)
    } else {
        j
    }
}

/// One more entry under a name that had none gives that name the entry and
/// leaves the others.
proof fn named_after_push<V>(before: Seq<(String, V)>, entry: (String, V), n: Seq<char>)
    requires
        named(before, entry.0@) is None,
    ensures
        named(before.push(entry), n) == if n == entry.0@ {
            Some(entry.1)
        } else {
            named(before, n)
        },
{
    let after = before.push(entry);
    let last = before.len() as int;
    assert forall|j: int| 0 <= j < before.len() implies (#[trigger] before[j]).0@ != entry.0@ by {
        if before[j].0@ == entry.0@ {
            let f = first_named_before(before, entry.0@, j);
        }
    }
    if n == entry.0@ {
        assert(is_first_named(after, n, last)) by {
            assert forall|j: int| 0 <= j < last implies (#[trigger] after[j]).0@ != n by {
            }
        }
        named_at(after, n, last);
    } else if exists|c: int| is_first_named(before, n, c) {
        let c = choose|c: int| is_first_named(before, n, c);
        assert(is_first_named(after, n, c)) by {
            assert forall|j: int| 0 <= j < c implies (#[trigger] after[j]).0@ != n by {
            }
        }
        named_at(after, n, c);
        named_at(before, n, c);
    } else {
        assert forall|j: int| 0 <= j < after.len() implies (#[trigger] after[j]).0@ != n by {
            if j < last && after[j].0@ == n {
                let f = first_named_before(before, n, j);
            }
        }
        named_nowhere(after, n);
    }
}

/// The index of the first of `entries` that is called as `name` reads.
fn position_of<V>(entries: &Vec<(String, V)>, name: &String) -> (r: Option<usize>)
    ensures
        match r {
            Some(i) => is_first_named(entries@, name@, i as int),
            None => forall|j: int| 0 <= j < entries@.len() ==> (#[trigger] entries@[j]).0@ != name@,
        },
{
    let mut i: usize = 0;
    while i < entries.len()
        invariant
            i <= entries@.len(),
            forall|k: int| 0 <= k < i ==> (#[trigger] entries@[k]).0@ != name@,
        decreases entries@.len() - i,
    {
        if entries[i].0 == *name {
            return Some(i);
        }
        i = i + 1;
    }
    None
}

/// Whether `i` is one of `order`.
spec fn listed(order: Seq<usize>, i: int) -> bool {
    exists|j: int| 0 <= j < order.len() && #[trigger] order[j] == i
}

/// The place of a code address in the order of the addresses: the root
/// comes before every index.
pub open spec fn code_rank(c: CodeAddress) -> int {
    match c.0 {
        Address::Root => -1,
        Address::Entity(i) => i as int,
    }
}

/// Whether `a` comes strictly before `b`.
fn code_before(a: CodeAddress, b: CodeAddress) -> (r: bool)
    ensures
        r == (code_rank(a) < code_rank(b)),
{
    match a.0 {
        Address::Root => match b.0 {
            Address::Root => false,
            Address::Entity(_) => true,
        },
        Address::Entity(x) => match b.0 {
            Address::Root => false,
            Address::Entity(y) => x < y,
        },
    }
}

/// Whether the two addresses are the same.
fn code_same(a: CodeAddress, b: CodeAddress) -> (r: bool)
    ensures
        r == (a == b),
{
    match a.0 {
        Address::Root => match b.0 {
            Address::Root => true,
            Address::Entity(_) => false,
        },
        Address::Entity(x) => match b.0 {
            Address::Root => false,
            Address::Entity(y) => x == y,
        },
    }
}

/// Whether the `i`-th of `entries` is the first recorded for `c`.
pub open spec fn is_first_at(entries: Seq<(CodeAddress, String)>, c: CodeAddress, i: int) -> bool {
    &&& 0 <= i < entries.len()
    &&& entries[i].0 == c
    &&& forall|j: int| 0 <= j < i ==> (#[trigger] entries[j]).0 != c
}

/// The name that `entries` records for the address `c`.
pub open spec fn name_at(entries: Seq<(CodeAddress, String)>, c: CodeAddress) -> Option<
    Seq<char>,
> {
    if exists|i: int| is_first_at(entries, c, i) {
        Some(entries[choose|i: int| is_first_at(entries, c, i)].1@)
    } else {
        None
    }
}

proof fn name_at_index(entries: Seq<(CodeAddress, String)>, c: CodeAddress, i: int)
    requires
        is_first_at(entries, c, i),
    ensures
        name_at(entries, c) == Some(entries[i].1@),
{
    let k = choose|k: int| is_first_at(entries, c, k);
}

proof fn first_at_before(entries: Seq<(CodeAddress, String)>, c: CodeAddress, j: int) -> (i: int)
    requires
        0 <= j < entries.len(),
        entries[j].0 == c,
    ensures
        is_first_at(entries, c, i),
        i <= j,
    decreases j,
{
    if exists|k: int| 0 <= k < j && (#[trigger] entries[k]).0 == c {
        let k = choose|k: int| 0 <= k < j && (#[trigger] entries[k]).0 == c;
        first_at_before(entries, c, k)
    } else {
        j
    }
}

proof fn name_at_nowhere(entries: Seq<(CodeAddress, String)>, c: CodeAddress)
    requires
        forall|j: int| 0 <= j < entries.len() ==> (#[trigger] entries[j]).0 != c,
    ensures
        name_at(entries, c) is None,
{
    assert forall|i: int| !is_first_at(entries, c, i) by {
    }
}

/// Whether `k` is, among the keys of `m` at or before `adr`, the last.
pub open spec fn is_last_at_or_before(
    m: Map<CodeAddress, Seq<char>>,
    adr: CodeAddress,
    k: CodeAddress,
) -> bool {
    &&& m.contains_key(k)
    &&& code_rank(k) <= code_rank(adr)
    &&& forall|k2: CodeAddress|
        m.contains_key(k2) && code_rank(k2) <= code_rank(adr) ==> code_rank(k2) <= code_rank(k)
}

/// The name that `m` gives to the word whose body holds `adr`: the name at
/// the last key at or before `adr`. The root address lies in no body.
pub open spec fn guessed_name(m: Map<CodeAddress, Seq<char>>, adr: CodeAddress) -> Option<
    Seq<char>,
> {
    if adr.0 is Root {
        None
    } else if exists|k: CodeAddress| is_last_at_or_before(m, adr, k) {
        Some(m[choose|k: CodeAddress| is_last_at_or_before(m, adr, k)])
    } else {
        None
    }
}

proof fn last_at_or_before_is_unique(
    m: Map<CodeAddress, Seq<char>>,
    adr: CodeAddress,
    k: CodeAddress,
)
    requires
        is_last_at_or_before(m, adr, k),
    ensures
        (choose|k2: CodeAddress| is_last_at_or_before(m, adr, k2)) == k,
        guessed_name(m, adr) == if adr.0 is Root {
            None
        } else {
            Some(m[k])
        },
{
}

/// The words by name, with one word that may be reserved and not yet
/// completed.
pub struct Dictionary {
    entries: Vec<(String, Word)>,
    inverse: Vec<(CodeAddress, String)>,
    reserved_name: Option<String>,
    reserved_word: Option<Word>,
}

impl Dictionary {
    /// The completed words by name.
    pub closed spec fn committed(&self) -> Map<Seq<char>, Word> {
        Map::new(
            |n: Seq<char>| named(self.entries@, n) is Some,
            |n: Seq<char>| named(self.entries@, n)->0,
        )
    }

    /// How many completed words the dictionary keeps.
    pub closed spec fn count(&self) -> nat {
        self.entries@.len()
    }

    /// Whether each completed word is kept under a name of its own. Every
    /// dictionary that was made by `new` and changed by the functions of
    /// this type is.
    pub closed spec fn names_are_distinct(&self) -> bool {
        forall|i: int, j: int|
            0 <= i < j < self.entries@.len() ==> (#[trigger] self.entries@[i]).0@ != (
            #[trigger] self.entries@[j]).0@
    }

    /// The names of the completed words by the address at which their body
    /// starts. Of two words that start at the same address the one completed
    /// later is kept.
    pub closed spec fn names_by_code(&self) -> Map<CodeAddress, Seq<char>> {
        Map::new(
            |c: CodeAddress| name_at(self.inverse@, c) is Some,
            |c: CodeAddress| name_at(self.inverse@, c)->0,
        )
    }

    /// The name last reserved. It stays after the word has been completed.
    pub closed spec fn reserved_name(&self) -> Option<Seq<char>> {
        match self.reserved_name {
            Some(n) => Some(n@),
            None => None,
        }
    }

    /// The word that is reserved and not yet completed.
    pub closed spec fn reserved_word(&self) -> Option<Word> {
        self.reserved_word
    }

    /// The word that a lookup finds which takes the reservation into
    /// account.
    pub open spec fn word_within_reservation(&self, name: Seq<char>) -> Option<Word> {
        if self.reserved_name() == Some(name) && self.reserved_word() is Some {
            self.reserved_word()
        } else if self.committed().contains_key(name) {
            Some(self.committed()[name])
        } else {
            None
        }
    }

    /// The word defined last: the one whose name was reserved last.
    pub open spec fn last_word(&self) -> Option<Word> {
        match self.reserved_name() {
            Some(n) => self.word_within_reservation(n),
            None => None,
        }
    }

    /// Whether `other` is this dictionary with the word defined last replaced
    /// by `changed`.
    pub open spec fn with_last_word(&self, other: &Dictionary, changed: Word) -> bool {
        &&& other.reserved_name() == self.reserved_name()
        &&& other.names_by_code() == self.names_by_code()
        &&& other.count() == self.count()
        &&& self.names_are_distinct() ==> other.names_are_distinct()
        &&& if self.reserved_word() is Some {
            other.reserved_word() == Some(changed) && other.committed() == self.committed()
                && other.listed() == self.listed()
        } else {
            other.reserved_word() is None && other.committed() == self.committed().insert(
                self.reserved_name()->0,
                changed,
            ) && placed(self.listed(), other.listed(), self.reserved_name()->0, changed)
        }
    }

    /// Whether `other` keeps the same words under the same names.
    pub open spec fn same_words(&self, other: &Dictionary) -> bool {
        &&& other.reserved_name() == self.reserved_name()
        &&& other.reserved_word() == self.reserved_word()
        &&& other.names_by_code() == self.names_by_code()
        &&& other.committed() == self.committed()
        &&& other.count() == self.count()
        &&& other.listed() == self.listed()
        &&& self.names_are_distinct() ==> other.names_are_distinct()
    }

    /// An empty dictionary.
    pub fn new() -> (r: Self)
        ensures
            r.committed() == Map::<Seq<char>, Word>::empty(),
            r.names_by_code() == Map::<CodeAddress, Seq<char>>::empty(),
            r.count() == 0,
            r.reserved_name() is None,
            r.reserved_word() is None,
            r.names_are_distinct(),
            r.listed() == Seq::<(String, Word)>::empty(),
    {
        let r = Dictionary {
            entries: Vec::new(),
            inverse: Vec::new(),
            reserved_name: None,
            reserved_word: None,
        };
        proof {
            assert forall|n: Seq<char>| named(r.entries@, n) is None by {
                named_nowhere(r.entries@, n);
            }
            assert forall|c: CodeAddress| name_at(r.inverse@, c) is None by {
                name_at_nowhere(r.inverse@, c);
            }
        }
        r
    }

    /// How many completed words the dictionary keeps.
    pub fn len(&self) -> (r: usize)
        ensures
            r == self.count(),
    {
        self.entries.len()
    }

    /// Reserves `name` for `word`. A reservation made before is forgotten.
    pub fn reserve_word_def(&mut self, name: String, word: Word)
        ensures
            final(self).reserved_name() == Some(name@),
            final(self).reserved_word() == Some(word),
            final(self).committed() == old(self).committed(),
            final(self).names_by_code() == old(self).names_by_code(),
            final(self).count() == old(self).count(),
            final(self).listed() == old(self).listed(),
            old(self).names_are_distinct() ==> final(self).names_are_distinct(),
    {
        self.reserved_name = Some(name);
        self.reserved_word = Some(word);
    }

    /// Records that the word whose body starts at `code` is called `name`.
    fn record_entry(&mut self, code: CodeAddress, name: String)
        ensures
            final(self).names_by_code() == old(self).names_by_code().insert(code, name@),
            final(self).entries == old(self).entries,
            final(self).reserved_name == old(self).reserved_name,
            final(self).reserved_word == old(self).reserved_word,
    {
        let mut i: usize = 0;
        while i < self.inverse.len() && !code_same(self.inverse[i].0, code)
            invariant
                *self == *old(self),
                i <= self.inverse@.len(),
                forall|k: int| 0 <= k < i ==> (#[trigger] self.inverse@[k]).0 != code,
            decreases self.inverse@.len() - i,
        {
            i = i + 1;
        }
        let ghost before = self.inverse@;
        if i < self.inverse.len() {
            self.inverse[i] = (code, name);
        } else {
            self.inverse.push((code, name));
        }
        proof {
            let after = self.inverse@;
            assert(is_first_at(after, code, i as int)) by {
                assert forall|j: int| 0 <= j < i implies (#[trigger] after[j]).0 != code by {
                }
            }
            name_at_index(after, code, i as int);
            assert forall|c: CodeAddress| c != code implies name_at(after, c) == name_at(
                before,
                c,
            ) by {
                if exists|k: int| is_first_at(before, c, k) {
                    let k = choose|k: int| is_first_at(before, c, k);
                    assert(is_first_at(after, c, k)) by {
                        assert forall|j: int| 0 <= j < k implies (#[trigger] after[j]).0 != c by {
                        }
                    }
                    name_at_index(after, c, k);
                    name_at_index(before, c, k);
                } else {
                    assert forall|j: int| 0 <= j < after.len() implies (#[trigger] after[j]).0
                        != c by {
                        if j != i && after[j].0 == c {
                            let f = first_at_before(before, c, j);
                        }
                    }
                    name_at_nowhere(after, c);
                }
            }
        }
    }

    /// Stores `word` under `name` among the completed words.
    fn commit(&mut self, name: String, word: Word)
        ensures
            final(self).committed() == old(self).committed().insert(name@, word),
            final(self).count() == if old(self).committed().contains_key(name@) {
                old(self).count()
            } else {
                old(self).count() + 1
            },
            final(self).inverse == old(self).inverse,
            final(self).reserved_name == old(self).reserved_name,
            final(self).reserved_word == old(self).reserved_word,
            old(self).names_are_distinct() ==> final(self).names_are_distinct(),
            placed(old(self).entries@, final(self).entries@, name@, word),
    {
        let ghost before = self.entries@;
        let ghost key = name@;
        let found = position_of(&self.entries, &name);
        match found {
            Some(i) => {
                proof {
                    named_at(before, key, i as int);
                }
                self.entries[i] = (name, word);
                proof {
                    let c = choose|c: int| is_first_named(before, key, c);
                    assert(is_first_named(before, key, i as int));
                    assert(c == i) by {
                        if c < i {
                            assert(before[c].0@ == key);
                        } else if i < c {
                            assert(before[i as int].0@ == key);
                        }
                    }
                    assert forall|n: Seq<char>|
                        named(self.entries@, n) == if n == key {
                            Some(word)
                        } else {
                            named(before, n)
                        } by {
                        named_after_update(before, self.entries@, i as int, n);
                    }
                }
            },
            None => {
                proof {
                    named_nowhere(before, key);
                }
                self.entries.push((name, word));
                proof {
                    assert(self.entries@.drop_last() =~= before);
                    assert(!exists|c: int| is_first_named(before, key, c));
                    assert forall|n: Seq<char>|
                        named(self.entries@, n) == if n == key {
                            Some(word)
                        } else {
                            named(before, n)
                        } by {
                        named_after_push(before, (name, word), n);
                    }
                }
            },
        }
        assert(old(self).names_are_distinct() ==> self.names_are_distinct()) by {
            if old(self).names_are_distinct() {
                assert forall|a: int, b: int| 0 <= a < b < self.entries@.len() implies (
                #[trigger] self.entries@[a]).0@ != (#[trigger] self.entries@[b]).0@ by {
                }
            }
        }
    }

    /// Completes the reserved word: it is stored under its name, in place of
    /// a word of the same name, and its name is recorded for the address at
    /// which its body starts. The name stays the one reserved last.
    pub fn complate_word_def(&mut self) -> (r: Result<(), WordErrorReason>)
        ensures
            final(self).reserved_name() == old(self).reserved_name(),
            final(self).reserved_word() is None,
            old(self).names_are_distinct() ==> final(self).names_are_distinct(),
            match r {
                Ok(_) => old(self).reserved_word() is Some && old(self).reserved_name() is Some
                    && final(self).committed() == old(self).committed().insert(
                    old(self).reserved_name()->0,
                    old(self).reserved_word()->0,
                ) && final(self).names_by_code() == old(self).names_by_code().insert(
                    old(self).reserved_word()->0.code,
                    old(self).reserved_name()->0,
                ) && final(self).count() == if old(self).committed().contains_key(
                    old(self).reserved_name()->0,
                ) {
                    old(self).count()
                } else {
                    old(self).count() + 1
                } && placed(
                    old(self).listed(),
                    final(self).listed(),
                    old(self).reserved_name()->0,
                    old(self).reserved_word()->0,
                ),
                Err(e) => (old(self).reserved_word() is None || old(self).reserved_name() is None)
                    && e is CompleteWordInUnreserved && final(self).committed() == old(
                    self,
                ).committed() && final(self).names_by_code() == old(self).names_by_code()
                    && final(self).count() == old(self).count() && final(self).listed() == old(
                    self,
                ).listed(),
            },
    {
        let word = self.reserved_word.take();
        match word {
            Some(w) => {
                match &self.reserved_name {
                    Some(n) => {
                        let name = n.clone();
                        let name2 = n.clone();
                        self.record_entry(w.code, name);
                        self.commit(name2, w);
                        Ok(())
                    },
                    None => Err(WordErrorReason::CompleteWordInUnreserved),
                }
            },
            None => Err(WordErrorReason::CompleteWordInUnreserved),
        }
    }

    /// The completed word called `name`.
    pub fn find_word(&self, name: &String) -> (r: Result<&Word, WordErrorReason>)
        ensures
            match r {
                Ok(w) => self.committed().contains_key(name@) && *w == self.committed()[name@],
                Err(e) => !self.committed().contains_key(name@) && e == WordErrorReason::UndefinedWord(*name),
            },
    {
        match position_of(&self.entries, name) {
            Some(i) => {
                proof {
                    named_at(self.entries@, name@, i as int);
                }
                Ok(&self.entries[i].1)
            },
            None => {
                proof {
                    named_nowhere(self.entries@, name@);
                }
                Err(WordErrorReason::UndefinedWord(name.clone()))
            },
        }
    }

    /// The completed word called `name`, to be changed in place.
    pub fn find_word_mut(&mut self, name: &String) -> (r: Result<&mut Word, WordErrorReason>)
        ensures
            final(self).names_by_code() == old(self).names_by_code(),
            final(self).count() == old(self).count(),
            final(self).reserved_name() == old(self).reserved_name(),
            final(self).reserved_word() == old(self).reserved_word(),
            old(self).names_are_distinct() ==> final(self).names_are_distinct(),
            match r {
                Ok(w) => old(self).committed().contains_key(name@) && *w == old(
                    self,
                ).committed()[name@] && final(self).committed() == old(self).committed().insert(
                    name@,
                    *final(w),
                ) && placed(old(self).listed(), final(self).listed(), name@, *final(w)),
                Err(e) => !old(self).committed().contains_key(name@) && e == WordErrorReason::UndefinedWord(*name) && final(
                    self
                ).committed() == old(self).committed() && final(self).listed() == old(
                    self,
                ).listed(),
            },
    {
        match position_of(&self.entries, name) {
            Some(i) => {
                proof {
                    let before = *self;
                    named_at(before.entries@, name@, i as int);
                    assert forall|after: Dictionary|
                        after.entries@.len() == before.entries@.len() && (
                        #[trigger] after.entries@[i as int]).0 == before.entries@[i as int].0 && (
                        forall|j: int|
                            0 <= j < before.entries@.len() && j != i ==> #[trigger] after.entries@[j]
                                == before.entries@[j]) implies after.committed()
                        == before.committed().insert(name@, after.entries@[i as int].1) && (
                    before.names_are_distinct() ==> after.names_are_distinct()) && placed(
                        before.entries@,
                        after.entries@,
                        name@,
                        after.entries@[i as int].1,
                    ) by {
                        let c = choose|c: int| is_first_named(before.entries@, name@, c);
                        assert(is_first_named(before.entries@, name@, i as int));
                        assert(c == i) by {
                            if c < i {
                                assert(before.entries@[c].0@ == name@);
                            } else if i < c {
                                assert(before.entries@[i as int].0@ == name@);
                            }
                        }
                        assert forall|n: Seq<char>|
                            named(after.entries@, n) == if n == name@ {
                                Some(after.entries@[i as int].1)
                            } else {
                                named(before.entries@, n)
                            } by {
                            named_after_update(before.entries@, after.entries@, i as int, n);
                        }
                        if before.names_are_distinct() {
                            assert forall|a: int, b: int|
                                0 <= a < b < after.entries@.len() implies (
                            #[trigger] after.entries@[a]).0@ != (#[trigger] after.entries@[b]).0@ by {
                            }
                        }
                    }
                }
                Ok(&mut self.entries[i].1)
            },
            None => {
                proof {
                    named_nowhere(self.entries@, name@);
                }
                Err(WordErrorReason::UndefinedWord(name.clone()))
            },
        }
    }

    /// The word called `name`: the reserved word if that is its name, else
    /// the completed word.
    pub fn find_word_within_resavation(&self, name: &String) -> (r: Result<
        &Word,
        WordErrorReason,
    >)
        ensures
            match r {
                Ok(w) => self.word_within_reservation(name@) == Some(*w),
                Err(e) => self.word_within_reservation(name@) is None && e == WordErrorReason::UndefinedWord(*name),
            },
    {
        match &self.reserved_name {
            Some(n) => {
                if *n == *name {
                    match &self.reserved_word {
                        Some(w) => Ok(w),
                        None => self.find_word(name),
                    }
                } else {
                    self.find_word(name)
                }
            },
            None => self.find_word(name),
        }
    }

    /// The word called `name`, to be changed in place: the reserved word if
    /// that is its name, else the completed word.
    pub fn find_word_within_resavation_mut(&mut self, name: &String) -> (r: Result<
        &mut Word,
        WordErrorReason,
    >)
        ensures
            final(self).names_by_code() == old(self).names_by_code(),
            final(self).count() == old(self).count(),
            final(self).reserved_name() == old(self).reserved_name(),
            old(self).names_are_distinct() ==> final(self).names_are_distinct(),
            match r {
                Ok(w) => old(self).word_within_reservation(name@) == Some(*w) && if old(
                    self,
                ).reserved_name() == Some(name@) && old(self).reserved_word() is Some {
                    final(self).reserved_word() == Some(*final(w)) && final(self).committed()
                        == old(self).committed() && final(self).listed() == old(self).listed()
                } else {
                    final(self).reserved_word() == old(self).reserved_word() && final(
                        self
                    ).committed() == old(self).committed().insert(name@, *final(w)) && placed(
                        old(self).listed(),
                        final(self).listed(),
                        name@,
                        *final(w),
                    )
                },
                Err(e) => old(self).word_within_reservation(name@) is None && e == WordErrorReason::UndefinedWord(*name) && final(
                    self
                ).committed() == old(self).committed() && final(self).reserved_word() == old(
                    self,
                ).reserved_word() && final(self).listed() == old(self).listed(),
            },
    {
        let reserved_here = match &self.reserved_name {
            Some(n) => *n == *name && self.reserved_word.is_some(),
            None => false,
        };
        if reserved_here {
            match &mut self.reserved_word {
                Some(w) => Ok(w),
                None => Err(WordErrorReason::UndefinedWord(name.clone())),
            }
        } else {
            self.find_word_mut(name)
        }
    }

    /// The word defined last.
    pub fn find_last_word(&self) -> (r: Result<&Word, WordErrorReason>)
        ensures
            match r {
                Ok(w) => self.last_word() == Some(*w),
                Err(e) => self.last_word() is None && match self.reserved_name() {
                    None => e is EmptyDictionary,
                    Some(name) => e matches WordErrorReason::UndefinedWord(n) && n@ == name,
                },
            },
    {
        match &self.reserved_name {
            Some(n) => self.find_word_within_resavation(n),
            None => Err(WordErrorReason::EmptyDictionary),
        }
    }

    /// The word defined last, to be changed in place.
    pub fn find_last_word_mut(&mut self) -> (r: Result<&mut Word, WordErrorReason>)
        ensures
            match r {
                Ok(w) => old(self).last_word() == Some(*w) && old(self).with_last_word(
                    final(self),
                    *final(w),
                ),
                Err(e) => old(self).last_word() is None && old(self).same_words(final(self))
                    && match old(self).reserved_name() {
                    None => e is EmptyDictionary,
                    Some(name) => e matches WordErrorReason::UndefinedWord(n) && n@ == name,
                },
            },
    {
        let name = match &self.reserved_name {
            Some(n) => Some(n.clone()),
            None => None,
        };
        match name {
            Some(n) => self.find_word_within_resavation_mut(&n),
            None => Err(WordErrorReason::EmptyDictionary),
        }
    }

    /// Makes the word defined last immediate. Without such a word nothing
    /// changes.
    pub fn last_word_change_immidiate(&mut self)
        ensures
            match old(self).last_word() {
                Some(w) => old(self).with_last_word(final(self), Word { immediate: true, ..w }),
                None => old(self).same_words(final(self)),
            },
    {
        match self.find_last_word_mut() {
            Ok(w) => w.immediate(),
            Err(_) => {},
        }
    }

    /// Gives the word defined last its documentation. Without such a word
    /// nothing changes.
    pub fn last_word_set_document(&mut self, doc: String)
        ensures
            match old(self).last_word() {
                Some(w) => old(self).with_last_word(final(self), Word { document: doc, ..w }),
                None => old(self).same_words(final(self)),
            },
    {
        match self.find_last_word_mut() {
            Ok(w) => w.set_document(doc),
            Err(_) => {},
        }
    }

    /// The names under which the completed words are kept, those with a body
    /// at a lower address first.
    pub fn all_word_names(&self) -> (r: Vec<&String>)
        ensures
            r@.len() == self.count(),
            forall|j: int| 0 <= j < r@.len() ==> self.committed().contains_key(#[trigger] r@[j]@),
            forall|n: Seq<char>|
                self.committed().contains_key(n) ==> exists|j: int|
                    0 <= j < r@.len() && #[trigger] r@[j]@ == n,
            self.names_are_distinct() ==> forall|a: int, b: int|
                0 <= a < b < r@.len() ==> code_rank(self.committed()[#[trigger] r@[a]@].code)
                    <= code_rank(self.committed()[#[trigger] r@[b]@].code),
    {
        let n: usize = self.entries.len();
        let mut order: Vec<usize> = Vec::new();
        let mut k: usize = 0;
        while k < n
            invariant
                n == self.entries@.len(),
                k <= n,
                order@.len() == k,
                forall|j: int| 0 <= j < order@.len() ==> #[trigger] order@[j] < k,
                forall|i: int| 0 <= i < k ==> #[trigger] listed(order@, i),
                forall|a: int, b: int|
                    0 <= a < b < order@.len() ==> code_rank(
                        self.entries@[#[trigger] order@[a] as int].1.code,
                    ) <= code_rank(self.entries@[#[trigger] order@[b] as int].1.code),
            decreases n - k,
        {
            let code: CodeAddress = self.entries[k].1.code;
            let mut p: usize = 0;
            while p < order.len() && !code_before(code, self.entries[order[p]].1.code)
                invariant
                    n == self.entries@.len(),
                    k < n,
                    order@.len() == k,
                    p <= order@.len(),
                    code == self.entries@[k as int].1.code,
                    forall|j: int| 0 <= j < order@.len() ==> #[trigger] order@[j] < k,
                    forall|j: int|
                        0 <= j < p ==> code_rank(self.entries@[#[trigger] order@[j] as int].1.code)
                            <= code_rank(code),
                decreases order@.len() - p,
            {
                p = p + 1;
            }
            let ghost prev = order@;
            order.insert(p, k);
            proof {
                assert forall|i: int| 0 <= i < k + 1 implies #[trigger] listed(order@, i) by {
                    if i == k {
                        assert(order@[p as int] == i);
                    } else {
                        assert(listed(prev, i));
                        let j0 = choose|j: int| 0 <= j < prev.len() && #[trigger] prev[j] == i;
                        if j0 < p {
                            assert(order@[j0] == i);
                        } else {
                            assert(order@[j0 + 1] == i);
                        }
                    }
                }
                assert forall|a: int, b: int| 0 <= a < b < order@.len() implies code_rank(
                    self.entries@[#[trigger] order@[a] as int].1.code,
                ) <= code_rank(self.entries@[#[trigger] order@[b] as int].1.code) by {
                    let pa = if a < p { a } else { a - 1 };
                    let pb = if b < p { b } else { b - 1 };
                    if a == p {
                        assert(order@[b] == prev[b - 1]);
                        if b - 1 > p {
                            assert(code_rank(self.entries@[prev[p as int] as int].1.code)
                                <= code_rank(self.entries@[prev[b - 1] as int].1.code));
                        }
                    } else if b == p {
                        assert(order@[a] == prev[a]);
                    } else {
                        assert(order@[a] == prev[pa]);
                        assert(order@[b] == prev[pb]);
                    }
                }
            }
            k = k + 1;
        }
        let mut r: Vec<&String> = Vec::new();
        let mut j: usize = 0;
        while j < n
            invariant
                n == self.entries@.len(),
                order@.len() == n,
                j <= n,
                r@.len() == j,
                forall|q: int| 0 <= q < order@.len() ==> #[trigger] order@[q] < n,
                forall|i: int| 0 <= i < n ==> #[trigger] listed(order@, i),
                forall|a: int, b: int|
                    0 <= a < b < order@.len() ==> code_rank(
                        self.entries@[#[trigger] order@[a] as int].1.code,
                    ) <= code_rank(self.entries@[#[trigger] order@[b] as int].1.code),
                forall|q: int|
                    0 <= q < j ==> *(#[trigger] r@[q]) == self.entries@[order@[q] as int].0,
            decreases n - j,
        {
            r.push(&self.entries[order[j]].0);
            j = j + 1;
        }
        proof {
            assert forall|q: int| 0 <= q < r@.len() implies self.committed().contains_key(
                #[trigger] r@[q]@,
            ) by {
                let f = first_named_before(self.entries@, r@[q]@, order@[q] as int);
                named_at(self.entries@, r@[q]@, f);
            }
            assert forall|m: Seq<char>| self.committed().contains_key(m) implies exists|q: int|
                0 <= q < r@.len() && #[trigger] r@[q]@ == m by {
                let i = choose|i: int| is_first_named(self.entries@, m, i);
                assert(listed(order@, i));
                let q0 = choose|q: int| 0 <= q < order@.len() && #[trigger] order@[q] == i;
                assert(r@[q0]@ == m);
            }
            if self.names_are_distinct() {
                assert forall|q: int| 0 <= q < r@.len() implies self.committed()[#[trigger] r@[q]@]
                    == self.entries@[order@[q] as int].1 by {
                    let at = order@[q] as int;
                    assert(is_first_named(self.entries@, r@[q]@, at)) by {
                        assert forall|j: int| 0 <= j < at implies (
                        #[trigger] self.entries@[j]).0@ != r@[q]@ by {
                            assert(self.entries@[j].0@ != self.entries@[at].0@);
                        }
                    }
                    named_at(self.entries@, r@[q]@, at);
                }
            }
        }
        r
    }

    /// The name of the word whose body holds `adr`: of the words that start
    /// at or before `adr`, the one that starts last.
    pub fn guess_name(&self, adr: &CodeAddress) -> (r: Option<&String>)
        ensures
            match r {
                Some(n) => guessed_name(self.names_by_code(), *adr) == Some(n@),
                None => guessed_name(self.names_by_code(), *adr) is None,
            },
    {
        match adr.0 {
            Address::Root => None,
            Address::Entity(_) => {
                let mut best: Option<usize> = None;
                let mut i: usize = 0;
                while i < self.inverse.len()
                    invariant
                        i <= self.inverse@.len(),
                        match best {
                            Some(b) => b < i && code_rank(self.inverse@[b as int].0) <= code_rank(
                                *adr,
                            ) && is_first_at(self.inverse@, self.inverse@[b as int].0, b as int),
                            None => true,
                        },
                        forall|k: int|
                            0 <= k < i && code_rank((#[trigger] self.inverse@[k]).0) <= code_rank(
                                *adr,
                            ) ==> best is Some && code_rank(self.inverse@[k].0) <= code_rank(
                                self.inverse@[best->0 as int].0,
                            ),
                    decreases self.inverse@.len() - i,
                {
                    let c: CodeAddress = self.inverse[i].0;
                    if !code_before(*adr, c) {
                        match best {
                            Some(b) => {
                                if code_before(self.inverse[b].0, c) {
                                    proof {
                                        assert forall|j: int| 0 <= j < i implies (
                                        #[trigger] self.inverse@[j]).0 != c by {
                                        }
                                    }
                                    best = Some(i);
                                }
                            },
                            None => {
                                proof {
                                    assert forall|j: int| 0 <= j < i implies (
                                    #[trigger] self.inverse@[j]).0 != c by {
                                    }
                                }
                                best = Some(i);
                            },
                        }
                    }
                    i = i + 1;
                }
                let ghost m = self.names_by_code();
                match best {
                    Some(b) => {
                        proof {
                            let key = self.inverse@[b as int].0;
                            name_at_index(self.inverse@, key, b as int);
                            assert forall|k2: CodeAddress|
                                m.contains_key(k2) && code_rank(k2) <= code_rank(
                                    *adr,
                                ) implies code_rank(k2) <= code_rank(key) by {
                            }
                            last_at_or_before_is_unique(m, *adr, key);
                        }
                        Some(&self.inverse[b].1)
                    },
                    None => {
                        proof {
                            assert forall|k: CodeAddress| !is_last_at_or_before(m, *adr, k) by {
                            }
                        }
                        None
                    },
                }
            },
        }
    }

    /// The name of the word whose body starts at `adr`.
    pub fn find_name(&self, adr: &CodeAddress) -> (r: Option<&String>)
        ensures
            match r {
                Some(n) => self.names_by_code().contains_key(*adr) && self.names_by_code()[*adr]
                    == n@,
                None => !self.names_by_code().contains_key(*adr),
            },
    {
        let mut i: usize = 0;
        while i < self.inverse.len()
            invariant
                i <= self.inverse@.len(),
                forall|k: int| 0 <= k < i ==> (#[trigger] self.inverse@[k]).0 != *adr,
            decreases self.inverse@.len() - i,
        {
            if code_same(self.inverse[i].0, *adr) {
                proof {
                    name_at_index(self.inverse@, *adr, i as int);
                }
                return Some(&self.inverse[i].1);
            }
            i = i + 1;
        }
        proof {
            name_at_nowhere(self.inverse@, *adr);
        }
        None
    }
}

/// A name recorded for an address is the name guessed for that address: of
/// the words that start at or before it, the one that starts there starts
/// last. So a word that has just been completed is found under its name and
/// its name is guessed from the address of its body. The root address is
/// left out: no name is guessed for it.
pub proof fn completed_word_is_found(
    before: Dictionary,
    after: Dictionary,
    name: Seq<char>,
    word: Word,
)
    requires
        after.committed() == before.committed().insert(name, word),
        after.names_by_code() == before.names_by_code().insert(word.code, name),
        word.code.0 is Entity,
    ensures
        after.committed().contains_key(name),
        after.committed()[name] == word,
        guessed_name(after.names_by_code(), word.code) == Some(name),
{
    let m = after.names_by_code();
    last_at_or_before_is_unique(m, word.code, word.code);
}

/// The local variables of the word under definition, each with its slot in
/// the environment.
pub struct LocalDictionary {
    entries: Vec<(String, EnvironmentStackRelativeAddress)>,
    current_address: EnvironmentStackRelativeAddress,
}

impl LocalDictionary {
    /// The slot of each local variable.
    pub closed spec fn slots(&self) -> Map<Seq<char>, EnvironmentStackRelativeAddress> {
        Map::new(
            |n: Seq<char>| named(self.entries@, n) is Some,
            |n: Seq<char>| named(self.entries@, n)->0,
        )
    }

    /// How many variables the dictionary keeps.
    pub closed spec fn count(&self) -> nat {
        self.entries@.len()
    }

    /// The slot that the next variable gets.
    pub closed spec fn next_slot(&self) -> EnvironmentStackRelativeAddress {
        self.current_address
    }

    /// A dictionary without variables.
    pub fn new() -> (r: Self)
        ensures
            r.slots() == Map::<Seq<char>, EnvironmentStackRelativeAddress>::empty(),
            r.count() == 0,
            r.next_slot() == EnvironmentStackRelativeAddress(0),
            r.listed() == Seq::<(String, EnvironmentStackRelativeAddress)>::empty(),
    {
        let r = LocalDictionary {
            entries: Vec::new(),
            current_address: EnvironmentStackRelativeAddress(0),
        };
        proof {
            assert forall|n: Seq<char>| named(r.entries@, n) is None by {
                named_nowhere(r.entries@, n);
            }
        }
        r
    }

    /// How many variables the dictionary keeps.
    pub fn len(&self) -> (r: usize)
        ensures
            r == self.count(),
    {
        self.entries.len()
    }

    /// The slot that the next variable gets.
    pub fn next_address(&self) -> (r: EnvironmentStackRelativeAddress)
        ensures
            r == self.next_slot(),
    {
        self.current_address
    }

    /// The names of the variables.
    pub fn get_all_local_names(&self) -> (r: Vec<&String>)
        ensures
            r@.len() == self.count(),
            forall|j: int| 0 <= j < r@.len() ==> self.slots().contains_key(#[trigger] r@[j]@),
            forall|n: Seq<char>|
                self.slots().contains_key(n) ==> exists|j: int|
                    0 <= j < r@.len() && #[trigger] r@[j]@ == n,
    {
        let mut r: Vec<&String> = Vec::new();
        let mut j: usize = 0;
        while j < self.entries.len()
            invariant
                j <= self.entries@.len(),
                r@.len() == j,
                forall|q: int| 0 <= q < j ==> *(#[trigger] r@[q]) == self.entries@[q].0,
            decreases self.entries@.len() - j,
        {
            r.push(&self.entries[j].0);
            j = j + 1;
        }
        proof {
            assert forall|q: int| 0 <= q < r@.len() implies self.slots().contains_key(
                #[trigger] r@[q]@,
            ) by {
                let f = first_named_before(self.entries@, r@[q]@, q);
                named_at(self.entries@, r@[q]@, f);
            }
            assert forall|m: Seq<char>| self.slots().contains_key(m) implies exists|q: int|
                0 <= q < r@.len() && #[trigger] r@[q]@ == m by {
                let i = choose|i: int| is_first_named(self.entries@, m, i);
                assert(r@[i]@ == m);
            }
        }
        r
    }

    /// Gives `name` the next slot. A variable of the same name loses its
    /// slot to the new one.
    pub fn push(&mut self, name: String)
        requires
            old(self).next_slot().0 < usize::MAX,
        ensures
            final(self).slots() == old(self).slots().insert(name@, old(self).next_slot()),
            final(self).next_slot().0 == old(self).next_slot().0 + 1,
            final(self).count() == if old(self).slots().contains_key(name@) {
                old(self).count()
            } else {
                old(self).count() + 1
            },
            placed(old(self).listed(), final(self).listed(), name@, old(self).next_slot()),
    {
        let ghost before = self.entries@;
        let ghost key = name@;
        let slot = self.current_address;
        match position_of(&self.entries, &name) {
            Some(i) => {
                proof {
                    named_at(before, key, i as int);
                }
                self.entries[i] = (name, slot);
                proof {
                    let c = choose|c: int| is_first_named(before, key, c);
                    assert(is_first_named(before, key, i as int));
                    assert(c == i) by {
                        if c < i {
                            assert(before[c].0@ == key);
                        } else if i < c {
                            assert(before[i as int].0@ == key);
                        }
                    }
                    assert forall|n: Seq<char>|
                        named(self.entries@, n) == if n == key {
                            Some(slot)
                        } else {
                            named(before, n)
                        } by {
                        named_after_update(before, self.entries@, i as int, n);
                    }
                }
            },
            None => {
                proof {
                    named_nowhere(before, key);
                }
                self.entries.push((name, slot));
                proof {
                    assert(self.entries@.drop_last() =~= before);
                    assert(!exists|c: int| is_first_named(before, key, c));
                    assert forall|n: Seq<char>|
                        named(self.entries@, n) == if n == key {
                            Some(slot)
                        } else {
                            named(before, n)
                        } by {
                        named_after_push(before, (name, slot), n);
                    }
                }
            },
        }
        self.current_address = self.current_address.next();
    }

    /// The slot of the variable called `name`.
    pub fn find(&self, name: &String) -> (r: Option<EnvironmentStackRelativeAddress>)
        ensures
            match r {
                Some(a) => self.slots().contains_key(name@) && self.slots()[name@] == a,
                None => !self.slots().contains_key(name@),
            },
    {
        match position_of(&self.entries, name) {
            Some(i) => {
                proof {
                    named_at(self.entries@, name@, i as int);
                }
                Some(self.entries[i].1)
            },
            None => {
                proof {
                    named_nowhere(self.entries@, name@);
                }
                None
            },
        }
    }

    /// Forgets every variable; the next one gets the first slot again.
    pub fn clear(&mut self)
        ensures
            final(self).slots() == Map::<Seq<char>, EnvironmentStackRelativeAddress>::empty(),
            final(self).count() == 0,
            final(self).next_slot() == EnvironmentStackRelativeAddress(0),
            final(self).listed() == Seq::<(String, EnvironmentStackRelativeAddress)>::empty(),
    {
        self.entries.clear();
        self.current_address = EnvironmentStackRelativeAddress(0);
        proof {
            assert forall|n: Seq<char>| named(self.entries@, n) is None by {
                named_nowhere(self.entries@, n);
            }
        }
    }
}

impl Text for Word {
    open spec fn text(&self) -> Seq<char> {
        "Word("@ + self.code.text() + ","@ + self.immediate.text() + ","@ + self.document.text()
            + ")"@
    }

    fn write_text(&self, f: &mut String) {
        f.append("Word(");
        self.code.write_text(f);
        f.append(",");
        self.immediate.write_text(f);
        f.append(",");
        self.document.write_text(f);
        f.append(")");
    }
}

impl Dictionary {
    /// The completed words with their names, in the order in which the
    /// names were first completed.
    pub closed spec fn listed(&self) -> Seq<(String, Word)> {
        self.entries@
    }

    /// The words that are listed are the completed ones: every listed name
    /// is the name of a completed word, every completed word is listed
    /// under its name, and where each word has a name of its own a listed
    /// word is the one that is kept under its name.
    pub proof fn listed_words_are_the_completed_ones(&self)
        ensures
            self.listed().len() == self.count(),
            forall|i: int|
                0 <= i < self.listed().len() ==> self.committed().contains_key(
                    (#[trigger] self.listed()[i]).0@,
                ),
            forall|n: Seq<char>| #[trigger]
                self.committed().contains_key(n) ==> exists|i: int|
                    0 <= i < self.listed().len() && (#[trigger] self.listed()[i]).0@ == n
                        && self.listed()[i].1 == self.committed()[n],
            self.names_are_distinct() ==> forall|i: int|
                0 <= i < self.listed().len() ==> self.committed()[(
                #[trigger] self.listed()[i]).0@] == self.listed()[i].1,
    {
        let entries = self.entries@;
        assert forall|i: int| 0 <= i < entries.len() implies self.committed().contains_key(
            (#[trigger] entries[i]).0@,
        ) by {
            let k = first_named_before(entries, entries[i].0@, i);
            named_at(entries, entries[i].0@, k);
        }
        assert forall|n: Seq<char>| #[trigger] self.committed().contains_key(n) implies exists|
            i: int,
        |
            0 <= i < entries.len() && (#[trigger] entries[i]).0@ == n && entries[i].1
                == self.committed()[n] by {
            let k = choose|k: int| is_first_named(entries, n, k);
            named_at(entries, n, k);
        }
        if self.names_are_distinct() {
            assert forall|i: int| 0 <= i < entries.len() implies self.committed()[(
            #[trigger] entries[i]).0@] == entries[i].1 by {
                let k = first_named_before(entries, entries[i].0@, i);
                named_at(entries, entries[i].0@, k);
            }
        }
    }
}

impl Text for Dictionary {
    /// A line for each completed word, in the order in which the names
    /// were first completed.
    open spec fn text(&self) -> Seq<char> {
        "Dictionary[\n"@ + pairs_text(self.listed(), ">;\n"@) + "]\n"@
    }

    fn write_text(&self, f: &mut String) {
        f.append("Dictionary[\n");
        write_pairs(&self.entries, ">;\n", f);
        f.append("]\n");
    }
}

impl LocalDictionary {
    /// The variables with their slots, in the order in which they were
    /// pushed.
    pub closed spec fn listed(&self) -> Seq<(String, EnvironmentStackRelativeAddress)> {
        self.entries@
    }
}

impl Text for LocalDictionary {
    /// A line for each variable, in the order in which they were pushed.
    open spec fn text(&self) -> Seq<char> {
        "LocalDictionary[\n"@ + pairs_text(self.listed(), ">;\n"@) + "]\n"@
    }

    fn write_text(&self, f: &mut String) {
        f.append("LocalDictionary[\n");
        write_pairs(&self.entries, ">;\n", f);
        f.append("]\n");
    }
}

} // verus!
