//! Cutting a stream of characters into tokens.
//!
//! Tokens are separated by spaces, tabs and line breaks. A `#` starts a
//! comment that runs to the end of the line; a `"` starts a string literal;
//! what reads as an integer is one; everything else is a symbol.

use super::utility::as_items;
use super::utility::char_stream_from_buf_read_from_str;
use super::utility::items;
use super::utility::CharItem;
use super::utility::CharReaderFromString;
use super::utility::CharStreamFromBufRead;
use super::utility::IoFailure;
use vstd::prelude::*;
use vstd::utf8::encode_utf8;

verus! {

/// The number of a line, counted from one.
pub type LineNumber = u32;

/// The number of a character in its line.
pub type ColumnNumber = u32;

/// What a token stream hands out.
pub type TokenStreamItem = Result<ValueToken, TokenizerError>;

/// Why no token could be cut.
#[derive(Debug)]
pub enum TokenizerErrorReason {
    /// The input ended inside a string literal that had read this far.
    StringLiteralIsNotClosed(String),
    /// `\u` was not followed by four hexadecimal digits that name a
    /// character; these are the characters that were read in their place.
    CannotParseUnicodeEscapeChar(String),
    /// The source of the characters failed.
    IOError(IoFailure),
}

/// A failure to cut a token, with the line and the column at which the
/// stream stood.
#[derive(Debug)]
pub struct TokenizerError(pub LineNumber, pub ColumnNumber, pub TokenizerErrorReason);

/// What the functions of the tokenizer hand to each other.
#[derive(Debug, PartialEq)]
pub enum TokenizerStatus<V> {
    /// The input is what the function is for, and this is its value.
    Parsed(V),
    /// The input is for another function to read.
    Skip,
}

/// A token, or a comment.
#[derive(Debug, PartialEq)]
pub enum TokenWithComment {
    /// The text of a comment.
    Comment(String),
    /// A token.
    Token(ValueToken),
}

/// A token.
#[derive(Debug, PartialEq)]
pub enum ValueToken {
    /// An integer.
    IntValue(i32),
    /// The text of a string literal.
    StrValue(String),
    /// A symbol.
    Symbol(String),
}

/// A token with the line and the column at which the stream stood before it.
pub struct Token {
    pub line_number: LineNumber,
    pub column_number: ColumnNumber,
    pub value_token: TokenStreamItem,
}

/// A source of tokens, as the virtual machine reads them.
pub trait TokenIterator {
    /// The next token, comments left out; nothing at the end.
    fn next(&mut self) -> (r: Option<TokenStreamItem>);

    /// The next token with the place at which the stream stood before it.
    fn next_token(&mut self) -> (r: Option<Token>);

    /// The name of the script that the tokens come from.
    fn script_name(&self) -> (r: &String);

    /// Takes the characters up to and including `end_char` and returns those
    /// before it.
    fn skip(&mut self, end_char: char) -> (r: Result<String, TokenizerError>);
}

/// `String::push`: `c` is appended to the characters of `s`.
pub assume_specification[ String::push ](s: &mut String, c: char)
    ensures
        final(s)@ == old(s)@.push(c),
;

// ----------------------------------------------------------------------
// The stream of characters
// ----------------------------------------------------------------------
/// Whether `c` ends a line.
pub open spec fn is_line_break(c: char) -> bool {
    c == '\n' || c == '\r'
}

/// Whether `c` separates tokens.
pub open spec fn is_separator(c: char) -> bool {
    is_line_break(c) || c == ' ' || c == '\t'
}

/// The line number after one more item has been read. The count stops at
/// the largest number.
pub open spec fn line_step(line: u32, x: CharItem) -> u32 {
    match x {
        Ok(c) => if is_line_break(c) && line < u32::MAX {
            (line + 1) as u32
        } else {
            line
        },
        Err(_) => line,
    }
}

/// The column number after one more item has been read. The count stops
/// at the largest number.
pub open spec fn column_step(column: u32, x: CharItem) -> u32 {
    match x {
        Ok(c) => if is_line_break(c) {
            0
        } else if column < u32::MAX {
            (column + 1) as u32
        } else {
            column
        },
        Err(_) => column,
    }
}

/// The line number after `fresh` has been read.
pub open spec fn line_after(line: u32, fresh: Seq<CharItem>) -> u32
    decreases fresh.len(),
{
    if fresh.len() == 0 {
        line
    } else {
        line_after(line_step(line, fresh[0]), fresh.drop_first())
    }
}

/// The column number after `fresh` has been read.
pub open spec fn column_after(column: u32, fresh: Seq<CharItem>) -> u32
    decreases fresh.len(),
{
    if fresh.len() == 0 {
        column
    } else {
        column_after(column_step(column, fresh[0]), fresh.drop_first())
    }
}

proof fn position_after_one(line: u32, column: u32, x: CharItem)
    ensures
        line_after(line, seq![x]) == line_step(line, x),
        column_after(column, seq![x]) == column_step(column, x),
{
    let f = seq![x];
    assert(line_after(line_step(line, f[0]), f.drop_first()) == line_step(line, x));
    assert(column_after(column_step(column, f[0]), f.drop_first()) == column_step(column, x));
}

proof fn position_after_concat(line: u32, column: u32, a: Seq<CharItem>, b: Seq<CharItem>)
    ensures
        line_after(line, a + b) == line_after(line_after(line, a), b),
        column_after(column, a + b) == column_after(column_after(column, a), b),
    decreases a.len(),
{
    if !(a.len() == 0) {
        assert((a + b).drop_first() =~= a.drop_first() + b);
        position_after_concat(
            line_step(line, a[0]),
            column_step(column, a[0]),
            a.drop_first(),
            b,
        );
    }
}

/// Where a stream of characters stands.
pub struct Reading {
    /// What is to come.
    pub upcoming: Seq<CharItem>,
    /// How many of the items to come have been read before and put back.
    pub ahead: nat,
    /// The line of the last item that was read for the first time.
    pub line: u32,
    /// The column of the last item that was read for the first time.
    pub column: u32,
}

/// The items that are read for the first time when the first `looked` of
/// the items to come are read.
pub open spec fn fresh(r: Reading, looked: nat) -> Seq<CharItem> {
    if looked > r.ahead {
        r.upcoming.subrange(r.ahead as int, looked as int)
    } else {
        Seq::<CharItem>::empty()
    }
}

/// Where the stream stands after the first `looked` of the items to come
/// have been read and all but the first `taken` of them put back.
pub open spec fn advanced(r: Reading, looked: nat, taken: nat) -> Reading {
    Reading {
        upcoming: r.upcoming.skip(taken as int),
        ahead: ((if looked > r.ahead {
            looked
        } else {
            r.ahead
        }) - taken) as nat,
        line: line_after(r.line, fresh(r, looked)),
        column: column_after(r.column, fresh(r, looked)),
    }
}

/// The larger of two numbers.
pub open spec fn larger(a: nat, b: nat) -> nat {
    if a >= b {
        a
    } else {
        b
    }
}

/// Two readings in a row are one reading.
pub proof fn advanced_twice(r: Reading, l1: nat, t1: nat, l2: nat, t2: nat)
    requires
        t1 <= l1 <= r.upcoming.len(),
        r.ahead <= r.upcoming.len(),
        t2 <= l2 <= r.upcoming.len() - t1,
    ensures
        advanced(advanced(r, l1, t1), l2, t2) == advanced(r, larger(l1, t1 + l2), t1 + t2),
{
    let r1 = advanced(r, l1, t1);
    let f1 = fresh(r, l1);
    let f2 = fresh(r1, l2);
    let f = fresh(r, larger(l1, t1 + l2));
    assert(f =~= f1 + f2);
    position_after_concat(r.line, r.column, f1, f2);
    assert(r1.upcoming.skip(t2 as int) =~= r.upcoming.skip((t1 + t2) as int));
}

/// A reading in which nothing is read leaves the stream where it stands.
pub proof fn advanced_by_nothing(r: Reading)
    ensures
        advanced(r, 0, 0) == r,
{
    assert(r.upcoming.skip(0) =~= r.upcoming);
}

/// The item that stands `i` places into what is to come, of the characters
/// put back in `lookahead` (the last put back first) and `pending`.
spec fn upcoming_item(lookahead: Seq<char>, pending: Seq<CharItem>, i: int) -> CharItem {
    if i < lookahead.len() {
        Ok(lookahead[lookahead.len() - 1 - i])
    } else {
        pending[i - lookahead.len()]
    }
}

/// A stream of characters that takes characters back.
pub struct InputCharStream {
    input: CharStreamFromBufRead,
    lookahead_buffer: Vec<char>,
    line_number: LineNumber,
    colmun_number: ColumnNumber,
}

impl InputCharStream {
    /// What the stream has to hand out, how much of it was put back, and the
    /// line and the column at which it stands.
    pub closed spec fn reading(&self) -> Reading {
        Reading {
            upcoming: Seq::new(
                self.lookahead_buffer@.len() + self.input.pending().len(),
                |i: int| upcoming_item(self.lookahead_buffer@, self.input.pending(), i),
            ),
            ahead: self.lookahead_buffer@.len(),
            line: self.line_number,
            column: self.colmun_number,
        }
    }

    /// A stream that stands before the first character of `input`, in the
    /// first line.
    pub fn new(input: CharStreamFromBufRead) -> (r: Self)
        ensures
            r.reading() == (Reading {
                upcoming: input.pending(),
                ahead: 0,
                line: 1,
                column: 0,
            }),
    {
        let r = InputCharStream {
            input,
            lookahead_buffer: Vec::new(),
            line_number: 1,
            colmun_number: 0,
        };
        assert(r.reading().upcoming =~= input.pending());
        r
    }

    /// Reads the next item: the character put back last, or the next of the
    /// source.
    pub fn next(&mut self) -> (r: Option<CharItem>)
        ensures
            final(self).reading().ahead <= final(self).reading().upcoming.len(),
            match r {
                Some(x) => old(self).reading().upcoming.len() > 0 && x == old(
                    self,
                ).reading().upcoming[0] && final(self).reading() == advanced(
                    old(self).reading(),
                    1,
                    1,
                ),
                None => old(self).reading().upcoming.len() == 0 && final(self).reading() == old(
                    self,
                ).reading(),
            },
    {
        let ghost before = self.reading();
        match self.lookahead_buffer.pop() {
            Some(c) => {
                proof {
                    assert(self.reading().upcoming =~= before.upcoming.skip(1));
                }
                Some(Ok(c))
            },
            None => {
                let ret = self.input.next();
                match ret {
                    Some(Ok(c)) => {
                        if c == '\n' || c == '\r' {
                            self.colmun_number = 0;
                            if self.line_number < u32::MAX {
                                self.line_number = self.line_number + 1;
                            }
                        } else {
                            if self.colmun_number < u32::MAX {
                                self.colmun_number = self.colmun_number + 1;
                            }
                        }
                    },
                    Some(Err(_)) => {},
                    None => {},
                }
                proof {
                    if ret is Some {
                        let f = fresh(before, 1);
                        assert(f =~= seq![ret->0]);
                        position_after_one(before.line, before.column, ret->0);
                        assert(self.reading().upcoming =~= before.upcoming.skip(1));
                    } else {
                        assert(self.reading().upcoming =~= before.upcoming);
                    }
                }
                ret
            },
        }
    }

    /// Puts `c` back: it is the next item to be read.
    pub fn push(&mut self, c: char)
        ensures
            final(self).reading() == (Reading {
                upcoming: seq![Ok::<char, IoFailure>(c)] + old(self).reading().upcoming,
                ahead: old(self).reading().ahead + 1,
                ..old(self).reading()
            }),
    {
        self.lookahead_buffer.push(c);
        assert(self.reading().upcoming =~= seq![Ok::<char, IoFailure>(c)] + old(
            self,
        ).reading().upcoming);
    }

    /// The line at which the stream stands.
    pub fn line_number(&self) -> (r: LineNumber)
        ensures
            r == self.reading().line,
    {
        self.line_number
    }

    /// The column at which the stream stands.
    pub fn column_number(&self) -> (r: ColumnNumber)
        ensures
            r == self.reading().column,
    {
        self.colmun_number
    }
}

/// Putting back the item that was read last undoes the reading of it.
proof fn put_back(r: Reading, k: nat, c: char)
    requires
        1 <= k <= r.upcoming.len(),
        r.upcoming[k - 1] == Ok::<char, IoFailure>(c),
    ensures
        (Reading {
            upcoming: seq![Ok::<char, IoFailure>(c)] + advanced(r, k, k).upcoming,
            ahead: advanced(r, k, k).ahead + 1,
            ..advanced(r, k, k)
        }) == advanced(r, k, (k - 1) as nat),
{
    assert(seq![Ok::<char, IoFailure>(c)] + r.upcoming.skip(k as int) =~= r.upcoming.skip(k - 1));
}

// ----------------------------------------------------------------------
// Runs of characters
// ----------------------------------------------------------------------
/// What a function of the tokenizer made of the items to come.
pub struct Scan<V> {
    /// What was read.
    pub value: V,
    /// How many items were read.
    pub looked: nat,
    /// How many of them were not put back.
    pub taken: nat,
}

/// The characters that a run is made of.
#[derive(Clone, Copy)]
pub enum Run {
    /// Separators.
    Separators,
    /// Everything up to a line break.
    Line,
    /// Everything up to a separator.
    Word,
    /// Everything up to the given character.
    Until(char),
}

/// Whether `c` is the first character behind a run.
pub open spec fn ends_run(run: Run, c: char) -> bool {
    match run {
        Run::Separators => !is_separator(c),
        Run::Line => is_line_break(c),
        Run::Word => is_separator(c),
        Run::Until(e) => c == e,
    }
}

/// How many characters of a run stand at the front of `s`.
pub open spec fn run_len(s: Seq<CharItem>, run: Run) -> nat
    decreases s.len(),
{
    if s.len() > 0 && s[0] is Ok && !ends_run(run, s[0]->Ok_0) {
        1 + run_len(s.drop_first(), run)
    } else {
        0
    }
}

/// The characters of items that are all characters.
pub open spec fn chars_of_items(s: Seq<CharItem>) -> Seq<char> {
    Seq::new(s.len(), |i: int| s[i]->Ok_0)
}

/// Reading a run: its characters are taken. The character behind it is
/// read as well; it is taken where `swallow` is set and put back where not.
/// A failure behind the run is taken and is all that is returned.
pub open spec fn scan_run(s: Seq<CharItem>, run: Run, swallow: bool) -> Scan<
    Result<Seq<char>, IoFailure>,
> {
    let n = run_len(s, run);
    if n < s.len() {
        match s[n as int] {
            Ok(_) => Scan {
                value: Ok(chars_of_items(s.take(n as int))),
                looked: n + 1,
                taken: if swallow {
                    n + 1
                } else {
                    n
                },
            },
            Err(e) => Scan { value: Err(e), looked: n + 1, taken: n + 1 },
        }
    } else {
        Scan { value: Ok(chars_of_items(s.take(n as int))), looked: n, taken: n }
    }
}

proof fn run_len_is(s: Seq<CharItem>, run: Run, k: nat)
    requires
        k <= s.len(),
        forall|i: int| 0 <= i < k ==> (#[trigger] s[i]) is Ok && !ends_run(run, s[i]->Ok_0),
        k < s.len() ==> s[k as int] is Err || ends_run(run, s[k as int]->Ok_0),
    ensures
        run_len(s, run) == k,
    decreases k,
{
    if k > 0 {
        let rest = s.drop_first();
        run_len_is(rest, run, (k - 1) as nat);
    }
}

/// A run lies within the input, holds only characters that do not end it,
/// and is followed by the end of the input, a failure, or a character that
/// ends it.
pub proof fn run_len_bound(s: Seq<CharItem>, run: Run)
    ensures
        run_len(s, run) <= s.len(),
        forall|i: int|
            0 <= i < run_len(s, run) ==> (#[trigger] s[i]) is Ok && !ends_run(run, s[i]->Ok_0),
        run_len(s, run) < s.len() ==> s[run_len(s, run) as int] is Err || ends_run(
            run,
            s[run_len(s, run) as int]->Ok_0,
        ),
    decreases s.len(),
{
    if s.len() > 0 && s[0] is Ok && !ends_run(run, s[0]->Ok_0) {
        let rest = s.drop_first();
        run_len_bound(rest, run);
        assert forall|i: int| 0 <= i < run_len(s, run) implies (#[trigger] s[i]) is Ok
            && !ends_run(run, s[i]->Ok_0) by {
            if i > 0 {
                assert(rest[i - 1] == s[i]);
            }
        }
    }
}

/// Whether `c` is the first character behind a run.
fn run_ends_at(run: Run, c: char) -> (r: bool)
    ensures
        r == ends_run(run, c),
{
    match run {
        Run::Separators => !is_token_separator(c),
        Run::Line => is_line_separator(c),
        Run::Word => is_token_separator(c),
        Run::Until(e) => c == e,
    }
}

/// Whether `c` separates tokens.
fn is_token_separator(c: char) -> (r: bool)
    ensures
        r == is_separator(c),
{
    if is_line_separator(c) {
        true
    } else {
        c == ' ' || c == '\t'
    }
}

/// Whether `c` ends a line.
fn is_line_separator(c: char) -> (r: bool)
    ensures
        r == is_line_break(c),
{
    c == '\n' || c == '\r'
}

/// The string of the given characters.
pub fn string_of(chars: &Vec<char>) -> (r: String)
    ensures
        r@ == chars@,
{
    let mut r = String::new();
    let mut i: usize = 0;
    while i < chars.len()
        invariant
            i <= chars@.len(),
            r@ == chars@.take(i as int),
        decreases chars@.len() - i,
    {
        r.push(chars[i]);
        i = i + 1;
    }
    r
}

impl InputCharStream {
    proof fn reading_is_sound(&self)
        ensures
            self.reading().ahead <= self.reading().upcoming.len(),
    {
    }

    /// Reads a run of characters.
    fn take_run(&mut self, run: Run, swallow: bool) -> (r: Result<Vec<char>, IoFailure>)
        ensures
            final(self).reading() == advanced(
                old(self).reading(),
                scan_run(old(self).reading().upcoming, run, swallow).looked,
                scan_run(old(self).reading().upcoming, run, swallow).taken,
            ),
            match r {
                Ok(v) => scan_run(old(self).reading().upcoming, run, swallow).value == Ok::<
                    Seq<char>,
                    IoFailure,
                >(v@),
                Err(e) => scan_run(old(self).reading().upcoming, run, swallow).value == Err::<
                    Seq<char>,
                    IoFailure,
                >(e),
            },
    {
        let ghost start = self.reading();
        let ghost s = start.upcoming;
        proof {
            self.reading_is_sound();
            advanced_by_nothing(start);
        }
        let mut text: Vec<char> = Vec::new();
        loop
            invariant
                start == old(self).reading(),
                s == start.upcoming,
                start.ahead <= s.len(),
                text@.len() <= s.len(),
                self.reading() == advanced(start, text@.len(), text@.len()),
                text@ == chars_of_items(s.take(text@.len() as int)),
                forall|i: int|
                    0 <= i < text@.len() ==> (#[trigger] s[i]) is Ok && !ends_run(
                        run,
                        s[i]->Ok_0,
                    ),
            decreases s.len() - text@.len(),
        {
            let ghost k = text@.len();
            let item = self.next();
            proof {
                if item is Some {
                    advanced_twice(start, k, k, 1, 1);
                }
            }
            match item {
                Some(Ok(c)) => {
                    if run_ends_at(run, c) {
                        proof {
                            run_len_is(s, run, k);
                        }
                        if !swallow {
                            self.push(c);
                            proof {
                                put_back(start, k + 1, c);
                            }
                        }
                        return Ok(text);
                    }
                    text.push(c);
                },
                Some(Err(e)) => {
                    proof {
                        run_len_is(s, run, k);
                    }
                    return Err(e);
                },
                None => {
                    proof {
                        run_len_is(s, run, k);
                    }
                    return Ok(text);
                },
            }
        }
    }
}

// ----------------------------------------------------------------------
// What the tokenizer reads, stated over the items to come
// ----------------------------------------------------------------------
/// Why no token could be cut, with the texts as sequences of characters.
pub enum Failure {
    NotClosed(Seq<char>),
    BadEscape(Seq<char>),
    Io(IoFailure),
}

/// What a function of the tokenizer hands back.
pub enum Outcome<V> {
    /// The input is what the function is for, and this is its value.
    Parsed(V),
    /// The input is for another function to read.
    Skip,
    /// The input cannot be read.
    Failed(Failure),
}

impl View for TokenizerErrorReason {
    type V = Failure;

    open spec fn view(&self) -> Failure {
        match *self {
            TokenizerErrorReason::StringLiteralIsNotClosed(t) => Failure::NotClosed(t@),
            TokenizerErrorReason::CannotParseUnicodeEscapeChar(t) => Failure::BadEscape(t@),
            TokenizerErrorReason::IOError(e) => Failure::Io(e),
        }
    }
}

/// What the result of a function that reads a text stands for.
pub open spec fn text_outcome(r: Result<TokenizerStatus<String>, TokenizerErrorReason>) -> Outcome<
    Seq<char>,
> {
    match r {
        Ok(TokenizerStatus::Parsed(t)) => Outcome::Parsed(t@),
        Ok(TokenizerStatus::Skip) => Outcome::Skip,
        Err(e) => Outcome::Failed(e@),
    }
}

/// What the result of a function that reads a plain value stands for.
pub open spec fn plain_outcome<V>(r: Result<TokenizerStatus<V>, TokenizerErrorReason>) -> Outcome<
    V,
> {
    match r {
        Ok(TokenizerStatus::Parsed(v)) => Outcome::Parsed(v),
        Ok(TokenizerStatus::Skip) => Outcome::Skip,
        Err(e) => Outcome::Failed(e@),
    }
}

/// `scan` as it is when `n` items have been taken before it.
pub open spec fn shifted<V>(scan: Scan<V>, n: nat) -> Scan<V> {
    Scan { value: scan.value, looked: scan.looked + n, taken: scan.taken + n }
}

/// The number that the digit `c` stands for in the given radix.
pub open spec fn digit_value(c: char, radix: u8) -> Option<u32> {
    if '0' <= c && c <= '9' && (c as u32 - '0' as u32) < radix {
        Some((c as u32 - '0' as u32) as u32)
    } else if 'a' <= c && c <= 'z' && (c as u32 - 'a' as u32 + 10) < radix {
        Some((c as u32 - 'a' as u32 + 10) as u32)
    } else if 'A' <= c && c <= 'Z' && (c as u32 - 'A' as u32 + 10) < radix {
        Some((c as u32 - 'A' as u32 + 10) as u32)
    } else {
        None
    }
}

/// The number that the digits `ds` stand for in the given radix, the most
/// significant digit first.
pub open spec fn digits_value(ds: Seq<char>, radix: u8) -> Option<nat>
    decreases ds.len(),
{
    if ds.len() == 0 {
        Some(0)
    } else {
        match (digits_value(ds.drop_last(), radix), digit_value(ds.last(), radix)) {
            (Some(v), Some(d)) => Some((v * radix + d) as nat),
            _ => None,
        }
    }
}

/// The number that `ds` reads as: at least one digit, and a value that
/// fits 32 bits.
pub open spec fn number_value(ds: Seq<char>, radix: u8) -> Option<u32> {
    if ds.len() == 0 {
        None
    } else {
        match digits_value(ds, radix) {
            Some(v) => if v <= u32::MAX {
                Some(v as u32)
            } else {
                None
            },
            None => None,
        }
    }
}

/// The integer with the same 32 bits as `number`.
pub open spec fn as_signed(number: u32) -> int {
    if number < 0x8000_0000 {
        number as int
    } else {
        number - 0x1_0000_0000
    }
}

/// The integer that a sign and 32 bits of magnitude stand for: the sign is
/// applied to the bits read as a two's-complement integer, and the result
/// is cut to 32 bits again.
pub open spec fn signed_value(negative: bool, number: u32) -> i32 {
    if !negative {
        as_signed(number) as i32
    } else if as_signed(number) == -0x8000_0000 {
        as_signed(number) as i32
    } else {
        (-as_signed(number)) as i32
    }
}

/// The character with the scalar value `n`.
pub open spec fn scalar_char(n: u32) -> Option<char> {
    if n <= 0xD7FF || (0xE000 <= n && n <= 0x10FFFF) {
        Some(n as char)
    } else {
        None
    }
}

/// What one step inside a string literal reads.
pub enum CharStep {
    /// A character of the literal.
    Char(char),
    /// The character that closes the literal; it has been put back.
    Close,
    /// The end of the input.
    End,
    /// Nothing that can be read.
    Fail(Failure),
}

/// How many of the first `limit` items of `s` are characters that stand
/// before the first failure.
pub open spec fn unicode_run(s: Seq<CharItem>, limit: nat) -> nat
    decreases limit,
{
    if limit > 0 && s.len() > 0 && s[0] is Ok {
        1 + unicode_run(s.drop_first(), (limit - 1) as nat)
    } else {
        0
    }
}

/// Reading what follows `\u`: four characters, which have to be the
/// hexadecimal digits of a character.
pub open spec fn scan_unicode(s: Seq<CharItem>) -> Scan<CharStep> {
    let k = unicode_run(s, 4);
    if k < 4 && k < s.len() {
        Scan { value: CharStep::Fail(Failure::Io(s[k as int]->Err_0)), looked: k + 1, taken: k + 1 }
    } else {
        let text = chars_of_items(s.take(k as int));
        Scan {
            value: if k == 4 && number_value(text, 16) is Some && scalar_char(
                number_value(text, 16)->0,
            ) is Some {
                CharStep::Char(scalar_char(number_value(text, 16)->0)->0)
            } else {
                CharStep::Fail(Failure::BadEscape(text))
            },
            looked: k,
            taken: k,
        }
    }
}

/// Reading what follows a backslash.
pub open spec fn scan_escape(s: Seq<CharItem>) -> Scan<CharStep> {
    if s.len() == 0 {
        Scan { value: CharStep::End, looked: 0, taken: 0 }
    } else {
        match s[0] {
            Err(e) => Scan { value: CharStep::Fail(Failure::Io(e)), looked: 1, taken: 1 },
            Ok(c) => if c == 'n' {
                Scan { value: CharStep::Char('\n'), looked: 1, taken: 1 }
            } else if c == 'r' {
                Scan { value: CharStep::Char('\r'), looked: 1, taken: 1 }
            } else if c == 't' {
                Scan { value: CharStep::Char('\t'), looked: 1, taken: 1 }
            } else if c == 'u' {
                shifted(scan_unicode(s.skip(1)), 1)
            } else {
                Scan { value: CharStep::Char(c), looked: 1, taken: 1 }
            },
        }
    }
}

/// Reading the next character of a string literal that `end_char` closes.
pub open spec fn scan_string_char(s: Seq<CharItem>, end_char: char) -> Scan<CharStep> {
    if s.len() == 0 {
        Scan { value: CharStep::End, looked: 0, taken: 0 }
    } else {
        match s[0] {
            Err(e) => Scan { value: CharStep::Fail(Failure::Io(e)), looked: 1, taken: 1 },
            Ok(c) => if c == '\\' {
                shifted(scan_escape(s.skip(1)), 1)
            } else if c == end_char {
                Scan { value: CharStep::Close, looked: 1, taken: 0 }
            } else {
                Scan { value: CharStep::Char(c), looked: 1, taken: 1 }
            },
        }
    }
}

/// `c` in front of the text that `v` carries.
pub open spec fn prepend(c: char, v: Result<Seq<char>, Failure>) -> Result<Seq<char>, Failure> {
    match v {
        Ok(t) => Ok(seq![c] + t),
        Err(Failure::NotClosed(t)) => Err(Failure::NotClosed(seq![c] + t)),
        Err(f) => Err(f),
    }
}

/// `acc` in front of the text that `v` carries.
pub open spec fn prepend_all(acc: Seq<char>, v: Result<Seq<char>, Failure>) -> Result<
    Seq<char>,
    Failure,
> {
    match v {
        Ok(t) => Ok(acc + t),
        Err(Failure::NotClosed(t)) => Err(Failure::NotClosed(acc + t)),
        Err(f) => Err(f),
    }
}

/// One step in a string literal takes no more than it looks at, and looks
/// at no more than there is; a character that it reads is taken whole.
pub proof fn string_char_bounds(s: Seq<CharItem>, end_char: char)
    ensures
        scan_string_char(s, end_char).taken <= scan_string_char(s, end_char).looked <= s.len(),
        scan_string_char(s, end_char).value is Char ==> scan_string_char(s, end_char).taken >= 1
            && scan_string_char(s, end_char).taken == scan_string_char(s, end_char).looked,
        scan_string_char(s, end_char).value is Close ==> s.len() > 0 && s[0] == Ok::<
            char,
            IoFailure,
        >(end_char),
        scan_string_char(s, end_char).value is End ==> scan_string_char(s, end_char).taken
            == s.len(),
{
    if s.len() > 0 && s[0] == Ok::<char, IoFailure>('\\') {
        let t = s.skip(1);
        if t.len() > 0 && t[0] == Ok::<char, IoFailure>('u') {
            unicode_run_bounds(t.skip(1), 4);
        }
    }
}

/// The digits of a unicode escape are at most `limit` characters of the
/// input, and fewer only before the end of the input or a failure.
pub proof fn unicode_run_bounds(s: Seq<CharItem>, limit: nat)
    ensures
        unicode_run(s, limit) <= limit,
        unicode_run(s, limit) <= s.len(),
        forall|i: int| 0 <= i < unicode_run(s, limit) ==> (#[trigger] s[i]) is Ok,
        unicode_run(s, limit) < limit && unicode_run(s, limit) < s.len() ==> s[unicode_run(
            s,
            limit,
        ) as int] is Err,
    decreases limit,
{
    if limit > 0 && s.len() > 0 && s[0] is Ok {
        let rest = s.drop_first();
        unicode_run_bounds(rest, (limit - 1) as nat);
        assert forall|i: int| 0 <= i < unicode_run(s, limit) implies (#[trigger] s[i]) is Ok by {
            if i > 0 {
                assert(rest[i - 1] == s[i]);
            }
        }
    }
}

/// Reading a string literal behind the character that opened it: the
/// characters up to the one that closes it, which is taken too.
pub open spec fn scan_string_rest(s: Seq<CharItem>, end_char: char) -> Scan<
    Result<Seq<char>, Failure>,
>
    decreases s.len(),
    via scan_string_rest_decreases
{
    let step = scan_string_char(s, end_char);
    match step.value {
        CharStep::Char(c) => {
            let rest = scan_string_rest(s.skip(step.taken as int), end_char);
            Scan {
                value: prepend(c, rest.value),
                looked: step.taken + rest.looked,
                taken: step.taken + rest.taken,
            }
        },
        CharStep::Close => Scan { value: Ok(Seq::<char>::empty()), looked: 1, taken: 1 },
        CharStep::End => Scan {
            value: Err(Failure::NotClosed(Seq::<char>::empty())),
            looked: step.looked,
            taken: step.taken,
        },
        CharStep::Fail(f) => Scan { value: Err(f), looked: step.looked, taken: step.taken },
    }
}

#[via_fn]
proof fn scan_string_rest_decreases(s: Seq<CharItem>, end_char: char) {
    string_char_bounds(s, end_char);
}

/// Reading a string literal that `start_char` opens and `end_char` closes.
pub open spec fn scan_string(s: Seq<CharItem>, start_char: char, end_char: char) -> Scan<
    Outcome<Seq<char>>,
> {
    if s.len() == 0 {
        Scan { value: Outcome::Skip, looked: 0, taken: 0 }
    } else {
        match s[0] {
            Err(e) => Scan { value: Outcome::Failed(Failure::Io(e)), looked: 1, taken: 1 },
            Ok(c) => if c == start_char {
                let rest = scan_string_rest(s.skip(1), end_char);
                Scan {
                    value: match rest.value {
                        Ok(t) => Outcome::Parsed(t),
                        Err(f) => Outcome::Failed(f),
                    },
                    looked: rest.looked + 1,
                    taken: rest.taken + 1,
                }
            } else {
                Scan { value: Outcome::Skip, looked: 1, taken: 0 }
            },
        }
    }
}

/// Reading a comment: `#` and everything up to the end of the line.
pub open spec fn scan_comment(s: Seq<CharItem>) -> Scan<Outcome<Seq<char>>> {
    if s.len() == 0 {
        Scan { value: Outcome::Skip, looked: 0, taken: 0 }
    } else {
        match s[0] {
            Err(e) => Scan { value: Outcome::Failed(Failure::Io(e)), looked: 1, taken: 1 },
            Ok(c) => if c == '#' {
                let body = scan_run(s.skip(1), Run::Line, false);
                Scan {
                    value: match body.value {
                        Ok(t) => Outcome::Parsed(t),
                        Err(e) => Outcome::Failed(Failure::Io(e)),
                    },
                    looked: body.looked + 1,
                    taken: body.taken + 1,
                }
            } else {
                Scan { value: Outcome::Skip, looked: 1, taken: 0 }
            },
        }
    }
}

/// Reading the sign of a number: whether it is negative.
pub open spec fn scan_sign(s: Seq<CharItem>) -> Scan<Outcome<bool>> {
    if s.len() == 0 {
        Scan { value: Outcome::Skip, looked: 0, taken: 0 }
    } else {
        match s[0] {
            Err(e) => Scan { value: Outcome::Failed(Failure::Io(e)), looked: 1, taken: 1 },
            Ok(c) => if c == '+' {
                Scan { value: Outcome::Parsed(false), looked: 1, taken: 1 }
            } else if c == '-' {
                Scan { value: Outcome::Parsed(true), looked: 1, taken: 1 }
            } else {
                Scan { value: Outcome::Skip, looked: 1, taken: 0 }
            },
        }
    }
}

/// The radix that the letter behind a `0` names.
pub open spec fn radix_of(c: char) -> Option<u8> {
    if c == 'b' {
        Some(2u8)
    } else if c == 'o' {
        Some(8u8)
    } else if c == 'x' {
        Some(16u8)
    } else {
        None
    }
}

/// Reading the prefix that names the radix of a number: `0b`, `0o` or
/// `0x`.
pub open spec fn scan_radix(s: Seq<CharItem>) -> Scan<Outcome<u8>> {
    if s.len() == 0 {
        Scan { value: Outcome::Skip, looked: 0, taken: 0 }
    } else {
        match s[0] {
            Err(e) => Scan { value: Outcome::Failed(Failure::Io(e)), looked: 1, taken: 1 },
            Ok(c) => if c == '0' {
                if s.len() == 1 {
                    Scan { value: Outcome::Skip, looked: 1, taken: 0 }
                } else {
                    match s[1] {
                        Err(e) => Scan {
                            value: Outcome::Failed(Failure::Io(e)),
                            looked: 2,
                            taken: 2,
                        },
                        Ok(d) => match radix_of(d) {
                            Some(radix) => Scan {
                                value: Outcome::Parsed(radix),
                                looked: 2,
                                taken: 2,
                            },
                            None => Scan { value: Outcome::Skip, looked: 2, taken: 0 },
                        },
                    }
                }
            } else {
                Scan { value: Outcome::Skip, looked: 1, taken: 0 }
            },
        }
    }
}

/// `text` without its underscores.
pub open spec fn without_underscores(text: Seq<char>) -> Seq<char>
    decreases text.len(),
{
    if text.len() == 0 {
        text
    } else if text.last() == '_' {
        without_underscores(text.drop_last())
    } else {
        without_underscores(text.drop_last()).push(text.last())
    }
}

/// What reading a number makes of the items to come.
pub struct NumberScan {
    /// The integer, where the characters read are one.
    pub value: Outcome<i32>,
    /// The characters that were read, as a symbol would have them.
    pub text: Seq<char>,
    /// How many items were read.
    pub looked: nat,
    /// How many of them were not put back.
    pub taken: nat,
}

/// Reading what stands before the digits of a number: a sign and a prefix
/// that names the radix. The value is whether the number is negative, and
/// the radix, which is 10 without a prefix.
pub open spec fn scan_prefix(s: Seq<CharItem>) -> Scan<Outcome<(bool, u8)>> {
    let sign = scan_sign(s);
    match sign.value {
        Outcome::Failed(f) => Scan {
            value: Outcome::Failed(f),
            looked: sign.looked,
            taken: sign.taken,
        },
        _ => {
            let radix = scan_radix(s.skip(sign.taken as int));
            Scan {
                value: match radix.value {
                    Outcome::Failed(f) => Outcome::Failed(f),
                    Outcome::Parsed(r) => Outcome::Parsed(
                        (sign.value == Outcome::Parsed(true), r),
                    ),
                    Outcome::Skip => Outcome::Parsed((sign.value == Outcome::Parsed(true), 10u8)),
                },
                looked: larger(sign.looked, sign.taken + radix.looked),
                taken: sign.taken + radix.taken,
            }
        },
    }
}

/// Reading a number: a sign, a prefix that names the radix, and digits up
/// to the next separator, among which underscores do not count. Where the
/// digits are none, or are not digits of the radix, or stand for more than
/// 32 bits hold, the characters are no number.
pub open spec fn scan_number(s: Seq<CharItem>) -> NumberScan {
    let prefix = scan_prefix(s);
    match prefix.value {
        Outcome::Parsed((negative, radix)) => {
            let body = scan_run(s.skip(prefix.taken as int), Run::Word, false);
            let looked = larger(prefix.looked, prefix.taken + body.looked);
            let taken = prefix.taken + body.taken;
            match body.value {
                Err(e) => NumberScan {
                    value: Outcome::Failed(Failure::Io(e)),
                    text: Seq::<char>::empty(),
                    looked,
                    taken,
                },
                Ok(digits) => NumberScan {
                    value: match number_value(without_underscores(digits), radix) {
                        Some(n) => Outcome::Parsed(signed_value(negative, n)),
                        None => Outcome::Skip,
                    },
                    text: chars_of_items(s.take(taken as int)),
                    looked,
                    taken,
                },
            }
        },
        Outcome::Failed(f) => NumberScan {
            value: Outcome::Failed(f),
            text: Seq::<char>::empty(),
            looked: prefix.looked,
            taken: prefix.taken,
        },
        Outcome::Skip => NumberScan {
            value: Outcome::Skip,
            text: Seq::<char>::empty(),
            looked: prefix.looked,
            taken: prefix.taken,
        },
    }
}

/// A token or a comment, with the texts as sequences of characters.
pub enum TokenView {
    Comment(Seq<char>),
    IntValue(i32),
    StrValue(Seq<char>),
    Symbol(Seq<char>),
}

impl View for ValueToken {
    type V = TokenView;

    open spec fn view(&self) -> TokenView {
        match *self {
            ValueToken::IntValue(v) => TokenView::IntValue(v),
            ValueToken::StrValue(t) => TokenView::StrValue(t@),
            ValueToken::Symbol(t) => TokenView::Symbol(t@),
        }
    }
}

impl View for TokenWithComment {
    type V = TokenView;

    open spec fn view(&self) -> TokenView {
        match *self {
            TokenWithComment::Comment(t) => TokenView::Comment(t@),
            TokenWithComment::Token(t) => t@,
        }
    }
}

/// What reading a token makes of the items to come.
pub struct TokenScan {
    /// The token or the failure; nothing at the end of the input.
    pub token: Option<Result<TokenView, Failure>>,
    /// How many items the separators before the token are, with the item
    /// behind them that was read.
    pub space_looked: nat,
    /// How many items the separators before the token are.
    pub space_taken: nat,
    /// How many items were read.
    pub looked: nat,
    /// How many of them were not put back.
    pub taken: nat,
}

/// Reading a token that is no comment: a string literal is tried, then a
/// number, and what is neither is a symbol. At the end of the input there
/// is nothing.
pub open spec fn scan_word(s: Seq<CharItem>) -> Scan<Option<Result<TokenView, Failure>>> {
    let string = scan_string(s, '"', '"');
    let number = scan_number(s);
    match string.value {
        Outcome::Parsed(t) => Scan {
            value: Some(Ok(TokenView::StrValue(t))),
            looked: string.looked,
            taken: string.taken,
        },
        Outcome::Failed(f) => Scan {
            value: Some(Err(f)),
            looked: string.looked,
            taken: string.taken,
        },
        Outcome::Skip => Scan {
            value: match number.value {
                Outcome::Parsed(v) => Some(Ok(TokenView::IntValue(v))),
                Outcome::Failed(f) => Some(Err(f)),
                Outcome::Skip => if number.text.len() != 0 {
                    Some(Ok(TokenView::Symbol(number.text)))
                } else {
                    None
                },
            },
            looked: number.looked,
            taken: number.taken,
        },
    }
}

/// Reading a token or a comment that stands at the front of `s`.
pub open spec fn scan_item(s: Seq<CharItem>) -> Scan<Option<Result<TokenView, Failure>>> {
    let comment = scan_comment(s);
    match comment.value {
        Outcome::Parsed(t) => Scan {
            value: Some(Ok(TokenView::Comment(t))),
            looked: comment.looked,
            taken: comment.taken,
        },
        Outcome::Failed(f) => Scan {
            value: Some(Err(f)),
            looked: comment.looked,
            taken: comment.taken,
        },
        Outcome::Skip => scan_word(s),
    }
}

/// Reading a token or a comment: the separators before it are passed over;
/// then a comment is tried, then a string literal, then a number, and what
/// is none of these is a symbol. At the end of the input there is nothing.
pub open spec fn scan_token(s: Seq<CharItem>) -> TokenScan {
    let space = scan_run(s, Run::Separators, false);
    match space.value {
        Err(e) => TokenScan {
            token: Some(Err(Failure::Io(e))),
            space_looked: space.looked,
            space_taken: space.taken,
            looked: space.looked,
            taken: space.taken,
        },
        Ok(_) => {
            let item = scan_item(s.skip(space.taken as int));
            TokenScan {
                token: item.value,
                space_looked: space.looked,
                space_taken: space.taken,
                looked: larger(space.looked, space.taken + item.looked),
                taken: space.taken + item.taken,
            }
        },
    }
}

// ----------------------------------------------------------------------
// The tokenizer
// ----------------------------------------------------------------------
/// What a step inside a string literal hands back.
pub open spec fn step_outcome(step: CharStep) -> Outcome<char> {
    match step {
        CharStep::Char(c) => Outcome::Parsed(c),
        CharStep::Close => Outcome::Skip,
        CharStep::End => Outcome::Skip,
        CharStep::Fail(f) => Outcome::Failed(f),
    }
}

/// What the result of reading a sign stands for.
pub open spec fn sign_outcome(r: Result<TokenizerStatus<i32>, TokenizerErrorReason>) -> Outcome<
    bool,
> {
    match r {
        Ok(TokenizerStatus::Parsed(v)) => Outcome::Parsed(v < 0),
        Ok(TokenizerStatus::Skip) => Outcome::Skip,
        Err(e) => Outcome::Failed(e@),
    }
}

proof fn unicode_run_is(s: Seq<CharItem>, limit: nat, k: nat)
    requires
        k <= limit,
        k <= s.len(),
        forall|i: int| 0 <= i < k ==> (#[trigger] s[i]) is Ok,
        k == limit || k == s.len() || s[k as int] is Err,
    ensures
        unicode_run(s, limit) == k,
    decreases k,
{
    if k > 0 {
        let rest = s.drop_first();
        unicode_run_is(rest, (limit - 1) as nat, (k - 1) as nat);
    }
}

proof fn digits_value_prefix(ds: Seq<char>, radix: u8, k: int)
    requires
        0 <= k <= ds.len(),
        digits_value(ds, radix) is Some,
    ensures
        digits_value(ds.take(k), radix) is Some,
        digits_value(ds.take(k), radix)->0 <= digits_value(ds, radix)->0,
    decreases ds.len() - k,
{
    if k < ds.len() {
        let front = ds.drop_last();
        digits_value_prefix(front, radix, k);
        assert(front.take(k) =~= ds.take(k));
        let v = digits_value(front, radix)->0;
        assert(v * radix >= v) by (nonlinear_arith)
            requires
                radix >= 1,
                v >= 0,
        ;
    } else {
        assert(ds.take(k) =~= ds);
    }
}

/// `char::from_u32`: the character with the scalar value `n`. There is none
/// where `n` lies among the surrogates or beyond the last character.
#[verifier::external_body]
fn char_from_scalar(n: u32) -> (r: Option<char>)
    ensures
        r == scalar_char(n),
{
    char::from_u32(n)
}

/// The number that the digit `c` stands for in the given radix.
fn conver_number_from_char(c: char, radix: u8) -> (r: Option<u32>)
    ensures
        r == digit_value(c, radix),
{
    let r32: u32 = radix as u32;
    if '0' <= c && c <= '9' {
        let num: u32 = (c as u32) - ('0' as u32);
        if num < r32 {
            Some(num)
        } else {
            None
        }
    } else if 'a' <= c && c <= 'z' {
        let num: u32 = (c as u32) - ('a' as u32) + 10;
        if num < r32 {
            Some(num)
        } else {
            None
        }
    } else if 'A' <= c && c <= 'Z' {
        let num: u32 = (c as u32) - ('A' as u32) + 10;
        if num < r32 {
            Some(num)
        } else {
            None
        }
    } else {
        None
    }
}

/// The number that the digits `value` stand for in the given radix.
fn convert_number(value: &Vec<char>, radix: u8) -> (r: Option<u32>)
    ensures
        r == number_value(value@, radix),
{
    if value.len() == 0 {
        return None;
    }
    let mut result: u32 = 0;
    let mut i: usize = 0;
    while i < value.len()
        invariant
            i <= value@.len(),
            value@.len() > 0,
            digits_value(value@.take(i as int), radix) == Some(result as nat),
        decreases value@.len() - i,
    {
        let ghost front = value@.take(i as int);
        let ghost next = value@.take(i + 1);
        proof {
            assert(next.drop_last() =~= front);
        }
        match conver_number_from_char(value[i], radix) {
            Some(num) => {
                assert((result as u64) * (radix as u64) <= 0xffff_ffff * 0xff) by (nonlinear_arith)
                    requires
                        result <= 0xffff_ffff,
                        radix <= 0xff,
                ;
                let wide: u64 = (result as u64) * (radix as u64) + (num as u64);
                if wide > 0xffff_ffff {
                    proof {
                        if digits_value(value@, radix) is Some {
                            digits_value_prefix(value@, radix, i + 1);
                        }
                    }
                    return None;
                }
                result = wide as u32;
            },
            None => {
                proof {
                    if digits_value(value@, radix) is Some {
                        digits_value_prefix(value@, radix, i + 1);
                    }
                }
                return None;
            },
        }
        i = i + 1;
    }
    proof {
        assert(value@.take(value@.len() as int) =~= value@);
    }
    Some(result)
}

/// The integer that a sign and 32 bits of magnitude stand for.
fn apply_sign(sign: i32, number: u32) -> (r: i32)
    ensures
        r == signed_value(sign < 0, number),
{
    if number <= 0x7fff_ffff {
        let v: i32 = number as i32;
        if sign < 0 {
            -v
        } else {
            v
        }
    } else {
        let wide: i64 = (number as i64) - 0x1_0000_0000;
        let v: i32 = wide as i32;
        if sign < 0 {
            if v == i32::MIN {
                v
            } else {
                -v
            }
        } else {
            v
        }
    }
}

/// A stream of tokens cut from a stream of characters.
pub struct TokenStream {
    input: InputCharStream,
    script_name: String,
}

impl TokenStream {
    /// Where the stream of characters stands.
    pub closed spec fn reading(&self) -> Reading {
        self.input.reading()
    }

    /// The name of the script.
    pub closed spec fn name(&self) -> Seq<char> {
        self.script_name@
    }

    /// A stream over the characters of `input_iterator`, under a name that
    /// says that the script has none.
    pub fn new(input_iterator: CharStreamFromBufRead) -> (r: Self)
        ensures
            r.reading() == (Reading {
                upcoming: input_iterator.pending(),
                ahead: 0,
                line: 1,
                column: 0,
            }),
            r.name() == "##UNKNOWN###"@,
    {
        TokenStream {
            input: InputCharStream::new(input_iterator),
            script_name: "##UNKNOWN###".to_owned(),
        }
    }

    /// A stream over the characters of `input_iterator` for the script
    /// `script_name`.
    pub fn new_with_name(input_iterator: CharStreamFromBufRead, script_name: String) -> (r: Self)
        ensures
            r.reading() == (Reading {
                upcoming: input_iterator.pending(),
                ahead: 0,
                line: 1,
                column: 0,
            }),
            r.name() == script_name@,
    {
        TokenStream { input: InputCharStream::new(input_iterator), script_name }
    }

    /// Passes over the separators to come and returns how many they are.
    fn consume_separator(&mut self) -> (r: Result<usize, TokenizerErrorReason>)
        ensures
            final(self).name() == old(self).name(),
            final(self).reading() == advanced(
                old(self).reading(),
                scan_run(old(self).reading().upcoming, Run::Separators, false).looked,
                scan_run(old(self).reading().upcoming, Run::Separators, false).taken,
            ),
            match r {
                Ok(n) => scan_run(old(self).reading().upcoming, Run::Separators, false).value
                    is Ok,
                Err(e) => scan_run(old(self).reading().upcoming, Run::Separators, false).value
                    is Err && e@ == Failure::Io(
                    scan_run(old(self).reading().upcoming, Run::Separators, false).value->Err_0,
                ),
            },
    {
        match self.input.take_run(Run::Separators, false) {
            Ok(v) => Ok(v.len()),
            Err(e) => Err(TokenizerErrorReason::IOError(e)),
        }
    }

    /// Reads a comment.
    fn parse_comment(&mut self) -> (r: Result<TokenizerStatus<String>, TokenizerErrorReason>)
        ensures
            final(self).name() == old(self).name(),
            final(self).reading() == advanced(
                old(self).reading(),
                scan_comment(old(self).reading().upcoming).looked,
                scan_comment(old(self).reading().upcoming).taken,
            ),
            text_outcome(r) == scan_comment(old(self).reading().upcoming).value,
    {
        let ghost start = self.reading();
        let ghost s = start.upcoming;
        proof {
            self.input.reading_is_sound();
            advanced_by_nothing(start);
        }
        match self.input.next() {
            Some(v) => match v {
                Ok(next_char) => {
                    if next_char == '#' {
                        proof {
                            run_len_bound(s.skip(1), Run::Line);
                            let body = scan_run(s.skip(1), Run::Line, false);
                            advanced_twice(start, 1, 1, body.looked, body.taken);
                        }
                        match self.input.take_run(Run::Line, false) {
                            Ok(text) => Ok(TokenizerStatus::Parsed(string_of(&text))),
                            Err(e) => Err(TokenizerErrorReason::IOError(e)),
                        }
                    } else {
                        self.input.push(next_char);
                        proof {
                            put_back(start, 1, next_char);
                        }
                        Ok(TokenizerStatus::Skip)
                    }
                },
                Err(e) => Err(TokenizerErrorReason::IOError(e)),
            },
            None => Ok(TokenizerStatus::Skip),
        }
    }

    /// Reads the four hexadecimal digits behind `\u` as a character.
    fn parse_string_internal_unicode_escape_char(&mut self) -> (r: Result<
        TokenizerStatus<char>,
        TokenizerErrorReason,
    >)
        ensures
            final(self).name() == old(self).name(),
            final(self).reading() == advanced(
                old(self).reading(),
                scan_unicode(old(self).reading().upcoming).looked,
                scan_unicode(old(self).reading().upcoming).taken,
            ),
            plain_outcome(r) == step_outcome(scan_unicode(old(self).reading().upcoming).value),
    {
        let ghost start = self.reading();
        let ghost s = start.upcoming;
        proof {
            self.input.reading_is_sound();
            advanced_by_nothing(start);
        }
        let mut value: Vec<char> = Vec::new();
        let mut ended = false;
        while value.len() < 4 && !ended
            invariant
                start == old(self).reading(),
                s == start.upcoming,
                start.ahead <= s.len(),
                self.script_name == old(self).script_name,
                value@.len() <= 4,
                value@.len() <= s.len(),
                self.reading() == advanced(start, value@.len(), value@.len()),
                value@ == chars_of_items(s.take(value@.len() as int)),
                forall|i: int| 0 <= i < value@.len() ==> (#[trigger] s[i]) is Ok,
                ended ==> value@.len() == s.len(),
            decreases 4 - value@.len() + (if ended { 0int } else { 1int }),
        {
            let ghost k = value@.len();
            let item = self.input.next();
            proof {
                if item is Some {
                    advanced_twice(start, k, k, 1, 1);
                }
            }
            match item {
                Some(Ok(c)) => {
                    value.push(c);
                },
                Some(Err(e)) => {
                    proof {
                        unicode_run_is(s, 4, k);
                    }
                    return Err(TokenizerErrorReason::IOError(e));
                },
                None => {
                    ended = true;
                },
            }
        }
        proof {
            unicode_run_is(s, 4, value@.len());
        }
        if value.len() == 4 {
            match convert_number(&value, 16) {
                Some(num) => match char_from_scalar(num) {
                    Some(c) => Ok(TokenizerStatus::Parsed(c)),
                    None => Err(
                        TokenizerErrorReason::CannotParseUnicodeEscapeChar(string_of(&value)),
                    ),
                },
                None => Err(TokenizerErrorReason::CannotParseUnicodeEscapeChar(string_of(&value))),
            }
        } else {
            Err(TokenizerErrorReason::CannotParseUnicodeEscapeChar(string_of(&value)))
        }
    }

    /// Reads what follows a backslash as the character it stands for.
    fn parse_string_internal_escape_char(&mut self) -> (r: Result<
        TokenizerStatus<char>,
        TokenizerErrorReason,
    >)
        ensures
            final(self).name() == old(self).name(),
            final(self).reading() == advanced(
                old(self).reading(),
                scan_escape(old(self).reading().upcoming).looked,
                scan_escape(old(self).reading().upcoming).taken,
            ),
            plain_outcome(r) == step_outcome(scan_escape(old(self).reading().upcoming).value),
    {
        let ghost start = self.reading();
        let ghost s = start.upcoming;
        proof {
            self.input.reading_is_sound();
            advanced_by_nothing(start);
        }
        match self.input.next() {
            Some(next) => match next {
                Ok(next_char) => {
                    if next_char == 'n' {
                        Ok(TokenizerStatus::Parsed('\n'))
                    } else if next_char == 'r' {
                        Ok(TokenizerStatus::Parsed('\r'))
                    } else if next_char == 't' {
                        Ok(TokenizerStatus::Parsed('\t'))
                    } else if next_char == 'u' {
                        proof {
                            unicode_run_bounds(s.skip(1), 4);
                            let u = scan_unicode(s.skip(1));
                            advanced_twice(start, 1, 1, u.looked, u.taken);
                        }
                        self.parse_string_internal_unicode_escape_char()
                    } else {
                        Ok(TokenizerStatus::Parsed(next_char))
                    }
                },
                Err(e) => Err(TokenizerErrorReason::IOError(e)),
            },
            None => Ok(TokenizerStatus::Skip),
        }
    }

    /// Reads the next character of a string literal that `end_char` closes.
    /// The character that closes the literal is put back.
    fn parse_string_internal_next_char(&mut self, end_char: char) -> (r: Result<
        TokenizerStatus<char>,
        TokenizerErrorReason,
    >)
        ensures
            final(self).name() == old(self).name(),
            final(self).reading() == advanced(
                old(self).reading(),
                scan_string_char(old(self).reading().upcoming, end_char).looked,
                scan_string_char(old(self).reading().upcoming, end_char).taken,
            ),
            plain_outcome(r) == step_outcome(
                scan_string_char(old(self).reading().upcoming, end_char).value,
            ),
    {
        let ghost start = self.reading();
        let ghost s = start.upcoming;
        proof {
            self.input.reading_is_sound();
            advanced_by_nothing(start);
        }
        match self.input.next() {
            Some(next) => match next {
                Ok(next_char) => {
                    if next_char == '\\' {
                        proof {
                            string_char_bounds(s, end_char);
                            let e = scan_escape(s.skip(1));
                            advanced_twice(start, 1, 1, e.looked, e.taken);
                        }
                        self.parse_string_internal_escape_char()
                    } else if next_char == end_char {
                        self.input.push(next_char);
                        proof {
                            put_back(start, 1, next_char);
                        }
                        Ok(TokenizerStatus::Skip)
                    } else {
                        Ok(TokenizerStatus::Parsed(next_char))
                    }
                },
                Err(e) => Err(TokenizerErrorReason::IOError(e)),
            },
            None => Ok(TokenizerStatus::Skip),
        }
    }
}

// ----------------------------------------------------------------------
// How far the functions of the tokenizer read
// ----------------------------------------------------------------------
/// A run that is read takes no more than it looks at, and looks at no more
/// than there is.
pub proof fn scan_run_bounds(s: Seq<CharItem>, run: Run, swallow: bool)
    ensures
        scan_run(s, run, swallow).taken <= scan_run(s, run, swallow).looked <= s.len(),
        scan_run(s, run, swallow).value is Ok ==> scan_run(s, run, swallow).value->Ok_0.len()
            == run_len(s, run),
        scan_run(s, run, swallow).value is Ok && !swallow ==> scan_run(s, run, swallow).taken
            == run_len(s, run),
{
    run_len_bound(s, run);
}

/// Reading a string literal to its end takes no more than it looks at,
/// and where it succeeds at least the mark that closes it.
pub proof fn scan_string_rest_bounds(s: Seq<CharItem>, end_char: char)
    ensures
        scan_string_rest(s, end_char).taken <= scan_string_rest(s, end_char).looked <= s.len(),
        scan_string_rest(s, end_char).value is Ok ==> scan_string_rest(s, end_char).taken >= 1,
    decreases s.len(),
{
    string_char_bounds(s, end_char);
    let step = scan_string_char(s, end_char);
    if step.value is Char {
        scan_string_rest_bounds(s.skip(step.taken as int), end_char);
    }
}

/// Reading a comment takes no more than it looks at and looks at no more
/// than there is: at least one character where it reads a comment, and none
/// where it finds no comment.
pub proof fn scan_comment_bounds(s: Seq<CharItem>)
    ensures
        scan_comment(s).taken <= scan_comment(s).looked <= s.len(),
        s.len() > 0 ==> scan_comment(s).looked >= 1,
        scan_comment(s).value is Parsed ==> scan_comment(s).taken >= 1,
        scan_comment(s).value is Skip ==> scan_comment(s).taken == 0,
{
    if s.len() > 0 {
        scan_run_bounds(s.skip(1), Run::Line, false);
    }
}

/// Reading a string literal takes no more than it looks at and looks at no
/// more than there is: at least one character where it reads a literal, and
/// none where it finds no literal.
pub proof fn scan_string_bounds(s: Seq<CharItem>, start_char: char, end_char: char)
    ensures
        scan_string(s, start_char, end_char).taken <= scan_string(s, start_char, end_char).looked
            <= s.len(),
        s.len() > 0 ==> scan_string(s, start_char, end_char).looked >= 1,
        scan_string(s, start_char, end_char).value is Parsed ==> scan_string(
            s,
            start_char,
            end_char,
        ).taken >= 1,
        scan_string(s, start_char, end_char).value is Skip ==> scan_string(
            s,
            start_char,
            end_char,
        ).taken == 0,
{
    if s.len() > 0 {
        scan_string_rest_bounds(s.skip(1), end_char);
    }
}

/// Reading the sign and the radix of a number takes no more than it looks
/// at, and either finds them or fails.
pub proof fn scan_prefix_bounds(s: Seq<CharItem>)
    ensures
        scan_prefix(s).taken <= scan_prefix(s).looked <= s.len(),
        s.len() > 0 ==> scan_prefix(s).looked >= 1,
        !(scan_prefix(s).value is Skip),
{
}

/// Reading a number takes no more than it looks at; unless it fails, what
/// it takes is the text that it hands on, and a number has at least one
/// character.
pub proof fn scan_number_bounds(s: Seq<CharItem>)
    ensures
        scan_number(s).taken <= scan_number(s).looked <= s.len(),
        s.len() > 0 ==> scan_number(s).looked >= 1,
        !(scan_number(s).value is Failed) ==> scan_number(s).text.len() == scan_number(s).taken,
        scan_number(s).value is Parsed ==> scan_number(s).taken >= 1,
{
    scan_prefix_bounds(s);
    let prefix = scan_prefix(s);
    if prefix.value is Parsed {
        let s2 = s.skip(prefix.taken as int);
        scan_run_bounds(s2, Run::Word, false);
        let body = scan_run(s2, Run::Word, false);
        if body.value is Ok {
            let digits = body.value->Ok_0;
            if digits.len() == 0 {
                assert(without_underscores(digits).len() == 0);
            }
        }
    }
}

/// Reading a word takes no more than it looks at, and at least one
/// character where it finds a word.
pub proof fn scan_word_bounds(s: Seq<CharItem>)
    ensures
        scan_word(s).taken <= scan_word(s).looked <= s.len(),
        s.len() > 0 ==> scan_word(s).looked >= 1,
        scan_word(s).value is Some ==> scan_word(s).taken >= 1,
{
    scan_string_bounds(s, '"', '"');
    scan_number_bounds(s);
}

/// Reading an item takes no more than it looks at, and at least one
/// character where it finds an item.
pub proof fn scan_item_bounds(s: Seq<CharItem>)
    ensures
        scan_item(s).taken <= scan_item(s).looked <= s.len(),
        scan_item(s).value is Some ==> scan_item(s).taken >= 1,
{
    scan_comment_bounds(s);
    scan_word_bounds(s);
}

/// Reading a token takes no more than it looks at; the white space before
/// it is part of both, and a token has at least one character.
pub proof fn scan_token_bounds(s: Seq<CharItem>)
    ensures
        scan_token(s).taken <= scan_token(s).looked <= s.len(),
        scan_token(s).space_taken <= scan_token(s).space_looked <= scan_token(s).looked,
        scan_token(s).space_taken <= scan_token(s).taken,
        scan_token(s).token is Some ==> scan_token(s).taken >= 1,
{
    scan_run_bounds(s, Run::Separators, false);
    let space = scan_run(s, Run::Separators, false);
    if space.value is Ok {
        scan_item_bounds(s.skip(space.taken as int));
    }
}

/// Reading the next token, comments passed over.
pub open spec fn scan_value_token(s: Seq<CharItem>) -> TokenScan
    decreases s.len(),
    via scan_value_token_decreases
{
    let t = scan_token(s);
    match t.token {
        Some(Ok(TokenView::Comment(_))) => {
            let rest = scan_value_token(s.skip(t.taken as int));
            TokenScan {
                token: rest.token,
                space_looked: larger(t.looked, t.taken + rest.space_looked),
                space_taken: t.taken + rest.space_taken,
                looked: larger(t.looked, t.taken + rest.looked),
                taken: t.taken + rest.taken,
            }
        },
        _ => t,
    }
}

#[via_fn]
proof fn scan_value_token_decreases(s: Seq<CharItem>) {
    scan_token_bounds(s);
}

/// Reading a token that is no comment takes no more than it looks at, and
/// never hands back a comment.
pub proof fn scan_value_token_bounds(s: Seq<CharItem>)
    ensures
        scan_value_token(s).taken <= scan_value_token(s).looked <= s.len(),
        scan_value_token(s).space_taken <= scan_value_token(s).space_looked <= scan_value_token(
            s,
        ).looked,
        !(scan_value_token(s).token matches Some(Ok(TokenView::Comment(_)))),
    decreases s.len(),
{
    scan_token_bounds(s);
    let t = scan_token(s);
    if t.token matches Some(Ok(TokenView::Comment(_))) {
        scan_value_token_bounds(s.skip(t.taken as int));
    }
}

proof fn string_step_kinds(s: Seq<CharItem>, end_char: char)
    ensures
        scan_string_char(s, end_char).value matches CharStep::Fail(f) ==> !(f is NotClosed),
{
}

proof fn string_rest_unfold(s: Seq<CharItem>, end_char: char)
    ensures
        scan_string_rest(s, end_char) == match scan_string_char(s, end_char).value {
            CharStep::Char(c) => Scan {
                value: prepend(
                    c,
                    scan_string_rest(
                        s.skip(scan_string_char(s, end_char).taken as int),
                        end_char,
                    ).value,
                ),
                looked: scan_string_char(s, end_char).taken + scan_string_rest(
                    s.skip(scan_string_char(s, end_char).taken as int),
                    end_char,
                ).looked,
                taken: scan_string_char(s, end_char).taken + scan_string_rest(
                    s.skip(scan_string_char(s, end_char).taken as int),
                    end_char,
                ).taken,
            },
            CharStep::Close => Scan { value: Ok(Seq::<char>::empty()), looked: 1, taken: 1 },
            CharStep::End => Scan {
                value: Err(Failure::NotClosed(Seq::<char>::empty())),
                looked: scan_string_char(s, end_char).looked,
                taken: scan_string_char(s, end_char).taken,
            },
            CharStep::Fail(f) => Scan {
                value: Err(f),
                looked: scan_string_char(s, end_char).looked,
                taken: scan_string_char(s, end_char).taken,
            },
        },
{
}

proof fn prepend_all_push(acc: Seq<char>, c: char, v: Result<Seq<char>, Failure>)
    ensures
        prepend_all(acc, prepend(c, v)) == prepend_all(acc.push(c), v),
{
    match v {
        Ok(t) => {
            assert(acc + (seq![c] + t) =~= acc.push(c) + t);
        },
        Err(Failure::NotClosed(t)) => {
            assert(acc + (seq![c] + t) =~= acc.push(c) + t);
        },
        Err(_) => {},
    }
}

proof fn prepend_all_nothing(acc: Seq<char>)
    ensures
        prepend_all(acc, Ok(Seq::<char>::empty())) == Ok::<Seq<char>, Failure>(acc),
        prepend_all(acc, Err(Failure::NotClosed(Seq::<char>::empty()))) == Err::<
            Seq<char>,
            Failure,
        >(Failure::NotClosed(acc)),
        prepend_all(Seq::<char>::empty(), Ok(acc)) == Ok::<Seq<char>, Failure>(acc),
        prepend_all(Seq::<char>::empty(), Err(Failure::NotClosed(acc))) == Err::<
            Seq<char>,
            Failure,
        >(Failure::NotClosed(acc)),
{
}

/// What is left to read of a string literal of which `k` items are read
/// and the characters `acc` are known.
spec fn string_rest_from(body: Seq<CharItem>, end_char: char, k: nat, acc: Seq<char>) -> Scan<
    Result<Seq<char>, Failure>,
> {
    let rest = scan_string_rest(body.skip(k as int), end_char);
    Scan { value: prepend_all(acc, rest.value), looked: k + rest.looked, taken: k + rest.taken }
}

proof fn string_rest_from_start(body: Seq<CharItem>, end_char: char)
    ensures
        string_rest_from(body, end_char, 0, Seq::<char>::empty()) == scan_string_rest(
            body,
            end_char,
        ),
{
    assert(body.skip(0) =~= body);
    let v = scan_string_rest(body, end_char).value;
    match v {
        Ok(t) => {
            prepend_all_nothing(t);
        },
        Err(Failure::NotClosed(t)) => {
            prepend_all_nothing(t);
        },
        Err(_) => {},
    }
}

proof fn string_rest_from_char(body: Seq<CharItem>, end_char: char, k: nat, acc: Seq<char>)
    requires
        k <= body.len(),
        scan_string_char(body.skip(k as int), end_char).value is Char,
    ensures
        string_rest_from(body, end_char, k, acc) == string_rest_from(
            body,
            end_char,
            k + scan_string_char(body.skip(k as int), end_char).taken,
            acc.push(scan_string_char(body.skip(k as int), end_char).value->Char_0),
        ),
        k + scan_string_char(body.skip(k as int), end_char).taken <= body.len(),
        scan_string_char(body.skip(k as int), end_char).taken >= 1,
{
    let here = body.skip(k as int);
    let step = scan_string_char(here, end_char);
    string_char_bounds(here, end_char);
    string_rest_unfold(here, end_char);
    assert(here.skip(step.taken as int) =~= body.skip((k + step.taken) as int));
    prepend_all_push(
        acc,
        step.value->Char_0,
        scan_string_rest(here.skip(step.taken as int), end_char).value,
    );
}

proof fn string_rest_from_stop(body: Seq<CharItem>, end_char: char, k: nat, acc: Seq<char>)
    requires
        k <= body.len(),
        !(scan_string_char(body.skip(k as int), end_char).value is Char),
    ensures
        string_rest_from(body, end_char, k, acc) == match scan_string_char(
            body.skip(k as int),
            end_char,
        ).value {
            CharStep::Close => Scan {
                value: Ok::<Seq<char>, Failure>(acc),
                looked: k + 1,
                taken: k + 1,
            },
            CharStep::End => Scan {
                value: Err::<Seq<char>, Failure>(Failure::NotClosed(acc)),
                looked: k + scan_string_char(body.skip(k as int), end_char).looked,
                taken: k + scan_string_char(body.skip(k as int), end_char).taken,
            },
            CharStep::Fail(f) => Scan {
                value: Err::<Seq<char>, Failure>(f),
                looked: k + scan_string_char(body.skip(k as int), end_char).looked,
                taken: k + scan_string_char(body.skip(k as int), end_char).taken,
            },
            CharStep::Char(_) => string_rest_from(body, end_char, k, acc),
        },
{
    let here = body.skip(k as int);
    string_rest_unfold(here, end_char);
    string_step_kinds(here, end_char);
    prepend_all_nothing(acc);
}

impl TokenStream {
    /// Reads a string literal behind the character that opened it.
    fn parse_string_rest(&mut self, end_char: char) -> (r: Result<String, TokenizerErrorReason>)
        ensures
            final(self).name() == old(self).name(),
            final(self).reading() == advanced(
                old(self).reading(),
                scan_string_rest(old(self).reading().upcoming, end_char).looked,
                scan_string_rest(old(self).reading().upcoming, end_char).taken,
            ),
            match r {
                Ok(t) => scan_string_rest(old(self).reading().upcoming, end_char).value == Ok::<
                    Seq<char>,
                    Failure,
                >(t@),
                Err(e) => scan_string_rest(old(self).reading().upcoming, end_char).value == Err::<
                    Seq<char>,
                    Failure,
                >(e@),
            },
    {
        let ghost inner = self.reading();
        let ghost body = inner.upcoming;
        let ghost total = scan_string_rest(body, end_char);
        let ghost mut k: nat = 0;
        let mut result = String::new();
        proof {
            self.input.reading_is_sound();
            advanced_by_nothing(inner);
            string_rest_from_start(body, end_char);
        }
        loop
            invariant_except_break
                self.reading() == advanced(inner, k, k),
            invariant
                inner == old(self).reading(),
                inner.upcoming == body,
                inner.ahead <= body.len(),
                total == scan_string_rest(body, end_char),
                self.name() == old(self).name(),
                k <= body.len(),
                total == string_rest_from(body, end_char, k, result@),
            ensures
                !(scan_string_char(body.skip(k as int), end_char).value is Char),
                !(scan_string_char(body.skip(k as int), end_char).value is Fail),
                self.reading() == advanced(
                    inner,
                    k + scan_string_char(body.skip(k as int), end_char).looked,
                    k + scan_string_char(body.skip(k as int), end_char).taken,
                ),
            decreases body.len() - k,
        {
            let ghost here = body.skip(k as int);
            let ghost step = scan_string_char(here, end_char);
            proof {
                string_char_bounds(here, end_char);
                advanced_twice(inner, k, k, step.looked, step.taken);
            }
            match self.parse_string_internal_next_char(end_char) {
                Err(e) => {
                    proof {
                        string_rest_from_stop(body, end_char, k, result@);
                    }
                    return Err(e);
                },
                Ok(TokenizerStatus::Parsed(c)) => {
                    proof {
                        string_rest_from_char(body, end_char, k, result@);
                    }
                    result.push(c);
                    proof {
                        k = k + step.taken;
                    }
                },
                Ok(TokenizerStatus::Skip) => {
                    break ;
                },
            }
        }
        let ghost here = body.skip(k as int);
        let ghost step = scan_string_char(here, end_char);
        proof {
            string_char_bounds(here, end_char);
            string_rest_from_stop(body, end_char, k, result@);
            if step.value is Close {
                advanced_twice(inner, k + 1, k, 1, 1);
            }
        }
        match self.input.next() {
            Some(Ok(last_char)) => {
                if last_char == end_char {
                    Ok(result)
                } else {
                    Err(TokenizerErrorReason::StringLiteralIsNotClosed(result))
                }
            },
            Some(Err(e)) => Err(TokenizerErrorReason::IOError(e)),
            None => Err(TokenizerErrorReason::StringLiteralIsNotClosed(result)),
        }
    }

    /// Reads a string literal that `start_char` opens and `end_char`
    /// closes.
    fn parse_string(&mut self, start_char: char, end_char: char) -> (r: Result<
        TokenizerStatus<String>,
        TokenizerErrorReason,
    >)
        ensures
            final(self).name() == old(self).name(),
            final(self).reading() == advanced(
                old(self).reading(),
                scan_string(old(self).reading().upcoming, start_char, end_char).looked,
                scan_string(old(self).reading().upcoming, start_char, end_char).taken,
            ),
            text_outcome(r) == scan_string(old(self).reading().upcoming, start_char, end_char).value,
    {
        let ghost start = self.reading();
        let ghost s = start.upcoming;
        proof {
            self.input.reading_is_sound();
            advanced_by_nothing(start);
        }
        match self.input.next() {
            None => Ok(TokenizerStatus::Skip),
            Some(Err(e)) => Err(TokenizerErrorReason::IOError(e)),
            Some(Ok(next_char)) => {
                if next_char == start_char {
                    proof {
                        let rest = scan_string_rest(s.skip(1), end_char);
                        scan_string_rest_bounds(s.skip(1), end_char);
                        advanced_twice(start, 1, 1, rest.looked, rest.taken);
                    }
                    match self.parse_string_rest(end_char) {
                        Ok(t) => Ok(TokenizerStatus::Parsed(t)),
                        Err(e) => Err(e),
                    }
                } else {
                    self.input.push(next_char);
                    proof {
                        put_back(start, 1, next_char);
                    }
                    Ok(TokenizerStatus::Skip)
                }
            },
        }
    }
}

proof fn chars_take_split(s: Seq<CharItem>, a: nat, b: nat)
    requires
        a + b <= s.len(),
    ensures
        chars_of_items(s.take(a as int)) + chars_of_items(s.skip(a as int).take(b as int))
            == chars_of_items(s.take((a + b) as int)),
{
}

impl TokenStream {
    /// Reads the sign of a number: 1 for `+` and -1 for `-`.
    fn parse_number_prefix_sign(&mut self, parsed_string: &mut String) -> (r: Result<
        TokenizerStatus<i32>,
        TokenizerErrorReason,
    >)
        ensures
            final(self).name() == old(self).name(),
            final(self).reading() == advanced(
                old(self).reading(),
                scan_sign(old(self).reading().upcoming).looked,
                scan_sign(old(self).reading().upcoming).taken,
            ),
            sign_outcome(r) == scan_sign(old(self).reading().upcoming).value,
            r matches Ok(TokenizerStatus::Parsed(v)) ==> v == 1 || v == -1,
            r is Ok ==> final(parsed_string)@ == old(parsed_string)@ + chars_of_items(
                old(self).reading().upcoming.take(
                    scan_sign(old(self).reading().upcoming).taken as int,
                ),
            ),
    {
        let ghost start = self.reading();
        proof {
            self.input.reading_is_sound();
            advanced_by_nothing(start);
        }
        match self.input.next() {
            Some(next) => match next {
                Ok(next_char) => {
                    if next_char == '+' {
                        parsed_string.push(next_char);
                        Ok(TokenizerStatus::Parsed(1))
                    } else if next_char == '-' {
                        parsed_string.push(next_char);
                        Ok(TokenizerStatus::Parsed(-1))
                    } else {
                        self.input.push(next_char);
                        proof {
                            put_back(start, 1, next_char);
                        }
                        Ok(TokenizerStatus::Skip)
                    }
                },
                Err(e) => Err(TokenizerErrorReason::IOError(e)),
            },
            None => Ok(TokenizerStatus::Skip),
        }
    }

    /// Reads the prefix that names the radix of a number.
    fn parse_number_prefix_radix(&mut self, parsed_string: &mut String) -> (r: Result<
        TokenizerStatus<u8>,
        TokenizerErrorReason,
    >)
        ensures
            final(self).name() == old(self).name(),
            final(self).reading() == advanced(
                old(self).reading(),
                scan_radix(old(self).reading().upcoming).looked,
                scan_radix(old(self).reading().upcoming).taken,
            ),
            plain_outcome(r) == scan_radix(old(self).reading().upcoming).value,
            r is Ok ==> final(parsed_string)@ == old(parsed_string)@ + chars_of_items(
                old(self).reading().upcoming.take(
                    scan_radix(old(self).reading().upcoming).taken as int,
                ),
            ),
    {
        let ghost start = self.reading();
        let ghost s = start.upcoming;
        proof {
            self.input.reading_is_sound();
            advanced_by_nothing(start);
        }
        match self.input.next() {
            Some(next) => match next {
                Ok(next_char) => {
                    if next_char == '0' {
                        match self.input.next() {
                            Some(next_next) => {
                                proof {
                                    advanced_twice(start, 1, 1, 1, 1);
                                }
                                match next_next {
                                    Ok(next_next_char) => {
                                        if next_next_char == 'b' || next_next_char == 'o'
                                            || next_next_char == 'x' {
                                            parsed_string.push(next_char);
                                            parsed_string.push(next_next_char);
                                            if next_next_char == 'b' {
                                                Ok(TokenizerStatus::Parsed(2))
                                            } else if next_next_char == 'o' {
                                                Ok(TokenizerStatus::Parsed(8))
                                            } else {
                                                Ok(TokenizerStatus::Parsed(16))
                                            }
                                        } else {
                                            self.input.push(next_next_char);
                                            self.input.push(next_char);
                                            proof {
                                                put_back(start, 2, next_next_char);
                                                assert(self.reading().upcoming =~= s.skip(0));
                                            }
                                            Ok(TokenizerStatus::Skip)
                                        }
                                    },
                                    Err(e) => Err(TokenizerErrorReason::IOError(e)),
                                }
                            },
                            None => {
                                self.input.push(next_char);
                                proof {
                                    put_back(start, 1, next_char);
                                }
                                Ok(TokenizerStatus::Skip)
                            },
                        }
                    } else {
                        self.input.push(next_char);
                        proof {
                            put_back(start, 1, next_char);
                        }
                        Ok(TokenizerStatus::Skip)
                    }
                },
                Err(e) => Err(TokenizerErrorReason::IOError(e)),
            },
            None => Ok(TokenizerStatus::Skip),
        }
    }

    /// Reads the digits of a number, up to the next separator. The
    /// underscores among them are left out of the digits.
    fn parse_number_body(&mut self, parsed_string: &mut String) -> (r: Result<
        TokenizerStatus<Vec<char>>,
        TokenizerErrorReason,
    >)
        ensures
            final(self).name() == old(self).name(),
            final(self).reading() == advanced(
                old(self).reading(),
                scan_run(old(self).reading().upcoming, Run::Word, false).looked,
                scan_run(old(self).reading().upcoming, Run::Word, false).taken,
            ),
            match r {
                Ok(TokenizerStatus::Parsed(d)) => scan_run(
                    old(self).reading().upcoming,
                    Run::Word,
                    false,
                ).value is Ok && d@ == without_underscores(
                    scan_run(old(self).reading().upcoming, Run::Word, false).value->Ok_0,
                ) && final(parsed_string)@ == old(parsed_string)@ + scan_run(
                    old(self).reading().upcoming,
                    Run::Word,
                    false,
                ).value->Ok_0,
                Ok(TokenizerStatus::Skip) => false,
                Err(e) => scan_run(old(self).reading().upcoming, Run::Word, false).value is Err
                    && e@ == Failure::Io(
                    scan_run(old(self).reading().upcoming, Run::Word, false).value->Err_0,
                ),
            },
    {
        match self.input.take_run(Run::Word, false) {
            Ok(text) => {
                let mut result: Vec<char> = Vec::new();
                let mut i: usize = 0;
                while i < text.len()
                    invariant
                        i <= text@.len(),
                        result@ == without_underscores(text@.take(i as int)),
                        parsed_string@ == old(parsed_string)@ + text@.take(i as int),
                    decreases text@.len() - i,
                {
                    let c: char = text[i];
                    proof {
                        assert(text@.take(i + 1).drop_last() =~= text@.take(i as int));
                    }
                    if c != '_' {
                        result.push(c);
                    }
                    parsed_string.push(c);
                    i = i + 1;
                }
                assert(text@.take(text@.len() as int) =~= text@);
                Ok(TokenizerStatus::Parsed(result))
            },
            Err(e) => Err(TokenizerErrorReason::IOError(e)),
        }
    }

    /// Reads what stands before the digits of a number: the sign, 1 or -1,
    /// and the radix.
    fn parse_number_prefix(&mut self, parsed_string: &mut String) -> (r: Result<
        (i32, u8),
        TokenizerErrorReason,
    >)
        ensures
            final(self).name() == old(self).name(),
            final(self).reading() == advanced(
                old(self).reading(),
                scan_prefix(old(self).reading().upcoming).looked,
                scan_prefix(old(self).reading().upcoming).taken,
            ),
            match r {
                Ok((sign, radix)) => scan_prefix(old(self).reading().upcoming).value
                    == Outcome::Parsed((sign < 0, radix)) && final(parsed_string)@ == old(
                    parsed_string,
                )@ + chars_of_items(
                    old(self).reading().upcoming.take(
                        scan_prefix(old(self).reading().upcoming).taken as int,
                    ),
                ),
                Err(e) => scan_prefix(old(self).reading().upcoming).value == Outcome::<
                    (bool, u8),
                >::Failed(e@),
            },
    {
        let ghost start = self.reading();
        let ghost s = start.upcoming;
        let ghost sg = scan_sign(s);
        let ghost rd = scan_radix(s.skip(sg.taken as int));
        proof {
            self.input.reading_is_sound();
        }
        let sign_result = self.parse_number_prefix_sign(parsed_string);
        let sign: i32 = match sign_result {
            Ok(TokenizerStatus::Parsed(sign)) => sign,
            Ok(TokenizerStatus::Skip) => 1,
            Err(e) => {
                return Err(e);
            },
        };
        proof {
            advanced_twice(start, sg.looked, sg.taken, rd.looked, rd.taken);
            chars_take_split(s, sg.taken, rd.taken);
        }
        let radix_result = self.parse_number_prefix_radix(parsed_string);
        let radix: u8 = match radix_result {
            Ok(TokenizerStatus::Parsed(radix)) => radix,
            Ok(TokenizerStatus::Skip) => 10,
            Err(e) => {
                return Err(e);
            },
        };
        Ok((sign, radix))
    }

    /// Reads a number. The characters that were read are appended to
    /// `parsed_string`, for the symbol that they are where they are no
    /// number.
    fn parse_number(&mut self, parsed_string: &mut String) -> (r: Result<
        TokenizerStatus<i32>,
        TokenizerErrorReason,
    >)
        ensures
            final(self).name() == old(self).name(),
            final(self).reading() == advanced(
                old(self).reading(),
                scan_number(old(self).reading().upcoming).looked,
                scan_number(old(self).reading().upcoming).taken,
            ),
            plain_outcome(r) == scan_number(old(self).reading().upcoming).value,
            r is Ok ==> final(parsed_string)@ == old(parsed_string)@ + scan_number(
                old(self).reading().upcoming,
            ).text,
    {
        let ghost start = self.reading();
        let ghost s = start.upcoming;
        let ghost px = scan_prefix(s);
        let ghost s2 = s.skip(px.taken as int);
        let ghost bd = scan_run(s2, Run::Word, false);
        proof {
            self.input.reading_is_sound();
            scan_prefix_bounds(s);
            scan_run_bounds(s2, Run::Word, false);
        }
        let (sign, radix) = match self.parse_number_prefix(parsed_string) {
            Ok(p) => p,
            Err(e) => {
                return Err(e);
            },
        };
        proof {
            advanced_twice(start, px.looked, px.taken, bd.looked, bd.taken);
        }
        let body_result = self.parse_number_body(parsed_string);
        match body_result {
            Ok(TokenizerStatus::Parsed(body)) => {
                proof {
                    chars_take_split(s, px.taken, bd.taken);
                }
                match convert_number(&body, radix) {
                    Some(number) => Ok(TokenizerStatus::Parsed(apply_sign(sign, number))),
                    None => Ok(TokenizerStatus::Skip),
                }
            },
            Ok(TokenizerStatus::Skip) => Ok(TokenizerStatus::Skip),
            Err(e) => Err(e),
        }
    }

    /// Reads a token that is no comment. A failure is reported at the given
    /// line and column.
    fn next_word(&mut self, line_number: LineNumber, column_number: ColumnNumber) -> (r: Option<
        Result<TokenWithComment, TokenizerError>,
    >)
        ensures
            final(self).name() == old(self).name(),
            final(self).reading() == advanced(
                old(self).reading(),
                scan_word(old(self).reading().upcoming).looked,
                scan_word(old(self).reading().upcoming).taken,
            ),
            match r {
                None => scan_word(old(self).reading().upcoming).value is None,
                Some(Ok(t)) => scan_word(old(self).reading().upcoming).value == Some(
                    Ok::<TokenView, Failure>(t@),
                ),
                Some(Err(e)) => scan_word(old(self).reading().upcoming).value == Some(
                    Err::<TokenView, Failure>(e.2@),
                ) && e.0 == line_number && e.1 == column_number,
            },
    {
        let ghost start = self.reading();
        let ghost s = start.upcoming;
        let ghost st = scan_string(s, '"', '"');
        let ghost nb = scan_number(s);
        proof {
            self.input.reading_is_sound();
            scan_string_bounds(s, '"', '"');
            scan_number_bounds(s);
            assert(s.skip(0) =~= s);
        }
        match self.parse_string('"', '"') {
            Ok(TokenizerStatus::Parsed(v)) => Some(
                Ok(TokenWithComment::Token(ValueToken::StrValue(v))),
            ),
            Ok(TokenizerStatus::Skip) => {
                proof {
                    advanced_twice(start, st.looked, st.taken, nb.looked, nb.taken);
                }
                let mut parsed_string = String::new();
                let number = self.parse_number(&mut parsed_string);
                match number {
                    Ok(TokenizerStatus::Parsed(v)) => Some(
                        Ok(TokenWithComment::Token(ValueToken::IntValue(v))),
                    ),
                    Ok(TokenizerStatus::Skip) => {
                        if !parsed_string.as_str().is_empty() {
                            Some(Ok(TokenWithComment::Token(ValueToken::Symbol(parsed_string))))
                        } else {
                            None
                        }
                    },
                    Err(e) => Some(Err(TokenizerError(line_number, column_number, e))),
                }
            },
            Err(e) => Some(Err(TokenizerError(line_number, column_number, e))),
        }
    }

    /// Reads a token or a comment that stands at the front of the input. A
    /// failure is reported at the given line and column.
    fn next_item(&mut self, line_number: LineNumber, column_number: ColumnNumber) -> (r: Option<
        Result<TokenWithComment, TokenizerError>,
    >)
        ensures
            final(self).name() == old(self).name(),
            final(self).reading() == advanced(
                old(self).reading(),
                scan_item(old(self).reading().upcoming).looked,
                scan_item(old(self).reading().upcoming).taken,
            ),
            match r {
                None => scan_item(old(self).reading().upcoming).value is None,
                Some(Ok(t)) => scan_item(old(self).reading().upcoming).value == Some(
                    Ok::<TokenView, Failure>(t@),
                ),
                Some(Err(e)) => scan_item(old(self).reading().upcoming).value == Some(
                    Err::<TokenView, Failure>(e.2@),
                ) && e.0 == line_number && e.1 == column_number,
            },
    {
        let ghost start = self.reading();
        let ghost s = start.upcoming;
        let ghost cm = scan_comment(s);
        let ghost wd = scan_word(s);
        proof {
            self.input.reading_is_sound();
            scan_comment_bounds(s);
            scan_word_bounds(s);
            assert(s.skip(0) =~= s);
        }
        match self.parse_comment() {
            Ok(TokenizerStatus::Parsed(v)) => Some(Ok(TokenWithComment::Comment(v))),
            Ok(TokenizerStatus::Skip) => {
                proof {
                    advanced_twice(start, cm.looked, cm.taken, wd.looked, wd.taken);
                }
                self.next_word(line_number, column_number)
            },
            Err(e) => Some(Err(TokenizerError(line_number, column_number, e))),
        }
    }

    /// The next token or comment; nothing at the end of the input. A
    /// failure carries the line and the column at which the stream stood
    /// behind the separators.
    pub fn next_token_with_comment(&mut self) -> (r: Option<
        Result<TokenWithComment, TokenizerError>,
    >)
        ensures
            final(self).name() == old(self).name(),
            final(self).reading() == advanced(
                old(self).reading(),
                scan_token(old(self).reading().upcoming).looked,
                scan_token(old(self).reading().upcoming).taken,
            ),
            match r {
                None => scan_token(old(self).reading().upcoming).token is None,
                Some(Ok(t)) => scan_token(old(self).reading().upcoming).token == Some(
                    Ok::<TokenView, Failure>(t@),
                ),
                Some(Err(e)) => scan_token(old(self).reading().upcoming).token == Some(
                    Err::<TokenView, Failure>(e.2@),
                ) && e.0 == advanced(
                    old(self).reading(),
                    scan_token(old(self).reading().upcoming).space_looked,
                    scan_token(old(self).reading().upcoming).space_taken,
                ).line && e.1 == advanced(
                    old(self).reading(),
                    scan_token(old(self).reading().upcoming).space_looked,
                    scan_token(old(self).reading().upcoming).space_taken,
                ).column,
            },
    {
        let ghost start = self.reading();
        let ghost s = start.upcoming;
        let ghost space = scan_run(s, Run::Separators, false);
        let ghost item = scan_item(s.skip(space.taken as int));
        proof {
            self.input.reading_is_sound();
            scan_run_bounds(s, Run::Separators, false);
            scan_item_bounds(s.skip(space.taken as int));
        }
        if let Err(e) = self.consume_separator() {
            return Some(
                Err(TokenizerError(self.input.line_number(), self.input.column_number(), e)),
            );
        }
        let line_number = self.input.line_number();
        let column_number = self.input.column_number();
        proof {
            advanced_twice(start, space.looked, space.taken, item.looked, item.taken);
        }
        self.next_item(line_number, column_number)
    }
}

/// What is left to read of a token of which `t` items are taken and `l`
/// items were read.
spec fn value_token_from(s: Seq<CharItem>, l: nat, t: nat) -> TokenScan {
    let rest = scan_value_token(s.skip(t as int));
    TokenScan {
        token: rest.token,
        space_looked: larger(l, t + rest.space_looked),
        space_taken: t + rest.space_taken,
        looked: larger(l, t + rest.looked),
        taken: t + rest.taken,
    }
}

proof fn value_token_from_start(s: Seq<CharItem>)
    ensures
        value_token_from(s, 0, 0) == scan_value_token(s),
{
    assert(s.skip(0) =~= s);
}

proof fn value_token_from_comment(s: Seq<CharItem>, l: nat, t: nat)
    requires
        t <= s.len(),
        scan_token(s.skip(t as int)).token matches Some(Ok(TokenView::Comment(_))),
    ensures
        value_token_from(s, l, t) == value_token_from(
            s,
            larger(l, t + scan_token(s.skip(t as int)).looked),
            t + scan_token(s.skip(t as int)).taken,
        ),
        t + scan_token(s.skip(t as int)).taken <= s.len(),
        scan_token(s.skip(t as int)).taken >= 1,
{
    let here = s.skip(t as int);
    let tk = scan_token(here);
    scan_token_bounds(here);
    assert(here.skip(tk.taken as int) =~= s.skip((t + tk.taken) as int));
}

proof fn value_token_from_stop(s: Seq<CharItem>, l: nat, t: nat)
    requires
        t <= s.len(),
        !(scan_token(s.skip(t as int)).token matches Some(Ok(TokenView::Comment(_)))),
    ensures
        value_token_from(s, l, t) == (TokenScan {
            token: scan_token(s.skip(t as int)).token,
            space_looked: larger(l, t + scan_token(s.skip(t as int)).space_looked),
            space_taken: t + scan_token(s.skip(t as int)).space_taken,
            looked: larger(l, t + scan_token(s.skip(t as int)).looked),
            taken: t + scan_token(s.skip(t as int)).taken,
        }),
{
}

/// Whether reading the next token takes the stream from `before` to
/// `after` and hands back `r`: the token is the one that
/// [`scan_value_token`] finds in what is to come, with the line and the
/// column at which the stream stood before; a failure carries the line and
/// the column at which the stream stood behind the separators before it.
pub open spec fn token_read(before: TokenStream, after: TokenStream, r: Option<Token>) -> bool {
    let scan = scan_value_token(before.reading().upcoming);
    &&& after.name() == before.name()
    &&& after.reading() == advanced(before.reading(), scan.looked, scan.taken)
    &&& match r {
        None => scan.token is None,
        Some(token) => token.line_number == before.reading().line && token.column_number
            == before.reading().column && match token.value_token {
            Ok(t) => scan.token == Some(Ok::<TokenView, Failure>(t@)),
            Err(e) => scan.token == Some(Err::<TokenView, Failure>(e.2@)) && e.0 == advanced(
                before.reading(),
                scan.space_looked,
                scan.space_taken,
            ).line && e.1 == advanced(before.reading(), scan.space_looked, scan.space_taken).column,
        },
    }
}

impl TokenIterator for TokenStream {
    /// The next token, comments passed over; nothing at the end of the
    /// input. A failure carries the line and the column at which the stream
    /// stood behind the separators before it.
    fn next(&mut self) -> (r: Option<TokenStreamItem>)
        ensures
            final(self).name() == old(self).name(),
            final(self).reading() == advanced(
                old(self).reading(),
                scan_value_token(old(self).reading().upcoming).looked,
                scan_value_token(old(self).reading().upcoming).taken,
            ),
            match r {
                None => scan_value_token(old(self).reading().upcoming).token is None,
                Some(Ok(t)) => scan_value_token(old(self).reading().upcoming).token == Some(
                    Ok::<TokenView, Failure>(t@),
                ),
                Some(Err(e)) => scan_value_token(old(self).reading().upcoming).token == Some(
                    Err::<TokenView, Failure>(e.2@),
                ) && e.0 == advanced(
                    old(self).reading(),
                    scan_value_token(old(self).reading().upcoming).space_looked,
                    scan_value_token(old(self).reading().upcoming).space_taken,
                ).line && e.1 == advanced(
                    old(self).reading(),
                    scan_value_token(old(self).reading().upcoming).space_looked,
                    scan_value_token(old(self).reading().upcoming).space_taken,
                ).column,
            },
    {
        let ghost start = self.reading();
        let ghost s = start.upcoming;
        let ghost total = scan_value_token(s);
        let ghost mut l: nat = 0;
        let ghost mut t: nat = 0;
        proof {
            self.input.reading_is_sound();
            advanced_by_nothing(start);
            value_token_from_start(s);
        }
        loop
            invariant
                start == old(self).reading(),
                s == start.upcoming,
                start.ahead <= s.len(),
                total == scan_value_token(s),
                self.name() == old(self).name(),
                t <= l <= s.len(),
                self.reading() == advanced(start, l, t),
                total == value_token_from(s, l, t),
            decreases s.len() - t,
        {
            let ghost here = s.skip(t as int);
            let ghost tk = scan_token(here);
            proof {
                scan_token_bounds(here);
                advanced_twice(start, l, t, tk.looked, tk.taken);
                advanced_twice(start, l, t, tk.space_looked, tk.space_taken);
            }
            let next = self.next_token_with_comment();
            match next {
                Some(Ok(TokenWithComment::Comment(_))) => {
                    proof {
                        value_token_from_comment(s, l, t);
                        l = larger(l, t + tk.looked);
                        t = t + tk.taken;
                    }
                },
                Some(Ok(TokenWithComment::Token(v))) => {
                    proof {
                        value_token_from_stop(s, l, t);
                    }
                    return Some(Ok(v));
                },
                Some(Err(e)) => {
                    proof {
                        value_token_from_stop(s, l, t);
                    }
                    return Some(Err(e));
                },
                None => {
                    proof {
                        value_token_from_stop(s, l, t);
                    }
                    return None;
                },
            }
        }
    }

    /// The next token, as `next` gives it, with the line and the column at
    /// which the stream stood before it was read.
    fn next_token(&mut self) -> (r: Option<Token>)
        ensures
            token_read(*old(self), *final(self), r),
    {
        let line_number = self.input.line_number();
        let column_number = self.input.column_number();
        match self.next() {
            Some(x) => Some(Token { line_number, column_number, value_token: x }),
            None => None,
        }
    }

    fn script_name(&self) -> (r: &String)
        ensures
            r@ == self.name(),
    {
        &self.script_name
    }

    /// Takes the characters up to and including `end_char` and returns
    /// those before it. A failure carries the line and the column at which
    /// the stream stands behind it.
    fn skip(&mut self, end_char: char) -> (r: Result<String, TokenizerError>)
        ensures
            final(self).name() == old(self).name(),
            final(self).reading() == advanced(
                old(self).reading(),
                scan_run(old(self).reading().upcoming, Run::Until(end_char), true).looked,
                scan_run(old(self).reading().upcoming, Run::Until(end_char), true).taken,
            ),
            match r {
                Ok(t) => scan_run(old(self).reading().upcoming, Run::Until(end_char), true).value
                    == Ok::<Seq<char>, IoFailure>(t@),
                Err(e) => scan_run(old(self).reading().upcoming, Run::Until(end_char), true).value
                    is Err && e.2@ == Failure::Io(
                    scan_run(
                        old(self).reading().upcoming,
                        Run::Until(end_char),
                        true,
                    ).value->Err_0,
                ) && e.0 == final(self).reading().line && e.1 == final(self).reading().column,
            },
    {
        match self.input.take_run(Run::Until(end_char), true) {
            Ok(text) => Ok(string_of(&text)),
            Err(e) => Err(
                TokenizerError(
                    self.input.line_number(),
                    self.input.column_number(),
                    TokenizerErrorReason::IOError(e),
                ),
            ),
        }
    }
}

/// The tokens of `v`.
pub fn new_token_stream_from_str(v: &str) -> (r: TokenStream)
    ensures
        r.reading() == (Reading {
            upcoming: items(encode_utf8(v@)),
            ahead: 0,
            line: 1,
            column: 0,
        }),
        r.name() == "##UNKNOWN###"@,
{
    TokenStream::new(char_stream_from_buf_read_from_str(v))
}

/// A stream without tokens, under the name of a script that is none.
pub fn empty_token_stream() -> (r: TokenStream)
    ensures
        r.reading() == (Reading {
            upcoming: Seq::<CharItem>::empty(),
            ahead: 0,
            line: 1,
            column: 0,
        }),
        r.name() == "###DUMMY###"@,
{
    let bytes: Vec<u8> = Vec::new();
    TokenStream::new_with_name(
        CharStreamFromBufRead::new(CharReaderFromString::from_bytes(bytes)),
        "###DUMMY###".to_owned(),
    )
}

/// The tokens of the resource `resource_name`, of which `bytes` is the
/// content.
pub fn create_token_iterator(resource_name: &String, bytes: Vec<u8>) -> (r: TokenStream)
    ensures
        r.reading() == (Reading { upcoming: items(bytes@), ahead: 0, line: 1, column: 0 }),
        r.name() == resource_name@,
{
    TokenStream::new_with_name(
        CharStreamFromBufRead::new(CharReaderFromString::from_bytes(bytes)),
        resource_name.clone(),
    )
}

/// An input without items holds no token.
pub proof fn empty_input_has_no_token()
    ensures
        scan_token(Seq::<CharItem>::empty()).token is None,
        scan_token(Seq::<CharItem>::empty()).taken == 0,
        scan_value_token(Seq::<CharItem>::empty()).token is None,
        scan_value_token(Seq::<CharItem>::empty()).taken == 0,
{
}

// ----------------------------------------------------------------------
// What holds of the tokenizer
// ----------------------------------------------------------------------
/// The character that stands for the digit `d`.
pub open spec fn digit_char(d: nat) -> char {
    ((d + 48) as u8) as char
}

/// The digits of `n` in base ten, without leading zeros.
pub open spec fn decimal_digits(n: nat) -> Seq<char>
    decreases n,
{
    if n < 10 {
        seq![digit_char(n)]
    } else {
        decimal_digits(n / 10).push(digit_char(n % 10))
    }
}

/// `n` as it is written in base ten, with a minus sign where it is
/// negative.
pub open spec fn decimal_text(n: int) -> Seq<char> {
    if n < 0 {
        seq!['-'] + decimal_digits((-n) as nat)
    } else {
        decimal_digits(n as nat)
    }
}

/// Whether `c` is one of the ten digits.
pub open spec fn is_decimal_digit(c: char) -> bool {
    '0' <= c && c <= '9'
}

proof fn digit_char_is_digit(d: nat)
    requires
        d < 10,
    ensures
        is_decimal_digit(digit_char(d)),
        digit_value(digit_char(d), 10) == Some(d as u32),
{
}

proof fn decimal_digits_are_digits(n: nat)
    ensures
        decimal_digits(n).len() >= 1,
        forall|i: int| 0 <= i < decimal_digits(n).len() ==> is_decimal_digit(
            #[trigger] decimal_digits(n)[i],
        ),
        digits_value(decimal_digits(n), 10) == Some(n),
    decreases n,
{
    if n < 10 {
        digit_char_is_digit(n);
        let ds = decimal_digits(n);
        assert(digits_value(ds.drop_last(), 10) == Some(0nat));
    } else {
        decimal_digits_are_digits(n / 10);
        digit_char_is_digit(n % 10);
        let front = decimal_digits(n / 10);
        let ds = decimal_digits(n);
        assert(ds.drop_last() =~= front);
    }
}

proof fn without_underscores_of_plain(t: Seq<char>)
    requires
        forall|i: int| 0 <= i < t.len() ==> #[trigger] t[i] != '_',
    ensures
        without_underscores(t) == t,
    decreases t.len(),
{
    if t.len() > 0 {
        without_underscores_of_plain(t.drop_last());
    }
}

/// The integer that is written in base ten reads as itself: the text of
/// `n` is one token, the integer `n`, and nothing of it is left.
pub proof fn written_integer_reads_back(n: i32)
    ensures
        scan_token(as_items(decimal_text(n as int))).token == Some(
            Ok::<TokenView, Failure>(TokenView::IntValue(n)),
        ),
        scan_token(as_items(decimal_text(n as int))).taken == decimal_text(n as int).len(),
{
    let negative = n < 0;
    let magnitude: nat = if negative {
        (-(n as int)) as nat
    } else {
        n as nat
    };
    let ds = decimal_digits(magnitude);
    let text = decimal_text(n as int);
    let s = as_items(text);
    decimal_digits_are_digits(magnitude);
    let lead: nat = if negative {
        1
    } else {
        0
    };
    assert(text.len() == lead + ds.len());
    assert forall|i: int| lead <= i < text.len() implies is_decimal_digit(#[trigger] text[i]) by {
        assert(text[i] == ds[i - lead]);
    }
    // No separator stands before the token.
    let first = text[0];
    assert(!is_separator(first));
    run_len_is(s, Run::Separators, 0);
    assert(s.skip(0) =~= s);
    // The sign.
    let sign = scan_sign(s);
    assert(sign.taken == lead);
    let s1 = s.skip(lead as int);
    assert(s1 =~= as_items(ds));
    // No prefix names a radix.
    let radix = scan_radix(s1);
    if ds.len() >= 2 {
        assert(is_decimal_digit(ds[1]));
    }
    assert(radix.value is Skip && radix.taken == 0);
    let prefix = scan_prefix(s);
    assert(prefix.value == Outcome::Parsed((negative, 10u8)));
    assert(prefix.taken == lead);
    // The digits.
    assert forall|i: int| 0 <= i < ds.len() implies (#[trigger] s1[i]) is Ok && !ends_run(
        Run::Word,
        s1[i]->Ok_0,
    ) by {
        assert(is_decimal_digit(ds[i]));
    }
    run_len_is(s1, Run::Word, ds.len());
    let body = scan_run(s1, Run::Word, false);
    assert(s1.take(ds.len() as int) =~= s1);
    assert(chars_of_items(s1) =~= ds);
    assert(body.value == Ok::<Seq<char>, IoFailure>(ds));
    assert forall|i: int| 0 <= i < ds.len() implies #[trigger] ds[i] != '_' by {
        assert(is_decimal_digit(ds[i]));
    }
    without_underscores_of_plain(ds);
    assert(number_value(ds, 10) == Some(magnitude as u32));
    assert(signed_value(negative, magnitude as u32) == n);
    let number = scan_number(s);
    assert(number.value == Outcome::Parsed(n));
    assert(number.taken == text.len());
    // Neither a comment nor a string literal.
    assert(scan_comment(s).value is Skip);
    assert(scan_string(s, '"', '"').value is Skip);
    assert(scan_word(s).value == Some(Ok::<TokenView, Failure>(TokenView::IntValue(n))));
    assert(scan_item(s).value == Some(Ok::<TokenView, Failure>(TokenView::IntValue(n))));
}

proof fn open_string_rest(t: Seq<char>, end_char: char)
    requires
        forall|i: int| 0 <= i < t.len() ==> #[trigger] t[i] != end_char && t[i] != '\\',
    ensures
        scan_string_rest(as_items(t), end_char) == (Scan {
            value: Err::<Seq<char>, Failure>(Failure::NotClosed(t)),
            looked: t.len(),
            taken: t.len(),
        }),
    decreases t.len(),
{
    let s = as_items(t);
    if t.len() == 0 {
        assert(t =~= Seq::<char>::empty());
    } else {
        let rest = t.drop_first();
        open_string_rest(rest, end_char);
        assert(s.skip(1) =~= as_items(rest));
        assert(seq![t[0]] + rest =~= t);
    }
}

/// A string literal that the input ends in is not closed: the failure
/// holds the characters that stand behind the quotation mark, and nothing
/// of the input is left. This is stated of the characters that stand for
/// themselves, that is of all but the quotation mark and the backslash.
pub proof fn open_string_is_not_closed(t: Seq<char>)
    requires
        forall|i: int| 0 <= i < t.len() ==> #[trigger] t[i] != '"' && t[i] != '\\',
    ensures
        scan_token(as_items(seq!['"'] + t)).token == Some(
            Err::<TokenView, Failure>(Failure::NotClosed(t)),
        ),
        scan_token(as_items(seq!['"'] + t)).taken == t.len() + 1,
{
    let text = seq!['"'] + t;
    let s = as_items(text);
    run_len_is(s, Run::Separators, 0);
    assert(s.skip(0) =~= s);
    open_string_rest(t, '"');
    assert(s.skip(1) =~= as_items(t));
}

} // verus!
