//! Values as text, for what is written out.

use super::tokenizer::decimal_digits;
use super::tokenizer::decimal_text;
use super::tokenizer::digit_char;
use vstd::prelude::*;
use vstd::string::StringExecFns;

verus! {

/// A value that can be written out.
pub trait Text {
    /// What is written for the value.
    spec fn text(&self) -> Seq<char>;

    /// Appends to `f` what is written for the value.
    fn write_text(&self, f: &mut String)
        ensures
            final(f)@ == old(f)@ + self.text(),
    ;
}

/// The character that stands for the digit `d`.
fn digit_char_of(d: u8) -> (c: char)
    requires
        d < 10,
    ensures
        c == digit_char(d as nat),
{
    (48 + d) as char
}

/// Appends the digits of `n` in base ten to `out`.
pub fn append_decimal(out: &mut String, n: u64)
    ensures
        final(out)@ == old(out)@ + decimal_digits(n as nat),
    decreases n,
{
    if n < 10 {
        out.push(digit_char_of(n as u8));
    } else {
        append_decimal(out, n / 10);
        out.push(digit_char_of((n % 10) as u8));
    }
}

/// `n` as it is written in base ten.
pub fn decimal_string(n: i32) -> (r: String)
    ensures
        r@ == decimal_text(n as int),
{
    let mut r = String::new();
    if n < 0 {
        r.push('-');
        let wide: i64 = 0 - (n as i64);
        append_decimal(&mut r, wide as u64);
    } else {
        append_decimal(&mut r, n as u64);
    }
    r
}

impl Text for usize {
    open spec fn text(&self) -> Seq<char> {
        decimal_digits(*self as nat)
    }

    fn write_text(&self, f: &mut String) {
        append_decimal(f, *self as u64);
    }
}

impl Text for u32 {
    open spec fn text(&self) -> Seq<char> {
        decimal_digits(*self as nat)
    }

    fn write_text(&self, f: &mut String) {
        append_decimal(f, *self as u64);
    }
}

impl Text for i32 {
    open spec fn text(&self) -> Seq<char> {
        decimal_text(*self as int)
    }

    fn write_text(&self, f: &mut String) {
        let s = decimal_string(*self);
        f.append(s.as_str());
    }
}

impl Text for bool {
    open spec fn text(&self) -> Seq<char> {
        if *self {
            "true"@
        } else {
            "false"@
        }
    }

    fn write_text(&self, f: &mut String) {
        if *self {
            f.append("true");
        } else {
            f.append("false");
        }
    }
}

impl Text for String {
    open spec fn text(&self) -> Seq<char> {
        self@
    }

    fn write_text(&self, f: &mut String) {
        f.append(self.as_str());
    }
}

/// The lines that are written for the pairs `pairs`, the first first: each
/// line holds a pair between angle brackets, and ends with `end`.
pub open spec fn pairs_text<A: Text, B: Text>(pairs: Seq<(A, B)>, end: Seq<char>) -> Seq<char>
    decreases pairs.len(),
{
    if pairs.len() == 0 {
        Seq::empty()
    } else {
        pairs_text(pairs.drop_last(), end) + "  <"@ + pairs.last().0.text() + ","@
            + pairs.last().1.text() + end
    }
}

/// Appends to `f` the lines that are written for `pairs`, each ended by
/// `end`.
pub fn write_pairs<A: Text, B: Text>(pairs: &Vec<(A, B)>, end: &str, f: &mut String)
    ensures
        final(f)@ == old(f)@ + pairs_text(pairs@, end@),
{
    let mut i: usize = 0;
    while i < pairs.len()
        invariant
            i <= pairs@.len(),
            f@ == old(f)@ + pairs_text(pairs@.take(i as int), end@),
        decreases pairs@.len() - i,
    {
        f.append("  <");
        pairs[i].0.write_text(f);
        f.append(",");
        pairs[i].1.write_text(f);
        f.append(end);
        proof {
            let next = pairs@.take(i + 1);
            assert(next.drop_last() =~= pairs@.take(i as int));
        }
        i = i + 1;
    }
    assert(pairs@.take(i as int) =~= pairs@);
}

/// The lines that are written for the cells `cells`, the lowest first:
/// each line holds, between angle brackets, the index of a cell and the
/// cell.
pub open spec fn cells_text<V: Text>(cells: Seq<V>) -> Seq<char>
    decreases cells.len(),
{
    if cells.len() == 0 {
        Seq::empty()
    } else {
        cells_text(cells.drop_last()) + "  <"@ + decimal_digits((cells.len() - 1) as nat) + ","@
            + cells.last().text() + ">\n"@
    }
}

/// Appends to `f` the lines that are written for `cells`.
pub fn write_cells<V: Text>(cells: &Vec<V>, f: &mut String)
    ensures
        final(f)@ == old(f)@ + cells_text(cells@),
{
    let mut i: usize = 0;
    while i < cells.len()
        invariant
            i <= cells@.len(),
            f@ == old(f)@ + cells_text(cells@.take(i as int)),
        decreases cells@.len() - i,
    {
        f.append("  <");
        i.write_text(f);
        f.append(",");
        cells[i].write_text(f);
        f.append(">\n");
        proof {
            let next = cells@.take(i + 1);
            assert(next.drop_last() =~= cells@.take(i as int));
        }
        i = i + 1;
    }
    assert(cells@.take(i as int) =~= cells@);
}

} // verus!
