//! Turning bytes into characters.
//!
//! A source is read line by line. Each line is decoded as UTF-8 and handed
//! out character by character; a line that is not valid UTF-8 is handed out
//! as one failure.

use vstd::prelude::*;
use vstd::utf8::decode_utf8;
use vstd::utf8::encode_utf8;
use vstd::utf8::valid_utf8;

verus! {

/// Why reading a source failed.
#[derive(Debug, Clone, Copy, PartialEq, Eq, Structural)]
pub enum IoFailure {
    /// The bytes read are not valid UTF-8.
    InvalidData,
    /// The source does not exist.
    NotFound,
    /// The source may not be read.
    PermissionDenied,
    /// Any other failure.
    Other,
}

/// What a source hands out: a character, or a failure to read one.
pub type CharItem = Result<char, IoFailure>;

/// The length of the first line of `bytes`, the line feed that ends it
/// included.
pub open spec fn line_len(bytes: Seq<u8>) -> int
    decreases bytes.len(),
{
    if bytes.len() == 0 {
        0
    } else if bytes[0] == 10 {
        1
    } else {
        1 + line_len(bytes.drop_first())
    }
}

/// A line is no longer than the bytes, and not empty unless they are.
pub proof fn line_len_bounds(bytes: Seq<u8>)
    ensures
        0 <= line_len(bytes) <= bytes.len(),
        bytes.len() > 0 ==> line_len(bytes) >= 1,
    decreases bytes.len(),
{
    if bytes.len() > 0 && bytes[0] != 10 {
        line_len_bounds(bytes.drop_first());
    }
}

/// The characters of `chars`, each as an item.
pub open spec fn as_items(chars: Seq<char>) -> Seq<CharItem> {
    Seq::new(chars.len(), |i: int| Ok::<char, IoFailure>(chars[i]))
}

/// What one line gives: its characters, or one failure where it is not
/// valid UTF-8.
pub open spec fn line_items(line: Seq<u8>) -> Seq<CharItem> {
    if valid_utf8(line) {
        as_items(decode_utf8(line))
    } else {
        seq![Err::<char, IoFailure>(IoFailure::InvalidData)]
    }
}

/// Everything that a source with the content `bytes` hands out.
pub open spec fn items(bytes: Seq<u8>) -> Seq<CharItem>
    decreases bytes.len(),
    via items_decreases
{
    if bytes.len() == 0 {
        Seq::<CharItem>::empty()
    } else {
        line_items(bytes.take(line_len(bytes))) + items(bytes.skip(line_len(bytes)))
    }
}

#[via_fn]
proof fn items_decreases(bytes: Seq<u8>) {
    line_len_bounds(bytes);
}

/// Where no line feed lies before `j`, the first line reaches at least to
/// `j`.
proof fn line_len_scan(bytes: Seq<u8>, j: int)
    requires
        0 <= j <= bytes.len(),
        forall|k: int| 0 <= k < j ==> bytes[k] != 10,
    ensures
        line_len(bytes) == j + line_len(bytes.skip(j)),
    decreases j,
{
    if j == 0 {
        assert(bytes.skip(0) =~= bytes);
    } else {
        let rest = bytes.drop_first();
        line_len_scan(rest, j - 1);
        assert(rest.skip(j - 1) =~= bytes.skip(j));
    }
}

/// A reader over bytes that are held in memory.
pub struct CharReaderFromString {
    src: Vec<u8>,
    current_pos: usize,
}

impl CharReaderFromString {
    /// The bytes not yet read.
    pub closed spec fn remaining(&self) -> Seq<u8> {
        if self.current_pos <= self.src@.len() {
            self.src@.skip(self.current_pos as int)
        } else {
            Seq::<u8>::empty()
        }
    }

    /// A reader over the UTF-8 encoding of `s`.
    pub fn new(s: String) -> (r: CharReaderFromString)
        ensures
            r.remaining() == encode_utf8(s@),
    {
        let src = s.as_str().as_bytes_vec();
        CharReaderFromString { src, current_pos: 0 }
    }

    /// A reader over `bytes`, which need not be valid UTF-8.
    pub fn from_bytes(bytes: Vec<u8>) -> (r: CharReaderFromString)
        ensures
            r.remaining() == bytes@,
    {
        CharReaderFromString { src: bytes, current_pos: 0 }
    }

    /// Fills the front of `buf` with the bytes that come next and returns how
    /// many were stored: as many as `buf` takes and the reader still has.
    pub fn read(&mut self, buf: &mut [u8]) -> (r: Result<usize, IoFailure>)
        ensures
            r matches Ok(n) && n == if old(buf)@.len() <= old(self).remaining().len() {
                old(buf)@.len()
            } else {
                old(self).remaining().len()
            } && final(buf)@ == old(self).remaining().take(n as int) + old(buf)@.skip(n as int)
                && final(self).remaining() == old(self).remaining().skip(n as int),
    {
        let ghost all = self.remaining();
        if self.current_pos > self.src.len() {
            return Ok(0);
        }
        let start: usize = self.current_pos;
        let mut p: usize = 0;
        while p < buf.len() && self.current_pos < self.src.len()
            invariant
                buf@.len() == old(buf)@.len(),
                self.src == old(self).src,
                start == old(self).current_pos,
                start <= self.src@.len(),
                all == self.src@.skip(start as int),
                self.current_pos == start + p,
                self.current_pos <= self.src@.len(),
                p <= buf@.len(),
                buf@.take(p as int) == all.take(p as int),
                buf@.skip(p as int) == old(buf)@.skip(p as int),
            decreases buf@.len() - p,
        {
            let ghost prev = buf@;
            let b: u8 = self.src[self.current_pos];
            buf[p] = b;
            assert(buf@.take(p + 1) =~= all.take(p + 1));
            assert(buf@.skip(p + 1) =~= old(buf)@.skip(p + 1)) by {
                assert forall|k: int| 0 <= k < buf@.len() - p - 1 implies #[trigger] buf@.skip(
                    p + 1,
                )[k] == old(buf)@.skip(p + 1)[k] by {
                    assert(prev.skip(p as int)[k + 1] == old(buf)@.skip(p as int)[k + 1]);
                }
            }
            p = p + 1;
            self.current_pos = self.current_pos + 1;
        }
        assert(buf@ =~= all.take(p as int) + old(buf)@.skip(p as int));
        Ok(p)
    }

    /// Takes the bytes of the next line, the line feed that ends it included.
    /// At the end of the bytes the line is empty.
    pub fn read_line(&mut self) -> (r: Vec<u8>)
        ensures
            r@ == old(self).remaining().take(line_len(old(self).remaining())),
            final(self).remaining() == old(self).remaining().skip(line_len(old(self).remaining())),
    {
        let mut line: Vec<u8> = Vec::new();
        let ghost all = self.remaining();
        if self.current_pos > self.src.len() {
            return line;
        }
        let start: usize = self.current_pos;
        let mut found = false;
        while self.current_pos < self.src.len() && !found
            invariant
                self.src == old(self).src,
                start == old(self).current_pos,
                start <= self.current_pos <= self.src@.len(),
                all == self.src@.skip(start as int),
                line@ == all.take(self.current_pos - start),
                found ==> self.current_pos > start && all[self.current_pos - start - 1] == 10,
                forall|k: int|
                    0 <= k < self.current_pos - start - (if found {
                        1int
                    } else {
                        0int
                    }) ==> all[k] != 10,
            decreases self.src@.len() - self.current_pos + (if found { 0int } else { 1int }),
        {
            let b: u8 = self.src[self.current_pos];
            line.push(b);
            self.current_pos = self.current_pos + 1;
            if b == 10 {
                found = true;
            }
        }
        proof {
            let j = self.current_pos - start;
            if found {
                line_len_scan(all, j - 1);
            } else {
                line_len_scan(all, j);
            }
        }
        line
    }
}

/// `String::from_utf8`: the string of the characters that `bytes` encode, or
/// nothing where `bytes` are not valid UTF-8.
#[verifier::external_body]
pub(crate) fn decode_line(bytes: Vec<u8>) -> (r: Option<String>)
    ensures
        match r {
            Some(s) => valid_utf8(bytes@) && s@ == decode_utf8(bytes@),
            None => !valid_utf8(bytes@),
        },
{
    match String::from_utf8(bytes) {
        Ok(s) => Some(s),
        Err(_) => None,
    }
}

/// The characters of `s`, one by one.
pub fn chars_of(s: &str) -> (r: Vec<char>)
    ensures
        r@ == s@,
{
    let mut r: Vec<char> = Vec::new();
    for c in it: s.chars()
        invariant
            r@ == it.seq().take(it.index()),
            it.seq() == s@,
    {
        r.push(c);
    }
    r
}

/// The characters that a reader delivers, read line by line.
pub struct CharStreamFromBufRead {
    input: CharReaderFromString,
    current_chars: Option<Vec<char>>,
    current_pos: usize,
}

impl CharStreamFromBufRead {
    /// What is left of the line that is being handed out.
    spec fn rest_of_line(&self) -> Seq<CharItem> {
        match self.current_chars {
            Some(cs) => if self.current_pos <= cs@.len() {
                as_items(cs@.skip(self.current_pos as int))
            } else {
                Seq::<CharItem>::empty()
            },
            None => Seq::<CharItem>::empty(),
        }
    }

    /// What the stream has yet to hand out.
    pub closed spec fn pending(&self) -> Seq<CharItem> {
        self.rest_of_line() + items(self.input.remaining())
    }

    /// A stream over what `input` has yet to deliver.
    pub fn new(input: CharReaderFromString) -> (r: Self)
        ensures
            r.pending() == items(input.remaining()),
    {
        let r = CharStreamFromBufRead { input, current_chars: None, current_pos: 0 };
        r
    }

    /// Reads the next line and hands out its first item.
    fn read_next_line(&mut self) -> (r: Option<CharItem>)
        requires
            old(self).rest_of_line().len() == 0,
        ensures
            match r {
                Some(x) => old(self).pending().len() > 0 && x == old(self).pending()[0] && final(
                    self
                ).pending() == old(self).pending().drop_first(),
                None => old(self).pending().len() == 0 && final(self).pending().len() == 0,
            },
    {
        let ghost bytes = self.input.remaining();
        let ghost n = line_len(bytes);
        proof {
            line_len_bounds(bytes);
        }
        let line = self.input.read_line();
        match decode_line(line) {
            Some(s) => {
                let cs = chars_of(s.as_str());
                if cs.len() > 0 {
                    let c: char = cs[0];
                    self.current_chars = Some(cs);
                    self.current_pos = 1;
                    Some(Ok(c))
                } else {
                    self.current_chars = Some(cs);
                    self.current_pos = 0;
                    proof {
                        if bytes.len() > 0 {
                            empty_decoding(bytes.take(n));
                        }
                    }
                    None
                }
            },
            None => {
                proof {
                    assert(bytes.len() > 0);
                }
                Some(Err(IoFailure::InvalidData))
            },
        }
    }

    /// Hands out the next item, or nothing at the end.
    pub fn next(&mut self) -> (r: Option<CharItem>)
        ensures
            match r {
                Some(x) => old(self).pending().len() > 0 && x == old(self).pending()[0] && final(
                    self
                ).pending() == old(self).pending().drop_first(),
                None => old(self).pending().len() == 0 && final(self).pending().len() == 0,
            },
    {
        let here: Option<char> = match &self.current_chars {
            Some(cs) => if self.current_pos < cs.len() {
                Some(cs[self.current_pos])
            } else {
                None
            },
            None => None,
        };
        match here {
            Some(c) => {
                self.current_pos = self.current_pos + 1;
                Some(Ok(c))
            },
            None => self.read_next_line(),
        }
    }
}

/// Bytes that are valid UTF-8 and decode to no character are no bytes.
proof fn empty_decoding(line: Seq<u8>)
    requires
        valid_utf8(line),
        decode_utf8(line).len() == 0,
    ensures
        line.len() == 0,
{
}

/// The stream of the characters of `v`.
pub fn char_stream_from_buf_read_from_str(v: &str) -> (r: CharStreamFromBufRead)
    ensures
        r.pending() == items(encode_utf8(v@)),
{
    CharStreamFromBufRead::new(CharReaderFromString::from_bytes(v.as_bytes_vec()))
}

} // verus!
