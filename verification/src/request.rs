//! Reading one HTTP request off a connection, and the little of it that is
//! parsed: the method and the target of the request line.
//!
//! The caller owns the socket. It hands each chunk it has read to a
//! [`RequestBuffer`], which says when to stop reading; the bytes gathered are
//! then decoded and split by [`parse_request_line`].

use vstd::prelude::*;
use crate::text::{chars_of, run_len, scan, string_of, CharClass};

verus! {

/// The most bytes that are read of one request.
pub const REQUEST_CAP: usize = 16384;

/// Whether the four bytes CR LF CR LF, which end the headers of a request,
/// stand at position `i` of `bytes`.
pub open spec fn terminator_at(bytes: Seq<u8>, i: int) -> bool {
    &&& 0 <= i
    &&& i + 4 <= bytes.len()
    &&& bytes[i] == 13
    &&& bytes[i + 1] == 10
    &&& bytes[i + 2] == 13
    &&& bytes[i + 3] == 10
}

/// Whether `bytes` holds the end of the headers somewhere.
pub open spec fn has_terminator(bytes: Seq<u8>) -> bool {
    exists|i: int| terminator_at(bytes, i)
}

/// The smaller of `a` and `b`.
pub open spec fn min_of(a: int, b: int) -> int {
    if a <= b {
        a
    } else {
        b
    }
}

/// Tests whether `bytes` holds the end of the headers.
pub fn contains_terminator(bytes: &Vec<u8>) -> (found: bool)
    ensures
        found == has_terminator(bytes@),
{
    if bytes.len() < 4 {
        return false;
    }
    let last: usize = bytes.len() - 4;
    let mut i: usize = 0;
    while i <= last
        invariant
            last + 4 == bytes.len(),
            i <= last + 1,
            forall|j: int| 0 <= j < i ==> !terminator_at(bytes@, j),
        decreases last + 1 - i,
    {
        if bytes[i] == 13 && bytes[i + 1] == 10 && bytes[i + 2] == 13 && bytes[i + 3] == 10 {
            assert(terminator_at(bytes@, i as int));
            return true;
        }
        i += 1;
    }
    false
}

/// The bytes read so far of one request, never more than [`REQUEST_CAP`].
#[derive(Debug)]
pub struct RequestBuffer {
    bytes: Vec<u8>,
}

impl View for RequestBuffer {
    type V = Seq<u8>;

    closed spec fn view(&self) -> Seq<u8> {
        self.bytes@
    }
}

impl RequestBuffer {
    #[verifier::type_invariant]
    spec fn within_cap(self) -> bool {
        self.bytes@.len() <= REQUEST_CAP
    }

    /// An empty buffer.
    pub fn new() -> (buffer: RequestBuffer)
        ensures
            buffer@ == Seq::<u8>::empty(),
    {
        RequestBuffer { bytes: Vec::new() }
    }

    /// How many more bytes the buffer takes: the size to read next.
    pub fn room(&self) -> (n: usize)
        ensures
            self@.len() <= REQUEST_CAP,
            n == REQUEST_CAP - self@.len(),
    {
        proof {
            use_type_invariant(self);
        }
        REQUEST_CAP - self.bytes.len()
    }

    /// Takes in the chunk that one read returned, cut to the room that is
    /// left, and says whether reading is over: the peer closed the
    /// connection (an empty chunk), the buffer is full, or the headers have
    /// ended.
    pub fn absorb(&mut self, chunk: &[u8]) -> (done: bool)
        ensures
            final(self)@ == old(self)@ + chunk@.take(
                min_of(chunk@.len() as int, REQUEST_CAP - old(self)@.len()),
            ),
            done == (chunk@.len() == 0 || final(self)@.len() == REQUEST_CAP || has_terminator(
                final(self)@,
            )),
    {
        proof {
            use_type_invariant(&*self);
        }
        let room: usize = REQUEST_CAP - self.bytes.len();
        let n: usize = if chunk.len() <= room {
            chunk.len()
        } else {
            room
        };
        let mut joined: Vec<u8> = Vec::new();
        let mut i: usize = 0;
        while i < self.bytes.len()
            invariant
                i <= self.bytes.len(),
                joined@ == self.bytes@.take(i as int),
            decreases self.bytes.len() - i,
        {
            joined.push(self.bytes[i]);
            i += 1;
        }
        assert(joined@ == self.bytes@) by {
            assert(self.bytes@.take(self.bytes@.len() as int) == self.bytes@);
        }
        let mut k: usize = 0;
        while k < n
            invariant
                k <= n <= chunk@.len(),
                joined@ == self.bytes@ + chunk@.take(k as int),
            decreases n - k,
        {
            joined.push(chunk[k]);
            k += 1;
        }
        let ended: bool = contains_terminator(&joined);
        let full: bool = joined.len() >= REQUEST_CAP;
        self.bytes = joined;
        chunk.len() == 0 || full || ended
    }

    /// The bytes gathered so far.
    pub fn as_bytes(&self) -> (bytes: &[u8])
        ensures
            bytes@ == self@,
            bytes@.len() <= REQUEST_CAP,
    {
        proof {
            use_type_invariant(self);
        }
        self.bytes.as_slice()
    }

    /// The bytes gathered.
    pub fn into_bytes(self) -> (bytes: Vec<u8>)
        ensures
            bytes@ == self@,
            bytes@.len() <= REQUEST_CAP,
    {
        proof {
            use_type_invariant(&self);
        }
        self.bytes
    }
}

/// The text that a lossy UTF-8 decoding of `bytes` gives: each invalid
/// sequence becomes U+FFFD.
pub uninterp spec fn lossy_text(bytes: Seq<u8>) -> Seq<char>;

/// `String::from_utf8_lossy` of std decodes bytes as UTF-8 and puts the
/// replacement character U+FFFD in place of each invalid sequence.
/// Believed of std, not proved: the text is only named.
#[verifier::external_body]
fn decode_lossy(bytes: &[u8]) -> (text: String)
    ensures
        text@ == lossy_text(bytes@),
{
    String::from_utf8_lossy(bytes).into_owned()
}

/// The first line of `text`: what stands before the first line feed.
pub open spec fn first_line(text: Seq<char>) -> Seq<char> {
    text.take(run_len(text, CharClass::Except('\n')) as int)
}

/// The first run of `s` that holds no white space, after any leading white
/// space; empty where there is none.
pub open spec fn first_token(s: Seq<char>) -> Seq<char> {
    let rest = s.skip(run_len(s, CharClass::Space) as int);
    rest.take(run_len(rest, CharClass::NonSpace) as int)
}

/// What follows the first token of `s`.
pub open spec fn after_first_token(s: Seq<char>) -> Seq<char> {
    let rest = s.skip(run_len(s, CharClass::Space) as int);
    rest.skip(run_len(rest, CharClass::NonSpace) as int)
}

/// The method of the request that `text` starts with: the first token of
/// its first line.
pub open spec fn request_method(text: Seq<char>) -> Seq<char> {
    first_token(first_line(text))
}

/// The target of the request that `text` starts with: the second token of
/// its first line.
pub open spec fn request_target(text: Seq<char>) -> Seq<char> {
    first_token(after_first_token(first_line(text)))
}

/// The method and the target of a request line.
pub struct RequestLine {
    pub method: String,
    pub target: String,
}

/// Splits the method and the target off the first line of `text`. Either
/// is empty where the line does not hold it.
pub fn parse_request_line(text: &str) -> (line: RequestLine)
    ensures
        line.method@ == request_method(text@),
        line.target@ == request_target(text@),
{
    let cs = chars_of(text);
    let end: usize = scan(&cs, 0, cs.len(), CharClass::Except('\n'));
    let a: usize = scan(&cs, 0, end, CharClass::Space);
    let b: usize = scan(&cs, a, end, CharClass::NonSpace);
    let c: usize = scan(&cs, b, end, CharClass::Space);
    let d: usize = scan(&cs, c, end, CharClass::NonSpace);
    proof {
        let line = first_line(text@);
        assert(cs@.subrange(0, cs.len() as int) == cs@);
        assert(line == cs@.subrange(0, end as int));
        let rest = line.skip(a as int);
        assert(rest == cs@.subrange(a as int, end as int));
        assert(rest.take(b - a) == cs@.subrange(a as int, b as int));
        let tail = rest.skip(b - a);
        assert(tail == cs@.subrange(b as int, end as int));
        assert(tail == after_first_token(line));
        let tail_rest = tail.skip(c - b);
        assert(tail_rest == cs@.subrange(c as int, end as int));
        assert(tail_rest.take(d - c) == cs@.subrange(c as int, d as int));
    }
    RequestLine { method: string_of(&cs, a, b), target: string_of(&cs, c, d) }
}

/// Decodes the bytes of a request and splits its request line.
pub fn read_request_line(bytes: &[u8]) -> (line: RequestLine)
    ensures
        line.method@ == request_method(lossy_text(bytes@)),
        line.target@ == request_target(lossy_text(bytes@)),
{
    let text = decode_lossy(bytes);
    parse_request_line(text.as_str())
}

} // verus!
