//! Random 128-bit identifiers and their canonical text form.
//!
//! Intents carry a fresh identifier purely for cross-service correlation;
//! nothing persists or deduplicates on it.  The canonical text form is the
//! hyphenated lowercase hex layout in five groups of 8, 4, 4, 4 and 12
//! digits.

use vstd::prelude::*;
use vstd::string::*;

verus! {

/// A 128-bit identifier held as its 16 raw bytes.
#[derive(Debug)]
pub struct Uuid {
    pub uuid: Vec<u8>,
}

/// The lowercase hex digit of a value below sixteen.
pub open spec fn hex_digit(n: int) -> char {
    if n == 0 { '0' }
    else if n == 1 { '1' }
    else if n == 2 { '2' }
    else if n == 3 { '3' }
    else if n == 4 { '4' }
    else if n == 5 { '5' }
    else if n == 6 { '6' }
    else if n == 7 { '7' }
    else if n == 8 { '8' }
    else if n == 9 { '9' }
    else if n == 10 { 'a' }
    else if n == 11 { 'b' }
    else if n == 12 { 'c' }
    else if n == 13 { 'd' }
    else if n == 14 { 'e' }
    else { 'f' }
}

/// The two hex digits of a byte, high nibble first.
pub open spec fn hex_pair(b: u8) -> Seq<char> {
    seq![hex_digit((b >> 4) as int), hex_digit((b & 0xf) as int)]
}

/// The hex digits of the bytes at indices `from..to`.
pub open spec fn hex_group(bytes: Seq<u8>, from: int, to: int) -> Seq<char>
    decreases to - from,
{
    if from >= to {
        Seq::<char>::empty()
    } else {
        hex_pair(bytes[from]) + hex_group(bytes, from + 1, to)
    }
}

/// The canonical text of 16 identifier bytes: five hyphen-separated
/// groups of 8, 4, 4, 4 and 12 lowercase hex digits.
pub open spec fn uuid_text(bytes: Seq<u8>) -> Seq<char> {
    hex_group(bytes, 0, 4) + seq!['-'] + hex_group(bytes, 4, 6) + seq!['-'] + hex_group(
        bytes,
        6,
        8,
    ) + seq!['-'] + hex_group(bytes, 8, 10) + seq!['-'] + hex_group(bytes, 10, 16)
}

/// A group of hex digits grows at its end one byte at a time.
proof fn lemma_hex_group_snoc(bytes: Seq<u8>, from: int, i: int)
    requires
        0 <= from <= i,
        i < bytes.len(),
    ensures
        hex_group(bytes, from, i + 1) == hex_group(bytes, from, i) + hex_pair(bytes[i]),
    decreases i - from,
{
    if from == i {
        assert(hex_group(bytes, from, i) == Seq::<char>::empty());
        assert(hex_group(bytes, from + 1, i + 1) == Seq::<char>::empty());
        assert(hex_group(bytes, from, i + 1) == hex_pair(bytes[from]) + hex_group(
            bytes,
            from + 1,
            i + 1,
        ));
        assert(hex_group(bytes, from, i + 1) =~= hex_group(bytes, from, i) + hex_pair(bytes[i]));
    } else {
        lemma_hex_group_snoc(bytes, from + 1, i);
        assert(hex_group(bytes, from, i + 1) == hex_pair(bytes[from]) + hex_group(
            bytes,
            from + 1,
            i + 1,
        ));
        assert(hex_group(bytes, from, i) == hex_pair(bytes[from]) + hex_group(bytes, from + 1, i));
        assert(hex_group(bytes, from, i + 1) =~= hex_group(bytes, from, i) + hex_pair(bytes[i]));
    }
}

/// Relies on `uuid::Uuid::new_v4` and `uuid::Uuid::as_bytes`: a freshly
/// generated random version-4 identifier, handed out as its 16 bytes.
/// Nothing beyond the length can be said of a random value.
#[verifier::external_body]
fn random_bytes() -> (r: Vec<u8>)
    ensures
        r@.len() == 16,
{
    let mut buf = Vec::new();
    buf.extend(::uuid::Uuid::new_v4().as_bytes());
    buf
}

/// Relies on `String::push`: appends the given character to the end of
/// the string.
#[verifier::external_body]
fn push_char(s: &mut String, c: char)
    ensures
        final(s)@ == old(s)@.push(c),
{
    s.push(c);
}

/// The lowercase hex digit of a byte below sixteen.
fn hex_char(n: u8) -> (r: char)
    requires
        n < 16,
    ensures
        r == hex_digit(n as int),
{
    if n == 0 { '0' }
    else if n == 1 { '1' }
    else if n == 2 { '2' }
    else if n == 3 { '3' }
    else if n == 4 { '4' }
    else if n == 5 { '5' }
    else if n == 6 { '6' }
    else if n == 7 { '7' }
    else if n == 8 { '8' }
    else if n == 9 { '9' }
    else if n == 10 { 'a' }
    else if n == 11 { 'b' }
    else if n == 12 { 'c' }
    else if n == 13 { 'd' }
    else if n == 14 { 'e' }
    else { 'f' }
}

/// Appends the hex digits of the bytes at indices `from..to`.
fn push_hex_group(out: &mut String, bytes: &Vec<u8>, from: usize, to: usize)
    requires
        from <= to,
        to <= bytes@.len(),
    ensures
        final(out)@ == old(out)@ + hex_group(bytes@, from as int, to as int),
{
    let mut i: usize = from;
    while i < to
        invariant
            from <= i <= to,
            to <= bytes@.len(),
            out@ == old(out)@ + hex_group(bytes@, from as int, i as int),
        decreases to - i,
    {
        let b = bytes[i];
        proof {
            assert(b >> 4 < 16 && (b & 0xf) < 16) by (bit_vector);
        }
        push_char(out, hex_char(b >> 4));
        push_char(out, hex_char(b & 0xf));
        proof {
            lemma_hex_group_snoc(bytes@, from as int, i as int);
            assert(out@ =~= old(out)@ + hex_group(bytes@, from as int, i + 1));
        }
        i = i + 1;
    }
}

/// Copies a byte slice into a fresh vector.
fn copy_bytes(src: &[u8]) -> (r: Vec<u8>)
    ensures
        r@ == src@,
{
    let mut out: Vec<u8> = Vec::new();
    let mut i: usize = 0;
    while i < src.len()
        invariant
            i <= src@.len(),
            out@ == src@.subrange(0, i as int),
        decreases src@.len() - i,
    {
        out.push(src[i]);
        i = i + 1;
        proof {
            assert(out@ =~= src@.subrange(0, i as int));
        }
    }
    proof {
        assert(out@ =~= src@);
    }
    out
}

impl Uuid {
    /// Returns a freshly generated random identifier.
    pub fn new() -> (r: Uuid)
        ensures
            r.uuid@.len() == 16,
    {
        Uuid { uuid: random_bytes() }
    }

    /// Returns the raw bytes of the identifier.
    pub fn as_slice(&self) -> (r: &[u8])
        ensures
            r@ == self.uuid@,
    {
        self.uuid.as_slice()
    }

    /// Builds an identifier from raw bytes.  Only a full 16-byte value or
    /// an empty one (the absent identifier) is accepted.
    pub fn try_from_bytes(value: &[u8]) -> (r: Result<Uuid, String>)
        ensures
            match r {
                Ok(u) => (value@.len() == 16 || value@.len() == 0) && u.uuid@ == value@,
                Err(e) => value@.len() != 16 && value@.len() != 0
                    && e@ == "uuid slice has wrong size"@,
            },
    {
        if value.len() != 16 && value.len() != 0 {
            return Err(String::from_str("uuid slice has wrong size"));
        }
        Ok(Uuid { uuid: copy_bytes(value) })
    }

    /// Returns the canonical hyphenated lowercase hex text of the
    /// identifier.
    pub fn hyphenated(&self) -> (r: String)
        requires
            self.uuid@.len() == 16,
        ensures
            r@ == uuid_text(self.uuid@),
    {
        let mut out = String::new();
        push_hex_group(&mut out, &self.uuid, 0, 4);
        push_char(&mut out, '-');
        push_hex_group(&mut out, &self.uuid, 4, 6);
        push_char(&mut out, '-');
        push_hex_group(&mut out, &self.uuid, 6, 8);
        push_char(&mut out, '-');
        push_hex_group(&mut out, &self.uuid, 8, 10);
        push_char(&mut out, '-');
        push_hex_group(&mut out, &self.uuid, 10, 16);
        proof {
            assert(out@ =~= uuid_text(self.uuid@));
        }
        out
    }

    /// Returns an identifier equal to this one under the view.
    pub fn duplicate(&self) -> (r: Uuid)
        ensures
            r.uuid@ == self.uuid@,
    {
        Uuid { uuid: copy_bytes(self.uuid.as_slice())  }
    }
}

} // verus!
