//! Big-endian integer, boolean, and NUL-terminated string primitives of the
//! CTI wire format: spec-level byte images, executable readers and writers,
//! and the round-trip lemmas that tie them together.
use vstd::prelude::*;
use vstd::utf8::{
    decode_utf8, encode_scalar, encode_utf8, encode_utf8_decode_utf8, encode_utf8_valid_utf8,
    valid_utf8,
};

verus! {

/// The two-byte big-endian image of a 16-bit value.
pub open spec fn u16_be_bytes(v: u16) -> Seq<u8> {
    seq![(v >> 8) as u8, v as u8]
}

/// The four-byte big-endian image of a 32-bit value.
pub open spec fn u32_be_bytes(v: u32) -> Seq<u8> {
    seq![(v >> 24) as u8, (v >> 16) as u8, (v >> 8) as u8, v as u8]
}

/// The eight-byte big-endian image of a 64-bit value.
pub open spec fn u64_be_bytes(v: u64) -> Seq<u8> {
    seq![
        (v >> 56) as u8,
        (v >> 48) as u8,
        (v >> 40) as u8,
        (v >> 32) as u8,
        (v >> 24) as u8,
        (v >> 16) as u8,
        (v >> 8) as u8,
        v as u8,
    ]
}

/// Signed values travel as their two's-complement bit pattern.
pub open spec fn i16_be_bytes(v: i16) -> Seq<u8> {
    u16_be_bytes(v as u16)
}

/// Signed values travel as their two's-complement bit pattern.
pub open spec fn i32_be_bytes(v: i32) -> Seq<u8> {
    u32_be_bytes(v as u32)
}

/// The 16-bit value read big-endian from two bytes.
pub open spec fn u16_from_be(b0: u8, b1: u8) -> u16 {
    (((b0 as u16) << 8) | (b1 as u16)) as u16
}

/// The 32-bit value read big-endian from four bytes.
pub open spec fn u32_from_be(b0: u8, b1: u8, b2: u8, b3: u8) -> u32 {
    (((b0 as u32) << 24) | ((b1 as u32) << 16) | ((b2 as u32) << 8) | (b3 as u32)) as u32
}

pub open spec fn i32_from_be(b0: u8, b1: u8, b2: u8, b3: u8) -> i32 {
    u32_from_be(b0, b1, b2, b3) as i32
}

/// A wire boolean is two bytes; truth is any nonzero bit in the pair.
pub open spec fn bool_from_wire(b0: u8, b1: u8) -> bool {
    (b0 | b1) != 0
}

/// The image of a NUL-terminated string: the UTF-8 bytes followed by one NUL.
pub open spec fn cstr_bytes(s: Seq<char>) -> Seq<u8> {
    encode_utf8(s) + seq![0u8]
}

pub proof fn lemma_u16_be_round(v: u16)
    ensures
        u16_from_be(u16_be_bytes(v)[0], u16_be_bytes(v)[1]) == v,
{
    assert((((((v >> 8) as u8) as u16) << 8) | (((v as u8)) as u16)) == v) by (bit_vector);
}

pub proof fn lemma_u32_be_round(v: u32)
    ensures
        u32_from_be(u32_be_bytes(v)[0], u32_be_bytes(v)[1], u32_be_bytes(v)[2], u32_be_bytes(v)[3])
            == v,
{
    assert(((((v >> 24) as u8) as u32) << 24) | ((((v >> 16) as u8) as u32) << 16) | ((((v
        >> 8) as u8) as u32) << 8) | (((v as u8)) as u32) == v) by (bit_vector);
}

pub proof fn lemma_i32_be_round(v: i32)
    ensures
        i32_from_be(i32_be_bytes(v)[0], i32_be_bytes(v)[1], i32_be_bytes(v)[2], i32_be_bytes(v)[3])
            == v,
{
    lemma_u32_be_round(v as u32);
    assert(((v as u32) as i32) == v) by (bit_vector);
}

/// Appends the big-endian image of a 16-bit value.
pub fn push_u16_be(out: &mut Vec<u8>, v: u16)
    ensures
        final(out)@ == old(out)@ + u16_be_bytes(v),
{
    out.push((v >> 8) as u8);
    out.push(v as u8);
    assert(out@ =~= old(out)@ + u16_be_bytes(v));
}

/// Appends the big-endian image of a 32-bit value.
pub fn push_u32_be(out: &mut Vec<u8>, v: u32)
    ensures
        final(out)@ == old(out)@ + u32_be_bytes(v),
{
    out.push((v >> 24) as u8);
    out.push((v >> 16) as u8);
    out.push((v >> 8) as u8);
    out.push(v as u8);
    assert(out@ =~= old(out)@ + u32_be_bytes(v));
}

/// Appends the big-endian image of a 64-bit value.
pub fn push_u64_be(out: &mut Vec<u8>, v: u64)
    ensures
        final(out)@ == old(out)@ + u64_be_bytes(v),
{
    out.push((v >> 56) as u8);
    out.push((v >> 48) as u8);
    out.push((v >> 40) as u8);
    out.push((v >> 32) as u8);
    out.push((v >> 24) as u8);
    out.push((v >> 16) as u8);
    out.push((v >> 8) as u8);
    out.push(v as u8);
    assert(out@ =~= old(out)@ + u64_be_bytes(v));
}

pub fn push_i16_be(out: &mut Vec<u8>, v: i16)
    ensures
        final(out)@ == old(out)@ + i16_be_bytes(v),
{
    push_u16_be(out, v as u16);
}

pub fn push_i32_be(out: &mut Vec<u8>, v: i32)
    ensures
        final(out)@ == old(out)@ + i32_be_bytes(v),
{
    push_u32_be(out, v as u32);
}

/// Appends the UTF-8 bytes of the string followed by a terminating NUL.
pub fn push_cstr(out: &mut Vec<u8>, s: &str)
    ensures
        final(out)@ == old(out)@ + cstr_bytes(s@),
{
    let bytes = s.as_bytes();
    out.extend_from_slice(bytes);
    out.push(0);
    assert(out@ =~= old(out)@ + cstr_bytes(s@));
}

/// Reads a 16-bit big-endian value at offset `i`.
pub fn read_u16_be(b: &Vec<u8>, i: usize) -> (r: u16)
    requires
        i + 2 <= b@.len(),
    ensures
        r == u16_from_be(b@[i as int], b@[i + 1]),
{
    let n = b.len();
    ((b[i] as u16) << 8) | (b[i + 1] as u16)
}

/// Reads a 32-bit big-endian value at offset `i`.
pub fn read_u32_be(b: &Vec<u8>, i: usize) -> (r: u32)
    requires
        i + 4 <= b@.len(),
    ensures
        r == u32_from_be(b@[i as int], b@[i + 1], b@[i + 2], b@[i + 3]),
{
    let n = b.len();
    ((b[i] as u32) << 24) | ((b[i + 1] as u32) << 16) | ((b[i + 2] as u32) << 8) | (b[i
        + 3] as u32)
}

pub fn read_i32_be(b: &Vec<u8>, i: usize) -> (r: i32)
    requires
        i + 4 <= b@.len(),
    ensures
        r == i32_from_be(b@[i as int], b@[i + 1], b@[i + 2], b@[i + 3]),
{
    read_u32_be(b, i) as i32
}

pub fn read_bool_wire(b: &Vec<u8>, i: usize) -> (r: bool)
    requires
        i + 2 <= b@.len(),
    ensures
        r == bool_from_wire(b@[i as int], b@[i + 1]),
{
    let n = b.len();
    (b[i] | b[i + 1]) != 0
}

/// Copies `len` bytes starting at offset `i` into a fresh vector.
pub fn copy_range(b: &Vec<u8>, i: usize, len: usize) -> (r: Vec<u8>)
    requires
        i + len <= b@.len(),
    ensures
        r@ == b@.subrange(i as int, i + len),
{
    let n = b.len();
    let mut r: Vec<u8> = Vec::new();
    let mut j: usize = 0;
    while j < len
        invariant
            i + len <= n == b@.len(),
            j <= len,
            r@ == b@.subrange(i as int, i + j),
        decreases len - j,
    {
        r.push(b[i + j]);
        assert(r@ =~= b@.subrange(i as int, i + j + 1));
        j = j + 1;
    }
    r
}

/// Concatenation of sequences is associative.
pub proof fn lemma_seq_assoc<T>(a: Seq<T>, b: Seq<T>, c: Seq<T>)
    ensures
        (a + b) + c == a + (b + c),
{
    assert((a + b) + c =~= a + (b + c));
}

/// The empty sequence is a left identity of concatenation.
pub proof fn lemma_seq_empty_left<T>(a: Seq<T>)
    ensures
        Seq::<T>::empty() + a == a,
{
    assert(Seq::<T>::empty() + a =~= a);
}

/// Skipping within the left part of a concatenation.
pub proof fn lemma_seq_skip_concat_left<T>(a: Seq<T>, b: Seq<T>, n: int)
    requires
        0 <= n <= a.len(),
    ensures
        (a + b).skip(n) == a.skip(n) + b,
{
    assert((a + b).skip(n) =~= a.skip(n) + b);
}

/// Skipping past the left part of a concatenation.
pub proof fn lemma_seq_skip_concat_right<T>(a: Seq<T>, b: Seq<T>, n: int)
    requires
        a.len() <= n <= a.len() + b.len(),
    ensures
        (a + b).skip(n) == b.skip(n - a.len()),
{
    assert((a + b).skip(n) =~= b.skip(n - a.len()));
}

/// Skipping a whole sequence leaves nothing.
pub proof fn lemma_seq_skip_all<T>(a: Seq<T>)
    ensures
        a.skip(a.len() as int) == Seq::<T>::empty(),
{
    assert(a.skip(a.len() as int) =~= Seq::<T>::empty());
}

/// Offset of the first NUL byte, if any.
pub open spec fn nul_index(b: Seq<u8>) -> Option<int>
    decreases b.len(),
{
    if b.len() == 0 {
        None
    } else if b[0] == 0 {
        Some(0int)
    } else {
        match nul_index(b.drop_first()) {
            None => None,
            Some(i) => Some(i + 1),
        }
    }
}

pub proof fn lemma_nul_index_props(b: Seq<u8>)
    ensures
        match nul_index(b) {
            Some(i) => 0 <= i < b.len() && b[i] == 0 && (forall|j: int| 0 <= j < i ==> b[j] != 0),
            None => forall|j: int| 0 <= j < b.len() ==> b[j] != 0,
        },
    decreases b.len(),
{
    if b.len() != 0 && b[0] != 0 {
        let rest = b.drop_first();
        lemma_nul_index_props(rest);
        assert(forall|j: int| 0 <= j < rest.len() ==> rest[j] == b[j + 1]);
        match nul_index(rest) {
            Some(i) => {
                assert(b[i + 1] == rest[i]);
                assert(forall|j: int| 1 <= j < i + 1 ==> b[j] == rest[j - 1] && rest[j - 1] != 0);
            },
            None => {
                assert(forall|j: int| 1 <= j < b.len() ==> b[j] == rest[j - 1] && rest[j - 1] != 0);
            },
        }
    }
}

/// A sequence without NUL followed by a NUL has its first NUL exactly there.
pub proof fn lemma_nul_index_of_terminated(prefix: Seq<u8>, rest: Seq<u8>)
    requires
        forall|j: int| 0 <= j < prefix.len() ==> prefix[j] != 0,
        rest.len() > 0,
        rest[0] == 0,
    ensures
        nul_index(prefix + rest) == Some(prefix.len() as int),
    decreases prefix.len(),
{
    if prefix.len() == 0 {
        assert(prefix + rest =~= rest);
    } else {
        lemma_nul_index_of_terminated(prefix.drop_first(), rest);
        assert((prefix + rest).drop_first() =~= prefix.drop_first() + rest);
    }
}

/// The decoded value of a string-typed TLV body: the bytes before the first
/// NUL, read as UTF-8.  A body with no NUL, or with an invalid prefix, is
/// malformed.
pub open spec fn parse_str_body(b: Seq<u8>) -> Option<Seq<char>> {
    match nul_index(b) {
        None => None,
        Some(i) => {
            let prefix = b.take(i);
            if valid_utf8(prefix) {
                Some(decode_utf8(prefix))
            } else {
                None
            }
        },
    }
}

/// Relies on String::from_utf8: it succeeds exactly on valid UTF-8 input and
/// returns the string those bytes encode.
#[verifier::external_body]
fn string_from_utf8(bytes: Vec<u8>) -> (r: Option<String>)
    ensures
        r is Some <==> valid_utf8(bytes@),
        r matches Some(s) ==> s@ == decode_utf8(bytes@),
{
    String::from_utf8(bytes).ok()
}

/// Extracts the string held by a string-typed TLV body.
pub fn parse_cstr_body(body: Vec<u8>) -> (r: Option<String>)
    ensures
        match r {
            Some(s) => parse_str_body(body@) == Some(s@),
            None => parse_str_body(body@) is None,
        },
{
    let ghost orig = body@;
    let mut i: usize = 0;
    let mut found = false;
    while i < body.len() && !found
        invariant
            i <= body@.len(),
            found ==> i < body@.len() && body@[i as int] == 0,
            forall|j: int| 0 <= j < i ==> body@[j] != 0,
            body@ == orig,
        decreases body@.len() - i + (if found { 0int } else { 1int }),
    {
        if body[i] == 0 {
            found = true;
        } else {
            i = i + 1;
        }
    }
    proof {
        lemma_nul_index_props(orig);
    }
    if !found {
        assert(nul_index(orig) is None);
        return None;
    }
    assert(nul_index(orig) == Some(i as int));
    let mut bytes = body;
    bytes.truncate(i);
    assert(bytes@ =~= orig.take(i as int));
    string_from_utf8(bytes)
}

/// The UTF-8 image of a NUL-free string contains no NUL byte.
pub proof fn lemma_encode_utf8_no_nul(s: Seq<char>)
    requires
        forall|i: int| 0 <= i < s.len() ==> s[i] != '\u{0}',
    ensures
        forall|j: int| 0 <= j < encode_utf8(s).len() ==> encode_utf8(s)[j] != 0,
    decreases s.len(),
{
    if s.len() != 0 {
        let c = s[0] as u32;
        assert(s[0] != '\u{0}');
        assert(c != 0) by {
            if c == 0 {
                vstd::utf8::char_u32_cast(s[0], c);
                assert('\u{0}' as u32 == 0);
                vstd::utf8::char_u32_cast('\u{0}', 0);
            }
        }
        assert(forall|j: int|
            0 <= j < encode_scalar(c).len() ==> encode_scalar(c)[j] != 0) by {
            lemma_encode_scalar_no_nul(c);
        }
        lemma_encode_utf8_no_nul(s.drop_first());
        assert(encode_utf8(s) == encode_scalar(c) + encode_utf8(s.drop_first()));
    }
}

proof fn lemma_encode_scalar_no_nul(c: u32)
    requires
        c != 0,
    ensures
        forall|j: int| 0 <= j < encode_scalar(c).len() ==> encode_scalar(c)[j] != 0,
{
    if c <= 0x7F {
        assert(((c & 0x7F) as u8) != 0) by (bit_vector)
            requires
                c != 0 && c <= 0x7F,
        ;
    } else {
        assert((0xC0u8 | (((c >> 6) & 0x1F) as u8)) != 0) by (bit_vector);
        assert((0xE0u8 | (((c >> 12) & 0x0F) as u8)) != 0) by (bit_vector);
        assert((0xF0u8 | (((c >> 18) & 0x7) as u8)) != 0) by (bit_vector);
        assert((0x80u8 | ((c & 0x3F) as u8)) != 0) by (bit_vector);
        assert((0x80u8 | (((c >> 6) & 0x3F) as u8)) != 0) by (bit_vector);
        assert((0x80u8 | (((c >> 12) & 0x3F) as u8)) != 0) by (bit_vector);
    }
}

/// A NUL-terminated string body parses back to the string it encodes,
/// whatever trailing bytes the declared body length leaves after the NUL.
pub proof fn lemma_parse_cstr_round(s: Seq<char>, rest: Seq<u8>)
    requires
        forall|i: int| 0 <= i < s.len() ==> s[i] != '\u{0}',
    ensures
        parse_str_body(cstr_bytes(s) + rest) == Some(s),
{
    let enc = encode_utf8(s);
    lemma_encode_utf8_no_nul(s);
    assert(cstr_bytes(s) + rest =~= enc + (seq![0u8] + rest));
    lemma_nul_index_of_terminated(enc, seq![0u8] + rest);
    assert((enc + (seq![0u8] + rest)).take(enc.len() as int) =~= enc);
    encode_utf8_valid_utf8(s);
    encode_utf8_decode_utf8(s);
}

} // verus!
