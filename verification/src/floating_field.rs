//! Floating fields: the tag-length-value trailer that follows a message's
//! fixed prefix.  One generic, verified walker consumes the trailer;
//! each message type supplies the dispatch from tag to accumulator update,
//! stated over the message's mathematical view.
use vstd::prelude::*;
use crate::byte_codec::{copy_range, lemma_u16_be_round, read_u16_be, u16_be_bytes, u16_from_be};
use crate::serializable::Serializable;
use crate::tag_value::{spec_tag_code, TagValue};

verus! {

/// One floating field: a tag from the registry, the declared body length,
/// and the decoded datum.
#[derive(Debug, Clone)]
pub struct FloatingField<T> {
    pub tag: TagValue,
    pub length: u16,
    pub data: T,
}

/// The mathematical image of a floating field; string data appears as a
/// character sequence.
pub struct FloatingFieldView<T> {
    pub tag: TagValue,
    pub length: u16,
    pub data: T,
}

impl<T: View> View for FloatingField<T> {
    type V = FloatingFieldView<T::V>;

    open spec fn view(&self) -> FloatingFieldView<T::V> {
        FloatingFieldView { tag: self.tag, length: self.length, data: self.data@ }
    }
}

/// The view of an optional floating field.
pub open spec fn opt_ff_view<T: View>(o: Option<FloatingField<T>>) -> Option<
    FloatingFieldView<T::V>,
> {
    match o {
        Some(f) => Some(f@),
        None => None,
    }
}

/// The byte image of one floating field: 16-bit tag, 16-bit body length,
/// then the body.
pub open spec fn field_bytes(tag: u16, body: Seq<u8>) -> Seq<u8> {
    u16_be_bytes(tag) + u16_be_bytes(body.len() as u16) + body
}

impl<T: Serializable> Serializable for FloatingField<T> {
    open spec fn spec_serialize(&self) -> Seq<u8> {
        field_bytes(spec_tag_code(self.tag), self.data.spec_serialize())
    }

    open spec fn serializable(&self) -> bool {
        self.data.serializable() && self.data.spec_serialize().len() <= 0xFFFF
    }

    fn serialize(self) -> (r: Vec<u8>) {
        let tag_code = self.tag.code();
        let mut body = self.data.serialize();
        let mut out: Vec<u8> = Vec::new();
        crate::byte_codec::push_u16_be(&mut out, tag_code);
        crate::byte_codec::push_u16_be(&mut out, body.len() as u16);
        out.append(&mut body);
        proof {
            assert(out@ =~= self.spec_serialize());
        }
        out
    }
}

/// A serializable optional field occupies at most a header and a full body.
pub proof fn lemma_opt_field_len<T: Serializable>(f: &Option<FloatingField<T>>)
    requires
        f.serializable(),
    ensures
        f.spec_serialize().len() <= 0xFFFF + 4,
{
}

/// An optional string field as an encoder must produce it for decoding to
/// give it back: the registry tag it is stored under, the encoded body
/// length, and no NUL inside the text.
pub open spec fn str_field_canonical(
    f: Option<FloatingFieldView<Seq<char>>>,
    tag: TagValue,
) -> bool {
    match f {
        None => true,
        Some(ff) => ff.tag == tag && ff.length == crate::byte_codec::cstr_bytes(ff.data).len()
            && crate::byte_codec::cstr_bytes(ff.data).len() <= 0xFFFF && (forall|i: int|
            0 <= i < ff.data.len() ==> ff.data[i] != '\u{0}'),
    }
}

/// An optional 32-bit field as an encoder must produce it: the registry tag
/// and the fixed body length.
pub open spec fn i32_field_canonical(f: Option<FloatingFieldView<i32>>, tag: TagValue) -> bool {
    match f {
        None => true,
        Some(ff) => ff.tag == tag && ff.length == 4,
    }
}

/// A message view under construction from its floating-field trailer.
pub trait FloatingApply: Sized {
    /// How one floating field with a nonempty body updates the accumulated
    /// message: `None` when the body is malformed for that tag.
    spec fn apply_field(self, tag: u16, len: u16, body: Seq<u8>) -> Option<Self>;
}

/// A message whose floating-field trailer can be consumed executably,
/// following its view's `apply_field` exactly.
pub trait FloatingDecode: View + Sized where Self::V: FloatingApply {
    /// Executable mirror of the view-level `apply_field`.
    fn apply_field_exec(self, tag: u16, len: u16, body: Vec<u8>) -> (r: Option<Self>)
        requires
            body@.len() == len as int,
            len > 0,
        ensures
            match r {
                Some(m2) => self@.apply_field(tag, len, body@) == Some(m2@),
                None => self@.apply_field(tag, len, body@) is None,
            },
    ;
}

/// The parse of a whole floating-field trailer.  Fields are consumed in
/// order; a zero-length field is consumed and contributes no datum; the
/// trailer must end exactly at the end of the buffer.
pub open spec fn decode_fields<M: FloatingApply>(m: M, b: Seq<u8>) -> Option<M>
    decreases b.len(),
{
    if b.len() == 0 {
        Some(m)
    } else if b.len() < 4 {
        None
    } else {
        let tag = u16_from_be(b[0], b[1]);
        let len = u16_from_be(b[2], b[3]);
        if 4 + len > b.len() {
            None
        } else {
            let body = b.subrange(4, 4 + len as int);
            let rest = b.skip(4 + len as int);
            if len == 0 {
                decode_fields(m, rest)
            } else {
                match m.apply_field(tag, len, body) {
                    None => None,
                    Some(m2) => decode_fields(m2, rest),
                }
            }
        }
    }
}

/// Walking a trailer that starts with one nonempty field applies that field
/// and goes on with the remainder.
pub proof fn lemma_decode_fields_field<M: FloatingApply>(
    m: M,
    tag: u16,
    body: Seq<u8>,
    rest: Seq<u8>,
)
    requires
        0 < body.len() <= 0xFFFF,
    ensures
        decode_fields(m, field_bytes(tag, body) + rest) == match m.apply_field(
            tag,
            body.len() as u16,
            body,
        ) {
            None => None::<M>,
            Some(m2) => decode_fields(m2, rest),
        },
{
    let len16 = body.len() as u16;
    let all = field_bytes(tag, body) + rest;
    lemma_u16_be_round(tag);
    lemma_u16_be_round(len16);
    assert(all[0] == u16_be_bytes(tag)[0]);
    assert(all[1] == u16_be_bytes(tag)[1]);
    assert(all[2] == u16_be_bytes(len16)[0]);
    assert(all[3] == u16_be_bytes(len16)[1]);
    assert(u16_from_be(all[0], all[1]) == tag);
    assert(u16_from_be(all[2], all[3]) == len16);
    assert(all.subrange(4, 4 + len16 as int) =~= body);
    assert(all.skip(4 + len16 as int) =~= rest);
}

/// A zero-length field is consumed, four header bytes and nothing more.
pub proof fn lemma_decode_fields_zero<M: FloatingApply>(m: M, tag: u16, rest: Seq<u8>)
    ensures
        decode_fields(m, field_bytes(tag, Seq::empty()) + rest) == decode_fields(m, rest),
{
    let all = field_bytes(tag, Seq::<u8>::empty()) + rest;
    lemma_u16_be_round(tag);
    lemma_u16_be_round(0);
    assert(all[2] == u16_be_bytes(0)[0]);
    assert(all[3] == u16_be_bytes(0)[1]);
    assert(u16_from_be(all[2], all[3]) == 0);
    assert(all.skip(4) =~= rest);
    assert(all.len() == 4 + rest.len());
}

/// Consumes the floating-field trailer of `b` from offset `start` to the end,
/// folding each field into the accumulator exactly as `decode_fields` says.
pub fn decode_floating<M: FloatingDecode>(m: M, b: &Vec<u8>, start: usize) -> (r: Option<M>) where
    M::V: FloatingApply,

    requires
        start <= b@.len(),
    ensures
        match r {
            Some(m2) => decode_fields(m@, b@.skip(start as int)) == Some(m2@),
            None => decode_fields(m@, b@.skip(start as int)) is None,
        },
{
    let n = b.len();
    let mut i = start;
    let mut acc = m;
    while i < n
        invariant
            start <= i <= n == b@.len(),
            decode_fields(m@, b@.skip(start as int)) == decode_fields(acc@, b@.skip(i as int)),
        decreases n - i,
    {
        let ghost s = b@.skip(i as int);
        proof {
            assert(s.len() == n - i);
        }
        if n - i < 4 {
            assert(decode_fields(acc@, s) is None);
            return None;
        }
        let tag = read_u16_be(b, i);
        let len = read_u16_be(b, i + 2);
        proof {
            assert(s[0] == b@[i as int]);
            assert(s[1] == b@[i + 1]);
            assert(s[2] == b@[i + 2]);
            assert(s[3] == b@[i + 3]);
        }
        let len_us = len as usize;
        if len_us > n - i - 4 {
            assert(decode_fields(acc@, s) is None);
            return None;
        }
        let ghost rest = s.skip(4 + len as int);
        proof {
            assert(rest =~= b@.skip(i + 4 + len_us as int));
        }
        if len == 0 {
            proof {
                assert(decode_fields(acc@, s) == decode_fields(acc@, rest));
            }
            i = i + 4;
        } else {
            let body = copy_range(b, i + 4, len_us);
            proof {
                assert(body@ =~= s.subrange(4, 4 + len as int));
            }
            let ghost acc_snap = acc@;
            match acc.apply_field_exec(tag, len, body) {
                None => {
                    assert(decode_fields(acc_snap, s) is None);
                    return None;
                },
                Some(a2) => {
                    proof {
                        assert(decode_fields(acc_snap, s) == decode_fields(a2@, rest));
                    }
                    acc = a2;
                    i = i + 4 + len_us;
                },
            }
        }
    }
    proof {
        assert(b@.skip(i as int) =~= Seq::<u8>::empty());
        assert(decode_fields(acc@, b@.skip(i as int)) == Some(acc@));
    }
    Some(acc)
}

} // verus!
