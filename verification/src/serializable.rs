//! Serialization onto the CTI wire.  Every implementor states its exact byte
//! image as a spec function; `serialize` is proved to produce it.
use vstd::prelude::*;
use crate::byte_codec::{
    cstr_bytes, i16_be_bytes, i32_be_bytes, push_cstr, push_i16_be, push_i32_be, push_u16_be,
    push_u32_be, u16_be_bytes, u32_be_bytes,
};

verus! {

pub trait Serializable: Sized {
    /// The exact byte image of the value on the wire.
    spec fn spec_serialize(&self) -> Seq<u8>;

    /// Whether the value lies within the wire format's size limits.
    spec fn serializable(&self) -> bool;

    /// Serializes the value into a fresh byte vector.
    fn serialize(self) -> (r: Vec<u8>)
        requires
            self.serializable(),
        ensures
            r@ == self.spec_serialize(),
    ;
}

impl Serializable for u8 {
    open spec fn spec_serialize(&self) -> Seq<u8> {
        seq![*self]
    }

    open spec fn serializable(&self) -> bool {
        true
    }

    fn serialize(self) -> (r: Vec<u8>) {
        let mut out: Vec<u8> = Vec::new();
        out.push(self);
        proof {
            assert(out@ =~= seq![self]);
        }
        out
    }
}

impl Serializable for u16 {
    open spec fn spec_serialize(&self) -> Seq<u8> {
        u16_be_bytes(*self)
    }

    open spec fn serializable(&self) -> bool {
        true
    }

    fn serialize(self) -> (r: Vec<u8>) {
        let mut out: Vec<u8> = Vec::new();
        push_u16_be(&mut out, self);
        out
    }
}

impl Serializable for i16 {
    open spec fn spec_serialize(&self) -> Seq<u8> {
        i16_be_bytes(*self)
    }

    open spec fn serializable(&self) -> bool {
        true
    }

    fn serialize(self) -> (r: Vec<u8>) {
        let mut out: Vec<u8> = Vec::new();
        push_i16_be(&mut out, self);
        out
    }
}

impl Serializable for u32 {
    open spec fn spec_serialize(&self) -> Seq<u8> {
        u32_be_bytes(*self)
    }

    open spec fn serializable(&self) -> bool {
        true
    }

    fn serialize(self) -> (r: Vec<u8>) {
        let mut out: Vec<u8> = Vec::new();
        push_u32_be(&mut out, self);
        out
    }
}

impl Serializable for i32 {
    open spec fn spec_serialize(&self) -> Seq<u8> {
        i32_be_bytes(*self)
    }

    open spec fn serializable(&self) -> bool {
        true
    }

    fn serialize(self) -> (r: Vec<u8>) {
        let mut out: Vec<u8> = Vec::new();
        push_i32_be(&mut out, self);
        out
    }
}

impl Serializable for String {
    /// A string travels as its UTF-8 bytes followed by one NUL.
    open spec fn spec_serialize(&self) -> Seq<u8> {
        cstr_bytes(self@)
    }

    open spec fn serializable(&self) -> bool {
        true
    }

    fn serialize(self) -> (r: Vec<u8>) {
        let mut out: Vec<u8> = Vec::new();
        push_cstr(&mut out, self.as_str());
        out
    }
}

impl<T: Serializable> Serializable for Option<T> {
    /// An absent optional value contributes no bytes.
    open spec fn spec_serialize(&self) -> Seq<u8> {
        match self {
            Some(v) => v.spec_serialize(),
            None => Seq::empty(),
        }
    }

    open spec fn serializable(&self) -> bool {
        match self {
            Some(v) => v.serializable(),
            None => true,
        }
    }

    fn serialize(self) -> (r: Vec<u8>) {
        match self {
            Some(v) => v.serialize(),
            None => {
                let out: Vec<u8> = Vec::new();
                proof {
                    assert(out@ =~= Seq::<u8>::empty());
                }
                out
            },
        }
    }
}

} // verus!
