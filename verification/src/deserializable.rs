//! Deserialization from the CTI wire.  Every implementor states its parse as
//! a spec function over its mathematical view; `deserialize` is proved to
//! follow it exactly, returning `None` on malformed input instead of failing.
use vstd::prelude::*;

verus! {

pub trait Deserializable: View + Sized {
    /// The exact parse of a byte sequence: the view of the decoded value and
    /// the unconsumed remainder, or `None` when the bytes are malformed.
    spec fn spec_deserialize(b: Seq<u8>) -> Option<(Self::V, Seq<u8>)>;

    /// Deserializes a value from the front of the buffer, returning the
    /// remainder alongside it.
    fn deserialize(buffer: &Vec<u8>) -> (r: Option<(Vec<u8>, Self)>)
        ensures
            match r {
                Some((rest, v)) => Self::spec_deserialize(buffer@) == Some((v@, rest@)),
                None => Self::spec_deserialize(buffer@) is None,
            },
    ;
}

} // verus!
