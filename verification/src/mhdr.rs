//! The message header: every CTI message starts with the body length and the
//! message type, each a 32-bit big-endian word.
use vstd::prelude::*;
use crate::byte_codec::{read_u32_be, u32_be_bytes, u32_from_be, push_u32_be};
use crate::deserializable::Deserializable;
use crate::message_type::{spec_message_type_from_code, MessageType, spec_message_type_code};
use crate::serializable::Serializable;

verus! {

/// Size in bytes of the encoded header.
pub const MHDR_SIZE: usize = 8;

#[derive(Debug, Clone, Copy, PartialEq, Eq, Structural)]
pub struct MHDR {
    pub length: u32,
    pub message_type: MessageType,
}

impl View for MHDR {
    type V = MHDR;

    open spec fn view(&self) -> MHDR {
        *self
    }
}

/// The byte image of a header with the given body length and type code.
pub open spec fn mhdr_bytes(length: u32, code: u32) -> Seq<u8> {
    u32_be_bytes(length) + u32_be_bytes(code)
}

impl Serializable for MHDR {
    open spec fn spec_serialize(&self) -> Seq<u8> {
        mhdr_bytes(self.length, spec_message_type_code(self.message_type))
    }

    open spec fn serializable(&self) -> bool {
        true
    }

    fn serialize(self) -> (r: Vec<u8>) {
        let mut out: Vec<u8> = Vec::new();
        push_u32_be(&mut out, self.length);
        push_u32_be(&mut out, self.message_type.code());
        proof {
            assert(out@ =~= self.spec_serialize());
        }
        out
    }
}

impl Deserializable for MHDR {
    open spec fn spec_deserialize(b: Seq<u8>) -> Option<(MHDR, Seq<u8>)> {
        if b.len() < 8 {
            None
        } else {
            Some(
                (
                    MHDR {
                        length: u32_from_be(b[0], b[1], b[2], b[3]),
                        message_type: spec_message_type_from_code(
                            u32_from_be(b[4], b[5], b[6], b[7]),
                        ),
                    },
                    b.skip(8),
                ),
            )
        }
    }

    fn deserialize(buffer: &Vec<u8>) -> (r: Option<(Vec<u8>, Self)>) {
        let n = buffer.len();
        if n < 8 {
            return None;
        }
        let length = read_u32_be(buffer, 0);
        let message_type = MessageType::from_code(read_u32_be(buffer, 4));
        let rest = crate::byte_codec::copy_range(buffer, 8, n - 8);
        proof {
            assert(rest@ =~= buffer@.skip(8));
        }
        Some((rest, MHDR { length, message_type }))
    }
}

} // verus!
