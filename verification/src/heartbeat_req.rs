//! The HEARTBEAT_REQ message: a header and an invoke id, nothing more.
use vstd::prelude::*;
use crate::byte_codec::{push_u32_be, read_u32_be, u32_be_bytes, u32_from_be, lemma_u32_be_round};
use crate::deserializable::Deserializable;
use crate::message_type::{
    spec_message_type_from_code, MessageType, HEARTBEAT_REQ_CODE,
};
use crate::mhdr::{mhdr_bytes, MHDR};
use crate::serializable::Serializable;

verus! {

#[derive(Debug, Clone, Copy, PartialEq, Eq, Structural)]
pub struct HeartBeatReq {
    pub mhdr: MHDR,
    pub invoke_id: u32,
}

impl View for HeartBeatReq {
    type V = HeartBeatReq;

    open spec fn view(&self) -> HeartBeatReq {
        *self
    }
}

impl Serializable for HeartBeatReq {
    /// The header is emitted with body length 4 and the HEARTBEAT_REQ code,
    /// whatever the `mhdr` field holds.
    open spec fn spec_serialize(&self) -> Seq<u8> {
        mhdr_bytes(4, HEARTBEAT_REQ_CODE) + u32_be_bytes(self.invoke_id)
    }

    open spec fn serializable(&self) -> bool {
        true
    }

    fn serialize(self) -> (r: Vec<u8>) {
        let mut out: Vec<u8> = Vec::new();
        push_u32_be(&mut out, 4);
        push_u32_be(&mut out, HEARTBEAT_REQ_CODE);
        push_u32_be(&mut out, self.invoke_id);
        proof {
            assert(out@ =~= self.spec_serialize());
        }
        out
    }
}

impl Deserializable for HeartBeatReq {
    open spec fn spec_deserialize(b: Seq<u8>) -> Option<(HeartBeatReq, Seq<u8>)> {
        if b.len() < 12 {
            None
        } else {
            Some(
                (
                    HeartBeatReq {
                        mhdr: MHDR {
                            length: u32_from_be(b[0], b[1], b[2], b[3]),
                            message_type: spec_message_type_from_code(
                                u32_from_be(b[4], b[5], b[6], b[7]),
                            ),
                        },
                        invoke_id: u32_from_be(b[8], b[9], b[10], b[11]),
                    },
                    b.skip(12),
                ),
            )
        }
    }

    fn deserialize(buffer: &Vec<u8>) -> (r: Option<(Vec<u8>, Self)>) {
        let n = buffer.len();
        if n < 12 {
            return None;
        }
        let length = read_u32_be(buffer, 0);
        let message_type = MessageType::from_code(read_u32_be(buffer, 4));
        let invoke_id = read_u32_be(buffer, 8);
        let rest = crate::byte_codec::copy_range(buffer, 12, n - 12);
        proof {
            assert(rest@ =~= buffer@.skip(12));
        }
        Some((rest, HeartBeatReq { mhdr: MHDR { length, message_type }, invoke_id }))
    }
}

/// Encoding a HEARTBEAT_REQ with its canonical header and decoding the bytes
/// gives the message back, consuming them whole.
pub proof fn lemma_heartbeat_req_round_trip(m: HeartBeatReq)
    requires
        m.mhdr == (MHDR { length: 4, message_type: MessageType::HEARTBEAT_REQ }),
    ensures
        HeartBeatReq::spec_deserialize(m.spec_serialize()) == Some((m, Seq::<u8>::empty())),
{
    let b = m.spec_serialize();
    assert(b.len() == 12);
    lemma_u32_be_round(4);
    lemma_u32_be_round(HEARTBEAT_REQ_CODE);
    lemma_u32_be_round(m.invoke_id);
    assert(b[0] == u32_be_bytes(4)[0] && b[1] == u32_be_bytes(4)[1] && b[2] == u32_be_bytes(4)[2]
        && b[3] == u32_be_bytes(4)[3]);
    assert(b[4] == u32_be_bytes(HEARTBEAT_REQ_CODE)[0] && b[5] == u32_be_bytes(
        HEARTBEAT_REQ_CODE,
    )[1] && b[6] == u32_be_bytes(HEARTBEAT_REQ_CODE)[2] && b[7] == u32_be_bytes(
        HEARTBEAT_REQ_CODE,
    )[3]);
    assert(b[8] == u32_be_bytes(m.invoke_id)[0] && b[9] == u32_be_bytes(m.invoke_id)[1] && b[10]
        == u32_be_bytes(m.invoke_id)[2] && b[11] == u32_be_bytes(m.invoke_id)[3]);
    assert(b.skip(12) =~= Seq::<u8>::empty());
}

} // verus!
