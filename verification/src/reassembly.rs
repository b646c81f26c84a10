//! Packet reassembly for the upstream session: a TCP read may carry several
//! concatenated CTI messages and may split one across reads.  Bytes that do
//! not yet form a whole message are carried over to the next read.
use vstd::prelude::*;
use crate::byte_codec::{copy_range, read_u32_be, u32_from_be};
use crate::message_type::{spec_message_type_from_code, MessageType};

verus! {

/// One complete CTI message as sliced off the byte stream: its type and its
/// exact wire bytes, header included.
#[derive(Debug, Clone)]
pub struct CtiFrame {
    pub message_type: MessageType,
    pub data: Vec<u8>,
}

/// The mathematical image of a frame.
pub struct CtiFrameView {
    pub message_type: MessageType,
    pub data: Seq<u8>,
}

impl View for CtiFrame {
    type V = CtiFrameView;

    open spec fn view(&self) -> CtiFrameView {
        CtiFrameView { message_type: self.message_type, data: self.data@ }
    }
}

/// A byte sequence that is exactly one message: a header plus as many body
/// bytes as the header declares.
pub open spec fn complete_frame(b: Seq<u8>) -> bool {
    b.len() >= 8 && b.len() == 8 + u32_from_be(b[0], b[1], b[2], b[3])
}

/// The frame a complete message's bytes stand for.
pub open spec fn frame_of(b: Seq<u8>) -> CtiFrameView {
    CtiFrameView {
        message_type: spec_message_type_from_code(u32_from_be(b[4], b[5], b[6], b[7])),
        data: b,
    }
}

/// The complete messages at the front of the stream, in order, and the
/// incomplete remainder to carry over.
pub open spec fn spec_frames(b: Seq<u8>) -> (Seq<CtiFrameView>, Seq<u8>)
    decreases b.len(),
{
    if b.len() < 8 {
        (Seq::empty(), b)
    } else {
        let l = u32_from_be(b[0], b[1], b[2], b[3]);
        if b.len() < 8 + l {
            (Seq::empty(), b)
        } else {
            let r = spec_frames(b.skip(8 + l as int));
            (seq![frame_of(b.take(8 + l as int))] + r.0, r.1)
        }
    }
}

/// Carries bytes of an incomplete message from one read to the next.
#[derive(Debug)]
pub struct Reassembler {
    carry: Vec<u8>,
}

impl View for Reassembler {
    type V = Seq<u8>;

    closed spec fn view(&self) -> Seq<u8> {
        self.carry@
    }
}

impl Reassembler {
    /// A fresh reassembler carries nothing.
    pub fn new() -> (r: Self)
        ensures
            r@ == Seq::<u8>::empty(),
    {
        Reassembler { carry: Vec::new() }
    }

    /// Feeds one read's bytes: every message completed by them is returned,
    /// in wire order, and the unparsed remainder becomes the new carry.
    pub fn push(&mut self, chunk: &Vec<u8>) -> (frames: Vec<CtiFrame>)
        ensures
            frames@.map_values(|f: CtiFrame| f@) == spec_frames(old(self)@ + chunk@).0,
            final(self)@ == spec_frames(old(self)@ + chunk@).1,
    {
        let mut buf: Vec<u8> = Vec::new();
        buf.append(&mut self.carry);
        buf.extend_from_slice(chunk.as_slice());
        proof {
            assert(buf@ == old(self)@ + chunk@);
        }
        let n = buf.len();
        let mut i: usize = 0;
        let mut frames: Vec<CtiFrame> = Vec::new();
        proof {
            assert(buf@.skip(0) =~= buf@);
            assert(frames@.map_values(|f: CtiFrame| f@) + spec_frames(buf@).0
                =~= spec_frames(buf@).0);
        }
        loop
            invariant
                i <= n == buf@.len(),
                spec_frames(buf@).0 == frames@.map_values(|f: CtiFrame| f@) + spec_frames(
                    buf@.skip(i as int),
                ).0,
                spec_frames(buf@).1 == spec_frames(buf@.skip(i as int)).1,
            ensures
                i <= n == buf@.len(),
                spec_frames(buf@).0 == frames@.map_values(|f: CtiFrame| f@) + spec_frames(
                    buf@.skip(i as int),
                ).0,
                spec_frames(buf@).1 == spec_frames(buf@.skip(i as int)).1,
                spec_frames(buf@.skip(i as int)).0 == Seq::<CtiFrameView>::empty(),
                spec_frames(buf@.skip(i as int)).1 == buf@.skip(i as int),
            decreases n - i,
        {
            let ghost s = buf@.skip(i as int);
            proof {
                assert(s.len() == n - i);
            }
            if n - i < 8 {
                break ;
            }
            let l = read_u32_be(&buf, i);
            proof {
                assert(s[0] == buf@[i as int]);
                assert(s[1] == buf@[i + 1]);
                assert(s[2] == buf@[i + 2]);
                assert(s[3] == buf@[i + 3]);
                assert(s[4] == buf@[i + 4]);
                assert(s[5] == buf@[i + 5]);
                assert(s[6] == buf@[i + 6]);
                assert(s[7] == buf@[i + 7]);
            }
            if ((n - i) as u64) < 8u64 + (l as u64) {
                proof {
                    assert(spec_frames(s).0 =~= Seq::<CtiFrameView>::empty());
                }
                break ;
            }
            let size = 8 + (l as usize);
            let message_type = MessageType::from_code(read_u32_be(&buf, i + 4));
            let data = copy_range(&buf, i, size);
            proof {
                assert(data@ =~= s.take(8 + l as int));
            }
            let frame = CtiFrame { message_type, data };
            let ghost frames_pre = frames@;
            frames.push(frame);
            proof {
                assert(frames@.map_values(|f: CtiFrame| f@) =~= frames_pre.map_values(
                    |f: CtiFrame| f@,
                ).push(frame@));
                assert(frame@ == frame_of(s.take(8 + l as int)));
                assert(buf@.skip(i + size) =~= s.skip(8 + l as int));
                assert(spec_frames(s).0 == seq![frame_of(s.take(8 + l as int))] + spec_frames(
                    s.skip(8 + l as int),
                ).0);
                assert(frames_pre.map_values(|f: CtiFrame| f@) + spec_frames(s).0
                    =~= frames@.map_values(|f: CtiFrame| f@) + spec_frames(
                    s.skip(8 + l as int),
                ).0);
            }
            i = i + size;
        }
        let rest = copy_range(&buf, i, n - i);
        proof {
            assert(rest@ =~= buf@.skip(i as int));
            assert(spec_frames(buf@.skip(i as int)).1 == buf@.skip(i as int));
            assert(spec_frames(buf@).0 =~= frames@.map_values(|f: CtiFrame| f@));
        }
        self.carry = rest;
        frames
    }
}

/// Two complete messages delivered in one read yield both frames, in order,
/// with their exact bytes, and leave nothing behind.
pub proof fn lemma_frames_two_messages(m1: Seq<u8>, m2: Seq<u8>)
    requires
        complete_frame(m1),
        complete_frame(m2),
    ensures
        spec_frames(m1 + m2).0 == seq![frame_of(m1), frame_of(m2)],
        spec_frames(m1 + m2).1 == Seq::<u8>::empty(),
{
    let b = m1 + m2;
    let l1 = u32_from_be(b[0], b[1], b[2], b[3]);
    assert(b[0] == m1[0] && b[1] == m1[1] && b[2] == m1[2] && b[3] == m1[3]);
    assert(l1 == u32_from_be(m1[0], m1[1], m1[2], m1[3]));
    assert(b.len() == m1.len() + m2.len());
    assert(b.take(8 + l1 as int) =~= m1);
    assert(b.skip(8 + l1 as int) =~= m2);
    let l2 = u32_from_be(m2[0], m2[1], m2[2], m2[3]);
    assert(m2.take(8 + l2 as int) =~= m2);
    assert(m2.skip(8 + l2 as int) =~= Seq::<u8>::empty());
    assert(spec_frames(Seq::<u8>::empty()).0 =~= Seq::<CtiFrameView>::empty());
    assert(spec_frames(m2).0 =~= seq![frame_of(m2)]);
    assert(spec_frames(b).0 =~= seq![frame_of(m1), frame_of(m2)]);
}

/// A message split at any interior point yields nothing from the first part
/// and exactly the one frame once the second part arrives.
pub proof fn lemma_frames_split_message(m: Seq<u8>, k: int)
    requires
        complete_frame(m),
        1 <= k < m.len(),
    ensures
        spec_frames(m.take(k)).0 == Seq::<CtiFrameView>::empty(),
        spec_frames(m.take(k)).1 == m.take(k),
        spec_frames(m.take(k) + m.skip(k)).0 == seq![frame_of(m)],
        spec_frames(m.take(k) + m.skip(k)).1 == Seq::<u8>::empty(),
{
    let p = m.take(k);
    if p.len() >= 8 {
        assert(p[0] == m[0] && p[1] == m[1] && p[2] == m[2] && p[3] == m[3]);
        assert(u32_from_be(p[0], p[1], p[2], p[3]) == u32_from_be(m[0], m[1], m[2], m[3]));
        assert(p.len() < 8 + u32_from_be(p[0], p[1], p[2], p[3]));
    }
    assert(p + m.skip(k) =~= m);
    let l = u32_from_be(m[0], m[1], m[2], m[3]);
    assert(m.take(8 + l as int) =~= m);
    assert(m.skip(8 + l as int) =~= Seq::<u8>::empty());
    assert(spec_frames(Seq::<u8>::empty()).0 =~= Seq::<CtiFrameView>::empty());
    assert(spec_frames(Seq::<u8>::empty()).1 =~= Seq::<u8>::empty());
    assert(spec_frames(m).0 =~= seq![frame_of(m)]);
}

} // verus!
