//! The WebSocket side of the downstream acceptor: validating the HTTP
//! upgrade request, computing the accept key, and framing outbound payloads
//! as RFC 6455 frames.  The sockets themselves stay outside the library.
use base64::Engine;
use sha1::Digest;
use vstd::prelude::*;
use vstd::utf8::encode_utf8;
use crate::byte_codec::{push_u16_be, push_u64_be, u16_be_bytes, u64_be_bytes};

verus! {

/// FIN set, binary opcode.
pub const WS_BINARY_HEADER: u8 = 0x82;

/// FIN set, text opcode.
pub const WS_TEXT_HEADER: u8 = 0x81;

/// FIN set, close opcode.
pub const WS_CLOSE_HEADER: u8 = 0x88;

/// The fixed GUID every WebSocket accept key is salted with.
pub open spec fn ws_guid_chars() -> Seq<char> {
    "258EAFA5-E914-47DA-95CA-C5AB0DC85B11"@
}

/// The SHA-1 digest of a byte sequence, a function of the bytes alone.
pub uninterp spec fn sha1_of(b: Seq<u8>) -> Seq<u8>;

/// The padded standard-alphabet base64 text of a byte sequence, a function
/// of the bytes alone.
pub uninterp spec fn base64_of(b: Seq<u8>) -> Seq<char>;

/// Relies on sha1::Sha1 through the Digest one-shot API: the 20-byte SHA-1
/// digest of the input.
#[verifier::external_body]
fn sha1_digest(data: &Vec<u8>) -> (r: Vec<u8>)
    ensures
        r@ == sha1_of(data@),
        r@.len() == 20,
{
    sha1::Sha1::digest(data.as_slice()).to_vec()
}

/// Relies on base64's standard engine: the padded base64 text of the input.
/// The engine can fail only by overflow on astronomic input lengths, which
/// the bound rules out.
#[verifier::external_body]
fn base64_encode(data: &Vec<u8>) -> (r: String)
    requires
        data@.len() <= 0x1000_0000,
    ensures
        r@ == base64_of(data@),
{
    base64::prelude::BASE64_STANDARD.encode(data.as_slice())
}

/// The accept key for a request key: base64 of the SHA-1 of the key with
/// the GUID appended.
pub open spec fn spec_accept_key(key: Seq<u8>) -> Seq<char> {
    base64_of(sha1_of(key + encode_utf8(ws_guid_chars())))
}

/// Computes the accept key the 101 response must carry.
pub fn compute_accept_key(key: &Vec<u8>) -> (r: String)
    ensures
        r@ == spec_accept_key(key@),
{
    let guid: &str = "258EAFA5-E914-47DA-95CA-C5AB0DC85B11";
    let mut input: Vec<u8> = Vec::new();
    input.extend_from_slice(key.as_slice());
    input.extend_from_slice(guid.as_bytes());
    proof {
        assert(input@ =~= key@ + encode_utf8(ws_guid_chars()));
    }
    let digest = sha1_digest(&input);
    base64_encode(&digest)
}

/// Whether `p` stands at the front of `b`.
pub open spec fn starts_with(b: Seq<u8>, p: Seq<u8>) -> bool {
    p.len() <= b.len() && b.take(p.len() as int) == p
}

/// Whether `p` stands in `b` at offset `i`.
pub open spec fn matches_at(b: Seq<u8>, p: Seq<u8>, i: int) -> bool {
    0 <= i && i + p.len() <= b.len() && b.subrange(i, i + p.len()) == p
}

/// Whether `p` stands anywhere in `b`.
pub open spec fn contains_seq(b: Seq<u8>, p: Seq<u8>) -> bool {
    exists|i: int| matches_at(b, p, i)
}

/// Checks whether `p` stands at the front of `b`.
fn check_prefix(b: &Vec<u8>, p: &[u8]) -> (r: bool)
    ensures
        r == starts_with(b@, p@),
{
    let m = p.len();
    if m > b.len() {
        proof {
            assert(!starts_with(b@, p@));
        }
        return false;
    }
    let mut k: usize = 0;
    while k < m
        invariant
            k <= m == p@.len() <= b@.len(),
            forall|t: int| 0 <= t < k ==> b@[t] == p@[t],
        decreases m - k,
    {
        if b[k] != p[k] {
            proof {
                assert(b@.take(p@.len() as int)[k as int] == b@[k as int]);
            }
            return false;
        }
        k = k + 1;
    }
    proof {
        assert(b@.take(p@.len() as int) =~= p@);
    }
    true
}

/// Checks whether `p` stands in `b` at offset `i`.
fn check_match_at(b: &Vec<u8>, p: &[u8], i: usize) -> (r: bool)
    requires
        i + p@.len() <= b@.len(),
    ensures
        r == matches_at(b@, p@, i as int),
{
    let n = b.len();
    let m = p.len();
    let mut k: usize = 0;
    while k < m
        invariant
            k <= m == p@.len(),
            i + m <= n == b@.len(),
            forall|t: int| 0 <= t < k ==> b@[i + t] == p@[t],
        decreases m - k,
    {
        if b[i + k] != p[k] {
            proof {
                assert(b@.subrange(i as int, i + p@.len())[k as int] == b@[i + k]);
            }
            return false;
        }
        k = k + 1;
    }
    proof {
        assert(b@.subrange(i as int, i + p@.len()) =~= p@);
    }
    true
}

/// The first offset where `p` stands in `b`, if any.
fn find_first(b: &Vec<u8>, p: &[u8]) -> (r: Option<usize>)
    ensures
        match r {
            Some(i) => matches_at(b@, p@, i as int) && (forall|j: int|
                0 <= j < i ==> !matches_at(b@, p@, j)),
            None => !contains_seq(b@, p@),
        },
{
    let n = b.len();
    let m = p.len();
    if m == 0 {
        proof {
            assert(b@.subrange(0, 0) =~= p@);
        }
        return Some(0);
    }
    if m > n {
        proof {
            assert(forall|i: int| !matches_at(b@, p@, i));
        }
        return None;
    }
    let mut i: usize = 0;
    while i <= n - m
        invariant
            1 <= m == p@.len() <= n == b@.len(),
            i <= n - m + 1,
            forall|j: int| 0 <= j < i ==> !matches_at(b@, p@, j),
        decreases n - m - i + 1,
    {
        if check_match_at(b, p, i) {
            return Some(i);
        }
        i = i + 1;
    }
    proof {
        assert(forall|j: int| j > n - m ==> !matches_at(b@, p@, j));
    }
    None
}

/// Whether a byte may appear in a Sec-WebSocket-Key value: digits, letters,
/// `+`, `=`, `/`.
pub open spec fn ws_key_byte(c: u8) -> bool {
    (0x30 <= c <= 0x39) || (0x41 <= c <= 0x5A) || (0x61 <= c <= 0x7A) || c == 0x2B || c == 0x3D
        || c == 0x2F
}

/// The run of key bytes at offset `j`.
pub open spec fn key_run(b: Seq<u8>, j: int) -> Seq<u8>
    decreases b.len() - j,
{
    if j < 0 || j >= b.len() || !ws_key_byte(b[j]) {
        Seq::empty()
    } else {
        seq![b[j]] + key_run(b, j + 1)
    }
}

/// What the upgrade request asks for: the bytes of the Sec-WebSocket-Key
/// value when the request is acceptable, nothing when it must be refused
/// with 400.  The request must open with `GET <path> `, must mention
/// `Upgrade` or `Sec-WebSocket`, and must carry the key header.
pub open spec fn spec_upgrade_key(req: Seq<u8>, path: Seq<u8>) -> Option<Seq<u8>> {
    if !starts_with(req, encode_utf8("GET "@) + path + encode_utf8(" "@)) {
        None
    } else if !contains_seq(req, encode_utf8("Upgrade"@)) && !contains_seq(
        req,
        encode_utf8("Sec-WebSocket"@),
    ) {
        None
    } else {
        let marker = encode_utf8("Sec-WebSocket-Key: "@);
        if !contains_seq(req, marker) {
            None
        } else {
            let i = choose|i: int|
                matches_at(req, marker, i) && (forall|j: int|
                    0 <= j < i ==> !matches_at(req, marker, j));
            Some(key_run(req, i + marker.len()))
        }
    }
}

/// Extracts the Sec-WebSocket-Key value from an upgrade request, refusing
/// requests that `spec_upgrade_key` refuses.
#[verifier::rlimit(100)]
pub fn parse_upgrade_key(req: &Vec<u8>, path: &Vec<u8>) -> (r: Option<Vec<u8>>)
    ensures
        match r {
            Some(key) => spec_upgrade_key(req@, path@) == Some(key@),
            None => spec_upgrade_key(req@, path@) is None,
        },
{
    let mut line: Vec<u8> = Vec::new();
    line.extend_from_slice("GET ".as_bytes());
    line.extend_from_slice(path.as_slice());
    line.extend_from_slice(" ".as_bytes());
    proof {
        assert(line@ =~= encode_utf8("GET "@) + path@ + encode_utf8(" "@));
    }
    if !check_prefix(req, line.as_slice()) {
        return None;
    }
    let upgrade: &[u8] = "Upgrade".as_bytes();
    let secws: &[u8] = "Sec-WebSocket".as_bytes();
    let has_upgrade = match find_first(req, upgrade) {
        Some(_) => true,
        None => false,
    };
    let has_secws = match find_first(req, secws) {
        Some(_) => true,
        None => false,
    };
    if !has_upgrade && !has_secws {
        return None;
    }
    let marker: &[u8] = "Sec-WebSocket-Key: ".as_bytes();
    match find_first(req, marker) {
        None => None,
        Some(i) => {
            let ghost wi = choose|wi: int|
                matches_at(req@, marker@, wi) && (forall|j: int|
                    0 <= j < wi ==> !matches_at(req@, marker@, j));
            proof {
                assert(matches_at(req@, marker@, i as int) && (forall|j: int|
                    0 <= j < i ==> !matches_at(req@, marker@, j)));
                if wi < i {
                    assert(!matches_at(req@, marker@, wi));
                }
                if wi > i {
                    assert(!matches_at(req@, marker@, i as int));
                }
                assert(wi == i as int);
            }
            let n = req.len();
            proof {
                assert(i + marker@.len() <= n);
            }
            let start = i + marker.len();
            let mut j = start;
            let mut key: Vec<u8> = Vec::new();
            proof {
                assert(key@ + key_run(req@, j as int) =~= key_run(req@, j as int));
            }
            loop
                invariant
                    start <= j <= n == req@.len(),
                    key_run(req@, start as int) == key@ + key_run(req@, j as int),
                ensures
                    key_run(req@, start as int) == key@ + key_run(req@, j as int),
                    key_run(req@, j as int) == Seq::<u8>::empty(),
                decreases n - j,
            {
                if j >= n {
                    proof {
                        assert(key_run(req@, j as int) =~= Seq::<u8>::empty());
                    }
                    break ;
                }
                let c = req[j];
                let ok = (0x30 <= c && c <= 0x39) || (0x41 <= c && c <= 0x5A) || (0x61 <= c && c
                    <= 0x7A) || c == 0x2B || c == 0x3D || c == 0x2F;
                if !ok {
                    proof {
                        assert(key_run(req@, j as int) =~= Seq::<u8>::empty());
                    }
                    break ;
                }
                let ghost key_pre = key@;
                key.push(c);
                proof {
                    assert(key_run(req@, j as int) == seq![req@[j as int]] + key_run(
                        req@,
                        j + 1,
                    ));
                    assert(key_pre + key_run(req@, j as int) =~= key@ + key_run(req@, j + 1));
                }
                j = j + 1;
            }
            proof {
                assert(key_run(req@, j as int) =~= Seq::<u8>::empty());
                assert(key@ + Seq::<u8>::empty() =~= key@);
            }
            Some(key)
        },
    }
}

/// The bytes of the 101 Switching Protocols response carrying the accept
/// key.
pub open spec fn spec_upgrade_response(accept: Seq<char>) -> Seq<u8> {
    encode_utf8(
        "HTTP/1.1 101 Switching Protocols\r\nUpgrade: websocket\r\nConnection: Upgrade\r\nSec-Websocket-Accept: "@,
    ) + encode_utf8(accept) + encode_utf8("\r\n\r\n"@)
}

/// Builds the 101 Switching Protocols response for an accept key.
pub fn upgrade_response(accept: &String) -> (r: Vec<u8>)
    ensures
        r@ == spec_upgrade_response(accept@),
{
    let mut out: Vec<u8> = Vec::new();
    out.extend_from_slice(
        "HTTP/1.1 101 Switching Protocols\r\nUpgrade: websocket\r\nConnection: Upgrade\r\nSec-Websocket-Accept: ".as_bytes(),
    );
    out.extend_from_slice(accept.as_str().as_bytes());
    out.extend_from_slice("\r\n\r\n".as_bytes());
    proof {
        assert(out@ =~= spec_upgrade_response(accept@));
    }
    out
}

/// The bytes of the 400 Bad Request response.
pub open spec fn spec_bad_request_response() -> Seq<u8> {
    encode_utf8("HTTP/1.1 400 Bad Request"@)
}

/// Builds the 400 Bad Request response.
pub fn bad_request_response() -> (r: Vec<u8>)
    ensures
        r@ == spec_bad_request_response(),
{
    let mut out: Vec<u8> = Vec::new();
    out.extend_from_slice("HTTP/1.1 400 Bad Request".as_bytes());
    proof {
        assert(out@ =~= spec_bad_request_response());
    }
    out
}

/// One unmasked frame with the FIN bit set and the given opcode header
/// byte: the 7-bit length for payloads under 126 bytes, the 16-bit form
/// under 65535, and the 64-bit form beyond.
pub open spec fn ws_frame(header: u8, p: Seq<u8>) -> Seq<u8> {
    if p.len() < 126 {
        seq![header, p.len() as u8] + p
    } else if p.len() < 65535 {
        seq![header, 126u8] + u16_be_bytes(p.len() as u16) + p
    } else {
        seq![header, 127u8] + u64_be_bytes(p.len() as u64) + p
    }
}

fn write_frame(header: u8, payload: &Vec<u8>) -> (r: Vec<u8>)
    ensures
        r@ == ws_frame(header, payload@),
{
    let n = payload.len();
    let mut out: Vec<u8> = Vec::new();
    out.push(header);
    if n < 126 {
        out.push(n as u8);
    } else if n < 65535 {
        out.push(126);
        push_u16_be(&mut out, n as u16);
    } else {
        out.push(127);
        push_u64_be(&mut out, n as u64);
    }
    out.extend_from_slice(payload.as_slice());
    proof {
        assert(out@ =~= ws_frame(header, payload@));
    }
    out
}

/// Frames a payload as a single binary frame, server to client, unmasked.
pub fn write_binary(payload: &Vec<u8>) -> (r: Vec<u8>)
    ensures
        r@ == ws_frame(WS_BINARY_HEADER, payload@),
{
    write_frame(WS_BINARY_HEADER, payload)
}

/// Frames a payload as a single text frame, server to client, unmasked.
pub fn write_text(payload: &Vec<u8>) -> (r: Vec<u8>)
    ensures
        r@ == ws_frame(WS_TEXT_HEADER, payload@),
{
    write_frame(WS_TEXT_HEADER, payload)
}

/// The close frame carrying a status code.
pub open spec fn ws_close_frame(status: u16) -> Seq<u8> {
    seq![WS_CLOSE_HEADER, 2u8] + u16_be_bytes(status)
}

/// Frames a close with the given status code.
pub fn write_close(status: u16) -> (r: Vec<u8>)
    ensures
        r@ == ws_close_frame(status),
{
    let mut out: Vec<u8> = Vec::new();
    out.push(WS_CLOSE_HEADER);
    out.push(2);
    push_u16_be(&mut out, status);
    proof {
        assert(out@ =~= ws_close_frame(status));
    }
    out
}

/// Whether an inbound frame's first byte carries the close opcode bit.
pub fn is_close_frame(first_byte: u8) -> (r: bool)
    ensures
        r == ((first_byte & 0x08) != 0),
{
    (first_byte & 0x08) != 0
}

} // verus!
