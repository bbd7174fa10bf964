//! The server's answer to a WebSocket opening handshake.
use sha1::Digest;
use vstd::prelude::*;
use vstd::string::{StringExecFns, StringSliceAdditionalSpecFns};

verus! {

/// The string that RFC 6455 appends to the client's key before hashing it.
pub const MAGIC: &'static str = "258EAFA5-E914-47DA-95CA-C5AB0DC85B11";

/// The SHA-1 digest of `data`.
pub uninterp spec fn sha1_of(data: Seq<u8>) -> Seq<u8>;

/// Hashes `data` with `sha1::Sha1`.
///
/// The contract names the digest `sha1_of(data)` and states only that SHA-1
/// digests are 20 bytes long; the hash function itself is not stated.
#[verifier::external_body]
fn sha1_digest(data: &[u8]) -> (r: Vec<u8>)
    ensures
        r@ == sha1_of(data@),
        r@.len() == 20,
{
    sha1::Sha1::digest(data).to_vec()
}

/// The character that stands for the 6-bit value `v` in the standard base64 alphabet.
pub open spec fn base64_char(v: int) -> char {
    if v < 26 {
        (65 + v) as char
    } else if v < 52 {
        (97 + (v - 26)) as char
    } else if v < 62 {
        (48 + (v - 52)) as char
    } else if v == 62 {
        '+'
    } else {
        '/'
    }
}

/// Base64 with the standard alphabet and `=` padding (RFC 4648, section 4).
pub open spec fn base64_standard(b: Seq<u8>) -> Seq<char>
    decreases b.len(),
{
    if b.len() == 0 {
        Seq::empty()
    } else {
        let x0 = b[0] as int;
        let x1 = if b.len() > 1 { b[1] as int } else { 0 };
        let x2 = if b.len() > 2 { b[2] as int } else { 0 };
        let c0 = base64_char(x0 / 4);
        let c1 = base64_char((x0 % 4) * 16 + x1 / 16);
        let c2 = base64_char((x1 % 16) * 4 + x2 / 64);
        let c3 = base64_char(x2 % 64);
        if b.len() == 1 {
            seq![c0, c1, '=', '=']
        } else if b.len() == 2 {
            seq![c0, c1, c2, '=']
        } else {
            seq![c0, c1, c2, c3] + base64_standard(b.subrange(3, b.len() as int))
        }
    }
}

/// Encodes `data` with `base64::encode`.
///
/// `base64::encode` uses the `STANDARD` engine: the standard alphabet with padding.
#[verifier::external_body]
#[allow(deprecated)]
fn base64_encode(data: &[u8]) -> (r: String)
    ensures
        r@ == base64_standard(data@),
{
    base64::encode(data)
}

/// The value of the `Sec-WebSocket-Accept` header for the client's key: the
/// base64 encoding of the SHA-1 digest of the key followed by [`MAGIC`].
pub open spec fn accept_value(key: Seq<u8>) -> Seq<char> {
    base64_standard(sha1_of(key + MAGIC.spec_bytes()))
}

proof fn lemma_base64_len(b: Seq<u8>)
    ensures
        base64_standard(b).len() == 4 * ((b.len() + 2) / 3),
    decreases b.len(),
{
    if b.len() > 2 {
        lemma_base64_len(b.subrange(3, b.len() as int));
    }
}

/// The server's handshake response to a client whose `Sec-WebSocket-Key` is
/// `sec_web_socket_key`.
pub fn handshake_res(sec_web_socket_key: &str) -> (r: String)
    ensures
        r@ == "HTTP/1.1 101 Switching Protocols\r\nUpgrade: websocket\r\nConnection: Upgrade\r\nSec-WebSocket-Accept: "@
            + accept_value(sec_web_socket_key.spec_bytes()) + "\r\n\r\n"@,
        accept_value(sec_web_socket_key.spec_bytes()).len() == 28,
{
    let key = sec_web_socket_key.as_bytes();
    let magic = MAGIC.as_bytes();
    let mut data: Vec<u8> = Vec::new();
    let mut i: usize = 0;
    while i < key.len()
        invariant
            i <= key@.len(),
            data@ == key@.subrange(0, i as int),
        decreases key@.len() - i,
    {
        data.push(key[i]);
        i = i + 1;
    }
    let mut j: usize = 0;
    while j < magic.len()
        invariant
            j <= magic@.len(),
            data@ == key@ + magic@.subrange(0, j as int),
        decreases magic@.len() - j,
    {
        data.push(magic[j]);
        j = j + 1;
    }
    assert(data@ =~= key@ + magic@);
    let digest = sha1_digest(data.as_slice());
    proof {
        lemma_base64_len(digest@);
    }
    let accept = base64_encode(digest.as_slice());
    let mut res = "HTTP/1.1 101 Switching Protocols\r\nUpgrade: websocket\r\nConnection: Upgrade\r\nSec-WebSocket-Accept: ".to_owned();
    res.append(accept.as_str());
    res.append("\r\n\r\n");
    res
}

} // verus!
