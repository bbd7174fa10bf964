//! The decisions of the HTTP/2 transport: whether a unary request is read, how
//! much of it, and how its frame is split into a procedure index and its data.
use crate::server::utils::decimal;
use vstd::prelude::*;

verus! {

/// The limits the transport serves requests under.
#[derive(Debug, Clone)]
pub struct TransportConfig {
    /// The largest body, in bytes, that a unary request may declare.
    pub max_unary_payload_size: u32,
}

impl TransportConfig {
    pub fn new() -> (r: Self)
        ensures
            r.max_unary_payload_size == 128 * 1024,
    {
        TransportConfig { max_unary_payload_size: 128 * 1024 }
    }
}

impl Default for TransportConfig {
    fn default() -> (r: Self)
        ensures
            r.max_unary_payload_size == 128 * 1024,
    {
        Self::new()
    }
}

/// Whether every byte is an ASCII digit.
pub open spec fn all_digits(d: Seq<u8>) -> bool {
    forall|i: int| 0 <= i < d.len() ==> 48 <= #[trigger] d[i] <= 57
}

/// The number that the decimal digits `d` write.
pub open spec fn digits_value(d: Seq<u8>) -> nat
    decreases d.len(),
{
    if d.len() == 0 {
        0
    } else {
        digits_value(d.drop_last()) * 10 + (d.last() - 48) as nat
    }
}

/// What `str::parse::<u32>` gives: an optional `+`, then at least one decimal
/// digit, for a value that fits in 32 bits.
pub open spec fn parse_u32(s: Seq<u8>) -> Option<u32> {
    let d = if s.len() > 0 && s[0] == 43 {
        s.drop_first()
    } else {
        s
    };
    if d.len() == 0 || !all_digits(d) || digits_value(d) > u32::MAX {
        None
    } else {
        Some(digits_value(d) as u32)
    }
}

proof fn lemma_digits_value_monotone(d: Seq<u8>, i: int)
    requires
        all_digits(d),
        0 <= i <= d.len(),
    ensures
        digits_value(d.subrange(0, i)) <= digits_value(d),
    decreases d.len() - i,
{
    if i < d.len() {
        lemma_digits_value_monotone(d, i + 1);
        assert(d.subrange(0, i + 1).drop_last() =~= d.subrange(0, i));
    } else {
        assert(d.subrange(0, i) =~= d);
    }
}

/// Parses a decimal number as `str::parse::<u32>` does.
pub fn parse_u32_bytes(s: &[u8]) -> (r: Option<u32>)
    ensures
        r == parse_u32(s@),
{
    let start: usize = if s.len() > 0 && s[0] == 43 {
        1
    } else {
        0
    };
    let ghost d = if s@.len() > 0 && s@[0] == 43 {
        s@.drop_first()
    } else {
        s@
    };
    assert(d =~= s@.subrange(start as int, s@.len() as int));
    if start == s.len() {
        return None;
    }
    let mut value: u64 = 0;
    let mut i = start;
    while i < s.len()
        invariant
            start <= i <= s@.len(),
            d =~= s@.subrange(start as int, s@.len() as int),
            d == (if s@.len() > 0 && s@[0] == 43 {
                s@.drop_first()
            } else {
                s@
            }),
            all_digits(d.subrange(0, i - start)),
            value == digits_value(d.subrange(0, i - start)),
            value <= u32::MAX,
        decreases s@.len() - i,
    {
        let c = s[i];
        if c < 48 || c > 57 {
            assert(d[i - start] == c);
            assert(!all_digits(d));
            return None;
        }
        let next = value * 10 + (c - 48) as u64;
        proof {
            assert(d.subrange(0, i + 1 - start).drop_last() =~= d.subrange(0, i - start));
            assert(all_digits(d.subrange(0, i + 1 - start)));
        }
        if next > 0xFFFF_FFFF {
            proof {
                assert(digits_value(d.subrange(0, i + 1 - start)) == next);
                if all_digits(d) {
                    lemma_digits_value_monotone(d, i + 1 - start);
                }
            }
            return None;
        }
        value = next;
        i = i + 1;
    }
    assert(d.subrange(0, s@.len() - start) =~= d);
    Some(value as u32)
}

/// What the transport does with a request, once its headers are in.
#[derive(Debug, Clone, Copy, PartialEq, Eq)]
pub enum Admission {
    /// No `content-length`: the request is a stream, which is not served.
    Stream,
    /// The `content-length` is not a number: the request is dropped unanswered.
    Drop,
    /// The declared body is larger than allowed: answered `413 Payload Too Large`.
    TooLarge,
    /// The body, of the declared length, is read.
    Read { len: u32 },
}

impl TransportConfig {
    /// Decides from the `content-length` header: `None` when there is none,
    /// `Some(None)` when its value is not visible ASCII text, else its text.
    pub fn admission(&self, content_length: Option<Option<&[u8]>>) -> (r: Admission)
        ensures
            r == (match content_length {
                None => Admission::Stream,
                Some(None) => Admission::Drop,
                Some(Some(text)) => match parse_u32(text@) {
                    None => Admission::Drop,
                    Some(len) => if len > self.max_unary_payload_size {
                        Admission::TooLarge
                    } else {
                        Admission::Read { len }
                    },
                },
            }),
    {
        match content_length {
            None => Admission::Stream,
            Some(None) => Admission::Drop,
            Some(Some(text)) => match parse_u32_bytes(text) {
                None => Admission::Drop,
                Some(len) => if len > self.max_unary_payload_size {
                    Admission::TooLarge
                } else {
                    Admission::Read { len }
                },
            },
        }
    }
}

/// Appends a chunk of the body to `buf`; `false` when the body has grown past
/// the declared length `len` (answered `400 Bad Request`).
pub fn accept_chunk(buf: &mut Vec<u8>, chunk: &[u8], len: u32) -> (r: bool)
    ensures
        final(buf)@ == old(buf)@ + chunk@,
        r == (final(buf)@.len() <= len),
{
    let mut i: usize = 0;
    while i < chunk.len()
        invariant
            i <= chunk@.len(),
            buf@ == old(buf)@ + chunk@.subrange(0, i as int),
        decreases chunk@.len() - i,
    {
        buf.push(chunk[i]);
        i = i + 1;
    }
    assert(chunk@.subrange(0, chunk@.len() as int) =~= chunk@);
    buf.len() <= len as usize
}

/// A unary request's frame: the procedure index (two bytes, little endian), then its data.
pub open spec fn frame(id: u16, data: Seq<u8>) -> Seq<u8> {
    seq![(id % 256) as u8, (id / 256) as u8] + data
}

/// Splits a unary request's body into the procedure index and its data;
/// `None` when the body is shorter than the index.
pub fn split_frame(buf: &[u8]) -> (r: Option<(u16, &[u8])>)
    ensures
        r is Some <==> buf@.len() >= 2,
        r matches Some((id, data)) ==> frame(id, data@) == buf@,
{
    if buf.len() < 2 {
        return None;
    }
    let id: u16 = buf[0] as u16 + 256 * (buf[1] as u16);
    let (_, data) = buf.split_at(2);
    assert(frame(id, data@) =~= buf@);
    Some((id, data))
}

/// A frame made of an index and data splits back into them.
pub proof fn law_split_frame_of_frame(id: u16, data: Seq<u8>)
    ensures
        frame(id, data).len() >= 2,
        frame(id, data).subrange(2, frame(id, data).len() as int) == data,
        (frame(id, data)[0] as int) + 256 * (frame(id, data)[1] as int) == id,
{
    assert(frame(id, data).subrange(2, frame(id, data).len() as int) =~= data);
}

proof fn lemma_decimal_digits(n: nat)
    ensures
        decimal(n).len() > 0,
        all_digits(decimal(n)),
        digits_value(decimal(n)) == n,
        decimal(n)[0] != 43,
    decreases n,
{
    if n >= 10 {
        lemma_decimal_digits(n / 10);
        let d = decimal(n);
        assert(d.drop_last() =~= decimal(n / 10));
        assert(d.last() == (48 + n % 10) as u8);
        assert(d.last() - 48 == n % 10);
        assert(n == (n / 10) * 10 + n % 10) by (nonlinear_arith);
        assert(digits_value(d) == digits_value(d.drop_last()) * 10 + (d.last() - 48) as nat);
    } else {
        let d = decimal(n);
        assert(d.drop_last() =~= Seq::<u8>::empty());
        assert(digits_value(d) == digits_value(d.drop_last()) * 10 + (d.last() - 48) as nat);
    }
}

/// A length the server writes in decimal (as in `Content-Length`) is read back
/// as the same number.
pub proof fn law_parse_reads_decimal(n: u32)
    ensures
        parse_u32(decimal(n as nat)) == Some(n),
{
    lemma_decimal_digits(n as nat);
}


/// `POST`
pub open spec fn post_method() -> Seq<u8> {
    seq![80u8, 79, 83, 84]
}

/// `/rpc`
pub open spec fn rpc_path() -> Seq<u8> {
    seq![47u8, 114, 112, 99]
}

fn bytes_equal(a: &[u8], b: &[u8]) -> (r: bool)
    ensures
        r == (a@ == b@),
{
    if a.len() != b.len() {
        return false;
    }
    let mut i: usize = 0;
    while i < a.len()
        invariant
            a@.len() == b@.len(),
            i <= a@.len(),
            forall|j: int| 0 <= j < i ==> a@[j] == b@[j],
        decreases a@.len() - i,
    {
        if a[i] != b[i] {
            return false;
        }
        i = i + 1;
    }
    assert(a@ =~= b@);
    true
}

/// Whether a request is a unary call: `POST` to `/rpc`; any other request is
/// served as a stream.
pub fn is_rpc_call(method: &[u8], path: &[u8]) -> (r: bool)
    ensures
        r == (method@ == post_method() && path@ == rpc_path()),
{
    let post: [u8; 4] = [80, 79, 83, 84];
    let rpc: [u8; 4] = [47, 114, 112, 99];
    assert(post@ =~= post_method());
    assert(rpc@ =~= rpc_path());
    bytes_equal(method, post.as_slice()) && bytes_equal(path, rpc.as_slice())
}

} // verus!
