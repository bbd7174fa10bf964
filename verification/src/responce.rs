//! The frame a response is sent in: a status byte, then the length-prefixed payload.
use vstd::prelude::*;

verus! {

/// The outcome a response frame reports.
#[derive(Clone, Copy, Debug)]
pub enum Status {
    Success,
    Error,
    Close,
}

impl Status {
    /// The byte that stands for the status on the wire.
    pub open spec fn spec_code(self) -> u8 {
        match self {
            Status::Success => 0,
            Status::Error => 1,
            Status::Close => 2,
        }
    }

    /// The byte that stands for the status on the wire.
    pub fn code(&self) -> (r: u8)
        ensures
            r == self.spec_code(),
    {
        match self {
            Status::Success => 0,
            Status::Error => 1,
            Status::Close => 2,
        }
    }

    /// Appends the status byte to `c`.
    pub fn encoder(&self, c: &mut Vec<u8>)
        ensures
            final(c)@ == old(c)@.push(self.spec_code()),
    {
        encode_u8(self.code(), c);
    }
}

/// The largest payload length that the length prefix can carry (22 bits).
pub open spec fn max_payload_len() -> nat {
    0x3FFFFF
}

/// The length prefix of a payload of `n` bytes: 1, 2 or 3 bytes, little endian,
/// the first byte's top bits telling how many follow (`0`, `10`, `11`).
pub open spec fn len_prefix(n: nat) -> Seq<u8> {
    if n < 128 {
        seq![n as u8]
    } else if n < 0x4000 {
        seq![(0x80 + n % 64) as u8, (n / 64) as u8]
    } else {
        seq![(0xC0 + n % 64) as u8, ((n / 64) % 256) as u8, (n / 0x4000) as u8]
    }
}

/// The length a length prefix at the start of `b` stands for, and how many
/// bytes the prefix takes: the low 6 or 7 bits of the first byte, then whole
/// following bytes, little endian.
pub open spec fn read_len_prefix(b: Seq<u8>) -> (nat, nat) {
    if b[0] < 0x80 {
        (b[0] as nat, 1)
    } else if b[0] < 0xC0 {
        ((b[0] % 64) as nat + 64 * (b[1] as nat), 2)
    } else {
        ((b[0] % 64) as nat + 64 * (b[1] as nat) + 0x4000 * (b[2] as nat), 3)
    }
}

/// A length prefix reads back as the length it was written for, whatever follows it.
pub proof fn law_len_prefix_reads_back(n: nat, rest: Seq<u8>)
    requires
        n <= max_payload_len(),
    ensures
        read_len_prefix(len_prefix(n) + rest) == (n, len_prefix(n).len()),
{
    let b = len_prefix(n) + rest;
    if n >= 128 && n < 0x4000 {
        assert(n == n % 64 + 64 * (n / 64)) by (nonlinear_arith);
        assert(b[0] % 64 == n % 64);
    } else if n >= 0x4000 {
        assert(n == n % 64 + 64 * ((n / 64) % 256) + 0x4000 * (n / 0x4000)) by (nonlinear_arith)
            requires n <= 0x3FFFFF;
        assert(b[0] % 64 == n % 64);
    }
}

/// Writes one byte with `bin_layout`'s `u8` encoder.
///
/// `<u8 as bin_layout::Encoder>::encoder` writes the byte itself; writing into a
/// `Vec` cannot fail.
#[verifier::external_body]
fn encode_u8(b: u8, c: &mut Vec<u8>)
    ensures
        final(c)@ == old(c)@.push(b),
{
    let _ = bin_layout::Encoder::encoder(&b, c);
}

/// Writes a byte slice with `bin_layout`'s slice encoder.
///
/// `<[u8] as bin_layout::Encoder>::encoder` writes the length prefix (`bin_layout::len::L3`)
/// and then the bytes; it fails, before writing anything, when the length does
/// not fit in 22 bits. Writing into a `Vec` cannot fail otherwise.
#[verifier::external_body]
fn encode_bytes(data: &[u8], c: &mut Vec<u8>) -> (ok: bool)
    ensures
        ok == (data@.len() <= max_payload_len()),
        ok ==> final(c)@ == old(c)@ + len_prefix(data@.len()) + data@,
        !ok ==> final(c)@ == old(c)@,
{
    bin_layout::Encoder::encoder(data, c).is_ok()
}

/// Why a frame could not be encoded.
#[derive(Debug, Clone, Copy, PartialEq, Eq)]
pub enum EncodeError {
    /// The payload is longer than the length prefix can carry.
    PayloadTooLong,
}

/// A response frame.
pub struct Responce<'a> {
    status: Status,
    data: &'a [u8],
}

impl<'a> Responce<'a> {
    pub fn new(status: Status, data: &'a [u8]) -> (r: Self)
        ensures
            r.status() == status,
            r.data() == data@,
    {
        Responce { status, data }
    }

    pub closed spec fn status(self) -> Status {
        self.status
    }

    pub closed spec fn data(self) -> Seq<u8> {
        self.data@
    }

    /// Appends the frame to `c`: the status byte, the payload's length prefix, the payload.
    pub fn encoder(&self, c: &mut Vec<u8>) -> (r: Result<(), EncodeError>)
        ensures
            r is Ok <==> self.data().len() <= max_payload_len(),
            r is Ok ==> final(c)@ == old(c)@.push(self.status().spec_code()) + len_prefix(
                self.data().len(),
            ) + self.data(),
            r is Err ==> final(c)@ == old(c)@.push(self.status().spec_code()),
    {
        self.status.encoder(c);
        if encode_bytes(self.data, c) {
            Ok(())
        } else {
            Err(EncodeError::PayloadTooLong)
        }
    }
}

} // verus!
