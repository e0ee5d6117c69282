//! The frame of a message on the channel to the engine: a header of eight
//! bytes that holds the length of the message, most significant byte first,
//! and then the bytes of the message.

use vstd::prelude::*;

verus! {

/// The eight bytes of `n`, most significant first: its digits to the base
/// 256.
pub open spec fn be_bytes(n: u64) -> Seq<u8> {
    let q1 = n / 256;
    let q2 = q1 / 256;
    let q3 = q2 / 256;
    let q4 = q3 / 256;
    let q5 = q4 / 256;
    let q6 = q5 / 256;
    let q7 = q6 / 256;
    seq![
        (q7 % 256) as u8,
        (q6 % 256) as u8,
        (q5 % 256) as u8,
        (q4 % 256) as u8,
        (q3 % 256) as u8,
        (q2 % 256) as u8,
        (q1 % 256) as u8,
        (n % 256) as u8,
    ]
}

/// The number that eight bytes stand for, the first being the most
/// significant.
pub open spec fn be_value(bytes: Seq<u8>) -> int
    recommends
        bytes.len() == 8,
{
    ((((((bytes[0] * 256 + bytes[1]) * 256 + bytes[2]) * 256 + bytes[3]) * 256 + bytes[4]) * 256
        + bytes[5]) * 256 + bytes[6]) * 256 + bytes[7]
}

/// A message in its frame: the header with its length, then its bytes.
pub open spec fn framed(payload: Seq<u8>) -> Seq<u8>
    recommends
        payload.len() <= u64::MAX,
{
    be_bytes(payload.len() as u64) + payload
}

/// The message that a frame holds: what follows the header, where the header
/// gives just that many bytes.
pub open spec fn unframed(bytes: Seq<u8>) -> Option<Seq<u8>> {
    if bytes.len() >= 8 && be_value(bytes.subrange(0, 8)) == bytes.len() - 8 {
        Some(bytes.subrange(8, bytes.len() as int))
    } else {
        None
    }
}

/// The header gives back the number it was made from.
pub proof fn lemma_header_round_trip(n: u64)
    ensures
        be_bytes(n).len() == 8,
        be_value(be_bytes(n)) == n,
{
    let q1 = n / 256;
    let q2 = q1 / 256;
    let q3 = q2 / 256;
    let q4 = q3 / 256;
    let q5 = q4 / 256;
    let q6 = q5 / 256;
    let q7 = q6 / 256;
    let bytes = be_bytes(n);
    assert(q7 < 256);
    assert(bytes[0] == q7);
    assert(bytes[0] * 256 + bytes[1] == q6);
    assert(q6 * 256 + bytes[2] == q5);
    assert(q5 * 256 + bytes[3] == q4);
    assert(q4 * 256 + bytes[4] == q3);
    assert(q3 * 256 + bytes[5] == q2);
    assert(q2 * 256 + bytes[6] == q1);
    assert(q1 * 256 + bytes[7] == n);
}

/// The bytes of a header are those of the number they stand for.
pub proof fn lemma_value_round_trip(bytes: Seq<u8>)
    requires
        bytes.len() == 8,
    ensures
        0 <= be_value(bytes) <= u64::MAX,
        be_bytes(be_value(bytes) as u64) == bytes,
{
    let v1 = bytes[0] * 256 + bytes[1];
    let v2 = v1 * 256 + bytes[2];
    let v3 = v2 * 256 + bytes[3];
    let v4 = v3 * 256 + bytes[4];
    let v5 = v4 * 256 + bytes[5];
    let v6 = v5 * 256 + bytes[6];
    let v7 = v6 * 256 + bytes[7];
    assert(v7 == be_value(bytes));
    assert(0 <= v7 <= u64::MAX);
    let n = v7 as u64;
    assert(n / 256 == v6 && n % 256 == bytes[7]);
    assert(v6 / 256 == v5 && v6 % 256 == bytes[6]);
    assert(v5 / 256 == v4 && v5 % 256 == bytes[5]);
    assert(v4 / 256 == v3 && v4 % 256 == bytes[4]);
    assert(v3 / 256 == v2 && v3 % 256 == bytes[3]);
    assert(v2 / 256 == v1 && v2 % 256 == bytes[2]);
    assert(v1 / 256 == bytes[0] && v1 % 256 == bytes[1]);
    assert(be_bytes(n) =~= bytes);
}

/// A frame gives back the message it was made from.
pub proof fn lemma_frame_round_trip(payload: Seq<u8>)
    requires
        payload.len() <= u64::MAX,
    ensures
        unframed(framed(payload)) == Some(payload),
{
    let bytes = framed(payload);
    lemma_header_round_trip(payload.len() as u64);
    assert(bytes.subrange(0, 8) =~= be_bytes(payload.len() as u64));
    assert(bytes.subrange(8, bytes.len() as int) =~= payload);
}

/// The header for a message of `len` bytes.
pub fn length_header(len: usize) -> (header: Vec<u8>)
    ensures
        header@ == be_bytes(len as u64),
{
    let n: u64 = len as u64;
    let q1: u64 = n / 256;
    let q2: u64 = q1 / 256;
    let q3: u64 = q2 / 256;
    let q4: u64 = q3 / 256;
    let q5: u64 = q4 / 256;
    let q6: u64 = q5 / 256;
    let q7: u64 = q6 / 256;
    let mut header: Vec<u8> = Vec::new();
    header.push((q7 % 256) as u8);
    header.push((q6 % 256) as u8);
    header.push((q5 % 256) as u8);
    header.push((q4 % 256) as u8);
    header.push((q3 % 256) as u8);
    header.push((q2 % 256) as u8);
    header.push((q1 % 256) as u8);
    header.push((n % 256) as u8);
    assert(header@ =~= be_bytes(n));
    header
}

/// The length that a header gives: the number that its eight bytes stand
/// for. Nothing where the header is not eight bytes long or the number is
/// more than this machine can address.
pub fn read_length(header: &Vec<u8>) -> (len: Option<usize>)
    ensures
        len.is_some() <==> header@.len() == 8 && be_value(header@) <= usize::MAX,
        len.is_some() ==> len.unwrap() == be_value(header@),
{
    if header.len() != 8 {
        return None;
    }
    let v1: u64 = (header[0] as u64) * 256 + (header[1] as u64);
    let v2: u64 = v1 * 256 + (header[2] as u64);
    let v3: u64 = v2 * 256 + (header[3] as u64);
    let v4: u64 = v3 * 256 + (header[4] as u64);
    let v5: u64 = v4 * 256 + (header[5] as u64);
    let v6: u64 = v5 * 256 + (header[6] as u64);
    let value: u64 = v6 * 256 + (header[7] as u64);
    if value > usize::MAX as u64 {
        None
    } else {
        Some(value as usize)
    }
}

/// Puts a message into its frame.
pub fn frame(payload: &Vec<u8>) -> (bytes: Vec<u8>)
    ensures
        bytes@ == framed(payload@),
{
    let mut bytes = length_header(payload.len());
    let mut i: usize = 0;
    while i < payload.len()
        invariant
            i <= payload.len(),
            bytes@ == be_bytes(payload.len() as u64) + payload@.subrange(0, i as int),
        decreases payload.len() - i,
    {
        bytes.push(payload[i]);
        assert(bytes@ =~= be_bytes(payload.len() as u64) + payload@.subrange(0, i + 1));
        i = i + 1;
    }
    assert(payload@.subrange(0, i as int) =~= payload@);
    bytes
}

/// Takes a message out of its frame. Nothing where the bytes are no frame:
/// shorter than a header, or not as long as the header says.
pub fn unframe(bytes: &Vec<u8>) -> (payload: Option<Vec<u8>>)
    ensures
        match payload {
            Some(payload) => unframed(bytes@) == Some(payload@),
            None => unframed(bytes@).is_none(),
        },
{
    if bytes.len() < 8 {
        return None;
    }
    let mut header: Vec<u8> = Vec::new();
    let mut i: usize = 0;
    while i < 8
        invariant
            i <= 8,
            bytes.len() >= 8,
            header@ == bytes@.subrange(0, i as int),
        decreases 8 - i,
    {
        header.push(bytes[i]);
        assert(header@ =~= bytes@.subrange(0, i + 1));
        i = i + 1;
    }
    match read_length(&header) {
        Some(len) => {
            if len != bytes.len() - 8 {
                return None;
            }
        },
        None => {
            return None;
        },
    }
    let mut payload: Vec<u8> = Vec::new();
    let mut j: usize = 8;
    while j < bytes.len()
        invariant
            8 <= j <= bytes.len(),
            payload@ == bytes@.subrange(8, j as int),
        decreases bytes.len() - j,
    {
        payload.push(bytes[j]);
        assert(payload@ =~= bytes@.subrange(8, j + 1));
        j = j + 1;
    }
    Some(payload)
}

} // verus!
