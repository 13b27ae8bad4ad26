//! The skill/host calling convention: how results, allocations and host
//! replies are framed.
//!
//! A host call hands back one `u64` that packs the address of the reply
//! bytes (high 32 bits) and their length (low 32 bits). A buffer that the
//! skill allocates for the host starts with an 8-byte little-endian header
//! holding the buffer's total length; the host sees the address just past it.
use vstd::prelude::*;

use crate::types::SkillError;

verus! {

/// 2^32: the factor between the address and length halves of a packed result.
pub open spec fn half() -> int {
    0x1_0000_0000
}

/// The packed form of an (address, length) pair; an empty result packs to 0.
pub open spec fn packed_result(ptr: u32, len: u32) -> int {
    if len == 0 {
        0
    } else {
        ptr * half() + len
    }
}

/// Pack the address and length of a result buffer into one `u64`.
pub fn pack_result(ptr: u32, len: u32) -> (p: u64)
    ensures
        p == packed_result(ptr, len),
{
    if len == 0 {
        return 0;
    }
    let p = ((ptr as u64) << 32) | (len as u64);
    assert(((ptr as u64) << 32) | (len as u64) == (ptr as u64) * 0x1_0000_0000u64 + (len as u64)) by (bit_vector);
    p
}

/// Split a packed host result into the address (high half) and length (low half).
pub fn unpack_result(packed: u64) -> (r: (u32, u32))
    ensures
        r.0 == (packed as int) / half(),
        r.1 == (packed as int) % half(),
{
    let ptr = (packed >> 32) as u32;
    let len = (packed & 0xFFFF_FFFF) as u32;
    assert((packed >> 32) as u32 == packed / 0x1_0000_0000u64) by (bit_vector);
    assert((packed & 0xFFFF_FFFF) as u32 == packed % 0x1_0000_0000u64) by (bit_vector);
    (ptr, len)
}

/// Unpacking a packed result gives back the address and length, and an
/// empty result unpacks to length zero.
pub proof fn law_unpack_packed(ptr: u32, len: u32)
    ensures
        len != 0 ==> packed_result(ptr, len) / half() == ptr && packed_result(ptr, len) % half() == len,
        len == 0 ==> packed_result(ptr, len) % half() == 0,
{
    assert(len != 0 ==> (ptr * half() + len) / half() == ptr && (ptr * half() + len) % half() == len) by (nonlinear_arith)
        requires
            0 <= len < half(),
            half() == 0x1_0000_0000int,
    ;
}

/// The little-endian bytes of `x`.
pub open spec fn le_bytes(x: u64) -> Seq<u8> {
    seq![
        x as u8,
        (x >> 8) as u8,
        (x >> 16) as u8,
        (x >> 24) as u8,
        (x >> 32) as u8,
        (x >> 40) as u8,
        (x >> 48) as u8,
        (x >> 56) as u8,
    ]
}

/// The number that eight little-endian bytes spell.
pub open spec fn le_value(b: Seq<u8>) -> u64
    recommends
        b.len() == 8,
{
    (b[0] as u64) | ((b[1] as u64) << 8) | ((b[2] as u64) << 16) | ((b[3] as u64) << 24)
        | ((b[4] as u64) << 32) | ((b[5] as u64) << 40) | ((b[6] as u64) << 48) | ((b[7] as u64) << 56)
}

/// The bytes the skill reserves for a host write of `size` bytes: the
/// header plus the data; `None` for an empty request, which gets no buffer.
pub open spec fn alloc_total(size: u32) -> Option<u64> {
    if size == 0 {
        None
    } else {
        Some((size + 8) as u64)
    }
}

/// The total length of the buffer to reserve for a host write of `size`
/// bytes, and its header; `None` for an empty request.
pub fn alloc_header(size: u32) -> (r: Option<(u64, Vec<u8>)>)
    ensures
        match alloc_total(size) {
            None => r is None,
            Some(total) => r matches Some((t, h)) && t == total && h@ == le_bytes(total),
        },
{
    if size == 0 {
        return None;
    }
    let total: u64 = size as u64 + 8;
    let header = vec![
        total as u8,
        (total >> 8) as u8,
        (total >> 16) as u8,
        (total >> 24) as u8,
        (total >> 32) as u8,
        (total >> 40) as u8,
        (total >> 48) as u8,
        (total >> 56) as u8,
    ];
    proof {
        assert(header@ =~= le_bytes(total));
    }
    Some((total, header))
}

/// Read the total buffer length back from a buffer header.
pub fn header_total(header: &[u8]) -> (t: u64)
    requires
        header@.len() == 8,
    ensures
        t == le_value(header@),
{
    (header[0] as u64) | ((header[1] as u64) << 8) | ((header[2] as u64) << 16) | ((header[3] as u64) << 24)
        | ((header[4] as u64) << 32) | ((header[5] as u64) << 40) | ((header[6] as u64) << 48)
        | ((header[7] as u64) << 56)
}

/// Reading a header back gives the total length written into it.
pub proof fn law_header_round_trip(x: u64)
    ensures
        le_value(le_bytes(x)) == x,
{
    let b = le_bytes(x);
    assert(b[0] == x as u8 && b[1] == (x >> 8) as u8 && b[2] == (x >> 16) as u8 && b[3] == (x >> 24) as u8);
    assert(b[4] == (x >> 32) as u8 && b[5] == (x >> 40) as u8 && b[6] == (x >> 48) as u8 && b[7] == (x >> 56) as u8);
    assert(((x as u8) as u64) | ((((x >> 8) as u8) as u64) << 8) | ((((x >> 16) as u8) as u64) << 16)
        | ((((x >> 24) as u8) as u64) << 24) | ((((x >> 32) as u8) as u64) << 32)
        | ((((x >> 40) as u8) as u64) << 40) | ((((x >> 48) as u8) as u64) << 48)
        | ((((x >> 56) as u8) as u64) << 56) == x) by (bit_vector);
}

/// What releasing a buffer address amounts to.
#[derive(Debug, Clone, Copy, PartialEq, Eq, Structural)]
pub enum FreeAction {
    /// Address 0: nothing to release.
    Ignore,
    /// The address of the current result buffer: drop that buffer.
    ReleaseResult,
    /// Any other address: a buffer handed out for a host write.
    ReleaseAllocation,
}

/// Decide what releasing `ptr` means, given the address of the current
/// result buffer when that buffer is not empty.
pub fn free_action(ptr: u32, result_buf: Option<u32>) -> (a: FreeAction)
    ensures
        a == (if ptr == 0 {
            FreeAction::Ignore
        } else if result_buf == Some(ptr) {
            FreeAction::ReleaseResult
        } else {
            FreeAction::ReleaseAllocation
        }),
{
    if ptr == 0 {
        return FreeAction::Ignore;
    }
    match result_buf {
        Some(p) if p == ptr => FreeAction::ReleaseResult,
        _ => FreeAction::ReleaseAllocation,
    }
}

/// What a decoded host reply amounts to: the error text found in the reply
/// when it has a non-empty one, else the reply decoded as the expected type.
pub open spec fn reply_result<R>(error_probe: Option<String>, decoded: Result<R, SkillError>) -> Result<R, SkillError> {
    match error_probe {
        Some(e) => if e@.len() != 0 {
            Err(SkillError(e))
        } else {
            decoded
        },
        None => decoded,
    }
}

/// Settle a host reply: `error_probe` is the `error` field read from the
/// reply bytes (when they decode as a map with one), `decoded` the reply
/// decoded as the expected type.
pub fn check_reply<R>(error_probe: Option<String>, decoded: Result<R, SkillError>) -> (r: Result<R, SkillError>)
    ensures
        r == reply_result(error_probe, decoded),
{
    if let Some(e) = error_probe {
        if !e.as_str().is_empty() {
            return Err(SkillError(e));
        }
    }
    decoded
}

/// A reply whose `error` field holds text fails with that text, whatever
/// the reply decodes to; otherwise the decoded reply stands.
pub proof fn law_reply_error_text_wins<R>(error_probe: Option<String>, decoded: Result<R, SkillError>)
    ensures
        error_probe matches Some(e) ==> (e@.len() != 0 ==> reply_result(error_probe, decoded) == Err::<R, SkillError>(SkillError(e))),
        error_probe matches Some(e) ==> (e@.len() == 0 ==> reply_result(error_probe, decoded) == decoded),
        error_probe is None ==> reply_result(error_probe, decoded) == decoded,
{
}

/// Packing keeps the address in the high half and the length in the low
/// half; only an empty result packs to zero.
pub proof fn law_packed_halves(ptr: u32, len: u32)
    ensures
        len != 0 ==> packed_result(ptr, len) == ptr * 0x1_0000_0000 + len,
        len != 0 ==> packed_result(ptr, len) != 0,
        len == 0 ==> packed_result(ptr, len) == 0,
{
}

} // verus!
