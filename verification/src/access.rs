//! The capability contracts and the generic accessor entry points.
//!
//! An option identifier is a zero-size marker. `SockOptId` binds it to its
//! option-level and option-number; `GetOpt` adds the read encoding, `SetOpt`
//! the write encoding. An identifier without a `SetOpt` implementation
//! cannot be handed to `set_request` at all — writing a read-only option is
//! rejected when the program is compiled, not at run time — and likewise for
//! `GetOpt` and `get_request`.
//!
//! One kernel call is split around the caller that performs it: `get_request`
//! builds everything the read syscall is handed, `get_outcome` judges what
//! came back; `set_request` and `set_outcome` do the same for a write. The
//! unverified caller in between only moves the request's buffers through the
//! syscall; `scratch_intact` gives it the length check it must make before
//! decoding, and a scratch buffer that fails that check marks a mis-declared
//! registry entry, to be reported loudly rather than decoded.

use vstd::prelude::*;
use crate::encoding::{GetScratch, SetPayload, zeros};
use crate::error::OsError;

verus! {

/// Binds an option identifier to its option-level and option-number.
pub trait SockOptId {
    /// The option-level the identifier belongs to.
    spec fn level_spec(&self) -> int;

    /// The option-number within that level.
    spec fn number_spec(&self) -> int;

    fn level(&self) -> (r: i32)
        ensures
            r as int == self.level_spec(),
    ;

    fn number(&self) -> (r: i32)
        ensures
            r as int == self.number_spec(),
    ;
}

/// The read capability: how a scratch buffer for this option is built and
/// how a filled one decodes into the option's value type.
pub trait GetOpt: SockOptId {
    type Val;

    /// The exact byte size the kernel must report back for this option.
    spec fn scratch_len(&self) -> nat;

    /// The value a filled scratch buffer of `scratch_len` bytes holds.
    spec fn decode_spec(&self, b: Seq<u8>) -> Self::Val;

    fn expected_len(&self) -> (r: u32)
        ensures
            r as nat == self.scratch_len(),
    ;

    fn scratch(&self) -> (r: GetScratch)
        ensures
            r.len as nat == self.scratch_len(),
            r.buf@ == zeros(self.scratch_len()),
    ;

    fn decode(&self, s: GetScratch) -> (r: Self::Val)
        requires
            s.len as nat == self.scratch_len(),
            s.buf@.len() == self.scratch_len(),
        ensures
            r == self.decode_spec(s.buf@),
    ;
}

/// The write capability: the byte payload a value of the option's value type
/// is carried in, and the length the kernel is told.
pub trait SetOpt: SockOptId {
    type Val;

    /// The payload bytes that carry `v`.
    spec fn payload_spec(&self, v: Self::Val) -> Seq<u8>;

    /// The length reported to the kernel; for the single-byte shape it is
    /// deliberately larger than the payload itself.
    spec fn reported_len_spec(&self) -> nat;

    fn payload(&self, v: &Self::Val) -> (r: SetPayload)
        ensures
            r.buf@ == self.payload_spec(*v),
            r.len as nat == self.reported_len_spec(),
    ;
}

/// Everything the read syscall is handed for one option: level, number, and
/// the scratch state whose buffer and length slot the kernel fills.
pub struct GetRequest {
    pub level: i32,
    pub number: i32,
    pub scratch: GetScratch,
}

/// Everything the write syscall is handed for one option: level, number, and
/// the payload with its reported length.
pub struct SetRequest {
    pub level: i32,
    pub number: i32,
    pub payload: SetPayload,
}

/// Builds the read request for an option: its level and number, and a
/// zero-initialized scratch buffer with the length slot preset to the exact
/// expected size.
pub fn get_request<O: GetOpt>(opt: &O) -> (r: GetRequest)
    ensures
        r.level as int == opt.level_spec(),
        r.number as int == opt.number_spec(),
        r.scratch.len as nat == opt.scratch_len(),
        r.scratch.buf@ == zeros(opt.scratch_len()),
{
    GetRequest { level: opt.level(), number: opt.number(), scratch: opt.scratch() }
}

/// Tells whether a returned scratch state still has the option's exact
/// expected size in both the length slot and the buffer. A caller that
/// performed the syscall must see this hold before asking for the value;
/// where it fails, the registry declared the wrong encoding for the running
/// platform, and the caller must fail loudly instead of decoding.
pub fn scratch_intact<O: GetOpt>(opt: &O, s: &GetScratch) -> (r: bool)
    ensures
        r == (s.len as nat == opt.scratch_len() && s.buf@.len() == opt.scratch_len()),
{
    let n = opt.expected_len();
    s.len == n && s.buf.len() == n as usize
}

/// Judges a completed read syscall: a zero status yields the decoded value,
/// a nonzero status carries the platform's error code out unchanged.
pub fn get_outcome<O: GetOpt>(opt: &O, status: i32, err_code: i32, scratch: GetScratch) -> (r:
    Result<O::Val, OsError>)
    requires
        status == 0 ==> scratch.len as nat == opt.scratch_len() && scratch.buf@.len()
            == opt.scratch_len(),
    ensures
        status == 0 ==> r == Ok::<O::Val, OsError>(opt.decode_spec(scratch.buf@)),
        status != 0 ==> r == Err::<O::Val, OsError>((OsError { code: err_code })),
{
    if status == 0 {
        Ok(opt.decode(scratch))
    } else {
        Err(OsError { code: err_code })
    }
}

/// Builds the write request for an option and a value: its level and number,
/// and the value's payload with the length the kernel is told.
pub fn set_request<O: SetOpt>(opt: &O, v: &O::Val) -> (r: SetRequest)
    ensures
        r.level as int == opt.level_spec(),
        r.number as int == opt.number_spec(),
        r.payload.buf@ == opt.payload_spec(*v),
        r.payload.len as nat == opt.reported_len_spec(),
{
    SetRequest { level: opt.level(), number: opt.number(), payload: opt.payload(v) }
}

/// Judges a completed write syscall: a zero status is success, a nonzero
/// status carries the platform's error code out unchanged.
pub fn set_outcome(status: i32, err_code: i32) -> (r: Result<(), OsError>)
    ensures
        status == 0 ==> r == Ok::<(), OsError>(()),
        status != 0 ==> r == Err::<(), OsError>((OsError { code: err_code })),
{
    if status == 0 {
        Ok(())
    } else {
        Err(OsError { code: err_code })
    }
}

} // verus!
