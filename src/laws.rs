use vstd::prelude::*;

use crate::digest::sha256_of;
use crate::error::NsmError;
use crate::session::{
    after_extend, after_lock, after_lock_range, after_remove_certificate, after_set_certificate,
    attestation_digest, describe_certificate_result, describe_result, extend_result, extend_value, fresh_view,
    lock_range_result, lock_result, pcr_error, remove_certificate_result, set_certificate_result,
    zero_digest, SessionView, CERTIFICATE_SLOTS, PCR_DIGEST_LEN, PCR_SLOTS,
};

verus! {

/// Two extensions of one register chain: the second hashes the digest that
/// the first produced, followed by its own data.
pub proof fn extension_chains(v: SessionView, slot: u32, d1: Seq<u8>, d2: Seq<u8>)
    requires
        v.wf(),
        !v.closed,
        slot < PCR_SLOTS,
        !v.locks[slot as int],
    ensures
        after_extend(after_extend(v, slot, d1), slot, d2).pcrs[slot as int] == extend_value(
            extend_value(v.pcrs[slot as int], d1),
            d2,
        ),
        extend_result(after_extend(v, slot, d1), slot, d2) == Ok::<Seq<u8>, NsmError>(
            extend_value(extend_value(v.pcrs[slot as int], d1), d2),
        ),
{
}

/// From a fresh session, two extensions of one register give
/// `H(H(zero || d1) || d2)`.
pub proof fn fresh_extension_chains(
    path: Seq<char>,
    module_id: Seq<char>,
    slot: u32,
    d1: Seq<u8>,
    d2: Seq<u8>,
)
    requires
        slot < PCR_SLOTS,
    ensures
        after_extend(after_extend(fresh_view(path, module_id), slot, d1), slot, d2).pcrs[slot as int]
            == sha256_of(
                sha256_of(zero_digest() + d1).take(PCR_DIGEST_LEN as int) + d2,
            ).take(PCR_DIGEST_LEN as int),
{
    extension_chains(fresh_view(path, module_id), slot, d1, d2);
}

/// After a register is locked, every extension of it fails with
/// `PcrLocked` and leaves the whole state as it was.
pub proof fn locked_register_refuses_extension(v: SessionView, slot: u32, data: Seq<u8>)
    requires
        v.wf(),
        !v.closed,
        slot < PCR_SLOTS,
    ensures
        lock_result(v, slot) == Ok::<bool, NsmError>(true),
        extend_result(after_lock(v, slot), slot, data) == Err::<Seq<u8>, NsmError>(
            NsmError::PcrLocked(slot),
        ),
        after_extend(after_lock(v, slot), slot, data) == after_lock(v, slot),
{
}

/// A set lock stays set, and a locked register keeps its digest, through
/// every operation that changes the state.
pub proof fn locks_are_permanent(v: SessionView, i: int, slot: u32, n: u32, data: Seq<u8>, cert: Seq<u8>)
    requires
        v.wf(),
        0 <= i < PCR_SLOTS,
        v.locks[i],
    ensures
        after_extend(v, slot, data).locks[i],
        after_extend(v, slot, data).pcrs[i] == v.pcrs[i],
        after_lock(v, slot).locks[i],
        after_lock_range(v, n).locks[i],
        after_set_certificate(v, slot, cert).locks[i],
        after_remove_certificate(v, slot).locks[i],
{
    if extend_result(v, slot, data) is Ok {
        assert(slot as int != i);
    }
}

/// Locking with a range above the register count is the same as locking
/// with the count.
pub proof fn lock_range_clamps(v: SessionView, n: u32)
    requires
        v.wf(),
        n > PCR_SLOTS,
    ensures
        lock_range_result(v, n) == lock_range_result(v, PCR_SLOTS as u32),
        after_lock_range(v, n) == after_lock_range(v, PCR_SLOTS as u32),
{
    assert(after_lock_range(v, n).locks =~= after_lock_range(v, PCR_SLOTS as u32).locks);
}

/// A certificate just stored reads back exactly; once removed, reading it
/// fails with `CertificateNotFound`.
pub proof fn certificate_round_trip(v: SessionView, slot: u32, cert: Seq<u8>)
    requires
        v.wf(),
        !v.closed,
        slot < CERTIFICATE_SLOTS,
    ensures
        set_certificate_result(v, slot) == Ok::<(), NsmError>(()),
        describe_certificate_result(after_set_certificate(v, slot, cert), slot) == Ok::<
            Seq<u8>,
            NsmError,
        >(cert),
        remove_certificate_result(after_set_certificate(v, slot, cert), slot) == Ok::<(), NsmError>(()),
        describe_certificate_result(
            after_remove_certificate(after_set_certificate(v, slot, cert), slot),
            slot,
        ) == Err::<Seq<u8>, NsmError>(NsmError::CertificateNotFound(slot)),
{
}

/// Locking a register twice succeeds both times and changes nothing beyond
/// the first lock.
pub proof fn lock_is_idempotent(v: SessionView, slot: u32)
    requires
        v.wf(),
    ensures
        lock_result(after_lock(v, slot), slot) == lock_result(v, slot),
        after_lock(after_lock(v, slot), slot) == after_lock(v, slot),
{
    if pcr_error(v, slot) is None {
        assert(after_lock(after_lock(v, slot), slot).locks =~= after_lock(v, slot).locks);
    }
}

/// The attestation digest is determined by the register values and the
/// user data alone: two states that agree on those give the same digest,
/// whatever their locks, certificates, key, nonce or time.
pub proof fn attestation_digest_depends_on_registers_and_user_data(
    v1: SessionView,
    v2: SessionView,
    u1: Option<Seq<u8>>,
    u2: Option<Seq<u8>>,
)
    requires
        attestation_digest(v1.pcrs, u1) != attestation_digest(v2.pcrs, u2),
    ensures
        v1.pcrs != v2.pcrs || u1 != u2,
{
}

/// A closed session refuses every operation with `SessionClosed` and no
/// operation changes its state.
pub proof fn closed_session_is_frozen(v: SessionView, slot: u32, n: u32, data: Seq<u8>)
    requires
        v.closed,
    ensures
        describe_result(v, slot) == Err::<Seq<u8>, NsmError>(NsmError::SessionClosed),
        extend_result(v, slot, data) == Err::<Seq<u8>, NsmError>(NsmError::SessionClosed),
        lock_result(v, slot) == Err::<bool, NsmError>(NsmError::SessionClosed),
        lock_range_result(v, n) == Err::<bool, NsmError>(NsmError::SessionClosed),
        set_certificate_result(v, slot) == Err::<(), NsmError>(NsmError::SessionClosed),
        describe_certificate_result(v, slot) == Err::<Seq<u8>, NsmError>(NsmError::SessionClosed),
        remove_certificate_result(v, slot) == Err::<(), NsmError>(NsmError::SessionClosed),
        after_extend(v, slot, data) == v,
        after_lock(v, slot) == v,
        after_lock_range(v, n) == v,
        after_set_certificate(v, slot, data) == v,
        after_remove_certificate(v, slot) == v,
{
}

} // verus!
