use vstd::prelude::*;

use crate::digest::{sha256, sha256_of};
use crate::entropy::random_bytes;
use crate::error::NsmError;
use crate::hex::{hex_encode, hex_of};

verus! {

/// Number of measurement registers.
pub const PCR_SLOTS: usize = 32;

/// Length in bytes of every register's digest.
pub const PCR_DIGEST_LEN: usize = 32;

/// Number of certificate slots.
pub const CERTIFICATE_SLOTS: usize = 4;

/// Number of random bytes behind a module id.
pub const MODULE_ID_BYTES: usize = 16;

/// The device path used when the caller names none.
pub fn default_device_path() -> (r: &'static str)
    ensures
        r@ == "/var/run/nsm"@,
{
    "/var/run/nsm"
}

/// The abstract state of a session.
pub struct SessionView {
    pub device_path: Seq<char>,
    pub closed: bool,
    pub pcrs: Seq<Seq<u8>>,
    pub locks: Seq<bool>,
    pub certificates: Seq<Option<Seq<u8>>>,
    pub module_id: Seq<char>,
}

impl SessionView {
    /// Fixed register and slot counts, and a full digest in every register.
    pub open spec fn wf(self) -> bool {
        &&& self.pcrs.len() == PCR_SLOTS
        &&& forall|i: int| 0 <= i < self.pcrs.len() ==> (#[trigger] self.pcrs[i]).len() == PCR_DIGEST_LEN
        &&& self.locks.len() == PCR_SLOTS
        &&& self.certificates.len() == CERTIFICATE_SLOTS
    }
}

/// A register's digest before any extension.
pub open spec fn zero_digest() -> Seq<u8> {
    Seq::new(PCR_DIGEST_LEN as nat, |j: int| 0u8)
}

/// The state of a session just opened.
pub open spec fn fresh_view(device_path: Seq<char>, module_id: Seq<char>) -> SessionView {
    SessionView {
        device_path,
        closed: false,
        pcrs: Seq::new(PCR_SLOTS as nat, |i: int| zero_digest()),
        locks: Seq::new(PCR_SLOTS as nat, |i: int| false),
        certificates: Seq::new(CERTIFICATE_SLOTS as nat, |i: int| None),
        module_id,
    }
}

/// The path a session records: the one given, else the default.
pub open spec fn resolved_path(device_path: Option<String>) -> Seq<char> {
    match device_path {
        Some(p) => p@,
        None => "/var/run/nsm"@,
    }
}

/// The bytes of an optional byte vector.
pub open spec fn opt_bytes(v: Option<Vec<u8>>) -> Option<Seq<u8>> {
    match v {
        Some(b) => Some(b@),
        None => None,
    }
}

/// A result carrying bytes, seen through its view.
pub open spec fn bytes_result(r: Result<Vec<u8>, NsmError>) -> Result<Seq<u8>, NsmError> {
    match r {
        Ok(v) => Ok(v@),
        Err(e) => Err(e),
    }
}

/// A register's next value: the leading digest-length bytes of the hash of
/// its old value followed by the new data.
pub open spec fn extend_value(old: Seq<u8>, data: Seq<u8>) -> Seq<u8> {
    sha256_of(old + data).take(PCR_DIGEST_LEN as int)
}

/// All register digests, joined in ascending slot order.
pub open spec fn concat_all(pcrs: Seq<Seq<u8>>) -> Seq<u8>
    decreases pcrs.len(),
{
    if pcrs.len() == 0 {
        Seq::empty()
    } else {
        concat_all(pcrs.drop_last()) + pcrs.last()
    }
}

/// The aggregate digest of an attestation: the hash of every register in
/// ascending order, followed by the user data when there is any.
pub open spec fn attestation_digest(pcrs: Seq<Seq<u8>>, user_data: Option<Seq<u8>>) -> Seq<u8> {
    let suffix = match user_data {
        Some(d) => d,
        None => Seq::empty(),
    };
    sha256_of(concat_all(pcrs) + suffix).take(PCR_DIGEST_LEN as int)
}

/// The indices of the set flags, in ascending order.
pub open spec fn locked_indices(locks: Seq<bool>) -> Seq<u32>
    decreases locks.len(),
{
    if locks.len() == 0 {
        Seq::empty()
    } else {
        let rest = locked_indices(locks.drop_last());
        if locks.last() {
            rest.push((locks.len() - 1) as u32)
        } else {
            rest
        }
    }
}

/// How many certificate slots hold a certificate.
pub open spec fn populated_count(certificates: Seq<Option<Seq<u8>>>) -> nat
    decreases certificates.len(),
{
    if certificates.len() == 0 {
        0
    } else {
        populated_count(certificates.drop_last()) + if certificates.last() is Some {
            1nat
        } else {
            0nat
        }
    }
}

/// The error, if any, of an operation on register `slot`.
pub open spec fn pcr_error(v: SessionView, slot: u32) -> Option<NsmError> {
    if v.closed {
        Some(NsmError::SessionClosed)
    } else if slot >= PCR_SLOTS {
        Some(NsmError::InvalidPcrSlot(slot, PCR_SLOTS))
    } else {
        None
    }
}

/// The error, if any, of an operation on certificate slot `slot`.
pub open spec fn certificate_error(v: SessionView, slot: u32) -> Option<NsmError> {
    if v.closed {
        Some(NsmError::SessionClosed)
    } else if slot >= CERTIFICATE_SLOTS {
        Some(NsmError::InvalidCertificateSlot(slot, CERTIFICATE_SLOTS))
    } else {
        None
    }
}

/// What reading register `slot` returns.
pub open spec fn describe_result(v: SessionView, slot: u32) -> Result<Seq<u8>, NsmError> {
    match pcr_error(v, slot) {
        Some(e) => Err(e),
        None => Ok(v.pcrs[slot as int]),
    }
}

/// What extending register `slot` with `data` returns.
pub open spec fn extend_result(v: SessionView, slot: u32, data: Seq<u8>) -> Result<Seq<u8>, NsmError> {
    match pcr_error(v, slot) {
        Some(e) => Err(e),
        None => if v.locks[slot as int] {
            Err(NsmError::PcrLocked(slot))
        } else {
            Ok(extend_value(v.pcrs[slot as int], data))
        },
    }
}

/// The state after extending register `slot` with `data`.
pub open spec fn after_extend(v: SessionView, slot: u32, data: Seq<u8>) -> SessionView {
    match extend_result(v, slot, data) {
        Ok(d) => SessionView { pcrs: v.pcrs.update(slot as int, d), ..v },
        Err(_) => v,
    }
}

/// What locking register `slot` returns.
pub open spec fn lock_result(v: SessionView, slot: u32) -> Result<bool, NsmError> {
    match pcr_error(v, slot) {
        Some(e) => Err(e),
        None => Ok(true),
    }
}

/// The state after locking register `slot`.
pub open spec fn after_lock(v: SessionView, slot: u32) -> SessionView {
    match pcr_error(v, slot) {
        Some(_) => v,
        None => SessionView { locks: v.locks.update(slot as int, true), ..v },
    }
}

/// What locking the first `n` registers returns.
pub open spec fn lock_range_result(v: SessionView, n: u32) -> Result<bool, NsmError> {
    if v.closed {
        Err(NsmError::SessionClosed)
    } else {
        Ok(true)
    }
}

/// The state after locking the registers below `min(n, count)`.
pub open spec fn after_lock_range(v: SessionView, n: u32) -> SessionView {
    if v.closed {
        v
    } else {
        SessionView {
            locks: Seq::new(v.locks.len(), |i: int| v.locks[i] || (i < n && i < PCR_SLOTS)),
            ..v
        }
    }
}

/// What storing a certificate in slot `slot` returns.
pub open spec fn set_certificate_result(v: SessionView, slot: u32) -> Result<(), NsmError> {
    match certificate_error(v, slot) {
        Some(e) => Err(e),
        None => Ok(()),
    }
}

/// The state after storing `cert` in certificate slot `slot`.
pub open spec fn after_set_certificate(v: SessionView, slot: u32, cert: Seq<u8>) -> SessionView {
    match certificate_error(v, slot) {
        Some(_) => v,
        None => SessionView { certificates: v.certificates.update(slot as int, Some(cert)), ..v },
    }
}

/// What reading certificate slot `slot` returns.
pub open spec fn describe_certificate_result(v: SessionView, slot: u32) -> Result<Seq<u8>, NsmError> {
    match certificate_error(v, slot) {
        Some(e) => Err(e),
        None => match v.certificates[slot as int] {
            Some(c) => Ok(c),
            None => Err(NsmError::CertificateNotFound(slot)),
        },
    }
}

/// What emptying certificate slot `slot` returns.
pub open spec fn remove_certificate_result(v: SessionView, slot: u32) -> Result<(), NsmError> {
    match certificate_error(v, slot) {
        Some(e) => Err(e),
        None => match v.certificates[slot as int] {
            Some(_) => Ok(()),
            None => Err(NsmError::CertificateNotFound(slot)),
        },
    }
}

/// The state after emptying certificate slot `slot`.
pub open spec fn after_remove_certificate(v: SessionView, slot: u32) -> SessionView {
    match remove_certificate_result(v, slot) {
        Ok(_) => SessionView { certificates: v.certificates.update(slot as int, None), ..v },
        Err(_) => v,
    }
}

/// An attestation session: registers, locks, certificates and module id.
pub struct NsmSession {
    device_path: String,
    closed: bool,
    pcrs: Vec<Vec<u8>>,
    pcr_locks: Vec<bool>,
    certificates: Vec<Option<Vec<u8>>>,
    module_id: String,
}

impl View for NsmSession {
    type V = SessionView;

    closed spec fn view(&self) -> SessionView {
        SessionView {
            device_path: self.device_path@,
            closed: self.closed,
            pcrs: self.pcrs@.map_values(|p: Vec<u8>| p@),
            locks: self.pcr_locks@,
            certificates: self.certificates@.map_values(|c: Option<Vec<u8>>| opt_bytes(c)),
            module_id: self.module_id@,
        }
    }
}

impl NsmSession {
    /// The abstract state is well formed.
    pub open spec fn wf(&self) -> bool {
        self@.wf()
    }

    /// A fresh session for `device_path` whose module id is `module_id`.
    pub fn with_module_id(device_path: String, module_id: String) -> (s: NsmSession)
        ensures
            s.wf(),
            s@ == fresh_view(device_path@, module_id@),
    {
        let mut pcrs: Vec<Vec<u8>> = Vec::new();
        let mut i: usize = 0;
        while i < PCR_SLOTS
            invariant
                i <= PCR_SLOTS,
                pcrs@.len() == i,
                forall|k: int| 0 <= k < i ==> (#[trigger] pcrs@[k])@ == zero_digest(),
            decreases PCR_SLOTS - i,
        {
            let zero: Vec<u8> = vec![0u8; PCR_DIGEST_LEN];
            assert(zero@ =~= zero_digest());
            pcrs.push(zero);
            i = i + 1;
        }
        let mut certificates: Vec<Option<Vec<u8>>> = Vec::new();
        let mut j: usize = 0;
        while j < CERTIFICATE_SLOTS
            invariant
                j <= CERTIFICATE_SLOTS,
                certificates@.len() == j,
                forall|k: int| 0 <= k < j ==> (#[trigger] certificates@[k]) is None,
            decreases CERTIFICATE_SLOTS - j,
        {
            certificates.push(None);
            j = j + 1;
        }
        let s = NsmSession {
            device_path,
            closed: false,
            pcrs,
            pcr_locks: vec![false; PCR_SLOTS],
            certificates,
            module_id,
        };
        assert(s@.pcrs =~= fresh_view(device_path@, module_id@).pcrs);
        assert(s@.locks =~= fresh_view(device_path@, module_id@).locks);
        assert(s@.certificates =~= fresh_view(device_path@, module_id@).certificates);
        s
    }
}


/// A copy of `src`.
pub fn copy_bytes(src: &[u8]) -> (r: Vec<u8>)
    ensures
        r@ == src@,
{
    let mut out: Vec<u8> = Vec::with_capacity(src.len());
    let mut i: usize = 0;
    while i < src.len()
        invariant
            i <= src@.len(),
            out@ == src@.take(i as int),
        decreases src@.len() - i,
    {
        out.push(src[i]);
        i = i + 1;
    }
    assert(out@ =~= src@);
    out
}

/// A copy of an optional byte vector.
fn copy_opt_bytes(src: &Option<Vec<u8>>) -> (r: Option<Vec<u8>>)
    ensures
        opt_bytes(r) == opt_bytes(*src),
{
    match src {
        Some(b) => Some(copy_bytes(b.as_slice())),
        None => None,
    }
}

/// A register's state, as reported for inspection.
pub struct PcrDescription {
    pub index: u32,
    pub digest: Vec<u8>,
    pub locked: bool,
}

/// Session-wide metadata.
pub struct ModuleDescription {
    pub module_id: String,
    pub pcr_slots: u32,
    pub certificate_slots: u32,
    pub locked_pcrs: Vec<u32>,
    pub certificates: u32,
}

/// A record that binds every register's value and the caller's context.
pub struct AttestationDocument {
    pub module_id: String,
    pub timestamp: u64,
    pub digest: Vec<u8>,
    pub pcrs: Vec<Vec<u8>>,
    pub locked_pcrs: Vec<u32>,
    pub certificate: Option<Vec<u8>>,
    pub cabundle: Option<Vec<u8>>,
    pub user_data: Option<Vec<u8>>,
    pub public_key: Option<Vec<u8>>,
    pub nonce: Option<Vec<u8>>,
}

impl NsmSession {
    /// The indices of the locked registers, ascending.
    fn locked_list(&self) -> (r: Vec<u32>)
        requires
            self.wf(),
        ensures
            r@ == locked_indices(self@.locks),
    {
        let mut out: Vec<u32> = Vec::new();
        let mut i: usize = 0;
        while i < self.pcr_locks.len()
            invariant
                self.wf(),
                i <= self@.locks.len(),
                out@ == locked_indices(self@.locks.take(i as int)),
            decreases self@.locks.len() - i,
        {
            assert(self@.locks.take(i as int + 1).drop_last() =~= self@.locks.take(i as int));
            if self.pcr_locks[i] {
                out.push(i as u32);
            }
            i = i + 1;
        }
        assert(self@.locks.take(i as int) =~= self@.locks);
        out
    }

    /// Every register's digest joined in ascending order, then `suffix`.
    fn measured_bytes(&self, suffix: &Option<Vec<u8>>) -> (r: Vec<u8>)
        requires
            self.wf(),
        ensures
            r@ == concat_all(self@.pcrs) + match opt_bytes(*suffix) {
                Some(d) => d,
                None => Seq::empty(),
            },
    {
        let mut out: Vec<u8> = Vec::new();
        let mut i: usize = 0;
        while i < self.pcrs.len()
            invariant
                self.wf(),
                i <= self@.pcrs.len(),
                out@ == concat_all(self@.pcrs.take(i as int)),
            decreases self@.pcrs.len() - i,
        {
            assert(self@.pcrs.take(i as int + 1).drop_last() =~= self@.pcrs.take(i as int));
            let part = &self.pcrs[i];
            let mut j: usize = 0;
            let ghost start = out@;
            while j < part.len()
                invariant
                    j <= part@.len(),
                    out@ == start + part@.take(j as int),
                decreases part@.len() - j,
            {
                out.push(part[j]);
                j = j + 1;
                assert(out@ =~= start + part@.take(j as int));
            }
            assert(part@.take(j as int) =~= part@);
            assert(part@ == self@.pcrs[i as int]);
            i = i + 1;
        }
        assert(self@.pcrs.take(i as int) =~= self@.pcrs);
        match suffix {
            Some(d) => {
                let ghost start = out@;
                let mut k: usize = 0;
                while k < d.len()
                    invariant
                        k <= d@.len(),
                        out@ == start + d@.take(k as int),
                    decreases d@.len() - k,
                {
                    out.push(d[k]);
                    k = k + 1;
                    assert(out@ =~= start + d@.take(k as int));
                }
                assert(d@.take(k as int) =~= d@);
            },
            None => {
                assert(out@ =~= out@ + Seq::<u8>::empty());
            },
        }
        out
    }

    /// An attestation document of the current state, stamped `timestamp`.
    /// The digest covers the registers and `user_data`; `public_key` and
    /// `nonce` are carried through untouched.
    pub fn get_attestation(
        &self,
        timestamp: u64,
        user_data: Option<Vec<u8>>,
        public_key: Option<Vec<u8>>,
        nonce: Option<Vec<u8>>,
    ) -> (r: Result<AttestationDocument, NsmError>)
        requires
            self.wf(),
        ensures
            self@.closed ==> r == Err::<AttestationDocument, NsmError>(NsmError::SessionClosed),
            !self@.closed ==> r is Ok,
            r matches Ok(doc) ==> {
                &&& doc.module_id@ == self@.module_id
                &&& doc.timestamp == timestamp
                &&& doc.digest@ == attestation_digest(self@.pcrs, opt_bytes(user_data))
                &&& doc.pcrs@.map_values(|p: Vec<u8>| p@) == self@.pcrs
                &&& doc.locked_pcrs@ == locked_indices(self@.locks)
                &&& opt_bytes(doc.certificate) == self@.certificates[0]
                &&& doc.cabundle is None
                &&& opt_bytes(doc.user_data) == opt_bytes(user_data)
                &&& opt_bytes(doc.public_key) == opt_bytes(public_key)
                &&& opt_bytes(doc.nonce) == opt_bytes(nonce)
            },
    {
        if self.closed {
            return Err(NsmError::SessionClosed);
        }
        let input = self.measured_bytes(&user_data);
        let hash = sha256(input.as_slice());
        let digest = copy_bytes(hash.as_slice());
        assert(hash@.take(PCR_DIGEST_LEN as int) =~= hash@);
        let mut pcrs: Vec<Vec<u8>> = Vec::new();
        let mut i: usize = 0;
        while i < self.pcrs.len()
            invariant
                self.wf(),
                i <= self@.pcrs.len(),
                pcrs@.len() == i,
                forall|k: int| 0 <= k < i ==> (#[trigger] pcrs@[k])@ == self@.pcrs[k],
            decreases self@.pcrs.len() - i,
        {
            pcrs.push(copy_bytes(self.pcrs[i].as_slice()));
            i = i + 1;
        }
        assert(pcrs@.map_values(|p: Vec<u8>| p@) =~= self@.pcrs);
        let certificate = copy_opt_bytes(&self.certificates[0]);
        Ok(AttestationDocument {
            module_id: self.module_id.clone(),
            timestamp,
            digest,
            pcrs,
            locked_pcrs: self.locked_list(),
            certificate,
            cabundle: None,
            user_data,
            public_key,
            nonce,
        })
    }
}


/// A module id: the hexadecimal text of fresh random bytes.
fn generate_module_id() -> (r: Result<String, NsmError>)
    ensures
        r matches Ok(id) ==> exists|b: Seq<u8>| b.len() == MODULE_ID_BYTES && id@ == hex_of(b),
        r matches Err(e) ==> e is RandomFailure,
{
    let bytes = random_bytes(MODULE_ID_BYTES)?;
    Ok(hex_encode(bytes.as_slice()))
}

impl NsmSession {
    /// Opens a session on `device_path`, or the default path when none is
    /// given. `device_present` is the caller's check that the path exists;
    /// without it the session is refused.
    pub fn new(device_path: Option<String>, device_present: bool) -> (r: Result<NsmSession, NsmError>)
        ensures
            !device_present ==> match r {
                Err(NsmError::DeviceMissing(p)) => p@ == resolved_path(device_path),
                _ => false,
            },
            r matches Ok(s) ==> {
                &&& s.wf()
                &&& exists|b: Seq<u8>| #![auto]
                    b.len() == MODULE_ID_BYTES && s@ == fresh_view(resolved_path(device_path), hex_of(b))
            },
            device_present && r is Err ==> r->Err_0 is RandomFailure,
    {
        let path: String = match device_path {
            Some(p) => p,
            None => default_device_path().to_owned(),
        };
        if !device_present {
            return Err(NsmError::DeviceMissing(path));
        }
        let module_id = generate_module_id()?;
        Ok(NsmSession::with_module_id(path, module_id))
    }
}


impl NsmSession {
    fn ensure_open(&self) -> (r: Result<(), NsmError>)
        ensures
            self@.closed ==> r == Err::<(), NsmError>(NsmError::SessionClosed),
            !self@.closed ==> r is Ok,
    {
        if self.closed {
            Err(NsmError::SessionClosed)
        } else {
            Ok(())
        }
    }

    fn validate_pcr_slot(slot: u32) -> (r: Result<usize, NsmError>)
        ensures
            slot < PCR_SLOTS ==> r == Ok::<usize, NsmError>(slot as usize),
            slot >= PCR_SLOTS ==> r == Err::<usize, NsmError>(NsmError::InvalidPcrSlot(slot, PCR_SLOTS)),
    {
        let index = slot as usize;
        if index < PCR_SLOTS {
            Ok(index)
        } else {
            Err(NsmError::InvalidPcrSlot(slot, PCR_SLOTS))
        }
    }

    fn validate_certificate_slot(slot: u32) -> (r: Result<usize, NsmError>)
        ensures
            slot < CERTIFICATE_SLOTS ==> r == Ok::<usize, NsmError>(slot as usize),
            slot >= CERTIFICATE_SLOTS ==> r == Err::<usize, NsmError>(
                NsmError::InvalidCertificateSlot(slot, CERTIFICATE_SLOTS),
            ),
    {
        if (slot as usize) < CERTIFICATE_SLOTS {
            Ok(slot as usize)
        } else {
            Err(NsmError::InvalidCertificateSlot(slot, CERTIFICATE_SLOTS))
        }
    }

    fn pcr_locked(&self, index: usize) -> (r: bool)
        requires
            self.wf(),
        ensures
            r == (index < PCR_SLOTS && self@.locks[index as int]),
    {
        index < self.pcr_locks.len() && self.pcr_locks[index]
    }

    /// The path the session was opened on.
    pub fn device_path(&self) -> (r: String)
        ensures
            r@ == self@.device_path,
    {
        self.device_path.clone()
    }

    /// Whether the session has been closed.
    pub fn is_closed(&self) -> (r: bool)
        ensures
            r == self@.closed,
    {
        self.closed
    }

    /// Closes the session for good; nothing else changes.
    pub fn close(&mut self)
        requires
            old(self).wf(),
        ensures
            final(self).wf(),
            final(self)@ == (SessionView { closed: true, ..old(self)@ }),
    {
        self.closed = true;
    }

    /// `length` bytes from the operating system's entropy source.
    pub fn get_random(&self, length: usize) -> (r: Result<Vec<u8>, NsmError>)
        ensures
            self@.closed ==> r == Err::<Vec<u8>, NsmError>(NsmError::SessionClosed),
            !self@.closed && length == 0 ==> r == Err::<Vec<u8>, NsmError>(
                NsmError::InvalidRandomLength(0),
            ),
            !self@.closed && length > 0 ==> match r {
                Ok(v) => v@.len() == length,
                Err(e) => e is RandomFailure,
            },
    {
        self.ensure_open()?;
        if length == 0 {
            return Err(NsmError::InvalidRandomLength(length));
        }
        random_bytes(length)
    }

    /// The digest held by register `slot`.
    pub fn describe_pcr(&self, slot: u32) -> (r: Result<Vec<u8>, NsmError>)
        requires
            self.wf(),
        ensures
            bytes_result(r) == describe_result(self@, slot),
    {
        self.ensure_open()?;
        let index = Self::validate_pcr_slot(slot)?;
        Ok(copy_bytes(self.pcrs[index].as_slice()))
    }

    /// Register `slot` with its index and lock state.
    pub fn describe_pcr_raw(&self, slot: u32) -> (r: Result<PcrDescription, NsmError>)
        requires
            self.wf(),
        ensures
            match (describe_result(self@, slot), r) {
                (Ok(d), Ok(p)) => p.index == slot && p.digest@ == d && p.locked == self@.locks[slot as int],
                (Err(e), Err(e2)) => e2 == e,
                _ => false,
            },
    {
        self.ensure_open()?;
        let index = Self::validate_pcr_slot(slot)?;
        Ok(PcrDescription {
            index: slot,
            digest: copy_bytes(self.pcrs[index].as_slice()),
            locked: self.pcr_locked(index),
        })
    }

    /// Replaces register `slot` by the hash of its value followed by `data`
    /// and returns the new value, unless the register is locked.
    pub fn extend_pcr(&mut self, slot: u32, data: &[u8]) -> (r: Result<Vec<u8>, NsmError>)
        requires
            old(self).wf(),
        ensures
            final(self).wf(),
            bytes_result(r) == extend_result(old(self)@, slot, data@),
            final(self)@ == after_extend(old(self)@, slot, data@),
    {
        self.ensure_open()?;
        let index = Self::validate_pcr_slot(slot)?;
        if self.pcr_locked(index) {
            return Err(NsmError::PcrLocked(slot));
        }
        let ghost before = self@;
        let mut input = copy_bytes(self.pcrs[index].as_slice());
        input.extend_from_slice(data);
        assert(input@ =~= before.pcrs[index as int] + data@);
        let hash = sha256(input.as_slice());
        let mut new_value: Vec<u8> = Vec::with_capacity(PCR_DIGEST_LEN);
        let mut i: usize = 0;
        while i < PCR_DIGEST_LEN
            invariant
                i <= PCR_DIGEST_LEN,
                hash@.len() == PCR_DIGEST_LEN,
                new_value@ == hash@.take(i as int),
            decreases PCR_DIGEST_LEN - i,
        {
            new_value.push(hash[i]);
            i = i + 1;
        }
        let result = copy_bytes(new_value.as_slice());
        self.pcrs.set(index, new_value);
        assert(self@.pcrs =~= before.pcrs.update(index as int, result@));
        Ok(result)
    }

    /// Locks register `slot` for good; locking it again is no error.
    pub fn lock_pcr(&mut self, slot: u32) -> (r: Result<bool, NsmError>)
        requires
            old(self).wf(),
        ensures
            final(self).wf(),
            r == lock_result(old(self)@, slot),
            final(self)@ == after_lock(old(self)@, slot),
    {
        self.ensure_open()?;
        let index = Self::validate_pcr_slot(slot)?;
        self.pcr_locks.set(index, true);
        Ok(true)
    }

    /// Locks every register below `min(lock_range, count)`.
    pub fn lock_pcrs(&mut self, lock_range: u32) -> (r: Result<bool, NsmError>)
        requires
            old(self).wf(),
        ensures
            final(self).wf(),
            r == lock_range_result(old(self)@, lock_range),
            final(self)@ == after_lock_range(old(self)@, lock_range),
    {
        self.ensure_open()?;
        let max_index: usize = if (lock_range as usize) < PCR_SLOTS {
            lock_range as usize
        } else {
            PCR_SLOTS
        };
        let ghost before = self@;
        let mut slot: usize = 0;
        while slot < max_index
            invariant
                before.wf(),
                max_index <= PCR_SLOTS,
                max_index == lock_range || max_index == PCR_SLOTS,
                max_index < PCR_SLOTS ==> max_index == lock_range,
                slot <= max_index,
                self@ == (SessionView { locks: self@.locks, ..before }),
                self@.locks.len() == PCR_SLOTS,
                forall|i: int| 0 <= i < PCR_SLOTS ==> #[trigger] self@.locks[i] == (before.locks[i] || i < slot),
            decreases max_index - slot,
        {
            self.pcr_locks.set(slot, true);
            slot = slot + 1;
        }
        assert(self@.locks =~= after_lock_range(before, lock_range).locks);
        Ok(true)
    }

    /// Stores `certificate` in slot `slot`, replacing what was there.
    pub fn set_certificate(&mut self, slot: u32, certificate: &[u8]) -> (r: Result<(), NsmError>)
        requires
            old(self).wf(),
        ensures
            final(self).wf(),
            r == set_certificate_result(old(self)@, slot),
            final(self)@ == after_set_certificate(old(self)@, slot, certificate@),
    {
        self.ensure_open()?;
        let index = Self::validate_certificate_slot(slot)?;
        let ghost before = self@;
        self.certificates.set(index, Some(copy_bytes(certificate)));
        assert(self@.certificates =~= before.certificates.update(index as int, Some(certificate@)));
        Ok(())
    }

    /// The certificate stored in slot `slot`.
    pub fn describe_certificate(&self, slot: u32) -> (r: Result<Vec<u8>, NsmError>)
        requires
            self.wf(),
        ensures
            bytes_result(r) == describe_certificate_result(self@, slot),
    {
        self.ensure_open()?;
        let index = Self::validate_certificate_slot(slot)?;
        match &self.certificates[index] {
            Some(value) => Ok(copy_bytes(value.as_slice())),
            None => Err(NsmError::CertificateNotFound(slot)),
        }
    }

    /// Empties slot `slot`, which must hold a certificate.
    pub fn remove_certificate(&mut self, slot: u32) -> (r: Result<(), NsmError>)
        requires
            old(self).wf(),
        ensures
            final(self).wf(),
            r == remove_certificate_result(old(self)@, slot),
            final(self)@ == after_remove_certificate(old(self)@, slot),
    {
        self.ensure_open()?;
        let index = Self::validate_certificate_slot(slot)?;
        if self.certificates[index].is_none() {
            return Err(NsmError::CertificateNotFound(slot));
        }
        let ghost before = self@;
        self.certificates.set(index, None);
        assert(self@.certificates =~= before.certificates.update(index as int, None));
        Ok(())
    }

    /// How many certificate slots hold a certificate.
    fn certificate_count(&self) -> (r: u32)
        requires
            self.wf(),
        ensures
            r == populated_count(self@.certificates),
    {
        let mut count: u32 = 0;
        let mut i: usize = 0;
        while i < self.certificates.len()
            invariant
                self.wf(),
                i <= CERTIFICATE_SLOTS,
                count == populated_count(self@.certificates.take(i as int)),
                count <= i,
            decreases CERTIFICATE_SLOTS - i,
        {
            assert(self@.certificates.take(i as int + 1).drop_last() =~= self@.certificates.take(i as int));
            if self.certificates[i].is_some() {
                count = count + 1;
            }
            i = i + 1;
        }
        assert(self@.certificates.take(i as int) =~= self@.certificates);
        count
    }

    /// The module id, the fixed counts, the locked registers and the number
    /// of stored certificates.
    pub fn describe_nsm(&self) -> (r: Result<ModuleDescription, NsmError>)
        requires
            self.wf(),
        ensures
            self@.closed ==> r == Err::<ModuleDescription, NsmError>(NsmError::SessionClosed),
            !self@.closed ==> match r {
                Ok(d) => {
                    &&& d.module_id@ == self@.module_id
                    &&& d.pcr_slots == PCR_SLOTS
                    &&& d.certificate_slots == CERTIFICATE_SLOTS
                    &&& d.locked_pcrs@ == locked_indices(self@.locks)
                    &&& d.certificates == populated_count(self@.certificates)
                },
                Err(_) => false,
            },
    {
        self.ensure_open()?;
        Ok(ModuleDescription {
            module_id: self.module_id.clone(),
            pcr_slots: PCR_SLOTS as u32,
            certificate_slots: CERTIFICATE_SLOTS as u32,
            locked_pcrs: self.locked_list(),
            certificates: self.certificate_count(),
        })
    }
}

} // verus!
