//! Presence and version checking of the two managed files, and the
//! reconciliation step that restores them from the embedded payload.
//!
//! The on-disk state that the watchdog cares about is modelled by
//! [`ManagedDisk`]: the byte contents of the managed executable and of the
//! configuration file, each of which may be absent.  The unverified driver
//! mirrors the real filesystem into this model before calling [`probe`] and
//! applies the [`WriteSet`] that [`reconcile`] reports back to the real disk.

use vstd::prelude::*;

verus! {

/// Presence and version status of the two managed files, derived fresh from
/// the disk on every probe and never mutated, only replaced.
#[derive(Clone, Copy, Debug, PartialEq, Eq, Structural)]
pub struct FileExist {
    /// The managed executable is present.
    pub exe_exist: bool,
    /// The managed executable matches the baseline fingerprint.
    pub exe_latest: bool,
    /// The configuration file is present.
    pub conf_exist: bool,
}

impl Default for FileExist {
    /// The pessimistic status: nothing present, nothing current.
    fn default() -> (r: Self)
        ensures
            r == (FileExist { exe_exist: false, exe_latest: false, conf_exist: false }),
    {
        FileExist { exe_exist: false, exe_latest: false, conf_exist: false }
    }
}

/// A status is healthy when both files are present and the executable is
/// current; only then does the watchdog have nothing to do.
pub open spec fn is_healthy(status: FileExist) -> bool {
    status.exe_exist && status.exe_latest && status.conf_exist
}

/// The fully healthy status.
pub open spec fn healthy_status() -> FileExist {
    FileExist { exe_exist: true, exe_latest: true, conf_exist: true }
}

/// Executable form of [`is_healthy`].
pub fn healthy(status: FileExist) -> (r: bool)
    ensures
        r == is_healthy(status),
{
    status.exe_exist && status.exe_latest && status.conf_exist
}

/// Both managed files are present on disk.  This — not staleness — is what
/// the monitor watches for: a stale executable is only re-extracted when a
/// loss brings the healer round anyway.
pub open spec fn files_present(status: FileExist) -> bool {
    status.exe_exist && status.conf_exist
}

/// Executable form of [`files_present`].
pub fn both_files_present(status: FileExist) -> (r: bool)
    ensures
        r == files_present(status),
{
    status.exe_exist && status.conf_exist
}

/// The embedded byte images of the two managed files together with the
/// baseline fingerprint (the byte length that identifies the current
/// executable version).  Injected at construction so the watchdog logic is
/// independent of how the images are embedded.
pub struct ResourcePayload {
    /// Byte image of the managed executable.
    pub exe_image: Vec<u8>,
    /// Byte image of the default configuration file.
    pub conf_image: Vec<u8>,
    /// Byte length identifying the current executable version.
    pub fingerprint: u64,
}

impl ResourcePayload {
    /// The payload's fingerprint really is the length of its own executable
    /// image, so writing the image always yields a current file.
    pub open spec fn wf(&self) -> bool {
        self.exe_image@.len() == self.fingerprint
    }

    pub fn new(exe_image: Vec<u8>, conf_image: Vec<u8>) -> (r: Self)
        requires
            exe_image@.len() <= u64::MAX,
        ensures
            r.wf(),
            r.exe_image@ == exe_image@,
            r.conf_image@ == conf_image@,
            r.fingerprint == exe_image@.len(),
    {
        let fingerprint = exe_image.len() as u64;
        ResourcePayload { exe_image, conf_image, fingerprint }
    }
}

/// The watchdog's model of the two managed files: each is either absent or
/// holds some byte contents.
pub struct ManagedDisk {
    /// Contents of the managed executable, when present.
    pub exe: Option<Vec<u8>>,
    /// Contents of the configuration file, when present.
    pub conf: Option<Vec<u8>>,
}

impl ManagedDisk {
    /// An empty disk: neither managed file present.
    pub fn new() -> (r: Self)
        ensures
            r.exe is None,
            r.conf is None,
    {
        ManagedDisk { exe: None, conf: None }
    }

    /// Removes the managed executable, as an external deletion would.
    pub fn delete_exe(&mut self)
        ensures
            final(self).exe is None,
            final(self).conf == old(self).conf,
    {
        self.exe = None;
    }

    /// Removes the configuration file, as an external deletion would.
    pub fn delete_conf(&mut self)
        ensures
            final(self).conf is None,
            final(self).exe == old(self).exe,
    {
        self.conf = None;
    }
}

/// What a probe of the given disk reports against the given payload.
pub open spec fn spec_probe(disk: &ManagedDisk, payload: &ResourcePayload) -> FileExist {
    FileExist {
        exe_exist: disk.exe is Some,
        exe_latest: disk.exe is Some && disk.exe->0@.len() == payload.fingerprint,
        conf_exist: disk.conf is Some,
    }
}

/// Checks which of the two managed files are present and whether the
/// executable's byte length matches the baseline fingerprint.  The status is
/// derived fresh from the disk; nothing is cached.
pub fn probe(disk: &ManagedDisk, payload: &ResourcePayload) -> (r: FileExist)
    ensures
        r == spec_probe(disk, payload),
{
    let exe_exist = disk.exe.is_some();
    let conf_exist = disk.conf.is_some();
    let exe_latest = match &disk.exe {
        Some(bytes) => bytes.len() as u64 == payload.fingerprint,
        None => false,
    };
    FileExist { exe_exist, exe_latest, conf_exist }
}

/// Which of the two managed files a reconciliation run writes.
#[derive(Clone, Copy, Debug, PartialEq, Eq, Structural)]
pub struct WriteSet {
    /// The executable image was written.
    pub wrote_exe: bool,
    /// The configuration image was written.
    pub wrote_conf: bool,
}

/// The writes that reconciliation performs for a given status: the executable
/// whenever it is missing or stale, the configuration whenever it is missing.
pub open spec fn spec_writes(status: FileExist) -> WriteSet {
    WriteSet {
        wrote_exe: !(status.exe_exist && status.exe_latest),
        wrote_conf: !status.conf_exist,
    }
}

/// How a disk after reconciliation relates to the disk before it: each file
/// is either freshly written from the payload or left untouched.
pub open spec fn reconciled(
    before: &ManagedDisk,
    after: &ManagedDisk,
    payload: &ResourcePayload,
    w: WriteSet,
) -> bool {
    &&& (if w.wrote_exe {
        after.exe is Some && after.exe->0@ == payload.exe_image@
    } else {
        after.exe == before.exe
    })
    &&& (if w.wrote_conf {
        after.conf is Some && after.conf->0@ == payload.conf_image@
    } else {
        after.conf == before.conf
    })
}

/// Restores whatever the given status reports as missing or stale by writing
/// the payload image over it, and reports exactly what was written.  A fully
/// healthy status makes this a no-op: the disk is left untouched and the
/// returned [`WriteSet`] is empty.
pub fn reconcile(disk: &mut ManagedDisk, payload: &ResourcePayload, status: FileExist) -> (w:
    WriteSet)
    ensures
        w == spec_writes(status),
        reconciled(old(disk), final(disk), payload, w),
        is_healthy(status) ==> *final(disk) == *old(disk),
{
    let mut w = WriteSet { wrote_exe: false, wrote_conf: false };
    if !(status.exe_exist && status.exe_latest) {
        disk.exe = Some(payload.exe_image.clone());
        w.wrote_exe = true;
    }
    if !status.conf_exist {
        disk.conf = Some(payload.conf_image.clone());
        w.wrote_conf = true;
    }
    w
}

/// One complete recovery attempt, as the healer performs it for one loss
/// signal: probe fresh, restore what the probe reports missing or stale,
/// re-probe, and report success exactly when the re-probe is fully healthy.
/// There is no retry inside: repeated losses produce repeated single
/// attempts, each independently terminal.
///
/// On this model the attempt always succeeds for a well-formed payload; on
/// the real disk the driver wraps its writes in a fault boundary and turns
/// any filesystem fault into a failure outcome instead.
pub fn heal(disk: &mut ManagedDisk, payload: &ResourcePayload) -> (outcome: bool)
    ensures
        reconciled(old(disk), final(disk), payload, spec_writes(spec_probe(old(disk), payload))),
        outcome == is_healthy(spec_probe(final(disk), payload)),
        payload.wf() ==> outcome,
{
    let status = probe(disk, payload);
    reconcile(disk, payload, status);
    let after = probe(disk, payload);
    proof {
        if payload.wf() {
            lemma_reconcile_restores(old(disk), disk, payload);
        }
    }
    healthy(after)
}

/// A probe reports exactly the presence combination that holds on disk, for
/// every one of the four combinations of the two files being present or
/// absent.
pub proof fn lemma_probe_reports_presence(disk: &ManagedDisk, payload: &ResourcePayload)
    ensures
        spec_probe(disk, payload).exe_exist == (disk.exe is Some),
        spec_probe(disk, payload).conf_exist == (disk.conf is Some),
        spec_probe(disk, payload).exe_latest ==> spec_probe(disk, payload).exe_exist,
{
}

/// Reconciliation on an already-healthy status performs zero writes.
pub proof fn lemma_reconcile_healthy_is_noop(status: FileExist)
    requires
        is_healthy(status),
    ensures
        spec_writes(status) == (WriteSet { wrote_exe: false, wrote_conf: false }),
{
}

/// Starting from any disk whatsoever, one reconciliation run driven by a
/// fresh probe leaves a disk whose next probe reports fully present and
/// current, provided the payload's fingerprint matches its own image.
pub proof fn lemma_reconcile_restores(
    before: &ManagedDisk,
    after: &ManagedDisk,
    payload: &ResourcePayload,
)
    requires
        payload.wf(),
        reconciled(before, after, payload, spec_writes(spec_probe(before, payload))),
    ensures
        spec_probe(after, payload) == healthy_status(),
{
}

} // verus!
