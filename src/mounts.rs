//! The ordered plan that turns a fresh mount namespace into the sandbox's
//! view: scratch space, a read-only snapshot of the target, the overlay on
//! top of it, the sealing of the backing store, and the return of the
//! invoker's ids.
use vstd::prelude::*;
use crate::identity::{ControlFile, MapWrite, inner_map_writes, id_map_line};
use crate::session::{SessionConfig, join, join_path};
use crate::text::{push_bytes, copy_bytes};

verus! {

/// The mount flags that the plan uses.
#[derive(Clone, Copy, Debug, PartialEq, Eq, Structural)]
pub struct MountFlags {
    pub bind: bool,
    pub remount: bool,
    pub read_only: bool,
}

/// No flag set.
pub open spec fn no_flags() -> MountFlags {
    MountFlags { bind: false, remount: false, read_only: false }
}

/// A bind mount.
pub open spec fn bind_flags() -> MountFlags {
    MountFlags { bind: true, remount: false, read_only: false }
}

/// A bind mount made read-only in place.
pub open spec fn read_only_remount_flags() -> MountFlags {
    MountFlags { bind: true, remount: true, read_only: true }
}

/// One mount call: source, mount point, filesystem type, flags and options.
#[derive(Clone, Debug)]
pub struct MountOp {
    pub source: Option<Vec<u8>>,
    pub target: Vec<u8>,
    pub fstype: Option<Vec<u8>>,
    pub flags: MountFlags,
    pub data: Option<Vec<u8>>,
}

/// A mount call, its byte strings as sequences.
pub ghost struct MountView {
    pub source: Option<Seq<u8>>,
    pub target: Seq<u8>,
    pub fstype: Option<Seq<u8>>,
    pub flags: MountFlags,
    pub data: Option<Seq<u8>>,
}

/// The view of an optional byte string.
pub open spec fn opt_view(o: Option<Vec<u8>>) -> Option<Seq<u8>> {
    match o {
        Some(v) => Some(v@),
        None => None,
    }
}

impl View for MountOp {
    type V = MountView;

    open spec fn view(&self) -> MountView {
        MountView {
            source: opt_view(self.source),
            target: self.target@,
            fstype: opt_view(self.fstype),
            flags: self.flags,
            data: opt_view(self.data),
        }
    }
}

/// One step of the sandbox's setup, run inside the child in plan order.
#[derive(Clone, Debug)]
pub enum SetupStep {
    Mount(MountOp),
    /// Create a directory and its missing parents.
    CreateDir(Vec<u8>),
    /// Change to the current directory again, so that it resolves through
    /// the mounts made since.
    ReenterCwd,
    /// Enter a new, nested user namespace.
    UnshareUser,
    /// Write one of the process's own identity control files.
    WriteOwnControl(MapWrite),
}

/// A setup step, its byte strings as sequences.
pub ghost enum StepView {
    Mount(MountView),
    CreateDir(Seq<u8>),
    ReenterCwd,
    UnshareUser,
    WriteOwnControl(ControlFile, Seq<u8>),
}

impl View for SetupStep {
    type V = StepView;

    open spec fn view(&self) -> StepView {
        match self {
            SetupStep::Mount(m) => StepView::Mount(m@),
            SetupStep::CreateDir(p) => StepView::CreateDir(p@),
            SetupStep::ReenterCwd => StepView::ReenterCwd,
            SetupStep::UnshareUser => StepView::UnshareUser,
            SetupStep::WriteOwnControl(w) => StepView::WriteOwnControl(w.file, w.payload@),
        }
    }
}

/// The views of a list of steps.
pub open spec fn steps_view(s: Seq<SetupStep>) -> Seq<StepView> {
    s.map_values(|x: SetupStep| x@)
}

/// `"lowerdir=<lower>,upperdir=<upper>,workdir=<work>"`.
pub open spec fn overlay_text(lower: Seq<u8>, upper: Seq<u8>, work: Seq<u8>) -> Seq<u8> {
    seq![108u8, 111u8, 119u8, 101u8, 114u8, 100u8, 105u8, 114u8, 61u8] + lower + seq![
        44u8,
        117u8,
        112u8,
        112u8,
        101u8,
        114u8,
        100u8,
        105u8,
        114u8,
        61u8,
    ] + upper + seq![44u8, 119u8, 111u8, 114u8, 107u8, 100u8, 105u8, 114u8, 61u8] + work
}

/// `"tmpfs"`.
pub open spec fn tmpfs() -> Seq<u8> {
    seq![116u8, 109u8, 112u8, 102u8, 115u8]
}

/// `"overlay"`.
pub open spec fn overlay() -> Seq<u8> {
    seq![111u8, 118u8, 101u8, 114u8, 108u8, 97u8, 121u8]
}

/// `"oldroot"`.
pub open spec fn oldroot_leaf() -> Seq<u8> {
    seq![111u8, 108u8, 100u8, 114u8, 111u8, 111u8, 116u8]
}

/// `"/var/empty"`, an empty directory that nobody can write.
pub open spec fn sealing_source() -> Seq<u8> {
    seq![47u8, 118u8, 97u8, 114u8, 47u8, 101u8, 109u8, 112u8, 116u8, 121u8]
}

/// Where the read-only snapshot of the target is mounted.
pub open spec fn oldroot_dir(c: SessionConfig) -> Seq<u8> {
    join(c.runtime@, oldroot_leaf())
}

/// The setup of a session, step by step.
pub open spec fn setup_plan(c: SessionConfig) -> Seq<StepView> {
    let oldroot = oldroot_dir(c);
    seq![
        StepView::Mount(
            MountView {
                source: Some(tmpfs()),
                target: c.runtime@,
                fstype: Some(tmpfs()),
                flags: no_flags(),
                data: None,
            },
        ),
        StepView::CreateDir(oldroot),
        StepView::Mount(
            MountView {
                source: Some(c.target@),
                target: oldroot,
                fstype: None,
                flags: bind_flags(),
                data: None,
            },
        ),
        StepView::Mount(
            MountView {
                source: None,
                target: oldroot,
                fstype: None,
                flags: read_only_remount_flags(),
                data: None,
            },
        ),
        StepView::CreateDir(c.layer@),
        StepView::CreateDir(c.work@),
        StepView::Mount(
            MountView {
                source: Some(overlay()),
                target: c.target@,
                fstype: Some(overlay()),
                flags: no_flags(),
                data: Some(overlay_text(oldroot, c.layer@, c.work@)),
            },
        ),
        StepView::ReenterCwd,
        StepView::Mount(
            MountView {
                source: Some(sealing_source()),
                target: c.runtime@,
                fstype: None,
                flags: bind_flags(),
                data: None,
            },
        ),
        StepView::Mount(
            MountView {
                source: Some(sealing_source()),
                target: c.cache@,
                fstype: None,
                flags: bind_flags(),
                data: None,
            },
        ),
        StepView::UnshareUser,
        StepView::WriteOwnControl(ControlFile::UidMap, id_map_line(c.uid as nat, 0)),
        StepView::WriteOwnControl(ControlFile::GidMap, id_map_line(c.gid as nat, 0)),
    ]
}

/// The overlay options for the read-only `lower` tree, the writable `upper`
/// layer and the overlay's `work` directory. Paths are taken as bytes, so
/// any path the system accepts can stand in them.
pub fn overlay_options(lower: &[u8], upper: &[u8], work: &[u8]) -> (r: Vec<u8>)
    ensures
        r@ == overlay_text(lower@, upper@, work@),
{
    let mut r: Vec<u8> = Vec::new();
    push_bytes(&mut r, &[108u8, 111u8, 119u8, 101u8, 114u8, 100u8, 105u8, 114u8, 61u8]);
    push_bytes(&mut r, lower);
    push_bytes(&mut r, &[44u8, 117u8, 112u8, 112u8, 101u8, 114u8, 100u8, 105u8, 114u8, 61u8]);
    push_bytes(&mut r, upper);
    push_bytes(&mut r, &[44u8, 119u8, 111u8, 114u8, 107u8, 100u8, 105u8, 114u8, 61u8]);
    push_bytes(&mut r, work);
    r
}

fn mount_op(
    source: Option<Vec<u8>>,
    target: Vec<u8>,
    fstype: Option<Vec<u8>>,
    flags: MountFlags,
    data: Option<Vec<u8>>,
) -> (r: SetupStep)
    ensures
        r@ == StepView::Mount(
            MountView {
                source: opt_view(source),
                target: target@,
                fstype: opt_view(fstype),
                flags,
                data: opt_view(data),
            },
        ),
{
    SetupStep::Mount(MountOp { source, target, fstype, flags, data })
}

/// The steps that build the sandbox of `config`, in the order in which they
/// must run: each may rely on the ones before it (the overlay's lower tree
/// is the snapshot mounted earlier).
pub fn setup_steps(config: &SessionConfig) -> (r: Vec<SetupStep>)
    ensures
        steps_view(r@) == setup_plan(*config),
{
    let tmpfs: [u8; 5] = [116u8, 109u8, 112u8, 102u8, 115u8];
    let overlay: [u8; 7] = [111u8, 118u8, 101u8, 114u8, 108u8, 97u8, 121u8];
    let sealing: [u8; 10] = [47u8, 118u8, 97u8, 114u8, 47u8, 101u8, 109u8, 112u8, 116u8, 121u8];
    let oldroot = join_path(
        config.runtime.as_slice(),
        &[111u8, 108u8, 100u8, 114u8, 111u8, 111u8, 116u8],
    );
    let no = MountFlags { bind: false, remount: false, read_only: false };
    let bind = MountFlags { bind: true, remount: false, read_only: false };
    let ro = MountFlags { bind: true, remount: true, read_only: true };
    let mut r: Vec<SetupStep> = Vec::new();
    r.push(
        mount_op(
            Some(copy_bytes(&tmpfs)),
            copy_bytes(config.runtime.as_slice()),
            Some(copy_bytes(&tmpfs)),
            no,
            None,
        ),
    );
    r.push(SetupStep::CreateDir(copy_bytes(oldroot.as_slice())));
    r.push(
        mount_op(
            Some(copy_bytes(config.target.as_slice())),
            copy_bytes(oldroot.as_slice()),
            None,
            bind,
            None,
        ),
    );
    r.push(mount_op(None, copy_bytes(oldroot.as_slice()), None, ro, None));
    r.push(SetupStep::CreateDir(copy_bytes(config.layer.as_slice())));
    r.push(SetupStep::CreateDir(copy_bytes(config.work.as_slice())));
    let options = overlay_options(
        oldroot.as_slice(),
        config.layer.as_slice(),
        config.work.as_slice(),
    );
    r.push(
        mount_op(
            Some(copy_bytes(&overlay)),
            copy_bytes(config.target.as_slice()),
            Some(copy_bytes(&overlay)),
            no,
            Some(options),
        ),
    );
    r.push(SetupStep::ReenterCwd);
    r.push(
        mount_op(
            Some(copy_bytes(&sealing)),
            copy_bytes(config.runtime.as_slice()),
            None,
            bind,
            None,
        ),
    );
    r.push(
        mount_op(
            Some(copy_bytes(&sealing)),
            copy_bytes(config.cache.as_slice()),
            None,
            bind,
            None,
        ),
    );
    r.push(SetupStep::UnshareUser);
    let mut inner = inner_map_writes(config.uid, config.gid);
    let gid_write = inner.pop().unwrap();
    let uid_write = inner.pop().unwrap();
    r.push(SetupStep::WriteOwnControl(uid_write));
    r.push(SetupStep::WriteOwnControl(gid_write));
    assert(steps_view(r@) =~= setup_plan(*config));
    r
}

} // verus!
