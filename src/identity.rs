//! Identity maps of the two user namespaces: what is written to which
//! process-control file, in which order.
use vstd::prelude::*;
use crate::text::{dec, push_decimal, push_bytes};

verus! {

/// A per-process identity control file.
#[derive(Clone, Copy, Debug, PartialEq, Eq, Structural)]
pub enum ControlFile {
    UidMap,
    SetGroups,
    GidMap,
}

/// The process whose control files are written: another one by its pid, or
/// the writer itself.
#[derive(Clone, Copy, Debug, PartialEq, Eq, Structural)]
pub enum ProcTarget {
    Process(u32),
    Current,
}

/// One write of `payload` into `file`.
#[derive(Clone, Debug)]
pub struct MapWrite {
    pub file: ControlFile,
    pub payload: Vec<u8>,
}

/// The ASCII bytes of a space.
pub open spec fn space() -> Seq<u8> {
    seq![32u8]
}

/// A one-entry identity map: `inside` in the namespace is `outside` in its
/// parent namespace. Text: `"<inside> <outside> 1"`.
pub open spec fn id_map_line(inside: nat, outside: nat) -> Seq<u8> {
    dec(inside) + space() + dec(outside) + seq![32u8, 49u8]
}

/// The payload that forbids supplementary-group changes: `"deny"`.
pub open spec fn deny_payload() -> Seq<u8> {
    seq![100u8, 101u8, 110u8, 121u8]
}

/// The file name of a control file under the process directory.
pub open spec fn control_file_name(file: ControlFile) -> Seq<u8> {
    match file {
        // "uid_map"
        ControlFile::UidMap => seq![117u8, 105u8, 100u8, 95u8, 109u8, 97u8, 112u8],
        // "setgroups"
        ControlFile::SetGroups => seq![115u8, 101u8, 116u8, 103u8, 114u8, 111u8, 117u8, 112u8, 115u8],
        // "gid_map"
        ControlFile::GidMap => seq![103u8, 105u8, 100u8, 95u8, 109u8, 97u8, 112u8],
    }
}

/// The directory component naming a process under `/proc`.
pub open spec fn proc_component(target: ProcTarget) -> Seq<u8> {
    match target {
        ProcTarget::Process(pid) => dec(pid as nat),
        // "self"
        ProcTarget::Current => seq![115u8, 101u8, 108u8, 102u8],
    }
}

/// `"/proc/<pid or self>/<file>"`.
pub open spec fn control_path(target: ProcTarget, file: ControlFile) -> Seq<u8> {
    // "/proc/"
    seq![47u8, 112u8, 114u8, 111u8, 99u8, 47u8] + proc_component(target) + seq![47u8]
        + control_file_name(file)
}

/// The writes that map namespace root onto the invoker: uid map, group-change
/// denial, gid map.
pub open spec fn outer_writes_hold(r: Seq<MapWrite>, uid: u32, gid: u32) -> bool {
    &&& r.len() == 3
    &&& r[0].file == ControlFile::UidMap
    &&& r[0].payload@ == id_map_line(0, uid as nat)
    &&& r[1].file == ControlFile::SetGroups
    &&& r[1].payload@ == deny_payload()
    &&& r[2].file == ControlFile::GidMap
    &&& r[2].payload@ == id_map_line(0, gid as nat)
}

/// The writes that map the invoker's ids back onto namespace root.
pub open spec fn inner_writes_hold(r: Seq<MapWrite>, uid: u32, gid: u32) -> bool {
    &&& r.len() == 2
    &&& r[0].file == ControlFile::UidMap
    &&& r[0].payload@ == id_map_line(uid as nat, 0)
    &&& r[1].file == ControlFile::GidMap
    &&& r[1].payload@ == id_map_line(gid as nat, 0)
}

/// The payload `"<inside> <outside> 1"`.
pub fn map_line(inside: u32, outside: u32) -> (r: Vec<u8>)
    ensures
        r@ == id_map_line(inside as nat, outside as nat),
{
    let mut r: Vec<u8> = Vec::new();
    push_decimal(&mut r, inside as u64);
    r.push(32u8);
    push_decimal(&mut r, outside as u64);
    r.push(32u8);
    r.push(49u8);
    assert(r@ =~= id_map_line(inside as nat, outside as nat));
    r
}

/// The payload `"deny"`.
pub fn deny_setgroups() -> (r: Vec<u8>)
    ensures
        r@ == deny_payload(),
{
    let r: Vec<u8> = vec![100u8, 101u8, 110u8, 121u8];
    assert(r@ =~= deny_payload());
    r
}

/// The path of `file` of `target` under `/proc`.
pub fn control_file_path(target: ProcTarget, file: ControlFile) -> (r: Vec<u8>)
    ensures
        r@ == control_path(target, file),
{
    let mut r: Vec<u8> = vec![47u8, 112u8, 114u8, 111u8, 99u8, 47u8];
    match target {
        ProcTarget::Process(pid) => push_decimal(&mut r, pid as u64),
        ProcTarget::Current => push_bytes(&mut r, &[115u8, 101u8, 108u8, 102u8]),
    }
    r.push(47u8);
    match file {
        ControlFile::UidMap => push_bytes(&mut r, &[117u8, 105u8, 100u8, 95u8, 109u8, 97u8, 112u8]),
        ControlFile::SetGroups => push_bytes(
            &mut r,
            &[115u8, 101u8, 116u8, 103u8, 114u8, 111u8, 117u8, 112u8, 115u8],
        ),
        ControlFile::GidMap => push_bytes(&mut r, &[103u8, 105u8, 100u8, 95u8, 109u8, 97u8, 112u8]),
    }
    proof {
        let pre: Seq<u8> = seq![47u8, 112u8, 114u8, 111u8, 99u8, 47u8];
        assert(r@ =~= pre + proc_component(target) + seq![47u8] + control_file_name(file));
    }
    r
}

/// The writes that make the invoker (`uid`, `gid`) root of a new user
/// namespace: `"0 <uid> 1"`, `"deny"`, `"0 <gid> 1"`, in that order.
pub fn outer_map_writes(uid: u32, gid: u32) -> (r: Vec<MapWrite>)
    ensures
        outer_writes_hold(r@, uid, gid),
{
    let mut r: Vec<MapWrite> = Vec::new();
    r.push(MapWrite { file: ControlFile::UidMap, payload: map_line(0, uid) });
    r.push(MapWrite { file: ControlFile::SetGroups, payload: deny_setgroups() });
    r.push(MapWrite { file: ControlFile::GidMap, payload: map_line(0, gid) });
    r
}

/// The writes, made from inside a nested user namespace, that give the
/// process back the invoker's ids: `"<uid> 0 1"`, then `"<gid> 0 1"`.
pub fn inner_map_writes(uid: u32, gid: u32) -> (r: Vec<MapWrite>)
    ensures
        inner_writes_hold(r@, uid, gid),
{
    let mut r: Vec<MapWrite> = Vec::new();
    r.push(MapWrite { file: ControlFile::UidMap, payload: map_line(uid, 0) });
    r.push(MapWrite { file: ControlFile::GidMap, payload: map_line(gid, 0) });
    r
}

/// Where the identity of a sandboxed process stands.
#[derive(Clone, Copy, Debug, PartialEq, Eq, Structural)]
pub enum IdentityPhase {
    /// A fresh user namespace with no maps written yet.
    Unmapped,
    /// Namespace root stands for the invoker.
    OuterMapped,
    /// A nested namespace gives the process back the invoker's own ids.
    InnerRestored,
}

/// One transition: the phase reached, whose control files are written, and
/// the writes, in order.
#[derive(Clone, Debug)]
pub struct MappingStep {
    pub next: IdentityPhase,
    pub target: ProcTarget,
    pub writes: Vec<MapWrite>,
}

/// The transition out of `phase` for the invoker (`uid`, `gid`): the parent
/// maps the child `child` from outside, then the child restores its ids from
/// within a nested namespace. The last phase has no successor.
pub fn next_mapping(phase: IdentityPhase, uid: u32, gid: u32, child: u32) -> (r: Option<MappingStep>)
    ensures
        phase == IdentityPhase::Unmapped ==> (r matches Some(s) && s.next
            == IdentityPhase::OuterMapped && s.target == ProcTarget::Process(child)
            && outer_writes_hold(s.writes@, uid, gid)),
        phase == IdentityPhase::OuterMapped ==> (r matches Some(s) && s.next
            == IdentityPhase::InnerRestored && s.target == ProcTarget::Current
            && inner_writes_hold(s.writes@, uid, gid)),
        phase == IdentityPhase::InnerRestored ==> r is None,
{
    match phase {
        IdentityPhase::Unmapped => Some(
            MappingStep {
                next: IdentityPhase::OuterMapped,
                target: ProcTarget::Process(child),
                writes: outer_map_writes(uid, gid),
            },
        ),
        IdentityPhase::OuterMapped => Some(
            MappingStep {
                next: IdentityPhase::InnerRestored,
                target: ProcTarget::Current,
                writes: inner_map_writes(uid, gid),
            },
        ),
        IdentityPhase::InnerRestored => None,
    }
}

} // verus!
