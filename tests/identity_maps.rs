use hover_rs::identity::{
    control_file_path, deny_setgroups, inner_map_writes, map_line, next_mapping, outer_map_writes,
    ControlFile, IdentityPhase, ProcTarget,
};

#[test]
fn outer_maps_are_byte_exact() {
    let w = outer_map_writes(1000, 100);
    assert_eq!(w.len(), 3);
    assert_eq!(w[0].file, ControlFile::UidMap);
    assert_eq!(w[0].payload, b"0 1000 1".to_vec());
    assert_eq!(w[1].file, ControlFile::SetGroups);
    assert_eq!(w[1].payload, b"deny".to_vec());
    assert_eq!(w[2].file, ControlFile::GidMap);
    assert_eq!(w[2].payload, b"0 100 1".to_vec());
}

#[test]
fn inner_maps_invert_outer() {
    let w = inner_map_writes(1000, 100);
    assert_eq!(w.len(), 2);
    assert_eq!(w[0].file, ControlFile::UidMap);
    assert_eq!(w[0].payload, b"1000 0 1".to_vec());
    assert_eq!(w[1].file, ControlFile::GidMap);
    assert_eq!(w[1].payload, b"100 0 1".to_vec());
}

#[test]
fn map_line_extremes() {
    assert_eq!(map_line(0, 0), b"0 0 1".to_vec());
    assert_eq!(map_line(0, u32::MAX), b"0 4294967295 1".to_vec());
    assert_eq!(map_line(10, 9), b"10 9 1".to_vec());
    assert_eq!(deny_setgroups(), b"deny".to_vec());
}

#[test]
fn control_paths() {
    assert_eq!(
        control_file_path(ProcTarget::Process(4242), ControlFile::UidMap),
        b"/proc/4242/uid_map".to_vec()
    );
    assert_eq!(
        control_file_path(ProcTarget::Process(7), ControlFile::SetGroups),
        b"/proc/7/setgroups".to_vec()
    );
    assert_eq!(
        control_file_path(ProcTarget::Current, ControlFile::GidMap),
        b"/proc/self/gid_map".to_vec()
    );
}

#[test]
fn mapping_phases_in_order() {
    let first = next_mapping(IdentityPhase::Unmapped, 1000, 100, 55).unwrap();
    assert_eq!(first.next, IdentityPhase::OuterMapped);
    assert_eq!(first.target, ProcTarget::Process(55));
    assert_eq!(first.writes.len(), 3);
    assert_eq!(first.writes[0].payload, b"0 1000 1".to_vec());
    let second = next_mapping(first.next, 1000, 100, 55).unwrap();
    assert_eq!(second.next, IdentityPhase::InnerRestored);
    assert_eq!(second.target, ProcTarget::Current);
    assert_eq!(second.writes[1].payload, b"100 0 1".to_vec());
    assert!(next_mapping(second.next, 1000, 100, 55).is_none());
}
