use hover_rs::mounts::{overlay_options, setup_steps, MountFlags, SetupStep};
use hover_rs::identity::ControlFile;
use hover_rs::session::SessionConfig;

#[test]
fn overlay_options_exact() {
    let o = overlay_options(b"/r/oldroot", b"/c/layer-x", b"/c/.work-x");
    assert_eq!(
        o,
        b"lowerdir=/r/oldroot,upperdir=/c/layer-x,workdir=/c/.work-x".to_vec()
    );
}

#[test]
fn overlay_options_keep_non_utf8_bytes() {
    let o = overlay_options(&[b'/', 0xff], b"/u", b"/w");
    let mut expected = b"lowerdir=/".to_vec();
    expected.push(0xff);
    expected.extend_from_slice(b",upperdir=/u,workdir=/w");
    assert_eq!(o, expected);
}

fn sample_config() -> SessionConfig {
    SessionConfig {
        target: b"/home/u".to_vec(),
        runtime: b"/run/user/1000/hover".to_vec(),
        cache: b"/home/u/.cache/hover".to_vec(),
        allocation: b"2024-01-02-0304-abcdefg".to_vec(),
        layer: b"/home/u/.cache/hover/layer-2024-01-02-0304-abcdefg".to_vec(),
        work: b"/home/u/.cache/hover/.work-2024-01-02-0304-abcdefg".to_vec(),
        uid: 1000,
        gid: 1001,
    }
}

fn mount_of(s: &SetupStep) -> &hover_rs::mounts::MountOp {
    match s {
        SetupStep::Mount(m) => m,
        _ => panic!("expected a mount step"),
    }
}

#[test]
fn setup_steps_in_order() {
    let c = sample_config();
    let steps = setup_steps(&c);
    assert_eq!(steps.len(), 13);
    let none = MountFlags { bind: false, remount: false, read_only: false };
    let bind = MountFlags { bind: true, remount: false, read_only: false };

    let m0 = mount_of(&steps[0]);
    assert_eq!(m0.source, Some(b"tmpfs".to_vec()));
    assert_eq!(m0.target, c.runtime);
    assert_eq!(m0.fstype, Some(b"tmpfs".to_vec()));
    assert_eq!(m0.flags, none);
    assert_eq!(m0.data, None);

    let oldroot = b"/run/user/1000/hover/oldroot".to_vec();
    assert!(matches!(&steps[1], SetupStep::CreateDir(p) if *p == oldroot));
    let m2 = mount_of(&steps[2]);
    assert_eq!(m2.source, Some(c.target.clone()));
    assert_eq!(m2.target, oldroot);
    assert_eq!(m2.flags, bind);
    let m3 = mount_of(&steps[3]);
    assert_eq!(m3.source, None);
    assert_eq!(m3.target, oldroot);
    assert_eq!(m3.flags, MountFlags { bind: true, remount: true, read_only: true });

    assert!(matches!(&steps[4], SetupStep::CreateDir(p) if *p == c.layer));
    assert!(matches!(&steps[5], SetupStep::CreateDir(p) if *p == c.work));

    let m6 = mount_of(&steps[6]);
    assert_eq!(m6.source, Some(b"overlay".to_vec()));
    assert_eq!(m6.target, c.target);
    assert_eq!(m6.fstype, Some(b"overlay".to_vec()));
    assert_eq!(
        m6.data,
        Some(
            b"lowerdir=/run/user/1000/hover/oldroot,upperdir=/home/u/.cache/hover/layer-2024-01-02-0304-abcdefg,workdir=/home/u/.cache/hover/.work-2024-01-02-0304-abcdefg"
                .to_vec()
        )
    );

    assert!(matches!(&steps[7], SetupStep::ReenterCwd));
    let m8 = mount_of(&steps[8]);
    assert_eq!(m8.source, Some(b"/var/empty".to_vec()));
    assert_eq!(m8.target, c.runtime);
    assert_eq!(m8.flags, bind);
    let m9 = mount_of(&steps[9]);
    assert_eq!(m9.source, Some(b"/var/empty".to_vec()));
    assert_eq!(m9.target, c.cache);
    assert!(matches!(&steps[10], SetupStep::UnshareUser));
    match &steps[11] {
        SetupStep::WriteOwnControl(w) => {
            assert_eq!(w.file, ControlFile::UidMap);
            assert_eq!(w.payload, b"1000 0 1".to_vec());
        }
        _ => panic!("expected the uid map write"),
    }
    match &steps[12] {
        SetupStep::WriteOwnControl(w) => {
            assert_eq!(w.file, ControlFile::GidMap);
            assert_eq!(w.payload, b"1001 0 1".to_vec());
        }
        _ => panic!("expected the gid map write"),
    }
}
