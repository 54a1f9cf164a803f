use hover_rs::command::{inherit_parent, plan_command, split_fields, CommandError, CommandSource};

#[test]
fn explicit_argv_is_taken_verbatim() {
    let r = plan_command(vec![b"ls".to_vec(), b"-la".to_vec()], false).unwrap();
    match r {
        CommandSource::Explicit(c) => {
            assert_eq!(c.program, b"ls".to_vec());
            assert_eq!(c.args, vec![b"-la".to_vec()]);
        }
        CommandSource::InheritParent => panic!("expected an explicit command"),
    }
}

#[test]
fn empty_argv_without_terminal_is_refused() {
    let r = plan_command(Vec::new(), false);
    assert!(matches!(r, Err(CommandError::NoTerminal)));
}

#[test]
fn empty_argv_on_terminal_inherits_parent() {
    let r = plan_command(Vec::new(), true).unwrap();
    assert!(matches!(r, CommandSource::InheritParent));
    let c = inherit_parent(b"/usr/bin/bash".to_vec(), b"bash\0--login\0");
    assert_eq!(c.program, b"/usr/bin/bash".to_vec());
    assert_eq!(c.args, vec![b"--login".to_vec()]);
}

#[test]
fn parent_with_empty_buffer_gets_no_arguments() {
    let c = inherit_parent(b"/bin/zsh".to_vec(), b"");
    assert_eq!(c.program, b"/bin/zsh".to_vec());
    assert!(c.args.is_empty());
    let d = inherit_parent(b"/bin/zsh".to_vec(), b"zsh\0");
    assert!(d.args.is_empty());
}

#[test]
fn malformed_parent_buffer_gives_no_arguments() {
    let c = inherit_parent(b"/bin/sh".to_vec(), b"sh\0\0-c\0x y");
    assert!(c.args.is_empty());
    let d = inherit_parent(b"/bin/sh".to_vec(), b"sh\0\0-c\0x y\0");
    assert_eq!(d.args, vec![Vec::new(), b"-c".to_vec(), b"x y".to_vec()]);
    let e = inherit_parent(b"/bin/sh".to_vec(), b"a\0b");
    assert_eq!(e.program, b"/bin/sh".to_vec());
    assert!(e.args.is_empty());
}

#[test]
fn split_fields_on_nul() {
    assert_eq!(split_fields(b""), vec![Vec::<u8>::new()]);
    assert_eq!(split_fields(b"a"), vec![b"a".to_vec()]);
    assert_eq!(split_fields(b"\0"), vec![Vec::new(), Vec::new()]);
    assert_eq!(
        split_fields(b"ab\0\0c"),
        vec![b"ab".to_vec(), Vec::new(), b"c".to_vec()]
    );
    assert_eq!(split_fields(&[0xff, 0, 0x80]), vec![vec![0xff], vec![0x80]]);
}
