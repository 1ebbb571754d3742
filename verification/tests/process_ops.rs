use tantraos::pal::ErrorKind;
use tantraos::process::{getpid, id, ChildStdio, Command, ExitCode, ExitStatus, Stdio};

#[test]
fn command_builder_keeps_nothing_and_spawn_fails() {
    let mut c = Command::new("/bin/echo");
    c.arg("hello").args(&["a", "b"]).env("K", "V").env_clear().cwd("/");
    c.stdin(Stdio::null()).stdout(Stdio::inherit()).stderr(Stdio::piped());
    let r = c.spawn(Stdio::inherit(), true);
    let e = r.err().unwrap();
    assert_eq!(e.kind, ErrorKind::Unsupported);
    assert_eq!(e.message, "TantraOS doesn't support traditional process spawning");
}

#[test]
fn child_stdio_is_inherited() {
    for s in [Stdio::null(), Stdio::inherit(), Stdio::piped()] {
        assert!(matches!(s.to_child_stdio(true), Ok(ChildStdio::Inherit)));
        assert!(matches!(s.to_child_stdio(false), Ok(ChildStdio::Inherit)));
    }
}

#[test]
fn exit_status_codes() {
    let ok = ExitStatus::default();
    assert!(ok.success());
    assert_eq!(ok.code(), Some(0));
    let bad = ExitStatus::from(3);
    assert!(!bad.success());
    assert_eq!(bad.code(), Some(3));
    assert_eq!(bad.exit_code(), Some(3));
    assert!(!ExitStatus::from(-1).success());
}

#[test]
fn exit_code_conversions() {
    assert_eq!(ExitCode::success_code().as_i32(), 0);
    assert_eq!(ExitCode::from_raw(0), ExitCode::success_code());
    assert_eq!(ExitCode::from_raw(1), ExitCode::failure_code());
    assert_ne!(ExitCode::from_raw(1), ExitCode::success_code());
    assert_eq!(ExitStatus::from(0), ExitStatus::default());
    assert_eq!(ExitCode::failure_code().as_i32(), 1);
    assert_eq!(ExitCode::from_raw(-9).as_i32(), -9);
    assert_eq!(i32::from(ExitCode::from(200u8)), 200);
    assert_eq!(ExitCode::from(255u8).as_i32(), 255);
}

#[test]
fn process_identifiers() {
    assert_eq!(getpid(), 1);
    assert_eq!(id(), getpid());
}
