use tantraos::os;
use tantraos::pal::{cleanup, decode_error_kind, fill_bytes, is_interrupted, unsupported, unsupported_err, ErrorKind};

#[test]
fn decode_error_kind_maps_posix_codes() {
    assert_eq!(decode_error_kind(1), ErrorKind::PermissionDenied);
    assert_eq!(decode_error_kind(2), ErrorKind::NotFound);
    assert_eq!(decode_error_kind(4), ErrorKind::Interrupted);
    assert_eq!(decode_error_kind(5), ErrorKind::Other);
    assert_eq!(decode_error_kind(7), ErrorKind::InvalidInput);
    assert_eq!(decode_error_kind(11), ErrorKind::WouldBlock);
    assert_eq!(decode_error_kind(12), ErrorKind::OutOfMemory);
    assert_eq!(decode_error_kind(13), ErrorKind::PermissionDenied);
    assert_eq!(decode_error_kind(16), ErrorKind::ResourceBusy);
    assert_eq!(decode_error_kind(17), ErrorKind::AlreadyExists);
    assert_eq!(decode_error_kind(21), ErrorKind::IsADirectory);
    assert_eq!(decode_error_kind(26), ErrorKind::FileTooLarge);
    assert_eq!(decode_error_kind(27), ErrorKind::FileTooLarge);
    assert_eq!(decode_error_kind(28), ErrorKind::StorageFull);
    assert_eq!(decode_error_kind(30), ErrorKind::ReadOnlyFilesystem);
    assert_eq!(decode_error_kind(32), ErrorKind::BrokenPipe);
}

#[test]
fn decode_error_kind_unknown_codes() {
    assert_eq!(decode_error_kind(0), ErrorKind::Uncategorized);
    assert_eq!(decode_error_kind(15), ErrorKind::Uncategorized);
    assert_eq!(decode_error_kind(33), ErrorKind::Uncategorized);
    assert_eq!(decode_error_kind(-4), ErrorKind::Uncategorized);
    assert_eq!(decode_error_kind(i32::MAX), ErrorKind::Uncategorized);
}

#[test]
fn interrupted_agrees_with_decoding() {
    for code in -5..40 {
        assert_eq!(is_interrupted(code), decode_error_kind(code) == ErrorKind::Interrupted);
    }
    assert!(is_interrupted(4));
    assert!(!is_interrupted(5));
}

#[test]
fn unsupported_errors() {
    let e = unsupported_err();
    assert_eq!(e.kind, ErrorKind::Unsupported);
    assert_eq!(e.message, "operation not supported on TantraOS");
    let r: Result<u32, _> = unsupported::<u32>();
    assert_eq!(r.err().unwrap().kind, ErrorKind::Unsupported);
    cleanup();
}

#[test]
fn fill_bytes_pattern() {
    let mut b = vec![0xAAu8; 300];
    fill_bytes(&mut b);
    assert_eq!(b[0], 0);
    assert_eq!(b[1], 1);
    assert_eq!(b[255], 255);
    assert_eq!(b[256], 0);
    assert_eq!(b[299], 43);
    let mut empty: Vec<u8> = Vec::new();
    fill_bytes(&mut empty);
    assert!(empty.is_empty());
}

#[test]
fn error_string_renders_decimal() {
    assert_eq!(os::error_string(0), "TantraOS error 0");
    assert_eq!(os::error_string(42), "TantraOS error 42");
    assert_eq!(os::error_string(-7), "TantraOS error -7");
    assert_eq!(os::error_string(i32::MIN), "TantraOS error -2147483648");
    assert_eq!(os::error_string(i32::MAX), "TantraOS error 2147483647");
    assert_ne!(os::error_string(12), os::error_string(-12));
    assert_ne!(os::error_string(1), os::error_string(10));
}

#[test]
fn os_paths_and_environment() {
    assert_eq!(os::errno(), 0);
    assert_eq!(os::getcwd().ok().unwrap(), "/");
    assert_eq!(os::chdir("/tmp").err().unwrap().kind, ErrorKind::Unsupported);
    assert!(os::getenv("PATH").is_none());
    assert_eq!(os::setenv("A", "B").err().unwrap().kind, ErrorKind::Unsupported);
    assert_eq!(os::unsetenv("A").err().unwrap().kind, ErrorKind::Unsupported);
    assert_eq!(os::current_exe().ok().unwrap(), "/tasklet.tnf");
    assert_eq!(os::home_dir(), Some(String::from("/home")));
    assert_eq!(os::temp_dir(), "/tmp");
    assert_eq!(os::getpid(), 1);
    let mut e = os::env();
    assert!(e.next().is_none());
    let mut e2 = os::Env::new();
    assert!(e2.next().is_none());
}

#[test]
fn path_lists() {
    let mut sp = os::split_paths("/bin:/usr/bin");
    assert!(sp.next().is_none());
    let joined = os::join_paths(&["/bin", "/usr/bin"]);
    let err = joined.err().unwrap();
    assert_eq!(err.description(), "path separator found in input");
    assert_eq!(err.message(), "JoinPathsError");
    assert!(os::join_paths(&[]).is_err());
}
