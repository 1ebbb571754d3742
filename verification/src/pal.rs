//! The platform layer's error model: error kinds, I/O errors, the mapping
//! of TantraOS error codes to kinds, and the byte pattern used for random
//! bytes.
use vstd::prelude::*;

verus! {

/// A raw TantraOS error code.
pub type RawOsError = i32;

/// The error code of an interrupted call (EINTR).
pub const EINTR: i32 = 4;

/// The category of an I/O error.
#[derive(Clone, Copy, Debug, PartialEq, Eq, Structural)]
pub enum ErrorKind {
    NotFound,
    PermissionDenied,
    AlreadyExists,
    WouldBlock,
    InvalidInput,
    IsADirectory,
    ReadOnlyFilesystem,
    StorageFull,
    FileTooLarge,
    ResourceBusy,
    BrokenPipe,
    Interrupted,
    Unsupported,
    OutOfMemory,
    Other,
    Uncategorized,
}

/// An I/O error: its kind and its message.
pub struct IoError {
    pub kind: ErrorKind,
    pub message: String,
}

/// The result of an I/O operation.
pub type IoResult<T> = Result<T, IoError>;

/// The kind that a TantraOS error code stands for (POSIX numbering).
pub open spec fn kind_of_code(code: i32) -> ErrorKind {
    if code == 1 || code == 13 {
        ErrorKind::PermissionDenied
    } else if code == 2 || code == 3 || code == 6 || code == 19 || code == 20 {
        ErrorKind::NotFound
    } else if code == 4 {
        ErrorKind::Interrupted
    } else if code == 5 || code == 10 || code == 23 || code == 24 || code == 25 || code == 31 {
        ErrorKind::Other
    } else if code == 7 || code == 8 || code == 9 || code == 14 || code == 18 || code == 22
        || code == 29 {
        ErrorKind::InvalidInput
    } else if code == 11 {
        ErrorKind::WouldBlock
    } else if code == 12 {
        ErrorKind::OutOfMemory
    } else if code == 16 {
        ErrorKind::ResourceBusy
    } else if code == 17 {
        ErrorKind::AlreadyExists
    } else if code == 21 {
        ErrorKind::IsADirectory
    } else if code == 26 || code == 27 {
        ErrorKind::FileTooLarge
    } else if code == 28 {
        ErrorKind::StorageFull
    } else if code == 30 {
        ErrorKind::ReadOnlyFilesystem
    } else if code == 32 {
        ErrorKind::BrokenPipe
    } else {
        ErrorKind::Uncategorized
    }
}

/// The message of the error for an operation that TantraOS does not support.
pub open spec fn unsupported_message() -> Seq<char> {
    "operation not supported on TantraOS"@
}

/// Fills `bytes` with the placeholder pattern `i % 256` (not random).
pub fn fill_bytes(bytes: &mut [u8])
    ensures
        final(bytes)@.len() == old(bytes)@.len(),
        forall|i: int| 0 <= i < final(bytes)@.len() ==> #[trigger] final(bytes)@[i] == i % 256,
{
    let n = bytes.len();
    let mut i: usize = 0;
    while i < n
        invariant
            i <= n,
            n == old(bytes)@.len(),
            bytes@.len() == n,
            forall|k: int| 0 <= k < i ==> #[trigger] bytes@[k] == k % 256,
        decreases n - i,
    {
        bytes[i] = (i % 256) as u8;
        i = i + 1;
    }
}

/// Initialises the platform layer once at start-up, given the program's
/// argument count, the address of its argument vector and its SIGPIPE
/// setting; TantraOS has nothing to set up yet.
pub fn init(argc: isize, argv: usize, sigpipe: u8) {
}

/// Cleans up the platform layer at exit; TantraOS has nothing to release yet.
pub fn cleanup() {
}

/// The error for an operation that TantraOS does not support.
pub fn unsupported_err() -> (e: IoError)
    ensures
        e.kind == ErrorKind::Unsupported,
        e.message@ == unsupported_message(),
{
    IoError { kind: ErrorKind::Unsupported, message: String::from_str("operation not supported on TantraOS") }
}

/// Fails with the error for an unsupported operation.
pub fn unsupported<T>() -> (r: IoResult<T>)
    ensures
        r matches Err(e) && e.kind == ErrorKind::Unsupported && e.message@ == unsupported_message(),
{
    Err(unsupported_err())
}

/// The kind that a TantraOS error code stands for.
pub fn decode_error_kind(code: RawOsError) -> (k: ErrorKind)
    ensures
        k == kind_of_code(code),
{
    match code {
        1 => ErrorKind::PermissionDenied,
        2 => ErrorKind::NotFound,
        3 => ErrorKind::NotFound,
        4 => ErrorKind::Interrupted,
        5 => ErrorKind::Other,
        6 => ErrorKind::NotFound,
        7 => ErrorKind::InvalidInput,
        8 => ErrorKind::InvalidInput,
        9 => ErrorKind::InvalidInput,
        10 => ErrorKind::Other,
        11 => ErrorKind::WouldBlock,
        12 => ErrorKind::OutOfMemory,
        13 => ErrorKind::PermissionDenied,
        14 => ErrorKind::InvalidInput,
        16 => ErrorKind::ResourceBusy,
        17 => ErrorKind::AlreadyExists,
        18 => ErrorKind::InvalidInput,
        19 => ErrorKind::NotFound,
        20 => ErrorKind::NotFound,
        21 => ErrorKind::IsADirectory,
        22 => ErrorKind::InvalidInput,
        23 => ErrorKind::Other,
        24 => ErrorKind::Other,
        25 => ErrorKind::Other,
        26 => ErrorKind::FileTooLarge,
        27 => ErrorKind::FileTooLarge,
        28 => ErrorKind::StorageFull,
        29 => ErrorKind::InvalidInput,
        30 => ErrorKind::ReadOnlyFilesystem,
        31 => ErrorKind::Other,
        32 => ErrorKind::BrokenPipe,
        _ => ErrorKind::Uncategorized,
    }
}

/// Whether a TantraOS error code reports an interrupted call.
pub fn is_interrupted(code: RawOsError) -> (r: bool)
    ensures
        r == (code == EINTR),
{
    code == EINTR
}

/// A code reports an interrupted call exactly when it decodes to
/// `Interrupted`.
pub proof fn lemma_interrupted_iff_kind(code: i32)
    ensures
        (code == EINTR) <==> (kind_of_code(code) == ErrorKind::Interrupted),
{
}

/// Only codes 1 to 32 have a kind of their own; every other code decodes to
/// `Uncategorized`, and so does 15.
pub proof fn lemma_unknown_codes_uncategorized(code: i32)
    ensures
        (code < 1 || code > 32 || code == 15) <==> (kind_of_code(code) == ErrorKind::Uncategorized),
{
}

/// Each kind is decoded from exactly the POSIX codes of its table entry:
/// EPERM and EACCES are `PermissionDenied`; ENOENT, ESRCH, ENXIO, ENODEV and
/// ENOTDIR are `NotFound`; EINTR is `Interrupted`; EIO, ECHILD, ENFILE,
/// EMFILE, ENOTTY and EMLINK are `Other`; E2BIG, ENOEXEC, EBADF, EFAULT,
/// EXDEV, EINVAL and ESPIPE are `InvalidInput`; EAGAIN is `WouldBlock`;
/// ENOMEM is `OutOfMemory`; EBUSY is `ResourceBusy`; EEXIST is
/// `AlreadyExists`; EISDIR is `IsADirectory`; ETXTBSY and EFBIG are
/// `FileTooLarge`; ENOSPC is `StorageFull`; EROFS is `ReadOnlyFilesystem`;
/// EPIPE is `BrokenPipe`; and no code decodes to `Unsupported`.
pub proof fn lemma_error_kind_table(code: i32)
    ensures
        (kind_of_code(code) == ErrorKind::PermissionDenied) <==> (code == 1 || code == 13),
        (kind_of_code(code) == ErrorKind::NotFound) <==> (code == 2 || code == 3 || code == 6 || code == 19
            || code == 20),
        (kind_of_code(code) == ErrorKind::Interrupted) <==> (code == 4),
        (kind_of_code(code) == ErrorKind::Other) <==> (code == 5 || code == 10 || code == 23 || code == 24
            || code == 25 || code == 31),
        (kind_of_code(code) == ErrorKind::InvalidInput) <==> (code == 7 || code == 8 || code == 9 || code
            == 14 || code == 18 || code == 22 || code == 29),
        (kind_of_code(code) == ErrorKind::WouldBlock) <==> (code == 11),
        (kind_of_code(code) == ErrorKind::OutOfMemory) <==> (code == 12),
        (kind_of_code(code) == ErrorKind::ResourceBusy) <==> (code == 16),
        (kind_of_code(code) == ErrorKind::AlreadyExists) <==> (code == 17),
        (kind_of_code(code) == ErrorKind::IsADirectory) <==> (code == 21),
        (kind_of_code(code) == ErrorKind::FileTooLarge) <==> (code == 26 || code == 27),
        (kind_of_code(code) == ErrorKind::StorageFull) <==> (code == 28),
        (kind_of_code(code) == ErrorKind::ReadOnlyFilesystem) <==> (code == 30),
        (kind_of_code(code) == ErrorKind::BrokenPipe) <==> (code == 32),
        kind_of_code(code) != ErrorKind::Unsupported,
{
}

} // verus!
