//! The operating-system interface: error numbers, the working directory,
//! the environment, well-known paths and path lists. Paths and OS strings
//! are held as `String`s.
use vstd::prelude::*;
use crate::pal::{unsupported_err, unsupported_message, ErrorKind, IoResult};
use crate::text::{decimal, decimal_string, digits_value, lemma_decimal_injective, lemma_decimal_value};

verus! {

/// The identifier that TantraOS reports for the running tasklet.
pub const TASKLET_PID: u32 = 1;

/// The error number of the last failed call; TantraOS reports none yet.
pub fn errno() -> (r: i32)
    ensures
        r == 0,
{
    0
}

/// The text for an error number: `TantraOS error ` and the number in decimal.
pub fn error_string(errno: i32) -> (r: String)
    ensures
        r@ == "TantraOS error "@ + decimal(errno as int),
{
    let prefix = String::from_str("TantraOS error ");
    let number = decimal_string(errno);
    prefix.concat(number.as_str())
}

/// Different error numbers have different texts.
pub proof fn lemma_error_string_injective(a: i32, b: i32)
    ensures
        "TantraOS error "@ + decimal(a as int) == "TantraOS error "@ + decimal(b as int) ==> a == b,
{
    let p = "TantraOS error "@;
    if p + decimal(a as int) == p + decimal(b as int) {
        assert((p + decimal(a as int)).skip(p.len() as int) =~= decimal(a as int));
        assert((p + decimal(b as int)).skip(p.len() as int) =~= decimal(b as int));
        lemma_decimal_injective(a as int, b as int);
    }
}

/// The text for an error number reads back as that number: after the
/// prefix `TantraOS error ` come the decimal digits of a non-negative number,
/// or a minus sign and the digits of the magnitude of a negative one.
pub proof fn lemma_error_string_reads_back(errno: i32)
    ensures
        ({
            let p = "TantraOS error "@;
            let m = p + decimal(errno as int);
            &&& m.subrange(0, p.len() as int) == p
            &&& errno >= 0 ==> digits_value(m.skip(p.len() as int)) == errno
            &&& errno < 0 ==> m[p.len() as int] == '-' && digits_value(m.skip(p.len() as int + 1)) == -errno
        }),
{
    let p = "TantraOS error "@;
    let m = p + decimal(errno as int);
    lemma_decimal_value(errno as int);
    assert(m.subrange(0, p.len() as int) =~= p);
    assert(m.skip(p.len() as int) =~= decimal(errno as int));
    if errno < 0 {
        assert(m[p.len() as int] == decimal(errno as int)[0]);
        assert(m.skip(p.len() as int + 1) =~= decimal(errno as int).drop_first());
    }
}

/// The current working directory, which is always the root.
pub fn getcwd() -> (r: IoResult<String>)
    ensures
        r matches Ok(p) && p@ == "/"@,
{
    Ok(String::from_str("/"))
}

/// Changing the working directory is not supported.
pub fn chdir(p: &str) -> (r: IoResult<()>)
    ensures
        r matches Err(e) && e.kind == ErrorKind::Unsupported && e.message@ == unsupported_message(),
{
    Err(unsupported_err())
}

/// Environment variables are not supported: no variable is set.
pub fn getenv(k: &str) -> (r: Option<String>)
    ensures
        r is None,
{
    None
}

/// Setting an environment variable is not supported.
pub fn setenv(k: &str, v: &str) -> (r: IoResult<()>)
    ensures
        r matches Err(e) && e.kind == ErrorKind::Unsupported && e.message@ == unsupported_message(),
{
    Err(unsupported_err())
}

/// Removing an environment variable is not supported.
pub fn unsetenv(n: &str) -> (r: IoResult<()>)
    ensures
        r matches Err(e) && e.kind == ErrorKind::Unsupported && e.message@ == unsupported_message(),
{
    Err(unsupported_err())
}

/// The path of the running executable.
pub fn current_exe() -> (r: IoResult<String>)
    ensures
        r matches Ok(p) && p@ == "/tasklet.tnf"@,
{
    Ok(String::from_str("/tasklet.tnf"))
}

/// The home directory.
pub fn home_dir() -> (r: Option<String>)
    ensures
        r matches Some(p) && p@ == "/home"@,
{
    Some(String::from_str("/home"))
}

/// The directory for temporary files.
pub fn temp_dir() -> (r: String)
    ensures
        r@ == "/tmp"@,
{
    String::from_str("/tmp")
}

/// The environment of the tasklet, as a sequence of `(name, value)` pairs;
/// it is always empty.
pub struct Env {}

impl Env {
    /// An empty environment.
    pub fn new() -> (r: Env) {
        Env {}
    }

    /// The next variable of the environment; there is none.
    pub fn next(&mut self) -> (r: Option<(String, String)>)
        ensures
            r is None,
    {
        None
    }
}

/// The environment of the tasklet.
pub fn env() -> (r: Env) {
    Env::new()
}

/// The identifier of the running tasklet.
pub fn getpid() -> (r: u32)
    ensures
        r == TASKLET_PID,
{
    TASKLET_PID
}

/// The paths of a path list, in order; TantraOS splits no list yet, so the
/// sequence is empty.
pub struct SplitPaths<'a> {
    inner: &'a str,
}

impl<'a> SplitPaths<'a> {
    /// The list that is being split.
    pub closed spec fn unparsed(&self) -> Seq<char> {
        self.inner@
    }

    /// The next path of the list; there is none.
    pub fn next(&mut self) -> (r: Option<String>)
        ensures
            r is None,
            final(self).unparsed() == old(self).unparsed(),
    {
        None
    }
}

/// The paths of the path list `unparsed`.
pub fn split_paths(unparsed: &str) -> (r: SplitPaths<'_>)
    ensures
        r.unparsed() == unparsed@,
{
    SplitPaths { inner: unparsed }
}

/// The error of joining paths into a path list.
pub struct JoinPathsError {
    inner: (),
}

impl JoinPathsError {
    /// The description of the error.
    pub fn description(&self) -> (r: &str)
        ensures
            r@ == "path separator found in input"@,
    {
        "path separator found in input"
    }

    /// The text of the error as it is displayed.
    pub fn message(&self) -> (r: String)
        ensures
            r@ == "JoinPathsError"@,
    {
        String::from_str("JoinPathsError")
    }
}

/// Joins paths into a path list; TantraOS joins none yet, so this always fails.
pub fn join_paths(paths: &[&str]) -> (r: Result<String, JoinPathsError>)
    ensures
        r is Err,
{
    Err(JoinPathsError { inner: () })
}

} // verus!
