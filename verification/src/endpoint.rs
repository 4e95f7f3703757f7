//! Where the transport is found: the path of the local socket, or the name
//! of the pipe. Opening it is the caller's.

use vstd::prelude::*;
use vstd::string::StringExecFns;

verus! {

/// The seconds after which a read on the socket gives up.
pub const READ_TIMEOUT_SECS: u64 = 1;

/// The socket's path as text: the service's name under the runtime
/// directory where one is given, under `/tmp` where none is.
pub open spec fn socket_path_text(runtime_dir: Option<Seq<char>>) -> Seq<char> {
    match runtime_dir {
        Some(dir) => dir + "/"@ + "kpxc_server"@,
        None => "/tmp"@ + "/"@ + "kpxc_server"@,
    }
}

/// The pipe's name as text: the service's name under the user's.
pub open spec fn pipe_name_text(username: Seq<char>) -> Seq<char> {
    "\\\\.\\pipe\\keepassxc\\"@ + username + "\\"@ + "kpxc_server"@
}

/// The path of the service's socket. `runtime_dir` is the user's runtime
/// directory, where the environment names one.
pub fn socket_path(runtime_dir: Option<&str>) -> (path: String)
    ensures
        path@ == socket_path_text(
            match runtime_dir {
                Some(dir) => Some(dir@),
                None => None,
            },
        ),
{
    let dir: &str = match runtime_dir {
        Some(dir) => dir,
        None => "/tmp",
    };
    String::from_str(dir).concat("/").concat("kpxc_server")
}

/// The name of the service's pipe for the user `username`.
pub fn pipe_name(username: &str) -> (name: String)
    ensures
        name@ == pipe_name_text(username@),
{
    String::from_str("\\\\.\\pipe\\keepassxc\\").concat(username).concat("\\").concat("kpxc_server")
}

} // verus!
