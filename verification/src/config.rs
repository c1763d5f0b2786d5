//! Default IPC socket location.

use vstd::prelude::*;

verus! {

/// Errors from the config layer.
#[derive(Debug, Clone, Copy, PartialEq, Eq, Structural)]
pub enum ConfigError {
    /// `$XDG_RUNTIME_DIR` is not set in the environment.
    NoXdgRuntimeDir,
}

impl ConfigError {
    /// The error's message.
    pub fn to_string(&self) -> (r: String)
        ensures
            r@ == "XDG_RUNTIME_DIR is not set; cannot determine the default socket path (set the variable or use --socket)"@,
    {
        "XDG_RUNTIME_DIR is not set; cannot determine the default socket path (set the variable or use --socket)".to_owned()
    }
}

/// File name of the daemon socket.
pub open spec fn socket_file_name() -> Seq<char> {
    "trayd.sock"@
}

/// A relative file name appended to a directory path: directly after an
/// empty path or one ending in `/`, else after a `/`.
pub open spec fn path_join(dir: Seq<char>, name: Seq<char>) -> Seq<char> {
    if dir.len() == 0 || dir.last() == '/' {
        dir + name
    } else {
        dir + "/"@ + name
    }
}

/// Default IPC socket path, `$XDG_RUNTIME_DIR/trayd.sock`, given the value
/// of `$XDG_RUNTIME_DIR` (`None` when it is not set).
pub fn default_socket_path(runtime_dir: Option<&str>) -> (r: Result<String, ConfigError>)
    ensures
        match runtime_dir {
            Some(d) => r matches Ok(p) && p@ == path_join(d@, socket_file_name()),
            None => r == Err::<String, ConfigError>(ConfigError::NoXdgRuntimeDir),
        },
{
    match runtime_dir {
        None => Err(ConfigError::NoXdgRuntimeDir),
        Some(dir) => {
            let chars = crate::text::str_chars(dir);
            let n = chars.len();
            let base = dir.to_owned();
            if n == 0 || chars[n - 1] == '/' {
                Ok(base.concat("trayd.sock"))
            } else {
                let r = base.concat("/").concat("trayd.sock");
                assert(r@ =~= path_join(dir@, socket_file_name()));
                Ok(r)
            }
        },
    }
}

} // verus!
