//! The text protocol of the wallpaper daemon: where its socket is, the
//! command each request sends, and how its acknowledgement reads.

use vstd::prelude::*;
use vstd::string::*;
use crate::text::{join_path, joined};

verus! {

/// Directory that holds the compositor's runtime sockets.
pub const HYPR_RUNTIME_DIR: &'static str = "/tmp/hypr";

/// File name of the daemon's socket.
pub const HYPRPAPER_SOCKET: &'static str = ".hyprpaper.sock";

/// How many times a connection to the daemon is tried.
pub const CONNECT_ATTEMPTS: u32 = 5;

/// Pause between two connection attempts, in milliseconds.
pub const CONNECT_RETRY_DELAY_MS: u64 = 200;

/// Client side of the daemon's socket.
#[derive(Debug, Clone, PartialEq, Eq)]
pub struct Hyprpaper {
    pub socket_path: String,
}

/// Failure of a daemon request.
#[derive(Debug, Clone, PartialEq, Eq)]
pub enum HyprpaperError {
    /// The socket could not be reached, written or read; the text says why.
    IOError(String),
    /// The daemon answered something other than its acknowledgement.
    Hyprpaper,
    /// The image path cannot be sent in a one-line command.
    InvalidPath,
    /// The output name cannot be sent in a one-line command.
    InvalidMonitor,
}

/// Text that can stand in a one-line command: no line break and no NUL.
pub open spec fn is_single_line(s: Seq<char>) -> bool {
    forall|i: int| 0 <= i < s.len() ==> #[trigger] s[i] != '\n' && s[i] != '\0'
}

/// Where the daemon listens, given the compositor's instance signature.
pub open spec fn socket_path_for(signature: Option<Seq<char>>) -> Seq<char> {
    match signature {
        Some(sig) => joined(joined(HYPR_RUNTIME_DIR@, sig), HYPRPAPER_SOCKET@),
        None => joined(HYPR_RUNTIME_DIR@, HYPRPAPER_SOCKET@),
    }
}

pub open spec fn preload_command(path: Seq<char>) -> Seq<char> {
    "preload "@ + path
}

pub open spec fn wallpaper_command(monitor: Seq<char>, path: Seq<char>) -> Seq<char> {
    "wallpaper "@ + monitor + seq![','] + path
}

pub open spec fn unload_command(path: Seq<char>) -> Seq<char> {
    "unload "@ + path
}

/// The acknowledgement of a successful request: the two bytes `ok`.
pub open spec fn is_acknowledgement(reply: Seq<u8>) -> bool {
    reply == seq![111u8, 107u8]
}

/// Whether `s` holds neither a line break nor a NUL.
pub fn single_line(s: &str) -> (r: bool)
    ensures
        r == is_single_line(s@),
{
    let n = s.unicode_len();
    let mut i: usize = 0;
    while i < n
        invariant
            n == s@.len(),
            i <= n,
            forall|j: int| 0 <= j < i ==> #[trigger] s@[j] != '\n' && s@[j] != '\0',
        decreases n - i,
    {
        let c = s.get_char(i);
        if c == '\n' || c == '\0' {
            return false;
        }
        i = i + 1;
    }
    true
}

/// Whether a connection that failed at attempt `attempt` (counted from 1) is
/// tried again after a pause.
pub fn retry_connect(attempt: u32) -> (r: bool)
    ensures
        r == (attempt < CONNECT_ATTEMPTS),
{
    attempt < CONNECT_ATTEMPTS
}

impl Hyprpaper {
    /// The client of the daemon of the compositor instance `signature`, or of
    /// the default instance when there is none.
    pub fn new(signature: Option<String>) -> (r: Option<Hyprpaper>)
        ensures
            r matches Some(h) && h.socket_path@ == socket_path_for(
                match signature {
                    Some(s) => Some(s@),
                    None => None,
                },
            ),
    {
        let socket_path = match signature {
            Some(sig) => {
                let dir = join_path(HYPR_RUNTIME_DIR, sig.as_str());
                join_path(dir.as_str(), HYPRPAPER_SOCKET)
            },
            None => join_path(HYPR_RUNTIME_DIR, HYPRPAPER_SOCKET),
        };
        Some(Hyprpaper { socket_path })
    }

    /// The command that makes the daemon load the image at `path`.
    pub fn preload(&self, path: &str) -> (r: Result<String, HyprpaperError>)
        ensures
            is_single_line(path@) ==> (r matches Ok(m) && m@ == preload_command(path@)),
            !is_single_line(path@) ==> r == Err::<String, HyprpaperError>(
                HyprpaperError::InvalidPath,
            ),
    {
        if !single_line(path) {
            return Err(HyprpaperError::InvalidPath);
        }
        let mut m = String::from_str("preload ");
        m.append(path);
        Ok(m)
    }

    /// The command that shows the loaded image at `path` on the output `monitor`.
    pub fn set_wallpaper(&self, monitor: &str, path: &str) -> (r: Result<String, HyprpaperError>)
        ensures
            is_single_line(monitor@) && is_single_line(path@) ==> (r matches Ok(m) && m@
                == wallpaper_command(monitor@, path@)),
            !is_single_line(monitor@) ==> r == Err::<String, HyprpaperError>(
                HyprpaperError::InvalidMonitor,
            ),
            is_single_line(monitor@) && !is_single_line(path@) ==> r == Err::<
                String,
                HyprpaperError,
            >(HyprpaperError::InvalidPath),
    {
        if !single_line(monitor) {
            return Err(HyprpaperError::InvalidMonitor);
        }
        if !single_line(path) {
            return Err(HyprpaperError::InvalidPath);
        }
        let mut m = String::from_str("wallpaper ");
        m.append(monitor);
        m.append(",");
        m.append(path);
        proof {
            reveal_strlit(",");
        }
        Ok(m)
    }

    /// The command that makes the daemon release the image at `path`.
    pub fn unload(&self, path: &str) -> (r: Result<String, HyprpaperError>)
        ensures
            is_single_line(path@) ==> (r matches Ok(m) && m@ == unload_command(path@)),
            !is_single_line(path@) ==> r == Err::<String, HyprpaperError>(
                HyprpaperError::InvalidPath,
            ),
    {
        if !single_line(path) {
            return Err(HyprpaperError::InvalidPath);
        }
        let mut m = String::from_str("unload ");
        m.append(path);
        Ok(m)
    }

    /// Reads the daemon's answer to a request: `ok` acknowledges it, anything
    /// else is a refusal.
    pub fn read_reply(reply: &[u8]) -> (r: Result<String, HyprpaperError>)
        ensures
            is_acknowledgement(reply@) ==> (r matches Ok(m) && m@ == "ok"@),
            !is_acknowledgement(reply@) ==> r == Err::<String, HyprpaperError>(
                HyprpaperError::Hyprpaper,
            ),
    {
        if reply.len() == 2 && reply[0] == 111u8 && reply[1] == 107u8 {
            assert(reply@ =~= seq![111u8, 107u8]);
            Ok(String::from_str("ok"))
        } else {
            Err(HyprpaperError::Hyprpaper)
        }
    }
}

} // verus!
