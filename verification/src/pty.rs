use vstd::prelude::*;
use crate::text::{push_str, string_of};

verus! {

/// Settings of a new terminal session.
#[derive(Debug)]
pub struct PtyCreateConfig {
    pub shell: Option<String>,
    pub cwd: Option<String>,
    /// Environment variables (name, value).
    pub env: Vec<(String, String)>,
    pub rows: u16,
    pub cols: u16,
}

/// State of a terminal session.
#[derive(PartialEq, Eq, Structural, Clone, Copy, Debug)]
pub enum PtySessionStatus {
    Starting,
    Running,
    Exited,
    Error,
}

/// A terminal session as the front end lists it.
#[derive(Debug)]
pub struct PtySessionInfo {
    pub id: String,
    pub status: String,
    pub shell: Option<String>,
    pub cwd: Option<String>,
    pub rows: u16,
    pub cols: u16,
}

pub open spec fn status_name(s: PtySessionStatus) -> Seq<char> {
    match s {
        PtySessionStatus::Starting => "starting"@,
        PtySessionStatus::Running => "running"@,
        PtySessionStatus::Exited => "exited"@,
        PtySessionStatus::Error => "error"@,
    }
}

impl PtySessionInfo {
    /// The listing of session `id` in state `status`: shell and directory
    /// unknown, the default 24×80 size.
    pub fn from_status(id: String, status: PtySessionStatus) -> (r: Self)
        ensures
            r.id@ == id@,
            r.status@ == status_name(status),
            r.shell is None,
            r.cwd is None,
            r.rows == 24,
            r.cols == 80,
    {
        let status_str = match status {
            PtySessionStatus::Starting => string_of("starting"),
            PtySessionStatus::Running => string_of("running"),
            PtySessionStatus::Exited => string_of("exited"),
            PtySessionStatus::Error => string_of("error"),
        };
        PtySessionInfo { id, status: status_str, shell: None, cwd: None, rows: 24, cols: 80 }
    }
}

/// The error of a write or resize to an unknown session.
pub fn session_not_found(id: &str) -> (r: String)
    ensures
        r@ == "PTY session '"@ + id@ + "' not found"@,
{
    let mut r = string_of("PTY session '");
    push_str(&mut r, id);
    push_str(&mut r, "' not found");
    r
}

} // verus!

verus! {

/// Law: a session's status is shown as its variant's name in lower case,
/// and distinct statuses are shown differently.
pub proof fn law_status_names(s: PtySessionStatus, t: PtySessionStatus)
    ensures
        status_name(s) == match s {
            PtySessionStatus::Starting => "starting"@,
            PtySessionStatus::Running => "running"@,
            PtySessionStatus::Exited => "exited"@,
            PtySessionStatus::Error => "error"@,
        },
        status_name(s) == status_name(t) ==> s == t,
{
    reveal_strlit("starting");
    reveal_strlit("running");
    reveal_strlit("exited");
    reveal_strlit("error");
    if s != t {
        assert(status_name(s)[0] != status_name(t)[0] || status_name(s)[1] != status_name(t)[1]);
    }
}

} // verus!
