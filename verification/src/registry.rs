//! Session registry: where a session's socket lives, and the read-only
//! listing over the session directory.
//!
//! A session named `s` owns one Unix socket file `s.sock` under the per-user
//! session directory. Listing enumerates the socket files there, probes each
//! with a connect, and reports every session as active or stale; it never
//! mutates anything.

use vstd::prelude::*;
use vstd::string::StrSliceExecFns;
use vstd::string::StringExecFns;

verus! {

/// Path of the per-user session directory under the given home directory.
pub open spec fn spec_session_dir(home: Seq<char>) -> Seq<char> {
    home + "/.local/share/desktop-tui"@
}

/// Path of the named session's socket file.
pub open spec fn spec_socket_path(home: Seq<char>, session: Seq<char>) -> Seq<char> {
    spec_session_dir(home) + "/"@ + session + ".sock"@
}

/// The per-user session directory under the given home directory.
pub fn session_dir(home: &str) -> (r: String)
    ensures
        r@ == spec_session_dir(home@),
{
    let mut r = home.to_owned();
    r.append("/.local/share/desktop-tui");
    r
}

/// Where the named session's socket file lives, derived deterministically
/// from the session name.
pub fn socket_path(home: &str, session: &str) -> (r: String)
    ensures
        r@ == spec_socket_path(home@, session@),
{
    let mut r = session_dir(home);
    r.append("/");
    r.append(session);
    r.append(".sock");
    proof {
        assert(r@ =~= spec_socket_path(home@, session@));
    }
    r
}

/// The session-socket file extension, character by character.
pub open spec fn spec_sock_suffix() -> Seq<char> {
    seq!['.', 's', 'o', 'c', 'k']
}

/// Whether a file name is a session socket's: a nonempty stem followed by
/// the socket extension.
pub open spec fn spec_is_socket_file(name: Seq<char>) -> bool {
    name.len() > 5 && name.subrange(name.len() - 5, name.len() as int) == spec_sock_suffix()
}

/// The session name a socket file stands for: the file name with the
/// extension cut off.
pub open spec fn spec_session_name(name: Seq<char>) -> Seq<char> {
    name.subrange(0, name.len() - 5)
}

/// The session name behind a directory entry, if the entry is a session
/// socket; `None` exactly on every other file name.
pub fn session_name_of(file_name: &str) -> (r: Option<String>)
    ensures
        match r {
            Some(n) => spec_is_socket_file(file_name@) && n@ == spec_session_name(file_name@),
            None => !spec_is_socket_file(file_name@),
        },
{
    let len = file_name.unicode_len();
    if len <= 5 {
        return None;
    }
    let c0 = file_name.get_char(len - 5);
    let c1 = file_name.get_char(len - 4);
    let c2 = file_name.get_char(len - 3);
    let c3 = file_name.get_char(len - 2);
    let c4 = file_name.get_char(len - 1);
    if c0 == '.' && c1 == 's' && c2 == 'o' && c3 == 'c' && c4 == 'k' {
        proof {
            assert(file_name@.subrange(
                file_name@.len() - 5,
                file_name@.len() as int,
            ) =~= spec_sock_suffix());
        }
        let stem = file_name.substring_char(0, len - 5);
        Some(stem.to_owned())
    } else {
        proof {
            let l = file_name@.len() as int;
            if file_name@.subrange(l - 5, l) == spec_sock_suffix() {
                assert(file_name@.subrange(l - 5, l)[0] == '.');
                assert(file_name@.subrange(l - 5, l)[1] == 's');
                assert(file_name@.subrange(l - 5, l)[2] == 'o');
                assert(file_name@.subrange(l - 5, l)[3] == 'c');
                assert(file_name@.subrange(l - 5, l)[4] == 'k');
            }
        }
        None
    }
}

/// The report line for one session: its name and whether a connect to its
/// socket succeeded.
pub open spec fn spec_session_line(name: Seq<char>, alive: bool) -> Seq<char> {
    if alive {
        "  "@ + name + " (active)"@
    } else {
        "  "@ + name + " (stale)"@
    }
}

/// Format one session's report line.
pub fn session_line(name: &str, alive: bool) -> (r: String)
    ensures
        r@ == spec_session_line(name@, alive),
{
    let mut r = "  ".to_owned();
    r.append(name);
    if alive {
        r.append(" (active)");
    } else {
        r.append(" (stale)");
    }
    proof {
        assert(r@ =~= spec_session_line(name@, alive));
    }
    r
}

/// One directory entry and whether a synchronous connect to it succeeded.
pub struct SessionProbe {
    /// The entry's file name, extension included.
    pub file_name: String,
    /// Whether connecting to the file as a socket succeeded.
    pub alive: bool,
}

/// The probes as pairs of file name and liveness.
pub open spec fn spec_probes_view(s: Seq<SessionProbe>) -> Seq<(Seq<char>, bool)> {
    Seq::new(s.len(), |i: int| (s[i].file_name@, s[i].alive))
}

/// The views of the produced lines.
pub open spec fn spec_lines_view(v: Seq<String>) -> Seq<Seq<char>> {
    Seq::new(v.len(), |i: int| v[i]@)
}

/// The report lines for the probed entries, in directory order: one line
/// per socket file; every other entry produces nothing.
pub open spec fn spec_report_lines(entries: Seq<(Seq<char>, bool)>) -> Seq<Seq<char>>
    decreases entries.len(),
{
    if entries.len() == 0 {
        Seq::empty()
    } else {
        let prefix = spec_report_lines(entries.drop_last());
        let last = entries.last();
        if spec_is_socket_file(last.0) {
            prefix.push(spec_session_line(spec_session_name(last.0), last.1))
        } else {
            prefix
        }
    }
}

/// Build the report lines for the probed directory entries.
pub fn list_report(probes: &Vec<SessionProbe>) -> (lines: Vec<String>)
    ensures
        spec_lines_view(lines@) == spec_report_lines(spec_probes_view(probes@)),
{
    let mut lines: Vec<String> = Vec::new();
    let mut i: usize = 0;
    proof {
        assert(spec_lines_view(lines@) =~= spec_report_lines(
            spec_probes_view(probes@.subrange(0, 0)),
        ));
    }
    while i < probes.len()
        invariant
            i <= probes@.len(),
            spec_lines_view(lines@) == spec_report_lines(
                spec_probes_view(probes@.subrange(0, i as int)),
            ),
        decreases probes@.len() - i,
    {
        match session_name_of(probes[i].file_name.as_str()) {
            Some(name) => {
                let line = session_line(name.as_str(), probes[i].alive);
                lines.push(line);
            },
            None => {},
        }
        i = i + 1;
        proof {
            let entries = spec_probes_view(probes@.subrange(0, i as int));
            assert(entries.drop_last() =~= spec_probes_view(probes@.subrange(0, i - 1)));
            assert(spec_lines_view(lines@) =~= spec_report_lines(entries));
        }
    }
    proof {
        assert(probes@.subrange(0, probes@.len() as int) =~= probes@);
    }
    lines
}

/// What listing prints for the probed entries: the report lines, or the
/// distinct no-sessions notice when not one socket file was found.
pub open spec fn spec_list_output(entries: Seq<(Seq<char>, bool)>) -> Seq<Seq<char>> {
    let r = spec_report_lines(entries);
    if r.len() == 0 {
        seq!["No sessions found."@]
    } else {
        r
    }
}

/// The listing's output for the probed directory entries.
pub fn list_output(probes: &Vec<SessionProbe>) -> (lines: Vec<String>)
    ensures
        spec_lines_view(lines@) == spec_list_output(spec_probes_view(probes@)),
{
    let report = list_report(probes);
    if report.len() == 0 {
        let mut lines: Vec<String> = Vec::new();
        lines.push("No sessions found.".to_owned());
        proof {
            assert(spec_lines_view(lines@) =~= spec_list_output(spec_probes_view(probes@)));
        }
        lines
    } else {
        report
    }
}

/// The distinct report for an absent session directory.
pub fn missing_dir_notice() -> (r: String)
    ensures
        r@ == "No sessions found (session directory does not exist)."@,
{
    "No sessions found (session directory does not exist).".to_owned()
}

} // verus!
