//! The status filter: an external interpreter that reads status lines on its
//! standard input. This module decides where its script lives, how it is
//! invoked, where each report goes, and what shutting it down takes; the
//! caller owns the process and the pipe.
use vstd::prelude::*;
use crate::event::string_views;
use crate::status::{status_line, status_line_of, StatusError, Termination};

verus! {

/// The script installed when none exists yet: one human-readable line per
/// status line.
pub const DEFAULT_SCRIPT: &'static str = "# http://eradman.com/entrproject/status-filters.html
/^signal/ { print $3, \"terminated by signal\", $2; }
/^exit/ { print $3, \"returned exit code\", $2; }
";

/// Why the script location could not be resolved.
#[derive(Clone, Copy, Debug, PartialEq, Eq, Structural)]
pub enum ScriptPathError {
    /// No override was given and the home directory is unknown.
    HomeNotSet,
}

/// `part` appended to the path `base` as one more component.
pub open spec fn join_spec(base: Seq<char>, part: Seq<char>) -> Seq<char> {
    if base.len() == 0 {
        part
    } else if base.last() == '/' {
        base + part
    } else {
        base + seq!['/'] + part
    }
}

/// Where the default script lives under the home directory `home`.
pub open spec fn default_script_path_spec(home: Seq<char>) -> Seq<char> {
    join_spec(join_spec(home, ".entr"@), "status.awk"@)
}

/// Appends `part` to the path `base` as one more component.
pub fn join(base: &str, part: &str) -> (r: String)
    ensures
        r@ == join_spec(base@, part@),
{
    let len = base.unicode_len();
    let mut r = String::from_str(base);
    if len > 0 && base.get_char(len - 1) != '/' {
        proof {
            reveal_strlit("/");
        }
        r.append("/");
    }
    r.append(part);
    r
}

/// An override of the script location counts when it is set and not empty.
pub open spec fn usable_override(o: Option<String>) -> bool {
    o is Some && o.unwrap()@.len() > 0
}

/// The location of the filter script: a non-empty override wins; otherwise
/// `.entr/status.awk` under the home directory.
pub fn resolve_script_path(override_path: Option<String>, home: Option<String>) -> (r: Result<String, ScriptPathError>)
    ensures
        usable_override(override_path) ==> r == Ok::<String, ScriptPathError>(override_path.unwrap()),
        !usable_override(override_path) && home is Some ==> (r is Ok
            && r.unwrap()@ == default_script_path_spec(home.unwrap()@)),
        !usable_override(override_path) && home is None
            ==> r == Err::<String, ScriptPathError>(ScriptPathError::HomeNotSet),
{
    if let Some(p) = override_path {
        if p.as_str().unicode_len() > 0 {
            return Ok(p);
        }
    }
    match home {
        None => Err(ScriptPathError::HomeNotSet),
        Some(h) => {
            let dir = join(h.as_str(), ".entr");
            Ok(join(dir.as_str(), "status.awk"))
        },
    }
}

/// The arguments of the filter interpreter: fields split at `|`, the program
/// read from `script`, and the host's sandbox flag when sandboxing is asked.
pub open spec fn filter_args_spec(script: Seq<char>, sandbox: bool, linux: bool) -> Seq<Seq<char>> {
    let base = seq!["-F"@, "|"@, "-f"@, script];
    if !sandbox {
        base
    } else if linux {
        base.push("-S"@)
    } else {
        base.push("-safe"@)
    }
}

/// Whether the safe-mode level asks for the filter to run sandboxed: every
/// level but the most permissive does.
pub open spec fn wants_sandbox_spec(safe_mode: u8) -> bool {
    safe_mode != 2
}

/// Whether the safe-mode level asks for the filter to run sandboxed.
pub fn wants_sandbox(safe_mode: u8) -> (r: bool)
    ensures
        r == wants_sandbox_spec(safe_mode),
{
    safe_mode != 2
}

/// The arguments to start the filter interpreter with.
pub fn filter_args(script: &str, sandbox: bool, linux: bool) -> (r: Vec<String>)
    ensures
        string_views(r@) == filter_args_spec(script@, sandbox, linux),
{
    let mut r: Vec<String> = Vec::new();
    r.push(String::from_str("-F"));
    r.push(String::from_str("|"));
    r.push(String::from_str("-f"));
    r.push(String::from_str(script));
    if sandbox {
        if linux {
            r.push(String::from_str("-S"));
        } else {
            r.push(String::from_str("-safe"));
        }
    }
    assert(string_views(r@) =~= filter_args_spec(script@, sandbox, linux));
    r
}

/// The life of the filter process as the reporting side sees it.
#[derive(Clone, Copy, Debug, PartialEq, Eq, Structural)]
pub enum FilterState {
    /// The filter runs and its input pipe is open.
    Running,
    /// Writing to the filter failed: it has died, and reports go to the console.
    Failed,
    /// The pipe was closed and the filter killed.
    Ended,
}

/// Where a report goes.
#[derive(Clone, Copy, Debug, PartialEq, Eq, Structural)]
pub enum Route {
    /// Write it to the filter's input and flush.
    Filter,
    /// Print it on the console.
    Console,
    /// The filter was shut down: send it nowhere.
    Nowhere,
}

/// What shutting the filter down takes.
#[derive(Clone, Copy, Debug, PartialEq, Eq, Structural)]
pub struct Shutdown {
    /// Close the write side of the pipe.
    pub close_pipe: bool,
    /// Forcibly kill the filter process.
    pub kill: bool,
}

/// The reporting side of a status filter.
#[derive(Clone, Copy, Debug, PartialEq, Eq, Structural)]
pub struct StatusFilter {
    /// The safe-mode level it was started with.
    pub safe_mode: u8,
    /// Where the filter is in its life.
    pub state: FilterState,
}

/// Where reports go in state `s`.
pub open spec fn route_spec(s: FilterState) -> Route {
    match s {
        FilterState::Running => Route::Filter,
        FilterState::Failed => Route::Console,
        FilterState::Ended => Route::Nowhere,
    }
}

/// What `end` does in state `s`: close what is still open, kill what may
/// still be alive, and nothing once ended.
pub open spec fn shutdown_spec(s: FilterState) -> Shutdown {
    match s {
        FilterState::Running => Shutdown { close_pipe: true, kill: true },
        FilterState::Failed => Shutdown { close_pipe: true, kill: false },
        FilterState::Ended => Shutdown { close_pipe: false, kill: false },
    }
}

/// The filter after `end`, and what that call asks the caller to do.
pub open spec fn end_spec(f: StatusFilter) -> (StatusFilter, Shutdown) {
    (StatusFilter { state: FilterState::Ended, ..f }, shutdown_spec(f.state))
}

impl StatusFilter {
    /// The reporting side of a filter that was just started.
    pub fn new(safe_mode: u8) -> (r: StatusFilter)
        ensures
            r == (StatusFilter { safe_mode, state: FilterState::Running }),
    {
        StatusFilter { safe_mode, state: FilterState::Running }
    }

    /// Where a report goes now.
    pub fn route(&self) -> (r: Route)
        ensures
            r == route_spec(self.state),
    {
        match self.state {
            FilterState::Running => Route::Filter,
            FilterState::Failed => Route::Console,
            FilterState::Ended => Route::Nowhere,
        }
    }

    /// Whether `input` is to be written to the filter's pipe: only while the
    /// filter runs.
    pub fn write(&self, input: &str) -> (r: bool)
        ensures
            r == (self.state is Running),
    {
        match self.state {
            FilterState::Running => true,
            _ => false,
        }
    }

    /// The line that reports `outcome` of a run of `command`, and where it goes.
    pub fn report(&self, outcome: Termination, command: &str) -> (r: Result<(String, Route), StatusError>)
        ensures
            command@.contains('\n') <==> r is Err,
            r matches Ok(p) ==> p.0@ == status_line_of(outcome, command@) && p.1 == route_spec(self.state),
    {
        let line = status_line(outcome, command)?;
        Ok((line, self.route()))
    }

    /// Records that writing to the filter failed: later reports go to the console.
    pub fn write_failed(&mut self)
        ensures
            final(self).safe_mode == old(self).safe_mode,
            old(self).state is Running ==> final(self).state is Failed,
            !(old(self).state is Running) ==> final(self).state == old(self).state,
    {
        if let FilterState::Running = self.state {
            self.state = FilterState::Failed;
        }
    }

    /// Shuts the filter down: the caller closes and kills what the result
    /// says. Once ended, further calls ask for nothing.
    pub fn end(&mut self) -> (r: Shutdown)
        ensures
            (*final(self), r) == end_spec(*old(self)),
    {
        let r = match self.state {
            FilterState::Running => Shutdown { close_pipe: true, kill: true },
            FilterState::Failed => Shutdown { close_pipe: true, kill: false },
            FilterState::Ended => Shutdown { close_pipe: false, kill: false },
        };
        self.state = FilterState::Ended;
        r
    }
}

/// Ending twice is safe: the second `end` leaves the filter as the first
/// left it and asks for nothing, so the pipe is closed and the process
/// killed at most once; reports then go nowhere.
pub proof fn lemma_end_is_idempotent(f: StatusFilter)
    ensures
        end_spec(end_spec(f).0).0 == end_spec(f).0,
        end_spec(end_spec(f).0).1 == (Shutdown { close_pipe: false, kill: false }),
        route_spec(end_spec(f).0.state) is Nowhere,
{
}

} // verus!
