//! Startup configuration: command-line parsing and the built-in defaults.
//!
//! The surrounding program collects the raw argument strings and hands them to
//! [`Args::parse`]; everything that decides which launch and shutdown command
//! the run uses is verified here.

use vstd::prelude::*;
use vstd::string::StrSliceExecFns;
use vstd::string::StringExecFns;

verus! {

/// The launch and shutdown command for the backend, as chosen from the
/// command line (or the defaults when no override is present).
pub struct Args {
    pub launch_command: String,
    pub shutdown_command: String,
}

/// Command used to start the backend server when none is given on the
/// command line.
pub open spec fn default_launch_command_spec() -> Seq<char> {
    "/usr/sbin/sshd -D -f ~/.ssh/sshd/sshd_config"@
}

/// Command used to terminate the backend server when none is given on the
/// command line.
pub open spec fn default_shutdown_command_spec() -> Seq<char> {
    "kill $(cat ~/.ssh/sshd.pid); rm ~/.ssh/sshd.pid"@
}

pub fn default_launch_command() -> (c: String)
    ensures
        c@ == default_launch_command_spec(),
{
    String::from_str("/usr/sbin/sshd -D -f ~/.ssh/sshd/sshd_config")
}

pub fn default_shutdown_command() -> (c: String)
    ensures
        c@ == default_shutdown_command_spec(),
{
    String::from_str("kill $(cat ~/.ssh/sshd.pid); rm ~/.ssh/sshd.pid")
}

/// Index of the first `=` in `a` at or after `from`; `a.len()` when none.
pub open spec fn find_eq_from(a: Seq<char>, from: int) -> int
    decreases a.len() - from,
{
    if from < 0 || from >= a.len() {
        a.len() as int
    } else if a[from] == '=' {
        from
    } else {
        find_eq_from(a, from + 1)
    }
}

/// Index at which an argument splits into name and value; `a.len()` when the
/// argument holds no `=` and is therefore ignored.
pub open spec fn eq_split_index(a: Seq<char>) -> int {
    find_eq_from(a, 0)
}

/// Whether the argument has the shape `name=value`.
pub open spec fn arg_has_value(a: Seq<char>) -> bool {
    eq_split_index(a) < a.len()
}

/// The part of the argument before the first `=`.
pub open spec fn arg_name(a: Seq<char>) -> Seq<char> {
    a.subrange(0, eq_split_index(a))
}

/// The part of the argument after the first `=` (further `=` signs belong to
/// the value).
pub open spec fn arg_value(a: Seq<char>) -> Seq<char> {
    a.subrange(eq_split_index(a) + 1, a.len() as int)
}

/// Whether the argument overrides the launch command.
pub open spec fn sets_launch_command(a: Seq<char>) -> bool {
    arg_has_value(a) && arg_name(a) == "--launch-command"@
}

/// Whether the argument overrides the shutdown command.
pub open spec fn sets_shutdown_command(a: Seq<char>) -> bool {
    arg_has_value(a) && arg_name(a) == "--shutdown-command"@
}

/// The launch command chosen by the argument list, if any: the value of the
/// last `--launch-command=...` argument.
pub open spec fn launch_override(vs: Seq<Seq<char>>) -> Option<Seq<char>>
    decreases vs.len(),
{
    if vs.len() == 0 {
        None
    } else if sets_launch_command(vs.last()) {
        Some(arg_value(vs.last()))
    } else {
        launch_override(vs.drop_last())
    }
}

/// The shutdown command chosen by the argument list, if any: the value of the
/// last `--shutdown-command=...` argument.
pub open spec fn shutdown_override(vs: Seq<Seq<char>>) -> Option<Seq<char>>
    decreases vs.len(),
{
    if vs.len() == 0 {
        None
    } else if sets_shutdown_command(vs.last()) {
        Some(arg_value(vs.last()))
    } else {
        shutdown_override(vs.drop_last())
    }
}

/// The character sequences of a list of argument strings.
pub open spec fn string_views(args: Seq<String>) -> Seq<Seq<char>> {
    args.map_values(|a: String| a@)
}

/// The launch command a run with these arguments uses.
pub open spec fn chosen_launch_command(vs: Seq<Seq<char>>) -> Seq<char> {
    match launch_override(vs) {
        Some(v) => v,
        None => default_launch_command_spec(),
    }
}

/// The shutdown command a run with these arguments uses.
pub open spec fn chosen_shutdown_command(vs: Seq<Seq<char>>) -> Seq<char> {
    match shutdown_override(vs) {
        Some(v) => v,
        None => default_shutdown_command_spec(),
    }
}

/// Character-for-character string equality.
pub fn str_eq(a: &str, b: &str) -> (r: bool)
    ensures
        r == (a@ == b@),
{
    let an = a.unicode_len();
    let bn = b.unicode_len();
    if an != bn {
        return false;
    }
    let mut i: usize = 0;
    while i < an
        invariant
            an == a@.len(),
            an == b@.len(),
            i <= an,
            forall|j: int| 0 <= j < i ==> a@[j] == b@[j],
        decreases an - i,
    {
        if a.get_char(i) != b.get_char(i) {
            return false;
        }
        i = i + 1;
    }
    proof {
        assert(a@ =~= b@);
    }
    true
}

/// Position of the first `=` in `s`; `s` has none when the result equals its
/// length.
pub fn eq_split_position(s: &str) -> (i: usize)
    ensures
        i == eq_split_index(s@),
        i <= s@.len(),
{
    let n = s.unicode_len();
    let mut i: usize = 0;
    while i < n
        invariant
            n == s@.len(),
            i <= n,
            eq_split_index(s@) == find_eq_from(s@, i as int),
        decreases n - i,
    {
        if s.get_char(i) == '=' {
            return i;
        }
        i = i + 1;
    }
    i
}

proof fn lemma_override_step(vs: Seq<Seq<char>>, k: int)
    requires
        0 <= k < vs.len(),
    ensures
        launch_override(vs.take(k + 1)) == (if sets_launch_command(vs[k]) {
            Some(arg_value(vs[k]))
        } else {
            launch_override(vs.take(k))
        }),
        shutdown_override(vs.take(k + 1)) == (if sets_shutdown_command(vs[k]) {
            Some(arg_value(vs[k]))
        } else {
            shutdown_override(vs.take(k))
        }),
{
    let w = vs.take(k + 1);
    assert(w.last() == vs[k]);
    assert(w.drop_last() =~= vs.take(k));
}

impl Args {
    /// Reads the launch and shutdown command out of the raw argument strings.
    ///
    /// Every argument of the shape `name=value` is considered; the last
    /// `--launch-command=...` and the last `--shutdown-command=...` win, and
    /// each command falls back to its built-in default when no argument
    /// overrides it.  Arguments without `=`, and `name=value` pairs under any
    /// other name, are ignored.
    pub fn parse(args: &Vec<String>) -> (r: Args)
        ensures
            r.launch_command@ == chosen_launch_command(string_views(args@)),
            r.shutdown_command@ == chosen_shutdown_command(string_views(args@)),
    {
        let ghost vs = string_views(args@);
        let mut launch: Option<String> = None;
        let mut shutdown: Option<String> = None;
        let mut k: usize = 0;
        while k < args.len()
            invariant
                k <= args@.len(),
                vs == string_views(args@),
                vs.len() == args@.len(),
                match launch {
                    Some(s) => launch_override(vs.take(k as int)) == Some(s@),
                    None => launch_override(vs.take(k as int)) is None,
                },
                match shutdown {
                    Some(s) => shutdown_override(vs.take(k as int)) == Some(s@),
                    None => shutdown_override(vs.take(k as int)) is None,
                },
            decreases args@.len() - k,
        {
            let a = args[k].as_str();
            proof {
                reveal_strlit("--launch-command");
                reveal_strlit("--shutdown-command");
                assert(vs[k as int] == a@);
                lemma_override_step(vs, k as int);
            }
            let n = a.unicode_len();
            let p = eq_split_position(a);
            if p < n {
                let name = a.substring_char(0, p);
                let value = a.substring_char(p + 1, n);
                proof {
                    assert(name@ == arg_name(a@));
                    assert(value@ == arg_value(a@));
                }
                if str_eq(name, "--launch-command") {
                    launch = Some(String::from_str(value));
                } else if str_eq(name, "--shutdown-command") {
                    shutdown = Some(String::from_str(value));
                }
            }
            k = k + 1;
        }
        proof {
            assert(vs.take(vs.len() as int) =~= vs);
        }
        let launch_command = match launch {
            Some(s) => s,
            None => default_launch_command(),
        };
        let shutdown_command = match shutdown {
            Some(s) => s,
            None => default_shutdown_command(),
        };
        Args { launch_command, shutdown_command }
    }
}

} // verus!
