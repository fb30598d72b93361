//! Building process execution requests.
//!
//! A spawn request is assembled from a command's configuration: program,
//! arguments, working directory, and the merged environment — the
//! configured variables with upper-cased keys first, extra variables (such
//! as the trigger path) after them, so that later entries override. The
//! spawn plan covers all configured processes in order with a cycling
//! display color; the trigger plan covers all triggers in order, each
//! carrying the changed path in `TRIGGER_PATH`.

use crate::config::CommandConfig;
use crate::config::Config;
use vstd::prelude::*;

verus! {

use vstd::string::StringExecFns;

/// The characters of the upper-case form of a string, as the host's
/// Unicode case mapping produces it.
pub uninterp spec fn upper_of(s: Seq<char>) -> Seq<char>;

/// Relies on str::to_uppercase: the result depends on the characters
/// alone, and an empty string stays empty.
#[verifier::external_body]
fn to_upper(s: &str) -> (r: String)
    ensures
        r@ == upper_of(s@),
        s@.len() == 0 ==> r@.len() == 0,
{
    s.to_uppercase()
}

/// Everything the host needs to start one child process.
pub struct ExecRequest {
    /// The program to run.
    pub program: String,
    /// Its arguments, in order.
    pub args: Vec<String>,
    /// The directory to run it in, when one is configured.
    pub working_dir: Option<String>,
    /// The environment entries to apply, in order; a later key overrides
    /// an earlier one.
    pub env: Vec<(String, String)>,
}

/// The configured environment as entries, empty when none is configured.
pub open spec fn spec_env_entries(env: Option<Vec<(String, String)>>) -> Seq<
    (Seq<char>, Seq<char>),
> {
    match env {
        Some(e) => e.deep_view(),
        None => Seq::empty(),
    }
}

/// The same entries with every key upper-cased.
pub open spec fn spec_upper_env(env: Seq<(Seq<char>, Seq<char>)>) -> Seq<(Seq<char>, Seq<char>)> {
    env.map(|i: int, kv: (Seq<char>, Seq<char>)| (upper_of(kv.0), kv.1))
}

/// The extra environment every trigger invocation receives: the changed
/// path under `TRIGGER_PATH`.
pub open spec fn spec_trigger_env(path: Seq<char>) -> Seq<(Seq<char>, Seq<char>)> {
    seq![("TRIGGER_PATH"@, path)]
}

/// Whether `r` is the execution request for configuration `cc` with the
/// extra environment `extra`: same program, same arguments, same working
/// directory, and the merged environment — configured variables with
/// upper-cased keys, then `extra` on top.
pub open spec fn spec_is_request_for(
    r: ExecRequest,
    cc: CommandConfig,
    extra: Seq<(Seq<char>, Seq<char>)>,
) -> bool {
    &&& r.program@ == cc.command@
    &&& (match cc.args {
        Some(a) => r.args.deep_view() == a.deep_view(),
        None => r.args@.len() == 0,
    })
    &&& (match cc.working_dir {
        Some(w) => (match r.working_dir {
            Some(x) => x@ == w@,
            None => false,
        }),
        None => r.working_dir is None,
    })
    &&& r.env.deep_view() == spec_upper_env(spec_env_entries(cc.env)) + extra
}

/// Assembles the execution request for `cc`, applying `extra_env` on top
/// of the configured environment.
pub fn build_exec_request(cc: &CommandConfig, extra_env: &Vec<(String, String)>) -> (r: ExecRequest)
    ensures
        spec_is_request_for(r, *cc, extra_env.deep_view()),
{
    let program = cc.command.clone();
    let args: Vec<String> = match &cc.args {
        Some(a) => {
            let mut v: Vec<String> = Vec::new();
            let n = a.len();
            let mut i: usize = 0;
            while i < n
                invariant
                    0 <= i <= n,
                    n == a@.len(),
                    v.deep_view().len() == i,
                    forall|k: int| 0 <= k < i ==> v.deep_view()[k] == a.deep_view()[k],
                decreases n - i,
            {
                v.push(a[i].clone());
                i += 1;
            }
            proof {
                assert(v.deep_view() =~= a.deep_view());
            }
            v
        },
        None => Vec::new(),
    };
    let working_dir: Option<String> = match &cc.working_dir {
        Some(w) => Some(w.clone()),
        None => None,
    };
    let mut env: Vec<(String, String)> = Vec::new();
    match &cc.env {
        Some(ce) => {
            let n = ce.len();
            let mut i: usize = 0;
            while i < n
                invariant
                    0 <= i <= n,
                    n == ce@.len(),
                    env.deep_view().len() == i,
                    forall|k: int|
                        0 <= k < i ==> env.deep_view()[k] == (
                        upper_of(ce.deep_view()[k].0),
                        ce.deep_view()[k].1,
                        ),
                decreases n - i,
            {
                let ghost env0: Seq<(Seq<char>, Seq<char>)> = env.deep_view();
                let key = to_upper(ce[i].0.as_str());
                let value = ce[i].1.clone();
                env.push((key, value));
                proof {
                    assert(env.deep_view() =~= env0.push(
                        (upper_of(ce.deep_view()[i as int].0), ce.deep_view()[i as int].1),
                    ));
                }
                i += 1;
            }
        },
        None => {},
    }
    let ghost upper_part: Seq<(Seq<char>, Seq<char>)> = env.deep_view();
    proof {
        assert(upper_part =~= spec_upper_env(spec_env_entries(cc.env)));
    }
    let m = extra_env.len();
    let mut j: usize = 0;
    while j < m
        invariant
            0 <= j <= m,
            m == extra_env@.len(),
            env.deep_view().len() == upper_part.len() + j,
            forall|k: int| 0 <= k < upper_part.len() ==> env.deep_view()[k] == upper_part[k],
            forall|k: int|
                0 <= k < j ==> env.deep_view()[upper_part.len() + k] == extra_env.deep_view()[k],
        decreases m - j,
    {
        let key = extra_env[j].0.clone();
        let value = extra_env[j].1.clone();
        env.push((key, value));
        j += 1;
    }
    proof {
        assert(env.deep_view() =~= spec_upper_env(spec_env_entries(cc.env))
            + extra_env.deep_view());
    }
    ExecRequest { program, args, working_dir, env }
}

/// Whether `plan` is the spawn plan for the processes `procs` under a
/// palette of `palette_len` colors: one entry per process, in the same
/// order, under the same name, colored round-robin, each request built
/// from its process's configuration with no extra environment.
pub open spec fn spec_is_spawn_plan(
    plan: Seq<(String, usize, ExecRequest)>,
    procs: Seq<(String, CommandConfig)>,
    palette_len: int,
) -> bool {
    &&& plan.len() == procs.len()
    &&& forall|i: int|
        0 <= i < plan.len() ==> {
            &&& #[trigger] plan[i].0@ == procs[i].0@
            &&& plan[i].1 == i % palette_len
            &&& spec_is_request_for(plan[i].2, procs[i].1, Seq::<(Seq<char>, Seq<char>)>::empty())
        }
}

/// The spawn plan for all configured processes, in configured order: the
/// `i`-th entry carries the process name, the display color index cycling
/// through a palette of `palette_len` colors, and the execution request
/// with no extra environment.
pub fn build_spawn_plan(config: &Config, palette_len: usize) -> (plan: Vec<
    (String, usize, ExecRequest),
>)
    requires
        palette_len > 0,
    ensures
        spec_is_spawn_plan(plan@, config.processes@, palette_len as int),
{
    let no_extra: Vec<(String, String)> = Vec::new();
    proof {
        assert(no_extra.deep_view() =~= Seq::<(Seq<char>, Seq<char>)>::empty());
    }
    let mut plan: Vec<(String, usize, ExecRequest)> = Vec::new();
    let n = config.processes.len();
    let mut i: usize = 0;
    while i < n
        invariant
            0 <= i <= n,
            n == config.processes@.len(),
            palette_len > 0,
            no_extra.deep_view() == Seq::<(Seq<char>, Seq<char>)>::empty(),
            plan@.len() == i,
            forall|k: int|
                0 <= k < i ==> {
                    &&& #[trigger] plan@[k].0@ == config.processes@[k].0@
                    &&& plan@[k].1 == k % (palette_len as int)
                    &&& spec_is_request_for(
                        plan@[k].2,
                        config.processes@[k].1,
                        Seq::<(Seq<char>, Seq<char>)>::empty(),
                    )
                },
        decreases n - i,
    {
        let ghost plan0: Seq<(String, usize, ExecRequest)> = plan@;
        let name = config.processes[i].0.clone();
        let color = i % palette_len;
        let request = build_exec_request(&config.processes[i].1, &no_extra);
        plan.push((name, color, request));
        proof {
            assert forall|k: int|
                0 <= k < i + 1 implies {
                &&& plan@[k].0@ == config.processes@[k].0@
                &&& plan@[k].1 == k % (palette_len as int)
                &&& spec_is_request_for(
                    plan@[k].2,
                    config.processes@[k].1,
                    Seq::<(Seq<char>, Seq<char>)>::empty(),
                )
            } by {
                if k < i {
                    assert(plan@[k] == plan0[k]);
                }
            };
        }
        i += 1;
    }
    proof {
        assert(spec_is_spawn_plan(plan@, config.processes@, palette_len as int));
    }
    plan
}

/// The configured triggers as a sequence, empty when none are configured.
pub open spec fn spec_triggers_of(c: Config) -> Seq<(String, CommandConfig)> {
    match c.triggers {
        Some(ts) => ts@,
        None => Seq::empty(),
    }
}

/// Whether `plan` is the trigger plan for the triggers `ts` and the
/// changed path `path`: one entry per trigger, in the same order, under
/// the same name, each request built from its trigger's configuration
/// with `TRIGGER_PATH = path` on top.
pub open spec fn spec_is_trigger_plan(
    plan: Seq<(String, ExecRequest)>,
    ts: Seq<(String, CommandConfig)>,
    path: Seq<char>,
) -> bool {
    &&& plan.len() == ts.len()
    &&& forall|i: int|
        0 <= i < plan.len() ==> {
            &&& #[trigger] plan[i].0@ == ts[i].0@
            &&& spec_is_request_for(plan[i].1, ts[i].1, spec_trigger_env(path))
        }
}

/// The trigger plan for a restart caused by `path`: one entry per
/// configured trigger, in configured order, each request carrying
/// `TRIGGER_PATH = path` on top of its configured environment.
pub fn build_trigger_plan(config: &Config, path: &str) -> (plan: Vec<(String, ExecRequest)>)
    ensures
        spec_is_trigger_plan(plan@, spec_triggers_of(*config), path@),
{
    match &config.triggers {
        None => {
            let plan: Vec<(String, ExecRequest)> = Vec::new();
            proof {
                assert(spec_is_trigger_plan(plan@, spec_triggers_of(*config), path@));
            }
            plan
        },
        Some(ts) => {
            let mut extra: Vec<(String, String)> = Vec::new();
            extra.push((String::from_str("TRIGGER_PATH"), path.to_owned()));
            proof {
                assert(extra.deep_view() =~= spec_trigger_env(path@));
                assert(spec_triggers_of(*config) =~= ts@);
            }
            let mut plan: Vec<(String, ExecRequest)> = Vec::new();
            let n = ts.len();
            let mut i: usize = 0;
            while i < n
                invariant
                    0 <= i <= n,
                    n == ts@.len(),
                    spec_triggers_of(*config) == ts@,
                    extra.deep_view() == spec_trigger_env(path@),
                    plan@.len() == i,
                    forall|k: int|
                        0 <= k < i ==> {
                            &&& #[trigger] plan@[k].0@ == spec_triggers_of(*config)[k].0@
                            &&& spec_is_request_for(
                                plan@[k].1,
                                spec_triggers_of(*config)[k].1,
                                spec_trigger_env(path@),
                            )
                        },
                decreases n - i,
            {
                let ghost plan0: Seq<(String, ExecRequest)> = plan@;
                let name = ts[i].0.clone();
                let request = build_exec_request(&ts[i].1, &extra);
                plan.push((name, request));
                proof {
                    assert forall|k: int|
                        0 <= k < i + 1 implies {
                        &&& #[trigger] plan@[k].0@ == spec_triggers_of(*config)[k].0@
                        &&& spec_is_request_for(
                            plan@[k].1,
                            spec_triggers_of(*config)[k].1,
                            spec_trigger_env(path@),
                        )
                    } by {
                        if k < i {
                            assert(plan@[k] == plan0[k]);
                        } else {
                            assert(spec_triggers_of(*config)[k] == ts@[k]);
                        }
                    };
                }
                i += 1;
            }
            proof {
                assert(spec_is_trigger_plan(plan@, spec_triggers_of(*config), path@));
            }
            plan
        },
    }
}

/// One console line for a child's output: the process name as prefix, a
/// `stderr` label when the line came from the error stream, then the line.
pub fn format_log_line(prefix: &str, line: &str, from_stderr: bool) -> (r: String)
    ensures
        r@ == prefix@ + (if from_stderr {
            " stderr: "@
        } else {
            ": "@
        }) + line@,
{
    let mut r = prefix.to_owned();
    if from_stderr {
        r.append(" stderr: ");
    } else {
        r.append(": ");
    }
    r.append(line);
    r
}

} // verus!
