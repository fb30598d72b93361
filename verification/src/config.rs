//! The configuration the engine runs on.
//!
//! An outside loader parses the operator's config file and hands the plain
//! values over; this module owns their meaning: the default port base and
//! debug flag, and the sequential assignment of an attach port pair to
//! every process. Ordered maps of the loader become vectors of pairs here,
//! so that the configured order is kept.

use vstd::prelude::*;

verus! {

use vstd::string::StringExecFns;

/// The port base used when the config names none.
pub const DEFAULT_PORT_RANGE_START: i32 = 40000;

/// One watched root and the sub-paths under it whose changes are ignored.
pub struct PathConfig {
    /// Path that will be watched.
    pub path: String,
    /// Sub-paths within the path to ignore.
    pub ignore: Option<Vec<String>>,
}

/// How to run one process or trigger command.
pub struct CommandConfig {
    /// Command to run.
    pub command: String,
    /// Arguments to supply to the command.
    pub args: Option<Vec<String>>,
    /// Working directory that the command will run in.
    pub working_dir: Option<String>,
    /// Environment variables for the command, in configured order.
    pub env: Option<Vec<(String, String)>>,
    /// Datagram port bound on the process side.
    pub process_port: Option<i32>,
    /// Datagram port bound on the connect side.
    pub connect_port: Option<i32>,
}

impl CommandConfig {
    /// The operator-facing form of the command: `command arg1 arg2 ...`.
    pub fn command_line(&self) -> (r: String)
        ensures
            r@ == spec_command_line(*self),
    {
        let mut r = self.command.clone();
        match &self.args {
            Some(a) => {
                r.append(" ");
                proof {
                    reveal_strlit(" ");
                    assert(r@ =~= self.command@ + seq![' '] + spec_join_spaces(
                        a.deep_view().take(0),
                    ));
                }
                let n = a.len();
                let mut i: usize = 0;
                while i < n
                    invariant
                        0 <= i <= n,
                        n == a@.len(),
                        r@ == self.command@ + seq![' '] + spec_join_spaces(
                            a.deep_view().take(i as int),
                        ),
                    decreases n - i,
                {
                    if i > 0 {
                        r.append(" ");
                        proof {
                            reveal_strlit(" ");
                        }
                    }
                    r.append(a[i].as_str());
                    proof {
                        assert(a.deep_view().take(i + 1).drop_last() =~= a.deep_view().take(
                            i as int,
                        ));
                        assert(r@ =~= self.command@ + seq![' '] + spec_join_spaces(
                            a.deep_view().take(i + 1),
                        ));
                    }
                    i += 1;
                }
                proof {
                    assert(a.deep_view().take(n as int) =~= a.deep_view());
                }
            },
            None => {},
        }
        r
    }
}

/// The whole configuration: watched paths, processes and triggers in
/// configured order, and the two scalar settings.
pub struct Config {
    /// Paths that will be watched.
    pub paths_to_watch: Vec<PathConfig>,
    /// Processes to run and monitor, in configured order, keyed by name.
    pub processes: Vec<(String, CommandConfig)>,
    /// Triggers that run when changes are detected, in configured order.
    pub triggers: Option<Vec<(String, CommandConfig)>>,
    /// Enable to get more detailed output.
    pub debug_mode: Option<bool>,
    /// Start of the port range to use.
    pub port_range_start: Option<i32>,
}

/// Whether no name in the sequence occurs twice.
pub open spec fn spec_distinct(names: Seq<Seq<char>>) -> bool {
    forall|i: int, j: int| 0 <= i < j < names.len() ==> names[i] != names[j]
}

/// The arguments joined by single spaces.
pub open spec fn spec_join_spaces(args: Seq<Seq<char>>) -> Seq<char>
    decreases args.len(),
{
    if args.len() == 0 {
        Seq::empty()
    } else if args.len() == 1 {
        args[0]
    } else {
        spec_join_spaces(args.drop_last()) + seq![' '] + args.last()
    }
}

/// The command line as shown to the operator: the command alone when no
/// arguments are configured, else the command, a space, and the arguments
/// joined by spaces.
pub open spec fn spec_command_line(cc: CommandConfig) -> Seq<char> {
    match cc.args {
        Some(a) => cc.command@ + seq![' '] + spec_join_spaces(a.deep_view()),
        None => cc.command@,
    }
}

/// Port assignment never collides: with the `i`-th process given the pair
/// `(base + 2 i, base + 2 i + 1)`, the two ports of a process differ and
/// two different processes share no port.
pub proof fn lemma_assigned_ports_distinct(base: int, i: int, j: int)
    requires
        0 <= i,
        0 <= j,
        i != j,
    ensures
        base + 2 * i != base + 2 * i + 1,
        base + 2 * i != base + 2 * j,
        base + 2 * i != base + 2 * j + 1,
        base + 2 * i + 1 != base + 2 * j + 1,
{
}

/// `cc` with its two ports replaced and every other field kept.
pub open spec fn spec_with_ports(cc: CommandConfig, pp: i32, cp: i32) -> CommandConfig {
    CommandConfig {
        command: cc.command,
        args: cc.args,
        working_dir: cc.working_dir,
        env: cc.env,
        process_port: Some(pp),
        connect_port: Some(cp),
    }
}

impl Config {
    /// The debug flag, `false` when the config leaves it out.
    pub open spec fn spec_in_debug_mode(&self) -> bool {
        match self.debug_mode {
            Some(b) => b,
            None => false,
        }
    }

    /// The port base, [`DEFAULT_PORT_RANGE_START`] when the config leaves
    /// it out.
    pub open spec fn spec_port_range_start(&self) -> i32 {
        match self.port_range_start {
            Some(p) => p,
            None => DEFAULT_PORT_RANGE_START,
        }
    }

    /// The configured process names, in order.
    pub open spec fn spec_process_names(&self) -> Seq<Seq<char>> {
        self.processes@.map(|i: int, p: (String, CommandConfig)| p.0@)
    }

    /// A well-formed config names every process once.
    pub open spec fn wf(&self) -> bool {
        spec_distinct(self.spec_process_names())
    }

    /// Whether detailed output is enabled.
    pub fn in_debug_mode(&self) -> (r: bool)
        ensures
            r == self.spec_in_debug_mode(),
    {
        match self.debug_mode {
            Some(b) => b,
            None => false,
        }
    }

    /// The start of the port range to assign attach ports from.
    pub fn port_range_start(&self) -> (r: i32)
        ensures
            r == self.spec_port_range_start(),
    {
        match self.port_range_start {
            Some(p) => p,
            None => DEFAULT_PORT_RANGE_START,
        }
    }

    /// Walks the processes in configured order and gives the `i`-th the
    /// port pair `(base + 2 i, base + 2 i + 1)`: no pair collides with
    /// another, and the assignment depends on the order alone.
    pub fn assign_ports(&mut self)
        requires
            old(self).spec_port_range_start() + 2 * old(self).processes@.len() <= i32::MAX,
        ensures
            final(self).paths_to_watch == old(self).paths_to_watch,
            final(self).triggers == old(self).triggers,
            final(self).debug_mode == old(self).debug_mode,
            final(self).port_range_start == old(self).port_range_start,
            final(self).processes@.len() == old(self).processes@.len(),
            forall|i: int|
                0 <= i < old(self).processes@.len() ==> final(self).processes@[i] == ((
                old(self).processes@[i].0,
                spec_with_ports(
                    old(self).processes@[i].1,
                    (old(self).spec_port_range_start() + 2 * i) as i32,
                    (old(self).spec_port_range_start() + 2 * i + 1) as i32,
                ),
            )),
    {
        let base = self.port_range_start();
        let mut remaining: Vec<(String, CommandConfig)> = Vec::new();
        core::mem::swap(&mut self.processes, &mut remaining);
        let ghost orig: Seq<(String, CommandConfig)> = remaining@;
        let n = remaining.len();
        let mut port: i32 = base;
        let mut i: usize = 0;
        while i < n
            invariant
                0 <= i <= n,
                n == orig.len(),
                base == old(self).spec_port_range_start(),
                base + 2 * n <= i32::MAX,
                port == base + 2 * i,
                remaining@ == orig.subrange(i as int, n as int),
                self.processes@.len() == i,
                self.paths_to_watch == old(self).paths_to_watch,
                self.triggers == old(self).triggers,
                self.debug_mode == old(self).debug_mode,
                self.port_range_start == old(self).port_range_start,
                forall|j: int|
                    0 <= j < i ==> self.processes@[j] == ((
                    orig[j].0,
                    spec_with_ports(orig[j].1, (base + 2 * j) as i32, (base + 2 * j + 1) as i32),
                )),
            decreases n - i,
        {
            let (name, mut cc) = remaining.remove(0);
            proof {
                assert(remaining@ =~= orig.subrange(i + 1, n as int));
            }
            cc.process_port = Some(port);
            port = port + 1;
            cc.connect_port = Some(port);
            port = port + 1;
            self.processes.push((name, cc));
            i += 1;
        }
    }
}

} // verus!
