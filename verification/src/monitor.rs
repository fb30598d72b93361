//! The supervisor state machine.
//!
//! The monitor owns the set of running process names and the time the last
//! restart completed. For every change event it decides: ignore it, absorb
//! it into the debounce window, or restart. A restart's bookkeeping is the
//! sequence kill-all, spawn-each, stamp-completion; the spawn transition is
//! enabled only while no handle for that name is live, which makes
//! spawn-over-spawn impossible by contract. The host process performs the
//! outside work (killing, spawning, reading the clock) and drives these
//! transitions in step.

use crate::change_event::ChangeEvent;
use crate::config::spec_distinct;
use crate::config::Config;
use crate::ignore::spec_ignore_prefixes;
use crate::ignore::Ignore;
use crate::DEBOUNCE_WINDOW_MS;
use vstd::prelude::*;

verus! {

/// What the supervisor does with one change event.
pub enum Decision {
    /// The path is under an ignored prefix: discard, no state change.
    Ignored,
    /// A restart completed too recently: discard, already covered.
    Debounced,
    /// Kill every process, run the triggers, respawn everything.
    Restart,
}

/// Whether an accepted event observed at `t` restarts the processes: always
/// on the first accepted event, afterwards only when `t` lies more than the
/// debounce window after the completion of the last restart. An event from
/// before that completion never restarts.
pub open spec fn spec_should_restart(last_completed: Option<u64>, t: u64) -> bool {
    match last_completed {
        None => true,
        Some(l) => l <= t && t - l > DEBOUNCE_WINDOW_MS,
    }
}

/// The supervisor: configuration, ignore matcher, the names of the
/// processes currently running, and when the last restart completed.
pub struct Monitor {
    config: Config,
    ignore: Ignore,
    running: Vec<String>,
    last_restart_at: Option<u64>,
}

impl Monitor {
    /// The configuration the monitor runs on.
    pub closed spec fn spec_config(&self) -> Config {
        self.config
    }

    /// The ignore matcher built from the configuration.
    pub closed spec fn spec_ignore(&self) -> Ignore {
        self.ignore
    }

    /// The names of the processes currently running, in spawn order.
    pub closed spec fn running_names(&self) -> Seq<Seq<char>> {
        self.running.deep_view()
    }

    /// When the last restart completed, if one has.
    pub closed spec fn spec_last_restart_at(&self) -> Option<u64> {
        self.last_restart_at
    }

    /// The decision for one change event.
    pub open spec fn spec_decide(&self, e: ChangeEvent) -> Decision {
        if self.spec_ignore().spec_should_ignore(e.path@) {
            Decision::Ignored
        } else if spec_should_restart(self.spec_last_restart_at(), e.time) {
            Decision::Restart
        } else {
            Decision::Debounced
        }
    }

    /// A fresh monitor: ignore matcher built from the watched paths (with
    /// `current_dir` resolving relative roots), nothing running, no
    /// restart recorded.
    pub fn new(config: Config, current_dir: &str) -> (m: Monitor)
        ensures
            m.spec_config() == config,
            m.spec_ignore().prefixes() == spec_ignore_prefixes(
                config.paths_to_watch@,
                current_dir@,
            ),
            m.running_names() == Seq::<Seq<char>>::empty(),
            m.spec_last_restart_at() is None,
    {
        let ignore = Ignore::new(&config, current_dir);
        let m = Monitor { config, ignore, running: Vec::new(), last_restart_at: None };
        proof {
            assert(m.running_names() =~= Seq::<Seq<char>>::empty());
        }
        m
    }

    /// The configuration, for the host to build spawn and trigger plans
    /// from.
    pub fn config(&self) -> (c: &Config)
        ensures
            *c == self.spec_config(),
    {
        &self.config
    }

    /// The names of the processes currently recorded as running, in spawn
    /// order.
    pub fn running_processes(&self) -> (v: &Vec<String>)
        ensures
            v.deep_view() == self.running_names(),
    {
        &self.running
    }

    /// Decides what to do with `event`: ignored when its path is covered
    /// by an ignored prefix, else restart exactly when
    /// [`spec_should_restart`] grants it, else debounced.
    pub fn decide(&self, event: &ChangeEvent) -> (d: Decision)
        ensures
            d == self.spec_decide(*event),
    {
        if self.ignore.should_ignore(event.path.as_str()) {
            return Decision::Ignored;
        }
        let restart = match self.last_restart_at {
            Some(l) => event.time >= l && event.time - l > DEBOUNCE_WINDOW_MS,
            None => true,
        };
        if restart {
            Decision::Restart
        } else {
            Decision::Debounced
        }
    }

    /// Records that every running process has been killed and waited on:
    /// afterwards no handle is live.
    pub fn record_kill_all(&mut self)
        ensures
            final(self).running_names() == Seq::<Seq<char>>::empty(),
            final(self).spec_config() == old(self).spec_config(),
            final(self).spec_ignore() == old(self).spec_ignore(),
            final(self).spec_last_restart_at() == old(self).spec_last_restart_at(),
    {
        self.running.clear();
        proof {
            assert(self.running_names() =~= Seq::<Seq<char>>::empty());
        }
    }

    /// Records one spawn. Enabled only while no handle for `name` is live:
    /// a spawn never overlaps an existing handle of the same name.
    pub fn record_spawn(&mut self, name: String)
        requires
            !old(self).running_names().contains(name@),
        ensures
            final(self).running_names() == old(self).running_names().push(name@),
            final(self).spec_config() == old(self).spec_config(),
            final(self).spec_ignore() == old(self).spec_ignore(),
            final(self).spec_last_restart_at() == old(self).spec_last_restart_at(),
    {
        let ghost nv: Seq<char> = name@;
        self.running.push(name);
        proof {
            assert(self.running_names() =~= old(self).running_names().push(nv));
        }
    }

    /// Records the spawn of every configured process, in configured
    /// order. Enabled only while nothing runs: each spawn then starts from
    /// a state without a live handle for its name.
    pub fn record_spawn_all(&mut self)
        requires
            old(self).spec_config().wf(),
            old(self).running_names().len() == 0,
        ensures
            final(self).running_names() == old(self).spec_config().spec_process_names(),
            final(self).spec_config() == old(self).spec_config(),
            final(self).spec_ignore() == old(self).spec_ignore(),
            final(self).spec_last_restart_at() == old(self).spec_last_restart_at(),
    {
        let ghost names: Seq<Seq<char>> = self.spec_config().spec_process_names();
        proof {
            assert(self.running_names() =~= names.take(0));
        }
        let n = self.config.processes.len();
        let mut i: usize = 0;
        while i < n
            invariant
                0 <= i <= n,
                n == self.spec_config().spec_process_names().len(),
                self.spec_config() == old(self).spec_config(),
                self.spec_ignore() == old(self).spec_ignore(),
                self.spec_last_restart_at() == old(self).spec_last_restart_at(),
                self.spec_config().wf(),
                names == self.spec_config().spec_process_names(),
                self.running_names() == names.take(i as int),
            decreases n - i,
        {
            let name = self.config.processes[i].0.clone();
            proof {
                lemma_restart_atomicity(names, i as int);
            }
            self.record_spawn(name);
            proof {
                assert(names.take(i + 1) =~= names.take(i as int).push(names[i as int]));
            }
            i += 1;
        }
        proof {
            assert(names.take(n as int) =~= names);
        }
    }

    /// The bookkeeping of one restart sequence, completed at
    /// `completed_at`: every handle killed first, then every configured
    /// process spawned in configured order, then the completion stamped.
    pub fn record_restart(&mut self, completed_at: u64)
        requires
            old(self).spec_config().wf(),
        ensures
            final(self).running_names() == old(self).spec_config().spec_process_names(),
            final(self).spec_last_restart_at() == Some(completed_at),
            final(self).spec_config() == old(self).spec_config(),
            final(self).spec_ignore() == old(self).spec_ignore(),
    {
        self.record_kill_all();
        self.record_spawn_all();
        self.last_restart_at = Some(completed_at);
    }
}

/// Restart atomicity: while respawning a list of distinct names, the names
/// already spawned (a strict prefix) never include the next one, so the
/// spawn transition for each name starts from a state in which no handle
/// for that name is live.
pub proof fn lemma_restart_atomicity(names: Seq<Seq<char>>, i: int)
    requires
        spec_distinct(names),
        0 <= i < names.len(),
    ensures
        !names.take(i).contains(names[i]),
{
    if names.take(i).contains(names[i]) {
        let j = choose|j: int| 0 <= j < i && names.take(i)[j] == names[i];
        assert(names[j] == names[i]);
        assert(false);
    }
}

/// The first accepted change always restarts: with no restart recorded,
/// a non-ignored event decides `Restart`.
pub proof fn lemma_first_event_restarts(m: Monitor, e: ChangeEvent)
    requires
        m.spec_last_restart_at() is None,
        !m.spec_ignore().spec_should_ignore(e.path@),
    ensures
        m.spec_decide(e) == Decision::Restart,
{
}

/// Debounce: let a restart caused by an accepted event at `e1.time` have
/// completed at `completed_at` (not before the event). A second accepted
/// event within the debounce window of the first is absorbed — no second
/// restart sequence runs; one observed more than the window after the
/// completion restarts again.
pub proof fn lemma_debounce(m: Monitor, e1: ChangeEvent, e2: ChangeEvent, completed_at: u64)
    requires
        !m.spec_ignore().spec_should_ignore(e2.path@),
        m.spec_last_restart_at() == Some(completed_at),
        e1.time <= completed_at,
        e1.time <= e2.time,
    ensures
        e2.time - e1.time <= DEBOUNCE_WINDOW_MS ==> m.spec_decide(e2) == Decision::Debounced,
        e2.time > completed_at + DEBOUNCE_WINDOW_MS ==> m.spec_decide(e2) == Decision::Restart,
{
}

} // verus!
