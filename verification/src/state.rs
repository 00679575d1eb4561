//! The shared service state and its controller: the target list, the running
//! flag, the bookkeeping of spawned ping loops, and the bounded event log,
//! together with the five operations (start, stop, add, remove, reload) and
//! the read-only queries. The surrounding program holds one value of
//! [`ServiceState`] behind its lock and performs the spawning, sleeping and
//! network work that each operation's returned spawn plan asks for.

use vstd::prelude::*;
use crate::errors::ControlError;
use crate::logbuf::{LogBuffer, trimmed, tail_spec, LOG_CAP};
use crate::target::{
    Target,
    TargetV,
    all_wf,
    clone_targets,
    has_url,
    remove_url,
    urls_of,
};

verus! {

/// Bookkeeping record for one spawned ping loop: the URL of the target the
/// loop was spawned for. The loop itself only ever reacts to the running
/// flag; the handle is never used to cancel it.
#[derive(Debug)]
pub struct LoopHandle {
    pub url: String,
}

impl View for LoopHandle {
    type V = Seq<char>;

    open spec fn view(&self) -> Seq<char> {
        self.url@
    }
}

impl DeepView for LoopHandle {
    type V = Seq<char>;

    open spec fn deep_view(&self) -> Seq<char> {
        self.url@
    }
}

/// Spec-level value of the whole service state.
pub struct StateV {
    pub targets: Seq<TargetV>,
    pub running: bool,
    pub loops: Seq<Seq<char>>,
    pub logs: Seq<Seq<char>>,
}

/// The mutable aggregate of the service. All reads and writes go through the
/// methods below; the surrounding program serializes them behind one lock.
#[derive(Debug)]
pub struct ServiceState {
    targets: Vec<Target>,
    running: bool,
    handles: Vec<LoopHandle>,
    logs: LogBuffer,
}

/// Snapshot returned by [`ServiceState::status`].
#[derive(Debug)]
pub struct StatusReport {
    pub running: bool,
    pub targets: Vec<Target>,
    pub logs_count: usize,
}

impl View for ServiceState {
    type V = StateV;

    closed spec fn view(&self) -> StateV {
        StateV {
            targets: self.targets.deep_view(),
            running: self.running,
            loops: self.handles.deep_view(),
            logs: self.logs@,
        }
    }
}

/// Builds one bookkeeping handle per target, in target order.
fn handles_for(ts: &Vec<Target>) -> (r: Vec<LoopHandle>)
    ensures
        r.deep_view() == urls_of(ts.deep_view()),
{
    let mut r: Vec<LoopHandle> = Vec::new();
    let mut i: usize = 0;
    while i < ts.len()
        invariant
            0 <= i <= ts.len(),
            r.deep_view() == urls_of(ts.deep_view().take(i as int)),
        decreases ts.len() - i,
    {
        let ghost pre = r.deep_view();
        r.push(LoopHandle { url: ts[i].url.clone() });
        proof {
            assert(pre.len() == i);
            assert forall|j: int|
                0 <= j < i + 1 implies r.deep_view()[j] == ts.deep_view()[j].url by {
                if j < i {
                    assert(pre[j] == urls_of(ts.deep_view().take(i as int))[j]);
                }
            }
            assert(r.deep_view() =~= urls_of(ts.deep_view().take((i + 1) as int)));
        }
        i = i + 1;
    }
    proof {
        assert(ts.deep_view().take(ts.len() as int) =~= ts.deep_view());
        assert(r.deep_view() =~= urls_of(ts.deep_view()));
    }
    r
}

/// Whether some target in `ts` has the URL `url`.
fn has_url_exec(ts: &Vec<Target>, url: &String) -> (r: bool)
    ensures
        r == has_url(ts.deep_view(), url@),
{
    let mut i: usize = 0;
    while i < ts.len()
        invariant
            0 <= i <= ts.len(),
            forall|j: int| 0 <= j < i ==> ts.deep_view()[j].url != url@,
        decreases ts.len() - i,
    {
        if ts[i].url == *url {
            proof {
                assert(ts.deep_view()[i as int].url == url@);
            }
            return true;
        }
        i = i + 1;
    }
    false
}

impl ServiceState {
    /// Internal invariant: every target has a non-empty delay range, the log
    /// is within its cap, and the loop bookkeeping mirrors the target list
    /// exactly while running and is empty while stopped.
    pub open spec fn wf(&self) -> bool {
        &&& all_wf(self@.targets)
        &&& self@.logs.len() <= LOG_CAP
        &&& self@.running ==> self@.loops == urls_of(self@.targets)
        &&& !self@.running ==> self@.loops.len() == 0
    }

    /// A fresh, stopped service over the given initial targets.
    pub fn new(targets: Vec<Target>) -> (r: ServiceState)
        requires
            all_wf(targets.deep_view()),
        ensures
            r.wf(),
            r@.targets == targets.deep_view(),
            !r@.running,
            r@.loops.len() == 0,
            r@.logs.len() == 0,
    {
        ServiceState { targets, running: false, handles: Vec::new(), logs: LogBuffer::new() }
    }

    /// Starts the scheduler. Fails with `AlreadyRunning` (mutating nothing)
    /// if it is already running; otherwise sets the running flag, records one
    /// loop handle per target, and returns the targets a loop must be spawned
    /// for.
    pub fn start(&mut self) -> (r: Result<Vec<Target>, ControlError>)
        requires
            old(self).wf(),
        ensures
            final(self).wf(),
            old(self)@.running ==> ({
                &&& r matches Err(e) && e == ControlError::AlreadyRunning
                &&& final(self)@ == old(self)@
            }),
            !old(self)@.running ==> ({
                &&& r matches Ok(plan) && plan.deep_view() == old(self)@.targets
                &&& final(self)@.running
                &&& final(self)@.targets == old(self)@.targets
                &&& final(self)@.loops == urls_of(old(self)@.targets)
                &&& final(self)@.logs == old(self)@.logs
            }),
    {
        if self.running {
            return Err(ControlError::AlreadyRunning);
        }
        self.running = true;
        self.handles = handles_for(&self.targets);
        Ok(clone_targets(&self.targets))
    }

    /// Stops the scheduler. Fails with `AlreadyStopped` (mutating nothing)
    /// if it is already stopped; otherwise clears the running flag and the
    /// loop bookkeeping. The loops themselves are not cancelled: each one
    /// exits at its next poll of the flag.
    pub fn stop(&mut self) -> (r: Result<(), ControlError>)
        requires
            old(self).wf(),
        ensures
            final(self).wf(),
            !old(self)@.running ==> ({
                &&& r matches Err(e) && e == ControlError::AlreadyStopped
                &&& final(self)@ == old(self)@
            }),
            old(self)@.running ==> ({
                &&& r is Ok
                &&& !final(self)@.running
                &&& final(self)@.targets == old(self)@.targets
                &&& final(self)@.loops.len() == 0
                &&& final(self)@.logs == old(self)@.logs
            }),
    {
        if !self.running {
            return Err(ControlError::AlreadyStopped);
        }
        self.running = false;
        self.handles = Vec::new();
        proof {
            assert(self@.loops =~= Seq::<Seq<char>>::empty());
        }
        Ok(())
    }

    /// Appends `t` to the target list. Fails with `DuplicateTarget`
    /// (mutating nothing) if some target already has its URL. When running,
    /// performs the full restart: the flag is toggled off and on, the handles
    /// are rebuilt for the grown list, and the whole list is returned as the
    /// spawn plan; the old loops exit at their next poll. When stopped, only
    /// the list grows and the plan is empty.
    pub fn add_target(&mut self, t: Target) -> (r: Result<Vec<Target>, ControlError>)
        requires
            old(self).wf(),
            t@.wf(),
        ensures
            final(self).wf(),
            has_url(old(self)@.targets, t@.url) ==> ({
                &&& r matches Err(e) && e == ControlError::DuplicateTarget
                &&& final(self)@ == old(self)@
            }),
            !has_url(old(self)@.targets, t@.url) ==> ({
                &&& final(self)@.targets == old(self)@.targets.push(t@)
                &&& final(self)@.running == old(self)@.running
                &&& final(self)@.logs == old(self)@.logs
                &&& final(self)@.loops == if old(self)@.running {
                    urls_of(old(self)@.targets.push(t@))
                } else {
                    old(self)@.loops
                }
                &&& r matches Ok(plan) && plan.deep_view() == if old(self)@.running {
                    old(self)@.targets.push(t@)
                } else {
                    Seq::<TargetV>::empty()
                }
            }),
    {
        if has_url_exec(&self.targets, &t.url) {
            return Err(ControlError::DuplicateTarget);
        }
        let ghost before = self@.targets;
        self.targets.push(t);
        proof {
            assert(self@.targets =~= before.push(t@));
        }
        if self.running {
            // Full restart: flipping the flag off and on is how the old
            // loops are told to exit while the new list becomes live.
            self.running = false;
            self.handles = Vec::new();
            self.running = true;
            self.handles = handles_for(&self.targets);
            Ok(clone_targets(&self.targets))
        } else {
            let plan: Vec<Target> = Vec::new();
            proof {
                assert(plan.deep_view() =~= Seq::<TargetV>::empty());
            }
            Ok(plan)
        }
    }

    /// Removes every target with the given URL. Fails with `TargetNotFound`
    /// (mutating nothing) if none has it. When running, performs the same
    /// full restart as `add_target`, over the shrunk list.
    pub fn remove_target(&mut self, url: &String) -> (r: Result<Vec<Target>, ControlError>)
        requires
            old(self).wf(),
        ensures
            final(self).wf(),
            !has_url(old(self)@.targets, url@) ==> ({
                &&& r matches Err(e) && e == ControlError::TargetNotFound
                &&& final(self)@ == old(self)@
            }),
            has_url(old(self)@.targets, url@) ==> ({
                &&& final(self)@.targets == remove_url(old(self)@.targets, url@)
                &&& final(self)@.running == old(self)@.running
                &&& final(self)@.logs == old(self)@.logs
                &&& final(self)@.loops == if old(self)@.running {
                    urls_of(remove_url(old(self)@.targets, url@))
                } else {
                    old(self)@.loops
                }
                &&& r matches Ok(plan) && plan.deep_view() == if old(self)@.running {
                    remove_url(old(self)@.targets, url@)
                } else {
                    Seq::<TargetV>::empty()
                }
            }),
    {
        if !has_url_exec(&self.targets, url) {
            return Err(ControlError::TargetNotFound);
        }
        let ghost before = self@.targets;
        let mut kept: Vec<Target> = Vec::new();
        let mut i: usize = 0;
        proof {
            reveal_with_fuel(Seq::filter, 2);
            assert(kept.deep_view() =~= Seq::<TargetV>::empty());
            assert(before.take(0) =~= Seq::<TargetV>::empty());
            assert(remove_url(before.take(0), url@) =~= Seq::<TargetV>::empty());
        }
        while i < self.targets.len()
            invariant
                0 <= i <= self.targets.len(),
                before == self.targets.deep_view(),
                all_wf(before),
                kept.deep_view() == remove_url(before.take(i as int), url@),
            decreases self.targets.len() - i,
        {
            let ghost pre = kept.deep_view();
            proof {
                reveal_with_fuel(Seq::filter, 2);
                let prefix = before.take((i + 1) as int);
                assert(prefix.drop_last() =~= before.take(i as int));
                assert(prefix.last() == before[i as int]);
            }
            if !(self.targets[i].url == *url) {
                kept.push(self.targets[i].duplicate());
                proof {
                    assert(pre.len() <= i);
                    assert(kept.deep_view() =~= pre.push(before[i as int]));
                }
            }
            i = i + 1;
        }
        proof {
            assert(before.take(before.len() as int) =~= before);
            crate::target::lemma_remove_keeps_wf(before, url@);
        }
        self.targets = kept;
        if self.running {
            self.running = false;
            self.handles = Vec::new();
            self.running = true;
            self.handles = handles_for(&self.targets);
            Ok(clone_targets(&self.targets))
        } else {
            let plan: Vec<Target> = Vec::new();
            proof {
                assert(plan.deep_view() =~= Seq::<TargetV>::empty());
            }
            Ok(plan)
        }
    }

    /// Replaces the target list wholesale with a freshly loaded one. A failed
    /// load fails with `ReloadFailed`, carrying the load's reason verbatim
    /// and mutating nothing. A loaded list is trusted as-is, with no
    /// uniqueness re-check against the old list. When running, performs the
    /// full restart over the new list.
    pub fn reload(&mut self, loaded: Result<Vec<Target>, String>) -> (r: Result<
        Vec<Target>,
        ControlError,
    >)
        requires
            old(self).wf(),
            loaded matches Ok(ts) ==> all_wf(ts.deep_view()),
        ensures
            final(self).wf(),
            loaded matches Err(reason) ==> ({
                &&& r matches Err(e) && e matches ControlError::ReloadFailed(m) && m@ == reason@
                &&& final(self)@ == old(self)@
            }),
            loaded matches Ok(ts) ==> ({
                &&& final(self)@.targets == ts.deep_view()
                &&& final(self)@.running == old(self)@.running
                &&& final(self)@.logs == old(self)@.logs
                &&& final(self)@.loops == if old(self)@.running {
                    urls_of(ts.deep_view())
                } else {
                    old(self)@.loops
                }
                &&& r matches Ok(plan) && plan.deep_view() == if old(self)@.running {
                    ts.deep_view()
                } else {
                    Seq::<TargetV>::empty()
                }
            }),
    {
        match loaded {
            Err(reason) => Err(ControlError::ReloadFailed(reason)),
            Ok(ts) => {
                self.targets = ts;
                if self.running {
                    self.running = false;
                    self.handles = Vec::new();
                    self.running = true;
                    self.handles = handles_for(&self.targets);
                    Ok(clone_targets(&self.targets))
                } else {
                    let plan: Vec<Target> = Vec::new();
                    proof {
                        assert(plan.deep_view() =~= Seq::<TargetV>::empty());
                    }
                    Ok(plan)
                }
            },
        }
    }

    /// Snapshot of the running flag, the target list and the log count.
    pub fn status(&self) -> (r: StatusReport)
        ensures
            r.running == self@.running,
            r.targets.deep_view() == self@.targets,
            r.logs_count == self@.logs.len(),
    {
        StatusReport {
            running: self.running,
            targets: clone_targets(&self.targets),
            logs_count: self.logs.len(),
        }
    }

    /// Snapshot of the target list.
    pub fn list_targets(&self) -> (r: Vec<Target>)
        ensures
            r.deep_view() == self@.targets,
    {
        clone_targets(&self.targets)
    }

    /// The last `min(n, log length)` log entries, oldest first, as a
    /// snapshot.
    pub fn tail_logs(&self, n: usize) -> (r: Vec<String>)
        ensures
            r.deep_view() == tail_spec(self@.logs, n as int),
            r.len() == if n as int <= self@.logs.len() {
                n as int
            } else {
                self@.logs.len() as int
            },
    {
        self.logs.tail(n)
    }

    /// Appends one entry to the event log, evicting the oldest entries if
    /// the cap would be exceeded. Nothing else changes.
    pub fn append_log(&mut self, message: String)
        requires
            old(self).wf(),
        ensures
            final(self).wf(),
            final(self)@.logs == trimmed(old(self)@.logs.push(message@)),
            final(self)@.targets == old(self)@.targets,
            final(self)@.running == old(self)@.running,
            final(self)@.loops == old(self)@.loops,
    {
        self.logs.append(message);
    }

    /// Whether the scheduler is currently meant to be active. This is the
    /// single poll point of a ping loop's cooperative cancellation.
    pub fn is_running(&self) -> (r: bool)
        ensures
            r == self@.running,
    {
        self.running
    }
}

} // verus!
