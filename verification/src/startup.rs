//! Starting the containers of a pod.
//!
//! A pod's containers are started one at a time, in the pod's order. Each
//! container runs the wasm module that was fetched for it under its name;
//! each container that comes up is recorded under its name, and the first
//! one that fails ends the start of the whole pod. The outside work (running
//! the actor, reporting its status) is done by the caller between the steps.

use crate::registry::Registry;
use vstd::prelude::*;

verus! {

/// The progress of starting one pod: `M` is a container's module, `H` the
/// handle of a container that runs.
pub struct PodStartup<M, H> {
    containers: Vec<String>,
    modules: Registry<M>,
    started: Registry<H>,
    next: usize,
    awaiting: bool,
}

impl<M, H> PodStartup<M, H> {
    /// The names of the pod's containers, in start order.
    pub closed spec fn names(&self) -> Seq<Seq<char>> {
        self.containers@.map_values(|c: String| c@)
    }

    /// How many containers have been handed out to be started.
    pub closed spec fn launched(&self) -> nat {
        self.next as nat
    }

    /// The modules not yet handed out, by container name.
    pub closed spec fn modules_left(&self) -> Map<Seq<char>, M> {
        self.modules@
    }

    /// The containers that run, by name.
    pub closed spec fn running(&self) -> Map<Seq<char>, H> {
        self.started@
    }

    /// Whether the container handed out last has not been reported on yet.
    pub closed spec fn awaiting_report(&self) -> bool {
        self.awaiting
    }

    /// The internal invariant: only containers that were handed out run.
    pub closed spec fn wf(&self) -> bool {
        &&& self.modules.wf()
        &&& self.started.wf()
        &&& self.next <= self.containers.len()
        &&& self.awaiting ==> self.next > 0
        &&& forall|k: Seq<char>|
            #[trigger] self.started@.dom().contains(k) ==> exists|i: int|
                0 <= i < self.next && self.names()[i] == k
        &&& forall|i: int|
            0 <= i < self.next && !(self.awaiting && i == self.next - 1)
                ==> self.started@.dom().contains(#[trigger] self.names()[i])
    }

    /// Whether the next container to start, if any, has a module.
    pub open spec fn next_has_module(&self) -> bool {
        self.launched() < self.names().len() ==> self.modules_left().dom().contains(
            self.names()[self.launched() as int],
        )
    }

    /// Begins starting a pod with these containers and the modules fetched for it.
    pub fn new(containers: Vec<String>, modules: Registry<M>) -> (r: Self)
        requires
            modules.wf(),
        ensures
            r.wf(),
            r.names() == containers@.map_values(|c: String| c@),
            r.launched() == 0,
            r.modules_left() == modules@,
            r.running() == Map::<Seq<char>, H>::empty(),
            !r.awaiting_report(),
    {
        PodStartup { containers, modules, started: Registry::new(), next: 0, awaiting: false }
    }

    /// Whether the next container to start, if any, has a module.
    pub fn next_module_ready(&self) -> (r: bool)
        requires
            self.wf(),
        ensures
            r == self.next_has_module(),
    {
        if self.next < self.containers.len() {
            self.modules.contains_key(self.containers[self.next].as_str())
        } else {
            true
        }
    }

    /// Hands out the next container to start, with its module; `None` once
    /// every container has been handed out. The container handed out before
    /// must have been reported running first.
    pub fn next_launch(&mut self) -> (r: Option<(String, M)>)
        requires
            old(self).wf(),
            old(self).next_has_module(),
            !old(self).awaiting_report(),
        ensures
            final(self).wf(),
            final(self).names() == old(self).names(),
            final(self).running() == old(self).running(),
            match r {
                Some((name, module)) => {
                    &&& old(self).launched() < old(self).names().len()
                    &&& name@ == old(self).names()[old(self).launched() as int]
                    &&& module == old(self).modules_left()[name@]
                    &&& final(self).launched() == old(self).launched() + 1
                    &&& final(self).modules_left() == old(self).modules_left().remove(name@)
                    &&& final(self).awaiting_report()
                },
                None => {
                    &&& old(self).launched() == old(self).names().len()
                    &&& final(self).launched() == old(self).launched()
                    &&& final(self).modules_left() == old(self).modules_left()
                    &&& !final(self).awaiting_report()
                },
            },
    {
        if self.next < self.containers.len() {
            let name = self.containers[self.next].clone();
            let module = self.modules.remove(name.as_str());
            match module {
                Some(m) => {
                    self.next = self.next + 1;
                    self.awaiting = true;
                    proof {
                        assert forall|k: Seq<char>|
                            #[trigger] self.started@.dom().contains(k) implies exists|i: int|
                                0 <= i < self.next && self.names()[i] == k by {
                            let i: int = choose|i: int|
                                0 <= i < old(self).next && old(self).names()[i] == k;
                            assert(self.names()[i] == k);
                        }
                    }
                    Some((name, m))
                },
                None => {
                    proof {
                        assert(self.names()[self.next as int] == name@);
                    }
                    None
                },
            }
        } else {
            None
        }
    }

    /// Records that the container handed out last, `name`, runs, with its handle.
    pub fn record_running(&mut self, name: String, handle: H)
        requires
            old(self).wf(),
            old(self).awaiting_report(),
            name@ == old(self).names()[old(self).launched() - 1],
        ensures
            final(self).wf(),
            final(self).names() == old(self).names(),
            final(self).launched() == old(self).launched(),
            final(self).modules_left() == old(self).modules_left(),
            final(self).running() == old(self).running().insert(name@, handle),
            !final(self).awaiting_report(),
    {
        let ghost last: int = self.next - 1;
        self.started.insert(name, handle);
        self.awaiting = false;
        proof {
            assert forall|k: Seq<char>|
                #[trigger] self.started@.dom().contains(k) implies exists|i: int|
                    0 <= i < self.next && self.names()[i] == k by {
                if k != self.names()[last] {
                    assert(old(self).started@.dom().contains(k));
                }
            }
        }
    }

    /// Ends the start of the pod because the container handed out last
    /// failed: nothing more is started and the containers that run are given
    /// up. The answer is the failed container's status message and the
    /// pod's error.
    pub fn fail(self, status_detail: &str, error_detail: &str) -> (r: (String, String))
        requires
            self.wf(),
            self.awaiting_report(),
        ensures
            r.0@ == "Error while starting container: "@ + status_detail@,
            r.1@ == "Failed to run pod: "@ + error_detail@,
    {
        (container_start_failure(status_detail), pod_start_failure(error_detail))
    }

    /// The handles of the containers that run, by name, once every container
    /// was handed out and reported running.
    pub fn into_running(self) -> (r: Registry<H>)
        requires
            self.wf(),
            !self.awaiting_report(),
        ensures
            r.wf(),
            r@ == self.running(),
            forall|k: Seq<char>|
                r@.dom().contains(k) <==> exists|i: int|
                    0 <= i < self.launched() && #[trigger] self.names()[i] == k,
    {
        self.started
    }
}

/// The status message of a container that failed to start.
pub fn container_start_failure(detail: &str) -> (r: String)
    ensures
        r@ == "Error while starting container: "@ + detail@,
{
    String::from_str("Error while starting container: ").concat(detail)
}

/// The error of a pod one of whose containers failed to start.
pub fn pod_start_failure(detail: &str) -> (r: String)
    ensures
        r@ == "Failed to run pod: "@ + detail@,
{
    String::from_str("Failed to run pod: ").concat(detail)
}

} // verus!
