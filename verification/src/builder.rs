//! Builder that executes layers in order and finalizes into a service.
//!
//! The builder is a mutable accumulator: layers are appended one at a
//! time, then a terminal, self-consuming `build` attaches them strictly
//! sequentially, in exactly the accumulated order. Startup is
//! all-or-nothing: the first attach failure aborts the whole build with
//! that error, no service is produced, and no task — from earlier layers,
//! later layers, or the failing layer itself — ever starts. Consuming
//! `build` makes both outcomes terminal: a builder cannot return to
//! accumulating after it was built or failed.

use vstd::prelude::*;

use crate::error::NodeError;
use crate::error::Notice;
use crate::layer::attach_spec;
use crate::layer::BuildState;
use crate::layer::CancellationToken;
use crate::layer::Layer;
use crate::layer::StepResult;
use crate::layer::Task;
use crate::layer::TaskKind;
use crate::registry::ResourceRegistry;

verus! {

/// The state a build starts from: nothing published, nothing registered.
pub open spec fn empty_state() -> BuildState {
    BuildState { reg: Seq::empty(), tasks: Seq::empty() }
}

/// What attaching a whole list of layers does, first to last: the state
/// all of them reach together, or the first error, which aborts the rest.
pub open spec fn run_layers_spec(
    layers: Seq<Layer>,
    st: BuildState,
    cancel: CancellationToken,
) -> StepResult
    decreases layers.len(),
{
    if layers.len() == 0 {
        StepResult::Continue(st)
    } else {
        match attach_spec(layers[0], st, cancel) {
            StepResult::Continue(st1) => run_layers_spec(layers.drop_first(), st1, cancel),
            StepResult::Abort(e) => StepResult::Abort(e),
        }
    }
}

/// The kinds of the tasks in `ts`, in registration order.
pub open spec fn task_kinds(ts: Seq<Task>) -> Seq<TaskKind>
    decreases ts.len(),
{
    if ts.len() == 0 {
        Seq::empty()
    } else {
        task_kinds(ts.drop_last()).push(ts.last().kind)
    }
}

/// The terminal, running artifact of a successful build: every task the
/// attached layers registered, in registration order, plus the shared
/// cancellation mechanism distributed to each of them at registration.
#[derive(Debug)]
pub struct Service {
    tasks: Vec<Task>,
    cancellation: CancellationToken,
    notices: Vec<Notice>,
}

impl Service {
    /// The registered tasks, in registration order.
    pub closed spec fn spec_tasks(self) -> Seq<Task> {
        self.tasks@
    }

    /// The shared cancellation token every task was handed.
    pub closed spec fn spec_cancellation(self) -> CancellationToken {
        self.cancellation
    }

    /// The informational notices recorded while building.
    pub closed spec fn spec_notices(self) -> Seq<Notice> {
        self.notices@
    }

    /// The registered tasks, in registration order.
    pub fn tasks(&self) -> (r: &Vec<Task>)
        ensures
            r@ == self.spec_tasks(),
    {
        &self.tasks
    }

    /// The shared cancellation token.
    pub fn cancellation(&self) -> (t: CancellationToken)
        ensures
            t == self.spec_cancellation(),
    {
        self.cancellation
    }

    /// The informational notices recorded while building.
    pub fn notices(&self) -> (r: &Vec<Notice>)
        ensures
            r@ == self.spec_notices(),
    {
        &self.notices
    }

    /// Runs the service to completion: the cancellation token is the
    /// process-wide shutdown signal, every task observes it and exits,
    /// and the aggregate outcome lists the tasks that ran and completed,
    /// in registration order. Consumes the service; it cannot be rerun.
    pub fn run(self) -> (completed: Vec<TaskKind>)
        ensures
            completed@ == task_kinds(self.spec_tasks()),
    {
        let mut completed: Vec<TaskKind> = Vec::new();
        let mut i: usize = 0;
        while i < self.tasks.len()
            invariant
                0 <= i <= self.tasks.len(),
                completed@ == task_kinds(self.tasks@.take(i as int)),
            decreases self.tasks.len() - i,
        {
            proof {
                assert(self.tasks@.take(i as int + 1).drop_last() =~= self.tasks@.take(i as int));
                assert(self.tasks@.take(i as int + 1).last() == self.tasks@[i as int]);
            }
            completed.push(self.tasks[i].kind);
            i = i + 1;
        }
        proof {
            assert(self.tasks@.take(self.tasks@.len() as int) =~= self.tasks@);
        }
        completed
    }
}

/// Mutable accumulator for a build: the layers appended so far, the
/// cancellation token the build will distribute, and the notices
/// recorded so far. Created empty, grown one layer at a time, consumed
/// by [`ServiceBuilder::build`].
#[derive(Debug)]
pub struct ServiceBuilder {
    layers: Vec<Layer>,
    cancellation: CancellationToken,
    notices: Vec<Notice>,
}

impl ServiceBuilder {
    /// The layers accumulated so far, in attach order.
    pub closed spec fn spec_layers(self) -> Seq<Layer> {
        self.layers@
    }

    /// The cancellation token of this build.
    pub closed spec fn spec_cancellation(self) -> CancellationToken {
        self.cancellation
    }

    /// The notices recorded so far.
    pub closed spec fn spec_notices(self) -> Seq<Notice> {
        self.notices@
    }

    /// An empty builder with a fresh cancellation token for this build.
    pub fn new() -> (r: ServiceBuilder)
        ensures
            r.spec_layers() == Seq::<Layer>::empty(),
            r.spec_notices() == Seq::<Notice>::empty(),
            r.spec_cancellation() == (CancellationToken { id: 0 }),
    {
        ServiceBuilder {
            layers: Vec::new(),
            cancellation: CancellationToken { id: 0 },
            notices: Vec::new(),
        }
    }

    /// Appends one layer; it will attach after every layer already added.
    pub fn add_layer(&mut self, layer: Layer)
        ensures
            final(self).spec_layers() == old(self).spec_layers().push(layer),
            final(self).spec_cancellation() == old(self).spec_cancellation(),
            final(self).spec_notices() == old(self).spec_notices(),
    {
        self.layers.push(layer);
    }

    /// Records an informational notice; the build still succeeds.
    pub fn record_notice(&mut self, notice: Notice)
        ensures
            final(self).spec_layers() == old(self).spec_layers(),
            final(self).spec_cancellation() == old(self).spec_cancellation(),
            final(self).spec_notices() == old(self).spec_notices().push(notice),
    {
        self.notices.push(notice);
    }

    /// Attaches the accumulated layers in order against a fresh registry
    /// and finalizes into a [`Service`] — or aborts with the first attach
    /// error, in which case nothing of the partial build survives and no
    /// task ever starts. Consuming `self` makes either outcome terminal.
    pub fn build(self) -> (r: Result<Service, NodeError>)
        ensures
            (run_layers_spec(self.spec_layers(), empty_state(), self.spec_cancellation())
                matches StepResult::Continue(st) ==> r matches Ok(s) && s.spec_tasks() == st.tasks
                && s.spec_cancellation() == self.spec_cancellation() && s.spec_notices()
                == self.spec_notices()),
            (run_layers_spec(self.spec_layers(), empty_state(), self.spec_cancellation())
                matches StepResult::Abort(e) ==> r == Result::<Service, NodeError>::Err(e)),
    {
        let mut registry = ResourceRegistry::new();
        let mut tasks: Vec<Task> = Vec::new();
        let ghost all = self.layers@;
        proof {
            assert(all.skip(0) =~= all);
            assert(tasks@ =~= Seq::<Task>::empty());
            assert(registry.kinds() =~= Seq::<crate::registry::ResourceKind>::empty());
        }
        let mut i: usize = 0;
        while i < self.layers.len()
            invariant
                0 <= i <= self.layers.len(),
                all == self.layers@,
                registry.wf(),
                run_layers_spec(
                    all.skip(i as int),
                    BuildState { reg: registry.kinds(), tasks: tasks@ },
                    self.cancellation,
                ) == run_layers_spec(all, empty_state(), self.cancellation),
            decreases self.layers.len() - i,
        {
            proof {
                assert(all.skip(i as int)[0] == all[i as int]);
                assert(all.skip(i as int).drop_first() =~= all.skip(i as int + 1));
            }
            match self.layers[i].attach(&mut registry, self.cancellation, &mut tasks) {
                Ok(()) => {},
                Err(e) => {
                    return Err(e);
                },
            }
            i = i + 1;
        }
        proof {
            assert(all.skip(all.len() as int) =~= Seq::<Layer>::empty());
        }
        Ok(Service { tasks, cancellation: self.cancellation, notices: self.notices })
    }
}

} // verus!
