//! Tasks: a scheduling state together with the behavior that runs while the
//! task is in the running state.
use vstd::prelude::*;

verus! {

/// Identifies a task within a scheduler: the index of the slot it occupies.
pub type TaskId = usize;

/// The identifier that stands for "no task". No scheduler ever hands it out.
pub const INVALID_ID: usize = usize::MAX;

/// The behavior of a task, supplied by the user of the scheduler.
///
/// A behavior may keep state of its own and change it on every call. What a
/// call may do to that state is described by `executes`, which each
/// implementation chooses; the scheduler promises only which calls it makes.
pub trait Execute {
    /// Whether one call of `execute(id)` on `self` may leave the behavior as
    /// `next`. An implementation that does not say leaves every outcome open.
    open spec fn executes(&self, id: TaskId, next: &Self) -> bool {
        true
    }

    /// Runs the behavior once on behalf of the task `id`.
    fn execute(&mut self, id: TaskId)
        ensures
            (*old(self)).executes(id, &*final(self)),
    ;
}

/// The scheduling state of a task. Every transition is an explicit call by the
/// owner of the task; the scheduler never changes a state on its own.
#[derive(Clone, Copy, Debug, PartialEq, Eq, Structural)]
pub enum TaskState {
    /// Reserved for tasks that wait for a signal; a waiting task is not executed.
    Waiting,
    /// Not scheduled until resumed.
    Suspended,
    /// Executed once per scheduler cycle.
    Running,
}

/// A schedulable unit: a state and the behavior to run.
pub struct Task<E: Execute> {
    pub state: TaskState,
    pub func: E,
}

/// A behavior that does nothing.
pub struct NopExecuter {}

impl Execute for NopExecuter {
    open spec fn executes(&self, id: TaskId, next: &Self) -> bool {
        *next == *self
    }

    fn execute(&mut self, id: TaskId) {
    }
}

impl<E: Execute> Task<E> {
    /// The task after `suspend`.
    pub open spec fn suspended(self) -> Self {
        Task { state: TaskState::Suspended, func: self.func }
    }

    /// The task after `resume`.
    pub open spec fn resumed(self) -> Self {
        Task { state: TaskState::Running, func: self.func }
    }

    /// Whether `process(id)` may turn `self` into `next`: the state stays, a
    /// running task has executed exactly once with `id`, and the behavior of a
    /// task in any other state is untouched.
    pub open spec fn processed(self, id: TaskId, next: Self) -> bool {
        &&& next.state == self.state
        &&& if self.state == TaskState::Running {
            self.func.executes(id, &next.func)
        } else {
            next.func == self.func
        }
    }

    /// Creates a task in the given state.
    pub fn new(state: TaskState, func: E) -> (task: Self)
        ensures
            task == (Task { state, func }),
    {
        Task { state, func }
    }

    /// Suspends the task: it is no longer executed.
    pub fn suspend(&mut self)
        ensures
            *final(self) == old(self).suspended(),
    {
        self.state = TaskState::Suspended;
    }

    /// Resumes the task: it is executed again.
    pub fn resume(&mut self)
        ensures
            *final(self) == old(self).resumed(),
    {
        self.state = TaskState::Running;
    }

    /// Executes the behavior once with `id` if the task is running, and does
    /// nothing otherwise.
    pub fn process(&mut self, id: TaskId)
        ensures
            old(self).processed(id, *final(self)),
    {
        match self.state {
            TaskState::Running => {
                self.func.execute(id);
            },
            TaskState::Waiting => {},
            TaskState::Suspended => {},
        }
    }

    /// Suspending twice is the same as suspending once.
    pub proof fn lemma_suspend_idempotent(self)
        ensures
            self.suspended().suspended() == self.suspended(),
    {
    }

    /// Resuming twice is the same as resuming once.
    pub proof fn lemma_resume_idempotent(self)
        ensures
            self.resumed().resumed() == self.resumed(),
    {
    }

    /// Processing a task that is not running changes nothing, whatever its
    /// behavior is.
    pub proof fn lemma_not_running_is_inert(self, id: TaskId, next: Self)
        requires
            self.state != TaskState::Running,
            self.processed(id, next),
        ensures
            next == self,
    {
    }
}

} // verus!
