use std::cell::RefCell;
use std::rc::Rc;

use lwos::{Execute, NopExecuter, Task, TaskId, TaskState, INVALID_ID};

struct SomeExecuter {}

impl Execute for SomeExecuter {
    fn execute(&mut self, _id: TaskId) {}
}

/// Records the identifier of every call.
struct Recorder {
    calls: Rc<RefCell<Vec<TaskId>>>,
}

impl Execute for Recorder {
    fn execute(&mut self, id: TaskId) {
        self.calls.borrow_mut().push(id);
    }
}

/// Counts its own calls.
struct Counting {
    count: usize,
}

impl Execute for Counting {
    fn execute(&mut self, _id: TaskId) {
        self.count += 1;
    }
}

#[test]
fn task_init() {
    let task_executer: SomeExecuter = SomeExecuter {};
    let t = Task::new(TaskState::Running, task_executer);
    assert_eq!(t.state, TaskState::Running);
}

#[test]
fn task_suspend_resume() {
    let task_executer: SomeExecuter = SomeExecuter {};
    let mut t: Task<SomeExecuter> = Task::new(TaskState::Suspended, task_executer);

    assert_eq!(t.state, TaskState::Suspended);
    t.resume();
    assert_eq!(t.state, TaskState::Running);
    t.suspend();
    assert_eq!(t.state, TaskState::Suspended);
}

#[test]
fn task_new_keeps_state_and_behavior() {
    let t = Task::new(TaskState::Waiting, Counting { count: 7 });
    assert_eq!(t.state, TaskState::Waiting);
    assert_eq!(t.func.count, 7);
}

#[test]
fn task_suspend_twice_is_suspend_once() {
    let mut once = Task::new(TaskState::Running, Counting { count: 3 });
    let mut twice = Task::new(TaskState::Running, Counting { count: 3 });
    once.suspend();
    twice.suspend();
    twice.suspend();
    assert_eq!(once.state, TaskState::Suspended);
    assert_eq!(twice.state, once.state);
    assert_eq!(twice.func.count, once.func.count);
}

#[test]
fn task_resume_twice_is_resume_once() {
    let mut once = Task::new(TaskState::Suspended, Counting { count: 3 });
    let mut twice = Task::new(TaskState::Suspended, Counting { count: 3 });
    once.resume();
    twice.resume();
    twice.resume();
    assert_eq!(once.state, TaskState::Running);
    assert_eq!(twice.state, once.state);
    assert_eq!(twice.func.count, once.func.count);
}

#[test]
fn task_resume_leaves_waiting_state() {
    let mut t = Task::new(TaskState::Waiting, SomeExecuter {});
    t.resume();
    assert_eq!(t.state, TaskState::Running);
    t.suspend();
    assert_eq!(t.state, TaskState::Suspended);
}

#[test]
fn task_process_running_executes_once_with_the_id() {
    let calls = Rc::new(RefCell::new(Vec::new()));
    let mut t = Task::new(TaskState::Running, Recorder { calls: calls.clone() });
    t.process(42);
    assert_eq!(*calls.borrow(), vec![42]);
    assert_eq!(t.state, TaskState::Running);
    t.process(7);
    assert_eq!(*calls.borrow(), vec![42, 7]);
}

#[test]
fn task_process_suspended_does_not_execute() {
    let mut t = Task::new(TaskState::Suspended, Counting { count: 0 });
    t.process(1);
    t.process(1);
    assert_eq!(t.func.count, 0);
    assert_eq!(t.state, TaskState::Suspended);
}

#[test]
fn task_process_waiting_does_not_execute() {
    let mut t = Task::new(TaskState::Waiting, Counting { count: 0 });
    t.process(1);
    assert_eq!(t.func.count, 0);
    assert_eq!(t.state, TaskState::Waiting);
}

#[test]
fn task_process_follows_suspend_and_resume() {
    let mut t = Task::new(TaskState::Running, Counting { count: 0 });
    t.process(0);
    assert_eq!(t.func.count, 1);
    t.suspend();
    t.process(0);
    assert_eq!(t.func.count, 1);
    t.resume();
    t.process(0);
    assert_eq!(t.func.count, 2);
}

#[test]
fn nop_executer_can_be_processed() {
    let mut t = Task::new(TaskState::Running, NopExecuter {});
    t.process(0);
    assert_eq!(t.state, TaskState::Running);
}

#[test]
fn invalid_id_is_the_largest_index() {
    assert_eq!(INVALID_ID, usize::MAX);
}
