//! The scheduler works in cooperative mode. Tasks can be added and removed,
//! and one cycle executes the running tasks in the order of their slots.
use vstd::prelude::*;
use crate::slots::{
    find_vacant, first_vacant, is_first_vacant, is_full, lemma_first_vacant, placed, vacant_table,
};
use crate::task::{Execute, Task, TaskId, TaskState, INVALID_ID};

verus! {

/// Why a scheduler operation was refused.
#[derive(Clone, Copy, Debug, PartialEq, Eq, Structural)]
pub enum Error {
    /// Every slot is occupied.
    LimitExceeded,
    /// The identifier is in range, but its slot is vacant.
    NoSuchTaskId,
    /// The identifier is not below the capacity.
    InvalidParameter,
}

/// A table of `SIZE` task slots. The capacity is part of the type; no memory
/// is allocated.
pub struct Scheduler<E: Execute, const SIZE: usize> {
    tasks: [Option<Task<E>>; SIZE],
}

/// `core::array::from_fn` builds an array by calling `f` once for each index:
/// the element at `i` is what `f(i)` returned.
pub assume_specification<T, const N: usize, F>[ core::array::from_fn::<T, N, F> ](f: F) -> (out: [T; N])
    where F: FnMut(usize) -> T
    requires
        forall|i: usize| i < N ==> call_requires(f, (i,)),
    ensures
        forall|i: usize| i < N ==> call_ensures(f, (i,), #[trigger] out@[i as int]),
;

/// The content of a slot before any task is added.
fn vacant<E: Execute>(index: usize) -> (slot: Option<Task<E>>)
    ensures
        slot is None,
{
    None
}

/// Whether one cycle may turn the slot `before` at index `id` into `after`: a
/// vacant slot stays vacant, and a task stays in its slot and is processed once
/// with the index of the slot as its identifier.
pub open spec fn slot_processed<E: Execute>(
    before: Option<Task<E>>,
    id: TaskId,
    after: Option<Task<E>>,
) -> bool {
    match before {
        Some(task) => after matches Some(next) && task.processed(id, next),
        None => after is None,
    }
}

impl<E: Execute, const SIZE: usize> View for Scheduler<E, SIZE> {
    type V = Seq<Option<Task<E>>>;

    /// The slots in index order.
    closed spec fn view(&self) -> Seq<Option<Task<E>>> {
        self.tasks@
    }
}

impl<E: Execute, const SIZE: usize> Scheduler<E, SIZE> {
    /// A scheduler always has exactly `SIZE` slots.
    pub proof fn lemma_capacity(&self)
        ensures
            self@.len() == SIZE,
    {
    }

    /// Creates a scheduler without tasks.
    pub fn new() -> (scheduler: Self)
        ensures
            scheduler@ == vacant_table::<Task<E>>(SIZE as nat),
    {
        let tasks: [Option<Task<E>>; SIZE] = core::array::from_fn(vacant);
        assert forall|id: int| 0 <= id < SIZE implies (#[trigger] tasks@[id]) is None by {
            assert(call_ensures(vacant::<E>, (id as usize,), tasks@[id as usize as int]));
        }
        let scheduler = Scheduler { tasks };
        assert(scheduler@ =~= vacant_table::<Task<E>>(SIZE as nat));
        scheduler
    }

    /// Runs one cycle: every slot is visited once, in index order, and each
    /// task is processed with the index of its slot. Running tasks execute
    /// once; suspended and waiting tasks and vacant slots are passed over.
    pub fn process(&mut self)
        ensures
            final(self)@.len() == SIZE,
            forall|id: int|
                #![trigger old(self)@[id]]
                #![trigger final(self)@[id]]
                0 <= id < SIZE ==> slot_processed(old(self)@[id], id as TaskId, final(self)@[id]),
            forall|id: int|
                #![trigger old(self)@[id]]
                #![trigger final(self)@[id]]
                0 <= id < SIZE && !(old(self)@[id] matches Some(task) && task.state
                    == TaskState::Running) ==> final(self)@[id] == old(self)@[id],
    {
        let mut index: usize = 0;
        while index < SIZE
            invariant
                index <= SIZE,
                self@.len() == SIZE,
                forall|id: int|
                    0 <= id < index ==> slot_processed(
                        #[trigger] old(self)@[id],
                        id as TaskId,
                        self@[id],
                    ),
                forall|id: int| index <= id < SIZE ==> self@[id] == (#[trigger] old(self)@[id]),
            decreases SIZE - index,
        {
            match &mut self.tasks[index] {
                Some(task) => task.process(index),
                None => (),
            }
            index = index + 1;
        }
    }

    /// Adds a task in the first vacant slot and returns the index of that slot
    /// as the task's identifier. Fails with `LimitExceeded`, changing nothing,
    /// if every slot is occupied.
    pub fn add(&mut self, task: Task<E>) -> (result: Result<TaskId, Error>)
        ensures
            match result {
                Ok(id) => {
                    &&& !is_full(old(self)@)
                    &&& id == first_vacant(old(self)@)
                    &&& is_first_vacant(old(self)@, id as int)
                    &&& id < SIZE
                    &&& id != INVALID_ID
                },
                Err(error) => is_full(old(self)@) && error == Error::LimitExceeded,
            },
            final(self)@ == placed(old(self)@, task),
    {
        proof {
            lemma_first_vacant(self@);
        }
        match find_vacant(&self.tasks) {
            Some(id) => {
                self.tasks[id] = Some(task);
                Ok(id)
            },
            None => Err(Error::LimitExceeded),
        }
    }

    /// Removes the task `id`, leaving its slot vacant. Fails with
    /// `InvalidParameter` if `id` is out of range and with `NoSuchTaskId` if
    /// its slot is vacant; a failure changes nothing.
    pub fn remove(&mut self, id: TaskId) -> (result: Result<(), Error>)
        ensures
            result == (if id >= SIZE {
                Err(Error::InvalidParameter)
            } else if old(self)@[id as int] is None {
                Err(Error::NoSuchTaskId)
            } else {
                Ok(())
            }),
            final(self)@ == (if result is Ok {
                old(self)@.update(id as int, None)
            } else {
                old(self)@
            }),
    {
        match self.get(id) {
            Ok(_) => {
                self.tasks[id] = None;
                Ok(())
            },
            Err(error) => Err(error),
        }
    }

    /// Gives access to the task `id`, to suspend or resume it in place. Fails
    /// with `InvalidParameter` if `id` is out of range and with `NoSuchTaskId`
    /// if its slot is vacant. Whatever the caller does to the task is all that
    /// changes in the scheduler.
    pub fn get(&mut self, id: TaskId) -> (result: Result<&mut Task<E>, Error>)
        ensures
            match result {
                Ok(task) => {
                    &&& id < SIZE
                    &&& old(self)@[id as int] == Some(*task)
                    &&& final(self)@ == old(self)@.update(id as int, Some(*final(task)))
                },
                Err(error) => {
                    &&& error == (if id >= SIZE {
                        Error::InvalidParameter
                    } else {
                        Error::NoSuchTaskId
                    })
                    &&& id < SIZE ==> old(self)@[id as int] is None
                    &&& final(self)@ == old(self)@
                },
            },
    {
        if SIZE > id {
            match &mut self.tasks[id] {
                Some(task) => Ok(task),
                None => Err(Error::NoSuchTaskId),
            }
        } else {
            Err(Error::InvalidParameter)
        }
    }

    /// The number of slots: the most tasks the scheduler can hold.
    pub fn capacity(&self) -> (capacity: usize)
        ensures
            capacity == SIZE,
            capacity == self@.len(),
    {
        SIZE
    }
}

impl<E: Execute, const SIZE: usize> Default for Scheduler<E, SIZE> {
    /// A scheduler without tasks.
    fn default() -> (scheduler: Self)
        ensures
            scheduler@ == vacant_table::<Task<E>>(SIZE as nat),
    {
        Self::new()
    }
}

} // verus!
