//! Software countdown timers.
//!
//! A timer counts ticks down to zero. A running timer whose countdown is at
//! zero is signaled. Counting is driven from outside, one `update` per tick;
//! what a tick means in time is the driver's business.
//!
//! * A timer is started with a threshold and then counts down on `update`.
//! * A timer can be restarted with its last threshold.
//! * A timer can be stopped; it then ignores updates and does not signal.
//! * A timer with auto restart reloads its countdown when its signal is read,
//!   not when the countdown runs out.
use vstd::prelude::*;
use crate::slots::{
    find_vacant, first_vacant, is_first_vacant, is_full, lemma_first_vacant, placed, vacant_table,
};
use crate::SignalState;

verus! {

/// A number of ticks.
pub type Counter = usize;

/// Identifies a timer within a registry: the index of the slot it occupies.
pub type SoftTimerHandle = usize;

/// The number of timers a registry can hold.
pub const MAX_SOFT_COUNTER: usize = 16;

/// The state of a timer.
#[derive(Clone, Copy, Debug, PartialEq, Eq, Structural)]
pub enum State {
    /// Created or disabled: the timer takes no part in counting or signaling.
    Disabled,
    /// The countdown is kept, but it neither counts nor signals.
    Stopped,
    /// The timer counts down on every tick and signals at zero.
    Running,
}

/// Why a timer operation was refused.
#[derive(Clone, Copy, Debug, PartialEq, Eq, Structural)]
pub enum SoftTimerErr {
    /// Reserved for operations that refuse a disabled timer. No operation of
    /// the registry does: a disabled timer can be started.
    Disabled,
    /// Every slot is occupied.
    LimitExceeded,
    /// The handle is in range, but its slot is vacant.
    NoSuchTimer,
    /// The handle is not below the capacity.
    InvalidParameter,
}

/// A timer as a mathematical value.
pub struct TimerView {
    pub state: State,
    /// The ticks that remain.
    pub counter: nat,
    /// What the countdown is loaded with on start, restart and auto restart.
    pub threshold: nat,
    pub auto_restart: bool,
}

impl TimerView {
    /// A timer as `create` makes it.
    pub open spec fn created() -> Self {
        TimerView { state: State::Disabled, counter: 0, threshold: 0, auto_restart: false }
    }

    /// The countdown never exceeds what it was last loaded with.
    pub open spec fn wf(self) -> bool {
        self.counter <= self.threshold
    }

    /// The timer after `start`.
    pub open spec fn started(self, threshold: nat, auto_restart: bool) -> Self {
        TimerView { state: State::Running, counter: threshold, threshold, auto_restart }
    }

    /// The timer after `restart`.
    pub open spec fn restarted(self) -> Self {
        TimerView { state: State::Running, counter: self.threshold, ..self }
    }

    /// The timer after `stop`.
    pub open spec fn stopped(self) -> Self {
        TimerView { state: State::Stopped, ..self }
    }

    /// The timer after `disable`.
    pub open spec fn disabled(self) -> Self {
        TimerView { state: State::Disabled, ..self }
    }

    /// The timer after one tick: a running timer above zero counts down by
    /// one, every other timer stays as it is.
    pub open spec fn ticked(self) -> Self {
        if self.state == State::Running && self.counter > 0 {
            TimerView { counter: (self.counter - 1) as nat, ..self }
        } else {
            self
        }
    }

    /// The timer after `ticks` ticks.
    pub open spec fn ticked_times(self, ticks: nat) -> Self
        decreases ticks,
    {
        if ticks == 0 {
            self
        } else {
            self.ticked_times((ticks - 1) as nat).ticked()
        }
    }

    /// What reading the signal answers: signaled if and only if the timer is
    /// running and its countdown is at zero.
    pub open spec fn signal(self) -> SignalState {
        if self.state == State::Running && self.counter == 0 {
            SignalState::Signaled
        } else {
            SignalState::NotSignaled
        }
    }

    /// The timer after its signal was read: a signaled timer with auto
    /// restart has its countdown reloaded, every other timer stays as it is.
    pub open spec fn observed(self) -> Self {
        if self.signal() == SignalState::Signaled && self.auto_restart {
            TimerView { counter: self.threshold, ..self }
        } else {
            self
        }
    }

    /// A running timer counts down by one per tick and stays at zero once it
    /// is there.
    pub proof fn lemma_countdown(self, ticks: nat)
        requires
            self.state == State::Running,
        ensures
            self.ticked_times(ticks) == (TimerView {
                counter: if ticks <= self.counter {
                    (self.counter - ticks) as nat
                } else {
                    0
                },
                ..self
            }),
        decreases ticks,
    {
        if ticks > 0 {
            self.lemma_countdown((ticks - 1) as nat);
        }
    }

    /// A timer that is not running never counts down and never signals,
    /// however many ticks pass, and reading its signal changes nothing.
    pub proof fn lemma_idle_timer_is_inert(self, ticks: nat)
        requires
            self.state != State::Running,
        ensures
            self.ticked_times(ticks) == self,
            self.signal() == SignalState::NotSignaled,
            self.observed() == self,
        decreases ticks,
    {
        if ticks > 0 {
            self.lemma_idle_timer_is_inert((ticks - 1) as nat);
        }
    }

    /// A running timer without auto restart that has run out signals on every
    /// read and stays at zero.
    pub proof fn lemma_one_shot_stays_signaled(self)
        requires
            self.state == State::Running,
            self.counter == 0,
            !self.auto_restart,
        ensures
            self.signal() == SignalState::Signaled,
            self.observed() == self,
            self.ticked() == self,
    {
    }

    /// A running timer with auto restart that has run out signals once: the
    /// read reloads the countdown with the threshold, so the read that follows
    /// at once is not signaled.
    pub proof fn lemma_auto_restart_signals_once(self)
        requires
            self.state == State::Running,
            self.counter == 0,
            self.auto_restart,
            self.threshold > 0,
        ensures
            self.signal() == SignalState::Signaled,
            self.observed() == (TimerView { counter: self.threshold, ..self }),
            self.observed().signal() == SignalState::NotSignaled,
    {
    }

    /// Every operation keeps the countdown within the threshold.
    pub proof fn lemma_countdown_within_threshold(self, threshold: nat, auto_restart: bool)
        requires
            self.wf(),
        ensures
            Self::created().wf(),
            self.started(threshold, auto_restart).wf(),
            self.restarted().wf(),
            self.stopped().wf(),
            self.disabled().wf(),
            self.ticked().wf(),
            self.observed().wf(),
    {
    }
}

/// The state of one timer.
#[derive(Clone, Copy, Debug)]
pub struct SoftTimerData {
    state: State,
    counter: Counter,
    threshold: Counter,
    auto_restart: bool,
}

impl View for SoftTimerData {
    type V = TimerView;

    closed spec fn view(&self) -> TimerView {
        TimerView {
            state: self.state,
            counter: self.counter as nat,
            threshold: self.threshold as nat,
            auto_restart: self.auto_restart,
        }
    }
}

impl SoftTimerData {
    #[verifier::type_invariant]
    spec fn countdown_within_threshold(self) -> bool {
        self.counter <= self.threshold
    }

    fn new() -> (timer: Self)
        ensures
            timer@ == TimerView::created(),
    {
        SoftTimerData { state: State::Disabled, counter: 0, threshold: 0, auto_restart: false }
    }

    fn start(&mut self, threshold: Counter, auto_restart: bool)
        ensures
            final(self)@ == old(self)@.started(threshold as nat, auto_restart),
    {
        *self = SoftTimerData { state: State::Running, counter: threshold, threshold, auto_restart };
    }

    fn restart(&mut self)
        ensures
            final(self)@ == old(self)@.restarted(),
    {
        *self = SoftTimerData {
            state: State::Running,
            counter: self.threshold,
            threshold: self.threshold,
            auto_restart: self.auto_restart,
        };
    }

    fn stop(&mut self)
        ensures
            final(self)@ == old(self)@.stopped(),
    {
        proof {
            use_type_invariant(&*self);
        }
        self.state = State::Stopped;
    }

    fn disable(&mut self)
        ensures
            final(self)@ == old(self)@.disabled(),
    {
        proof {
            use_type_invariant(&*self);
        }
        self.state = State::Disabled;
    }

    fn update(&mut self)
        ensures
            final(self)@ == old(self)@.ticked(),
    {
        proof {
            use_type_invariant(&*self);
        }
        if self.state == State::Running {
            if 0 < self.counter {
                self.counter = self.counter - 1;
            }
        }
    }

    /// Reads the signal: signaled if and only if the timer is running and its
    /// countdown is at zero. A signaled timer with auto restart has its
    /// countdown reloaded by the read, so the next signal is one full
    /// threshold away.
    pub fn get_signal_state(&mut self) -> (signal: SignalState)
        ensures
            signal == old(self)@.signal(),
            final(self)@ == old(self)@.observed(),
    {
        if self.state == State::Running && self.counter == 0 {
            if self.auto_restart {
                self.counter = self.threshold;
            }
            SignalState::Signaled
        } else {
            SignalState::NotSignaled
        }
    }

    /// The state of the timer.
    pub fn state(&self) -> (state: State)
        ensures
            state == self@.state,
    {
        self.state
    }

    /// The ticks that remain, never more than the threshold.
    pub fn counter(&self) -> (counter: Counter)
        ensures
            counter == self@.counter,
            self@.wf(),
    {
        proof {
            use_type_invariant(self);
        }
        self.counter
    }

    /// What the countdown is loaded with on start, restart and auto restart.
    pub fn threshold(&self) -> (threshold: Counter)
        ensures
            threshold == self@.threshold,
    {
        self.threshold
    }

    /// Whether reading the signal of the expired timer reloads the countdown.
    pub fn auto_restart(&self) -> (auto_restart: bool)
        ensures
            auto_restart == self@.auto_restart,
    {
        self.auto_restart
    }
}

/// What a slot of timers looks like as a mathematical value.
pub open spec fn slot_view(slot: Option<SoftTimerData>) -> Option<TimerView> {
    match slot {
        Some(timer) => Some(timer@),
        None => None,
    }
}

/// The timer that `handle` addresses in `slots`, or why it addresses none:
/// `InvalidParameter` for a handle out of range, `NoSuchTimer` for a vacant
/// slot.
pub open spec fn lookup(slots: Seq<Option<TimerView>>, handle: SoftTimerHandle) -> Result<
    TimerView,
    SoftTimerErr,
> {
    if handle >= slots.len() {
        Err(SoftTimerErr::InvalidParameter)
    } else {
        match slots[handle as int] {
            Some(timer) => Ok(timer),
            None => Err(SoftTimerErr::NoSuchTimer),
        }
    }
}

/// The table after one tick: every timer in it has ticked once.
pub open spec fn ticked_table(slots: Seq<Option<TimerView>>) -> Seq<Option<TimerView>> {
    Seq::new(
        slots.len(),
        |i: int|
            match slots[i] {
                Some(timer) => Some(timer.ticked()),
                None => None,
            },
    )
}

/// The table after `ticks` ticks.
pub open spec fn ticked_table_times(slots: Seq<Option<TimerView>>, ticks: nat) -> Seq<
    Option<TimerView>,
>
    decreases ticks,
{
    if ticks == 0 {
        slots
    } else {
        ticked_table(ticked_table_times(slots, (ticks - 1) as nat))
    }
}

/// Ticks reach each timer on its own: after any number of ticks every slot
/// holds what it held before, ticked that many times, and vacant slots are
/// still vacant.
pub proof fn lemma_ticks_are_per_timer(slots: Seq<Option<TimerView>>, ticks: nat)
    ensures
        ticked_table_times(slots, ticks).len() == slots.len(),
        forall|i: int|
            0 <= i < slots.len() ==> (#[trigger] ticked_table_times(slots, ticks)[i]) == (
            match slots[i] {
                Some(timer) => Some(timer.ticked_times(ticks)),
                None => None,
            }),
    decreases ticks,
{
    if ticks > 0 {
        lemma_ticks_are_per_timer(slots, (ticks - 1) as nat);
    }
}

/// A registry of `MAX_SOFT_COUNTER` timer slots.
pub struct SofTimers {
    timer: [Option<SoftTimerData>; MAX_SOFT_COUNTER],
}

impl View for SofTimers {
    type V = Seq<Option<TimerView>>;

    /// The slots in index order.
    closed spec fn view(&self) -> Seq<Option<TimerView>> {
        Seq::new(MAX_SOFT_COUNTER as nat, |i: int| slot_view(self.timer@[i]))
    }
}

impl SofTimers {
    /// A registry always has exactly `MAX_SOFT_COUNTER` slots.
    pub proof fn lemma_capacity(&self)
        ensures
            self@.len() == MAX_SOFT_COUNTER,
    {
    }

    /// Creates a registry without timers.
    pub fn new() -> (timers: Self)
        ensures
            timers@ == vacant_table::<TimerView>(MAX_SOFT_COUNTER as nat),
    {
        let timers = SofTimers { timer: [None; MAX_SOFT_COUNTER] };
        assert(timers@ =~= vacant_table::<TimerView>(MAX_SOFT_COUNTER as nat));
        timers
    }

    /// Creates a timer in the first vacant slot and returns the index of that
    /// slot as its handle. The new timer is disabled, with countdown and
    /// threshold at zero. Fails with `LimitExceeded`, changing nothing, if
    /// every slot is occupied.
    pub fn create(&mut self) -> (result: Result<SoftTimerHandle, SoftTimerErr>)
        ensures
            match result {
                Ok(handle) => {
                    &&& !is_full(old(self)@)
                    &&& handle == first_vacant(old(self)@)
                    &&& is_first_vacant(old(self)@, handle as int)
                    &&& handle < MAX_SOFT_COUNTER
                },
                Err(error) => is_full(old(self)@) && error == SoftTimerErr::LimitExceeded,
            },
            final(self)@ == placed(old(self)@, TimerView::created()),
    {
        proof {
            lemma_first_vacant(self@);
            lemma_first_vacant(self.timer@);
            assert(is_first_vacant(self@, first_vacant(self.timer@)));
        }
        match find_vacant(&self.timer) {
            Some(id) => {
                self.timer[id] = Some(SoftTimerData::new());
                assert(self@ =~= old(self)@.update(id as int, Some(TimerView::created())));
                Ok(id)
            },
            None => Err(SoftTimerErr::LimitExceeded),
        }
    }

    /// Deletes the timer `handle`, leaving its slot vacant. A failure changes
    /// nothing.
    pub fn delete(&mut self, handle: SoftTimerHandle) -> (result: Result<(), SoftTimerErr>)
        ensures
            match lookup(old(self)@, handle) {
                Ok(timer) => result == Ok::<(), SoftTimerErr>(()) && final(self)@ == old(
                    self,
                )@.update(handle as int, None),
                Err(error) => result == Err::<(), SoftTimerErr>(error) && final(self)@ == old(
                    self,
                )@,
            },
    {
        if handle < MAX_SOFT_COUNTER {
            if self.timer[handle].is_some() {
                self.timer[handle] = None;
                assert(self@ =~= old(self)@.update(handle as int, None));
                return Ok(());
            }
        } else {
            return Err(SoftTimerErr::InvalidParameter);
        }
        Err(SoftTimerErr::NoSuchTimer)
    }

    /// Starts the timer `handle`: it runs, with its countdown loaded with
    /// `threshold`. A timer that is running already starts over with the new
    /// threshold. A failure changes nothing.
    pub fn start(&mut self, handle: SoftTimerHandle, threshold: Counter, auto_restart: bool) -> (result:
        Result<(), SoftTimerErr>)
        ensures
            match lookup(old(self)@, handle) {
                Ok(timer) => result == Ok::<(), SoftTimerErr>(()) && final(self)@ == old(
                    self,
                )@.update(handle as int, Some(timer.started(threshold as nat, auto_restart))),
                Err(error) => result == Err::<(), SoftTimerErr>(error) && final(self)@ == old(
                    self,
                )@,
            },
    {
        if handle < MAX_SOFT_COUNTER {
            if let Some(timer) = &mut self.timer[handle] {
                timer.start(threshold, auto_restart);
                assert(self@ =~= old(self)@.update(
                    handle as int,
                    Some(old(self)@[handle as int]->Some_0.started(threshold as nat, auto_restart)),
                ));
                return Ok(());
            }
        } else {
            return Err(SoftTimerErr::InvalidParameter);
        }
        Err(SoftTimerErr::NoSuchTimer)
    }

    /// Restarts the timer `handle`: it runs, with its countdown loaded with
    /// the threshold it has. A failure changes nothing.
    pub fn restart(&mut self, handle: SoftTimerHandle) -> (result: Result<(), SoftTimerErr>)
        ensures
            match lookup(old(self)@, handle) {
                Ok(timer) => result == Ok::<(), SoftTimerErr>(()) && final(self)@ == old(
                    self,
                )@.update(handle as int, Some(timer.restarted())),
                Err(error) => result == Err::<(), SoftTimerErr>(error) && final(self)@ == old(
                    self,
                )@,
            },
    {
        if handle < MAX_SOFT_COUNTER {
            if let Some(timer) = &mut self.timer[handle] {
                timer.restart();
                assert(self@ =~= old(self)@.update(
                    handle as int,
                    Some(old(self)@[handle as int]->Some_0.restarted()),
                ));
                return Ok(());
            }
        } else {
            return Err(SoftTimerErr::InvalidParameter);
        }
        Err(SoftTimerErr::NoSuchTimer)
    }

    /// Stops the timer `handle`: it keeps its countdown, ignores ticks and
    /// does not signal. A failure changes nothing.
    pub fn stop(&mut self, handle: SoftTimerHandle) -> (result: Result<(), SoftTimerErr>)
        ensures
            match lookup(old(self)@, handle) {
                Ok(timer) => result == Ok::<(), SoftTimerErr>(()) && final(self)@ == old(
                    self,
                )@.update(handle as int, Some(timer.stopped())),
                Err(error) => result == Err::<(), SoftTimerErr>(error) && final(self)@ == old(
                    self,
                )@,
            },
    {
        if handle < MAX_SOFT_COUNTER {
            if let Some(timer) = &mut self.timer[handle] {
                timer.stop();
                assert(self@ =~= old(self)@.update(
                    handle as int,
                    Some(old(self)@[handle as int]->Some_0.stopped()),
                ));
                return Ok(());
            }
        } else {
            return Err(SoftTimerErr::InvalidParameter);
        }
        Err(SoftTimerErr::NoSuchTimer)
    }

    /// Disables the timer `handle`: it takes no part in counting or signaling
    /// until it is started again. A failure changes nothing.
    pub fn disable(&mut self, handle: SoftTimerHandle) -> (result: Result<(), SoftTimerErr>)
        ensures
            match lookup(old(self)@, handle) {
                Ok(timer) => result == Ok::<(), SoftTimerErr>(()) && final(self)@ == old(
                    self,
                )@.update(handle as int, Some(timer.disabled())),
                Err(error) => result == Err::<(), SoftTimerErr>(error) && final(self)@ == old(
                    self,
                )@,
            },
    {
        if handle < MAX_SOFT_COUNTER {
            if let Some(timer) = &mut self.timer[handle] {
                timer.disable();
                assert(self@ =~= old(self)@.update(
                    handle as int,
                    Some(old(self)@[handle as int]->Some_0.disabled()),
                ));
                return Ok(());
            }
        } else {
            return Err(SoftTimerErr::InvalidParameter);
        }
        Err(SoftTimerErr::NoSuchTimer)
    }

    /// Counts one tick: every running timer above zero counts down by one.
    /// Timers at zero stay there, and timers that are not running are passed
    /// over.
    pub fn update(&mut self)
        ensures
            final(self)@ == ticked_table(old(self)@),
    {
        let mut index: usize = 0;
        while index < MAX_SOFT_COUNTER
            invariant
                index <= MAX_SOFT_COUNTER,
                forall|i: int|
                    0 <= i < index ==> slot_view(#[trigger] self.timer@[i]) == ticked_table(
                        old(self)@,
                    )[i],
                forall|i: int|
                    index <= i < MAX_SOFT_COUNTER ==> (#[trigger] self.timer@[i]) == old(
                        self,
                    ).timer@[i],
            decreases MAX_SOFT_COUNTER - index,
        {
            if let Some(timer) = &mut self.timer[index] {
                timer.update();
            }
            index = index + 1;
        }
        assert(self@ =~= ticked_table(old(self)@));
    }

    /// A copy of the timer `handle` as it is now. What is done to the copy
    /// does not reach the registry.
    pub fn get(&self, handle: SoftTimerHandle) -> (result: Result<SoftTimerData, SoftTimerErr>)
        ensures
            match lookup(self@, handle) {
                Ok(timer) => result matches Ok(data) && data@ == timer && timer.wf(),
                Err(error) => result matches Err(refusal) && refusal == error,
            },
    {
        if handle < MAX_SOFT_COUNTER {
            if let Some(timer) = &self.timer[handle] {
                proof {
                    use_type_invariant(timer);
                }
                return Ok(*timer);
            }
        } else {
            return Err(SoftTimerErr::InvalidParameter);
        }
        Err(SoftTimerErr::NoSuchTimer)
    }
}

} // verus!
