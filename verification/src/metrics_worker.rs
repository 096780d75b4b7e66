//! The interval scheduler and the decisions of the background worker.

use crate::clock::{clock_reading, now_seconds};
use crate::config::{number_of, Config, ConfigError, ConfigValueView};
use crate::events::{batch_body, drained, left_over, Events, MAX_EVENT_SIZE};
use vstd::prelude::*;

verus! {

/// The configuration's name for the start of the running cycle.
pub const KEY_START: &'static str = "startTime";

/// The configuration's name for the save interval.
pub const KEY_SAVE: &'static str = "saveInterval";

/// The configuration's name for the send interval.
pub const KEY_SEND: &'static str = "sendInterval";

/// Default seconds between two transmissions: two weeks.
pub const DEFAULT_SEND: u64 = 1209600;

/// Default seconds between two wake-ups of the worker: one hour.
pub const DEFAULT_SAVE: u64 = 3600;

/// The start time of a cycle that has not begun yet.
pub const DEFAULT_START: u64 = 0;

/// What is due when the worker wakes up.
#[derive(Clone, Copy, Debug, PartialEq, Eq, Structural)]
pub enum TimerOp {
    /// The send interval has run out: whatever is queued goes out.
    Send,
    /// A wake-up inside a cycle: a full batch goes out, anything less waits.
    Save,
    /// The first wake-up of a cycle: nothing is due.
    Idle,
}

/// What the worker finds on its channel when it wakes up.
#[derive(Clone, Copy, Debug, PartialEq, Eq, Structural)]
pub enum ThreadMsg {
    /// Stop after this cycle.
    Quit,
    /// The timer fired: run the next cycle.
    Continue,
}

/// The scheduler's state: two intervals and the start of the running cycle,
/// all in seconds. A `start_time` of 0 means that no cycle is running.
#[derive(Clone, Copy, Debug, PartialEq, Eq, Structural)]
pub struct MetricsTimer {
    pub send_interval: u64,
    pub save_interval: u64,
    pub start_time: u64,
}

/// The start time that a configuration gives: the number called
/// `startTime`, and 0 where there is none.
pub open spec fn start_of(members: Option<Seq<(Seq<char>, ConfigValueView)>>) -> Result<
    u64,
    ConfigError,
> {
    match number_of(members, KEY_START@) {
        Err(ConfigError::NotFound) => Ok(0),
        other => other,
    }
}

/// The scheduler that a configuration describes, or the first thing that is
/// wrong with it: the send interval is looked at first, then the save
/// interval, then the start time, and last whether the save interval is below
/// the send interval.
pub open spec fn configured(members: Option<Seq<(Seq<char>, ConfigValueView)>>) -> Result<
    MetricsTimer,
    ConfigError,
> {
    match number_of(members, KEY_SEND@) {
        Err(e) => Err(e),
        Ok(send_interval) => match number_of(members, KEY_SAVE@) {
            Err(e) => Err(e),
            Ok(save_interval) => match start_of(members) {
                Err(e) => Err(e),
                Ok(start_time) => if save_interval >= send_interval {
                    Err(ConfigError::SaveNotBelowSend)
                } else {
                    Ok(MetricsTimer { send_interval, save_interval, start_time })
                },
            },
        },
    }
}

impl MetricsTimer {
    /// A scheduler is fit to run when it wakes up at least once between two
    /// transmissions.
    pub open spec fn valid(self) -> bool {
        self.save_interval < self.send_interval
    }

    /// The operation that is due at time `now`.
    pub open spec fn operation_at(self, now: u64) -> TimerOp {
        if self.start_time == 0 {
            TimerOp::Idle
        } else if now - self.start_time >= self.send_interval {
            TimerOp::Send
        } else {
            TimerOp::Save
        }
    }

    /// The state after the operation due at `now` has been read: a `Send`
    /// ends the cycle.
    pub open spec fn after_operation(self, now: u64) -> MetricsTimer {
        if self.operation_at(now) == TimerOp::Send {
            MetricsTimer { start_time: 0, ..self }
        } else {
            self
        }
    }

    /// The seconds to sleep from `now` on, before clamping: the save interval,
    /// or what is left of the send interval if that is less.
    pub open spec fn remaining_at(self, now: u64) -> int {
        if self.start_time == 0 {
            self.save_interval as int
        } else if self.save_interval <= self.send_interval - (now - self.start_time) {
            self.save_interval as int
        } else {
            self.send_interval - (now - self.start_time)
        }
    }

    /// The delay handed to the timer at `now`: `remaining_at`, and 0 once the
    /// send interval has run out.
    pub open spec fn delay_at(self, now: u64) -> int {
        if self.remaining_at(now) < 0 {
            0
        } else {
            self.remaining_at(now)
        }
    }

    /// The state after the delay has been computed at `now`: a cycle that
    /// was not running starts at `now`.
    pub open spec fn after_delay(self, now: u64) -> MetricsTimer {
        if self.start_time == 0 {
            MetricsTimer { start_time: now, ..self }
        } else {
            self
        }
    }

    /// A scheduler with the default intervals and no cycle running.
    pub fn new() -> (timer: MetricsTimer)
        ensures
            timer.send_interval == DEFAULT_SEND,
            timer.save_interval == DEFAULT_SAVE,
            timer.start_time == DEFAULT_START,
    {
        MetricsTimer {
            send_interval: DEFAULT_SEND,
            save_interval: DEFAULT_SAVE,
            start_time: DEFAULT_START,
        }
    }

    /// The scheduler that a configuration describes, or the first thing that
    /// is wrong with it.
    pub fn from_config(cfg: &Config) -> (timer: Result<MetricsTimer, ConfigError>)
        ensures
            timer == configured(cfg@),
            timer matches Ok(made) ==> made.valid(),
    {
        let send_interval: u64 = match cfg.read_u64(KEY_SEND) {
            Ok(n) => n,
            Err(e) => {
                return Err(e);
            },
        };
        let save_interval: u64 = match cfg.read_u64(KEY_SAVE) {
            Ok(n) => n,
            Err(e) => {
                return Err(e);
            },
        };
        // The start time is a special case: it may be missing.
        let start_time: u64 = match cfg.read_u64(KEY_START) {
            Ok(n) => n,
            Err(ConfigError::NotFound) => 0,
            Err(e) => {
                return Err(e);
            },
        };
        if save_interval >= send_interval {
            return Err(ConfigError::SaveNotBelowSend);
        }
        Ok(MetricsTimer { send_interval, save_interval, start_time })
    }

    /// Takes the intervals, and the start time if there is one, from a
    /// configuration, which must hold both intervals as numbers, nothing but a
    /// number as the start time, and a save interval below the send interval.
    /// Whether a configuration is such a one, `try_init` tells.
    pub fn init(&mut self, cfg: &Config)
        requires
            configured(cfg@) is Ok,
        ensures
            configured(cfg@) == Ok::<MetricsTimer, ConfigError>(*final(self)),
            final(self).valid(),
    {
        match MetricsTimer::from_config(cfg) {
            Ok(timer) => {
                *self = timer;
            },
            Err(_) => {},
        }
    }

    /// Takes the intervals, and the start time if there is one, from a
    /// configuration. A configuration that lacks an interval, holds something
    /// else than a number under one of the three names, or whose save interval
    /// is not below its send interval is refused, and the scheduler stays as
    /// it was.
    pub fn try_init(&mut self, cfg: &Config) -> (done: Result<(), ConfigError>)
        ensures
            match done {
                Ok(_) => configured(cfg@) == Ok::<MetricsTimer, ConfigError>(*final(self))
                    && final(self).valid(),
                Err(e) => configured(cfg@) == Err::<MetricsTimer, ConfigError>(e) && *final(self)
                    == *old(self),
            },
    {
        match MetricsTimer::from_config(cfg) {
            Ok(_) => {
                self.init(cfg);
                Ok(())
            },
            Err(e) => Err(e),
        }
    }

    /// Says which operation is due at `now`. Reading a `Send` ends the cycle:
    /// the start time goes back to 0, and the next delay starts a new one.
    pub fn decide_operation(&mut self, now: u64) -> (op: TimerOp)
        ensures
            op == old(self).operation_at(now),
            *final(self) == old(self).after_operation(now),
    {
        if self.start_time == 0 {
            TimerOp::Idle
        } else if now >= self.start_time && now - self.start_time >= self.send_interval {
            self.start_time = 0;
            TimerOp::Send
        } else {
            TimerOp::Save
        }
    }

    /// The seconds until the next wake-up, as seen at `now`. Where no cycle
    /// is running this starts one at `now` and answers the save interval.
    pub fn compute_delay(&mut self, now: u64) -> (delay: u64)
        ensures
            delay == old(self).delay_at(now),
            *final(self) == old(self).after_delay(now),
    {
        if self.start_time == 0 {
            self.start_time = now;
            self.save_interval
        } else if now < self.start_time {
            let ahead: u64 = self.start_time - now;
            if ahead >= self.save_interval || self.send_interval >= self.save_interval - ahead {
                self.save_interval
            } else {
                self.send_interval + ahead
            }
        } else {
            let elapsed: u64 = now - self.start_time;
            if elapsed >= self.send_interval {
                0
            } else if self.save_interval <= self.send_interval - elapsed {
                self.save_interval
            } else {
                self.send_interval - elapsed
            }
        }
    }

    /// The operation that is due now, by the system's clock.
    pub fn get_timer_op(&mut self) -> (op: TimerOp)
        ensures
            exists|sec: i64|
                op == old(self).operation_at(clock_reading(sec)) && *final(self) == old(
                    self,
                ).after_operation(clock_reading(sec)),
    {
        let now: u64 = now_seconds();
        self.decide_operation(now)
    }

    /// The seconds until the next wake-up, by the system's clock.
    pub fn get_timer_interval(&mut self) -> (delay: u64)
        ensures
            exists|sec: i64|
                delay == old(self).delay_at(clock_reading(sec)) && *final(self) == old(
                    self,
                ).after_delay(clock_reading(sec)),
    {
        let now: u64 = now_seconds();
        self.compute_delay(now)
    }
}

/// The first wake-up of a cycle: while no cycle is running nothing is due,
/// the state stays as it is, and the delay that follows is the save interval
/// and starts the cycle at the time at which it is computed.
pub proof fn lemma_first_wake_up(timer: MetricsTimer, now: u64, later: u64)
    requires
        timer.start_time == 0,
    ensures
        timer.operation_at(now) == TimerOp::Idle,
        timer.after_operation(now) == timer,
        timer.after_operation(now).delay_at(later) == timer.save_interval,
        timer.after_operation(now).after_delay(later) == (MetricsTimer {
            start_time: later,
            ..timer
        }),
{
}

/// Inside a running cycle: before the send interval has run out a `Save` is
/// due and the state stays; from then on a `Send` is due and ends the cycle.
pub proof fn lemma_running_cycle(timer: MetricsTimer, now: u64)
    requires
        timer.start_time != 0,
        timer.start_time <= now,
    ensures
        now - timer.start_time < timer.send_interval ==> timer.operation_at(now) == TimerOp::Save
            && timer.after_operation(now) == timer,
        now - timer.start_time >= timer.send_interval ==> timer.operation_at(now) == TimerOp::Send
            && timer.after_operation(now).start_time == 0,
        timer.valid() && timer.save_interval <= timer.send_interval - (now - timer.start_time)
            ==> timer.delay_at(now) == timer.save_interval,
{
}

/// Whether a batch leaves the store: on `Send` whenever anything is queued,
/// on `Save` only when a full batch is, and never on `Idle`.
pub open spec fn batch_due(op: TimerOp, queued: nat) -> bool {
    match op {
        TimerOp::Send => queued > 0,
        TimerOp::Save => queued >= MAX_EVENT_SIZE,
        TimerOp::Idle => false,
    }
}

/// The first step of a cycle: takes the batch that is due out of the store.
/// What comes back is the body to transmit; `None` means that nothing goes
/// out in this cycle, and the store is as it was.
pub fn take_due_batch(op: TimerOp, events: &mut Events) -> (body: Option<String>)
    ensures
        final(events).same_sender(old(events)),
        match body {
            Some(text) => {
                &&& batch_due(op, old(events)@.len())
                &&& text@ == batch_body(drained(old(events)@))
                &&& final(events)@ == left_over(old(events)@)
            },
            None => !batch_due(op, old(events)@.len()) && final(events)@ == old(events)@,
        },
{
    let due = match op {
        TimerOp::Idle => false,
        TimerOp::Send => !events.is_empty(),
        TimerOp::Save => events.is_time_to_send(),
    };
    if due {
        Some(events.get_events_as_body())
    } else {
        None
    }
}

/// Counts the wake-ups of the worker, in one byte that starts over after
/// 255.
#[derive(Clone, Copy, Debug, PartialEq, Eq, Structural)]
pub struct ThreadTest {
    pub timer_count: u8,
}

impl ThreadTest {
    pub fn new() -> (test: ThreadTest)
        ensures
            test.timer_count == 0,
    {
        ThreadTest { timer_count: 0 }
    }

    /// The count after one more wake-up.
    pub open spec fn next_count(self) -> u8 {
        if self.timer_count == u8::MAX {
            0
        } else {
            (self.timer_count + 1) as u8
        }
    }

    pub fn increment(&mut self)
        ensures
            final(self).timer_count == old(self).next_count(),
    {
        self.timer_count = if self.timer_count == u8::MAX {
            0
        } else {
            self.timer_count + 1
        };
    }

    /// Writes the count behind what `out` holds: the one byte that is kept
    /// when the worker shuts down.
    pub fn write(&mut self, out: &mut Vec<u8>)
        ensures
            *final(self) == *old(self),
            final(out)@ == old(out)@.push(old(self).timer_count),
    {
        out.push(self.timer_count);
    }
}

/// What the worker's thread owns: the scheduler, and the count of its
/// wake-ups. Nothing else writes either.
#[derive(Clone, Copy, Debug, PartialEq, Eq, Structural)]
pub struct WorkerState {
    pub timer: MetricsTimer,
    pub test: ThreadTest,
}

impl WorkerState {
    /// The state of a worker that has not run a cycle yet.
    pub fn new(timer: MetricsTimer) -> (state: WorkerState)
        ensures
            state.timer == timer,
            state.test.timer_count == 0,
    {
        WorkerState { timer, test: ThreadTest::new() }
    }

    /// The first step of a cycle, at time `now`: reads which operation is due
    /// and takes the batch that it asks for out of the store. The caller
    /// transmits the body, if there is one, and goes on to `next_delay`
    /// whether or not the transmission succeeds.
    pub fn begin_cycle(&mut self, now: u64, events: &mut Events) -> (due: (TimerOp, Option<String>))
        ensures
            due.0 == old(self).timer.operation_at(now),
            final(self).timer == old(self).timer.after_operation(now),
            final(self).test == old(self).test,
            final(events).same_sender(old(events)),
            match due.1 {
                Some(text) => {
                    &&& batch_due(due.0, old(events)@.len())
                    &&& text@ == batch_body(drained(old(events)@))
                    &&& final(events)@ == left_over(old(events)@)
                },
                None => !batch_due(due.0, old(events)@.len()) && final(events)@ == old(events)@,
            },
    {
        let op = self.timer.decide_operation(now);
        let body = take_due_batch(op, events);
        (op, body)
    }

    /// The second step of a cycle, at time `now`: the seconds for which the
    /// caller arms its timer before it waits for a message.
    pub fn next_delay(&mut self, now: u64) -> (delay: u64)
        ensures
            delay == old(self).timer.delay_at(now),
            final(self).timer == old(self).timer.after_delay(now),
            final(self).test == old(self).test,
    {
        self.timer.compute_delay(now)
    }

    /// The last step of a cycle: counts the wake-up and says whether the
    /// worker stops. It stops when it was told to quit; after `Continue`, and
    /// where the channel gave no message, it runs another cycle.
    pub fn end_cycle(&mut self, message: Option<ThreadMsg>) -> (quit: bool)
        ensures
            quit == (message == Some(ThreadMsg::Quit)),
            final(self).test.timer_count == old(self).test.next_count(),
            final(self).timer == old(self).timer,
    {
        self.test.increment();
        match message {
            Some(ThreadMsg::Quit) => true,
            Some(ThreadMsg::Continue) => false,
            None => false,
        }
    }
}

} // verus!
