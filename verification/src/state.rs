//! The state a template's commands are decided against.

use vstd::prelude::*;
use crate::command::TemplateCommand;
use crate::error::TemplateError;
use crate::event::TemplateEvent;
use crate::START_VALUE;

verus! {

/// The largest value a command may bring a template to.
pub const MAX_VALUE: usize = 3000;

/// The name under which template states are stored.
pub const TEMPLATE_STATE_NAME: &'static str = "TMPL_NAME";

/// The value of a template after an event, if the event applies.
pub open spec fn event_result(value: int, event: TemplateEvent) -> int {
    match event {
        TemplateEvent::Added(n) => value + n,
        TemplateEvent::Removed(n) => value - n,
    }
}

/// An event applies to a value when the result is a `usize` again.
pub open spec fn can_play(value: int, event: TemplateEvent) -> bool {
    0 <= event_result(value, event) <= usize::MAX
}

/// The value after applying events in order, or `None` if one does not apply.
pub open spec fn play_all(value: int, events: Seq<TemplateEvent>) -> Option<int>
    decreases events.len(),
{
    if events.len() == 0 {
        Some(value)
    } else if can_play(value, events[0]) {
        play_all(event_result(value, events[0]), events.drop_first())
    } else {
        None
    }
}

/// The decision on a command: the events it produces, or why it is refused.
///
/// A template keeps no pending delays: it refuses every `Delayed` command
/// with its own reason, `DelayUnsupported`, and every `Finalize` command
/// with `DelayNotFound`, since no delay is ever pending. The client form's
/// default command (a delayed addition) and the commands of both delay
/// consumers are therefore refused too. Only `Add` and `Reset` can be
/// accepted.
pub open spec fn decide(value: nat, command: TemplateCommand) -> Result<
    Seq<TemplateEvent>,
    TemplateError,
> {
    match command {
        TemplateCommand::Add(n) => {
            if value + n > MAX_VALUE {
                Err(TemplateError::CannotAdd(n))
            } else {
                Ok(seq![TemplateEvent::Added(n)])
            }
        },
        TemplateCommand::Reset => {
            if value == 0 {
                Err(TemplateError::AlreadyEmpty)
            } else {
                Ok(seq![TemplateEvent::Removed(value as usize)])
            }
        },
        TemplateCommand::Delayed(_) => Err(TemplateError::DelayUnsupported),
        TemplateCommand::Finalize(_) => Err(TemplateError::DelayNotFound),
    }
}

/// The write model of a template: its current value.
#[derive(Debug)]
pub struct TemplateState {
    value: usize,
}

impl View for TemplateState {
    type V = nat;

    closed spec fn view(&self) -> nat {
        self.value as nat
    }
}

impl Default for TemplateState {
    /// A fresh template holds the start value.
    fn default() -> (s: Self)
        ensures
            s@ == START_VALUE,
    {
        TemplateState { value: START_VALUE }
    }
}

impl Clone for TemplateState {
    fn clone(&self) -> (s: Self)
        ensures
            s@ == self@,
    {
        TemplateState { value: self.value }
    }
}

impl TemplateState {
    /// The value of a template fits in a `usize`, so any removal of at most
    /// the value applies to it.
    pub proof fn value_fits(&self)
        ensures
            self@ <= usize::MAX,
    {
    }

    /// A template holding `value`, as read back from storage.
    pub fn with_value(value: usize) -> (s: Self)
        ensures
            s@ == value,
    {
        TemplateState { value }
    }

    /// The current value.
    pub fn get_value(&self) -> (v: usize)
        ensures
            v == self@,
    {
        self.value
    }

    /// The name under which template states are stored.
    pub fn state_name() -> (name: &'static str)
        ensures
            name@ == TEMPLATE_STATE_NAME@,
    {
        TEMPLATE_STATE_NAME
    }

    /// Applies an event to the value.
    pub fn play_event(&mut self, event: &TemplateEvent)
        requires
            can_play(old(self)@ as int, *event),
        ensures
            final(self)@ == event_result(old(self)@ as int, *event),
    {
        match event {
            TemplateEvent::Added(n) => self.value = self.value + *n,
            TemplateEvent::Removed(n) => self.value = self.value - *n,
        }
    }

    /// Decides a command: the events to record, or why it is refused.
    /// The state itself is left unchanged.
    pub fn try_command(&self, command: TemplateCommand) -> (r: Result<
        Vec<TemplateEvent>,
        TemplateError,
    >)
        ensures
            match r {
                Ok(events) => decide(self@, command) == Ok::<
                    Seq<TemplateEvent>,
                    TemplateError,
                >(events@),
                Err(e) => decide(self@, command) == Err::<Seq<TemplateEvent>, TemplateError>(e),
            },
    {
        match command {
            TemplateCommand::Add(n) => {
                if self.value > MAX_VALUE || n > MAX_VALUE - self.value {
                    Err(TemplateError::CannotAdd(n))
                } else {
                    let mut events = Vec::new();
                    events.push(TemplateEvent::Added(n));
                    assert(events@ =~= seq![TemplateEvent::Added(n)]);
                    Ok(events)
                }
            },
            TemplateCommand::Reset => {
                if self.value == 0 {
                    Err(TemplateError::AlreadyEmpty)
                } else {
                    let mut events = Vec::new();
                    events.push(TemplateEvent::Removed(self.value));
                    assert(events@ =~= seq![TemplateEvent::Removed(self.value)]);
                    Ok(events)
                }
            },
            TemplateCommand::Delayed(_) => Err(TemplateError::DelayUnsupported),
            TemplateCommand::Finalize(_) => Err(TemplateError::DelayNotFound),
        }
    }
}

/// Every command a template accepts produces events that apply to its value
/// one after the other, and leaves the value at most `MAX_VALUE`: an addition
/// adds its amount, a reset brings the value to zero.
pub proof fn law_accepted_command_applies(value: usize, command: TemplateCommand)
    ensures
        decide(value as nat, command) matches Ok(events) ==> {
            &&& play_all(value as int, events) matches Some(after)
            &&& 0 <= after <= MAX_VALUE
            &&& command matches TemplateCommand::Add(n) ==> after == value + n
            &&& command is Reset ==> after == 0
        },
{
    if let Ok(events) = decide(value as nat, command) {
        let e = events[0];
        assert(events.drop_first().len() == 0);
        assert(can_play(value as int, e));
        assert(play_all(event_result(value as int, e), events.drop_first()) == Some(
            event_result(value as int, e),
        ));
    }
}

/// A command is refused exactly for the reason its kind gives: an addition
/// that would pass `MAX_VALUE`, a reset of an empty template, and every
/// delayed addition and finalization, since a template keeps no pending
/// delays.
pub proof fn law_refusal_reason(value: usize, command: TemplateCommand)
    ensures
        decide(value as nat, command) matches Err(e) ==> match command {
            TemplateCommand::Add(n) => e == TemplateError::CannotAdd(n) && value + n > MAX_VALUE,
            TemplateCommand::Reset => e == TemplateError::AlreadyEmpty && value == 0,
            TemplateCommand::Delayed(_) => e == TemplateError::DelayUnsupported,
            TemplateCommand::Finalize(_) => e == TemplateError::DelayNotFound,
        },
{
}


/// What an accepted command records: exactly one event. A reset of a
/// template holding `v` records `Removed(v)` alone, and an addition of `n`
/// records `Added(n)` alone. A reset is accepted whenever the value is not
/// zero, and an addition whenever it keeps the value at most `MAX_VALUE`.
pub proof fn law_accepted_command_events(value: usize, command: TemplateCommand)
    ensures
        decide(value as nat, command) matches Ok(events) ==> events.len() == 1,
        command is Reset && value > 0 ==> decide(value as nat, command) == Ok::<
            Seq<TemplateEvent>,
            TemplateError,
        >(seq![TemplateEvent::Removed(value)]),
        command matches TemplateCommand::Add(n) ==> (value + n <= MAX_VALUE <==> decide(
            value as nat,
            command,
        ) == Ok::<Seq<TemplateEvent>, TemplateError>(seq![TemplateEvent::Added(n)])),
        command is Reset ==> (decide(value as nat, command) is Ok <==> value > 0),
        command matches TemplateCommand::Add(n) ==> (decide(value as nat, command) is Ok <==> value
            + n <= MAX_VALUE),
        command is Delayed ==> decide(value as nat, command) is Err,
        command is Finalize ==> decide(value as nat, command) is Err,
{
}

/// Applying an event moves the value by its amount: an addition of `n` adds
/// `n`, a removal of `n` takes `n` away, and a removal applies exactly when
/// it takes away no more than the value.
pub proof fn law_event_moves_value(value: usize, n: usize)
    ensures
        event_result(value as int, TemplateEvent::Added(n)) == value + n,
        event_result(value as int, TemplateEvent::Removed(n)) == value - n,
        can_play(value as int, TemplateEvent::Removed(n)) <==> n <= value,
        can_play(value as int, TemplateEvent::Added(n)) <==> value + n <= usize::MAX,
{
}

} // verus!
