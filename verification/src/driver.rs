//! The dispatch loop that keeps an environment responsive.
//!
//! The loop is either running or exiting. It starts out running, and it exits
//! when the environment's window is asked to close or when Escape is pressed
//! in it. The caller delivers each event to `Environment::dispatch` and carries
//! out the reaction it names.

use vstd::prelude::*;
use crate::env::Environment;
use crate::env::WindowId;
use crate::scan::any_set;
use crate::scan::first_set;
use crate::scan::leads;
use crate::scan::lemma_leader_is_first_set;
use crate::scan::lemma_set_flag_has_leader;

verus! {

/// Whether a key went down or came up.
#[derive(Clone, Copy, Debug, PartialEq, Eq, Structural)]
pub enum ElementState {
    Pressed,
    Released,
}

/// A key, as far as the loop tells keys apart.
#[derive(Clone, Copy, Debug, PartialEq, Eq, Structural)]
pub enum Key {
    Escape,
    Other,
}

/// What happened to a window.
#[derive(Clone, Copy, Debug, PartialEq, Eq)]
pub enum WindowEvent {
    /// The window was asked to close.
    CloseRequested,
    /// A key changed state; `key` is absent where the platform could not name
    /// the key.
    KeyboardInput { state: ElementState, key: Option<Key> },
    /// Anything else.
    Other,
}

/// An event delivered by the event source.
#[derive(Clone, Copy, Debug, PartialEq, Eq)]
pub enum Event {
    /// Something happened to the window `window_id`.
    WindowEvent { window_id: WindowId, event: WindowEvent },
    /// All events of this cycle have been delivered.
    MainEventsCleared,
    /// Anything else.
    Other,
}

/// The state of the dispatch loop.
#[derive(Clone, Copy, Debug, PartialEq, Eq, Structural)]
pub enum LoopState {
    Running,
    Exiting,
}

/// What the caller does in answer to an event.
#[derive(Clone, Copy, Debug, PartialEq, Eq, Structural)]
pub enum Reaction {
    /// Leave the loop.
    Exit,
    /// Emit the event as a diagnostic; nothing else follows from it.
    Report,
    /// Do the work of one frame.
    Update,
    /// Nothing.
    Ignore,
}

impl WindowEvent {
    /// The event asks the loop to end: a request to close, or Escape going
    /// down.
    pub open spec fn requests_exit(self) -> bool {
        match self {
            WindowEvent::CloseRequested => true,
            WindowEvent::KeyboardInput { state, key } => state == ElementState::Pressed && key
                == Some(Key::Escape),
            WindowEvent::Other => false,
        }
    }
}

impl Environment {
    /// `event` is about this environment's window.
    pub open spec fn targets(self, event: Event) -> bool {
        event matches Event::WindowEvent { window_id, .. } && window_id == self.window
    }

    /// The reaction that `event` calls for.
    pub open spec fn reaction(self, event: Event) -> Reaction {
        match event {
            Event::WindowEvent { window_id, event } => if window_id != self.window {
                Reaction::Ignore
            } else if event.requests_exit() {
                Reaction::Exit
            } else {
                Reaction::Report
            },
            Event::MainEventsCleared => Reaction::Update,
            Event::Other => Reaction::Ignore,
        }
    }

    /// The state of the loop once `event` is dispatched in `state`.
    pub open spec fn after(self, state: LoopState, event: Event) -> LoopState {
        if self.reaction(event) == Reaction::Exit {
            LoopState::Exiting
        } else {
            state
        }
    }

    /// For each event, whether it makes the loop exit.
    pub open spec fn exits(self, events: Seq<Event>) -> Seq<bool> {
        Seq::new(events.len(), |i: int| self.reaction(events[i]) == Reaction::Exit)
    }

    /// How many of `events` a loop takes in: all up to and including the first
    /// that makes it exit.
    pub open spec fn consumed(self, events: Seq<Event>) -> int {
        if any_set(self.exits(events)) {
            first_set(self.exits(events)) + 1
        } else {
            events.len() as int
        }
    }

    /// The reactions of a loop that is fed `events`, one for each event it
    /// takes in.
    pub open spec fn reactions(self, events: Seq<Event>) -> Seq<Reaction> {
        Seq::new(self.consumed(events) as nat, |i: int| self.reaction(events[i]))
    }

    /// The state in which a loop that is fed `events` ends up.
    pub open spec fn outcome(self, events: Seq<Event>) -> LoopState {
        if any_set(self.exits(events)) {
            LoopState::Exiting
        } else {
            LoopState::Running
        }
    }

    /// Dispatches one event: names the reaction it calls for and the state of
    /// the loop after it. Only a close request or a press of Escape in this
    /// environment's window changes the state, and an exiting loop stays so.
    pub fn dispatch(&self, state: LoopState, event: &Event) -> (out: (LoopState, Reaction))
        ensures
            out.1 == self.reaction(*event),
            out.0 == self.after(state, *event),
            !self.targets(*event) ==> out.0 == state,
            state == LoopState::Exiting ==> out.0 == LoopState::Exiting,
    {
        let reaction = match event {
            Event::WindowEvent { window_id, event } => {
                if window_id.0 != self.window.0 {
                    Reaction::Ignore
                } else {
                    match event {
                        WindowEvent::CloseRequested => Reaction::Exit,
                        WindowEvent::KeyboardInput {
                            state: ElementState::Pressed,
                            key: Some(Key::Escape),
                        } => Reaction::Exit,
                        _ => Reaction::Report,
                    }
                }
            },
            Event::MainEventsCleared => Reaction::Update,
            Event::Other => Reaction::Ignore,
        };
        match reaction {
            Reaction::Exit => (LoopState::Exiting, reaction),
            _ => (state, reaction),
        }
    }

    /// Runs the loop over `events` from the running state: dispatches them in
    /// order until one makes the loop exit, and gives the state the loop ends
    /// in together with the reaction to each event taken in.
    pub fn run(&self, events: &Vec<Event>) -> (out: (LoopState, Vec<Reaction>))
        ensures
            out.0 == self.outcome(events@),
            out.1@ == self.reactions(events@),
    {
        let mut state = LoopState::Running;
        let mut reactions: Vec<Reaction> = Vec::new();
        let mut i: usize = 0;
        while i < events.len()
            invariant
                i <= events.len(),
                state == LoopState::Running,
                reactions.len() == i,
                forall|j: int| 0 <= j < i ==> !self.exits(events@)[j],
                forall|j: int| 0 <= j < i ==> reactions@[j] == self.reaction(events@[j]),
            decreases events.len() - i,
        {
            let (next, reaction) = self.dispatch(state, &events[i]);
            reactions.push(reaction);
            if let LoopState::Exiting = next {
                proof {
                    lemma_leader_is_first_set(self.exits(events@), i as int);
                    assert(reactions@ =~= self.reactions(events@));
                }
                return (next, reactions);
            }
            i += 1;
        }
        proof {
            assert(!any_set(self.exits(events@)));
            assert(reactions@ =~= self.reactions(events@));
        }
        (state, reactions)
    }
}

/// An event about another window, or about no window, never moves the loop
/// out of the state it is in, whichever state that is.
pub proof fn lemma_foreign_event_keeps_state(env: Environment, state: LoopState, event: Event)
    requires
        !env.targets(event),
    ensures
        env.after(state, event) == state,
        env.reaction(event) != Reaction::Exit,
{
}

/// A loop that has started to exit stays exiting, whatever is dispatched.
pub proof fn lemma_exiting_is_final(env: Environment, event: Event)
    ensures
        env.after(LoopState::Exiting, event) == LoopState::Exiting,
{
}

/// A loop that is fed only events about other windows, or about no window,
/// takes all of them in and keeps running.
pub proof fn lemma_foreign_events_keep_running(env: Environment, events: Seq<Event>)
    requires
        forall|i: int| 0 <= i < events.len() ==> !env.targets(#[trigger] events[i]),
    ensures
        env.outcome(events) == LoopState::Running,
        env.consumed(events) == events.len(),
{
    let exits = env.exits(events);
    if any_set(exits) {
        let i = choose|i: int| 0 <= i < exits.len() && exits[i];
        assert(!env.targets(events[i]));
    }
}

/// The loop exits with the first event that asks its window to exit: that
/// event is the last one taken in, and every event before it is answered
/// without leaving the loop.
pub proof fn lemma_exit_at_first_request(env: Environment, events: Seq<Event>, k: int)
    requires
        0 <= k < events.len(),
        env.reaction(events[k]) == Reaction::Exit,
        forall|j: int| 0 <= j < k ==> env.reaction(#[trigger] events[j]) != Reaction::Exit,
    ensures
        env.outcome(events) == LoopState::Exiting,
        env.consumed(events) == k + 1,
        env.reactions(events).last() == Reaction::Exit,
{
    let exits = env.exits(events);
    assert forall|j: int| 0 <= j < k implies !exits[j] by {
        assert(env.reaction(events[j]) != Reaction::Exit);
    }
    assert(leads(exits, k));
    lemma_leader_is_first_set(exits, k);
}

/// A request to close this environment's window makes the loop exit, whatever
/// came before it; where it comes first, it is the only event taken in.
pub proof fn lemma_close_request_ends_loop(env: Environment, events: Seq<Event>, k: int)
    requires
        0 <= k < events.len(),
        events[k] == (Event::WindowEvent {
            window_id: env.window,
            event: WindowEvent::CloseRequested,
        }),
    ensures
        env.outcome(events) == LoopState::Exiting,
        env.consumed(events) <= k + 1,
        k == 0 ==> env.reactions(events) == seq![Reaction::Exit],
{
    let exits = env.exits(events);
    assert(exits[k]);
    lemma_set_flag_has_leader(exits, k);
    if k == 0 {
        assert(env.reactions(events) =~= seq![Reaction::Exit]);
    }
}

/// Feeding a loop one more event gives the state that dispatching the event
/// gives in the state the loop had reached.
pub proof fn lemma_outcome_unfolds(env: Environment, events: Seq<Event>, event: Event)
    ensures
        env.outcome(events.push(event)) == env.after(env.outcome(events), event),
{
    let longer = events.push(event);
    let exits = env.exits(events);
    let longer_exits = env.exits(longer);
    if any_set(exits) {
        let i = choose|i: int| 0 <= i < exits.len() && exits[i];
        assert(longer[i] == events[i]);
        assert(longer_exits[i]);
    } else if env.reaction(event) == Reaction::Exit {
        assert(longer[events.len() as int] == event);
        assert(longer_exits[events.len() as int]);
    } else if any_set(longer_exits) {
        let i = choose|i: int| 0 <= i < longer_exits.len() && longer_exits[i];
        if i < events.len() {
            assert(longer[i] == events[i]);
            assert(exits[i]);
        } else {
            assert(longer[i] == event);
        }
    }
}

} // verus!
