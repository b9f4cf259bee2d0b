//! The order of startup: the branding hook runs once, in the setup phase, and
//! only then may the run loop begin and calls be dispatched.
//!
//! The decisions are taken here; the shell performs them. It hands each event
//! to `Lifecycle::step` and carries out the action that comes back.

use vstd::prelude::*;

verus! {

/// The kind of host that the application runs on.
#[derive(Clone, Copy, Debug, PartialEq, Eq)]
pub enum Platform {
    Windows,
    Other,
}

/// Whether the process has been given its branding identifier.
#[derive(Clone, Copy, Debug, PartialEq, Eq)]
pub enum Branding {
    /// The process has no identifier of its own.
    Unset,
    /// The identifier has been handed to the operating system.
    Applied,
}

/// The part of its life that the application is in.
#[derive(Clone, Copy, Debug, PartialEq, Eq)]
pub enum Phase {
    /// The shell is being composed; no window exists and no call is taken.
    Setup,
    /// The run loop has begun.
    Running,
}

/// What the shell reports.
#[derive(Clone, Copy, Debug, PartialEq, Eq)]
pub enum Event {
    /// The setup phase runs the branding hook.
    BrandingHook,
    /// The shell is about to enter its run loop.
    EnterRunLoop,
    /// The front-end makes a call.
    Call,
}

/// What the shell is to do next.
#[derive(Clone, Copy, Debug, PartialEq, Eq)]
pub enum Action {
    /// Hand the branding identifier to the operating system, and go on
    /// whatever it answers.
    SetBrandingIdentifier,
    /// Enter the run loop.
    Run,
    /// Dispatch the call.
    Dispatch,
    /// Turn the event down: it came out of order.
    Refuse,
    /// Nothing is to be done.
    Nothing,
}

/// The state of startup.
#[derive(Clone, Copy, Debug, PartialEq, Eq)]
pub struct Lifecycle {
    pub platform: Platform,
    pub branding: Branding,
    pub hook_ran: bool,
    pub phase: Phase,
}

impl Lifecycle {
    /// The state of a process that has just started.
    pub open spec fn initial(platform: Platform) -> Lifecycle {
        Lifecycle { platform, branding: Branding::Unset, hook_ran: false, phase: Phase::Setup }
    }

    /// The states that startup can be in: the identifier is set exactly where
    /// the hook has run on a Windows host, and the run loop has begun only
    /// after the hook.
    pub open spec fn wf(self) -> bool {
        &&& self.branding is Applied <==> self.hook_ran && self.platform is Windows
        &&& self.phase is Running ==> self.hook_ran
    }

    /// The state after `event`.
    pub open spec fn next(self, event: Event) -> Lifecycle {
        match event {
            Event::BrandingHook => if self.hook_ran {
                self
            } else {
                Lifecycle {
                    branding: if self.platform is Windows {
                        Branding::Applied
                    } else {
                        self.branding
                    },
                    hook_ran: true,
                    ..self
                }
            },
            Event::EnterRunLoop => if self.hook_ran {
                Lifecycle { phase: Phase::Running, ..self }
            } else {
                self
            },
            Event::Call => self,
        }
    }

    /// What the shell is to do on `event`.
    pub open spec fn action(self, event: Event) -> Action {
        match event {
            Event::BrandingHook => if self.hook_ran {
                Action::Nothing
            } else if self.platform is Windows {
                Action::SetBrandingIdentifier
            } else {
                Action::Nothing
            },
            Event::EnterRunLoop => if !self.hook_ran {
                Action::Refuse
            } else if self.phase is Running {
                Action::Nothing
            } else {
                Action::Run
            },
            Event::Call => if self.phase is Running {
                Action::Dispatch
            } else {
                Action::Refuse
            },
        }
    }

    /// The state after the events of `events`, in order, from `self`.
    pub open spec fn after(self, events: Seq<Event>) -> Lifecycle
        decreases events.len(),
    {
        if events.len() == 0 {
            self
        } else {
            self.after(events.drop_last()).next(events.last())
        }
    }

    /// The state of a process that has just started.
    pub fn new(platform: Platform) -> (state: Lifecycle)
        ensures
            state == Lifecycle::initial(platform),
            state.wf(),
    {
        Lifecycle { platform, branding: Branding::Unset, hook_ran: false, phase: Phase::Setup }
    }

    /// Whether a call made now is dispatched.
    pub fn admits_calls(&self) -> (admitted: bool)
        ensures
            admitted == (self.action(Event::Call) == Action::Dispatch),
            admitted == (self.phase is Running),
    {
        match self.phase {
            Phase::Running => true,
            Phase::Setup => false,
        }
    }

    /// Takes `event` in and says what the shell is to do.
    pub fn step(&mut self, event: Event) -> (action: Action)
        ensures
            *final(self) == old(self).next(event),
            action == old(self).action(event),
            old(self).wf() ==> final(self).wf(),
    {
        match event {
            Event::BrandingHook => {
                if self.hook_ran {
                    Action::Nothing
                } else {
                    self.hook_ran = true;
                    match self.platform {
                        Platform::Windows => {
                            self.branding = Branding::Applied;
                            Action::SetBrandingIdentifier
                        },
                        Platform::Other => Action::Nothing,
                    }
                }
            },
            Event::EnterRunLoop => {
                if !self.hook_ran {
                    Action::Refuse
                } else {
                    match self.phase {
                        Phase::Running => Action::Nothing,
                        Phase::Setup => {
                            self.phase = Phase::Running;
                            Action::Run
                        },
                    }
                }
            },
            Event::Call => {
                match self.phase {
                    Phase::Running => Action::Dispatch,
                    Phase::Setup => Action::Refuse,
                }
            },
        }
    }
}

/// Every state that startup reaches is well-formed.
pub proof fn lemma_reachable_states_are_wf(platform: Platform, events: Seq<Event>)
    ensures
        Lifecycle::initial(platform).after(events).wf(),
        Lifecycle::initial(platform).after(events).platform == platform,
    decreases events.len(),
{
    if events.len() > 0 {
        lemma_reachable_states_are_wf(platform, events.drop_last());
    }
}

/// The hook's transition is not undone: once the hook has run it has run for
/// good, and an identifier that is applied stays applied, whatever events follow.
pub proof fn lemma_branding_is_irreversible(state: Lifecycle, events: Seq<Event>)
    ensures
        state.hook_ran ==> state.after(events).hook_ran,
        state.branding is Applied ==> state.after(events).branding is Applied,
        state.phase is Running ==> state.after(events).phase is Running,
    decreases events.len(),
{
    if events.len() > 0 {
        lemma_branding_is_irreversible(state, events.drop_last());
    }
}

/// Whatever the order of the events of startup, a call is dispatched only
/// after the branding hook has run: the hook is among the events before the
/// call, and on a Windows host the identifier is set by then.
pub proof fn lemma_hook_precedes_dispatch(platform: Platform, events: Seq<Event>, call: int)
    requires
        0 <= call < events.len(),
        Lifecycle::initial(platform).after(events.take(call)).action(events[call])
            == Action::Dispatch,
    ensures
        exists|hook: int| 0 <= hook < call && events[hook] == Event::BrandingHook,
        platform is Windows ==> Lifecycle::initial(platform).after(events.take(call)).branding
            is Applied,
{
    let before = events.take(call);
    lemma_reachable_states_are_wf(platform, before);
    lemma_hook_among_events(Lifecycle::initial(platform), before);
    let hook = choose|hook: int| 0 <= hook < before.len() && before[hook] == Event::BrandingHook;
    assert(events[hook] == Event::BrandingHook);
}

/// If the hook has run after `events` and had not run before, it is among them.
pub proof fn lemma_hook_among_events(state: Lifecycle, events: Seq<Event>)
    requires
        !state.hook_ran,
        state.after(events).hook_ran,
    ensures
        exists|hook: int| 0 <= hook < events.len() && events[hook] == Event::BrandingHook,
    decreases events.len(),
{
    if events.len() > 0 {
        let front = events.drop_last();
        if events.last() == Event::BrandingHook {
            assert(events[events.len() - 1] == Event::BrandingHook);
        } else {
            lemma_hook_among_events(state, front);
            let hook = choose|hook: int| 0 <= hook < front.len() && front[hook] == Event::BrandingHook;
            assert(events[hook] == Event::BrandingHook);
        }
    }
}

/// The identifier is handed to the operating system at most once in the life
/// of a process: no two events of a run both ask for it.
pub proof fn lemma_identifier_is_set_once(
    platform: Platform,
    events: Seq<Event>,
    first: int,
    second: int,
)
    requires
        0 <= first < events.len(),
        0 <= second < events.len(),
        Lifecycle::initial(platform).after(events.take(first)).action(events[first])
            == Action::SetBrandingIdentifier,
        Lifecycle::initial(platform).after(events.take(second)).action(events[second])
            == Action::SetBrandingIdentifier,
    ensures
        first == second,
{
    if first < second {
        lemma_set_once_ordered(platform, events, first, second);
    } else if second < first {
        lemma_set_once_ordered(platform, events, second, first);
    }
}

/// After the event that asks for the identifier, no later event asks again.
proof fn lemma_set_once_ordered(platform: Platform, events: Seq<Event>, first: int, second: int)
    requires
        0 <= first < second < events.len(),
        Lifecycle::initial(platform).after(events.take(first)).action(events[first])
            == Action::SetBrandingIdentifier,
    ensures
        Lifecycle::initial(platform).after(events.take(second)).action(events[second])
            != Action::SetBrandingIdentifier,
{
    let start = Lifecycle::initial(platform);
    let upto = events.take(first + 1);
    assert(upto.drop_last() == events.take(first));
    assert(upto.last() == events[first]);
    assert(start.after(upto).hook_ran);
    let rest = events.subrange(first + 1, second);
    lemma_after_concat(start, upto, rest);
    assert(upto + rest == events.take(second));
    lemma_branding_is_irreversible(start.after(upto), rest);
}

/// Taking events in two runs is taking them in one.
pub proof fn lemma_after_concat(state: Lifecycle, head: Seq<Event>, tail: Seq<Event>)
    ensures
        state.after(head + tail) == state.after(head).after(tail),
    decreases tail.len(),
{
    if tail.len() == 0 {
        assert(head + tail == head);
    } else {
        lemma_after_concat(state, head, tail.drop_last());
        assert((head + tail).drop_last() == head + tail.drop_last());
        assert((head + tail).last() == tail.last());
    }
}

} // verus!
