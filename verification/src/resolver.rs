//! The confirmation input resolver: it turns the first input event into
//! one outcome and the effects that the outcome calls for.

use crate::effect::{effect_views, shell_invocation, Effect, EffectView, Invocation, EXIT_SUCCESS};
use crate::input::{accepts, is_accept_key, InputEvent};
use vstd::prelude::*;

verus! {

/// The state of the resolver.
#[derive(Clone, Copy, Debug, PartialEq, Eq, Structural)]
pub enum Phase {
    /// The surface is on screen and no event has arrived yet.
    Waiting,
    /// The user confirmed. Terminal.
    Confirmed,
    /// The user dismissed the overlay. Terminal.
    Dismissed,
}

/// How a run ended.
#[derive(Clone, Copy, Debug, PartialEq, Eq, Structural)]
pub enum ConfirmationOutcome {
    Confirmed,
    Dismissed,
}

/// What the resolver makes of one event.
#[derive(Clone, Copy, Debug, PartialEq, Eq, Structural)]
pub enum Decision {
    Confirm,
    Dismiss,
    /// The run is already resolved: the event changes nothing.
    Ignore,
}

impl Phase {
    /// Whether no further event can change the phase.
    pub open spec fn is_terminal(self) -> bool {
        self != Phase::Waiting
    }

    /// The outcome that a phase stands for; none while waiting.
    pub open spec fn outcome_of(self) -> Option<ConfirmationOutcome> {
        match self {
            Phase::Waiting => None,
            Phase::Confirmed => Some(ConfirmationOutcome::Confirmed),
            Phase::Dismissed => Some(ConfirmationOutcome::Dismissed),
        }
    }

    /// The outcome reached, if any.
    pub fn outcome(self) -> (r: Option<ConfirmationOutcome>)
        ensures
            r == self.outcome_of(),
    {
        match self {
            Phase::Waiting => None,
            Phase::Confirmed => Some(ConfirmationOutcome::Confirmed),
            Phase::Dismissed => Some(ConfirmationOutcome::Dismissed),
        }
    }
}

/// What the resolver makes of `event` in `phase`: while waiting, an accept
/// key confirms and every other key or click dismisses; afterwards every
/// event is ignored.
pub open spec fn decide(phase: Phase, event: InputEvent) -> Decision {
    if phase.is_terminal() {
        Decision::Ignore
    } else if event matches InputEvent::KeyPress { keyval } && is_accept_key(keyval) {
        Decision::Confirm
    } else {
        Decision::Dismiss
    }
}

/// The phase that a decision leads to.
pub open spec fn phase_after(phase: Phase, decision: Decision) -> Phase {
    match decision {
        Decision::Confirm => Phase::Confirmed,
        Decision::Dismiss => Phase::Dismissed,
        Decision::Ignore => phase,
    }
}

/// The phase after `event` has been delivered in `phase`.
pub open spec fn next_phase(phase: Phase, event: InputEvent) -> Phase {
    phase_after(phase, decide(phase, event))
}

/// Classifies one event.
pub fn classify(phase: Phase, event: InputEvent) -> (r: Decision)
    ensures
        r == decide(phase, event),
{
    match phase {
        Phase::Waiting => match event {
            InputEvent::KeyPress { keyval } => {
                if accepts(keyval) {
                    Decision::Confirm
                } else {
                    Decision::Dismiss
                }
            },
            InputEvent::PointerClick { .. } => Decision::Dismiss,
        },
        _ => Decision::Ignore,
    }
}

/// The effects that a decision calls for, in order: on a confirmation the
/// surface is closed and then the process is replaced by the shell running
/// `command`; on a dismissal the surface is closed and the process ends
/// successfully; an ignored event has no effect.
pub open spec fn effects_of(decision: Decision, command: Seq<char>) -> Seq<EffectView> {
    match decision {
        Decision::Confirm => seq![
            EffectView::CloseSurface,
            EffectView::ReplaceProcess(shell_invocation(command)),
        ],
        Decision::Dismiss => seq![
            EffectView::CloseSurface,
            EffectView::Exit { code: EXIT_SUCCESS },
        ],
        Decision::Ignore => seq![],
    }
}

/// Lists the effects that a decision calls for.
pub fn effects_for(decision: Decision, command: &str) -> (r: Vec<Effect>)
    ensures
        effect_views(r@) == effects_of(decision, command@),
{
    let mut effects: Vec<Effect> = Vec::new();
    match decision {
        Decision::Confirm => {
            effects.push(Effect::CloseSurface);
            effects.push(Effect::ReplaceProcess(Invocation::shell(command)));
        },
        Decision::Dismiss => {
            effects.push(Effect::CloseSurface);
            effects.push(Effect::Exit { code: EXIT_SUCCESS });
        },
        Decision::Ignore => {},
    }
    assert(effect_views(effects@) =~= effects_of(decision, command@));
    effects
}

/// The number of times a list of effects closes the surface.
pub open spec fn closes_in(effects: Seq<EffectView>) -> nat
    decreases effects.len(),
{
    if effects.len() == 0 {
        0
    } else {
        let rest = closes_in(effects.drop_last());
        if effects.last() is CloseSurface {
            rest + 1
        } else {
            rest
        }
    }
}

/// The number of times a list of effects starts a program.
pub open spec fn executions_in(effects: Seq<EffectView>) -> nat
    decreases effects.len(),
{
    if effects.len() == 0 {
        0
    } else {
        let rest = executions_in(effects.drop_last());
        if effects.last() is ReplaceProcess {
            rest + 1
        } else {
            rest
        }
    }
}

/// The phase after a run of events has been delivered one by one.
pub open spec fn phase_after_all(phase: Phase, events: Seq<InputEvent>) -> Phase
    decreases events.len(),
{
    if events.len() == 0 {
        phase
    } else {
        phase_after_all(next_phase(phase, events.first()), events.drop_first())
    }
}

/// All effects of a run of events delivered one by one, in order.
pub open spec fn effects_of_all(phase: Phase, events: Seq<InputEvent>, command: Seq<char>) -> Seq<
    EffectView,
>
    decreases events.len(),
{
    if events.len() == 0 {
        seq![]
    } else {
        effects_of(decide(phase, events.first()), command) + effects_of_all(
            next_phase(phase, events.first()),
            events.drop_first(),
            command,
        )
    }
}

/// An accept key delivered to a waiting overlay confirms: the surface is
/// closed, and then the shell is started on the command.
pub proof fn accept_key_confirms(keyval: u32, command: Seq<char>)
    requires
        is_accept_key(keyval),
    ensures
        decide(Phase::Waiting, InputEvent::KeyPress { keyval }) == Decision::Confirm,
        next_phase(Phase::Waiting, InputEvent::KeyPress { keyval }) == Phase::Confirmed,
        effects_of(decide(Phase::Waiting, InputEvent::KeyPress { keyval }), command) == seq![
            EffectView::CloseSurface,
            EffectView::ReplaceProcess(shell_invocation(command)),
        ],
{
}

/// Any other key delivered to a waiting overlay dismisses: the surface is
/// closed, the process ends successfully, and the command is not run.
pub proof fn other_key_dismisses(keyval: u32, command: Seq<char>)
    requires
        !is_accept_key(keyval),
    ensures
        decide(Phase::Waiting, InputEvent::KeyPress { keyval }) == Decision::Dismiss,
        next_phase(Phase::Waiting, InputEvent::KeyPress { keyval }) == Phase::Dismissed,
        effects_of(decide(Phase::Waiting, InputEvent::KeyPress { keyval }), command) == seq![
            EffectView::CloseSurface,
            EffectView::Exit { code: EXIT_SUCCESS },
        ],
        executions_in(
            effects_of(decide(Phase::Waiting, InputEvent::KeyPress { keyval }), command),
        ) == 0,
{
    effects_close_once(Decision::Dismiss, command);
}

/// A click with any button delivered to a waiting overlay dismisses: the
/// surface is closed, the process ends successfully, and the command is
/// not run.
pub proof fn click_dismisses(button: u32, command: Seq<char>)
    ensures
        decide(Phase::Waiting, InputEvent::PointerClick { button }) == Decision::Dismiss,
        next_phase(Phase::Waiting, InputEvent::PointerClick { button }) == Phase::Dismissed,
        effects_of(decide(Phase::Waiting, InputEvent::PointerClick { button }), command) == seq![
            EffectView::CloseSurface,
            EffectView::Exit { code: EXIT_SUCCESS },
        ],
        executions_in(
            effects_of(decide(Phase::Waiting, InputEvent::PointerClick { button }), command),
        ) == 0,
{
    effects_close_once(Decision::Dismiss, command);
}

/// Every decision but the ignoring one closes the surface exactly once; a
/// confirmation starts one program, a dismissal none; an ignored event
/// does neither.
pub proof fn effects_close_once(decision: Decision, command: Seq<char>)
    ensures
        closes_in(effects_of(decision, command)) == (if decision == Decision::Ignore {
            0nat
        } else {
            1nat
        }),
        executions_in(effects_of(decision, command)) == (if decision == Decision::Confirm {
            1nat
        } else {
            0nat
        }),
{
    let effects = effects_of(decision, command);
    if decision != Decision::Ignore {
        let head = effects.drop_last();
        assert(head =~= seq![EffectView::CloseSurface]);
        assert(head.drop_last() =~= Seq::<EffectView>::empty());
        assert(closes_in(head.drop_last()) == 0);
        assert(executions_in(head.drop_last()) == 0);
        assert(closes_in(head) == 1);
        assert(executions_in(head) == 0);
    }
}

/// Once the run is resolved, an event changes neither the phase nor the
/// outcome and has no effect: the surface is not closed again and no
/// command is run.
pub proof fn resolved_overlay_is_silent(phase: Phase, event: InputEvent, command: Seq<char>)
    requires
        phase.is_terminal(),
    ensures
        decide(phase, event) == Decision::Ignore,
        next_phase(phase, event) == phase,
        next_phase(phase, event).outcome_of() == phase.outcome_of(),
        effects_of(decide(phase, event), command) == Seq::<EffectView>::empty(),
{
}

/// A waiting overlay is resolved by whatever event comes first: no event
/// leaves it waiting.
pub proof fn every_event_resolves(event: InputEvent)
    ensures
        decide(Phase::Waiting, event) != Decision::Ignore,
        next_phase(Phase::Waiting, event).is_terminal(),
        next_phase(Phase::Waiting, event).outcome_of() is Some,
{
}

/// Events delivered to a resolved overlay, however many, change nothing
/// and have no effect.
pub proof fn resolved_run_is_silent(phase: Phase, events: Seq<InputEvent>, command: Seq<char>)
    requires
        phase.is_terminal(),
    ensures
        phase_after_all(phase, events) == phase,
        effects_of_all(phase, events, command) == Seq::<EffectView>::empty(),
    decreases events.len(),
{
    if events.len() > 0 {
        resolved_run_is_silent(phase, events.drop_first(), command);
    }
}

/// Only the first event of a run counts: the phase and the effects of the
/// whole run are those of its first event, so that the surface is closed
/// exactly once and the command is run at most once.
pub proof fn first_event_wins(events: Seq<InputEvent>, command: Seq<char>)
    requires
        events.len() > 0,
    ensures
        phase_after_all(Phase::Waiting, events) == next_phase(Phase::Waiting, events.first()),
        effects_of_all(Phase::Waiting, events, command) == effects_of(
            decide(Phase::Waiting, events.first()),
            command,
        ),
        closes_in(effects_of_all(Phase::Waiting, events, command)) == 1,
        executions_in(effects_of_all(Phase::Waiting, events, command)) <= 1,
        executions_in(effects_of_all(Phase::Waiting, events, command)) == 1 <==> phase_after_all(
            Phase::Waiting,
            events,
        ) == Phase::Confirmed,
{
    let first = events.first();
    resolved_run_is_silent(next_phase(Phase::Waiting, first), events.drop_first(), command);
    assert(effects_of_all(Phase::Waiting, events, command) =~= effects_of(
        decide(Phase::Waiting, first),
        command,
    ));
    effects_close_once(decide(Phase::Waiting, first), command);
}

} // verus!
