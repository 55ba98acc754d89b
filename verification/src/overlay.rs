//! The overlay of one run: its configuration, its surface and the phase of
//! its resolver, kept in step with one another.

use crate::config::{Config, ConfigView};
use crate::effect::{effect_views, Effect, EffectView};
use crate::input::InputEvent;
use crate::resolver::{
    classify, closes_in, decide, effects_close_once, effects_for, effects_of, executions_in,
    next_phase, ConfirmationOutcome, Decision, Phase,
};
use crate::surface::{label_text, OverlaySurface, SurfaceError};
use vstd::prelude::*;

verus! {

/// An `Overlay` as mathematical values.
pub struct OverlayView {
    pub config: ConfigView,
    pub surface: OverlaySurface,
    pub phase: Phase,
}

/// What holds of every overlay: its surface is fully configured and shows
/// the configured message, and the surface is on screen exactly as long as
/// the resolver waits.
pub open spec fn coherent(overlay: OverlayView) -> bool {
    &&& overlay.surface.fully_configured()
    &&& overlay.surface.label.text@ == label_text(overlay.config.message)
    &&& overlay.surface.visible == (overlay.phase == Phase::Waiting)
}

/// The surface after a decision: closed by a confirmation or a dismissal,
/// untouched by an ignored event.
pub open spec fn surface_after(surface: OverlaySurface, decision: Decision) -> OverlaySurface {
    match decision {
        Decision::Ignore => surface,
        _ => OverlaySurface { visible: false, ..surface },
    }
}

/// The overlay after `event` has been delivered to it: the configuration
/// stays, the resolver takes its next phase, and the surface is closed
/// unless the event is ignored.
pub open spec fn delivered(overlay: OverlayView, event: InputEvent) -> OverlayView {
    OverlayView {
        config: overlay.config,
        surface: surface_after(overlay.surface, decide(overlay.phase, event)),
        phase: next_phase(overlay.phase, event),
    }
}

/// The effects of delivering `event` to `overlay`.
pub open spec fn effects_of_delivery(overlay: OverlayView, event: InputEvent) -> Seq<EffectView> {
    effects_of(decide(overlay.phase, event), overlay.config.command)
}

/// The overlay of one run. It is created once, resolves once, and is
/// never reopened.
#[derive(Debug)]
pub struct Overlay {
    config: Config,
    surface: OverlaySurface,
    phase: Phase,
}

impl View for Overlay {
    type V = OverlayView;

    closed spec fn view(&self) -> OverlayView {
        OverlayView { config: self.config@, surface: self.surface, phase: self.phase }
    }
}

impl Overlay {
    #[verifier::type_invariant]
    spec fn is_coherent(&self) -> bool {
        coherent(self@)
    }

    /// Creates the surface for `config` and starts to wait for input. It
    /// fails only where no display is available.
    pub fn open(config: Config, display_available: bool) -> (r: Result<Overlay, SurfaceError>)
        ensures
            !display_available ==> r == Err::<Overlay, SurfaceError>(SurfaceError::NoDisplay),
            display_available ==> r is Ok && r->Ok_0@.config == config@ && r->Ok_0@.phase
                == Phase::Waiting && r->Ok_0@.surface.visible && coherent(r->Ok_0@),
    {
        match OverlaySurface::create(&config, display_available) {
            Ok(surface) => Ok(Overlay { config, surface, phase: Phase::Waiting }),
            Err(e) => Err(e),
        }
    }

    /// Delivers one input event. The first event resolves the run: the
    /// surface is closed and the effects of the outcome are returned, the
    /// closing first. Every later event changes nothing and has no effect.
    pub fn deliver(self, event: InputEvent) -> (r: (Overlay, Vec<Effect>))
        ensures
            r.0@ == delivered(self@, event),
            effect_views(r.1@) == effects_of_delivery(self@, event),
            coherent(r.0@),
    {
        proof {
            use_type_invariant(&self);
        }
        let decision = classify(self.phase, event);
        let effects = effects_for(decision, self.config.command());
        let Overlay { config, surface, phase } = self;
        let mut surface = surface;
        let overlay = match decision {
            Decision::Confirm => {
                surface.close();
                Overlay { config, surface, phase: Phase::Confirmed }
            },
            Decision::Dismiss => {
                surface.close();
                Overlay { config, surface, phase: Phase::Dismissed }
            },
            Decision::Ignore => Overlay { config, surface, phase },
        };
        (overlay, effects)
    }

    /// The phase of the resolver.
    pub fn phase(&self) -> (r: Phase)
        ensures
            r == self@.phase,
    {
        self.phase
    }

    /// The outcome of the run; none while the overlay waits.
    pub fn outcome(&self) -> (r: Option<ConfirmationOutcome>)
        ensures
            r == self@.phase.outcome_of(),
    {
        self.phase.outcome()
    }

    /// The surface.
    pub fn surface(&self) -> (r: &OverlaySurface)
        ensures
            *r == self@.surface,
            coherent(self@),
    {
        proof {
            use_type_invariant(self);
        }
        &self.surface
    }

    /// The configuration.
    pub fn config(&self) -> (r: &Config)
        ensures
            r@ == self@.config,
    {
        &self.config
    }
}

/// Delivery keeps an overlay coherent: before and after every event the
/// surface is on screen exactly while the resolver waits, fully configured
/// and with the configured message.
pub proof fn delivery_keeps_coherence(overlay: OverlayView, event: InputEvent)
    requires
        coherent(overlay),
    ensures
        coherent(delivered(overlay, event)),
{
}

/// The first event delivered to an overlay resolves it: the surface, on
/// screen until then, is closed exactly once, and the command is run only
/// where the run ends confirmed.
pub proof fn first_delivery_resolves(overlay: OverlayView, event: InputEvent)
    requires
        coherent(overlay),
        overlay.phase == Phase::Waiting,
    ensures
        overlay.surface.visible,
        !delivered(overlay, event).surface.visible,
        delivered(overlay, event).phase.is_terminal(),
        closes_in(effects_of_delivery(overlay, event)) == 1,
        effects_of_delivery(overlay, event).first() == EffectView::CloseSurface,
        executions_in(effects_of_delivery(overlay, event)) == (if delivered(overlay, event).phase
            == Phase::Confirmed {
            1nat
        } else {
            0nat
        }),
{
    effects_close_once(decide(overlay.phase, event), overlay.config.command);
}

/// An event delivered to a resolved overlay changes nothing and has no
/// effect: the surface is not closed a second time, and no command is run.
pub proof fn later_delivery_changes_nothing(overlay: OverlayView, event: InputEvent)
    requires
        overlay.phase.is_terminal(),
    ensures
        delivered(overlay, event) == overlay,
        effects_of_delivery(overlay, event) == Seq::<EffectView>::empty(),
{
}

} // verus!
