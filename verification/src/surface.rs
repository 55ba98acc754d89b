//! The overlay surface: one fullscreen, topmost, keyboard-exclusive window,
//! held here as the plain settings that the windowing toolkit is given.

use crate::config::Config;
use crate::input::ANY_BUTTON;
use vstd::prelude::*;
use vstd::string::StringExecFns;

verus! {

/// The stacking layer of a layer-shell surface, lowest first.
#[derive(Clone, Copy, Debug, PartialEq, Eq, Structural)]
pub enum Layer {
    Background,
    Bottom,
    Top,
    Overlay,
}

/// How a layer-shell surface takes keyboard input.
#[derive(Clone, Copy, Debug, PartialEq, Eq, Structural)]
pub enum KeyboardMode {
    /// The surface never gets keyboard focus.
    Disabled,
    /// The surface gets every key until it goes away.
    Exclusive,
    /// The surface gets focus when the user gives it.
    OnDemand,
}

/// A screen edge to which a surface can be anchored.
#[derive(Clone, Copy, Debug, PartialEq, Eq, Structural)]
pub enum Edge {
    Left,
    Right,
    Top,
    Bottom,
}

/// Where a widget sits inside the space it is given.
#[derive(Clone, Copy, Debug, PartialEq, Eq, Structural)]
pub enum Align {
    Fill,
    Start,
    End,
    Center,
}

/// The edges a surface is anchored to.
#[derive(Clone, Copy, Debug, PartialEq, Eq, Structural)]
pub struct Anchors {
    pub left: bool,
    pub right: bool,
    pub top: bool,
    pub bottom: bool,
}

impl Anchors {
    /// Whether the surface is pinned to `edge`.
    pub open spec fn holds(self, edge: Edge) -> bool {
        match edge {
            Edge::Left => self.left,
            Edge::Right => self.right,
            Edge::Top => self.top,
            Edge::Bottom => self.bottom,
        }
    }

    /// Whether the surface is pinned to all four edges, so that the
    /// compositor can neither move nor resize it.
    pub open spec fn covers_screen(self) -> bool {
        self.left && self.right && self.top && self.bottom
    }

    /// Anchors to every edge.
    pub fn every_edge() -> (r: Anchors)
        ensures
            r == (Anchors { left: true, right: true, top: true, bottom: true }),
            r.covers_screen(),
    {
        Anchors { left: true, right: true, top: true, bottom: true }
    }

    /// Whether the surface is pinned to `edge`.
    pub fn is_anchored(&self, edge: Edge) -> (r: bool)
        ensures
            r == self.holds(edge),
    {
        match edge {
            Edge::Left => self.left,
            Edge::Right => self.right,
            Edge::Top => self.top,
            Edge::Bottom => self.bottom,
        }
    }
}

/// Why no surface could be created.
#[derive(Clone, Copy, Debug, PartialEq, Eq, Structural)]
pub enum SurfaceError {
    /// There is no connection to a display or compositor.
    NoDisplay,
}

/// What the user is told when there is no display.
pub const NO_DISPLAY_MESSAGE: &'static str = "could not connect to a display.";

impl SurfaceError {
    /// The text that reports this error to the user.
    pub fn message(&self) -> (r: String)
        ensures
            r@ == NO_DISPLAY_MESSAGE@,
    {
        match self {
            SurfaceError::NoDisplay => String::from_str(NO_DISPLAY_MESSAGE),
        }
    }
}

/// The text shown when the configuration gives no message.
pub const DEFAULT_MESSAGE: &'static str = "confirm?";

/// The hint shown on a line of its own below the message.
pub const HINT_LINE: &'static str = "press enter to confirm";

/// What separates the message from the hint.
pub const LINE_BREAK: &'static str = "\n";

/// The label's text for a message: the message, or the default text where
/// none is given, then a line break and the hint.
pub open spec fn label_text(message: Option<Seq<char>>) -> Seq<char> {
    let first_line = match message {
        Some(m) => m,
        None => DEFAULT_MESSAGE@,
    };
    first_line + LINE_BREAK@ + HINT_LINE@
}

/// Composes the label's text for a message.
pub fn compose_label(message: Option<&str>) -> (r: String)
    ensures
        r@ == label_text(
            match message {
                Some(m) => Some(m@),
                None => None,
            },
        ),
{
    let mut text = match message {
        Some(m) => String::from_str(m),
        None => String::from_str(DEFAULT_MESSAGE),
    };
    text.append(LINE_BREAK);
    text.append(HINT_LINE);
    text
}

/// The centered text label that the surface shows.
#[derive(Debug)]
pub struct Label {
    pub text: String,
    pub halign: Align,
    pub valign: Align,
}

/// The single surface of one confirmation run.
#[derive(Debug)]
pub struct OverlaySurface {
    pub layer: Layer,
    pub fullscreen: bool,
    pub keyboard_mode: KeyboardMode,
    pub anchors: Anchors,
    /// The pointer button that is listened to.
    pub click_button: u32,
    pub label: Label,
    /// Whether the surface is on screen.
    pub visible: bool,
}

impl OverlaySurface {
    /// Whether the surface lies above the normal application layers, fills
    /// the screen, is pinned to every edge, takes every key, hears every
    /// pointer button and centers its label.
    pub open spec fn fully_configured(&self) -> bool {
        &&& self.layer == Layer::Top
        &&& self.fullscreen
        &&& self.keyboard_mode == KeyboardMode::Exclusive
        &&& self.anchors.covers_screen()
        &&& self.click_button == ANY_BUTTON
        &&& self.label.halign == Align::Center
        &&& self.label.valign == Align::Center
    }

    /// Creates the surface for a configuration. It fails only where no
    /// display is available; a surface that is returned is fully
    /// configured, shows the configured message and is visible.
    pub fn create(config: &Config, display_available: bool) -> (r: Result<
        OverlaySurface,
        SurfaceError,
    >)
        ensures
            !display_available ==> r == Err::<OverlaySurface, SurfaceError>(
                SurfaceError::NoDisplay,
            ),
            display_available ==> r is Ok && r->Ok_0.fully_configured() && r->Ok_0.visible
                && r->Ok_0.label.text@ == label_text(config@.message),
    {
        if !display_available {
            return Err(SurfaceError::NoDisplay);
        }
        let label = Label {
            text: compose_label(config.message()),
            halign: Align::Center,
            valign: Align::Center,
        };
        Ok(
            OverlaySurface {
                layer: Layer::Top,
                fullscreen: true,
                keyboard_mode: KeyboardMode::Exclusive,
                anchors: Anchors::every_edge(),
                click_button: ANY_BUTTON,
                label,
                visible: true,
            },
        )
    }

    /// Hides and releases the surface. It is to be called once, on a
    /// surface that is still on screen.
    pub fn close(&mut self)
        requires
            old(self).visible,
        ensures
            !final(self).visible,
            *final(self) == (OverlaySurface { visible: false, ..*old(self) }),
    {
        self.visible = false;
    }
}

/// One step in putting a surface on screen.
#[derive(Clone, Copy, Debug, PartialEq, Eq, Structural)]
pub enum SetupStep {
    /// Make the window a layer-shell surface.
    InitLayerShell,
    SetLayer(Layer),
    EnterFullscreen,
    SetKeyboardMode(KeyboardMode),
    SetAnchor { edge: Edge, anchored: bool },
    /// Start to listen for key presses.
    ListenForKeys,
    /// Start to listen for presses of a pointer button.
    ListenForClicks { button: u32 },
    /// Put the label into the window.
    PlaceLabel { halign: Align, valign: Align },
    /// Make the window visible.
    Show,
}

/// The steps that put `surface` on screen, in order: layer, size, keyboard
/// focus and anchors first, then the listeners and the label, and the step
/// that makes it visible last.
pub open spec fn setup_plan_of(surface: OverlaySurface) -> Seq<SetupStep> {
    let configure = seq![
        SetupStep::InitLayerShell,
        SetupStep::SetLayer(surface.layer),
    ] + (if surface.fullscreen {
        seq![SetupStep::EnterFullscreen]
    } else {
        seq![]
    }) + seq![
        SetupStep::SetKeyboardMode(surface.keyboard_mode),
        SetupStep::SetAnchor { edge: Edge::Left, anchored: surface.anchors.holds(Edge::Left) },
        SetupStep::SetAnchor { edge: Edge::Right, anchored: surface.anchors.holds(Edge::Right) },
        SetupStep::SetAnchor { edge: Edge::Top, anchored: surface.anchors.holds(Edge::Top) },
        SetupStep::SetAnchor { edge: Edge::Bottom, anchored: surface.anchors.holds(Edge::Bottom) },
        SetupStep::ListenForKeys,
        SetupStep::ListenForClicks { button: surface.click_button },
        SetupStep::PlaceLabel { halign: surface.label.halign, valign: surface.label.valign },
    ];
    configure + seq![SetupStep::Show]
}

impl OverlaySurface {
    /// Lists the steps that put this surface on screen. The window becomes
    /// visible in the last step and in no earlier one, so that it is never
    /// seen partly configured.
    pub fn setup_plan(&self) -> (r: Vec<SetupStep>)
        ensures
            r@ == setup_plan_of(*self),
            r@.len() > 0,
            r@.last() == SetupStep::Show,
            forall|i: int| 0 <= i < r@.len() - 1 ==> r@[i] != SetupStep::Show,
    {
        let mut plan: Vec<SetupStep> = Vec::new();
        plan.push(SetupStep::InitLayerShell);
        plan.push(SetupStep::SetLayer(self.layer));
        if self.fullscreen {
            plan.push(SetupStep::EnterFullscreen);
        }
        plan.push(SetupStep::SetKeyboardMode(self.keyboard_mode));
        plan.push(
            SetupStep::SetAnchor { edge: Edge::Left, anchored: self.anchors.is_anchored(Edge::Left) },
        );
        plan.push(
            SetupStep::SetAnchor { edge: Edge::Right, anchored: self.anchors.is_anchored(Edge::Right) },
        );
        plan.push(
            SetupStep::SetAnchor { edge: Edge::Top, anchored: self.anchors.is_anchored(Edge::Top) },
        );
        plan.push(
            SetupStep::SetAnchor { edge: Edge::Bottom, anchored: self.anchors.is_anchored(Edge::Bottom) },
        );
        plan.push(SetupStep::ListenForKeys);
        plan.push(SetupStep::ListenForClicks { button: self.click_button });
        plan.push(
            SetupStep::PlaceLabel { halign: self.label.halign, valign: self.label.valign },
        );
        plan.push(SetupStep::Show);
        assert(plan@ =~= setup_plan_of(*self));
        plan
    }
}

} // verus!
