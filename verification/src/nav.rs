//! The navigation controller: the input-to-parameter state machine.
//!
//! A synchronous state machine with no state beyond the parameter
//! record and the cached last-known pointer position.  Every input
//! event maps to a transition of [`nav_step`]; the executable
//! [`Controller::handle`] is proved to implement exactly that
//! transition table.
//!
//! Two transitions deviate deliberately from wrapping arithmetic: the
//! iteration bound is lowered with a floor at zero (a wrapping
//! decrement would jump to a huge bound) and raised with a cap at
//! `u32::MAX`.
//!
//! The left-click transition recenters the viewport on the pointer.
//! The recenter target is binary64 arithmetic over the cached pointer
//! position, the surface size, and the zoom factor, which the library
//! cannot carry out; the embedder evaluates it and passes the target
//! in with the event, and the controller records it and halves the
//! zoom.  The zoom change itself is exact bit-level arithmetic and is
//! verified.

use vstd::prelude::*;
use crate::binary64::{
    double_bits, halve_bits, halve_is_exact, is_finite, spec_double_bits, spec_halve_bits,
};
use crate::binary64::lemma_halve_then_double;
use crate::params::{Params, MIDDLE_X_START_BITS, MIDDLE_Y_START_BITS, ZOOM_ONE_BITS};

verus! {

/// An input event, as the transition table sees it.
#[derive(Clone, Copy, Debug, PartialEq, Eq, Structural)]
pub enum NavEvent {
    /// The output surface was resized.
    Resized { width: u32, height: u32 },
    /// The window was asked to close.
    CloseRequested,
    /// The Escape key was pressed.
    EscapePressed,
    /// The pointer moved to the given window coordinates (binary64
    /// bits).
    PointerMoved { x_bits: u64, y_bits: u64 },
    /// The Up-arrow key was pressed: raise the iteration bound.
    UpArrow,
    /// The Down-arrow key was pressed: lower the iteration bound.
    DownArrow,
    /// The left mouse button was pressed: recenter on the pointer and
    /// zoom in.  The fields carry the recenter target — the complex
    /// coordinate under the cached pointer position, evaluated by the
    /// embedder in binary64 (binary64 bits).
    LeftClick { middle_x_bits: u64, middle_y_bits: u64 },
    /// The right mouse button was pressed: zoom out, center unchanged.
    RightClick,
    /// The event queue ran dry; the loop idles until the next event.
    Idle,
}

/// What the embedder must do after a transition.
#[derive(Clone, Copy, Debug, PartialEq, Eq, Structural)]
pub enum NavAction {
    /// Nothing; carry on with the loop.
    Carry,
    /// Rebuild the output surface configuration to the new size.
    Reconfigure,
    /// Request a redraw of the frame.
    Redraw,
    /// Leave the event loop; the terminal state.
    Exit,
}

/// The navigation state: the parameter record and the cached pointer
/// position (binary64 bits, updated on every pointer move and
/// otherwise unread until the next click).
#[derive(Clone, Copy, Debug, PartialEq, Eq, Structural)]
pub struct Controller {
    /// The parameter record driving rendering.
    pub params: Params,
    /// Cached pointer x position in window coordinates.
    pub mouse_x_bits: u64,
    /// Cached pointer y position in window coordinates.
    pub mouse_y_bits: u64,
}

/// The iteration bound raised by one step of 100, capped at the top of
/// the counter.
pub open spec fn iterations_raised(n: u32) -> u32 {
    if n + 100 <= u32::MAX {
        (n + 100) as u32
    } else {
        u32::MAX
    }
}

/// The iteration bound lowered by one step of 100, with a floor at
/// zero: the bound is a non-negative quantity and must not wrap.
pub open spec fn iterations_lowered(n: u32) -> u32 {
    if n >= 100 {
        (n - 100) as u32
    } else {
        0
    }
}

/// The transition table: the state after an event, and what the
/// embedder must do.
pub open spec fn nav_step(c: Controller, e: NavEvent) -> (Controller, NavAction) {
    match e {
        NavEvent::Resized { width, height } => {
            if width > 0 && height > 0 {
                (
                    Controller { params: Params { width, height, ..c.params }, ..c },
                    NavAction::Reconfigure,
                )
            } else {
                (c, NavAction::Carry)
            }
        },
        NavEvent::CloseRequested => (c, NavAction::Exit),
        NavEvent::EscapePressed => (c, NavAction::Exit),
        NavEvent::PointerMoved { x_bits, y_bits } => {
            (Controller { mouse_x_bits: x_bits, mouse_y_bits: y_bits, ..c }, NavAction::Carry)
        },
        NavEvent::UpArrow => {
            (
                Controller {
                    params: Params { iterations: iterations_raised(c.params.iterations), ..c.params },
                    ..c
                },
                NavAction::Carry,
            )
        },
        NavEvent::DownArrow => {
            (
                Controller {
                    params: Params {
                        iterations: iterations_lowered(c.params.iterations),
                        ..c.params
                    },
                    ..c
                },
                NavAction::Carry,
            )
        },
        NavEvent::LeftClick { middle_x_bits, middle_y_bits } => {
            (
                Controller {
                    params: Params {
                        middle_x_bits,
                        middle_y_bits,
                        zoom_bits: spec_halve_bits(c.params.zoom_bits),
                        ..c.params
                    },
                    ..c
                },
                NavAction::Carry,
            )
        },
        NavEvent::RightClick => {
            (
                Controller {
                    params: Params {
                        zoom_bits: spec_double_bits(c.params.zoom_bits),
                        ..c.params
                    },
                    ..c
                },
                NavAction::Carry,
            )
        },
        NavEvent::Idle => (c, NavAction::Redraw),
    }
}

impl Controller {
    /// The startup state: the initial surface size, an iteration bound
    /// of 100, unit zoom, the viewport centered at `-0.5 + 0i`, and
    /// the pointer cached at the origin.
    pub fn new(width: u32, height: u32) -> (c: Controller)
        ensures
            c == (Controller {
                params: Params {
                    width,
                    height,
                    iterations: 100,
                    zoom_bits: ZOOM_ONE_BITS,
                    middle_x_bits: MIDDLE_X_START_BITS,
                    middle_y_bits: MIDDLE_Y_START_BITS,
                },
                mouse_x_bits: 0,
                mouse_y_bits: 0,
            }),
    {
        Controller { params: Params::new(width, height, 100), mouse_x_bits: 0, mouse_y_bits: 0 }
    }

    /// Dispatch one event: mutate the state as the transition table
    /// says and answer what the embedder must do.
    pub fn handle(&mut self, e: NavEvent) -> (act: NavAction)
        ensures
            *final(self) == nav_step(*old(self), e).0,
            act == nav_step(*old(self), e).1,
    {
        match e {
            NavEvent::Resized { width, height } => {
                if width > 0 && height > 0 {
                    self.params.width = width;
                    self.params.height = height;
                    NavAction::Reconfigure
                } else {
                    NavAction::Carry
                }
            },
            NavEvent::CloseRequested => NavAction::Exit,
            NavEvent::EscapePressed => NavAction::Exit,
            NavEvent::PointerMoved { x_bits, y_bits } => {
                self.mouse_x_bits = x_bits;
                self.mouse_y_bits = y_bits;
                NavAction::Carry
            },
            NavEvent::UpArrow => {
                if self.params.iterations <= u32::MAX - 100 {
                    self.params.iterations = self.params.iterations + 100;
                } else {
                    self.params.iterations = u32::MAX;
                }
                NavAction::Carry
            },
            NavEvent::DownArrow => {
                if self.params.iterations >= 100 {
                    self.params.iterations = self.params.iterations - 100;
                } else {
                    self.params.iterations = 0;
                }
                NavAction::Carry
            },
            NavEvent::LeftClick { middle_x_bits, middle_y_bits } => {
                self.params.middle_x_bits = middle_x_bits;
                self.params.middle_y_bits = middle_y_bits;
                self.params.zoom_bits = halve_bits(self.params.zoom_bits);
                NavAction::Carry
            },
            NavEvent::RightClick => {
                self.params.zoom_bits = double_bits(self.params.zoom_bits);
                NavAction::Carry
            },
            NavEvent::Idle => NavAction::Redraw,
        }
    }
}

/// Zoom is self-inverse under the click protocol: a right click
/// directly after a left click restores the zoom factor bit for bit,
/// whenever the halving was exact (which it is everywhere except at
/// the very bottom of the exponent range with an odd significand).
/// The pointer and the recenter target play no part in the zoom.
pub proof fn lemma_zoom_self_inverse(c: Controller, mx: u64, my: u64)
    requires
        is_finite(c.params.zoom_bits),
        halve_is_exact(c.params.zoom_bits),
    ensures
        nav_step(
            nav_step(c, NavEvent::LeftClick { middle_x_bits: mx, middle_y_bits: my }).0,
            NavEvent::RightClick,
        ).0.params.zoom_bits == c.params.zoom_bits,
{
    lemma_halve_then_double(c.params.zoom_bits);
}

/// A left click whose recenter target is the current center — which is
/// what the embedder's recentring formula produces when the pointer
/// stands exactly at the surface's geometric center, the delta being
/// zero by construction — leaves the center unchanged and still halves
/// the zoom.
pub proof fn lemma_center_click_keeps_middle(c: Controller)
    ensures
        ({
            let after = nav_step(
                c,
                NavEvent::LeftClick {
                    middle_x_bits: c.params.middle_x_bits,
                    middle_y_bits: c.params.middle_y_bits,
                },
            ).0;
            after.params.middle_x_bits == c.params.middle_x_bits
                && after.params.middle_y_bits == c.params.middle_y_bits
                && after.params.zoom_bits == spec_halve_bits(c.params.zoom_bits)
        }),
{
}

/// A resize event carrying a zero width or height is ignored: the
/// state — width, height, and everything else — is bit for bit what it
/// was, and the surface configuration is not rebuilt.
pub proof fn lemma_degenerate_resize_ignored(c: Controller, width: u32, height: u32)
    requires
        width == 0 || height == 0,
    ensures
        nav_step(c, NavEvent::Resized { width, height }) == (c, NavAction::Carry),
{
}

} // verus!
