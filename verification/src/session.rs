//! What a key press asks of the viewer.
//!
//! The viewer pans with `w`, `a`, `s` and `d`, zooms with `=` and `-`,
//! changes the iteration threshold with the arrow keys up and down, and
//! leaves on `Esc` or `q`. With Alt held, one key press counts for many.

use vstd::prelude::*;

verus! {

/// Iteration threshold of a new session.
pub const DEFAULT_THRESHOLD: usize = 500;

/// The keys that the viewer tells apart.
#[derive(Clone, Copy, Debug, PartialEq, Eq)]
pub enum KeyCode {
    Esc,
    Char(char),
    Up,
    Down,
    Other,
}

/// A key press: the key, and whether Alt was held.
#[derive(Clone, Copy, Debug, PartialEq, Eq)]
pub struct KeyPress {
    pub code: KeyCode,
    pub alt: bool,
}

/// One of the two axes of the view.
#[derive(Clone, Copy, Debug, PartialEq, Eq)]
pub enum Axis {
    Horizontal,
    Vertical,
}

/// What the viewer does in answer to an event.
#[derive(Clone, Copy, Debug, PartialEq, Eq)]
pub enum Action {
    /// Leave the viewer.
    Quit,
    /// Do nothing, and do not draw.
    Ignore,
    /// Draw the view as it is.
    Redraw,
    /// Shift the window of `axis` by `steps` times the distance between two
    /// neighbouring pixels, then draw. A negative number shifts towards
    /// smaller coordinates.
    Pan { axis: Axis, steps: i32 },
    /// Zoom in `times` times on both axes, then draw.
    ZoomIn { times: u32 },
    /// Zoom out `times` times on both axes, then draw.
    ZoomOut { times: u32 },
    /// Take `threshold` as the new iteration threshold, then draw.
    SetThreshold { threshold: usize },
}

/// Number of pixel distances that one pan key press shifts the view by.
pub open spec fn pan_steps(alt: bool) -> int {
    if alt {
        100
    } else {
        1
    }
}

/// Number of zoom steps that one zoom key press stands for.
pub open spec fn zoom_times(alt: bool) -> int {
    if alt {
        10
    } else {
        1
    }
}

/// Amount by which one arrow key press changes the iteration threshold.
pub open spec fn threshold_step(alt: bool) -> int {
    if alt {
        50
    } else {
        1
    }
}

/// The answer to `event`, where `None` stands for an event without a key:
/// the start of the session, or a change of the terminal's size.
///
/// Before the session has a view (`has_memory` is false) only the keys that
/// leave the viewer have an effect. Lowering the threshold stops at zero.
pub open spec fn action_for(has_memory: bool, threshold: usize, event: Option<KeyPress>) -> Action {
    match event {
        None => Action::Redraw,
        Some(key) => match key.code {
            KeyCode::Esc => Action::Quit,
            KeyCode::Char(c) => if c == 'q' {
                Action::Quit
            } else if !has_memory {
                Action::Ignore
            } else if c == 'w' {
                Action::Pan { axis: Axis::Vertical, steps: (-pan_steps(key.alt)) as i32 }
            } else if c == 's' {
                Action::Pan { axis: Axis::Vertical, steps: pan_steps(key.alt) as i32 }
            } else if c == 'a' {
                Action::Pan { axis: Axis::Horizontal, steps: (-pan_steps(key.alt)) as i32 }
            } else if c == 'd' {
                Action::Pan { axis: Axis::Horizontal, steps: pan_steps(key.alt) as i32 }
            } else if c == '=' {
                Action::ZoomIn { times: zoom_times(key.alt) as u32 }
            } else if c == '-' {
                Action::ZoomOut { times: zoom_times(key.alt) as u32 }
            } else {
                Action::Ignore
            },
            KeyCode::Up => if has_memory {
                Action::SetThreshold { threshold: (threshold + threshold_step(key.alt)) as usize }
            } else {
                Action::Ignore
            },
            KeyCode::Down => if has_memory {
                Action::SetThreshold {
                    threshold: if threshold >= threshold_step(key.alt) {
                        (threshold - threshold_step(key.alt)) as usize
                    } else {
                        0
                    },
                }
            } else {
                Action::Ignore
            },
            KeyCode::Other => Action::Ignore,
        },
    }
}

/// Whether `event` raises the threshold of a session that has a view.
pub open spec fn raises_threshold(has_memory: bool, event: Option<KeyPress>) -> bool {
    &&& has_memory
    &&& event matches Some(key)
    &&& key.code == KeyCode::Up
}

/// Decides what the viewer does in answer to `event`. A raised threshold
/// has to fit in `usize`.
pub fn on_event(has_memory: bool, threshold: usize, event: Option<KeyPress>) -> (action: Action)
    requires
        raises_threshold(has_memory, event) ==> threshold + threshold_step(event.unwrap().alt)
            <= usize::MAX,
    ensures
        action == action_for(has_memory, threshold, event),
{
    let key = match event {
        None => {
            return Action::Redraw;
        },
        Some(key) => key,
    };
    let (additional_scaler, zoom_times, int_amount): (i32, u32, usize) = if key.alt {
        (100, 10, 50)
    } else {
        (1, 1, 1)
    };
    match key.code {
        KeyCode::Esc => Action::Quit,
        KeyCode::Char(c) => {
            if c == 'q' {
                Action::Quit
            } else if !has_memory {
                Action::Ignore
            } else if c == 'w' {
                Action::Pan { axis: Axis::Vertical, steps: -additional_scaler }
            } else if c == 's' {
                Action::Pan { axis: Axis::Vertical, steps: additional_scaler }
            } else if c == 'a' {
                Action::Pan { axis: Axis::Horizontal, steps: -additional_scaler }
            } else if c == 'd' {
                Action::Pan { axis: Axis::Horizontal, steps: additional_scaler }
            } else if c == '=' {
                Action::ZoomIn { times: zoom_times }
            } else if c == '-' {
                Action::ZoomOut { times: zoom_times }
            } else {
                Action::Ignore
            }
        },
        KeyCode::Up => {
            if has_memory {
                Action::SetThreshold { threshold: threshold + int_amount }
            } else {
                Action::Ignore
            }
        },
        KeyCode::Down => {
            if has_memory {
                Action::SetThreshold { threshold: threshold.saturating_sub(int_amount) }
            } else {
                Action::Ignore
            }
        },
        KeyCode::Other => Action::Ignore,
    }
}

impl Action {
    /// Whether the frame that follows the action is computed with the
    /// cache: after a pan, and only then. A pan moves the view by whole
    /// pixel distances, so most points of the new frame were points of the
    /// last one; a zoom or a new threshold leaves next to none of them.
    pub fn uses_cache(&self) -> (cached: bool)
        ensures
            cached == (*self is Pan),
    {
        match self {
            Action::Pan { .. } => true,
            _ => false,
        }
    }

    /// Whether the action ends with drawing a frame.
    pub fn draws(&self) -> (drawn: bool)
        ensures
            drawn == !(*self is Quit || *self is Ignore),
    {
        match self {
            Action::Quit => false,
            Action::Ignore => false,
            _ => true,
        }
    }
}

/// Length of the pixel range that the first view of a session is laid
/// over, on both axes: the smaller of the grid's two dimensions.
pub fn default_span(bit_width: usize, bit_height: usize) -> (len: usize)
    ensures
        len == (if bit_height <= bit_width {
            bit_height
        } else {
            bit_width
        }),
{
    if bit_height <= bit_width {
        bit_height
    } else {
        bit_width
    }
}

} // verus!
