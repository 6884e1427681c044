//! What the engine does when the window reports something.

use vstd::prelude::*;

verus! {

/// What a window can report, as far as the engine cares.
#[derive(Clone, Copy, Debug, PartialEq, Eq, Structural)]
pub enum WindowSignal {
    /// The user asked to close the window.
    CloseRequested,
    /// The drawing area has a new size, in pixels.
    Resized { width: u32, height: u32 },
    /// The window wants its contents drawn.
    RedrawRequested,
    /// Anything else.
    Other,
}

/// What the engine does next.
#[derive(Clone, Copy, Debug, PartialEq, Eq, Structural)]
pub enum Reaction {
    /// Leave the event loop.
    Exit,
    /// Give the renderer the new size and ask for a redraw.
    Resize { width: u32, height: u32 },
    /// Advance the world by one step and draw it.
    Frame,
    /// Nothing.
    Ignore,
}

/// A surface can be configured only with a size that has no zero side.
pub open spec fn usable_size(width: u32, height: u32) -> bool {
    width > 0 && height > 0
}

/// The reaction that each signal calls for. A resize to a size with a zero
/// side, as a minimised window reports it, is ignored.
pub open spec fn reaction_to(signal: WindowSignal) -> Reaction {
    match signal {
        WindowSignal::CloseRequested => Reaction::Exit,
        WindowSignal::Resized { width, height } => if usable_size(width, height) {
            Reaction::Resize { width, height }
        } else {
            Reaction::Ignore
        },
        WindowSignal::RedrawRequested => Reaction::Frame,
        WindowSignal::Other => Reaction::Ignore,
    }
}

/// Decides `usable_size`.
pub fn is_usable_size(width: u32, height: u32) -> (b: bool)
    ensures
        b == usable_size(width, height),
{
    width > 0 && height > 0
}

/// Computes `reaction_to(signal)`.
pub fn react(signal: WindowSignal) -> (r: Reaction)
    ensures
        r == reaction_to(signal),
{
    match signal {
        WindowSignal::CloseRequested => Reaction::Exit,
        WindowSignal::Resized { width, height } => {
            if is_usable_size(width, height) {
                Reaction::Resize { width, height }
            } else {
                Reaction::Ignore
            }
        },
        WindowSignal::RedrawRequested => Reaction::Frame,
        WindowSignal::Other => Reaction::Ignore,
    }
}

} // verus!
