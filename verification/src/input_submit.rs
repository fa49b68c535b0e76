//! What the events of a text input ask for.
use vstd::prelude::*;

verus! {

/// An event of a text input.
#[derive(Clone, Copy, Debug, PartialEq, Eq, Structural)]
pub enum InputEvent {
    Change,
    PressEnter,
    Focus,
    Blur,
}

/// Enter submits an input; nothing else does.
pub fn is_submit(event: InputEvent) -> (r: bool)
    ensures
        r == (event is PressEnter),
{
    matches!(event, InputEvent::PressEnter)
}

/// Whether an event of a metadata input changes what is drawn around it. Its
/// own text is drawn by the input itself.
pub fn metadata_input_needs_parent_render(event: InputEvent) -> (r: bool)
    ensures
        r == (event is Focus || event is Blur),
{
    matches!(event, InputEvent::Focus | InputEvent::Blur)
}

} // verus!
