//! Pointer handling of one candidate field in the popup: hover selects it,
//! press and release over it picks it.

use vstd::prelude::*;

verus! {

/// The local state of a selection field.
#[derive(Debug, Clone, Copy, PartialEq, Eq, Structural)]
pub struct State {
    pub is_hovered: bool,
    pub is_pressed: bool,
}

/// A pointer event, reduced to what the field reacts to.
#[derive(Debug, Clone, Copy, PartialEq, Eq, Structural)]
pub enum Pointer {
    /// The pointer moved.
    Moved,
    /// The primary button (or a finger) went down.
    Pressed,
    /// The primary button (or a finger) went up.
    Released,
    /// The pointer left the surface, or the touch was lost.
    Left,
    Other,
}

/// The message a field sends to the application.
#[derive(Debug, Clone, Copy, PartialEq, Eq, Structural)]
pub enum Publish {
    Nothing,
    /// The field's hover message.
    Select,
    /// The field's press message.
    Press,
}

/// The field's answer to a pointer event.
#[derive(Debug, Clone, Copy, PartialEq, Eq, Structural)]
pub struct Response {
    /// The event is consumed by the field.
    pub captured: bool,
    pub publish: Publish,
}

/// The state after `ev`, with `over` telling whether the pointer is over the
/// field and `pressable` whether the field has a press message.
pub open spec fn next_state(s: State, ev: Pointer, over: bool, pressable: bool) -> State {
    match ev {
        Pointer::Moved => if over {
            State { is_hovered: true, ..s }
        } else {
            s
        },
        Pointer::Pressed => if pressable && over {
            State { is_pressed: true, ..s }
        } else {
            s
        },
        Pointer::Released => if pressable && s.is_pressed {
            State { is_pressed: false, ..s }
        } else {
            s
        },
        Pointer::Left => State { is_hovered: false, is_pressed: false },
        Pointer::Other => s,
    }
}

/// The field's answer to `ev`; `selectable` tells whether it has a hover
/// message.
pub open spec fn response(
    s: State,
    ev: Pointer,
    over: bool,
    pressable: bool,
    selectable: bool,
) -> Response {
    match ev {
        Pointer::Moved => if over {
            Response {
                captured: true,
                publish: if selectable {
                    Publish::Select
                } else {
                    Publish::Nothing
                },
            }
        } else {
            Response { captured: false, publish: Publish::Nothing }
        },
        Pointer::Pressed => Response { captured: pressable && over, publish: Publish::Nothing },
        Pointer::Released => if pressable && s.is_pressed {
            Response {
                captured: true,
                publish: if over {
                    Publish::Press
                } else {
                    Publish::Nothing
                },
            }
        } else {
            Response { captured: false, publish: Publish::Nothing }
        },
        _ => Response { captured: false, publish: Publish::Nothing },
    }
}

impl State {
    /// Creates a new [`State`]: neither hovered nor pressed.
    pub fn new() -> (r: State)
        ensures
            !r.is_hovered,
            !r.is_pressed,
    {
        State { is_hovered: false, is_pressed: false }
    }

    /// Applies a pointer event and says whether the field consumes it and
    /// which message it sends. A press message goes out only when a press
    /// that began over the field ends over it.
    pub fn on_pointer(
        &mut self,
        ev: Pointer,
        over: bool,
        pressable: bool,
        selectable: bool,
    ) -> (r: Response)
        ensures
            *final(self) == next_state(*old(self), ev, over, pressable),
            r == response(*old(self), ev, over, pressable, selectable),
    {
        match ev {
            Pointer::Moved => {
                if over {
                    self.is_hovered = true;
                    let publish = if selectable {
                        Publish::Select
                    } else {
                        Publish::Nothing
                    };
                    Response { captured: true, publish }
                } else {
                    Response { captured: false, publish: Publish::Nothing }
                }
            },
            Pointer::Pressed => {
                if pressable && over {
                    self.is_pressed = true;
                    Response { captured: true, publish: Publish::Nothing }
                } else {
                    Response { captured: false, publish: Publish::Nothing }
                }
            },
            Pointer::Released => {
                if pressable && self.is_pressed {
                    self.is_pressed = false;
                    let publish = if over {
                        Publish::Press
                    } else {
                        Publish::Nothing
                    };
                    Response { captured: true, publish }
                } else {
                    Response { captured: false, publish: Publish::Nothing }
                }
            },
            Pointer::Left => {
                self.is_hovered = false;
                self.is_pressed = false;
                Response { captured: false, publish: Publish::Nothing }
            },
            Pointer::Other => Response { captured: false, publish: Publish::Nothing },
        }
    }
}

/// A field at (`page`, `index`) of the window is drawn as selected when the
/// popup's cursor is there.
pub fn is_selected(page: usize, index: usize, cursor_page: usize, cursor_index: usize) -> (r: bool)
    ensures
        r == (page == cursor_page && index == cursor_index),
{
    page == cursor_page && index == cursor_index
}

} // verus!
