//! Mouse and keyboard: who steers, and who has the cursor.
//!
//! A click of the left mouse button hands the mouse to the camera: steering
//! is switched on, the cursor is locked to the window and hidden. The Escape
//! key takes it back. Where both come in one frame the click is served
//! first, so the frame ends with the cursor free.

use vstd::prelude::*;

verus! {

/// A request to the window that shows the scene.
#[derive(Clone, Copy, Debug, PartialEq, Eq, Structural)]
pub enum WindowCommand {
    /// Lock the cursor to the window, or let it go.
    CursorLock(bool),
    /// Show the cursor, or hide it.
    CursorVisibility(bool),
}

/// What a left click asks of the window.
pub open spec fn grab() -> Seq<WindowCommand> {
    seq![WindowCommand::CursorLock(true), WindowCommand::CursorVisibility(false)]
}

/// What the Escape key asks of the window.
pub open spec fn release() -> Seq<WindowCommand> {
    seq![WindowCommand::CursorLock(false), WindowCommand::CursorVisibility(true)]
}

/// The requests of one frame, in the order in which they are to be made.
pub open spec fn window_commands(left_click: bool, escape: bool) -> Seq<WindowCommand> {
    (if left_click {
        grab()
    } else {
        Seq::empty()
    }) + (if escape {
        release()
    } else {
        Seq::empty()
    })
}

/// Whether the camera is steered after the frame.
pub open spec fn steering(enabled: bool, left_click: bool, escape: bool) -> bool {
    if escape {
        false
    } else if left_click {
        true
    } else {
        enabled
    }
}

/// What the window does with its cursor.
#[derive(Clone, Copy, Debug, PartialEq, Eq, Structural)]
pub struct Cursor {
    pub locked: bool,
    pub visible: bool,
}

impl Cursor {
    /// The cursor after one request.
    pub open spec fn after(self, command: WindowCommand) -> Cursor {
        match command {
            WindowCommand::CursorLock(locked) => Cursor { locked, visible: self.visible },
            WindowCommand::CursorVisibility(visible) => Cursor { locked: self.locked, visible },
        }
    }

    /// The cursor after a row of requests, made from the first to the last.
    pub open spec fn after_all(self, commands: Seq<WindowCommand>) -> Cursor
        decreases commands.len(),
    {
        if commands.len() == 0 {
            self
        } else {
            self.after_all(commands.drop_last()).after(commands.last())
        }
    }
}

/// Serves the input of one frame for one camera.
///
/// `enabled` says whether the camera is steered now; `left_click` and
/// `escape` say whether the left mouse button and the Escape key went down
/// in this frame. Returns whether the camera is steered from now on, and the
/// requests to make of the window, in order.
pub fn toggle_button_system(enabled: bool, left_click: bool, escape: bool) -> (out: (
    bool,
    Vec<WindowCommand>,
))
    ensures
        out.0 == steering(enabled, left_click, escape),
        out.1@ == window_commands(left_click, escape),
{
    let mut enabled = enabled;
    let mut commands: Vec<WindowCommand> = Vec::new();
    if left_click {
        if !enabled {
            enabled = true;
        }
        commands.push(WindowCommand::CursorLock(true));
        commands.push(WindowCommand::CursorVisibility(false));
    }
    if escape {
        if enabled {
            enabled = false;
        }
        commands.push(WindowCommand::CursorLock(false));
        commands.push(WindowCommand::CursorVisibility(true));
    }
    (enabled, commands)
}

/// The cursor goes with the steering. After a frame with a click or the
/// Escape key, wherever the cursor was before, it is locked and hidden if the
/// camera is steered, and free and shown if it is not.
pub proof fn cursor_follows_steering(
    cursor: Cursor,
    enabled: bool,
    left_click: bool,
    escape: bool,
)
    requires
        left_click || escape,
    ensures
        cursor.after_all(window_commands(left_click, escape)) == (Cursor {
            locked: steering(enabled, left_click, escape),
            visible: !steering(enabled, left_click, escape),
        }),
{
    let commands = window_commands(left_click, escape);
    reveal_with_fuel(Cursor::after_all, 5);
    if left_click && escape {
        assert(commands.drop_last() == grab().push(WindowCommand::CursorLock(false)));
        assert(commands.drop_last().drop_last() == grab());
    } else if left_click {
        assert(commands == grab());
    } else {
        assert(commands == release());
    }
}

/// A quiet frame asks nothing of the window and leaves the steering as it
/// was.
pub proof fn quiet_frame_changes_nothing(cursor: Cursor, enabled: bool)
    ensures
        steering(enabled, false, false) == enabled,
        cursor.after_all(window_commands(false, false)) == cursor,
{
    assert(window_commands(false, false) == Seq::<WindowCommand>::empty());
}

} // verus!
