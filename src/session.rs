use vstd::prelude::*;

use crate::pointer::{after_report, delta_of, Mouse, PointerKind};
use crate::shape::{plan, translated, DrawCommand, Window, WindowView};

verus! {

/// Whether the drag loop goes on.
#[derive(Clone, Copy, Debug, PartialEq, Eq, Structural)]
pub enum LoopState {
    Running,
    Terminated,
}

/// An input event, as the loop sees it.
#[derive(Clone, Copy, Debug, PartialEq, Eq, Structural)]
pub enum InputEvent {
    /// The pointer did something at a column and row.
    Pointer { kind: PointerKind, column: u16, row: u16 },
    /// A key was pressed.
    Key,
    FocusGained,
    FocusLost,
    /// Text was pasted.
    Paste,
    /// The terminal now has this many columns and rows.
    Resize(u16, u16),
}

/// What the caller is to do after an event.
#[derive(Clone, Debug, PartialEq, Eq)]
pub enum Step {
    /// Nothing.
    Idle,
    /// Clear the screen, carry out these commands, then flush.
    Redraw(Vec<DrawCommand>),
    /// Report the new terminal size; the shape stays as it is.
    Resized(u16, u16),
    /// Leave the loop.
    Quit,
}

/// The loop's state: the shape, the tracker, and whether it goes on.
pub struct Session {
    window: Window,
    mouse: Mouse,
    state: LoopState,
}

/// What a session holds, as plain values.
pub struct SessionView {
    pub window: WindowView,
    pub mouse: Mouse,
    pub state: LoopState,
}

impl View for Session {
    type V = SessionView;

    closed spec fn view(&self) -> SessionView {
        SessionView { window: self.window@, mouse: self.mouse, state: self.state }
    }
}

/// Whether the cell at `(column, row)` lies strictly inside the shape of
/// `size` at `position`: a cell on any edge does not.
pub open spec fn hits(position: (u16, u16), size: (u16, u16), column: u16, row: u16) -> bool {
    &&& position.0 < column < position.0 + size.0
    &&& position.1 < row < position.1 + size.1
}

/// Whether the event ends the loop: a key press or a change of focus.
pub open spec fn is_terminating(event: InputEvent) -> bool {
    event is Key || event is FocusGained || event is FocusLost
}

/// Whether `after` and `r` are what a pointer report of `kind` at
/// `(column, row)` leads to from `before`. A plain move is ignored. Any other
/// report updates the tracker; when the reported cell lies strictly inside the
/// shape, the shape moves by the tracker's delta and is redrawn.
pub open spec fn pointer_outcome(
    before: SessionView,
    after: SessionView,
    kind: PointerKind,
    column: u16,
    row: u16,
    r: Step,
) -> bool {
    if kind == PointerKind::Moved {
        after == before && r == Step::Idle
    } else {
        let d = delta_of(before.mouse, column, row, kind);
        &&& after.mouse == after_report(before.mouse, column, row)
        &&& after.state == before.state
        &&& if hits(before.window.position, before.window.size, column, row) {
            &&& after.window.size == before.window.size
            &&& after.window.position == translated(before.window.position, before.window.size, d.0, d.1)
            &&& r matches Step::Redraw(cmds) && cmds@ == plan(after.window.dots)
        } else {
            after.window == before.window && r == Step::Idle
        }
    }
}

impl Session {
    /// The shape is well formed.
    pub open spec fn wf(&self) -> bool {
        self@.window.well_formed()
    }

    /// A running loop over `window` and `mouse`.
    pub fn new(window: Window, mouse: Mouse) -> (r: Self)
        requires
            window.wf(),
        ensures
            r.wf(),
            r@ == (SessionView { window: window@, mouse, state: LoopState::Running }),
    {
        Session { window, mouse, state: LoopState::Running }
    }

    /// Decides what an event does to the loop and what the caller is to do.
    pub fn handle(&mut self, event: InputEvent) -> (r: Step)
        requires
            old(self).wf(),
        ensures
            final(self).wf(),
            is_terminating(event) ==> {
                &&& final(self)@.window == old(self)@.window
                &&& final(self)@.mouse == old(self)@.mouse
                &&& final(self)@.state == LoopState::Terminated
                &&& r == Step::Quit
            },
            event is Paste ==> final(self)@ == old(self)@ && r == Step::Idle,
            event matches InputEvent::Resize(columns, rows) ==> {
                &&& final(self)@ == old(self)@
                &&& r == Step::Resized(columns, rows)
            },
            event matches InputEvent::Pointer { kind, column, row } ==> pointer_outcome(
                old(self)@,
                final(self)@,
                kind,
                column,
                row,
                r,
            ),
    {
        match event {
            InputEvent::Key | InputEvent::FocusGained | InputEvent::FocusLost => {
                self.state = LoopState::Terminated;
                Step::Quit
            },
            InputEvent::Paste => Step::Idle,
            InputEvent::Resize(columns, rows) => Step::Resized(columns, rows),
            InputEvent::Pointer { kind, column, row } => {
                if kind == PointerKind::Moved {
                    return Step::Idle;
                }
                let (dx, dy) = self.mouse.update(column, row, kind);
                let position = self.window.position();
                let size = self.window.size();
                if position.0 < column && column < position.0 + size.0 && position.1 < row && row
                    < position.1 + size.1 {
                    self.window.drog(dx, dy);
                    Step::Redraw(self.window.draw())
                } else {
                    Step::Idle
                }
            },
        }
    }

    /// The shape.
    pub fn window(&self) -> (r: &Window)
        ensures
            r@ == self@.window,
    {
        &self.window
    }

    /// The pointer tracker.
    pub fn mouse(&self) -> (r: Mouse)
        ensures
            r == self@.mouse,
    {
        self.mouse
    }

    /// Whether the loop goes on or has ended.
    pub fn state(&self) -> (r: LoopState)
        ensures
            r == self@.state,
    {
        self.state
    }
}

} // verus!
