use vstd::prelude::*;

verus! {

/// What a pointer report says the pointer did. Mirrors the kinds a terminal
/// reports; which button was involved does not matter here.
#[derive(Clone, Copy, Debug, PartialEq, Eq, Structural)]
pub enum PointerKind {
    Down,
    Up,
    Drag,
    Moved,
    ScrollDown,
    ScrollUp,
}

/// Remembers the last pointer coordinate it was shown.
#[derive(Clone, Copy, Debug)]
pub struct Mouse {
    pub position: (u16, u16),
}

/// The delta a report at `(x, y)` of kind `kind` yields against the tracker
/// `m`: the distance from the last coordinate for a drag, nothing otherwise.
pub open spec fn delta_of(m: Mouse, x: u16, y: u16, kind: PointerKind) -> (int, int) {
    if kind == PointerKind::Drag {
        (x - m.position.0, y - m.position.1)
    } else {
        (0, 0)
    }
}

/// The tracker after it has seen a report at `(x, y)`, whatever its kind.
pub open spec fn after_report(m: Mouse, x: u16, y: u16) -> Mouse {
    Mouse { position: (x, y) }
}

/// The tracker after it has seen every report of `reports`, in order.
pub open spec fn after_reports(m: Mouse, reports: Seq<(u16, u16, PointerKind)>) -> Mouse
    decreases reports.len(),
{
    if reports.len() == 0 {
        m
    } else {
        let r = reports.last();
        after_report(after_reports(m, reports.drop_last()), r.0, r.1)
    }
}

impl Mouse {
    /// A tracker whose last known coordinate is `(x, y)`.
    pub fn record(x: u16, y: u16) -> (r: Self)
        ensures
            r.position == (x, y),
    {
        Self { position: (x, y) }
    }

    /// Takes a pointer report: returns the delta it yields and remembers its
    /// coordinate.
    pub fn update(&mut self, x: u16, y: u16, state: PointerKind) -> (r: (i32, i32))
        ensures
            (r.0 as int, r.1 as int) == delta_of(*old(self), x, y, state),
            *final(self) == after_report(*old(self), x, y),
    {
        let result: (i32, i32) = match state {
            PointerKind::Drag => (
                x as i32 - self.position.0 as i32,
                y as i32 - self.position.1 as i32,
            ),
            _ => (0, 0),
        };
        *self = Self::record(x, y);
        result
    }
}

/// After any non-empty run of reports, the tracker holds the coordinate of
/// the last one, whatever the kinds and the deltas were.
pub proof fn lemma_last_report_wins(m: Mouse, reports: Seq<(u16, u16, PointerKind)>)
    requires
        reports.len() > 0,
    ensures
        after_reports(m, reports).position == (reports.last().0, reports.last().1),
{
}

/// A report of any kind but a drag yields no delta, however far the pointer
/// went.
pub proof fn lemma_only_drags_move(m: Mouse, x: u16, y: u16, kind: PointerKind)
    requires
        kind != PointerKind::Drag,
    ensures
        delta_of(m, x, y, kind) == (0int, 0int),
{
}

} // verus!
