use vstd::prelude::*;

verus! {

/// The glyph every cell of the shape is drawn with (a full block).
pub const FILL: char = '\u{2588}';

/// One terminal operation of a render.
#[derive(Clone, Copy, Debug, PartialEq, Eq, Hash, Structural)]
pub enum DrawCommand {
    /// Put the cursor at column, row.
    MoveTo(u16, u16),
    /// Write a glyph at the cursor.
    Print(char),
}

/// A filled rectangle at a position, with the cells it covers.
pub struct Window {
    size: (u16, u16),
    position: (u16, u16),
    dots: Vec<(u16, u16)>,
}

/// What a window holds, as plain values.
pub struct WindowView {
    pub size: (u16, u16),
    pub position: (u16, u16),
    pub dots: Seq<(u16, u16)>,
}

/// Whether a shape of `size` anchored at `position` covers cell `c`. Columns
/// run from the anchor to the anchor plus the width, both included; rows run
/// from the anchor up to, not including, the anchor plus the height.
pub open spec fn in_rectangle(position: (u16, u16), size: (u16, u16), c: (u16, u16)) -> bool {
    &&& position.0 <= c.0 <= position.0 + size.0
    &&& position.1 <= c.1 < position.1 + size.1
}

/// The cells covered by a shape of `size` anchored at `position`.
pub open spec fn rectangle(position: (u16, u16), size: (u16, u16)) -> Set<(u16, u16)> {
    Set::new(|c: (u16, u16)| in_rectangle(position, size, c))
}

/// Whether every cell of a shape of `size` at `position` has a terminal
/// coordinate.
pub open spec fn fits(position: (u16, u16), size: (u16, u16)) -> bool {
    &&& position.0 + size.0 <= u16::MAX
    &&& position.1 + size.1 <= u16::MAX
}

/// Whether `dots` has an entry at cell `c`.
pub open spec fn holds(dots: Seq<(u16, u16)>, c: (u16, u16)) -> bool {
    exists|i: int| 0 <= i < dots.len() && #[trigger] dots[i] == c
}

/// Moves coordinate `p` of a shape whose extent on that axis is `extent` by
/// `d`, stopping at zero and at the last anchor that keeps the shape inside
/// the coordinate space.
pub open spec fn slide(p: u16, d: int, extent: u16) -> u16 {
    if p + d < 0 {
        0
    } else if p + d > u16::MAX - extent {
        (u16::MAX - extent) as u16
    } else {
        (p + d) as u16
    }
}

/// The anchor of a shape of `size` at `position` after a move by `(dx, dy)`.
pub open spec fn translated(position: (u16, u16), size: (u16, u16), dx: int, dy: int) -> (u16, u16) {
    (slide(position.0, dx, size.0), slide(position.1, dy, size.1))
}

/// The commands that draw the cells `dots`: a move to each cell followed by
/// the fill glyph, in the order of the entries, then a move back to the
/// origin.
pub open spec fn plan(dots: Seq<(u16, u16)>) -> Seq<DrawCommand> {
    Seq::new(
        (2 * dots.len() + 1) as nat,
        |k: int|
            if k == 2 * dots.len() {
                DrawCommand::MoveTo(0, 0)
            } else if k % 2 == 0 {
                DrawCommand::MoveTo(dots[k / 2].0, dots[k / 2].1)
            } else {
                DrawCommand::Print(FILL)
            },
    )
}

/// The (cell, glyph) writes that `cmds` makes: each move followed by a glyph,
/// counted in pairs from the start.
pub open spec fn written(cmds: Seq<DrawCommand>) -> Set<((u16, u16), char)> {
    Set::new(
        |w: ((u16, u16), char)|
            exists|k: int|
                0 <= k && 2 * k + 1 < cmds.len() && #[trigger] cmds[2 * k] == DrawCommand::MoveTo(w.0.0, w.0.1)
                    && cmds[2 * k + 1] == DrawCommand::Print(w.1),
    )
}

/// Every cell of a shape of `size` at `position`, with the fill glyph.
pub open spec fn painted(position: (u16, u16), size: (u16, u16)) -> Set<((u16, u16), char)> {
    Set::new(|w: ((u16, u16), char)| in_rectangle(position, size, w.0) && w.1 == FILL)
}

impl WindowView {
    /// The cells the window holds an entry for.
    pub open spec fn cells(self) -> Set<(u16, u16)> {
        Set::new(|c: (u16, u16)| holds(self.dots, c))
    }

    /// The entries are exactly the cells of the rectangle, one each.
    pub open spec fn well_formed(self) -> bool {
        &&& fits(self.position, self.size)
        &&& forall|i: int, j: int|
            0 <= i < self.dots.len() && 0 <= j < self.dots.len() && i != j
                ==> #[trigger] self.dots[i] != #[trigger] self.dots[j]
        &&& forall|c: (u16, u16)| #[trigger] holds(self.dots, c) <==> in_rectangle(self.position, self.size, c)
    }
}

impl View for Window {
    type V = WindowView;

    closed spec fn view(&self) -> WindowView {
        WindowView { size: self.size, position: self.position, dots: self.dots@ }
    }
}

proof fn lemma_holds_push(dots: Seq<(u16, u16)>, d: (u16, u16), c: (u16, u16))
    ensures
        holds(dots.push(d), c) <==> (holds(dots, c) || d == c),
{
    if holds(dots, c) {
        let i = choose|i: int| 0 <= i < dots.len() && #[trigger] dots[i] == c;
        assert(dots.push(d)[i] == dots[i]);
    }
    if d == c {
        assert(dots.push(d)[dots.len() as int] == d);
    }
    if holds(dots.push(d), c) {
        let i = choose|i: int| 0 <= i < dots.push(d).len() && #[trigger] dots.push(d)[i] == c;
        if i < dots.len() {
            assert(dots[i] == dots.push(d)[i]);
        }
    }
}

fn slide_coordinate(p: u16, d: i32, extent: u16) -> (r: u16)
    ensures
        r == slide(p, d as int, extent),
{
    let t: i64 = p as i64 + d as i64;
    let hi: u16 = u16::MAX - extent;
    if t < 0 {
        0
    } else if t > hi as i64 {
        hi
    } else {
        t as u16
    }
}

impl Window {
    /// The window's entries are exactly the cells of its rectangle.
    pub open spec fn wf(&self) -> bool {
        self@.well_formed()
    }

    /// A window of `width` by `height` anchored at `(x, y)`, with an entry for
    /// each cell it covers.
    pub fn build(width: u16, height: u16, x: u16, y: u16) -> (r: Self)
        requires
            fits((x, y), (width, height)),
        ensures
            r.wf(),
            r@.size == (width, height),
            r@.position == (x, y),
    {
        let mut dots: Vec<(u16, u16)> = Vec::new();
        let end_x: u32 = x as u32 + width as u32;
        let end_y: u16 = y + height;
        let mut col: u32 = x as u32;
        while col <= end_x
            invariant
                x <= col <= end_x + 1,
                end_x == x + width,
                end_y == y + height,
                end_x <= u16::MAX,
                forall|i: int, j: int|
                    0 <= i < dots@.len() && 0 <= j < dots@.len() && i != j
                        ==> #[trigger] dots@[i] != #[trigger] dots@[j],
                forall|c: (u16, u16)| #[trigger] holds(dots@, c) <==> (x <= c.0 < col && y <= c.1 < end_y),
            decreases end_x + 1 - col,
        {
            let mut row: u16 = y;
            while row < end_y
                invariant
                    x <= col <= end_x,
                    y <= row <= end_y,
                    end_x <= u16::MAX,
                    forall|i: int, j: int|
                        0 <= i < dots@.len() && 0 <= j < dots@.len() && i != j
                            ==> #[trigger] dots@[i] != #[trigger] dots@[j],
                    forall|c: (u16, u16)| #[trigger] holds(dots@, c) <==>
                        ((x <= c.0 < col && y <= c.1 < end_y) || (c.0 == col && y <= c.1 < row)),
                decreases end_y - row,
            {
                let d: (u16, u16) = (col as u16, row);
                proof {
                    let old_dots = dots@;
                    assert(!holds(old_dots, d));
                    assert forall|c: (u16, u16)| #[trigger] holds(old_dots.push(d), c) <==>
                        ((x <= c.0 < col && y <= c.1 < end_y) || (c.0 == col && y <= c.1 < row + 1)) by {
                        lemma_holds_push(old_dots, d, c);
                    }
                    assert forall|i: int, j: int|
                        0 <= i < old_dots.push(d).len() && 0 <= j < old_dots.push(d).len() && i != j
                            implies #[trigger] old_dots.push(d)[i] != #[trigger] old_dots.push(d)[j] by {
                        if i == old_dots.len() {
                            assert(old_dots[j] == old_dots.push(d)[j]);
                        } else if j == old_dots.len() {
                            assert(old_dots[i] == old_dots.push(d)[i]);
                        } else {
                            assert(old_dots[i] == old_dots.push(d)[i]);
                            assert(old_dots[j] == old_dots.push(d)[j]);
                        }
                    }
                }
                dots.push(d);
                row = row + 1;
            }
            col = col + 1;
        }
        Self { size: (width, height), position: (x, y), dots }
    }

    /// Regenerates the entries from the current size and position.
    pub fn rebuild(&mut self)
        requires
            fits(old(self)@.position, old(self)@.size),
        ensures
            final(self).wf(),
            final(self)@.size == old(self)@.size,
            final(self)@.position == old(self)@.position,
    {
        *self = Self::build(self.size.0, self.size.1, self.position.0, self.position.1);
    }

    /// The commands that draw the window: for each entry, a move to its cell
    /// and the fill glyph, then a move back to the origin.
    pub fn draw(&self) -> (r: Vec<DrawCommand>)
        ensures
            r@ == plan(self@.dots),
    {
        let mut cmds: Vec<DrawCommand> = Vec::new();
        let n: usize = self.dots.len();
        let mut i: usize = 0;
        while i < n
            invariant
                n == self.dots@.len(),
                i <= n,
                cmds@.len() == 2 * i,
                forall|k: int| 0 <= k < cmds@.len() ==> #[trigger] cmds@[k] == plan(self.dots@)[k],
            decreases n - i,
        {
            let dot: (u16, u16) = self.dots[i];
            cmds.push(DrawCommand::MoveTo(dot.0, dot.1));
            cmds.push(DrawCommand::Print(FILL));
            proof {
                let k = 2 * i as int;
                assert(k / 2 == i && k % 2 == 0 && (k + 1) / 2 == i && (k + 1) % 2 == 1);
                assert(cmds@[k] == plan(self.dots@)[k]);
                assert(cmds@[k + 1] == plan(self.dots@)[k + 1]);
            }
            i = i + 1;
        }
        cmds.push(DrawCommand::MoveTo(0, 0));
        assert(cmds@ =~= plan(self.dots@));
        cmds
    }

    /// Moves the window by `(x, y)` cells, stopping at the edges of the
    /// coordinate space, and regenerates its entries.
    pub fn drog(&mut self, x: i32, y: i32)
        requires
            old(self).wf(),
        ensures
            final(self).wf(),
            final(self)@.size == old(self)@.size,
            final(self)@.position == translated(old(self)@.position, old(self)@.size, x as int, y as int),
    {
        self.position = (
            slide_coordinate(self.position.0, x, self.size.0),
            slide_coordinate(self.position.1, y, self.size.1),
        );
        self.rebuild();
    }

    /// The size, width then height.
    pub fn size(&self) -> (r: (u16, u16))
        ensures
            r == self@.size,
    {
        self.size
    }

    /// The anchor, column then row.
    pub fn position(&self) -> (r: (u16, u16))
        ensures
            r == self@.position,
    {
        self.position
    }

    /// The cells the window holds an entry for, one each.
    pub fn dots(&self) -> (r: &Vec<(u16, u16)>)
        ensures
            r@ == self@.dots,
    {
        &self.dots
    }
}

/// A well-formed window holds an entry for exactly the cells of its
/// rectangle.
pub proof fn lemma_cells_are_rectangle(w: WindowView)
    requires
        w.well_formed(),
    ensures
        w.cells() == rectangle(w.position, w.size),
{
    assert(w.cells() =~= rectangle(w.position, w.size));
}

/// A move by a delta that keeps the shape inside the coordinate space leaves
/// it covering exactly the rectangle of the same size anchored at the old
/// anchor plus the delta.
pub proof fn lemma_translate_covers_shifted(before: WindowView, after: WindowView, dx: int, dy: int)
    requires
        before.well_formed(),
        after.well_formed(),
        after.size == before.size,
        after.position == translated(before.position, before.size, dx, dy),
        0 <= before.position.0 + dx,
        before.position.0 + dx + before.size.0 <= u16::MAX,
        0 <= before.position.1 + dy,
        before.position.1 + dy + before.size.1 <= u16::MAX,
    ensures
        after.position.0 == before.position.0 + dx,
        after.position.1 == before.position.1 + dy,
        after.cells() == Set::new(
            |c: (u16, u16)|
                before.position.0 + dx <= c.0 <= before.position.0 + dx + before.size.0
                    && before.position.1 + dy <= c.1 < before.position.1 + dy + before.size.1,
        ),
{
    lemma_cells_are_rectangle(after);
    assert(rectangle(after.position, after.size) =~= Set::new(
        |c: (u16, u16)|
            before.position.0 + dx <= c.0 <= before.position.0 + dx + before.size.0
                && before.position.1 + dy <= c.1 < before.position.1 + dy + before.size.1,
    ));
}

/// The writes of a render are each cell of the rectangle with the fill glyph,
/// so two renders of windows with the same anchor and size (in particular,
/// two renders of one unmoved window) write the same (cell, glyph) pairs.
pub proof fn lemma_render_writes_rectangle(a: WindowView, b: WindowView)
    requires
        a.well_formed(),
        b.well_formed(),
        a.position == b.position,
        a.size == b.size,
    ensures
        written(plan(a.dots)) == painted(a.position, a.size),
        written(plan(a.dots)) == written(plan(b.dots)),
{
    lemma_written_plan(a);
    lemma_written_plan(b);
}

proof fn lemma_written_plan(w: WindowView)
    requires
        w.well_formed(),
    ensures
        written(plan(w.dots)) == painted(w.position, w.size),
{
    let p = plan(w.dots);
    assert forall|v: ((u16, u16), char)| #[trigger] written(p).contains(v) implies painted(w.position, w.size).contains(v) by {
        let k = choose|k: int|
            0 <= k && 2 * k + 1 < p.len() && #[trigger] p[2 * k] == DrawCommand::MoveTo(v.0.0, v.0.1)
                && p[2 * k + 1] == DrawCommand::Print(v.1);
        assert((2 * k) / 2 == k && (2 * k) % 2 == 0 && (2 * k + 1) / 2 == k && (2 * k + 1) % 2 == 1);
        assert(w.dots[k] == v.0);
        assert(holds(w.dots, v.0));
    }
    assert forall|v: ((u16, u16), char)| #[trigger] painted(w.position, w.size).contains(v) implies written(p).contains(v) by {
        assert(holds(w.dots, v.0));
        let k = choose|k: int| 0 <= k < w.dots.len() && #[trigger] w.dots[k] == v.0;
        assert((2 * k) / 2 == k && (2 * k) % 2 == 0 && (2 * k + 1) / 2 == k && (2 * k + 1) % 2 == 1);
        assert(p[2 * k] == DrawCommand::MoveTo(v.0.0, v.0.1));
        assert(p[2 * k + 1] == DrawCommand::Print(v.1));
    }
    assert(written(p) =~= painted(w.position, w.size));
}

} // verus!
