use vstd::prelude::*;
use crate::cursor::Cursor;

verus! {

/// Largest accepted grid dimension; keeps every screen coordinate the
/// renderer computes comfortably inside `i32`.
pub const MAX_DIM: i32 = 0x4000;

/// Largest accepted terminal coordinate, for the same reason.
pub const MAX_SCREEN: i32 = 0x100000;

/// The run state of a session. `Stopped` ends the driving loop; `Paused`
/// blocks simulation steps but still allows editing; `Running` allows both.
#[derive(Clone, Copy, Debug)]
pub enum GameState {
    Stopped,
    Paused,
    Running,
}

impl PartialEq for GameState {
    fn eq(&self, other: &GameState) -> bool {
        match self {
            GameState::Running => match other {
                GameState::Running => true,
                _ => false,
            },
            GameState::Paused => match other {
                GameState::Paused => true,
                _ => false,
            },
            GameState::Stopped => match other {
                GameState::Stopped => true,
                _ => false,
            },
        }
    }
}

impl vstd::std_specs::cmp::PartialEqSpecImpl for GameState {
    open spec fn obeys_eq_spec() -> bool {
        true
    }

    open spec fn eq_spec(&self, other: &GameState) -> bool {
        match self {
            GameState::Running => other is Running,
            GameState::Paused => other is Paused,
            GameState::Stopped => other is Stopped,
        }
    }
}

/// One decoded input event, as the terminal adapter hands it to the session.
/// A tick without input is represented by `Option::None` at the call sites.
#[derive(Clone, Copy, Debug)]
pub enum InputEvent {
    /// End the session: run state becomes `Stopped`.
    Quit,
    /// The terminal was resized to `max_x` columns and `max_y` rows:
    /// recompute the display offsets and ask for a border redraw.
    Resize { max_x: i32, max_y: i32 },
    /// Move the cursor one cell up, if it stays on the grid.
    Up,
    /// Move the cursor one cell down, if it stays on the grid.
    Down,
    /// Move the cursor one cell left, if it stays on the grid.
    Left,
    /// Move the cursor one cell right, if it stays on the grid.
    Right,
    /// Flip the cell under the cursor.
    Toggle,
    /// Toggle between `Running` and `Paused`; no effect when `Stopped`.
    Confirm,
}

/// What a drawing operation paints. The terminal adapter decides the
/// concrete character for each glyph.
#[derive(Clone, Copy, PartialEq, Eq, Structural, Debug)]
pub enum Glyph {
    /// A piece of the top or bottom border rule.
    Horizontal,
    /// A piece of the left or right border rule.
    Vertical,
    /// A border corner marker.
    Corner,
    /// A live cell.
    Live,
    /// A dead cell.
    Dead,
}

/// One drawing operation on the terminal surface, in screen coordinates.
#[derive(Clone, Copy, PartialEq, Eq, Structural, Debug)]
pub enum DrawOp {
    /// Paint `glyph` at column `x`, row `y`.
    Put { x: i32, y: i32, glyph: Glyph },
    /// Park the visible caret at column `x`, row `y` without painting.
    MoveTo { x: i32, y: i32 },
}

/// What one tick of the driving loop decided.
pub struct TickOutcome {
    /// The simulation advanced one generation; the driver resets its
    /// step timer exactly when this holds.
    pub stepped: bool,
    /// The display offsets changed, so the border must be redrawn.
    pub redraw_border: bool,
    /// The session has not reached `Stopped`; the driver loops again.
    pub keep_going: bool,
}

/// The mathematical state of a session: everything the contracts speak
/// about. The grid is a column-major sequence of columns, so that
/// `grid[x][y]` is the cell at column `x`, row `y`.
pub struct GameView {
    pub width: int,
    pub height: int,
    pub x_offset: int,
    pub y_offset: int,
    pub grid: Seq<Seq<bool>>,
    pub state: GameState,
    pub cursor_x: int,
    pub cursor_y: int,
}

impl GameView {
    /// Well-formedness: the dimensions and offsets are bounded, the grid
    /// has exactly `width` columns of exactly `height` cells, and the
    /// cursor sits on the grid.
    pub open spec fn wf(self) -> bool {
        &&& 1 <= self.width <= MAX_DIM as int
        &&& 1 <= self.height <= MAX_DIM as int
        &&& -(MAX_SCREEN as int) <= self.x_offset <= MAX_SCREEN as int
        &&& -(MAX_SCREEN as int) <= self.y_offset <= MAX_SCREEN as int
        &&& self.grid.len() == self.width
        &&& forall|x: int| 0 <= x < self.width ==> (#[trigger] self.grid[x]).len() == self.height
        &&& 0 <= self.cursor_x < self.width
        &&& 0 <= self.cursor_y < self.height
    }
}

/// The display offset that centers a span of `dim` cells on a screen of
/// `screen` cells.
pub open spec fn spec_offset(screen: int, dim: int) -> int {
    screen / 2 - dim / 2
}

/// The grid with the cell at column `x`, row `y` replaced by `b`.
pub open spec fn grid_set(grid: Seq<Seq<bool>>, x: int, y: int, b: bool) -> Seq<Seq<bool>> {
    grid.update(x, grid[x].update(y, b))
}

/// How many live neighbors of the cell at column `x`, row `y` the rule
/// engine counts. Only five of the eight surrounding cells are candidates:
/// the top-left diagonal, the top, the bottom-left diagonal, the bottom and
/// the bottom-right diagonal, each counted only when it lies on the grid.
/// The top-right diagonal and the left and right neighbors are never
/// counted: this engine deviates from the classical rule on purpose, and
/// the deviation is part of its observable behavior.
pub open spec fn spec_neighbor_count(
    grid: Seq<Seq<bool>>,
    width: int,
    height: int,
    x: int,
    y: int,
) -> int {
    (if x > 0 && y > 0 && grid[x - 1][y - 1] { 1int } else { 0int })
        + (if y > 0 && grid[x][y - 1] { 1int } else { 0int })
        + (if x > 0 && y < height - 1 && grid[x - 1][y + 1] { 1int } else { 0int })
        + (if y < height - 1 && grid[x][y + 1] { 1int } else { 0int })
        + (if x < width - 1 && y < height - 1 && grid[x + 1][y + 1] { 1int } else { 0int })
}

/// A cell is alive in the next generation exactly when its counted live
/// neighbors number exactly 3; survival at 2 neighbors is deliberately not
/// granted.
pub open spec fn spec_next_cell(
    grid: Seq<Seq<bool>>,
    width: int,
    height: int,
    x: int,
    y: int,
) -> bool {
    spec_neighbor_count(grid, width, height, x, y) == 3
}

/// The whole next generation, computed from the prior grid alone: no cell
/// of the new grid influences another.
pub open spec fn spec_step_grid(v: GameView) -> Seq<Seq<bool>> {
    Seq::new(
        v.width as nat,
        |x: int| Seq::new(
            v.height as nat,
            |y: int| spec_next_cell(v.grid, v.width, v.height, x, y),
        ),
    )
}

/// The confirm key toggles between `Running` and `Paused` and leaves
/// `Stopped` alone.
pub open spec fn spec_confirm(s: GameState) -> GameState {
    match s {
        GameState::Running => GameState::Paused,
        GameState::Paused => GameState::Running,
        GameState::Stopped => GameState::Stopped,
    }
}

/// Whether an event is a resize, whose offsets stay within the accepted
/// terminal bounds.
pub open spec fn spec_input_ok(input: Option<InputEvent>) -> bool {
    match input {
        Option::Some(InputEvent::Resize { max_x, max_y }) =>
            0 <= max_x <= MAX_SCREEN && 0 <= max_y <= MAX_SCREEN,
        _ => true,
    }
}

pub open spec fn spec_is_resize(input: Option<InputEvent>) -> bool {
    match input {
        Option::Some(InputEvent::Resize { .. }) => true,
        _ => false,
    }
}

/// The effect of one input event on a session, exactly as the input table
/// prescribes: quit stops, resize recenters, a directional key moves the
/// cursor only when the destination stays on the grid, the toggle key
/// flips the cell under the cursor, the confirm key switches between
/// running and paused, and anything else changes nothing.
pub open spec fn spec_apply_input(v: GameView, input: Option<InputEvent>) -> GameView {
    match input {
        Option::None => v,
        Option::Some(ev) => match ev {
            InputEvent::Quit => GameView { state: GameState::Stopped, ..v },
            InputEvent::Resize { max_x, max_y } => GameView {
                x_offset: spec_offset(max_x as int, v.width),
                y_offset: spec_offset(max_y as int, v.height),
                ..v
            },
            InputEvent::Up => if v.cursor_y > 0 {
                GameView { cursor_y: v.cursor_y - 1, ..v }
            } else {
                v
            },
            InputEvent::Down => if v.cursor_y < v.height - 1 {
                GameView { cursor_y: v.cursor_y + 1, ..v }
            } else {
                v
            },
            InputEvent::Left => if v.cursor_x > 0 {
                GameView { cursor_x: v.cursor_x - 1, ..v }
            } else {
                v
            },
            InputEvent::Right => if v.cursor_x < v.width - 1 {
                GameView { cursor_x: v.cursor_x + 1, ..v }
            } else {
                v
            },
            InputEvent::Toggle => GameView {
                grid: grid_set(v.grid, v.cursor_x, v.cursor_y, !v.grid[v.cursor_x][v.cursor_y]),
                ..v
            },
            InputEvent::Confirm => GameView { state: spec_confirm(v.state), ..v },
        },
    }
}

/// One tick of the driving loop: the input event is applied first, and
/// the rule engine then advances the grid exactly when the resulting run
/// state is `Running` and a simulation step is due.
pub open spec fn spec_tick(v: GameView, input: Option<InputEvent>, step_due: bool) -> GameView {
    let applied = spec_apply_input(v, input);
    if applied.state is Running && step_due {
        GameView { grid: spec_step_grid(applied), ..applied }
    } else {
        applied
    }
}

/// The drawing operations for one horizontal border rule at screen row
/// `y`: `width` horizontal glyphs starting one column right of the offset.
pub open spec fn spec_hline_ops(v: GameView, y: int) -> Seq<DrawOp> {
    Seq::new(
        v.width as nat,
        |k: int| DrawOp::Put {
            x: (v.x_offset + 1 + k) as i32,
            y: y as i32,
            glyph: Glyph::Horizontal,
        },
    )
}

/// The drawing operations for one vertical border rule at screen column
/// `x`: `height` vertical glyphs starting one row below the offset.
pub open spec fn spec_vline_ops(v: GameView, x: int) -> Seq<DrawOp> {
    Seq::new(
        v.height as nat,
        |k: int| DrawOp::Put {
            x: x as i32,
            y: (v.y_offset + 1 + k) as i32,
            glyph: Glyph::Vertical,
        },
    )
}

/// The four corner markers of the border, top-left first.
pub open spec fn spec_corner_ops(v: GameView) -> Seq<DrawOp> {
    seq![
        DrawOp::Put { x: v.x_offset as i32, y: v.y_offset as i32, glyph: Glyph::Corner },
        DrawOp::Put {
            x: (v.x_offset + v.width + 1) as i32,
            y: v.y_offset as i32,
            glyph: Glyph::Corner,
        },
        DrawOp::Put {
            x: v.x_offset as i32,
            y: (v.y_offset + v.height + 1) as i32,
            glyph: Glyph::Corner,
        },
        DrawOp::Put {
            x: (v.x_offset + v.width + 1) as i32,
            y: (v.y_offset + v.height + 1) as i32,
            glyph: Glyph::Corner,
        },
    ]
}

/// The whole border: the two horizontal rules, the two vertical rules,
/// then the corners.
pub open spec fn spec_border_ops(v: GameView) -> Seq<DrawOp> {
    spec_hline_ops(v, v.y_offset) + spec_hline_ops(v, v.y_offset + v.height + 1)
        + spec_vline_ops(v, v.x_offset) + spec_vline_ops(v, v.x_offset + v.width + 1)
        + spec_corner_ops(v)
}

pub open spec fn spec_cell_glyph(alive: bool) -> Glyph {
    if alive {
        Glyph::Live
    } else {
        Glyph::Dead
    }
}

/// The cell glyphs of grid row `y`, left to right, one column and one row
/// inside the border.
pub open spec fn spec_board_row_ops(v: GameView, y: int) -> Seq<DrawOp> {
    Seq::new(
        v.width as nat,
        |x: int| DrawOp::Put {
            x: (v.x_offset + 1 + x) as i32,
            y: (v.y_offset + 1 + y) as i32,
            glyph: spec_cell_glyph(v.grid[x][y]),
        },
    )
}

/// The cell glyphs of the first `y` grid rows, top row first.
pub open spec fn spec_board_rows_ops(v: GameView, y: int) -> Seq<DrawOp>
    decreases y,
{
    if y <= 0 {
        Seq::empty()
    } else {
        spec_board_rows_ops(v, y - 1) + spec_board_row_ops(v, y - 1)
    }
}

/// One full redraw of the playfield: every cell row-major, then the caret
/// parked on the cursor's cell.
pub open spec fn spec_board_ops(v: GameView) -> Seq<DrawOp> {
    spec_board_rows_ops(v, v.height).push(
        DrawOp::MoveTo {
            x: (v.cursor_x + v.x_offset + 1) as i32,
            y: (v.cursor_y + v.y_offset + 1) as i32,
        },
    )
}

/// A session: a fixed-size boolean grid, the display offsets that center
/// it, an editing cursor, and the current run state.
pub struct Game {
    width: i32,
    height: i32,
    x_offset: i32,
    y_offset: i32,
    fields: Vec<Vec<bool>>,
    state: GameState,
    cursor: Cursor,
}

impl View for Game {
    type V = GameView;

    closed spec fn view(&self) -> GameView {
        GameView {
            width: self.width as int,
            height: self.height as int,
            x_offset: self.x_offset as int,
            y_offset: self.y_offset as int,
            grid: Seq::new(self.fields@.len(), |x: int| self.fields@[x]@),
            state: self.state,
            cursor_x: self.cursor.spec_x(),
            cursor_y: self.cursor.spec_y(),
        }
    }
}

impl Game {
    pub open spec fn wf(&self) -> bool {
        self@.wf()
    }

    /// A fresh session: an all-dead `width` by `height` grid, centered on a
    /// `max_x` by `max_y` terminal, cursor at the origin, not yet started.
    pub fn new(width: i32, height: i32, max_x: i32, max_y: i32) -> (g: Game)
        requires
            1 <= width <= MAX_DIM,
            1 <= height <= MAX_DIM,
            0 <= max_x <= MAX_SCREEN,
            0 <= max_y <= MAX_SCREEN,
        ensures
            g.wf(),
            g@.width == width,
            g@.height == height,
            g@.x_offset == spec_offset(max_x as int, width as int),
            g@.y_offset == spec_offset(max_y as int, height as int),
            g@.state is Stopped,
            g@.cursor_x == 0,
            g@.cursor_y == 0,
            forall|x: int, y: int|
                0 <= x < width && 0 <= y < height ==> !#[trigger] g@.grid[x][y],
    {
        let mut fields: Vec<Vec<bool>> = Vec::new();
        let mut x: i32 = 0;
        while x < width
            invariant
                0 <= x <= width,
                width <= MAX_DIM,
                1 <= height <= MAX_DIM,
                fields@.len() == x,
                forall|i: int|
                    0 <= i < x ==> (#[trigger] fields@[i])@.len() == height,
                forall|i: int, j: int|
                    0 <= i < x && 0 <= j < height ==> !#[trigger] fields@[i]@[j],
            decreases width - x,
        {
            let mut column: Vec<bool> = Vec::new();
            let mut y: i32 = 0;
            while y < height
                invariant
                    0 <= y <= height,
                    column@.len() == y,
                    forall|j: int| 0 <= j < y ==> !#[trigger] column@[j],
                decreases height - y,
            {
                column.push(false);
                y = y + 1;
            }
            fields.push(column);
            x = x + 1;
        }
        Game {
            width,
            height,
            x_offset: (max_x / 2) - (width / 2),
            y_offset: (max_y / 2) - (height / 2),
            fields,
            state: GameState::Stopped,
            cursor: Cursor::new(0, 0),
        }
    }

    /// The cell at column `x`, row `y`. Out-of-range coordinates are not
    /// a reported error: they are excluded by precondition, and every
    /// caller in this crate is proved to respect it.
    pub fn get_field(&self, x: i32, y: i32) -> (r: bool)
        requires
            self.wf(),
            0 <= x < self@.width,
            0 <= y < self@.height,
        ensures
            r == self@.grid[x as int][y as int],
    {
        proof {
            assert(self@.grid[x as int] == self.fields@[x as int]@);
        }
        self.fields[x as usize][y as usize]
    }

    /// Replace the cell at column `x`, row `y` by `state`; everything else
    /// is untouched. As with `get_field`, in-range coordinates are a
    /// precondition, not a run-time check.
    pub fn set_field(&mut self, state: bool, x: i32, y: i32)
        requires
            old(self).wf(),
            0 <= x < old(self)@.width,
            0 <= y < old(self)@.height,
        ensures
            final(self).wf(),
            final(self)@ == (GameView {
                grid: grid_set(old(self)@.grid, x as int, y as int, state),
                ..old(self)@
            }),
    {
        let column: &mut Vec<bool> = &mut self.fields[x as usize];
        let cell: &mut bool = &mut column[y as usize];
        *cell = state;
        proof {
            assert(self@.grid =~~= grid_set(old(self)@.grid, x as int, y as int, state));
        }
    }

    /// The rule engine's live-neighbor count for the cell at column `x`,
    /// row `y` (see `spec_neighbor_count` for which neighbors count).
    pub fn get_living_fields(&self, x: i32, y: i32) -> (count: usize)
        requires
            self.wf(),
            0 <= x < self@.width,
            0 <= y < self@.height,
        ensures
            count == spec_neighbor_count(self@.grid, self@.width, self@.height, x as int, y as int),
    {
        let mut count: usize = 0;
        if x > 0 && y > 0 && self.get_field(x - 1, y - 1) {
            count += 1;
        }
        if y > 0 && self.get_field(x, y - 1) {
            count += 1;
        }
        if x > 0 && y < self.height - 1 && self.get_field(x - 1, y + 1) {
            count += 1;
        }
        if y < self.height - 1 && self.get_field(x, y + 1) {
            count += 1;
        }
        if x < self.width - 1 && y < self.height - 1 && self.get_field(x + 1, y + 1) {
            count += 1;
        }
        count
    }

    /// Advance the whole grid one generation. The new value of every cell
    /// is computed from the prior generation alone.
    pub fn step(&mut self)
        requires
            old(self).wf(),
        ensures
            final(self).wf(),
            final(self)@ == (GameView { grid: spec_step_grid(old(self)@), ..old(self)@ }),
    {
        let mut next: Vec<Vec<bool>> = Vec::new();
        let mut x: i32 = 0;
        while x < self.width
            invariant
                self == old(self),
                self.wf(),
                0 <= x <= self@.width,
                next@.len() == x,
                forall|i: int|
                    0 <= i < x ==> (#[trigger] next@[i])@ =~= spec_step_grid(self@)[i],
            decreases self@.width - x,
        {
            let mut column: Vec<bool> = Vec::new();
            let mut y: i32 = 0;
            while y < self.height
                invariant
                    self == old(self),
                    self.wf(),
                    0 <= x < self@.width,
                    0 <= y <= self@.height,
                    column@.len() == y,
                    forall|j: int|
                        0 <= j < y ==> #[trigger] column@[j] == spec_next_cell(
                            self@.grid,
                            self@.width,
                            self@.height,
                            x as int,
                            j,
                        ),
                decreases self@.height - y,
            {
                let alive = self.get_living_fields(x, y) == 3;
                column.push(alive);
                y = y + 1;
            }
            proof {
                assert(column@ =~= spec_step_grid(self@)[x as int]);
            }
            next.push(column);
            x = x + 1;
        }
        self.fields = next;
        proof {
            assert(self@.grid =~~= spec_step_grid(old(self)@));
        }
    }

    /// Recenter the playfield on a `max_x` by `max_y` terminal. Only the
    /// display offsets change; the grid keeps its size.
    pub fn resize(&mut self, max_x: i32, max_y: i32)
        requires
            old(self).wf(),
            0 <= max_x <= MAX_SCREEN,
            0 <= max_y <= MAX_SCREEN,
        ensures
            final(self).wf(),
            final(self)@ == (GameView {
                x_offset: spec_offset(max_x as int, old(self)@.width),
                y_offset: spec_offset(max_y as int, old(self)@.height),
                ..old(self)@
            }),
    {
        self.x_offset = (max_x / 2) - (self.width / 2);
        self.y_offset = (max_y / 2) - (self.height / 2);
    }

    /// Apply one input event (or the absence of one) to the session, as
    /// `spec_apply_input` prescribes. Returns whether the border must be
    /// redrawn, which is exactly the resize case.
    pub fn handle_input(&mut self, input: Option<InputEvent>) -> (redraw_border: bool)
        requires
            old(self).wf(),
            spec_input_ok(input),
        ensures
            final(self).wf(),
            final(self)@ == spec_apply_input(old(self)@, input),
            redraw_border == spec_is_resize(input),
    {
        match input {
            Option::Some(InputEvent::Quit) => {
                self.state = GameState::Stopped;
                false
            },
            Option::Some(InputEvent::Resize { max_x, max_y }) => {
                self.resize(max_x, max_y);
                true
            },
            Option::Some(InputEvent::Up) => {
                if self.cursor.get_y() > 0 {
                    self.cursor.up();
                }
                false
            },
            Option::Some(InputEvent::Down) => {
                if self.cursor.get_y() < self.height - 1 {
                    self.cursor.down();
                }
                false
            },
            Option::Some(InputEvent::Left) => {
                if self.cursor.get_x() > 0 {
                    self.cursor.left();
                }
                false
            },
            Option::Some(InputEvent::Right) => {
                if self.cursor.get_x() < self.width - 1 {
                    self.cursor.right();
                }
                false
            },
            Option::Some(InputEvent::Toggle) => {
                let x = self.cursor.get_x();
                let y = self.cursor.get_y();
                let state = self.get_field(x, y);
                self.set_field(!state, x, y);
                false
            },
            Option::Some(InputEvent::Confirm) => {
                match self.state {
                    GameState::Running => self.state = GameState::Paused,
                    GameState::Paused => self.state = GameState::Running,
                    _ => (),
                }
                false
            },
            Option::None => false,
        }
    }

    /// Append one horizontal border rule at screen row `y`.
    fn push_row(&self, ops: &mut Vec<DrawOp>, y: i32)
        requires
            self.wf(),
        ensures
            final(ops)@ == old(ops)@ + spec_hline_ops(self@, y as int),
    {
        let mut k: i32 = 0;
        while k < self.width
            invariant
                self.wf(),
                0 <= k <= self@.width,
                ops@ =~= old(ops)@ + spec_hline_ops(self@, y as int).take(k as int),
            decreases self@.width - k,
        {
            ops.push(DrawOp::Put { x: self.x_offset + 1 + k, y, glyph: Glyph::Horizontal });
            k = k + 1;
        }
        proof {
            assert(ops@ =~= old(ops)@ + spec_hline_ops(self@, y as int));
        }
    }

    /// Append one vertical border rule at screen column `x`.
    fn push_column(&self, ops: &mut Vec<DrawOp>, x: i32)
        requires
            self.wf(),
        ensures
            final(ops)@ == old(ops)@ + spec_vline_ops(self@, x as int),
    {
        let mut k: i32 = 0;
        while k < self.height
            invariant
                self.wf(),
                0 <= k <= self@.height,
                ops@ =~= old(ops)@ + spec_vline_ops(self@, x as int).take(k as int),
            decreases self@.height - k,
        {
            ops.push(DrawOp::Put { x, y: self.y_offset + 1 + k, glyph: Glyph::Vertical });
            k = k + 1;
        }
        proof {
            assert(ops@ =~= old(ops)@ + spec_vline_ops(self@, x as int));
        }
    }

    /// Append the top and bottom border rules.
    pub fn draw_border_horizontal(&self, ops: &mut Vec<DrawOp>)
        requires
            self.wf(),
        ensures
            final(ops)@ == old(ops)@ + spec_hline_ops(self@, self@.y_offset)
                + spec_hline_ops(self@, self@.y_offset + self@.height + 1),
    {
        self.push_row(ops, self.y_offset);
        self.push_row(ops, self.y_offset + self.height + 1);
        proof {
            assert(ops@ =~= old(ops)@ + spec_hline_ops(self@, self@.y_offset)
                + spec_hline_ops(self@, self@.y_offset + self@.height + 1));
        }
    }

    /// Append the left and right border rules.
    pub fn draw_border_vertical(&self, ops: &mut Vec<DrawOp>)
        requires
            self.wf(),
        ensures
            final(ops)@ == old(ops)@ + spec_vline_ops(self@, self@.x_offset)
                + spec_vline_ops(self@, self@.x_offset + self@.width + 1),
    {
        self.push_column(ops, self.x_offset);
        self.push_column(ops, self.x_offset + self.width + 1);
        proof {
            assert(ops@ =~= old(ops)@ + spec_vline_ops(self@, self@.x_offset)
                + spec_vline_ops(self@, self@.x_offset + self@.width + 1));
        }
    }

    /// Append the four border corner markers.
    pub fn draw_border_edges(&self, ops: &mut Vec<DrawOp>)
        requires
            self.wf(),
        ensures
            final(ops)@ == old(ops)@ + spec_corner_ops(self@),
    {
        let right = self.x_offset + self.width + 1;
        let bottom = self.y_offset + self.height + 1;
        ops.push(DrawOp::Put { x: self.x_offset, y: self.y_offset, glyph: Glyph::Corner });
        ops.push(DrawOp::Put { x: right, y: self.y_offset, glyph: Glyph::Corner });
        ops.push(DrawOp::Put { x: self.x_offset, y: bottom, glyph: Glyph::Corner });
        ops.push(DrawOp::Put { x: right, y: bottom, glyph: Glyph::Corner });
        proof {
            assert(ops@ =~= old(ops)@ + spec_corner_ops(self@));
        }
    }

    /// The drawing operations for the whole border around the playfield.
    pub fn draw_border(&self) -> (ops: Vec<DrawOp>)
        requires
            self.wf(),
        ensures
            ops@ == spec_border_ops(self@),
    {
        let mut ops: Vec<DrawOp> = Vec::new();
        self.draw_border_horizontal(&mut ops);
        self.draw_border_vertical(&mut ops);
        self.draw_border_edges(&mut ops);
        proof {
            assert(ops@ =~= spec_border_ops(self@));
        }
        ops
    }

    /// The drawing operations for one full redraw of the playfield: every
    /// cell, row by row, then the caret parked on the cursor's cell.
    pub fn draw_board(&self) -> (ops: Vec<DrawOp>)
        requires
            self.wf(),
        ensures
            ops@ == spec_board_ops(self@),
    {
        let mut ops: Vec<DrawOp> = Vec::new();
        let mut y: i32 = 0;
        while y < self.height
            invariant
                self.wf(),
                0 <= y <= self@.height,
                ops@ =~= spec_board_rows_ops(self@, y as int),
            decreases self@.height - y,
        {
            let mut x: i32 = 0;
            while x < self.width
                invariant
                    self.wf(),
                    0 <= y < self@.height,
                    0 <= x <= self@.width,
                    ops@ =~= spec_board_rows_ops(self@, y as int)
                        + spec_board_row_ops(self@, y as int).take(x as int),
                decreases self@.width - x,
            {
                let glyph = if self.get_field(x, y) {
                    Glyph::Live
                } else {
                    Glyph::Dead
                };
                ops.push(DrawOp::Put {
                    x: x + self.x_offset + 1,
                    y: y + self.y_offset + 1,
                    glyph,
                });
                x = x + 1;
            }
            proof {
                assert(ops@ =~= spec_board_rows_ops(self@, y as int)
                    + spec_board_row_ops(self@, y as int));
            }
            y = y + 1;
        }
        ops.push(DrawOp::MoveTo {
            x: self.cursor.get_x() + self.x_offset + 1,
            y: self.cursor.get_y() + self.y_offset + 1,
        });
        proof {
            assert(ops@ =~= spec_board_ops(self@));
        }
        ops
    }

    /// Begin the session: the run state becomes `Running` and the border
    /// is drawn once. The driving loop then calls `tick` until the
    /// outcome says to stop.
    pub fn start(&mut self) -> (ops: Vec<DrawOp>)
        requires
            old(self).wf(),
        ensures
            final(self).wf(),
            final(self)@ == (GameView { state: GameState::Running, ..old(self)@ }),
            ops@ == spec_border_ops(old(self)@),
    {
        self.state = GameState::Running;
        self.draw_border()
    }

    /// One tick of the driving loop: apply the input event, then advance
    /// the simulation one generation exactly when the session is running
    /// and a step is due. Editing stays possible at full tick rate; only
    /// the simulation is gated.
    pub fn tick(&mut self, input: Option<InputEvent>, step_due: bool) -> (out: TickOutcome)
        requires
            old(self).wf(),
            spec_input_ok(input),
        ensures
            final(self).wf(),
            final(self)@ == spec_tick(old(self)@, input, step_due),
            out.stepped == (spec_apply_input(old(self)@, input).state is Running && step_due),
            out.redraw_border == spec_is_resize(input),
            out.keep_going == !(spec_tick(old(self)@, input, step_due).state is Stopped),
    {
        let redraw_border = self.handle_input(input);
        let stepped = if step_due && matches!(self.state, GameState::Running) {
            self.step();
            true
        } else {
            false
        };
        let keep_going = !matches!(self.state, GameState::Stopped);
        TickOutcome { stepped, redraw_border, keep_going }
    }

    /// The current run state.
    pub fn get_state(&self) -> (s: GameState)
        ensures
            s == self@.state,
    {
        self.state
    }

    pub fn get_width(&self) -> (r: i32)
        ensures
            r == self@.width,
    {
        self.width
    }

    pub fn get_height(&self) -> (r: i32)
        ensures
            r == self@.height,
    {
        self.height
    }

    pub fn get_x_offset(&self) -> (r: i32)
        ensures
            r == self@.x_offset,
    {
        self.x_offset
    }

    pub fn get_y_offset(&self) -> (r: i32)
        ensures
            r == self@.y_offset,
    {
        self.y_offset
    }

    pub fn get_cursor_x(&self) -> (r: i32)
        ensures
            r == self@.cursor_x,
    {
        self.cursor.get_x()
    }

    pub fn get_cursor_y(&self) -> (r: i32)
        ensures
            r == self@.cursor_y,
    {
        self.cursor.get_y()
    }
}

/// Writing a cell and then reading the same cell yields the value just
/// written, and no other cell is disturbed.
pub proof fn lemma_set_then_get(grid: Seq<Seq<bool>>, width: int, height: int, x: int, y: int, b: bool)
    requires
        grid.len() == width,
        forall|i: int| 0 <= i < width ==> (#[trigger] grid[i]).len() == height,
        0 <= x < width,
        0 <= y < height,
    ensures
        grid_set(grid, x, y, b)[x][y] == b,
        forall|i: int, j: int|
            0 <= i < width && 0 <= j < height && !(i == x && j == y)
                ==> #[trigger] grid_set(grid, x, y, b)[i][j] == grid[i][j],
{
}

/// A sequence of input events, applied in order, one per tick.
pub open spec fn spec_apply_inputs(v: GameView, inputs: Seq<InputEvent>) -> GameView
    decreases inputs.len(),
{
    if inputs.len() == 0 {
        v
    } else {
        spec_apply_inputs(spec_apply_input(v, Option::Some(inputs[0])), inputs.drop_first())
    }
}

pub open spec fn spec_inputs_ok(inputs: Seq<InputEvent>) -> bool {
    forall|i: int|
        0 <= i < inputs.len() ==> spec_input_ok(Option::Some(#[trigger] inputs[i]))
}

/// One accepted input event preserves well-formedness and the grid
/// dimensions.
pub proof fn lemma_input_preserves_wf(v: GameView, input: Option<InputEvent>)
    requires
        v.wf(),
        spec_input_ok(input),
    ensures
        spec_apply_input(v, input).wf(),
        spec_apply_input(v, input).width == v.width,
        spec_apply_input(v, input).height == v.height,
{
    let applied = spec_apply_input(v, input);
    if input matches Option::Some(InputEvent::Toggle) {
        assert forall|x: int| 0 <= x < applied.width implies (#[trigger] applied.grid[x]).len()
            == applied.height by {
            if x != v.cursor_x {
                assert(applied.grid[x] == v.grid[x]);
            }
        }
    }
}

/// However the session is driven, the cursor never leaves the grid: any
/// sequence of accepted input events preserves well-formedness, so the
/// cursor coordinates are never observed outside the grid bounds.
pub proof fn lemma_cursor_stays_on_grid(v: GameView, inputs: Seq<InputEvent>)
    requires
        v.wf(),
        spec_inputs_ok(inputs),
    ensures
        spec_apply_inputs(v, inputs).wf(),
        0 <= spec_apply_inputs(v, inputs).cursor_x < v.width,
        0 <= spec_apply_inputs(v, inputs).cursor_y < v.height,
    decreases inputs.len(),
{
    if inputs.len() > 0 {
        lemma_input_preserves_wf(v, Option::Some(inputs[0]));
        let rest = inputs.drop_first();
        assert forall|i: int|
            0 <= i < rest.len() implies spec_input_ok(Option::Some(#[trigger] rest[i])) by {
            assert(rest[i] == inputs[i + 1]);
        }
        lemma_cursor_stays_on_grid(spec_apply_input(v, Option::Some(inputs[0])), rest);
    }
}

/// A single rule-engine pass over an all-dead grid yields an all-dead
/// grid: every neighbor count is 0, and 0 is not 3.
pub proof fn lemma_step_all_dead(v: GameView)
    requires
        v.wf(),
        forall|x: int, y: int|
            0 <= x < v.width && 0 <= y < v.height ==> !(#[trigger] v.grid[x][y]),
    ensures
        forall|x: int, y: int|
            0 <= x < v.width && 0 <= y < v.height ==> !(#[trigger] spec_step_grid(v)[x][y]),
{
    assert forall|x: int, y: int|
        0 <= x < v.width && 0 <= y < v.height implies !(#[trigger] spec_step_grid(v)[x][y]) by {
        assert(spec_neighbor_count(v.grid, v.width, v.height, x, y) == 0);
    }
}

/// A single rule-engine pass over a grid with exactly one live cell
/// yields an all-dead grid: the counted neighbor cells of any position
/// are pairwise distinct, so no count can exceed 1.
pub proof fn lemma_step_single_live(v: GameView, lx: int, ly: int)
    requires
        v.wf(),
        0 <= lx < v.width,
        0 <= ly < v.height,
        forall|x: int, y: int|
            0 <= x < v.width && 0 <= y < v.height && !(x == lx && y == ly)
                ==> !(#[trigger] v.grid[x][y]),
    ensures
        forall|x: int, y: int|
            0 <= x < v.width && 0 <= y < v.height ==> !(#[trigger] spec_step_grid(v)[x][y]),
{
    assert forall|x: int, y: int|
        0 <= x < v.width && 0 <= y < v.height implies !(#[trigger] spec_step_grid(v)[x][y]) by {
        assert(spec_neighbor_count(v.grid, v.width, v.height, x, y) <= 1);
    }
}

/// Toggling the cell under the cursor twice leaves the session exactly as
/// it was.
pub proof fn lemma_toggle_twice(v: GameView)
    requires
        v.wf(),
    ensures
        spec_apply_input(
            spec_apply_input(v, Option::Some(InputEvent::Toggle)),
            Option::Some(InputEvent::Toggle),
        ) == v,
{
    let twice = spec_apply_input(
        spec_apply_input(v, Option::Some(InputEvent::Toggle)),
        Option::Some(InputEvent::Toggle),
    );
    assert(twice.grid =~~= v.grid);
}

/// Pressing confirm twice returns to the original run state: the
/// running/paused toggle is its own inverse, and a stopped session stays
/// stopped.
pub proof fn lemma_confirm_twice(v: GameView)
    ensures
        spec_apply_input(
            spec_apply_input(v, Option::Some(InputEvent::Confirm)),
            Option::Some(InputEvent::Confirm),
        ) == v,
{
}

} // verus!
