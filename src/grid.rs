use vstd::prelude::*;

verus! {

/// Number of rows of the board, walls included.
pub const HEIGHT: usize = 25;

/// Number of columns of the board, walls included.
pub const WIDTH: usize = 100;

/// What occupies one cell of the board.
#[derive(Clone, Copy, Debug, PartialEq, Eq, Structural)]
pub enum Cell {
    Empty,
    Wall,
    Body,
    Head,
    Food,
}

/// A cell position: `row` counts from the top, `col` from the left.
#[derive(Clone, Copy, Debug, PartialEq, Eq, Structural)]
pub struct Pos {
    pub row: usize,
    pub col: usize,
}

/// The position lies on the board.
pub open spec fn in_bounds(p: Pos) -> bool {
    p.row < HEIGHT && p.col < WIDTH
}

/// The position lies on the outer ring of wall cells.
pub open spec fn on_boundary(p: Pos) -> bool {
    p.row == 0 || p.row == HEIGHT - 1 || p.col == 0 || p.col == WIDTH - 1
}

/// The position lies on the board and off its outer ring.
pub open spec fn interior(p: Pos) -> bool {
    in_bounds(p) && !on_boundary(p)
}

/// Row-major index of a position in the flat cell buffer.
pub open spec fn index_of(p: Pos) -> int {
    p.row * WIDTH + p.col
}

/// The cell a freshly created board holds at `p`.
pub open spec fn initial_cell(p: Pos) -> Cell {
    if on_boundary(p) {
        Cell::Wall
    } else {
        Cell::Empty
    }
}

/// The board: `HEIGHT * WIDTH` cells stored row by row.
pub struct Grid {
    pub cells: Vec<Cell>,
}

impl Grid {
    pub open spec fn view(&self) -> Seq<Cell> {
        self.cells@
    }

    /// The buffer holds exactly one cell per board position.
    pub open spec fn wf(&self) -> bool {
        self.cells@.len() == HEIGHT * WIDTH
    }

    /// The cell at a position on the board.
    pub open spec fn at(&self, p: Pos) -> Cell {
        self.cells@[index_of(p)]
    }

    /// Reads the cell at `p`.
    pub fn get(&self, p: Pos) -> (r: Cell)
        requires
            self.wf(),
            in_bounds(p),
        ensures
            r == self.at(p),
    {
        self.cells[p.row * WIDTH + p.col]
    }

    /// Writes `c` into the cell at `p`, leaving every other cell as it was.
    pub fn set(&mut self, p: Pos, c: Cell)
        requires
            old(self).wf(),
            in_bounds(p),
        ensures
            final(self).wf(),
            final(self)@ == old(self)@.update(index_of(p), c),
    {
        self.cells.set(p.row * WIDTH + p.col, c);
    }
}

/// The character that shows a cell on screen.
pub open spec fn symbol_of(c: Cell) -> char {
    match c {
        Cell::Empty => ' ',
        Cell::Wall => '■',
        Cell::Body => '■',
        Cell::Head => '●',
        Cell::Food => '▣',
    }
}

/// The character that shows a cell on screen.
pub fn symbol(c: Cell) -> (r: char)
    ensures
        r == symbol_of(c),
{
    match c {
        Cell::Empty => ' ',
        Cell::Wall => '■',
        Cell::Body => '■',
        Cell::Head => '●',
        Cell::Food => '▣',
    }
}

/// The screen image of the board: one line per row, one character per cell.
pub fn render(map: &Grid) -> (rows: Vec<Vec<char>>)
    requires
        map.wf(),
    ensures
        rows@.len() == HEIGHT,
        forall|r: int| 0 <= r < HEIGHT ==> (#[trigger] rows@[r])@.len() == WIDTH,
        forall|p: Pos| in_bounds(p) ==> rows@[p.row as int]@[p.col as int] == symbol_of(#[trigger] map.at(p)),
{
    let mut rows: Vec<Vec<char>> = Vec::new();
    let mut r: usize = 0;
    while r < HEIGHT
        invariant
            r <= HEIGHT,
            map.wf(),
            rows@.len() == r,
            forall|i: int| 0 <= i < r ==> (#[trigger] rows@[i])@.len() == WIDTH,
            forall|p: Pos| p.row < r && p.col < WIDTH ==> rows@[p.row as int]@[p.col as int] == symbol_of(#[trigger] map.at(p)),
        decreases HEIGHT - r,
    {
        let mut line: Vec<char> = Vec::new();
        let mut c: usize = 0;
        while c < WIDTH
            invariant
                r < HEIGHT,
                c <= WIDTH,
                map.wf(),
                line@.len() == c,
                forall|p: Pos| p.row == r && p.col < c ==> line@[p.col as int] == symbol_of(#[trigger] map.at(p)),
            decreases WIDTH - c,
        {
            let ch = symbol(map.get(Pos { row: r, col: c }));
            line.push(ch);
            c = c + 1;
        }
        rows.push(line);
        r = r + 1;
    }
    rows
}

/// Builds the board: walls on the outer ring, empty cells inside.
pub fn create_map() -> (map: Grid)
    ensures
        map.wf(),
        forall|p: Pos| in_bounds(p) ==> #[trigger] map.at(p) == initial_cell(p),
{
    let mut cells: Vec<Cell> = Vec::new();
    let mut r: usize = 0;
    while r < HEIGHT
        invariant
            r <= HEIGHT,
            cells@.len() == r * WIDTH,
            forall|p: Pos| p.row < r && p.col < WIDTH ==> cells@[index_of(p)] == initial_cell(p),
        decreases HEIGHT - r,
    {
        let mut c: usize = 0;
        while c < WIDTH
            invariant
                r < HEIGHT,
                c <= WIDTH,
                cells@.len() == r * WIDTH + c,
                forall|p: Pos| p.row < r && p.col < WIDTH ==> cells@[index_of(p)] == initial_cell(p),
                forall|p: Pos| p.row == r && p.col < c ==> cells@[index_of(p)] == initial_cell(p),
            decreases WIDTH - c,
        {
            let wall = r == 0 || r == HEIGHT - 1 || c == 0 || c == WIDTH - 1;
            if wall {
                cells.push(Cell::Wall);
            } else {
                cells.push(Cell::Empty);
            }
            c = c + 1;
        }
        r = r + 1;
    }
    Grid { cells }
}

} // verus!
