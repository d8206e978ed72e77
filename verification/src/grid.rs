//! Value types of the grid: field extents, cell coordinates and headings.

use vstd::prelude::*;

verus! {

/// Why an operation of this library refused its input.
#[derive(Clone, Copy, Debug, PartialEq, Eq, Structural)]
pub enum SnakeError {
    /// The head would have left the field.
    BoundaryCollision,
    /// A field with no rows or no columns was asked for.
    InvalidConfiguration,
}

/// Extents of the playable grid.
#[derive(Clone, Copy, Debug, PartialEq, Eq, Structural)]
pub struct FieldSize {
    pub rows: u64,
    pub cols: u64,
}

impl FieldSize {
    /// A field is valid when it has at least one row and one column.
    pub open spec fn wf(&self) -> bool {
        self.rows >= 1 && self.cols >= 1
    }

    /// Builds a field descriptor, refusing a field without rows or columns.
    pub fn new(rows: u64, cols: u64) -> (made: Result<FieldSize, SnakeError>)
        ensures
            rows >= 1 && cols >= 1 ==> made == Ok::<FieldSize, SnakeError>(
                (FieldSize { rows, cols }),
            ),
            rows == 0 || cols == 0 ==> made == Err::<FieldSize, SnakeError>(
                SnakeError::InvalidConfiguration,
            ),
    {
        if rows == 0 || cols == 0 {
            Err(SnakeError::InvalidConfiguration)
        } else {
            Ok(FieldSize { rows, cols })
        }
    }
}

/// One of the four headings a snake can take.
#[derive(Clone, Copy, Debug, PartialEq, Eq, Structural)]
pub enum Direction {
    UP,
    DOWN,
    LEFT,
    RIGHT,
}

impl Direction {
    /// Change of the column index after one step in this heading.
    pub open spec fn dx(self) -> int {
        match self {
            Direction::UP => 0,
            Direction::DOWN => 0,
            Direction::LEFT => -1,
            Direction::RIGHT => 1,
        }
    }

    /// Change of the row index after one step in this heading.
    pub open spec fn dy(self) -> int {
        match self {
            Direction::UP => -1,
            Direction::DOWN => 1,
            Direction::LEFT => 0,
            Direction::RIGHT => 0,
        }
    }

    /// The unit step of this heading as `(dx, dy)`.
    pub fn delta(self) -> (step: (i8, i8))
        ensures
            step.0 == self.dx(),
            step.1 == self.dy(),
    {
        match self {
            Direction::UP => (0, -1),
            Direction::DOWN => (0, 1),
            Direction::LEFT => (-1, 0),
            Direction::RIGHT => (1, 0),
        }
    }
}

/// A grid cell: `x` is the column index, `y` the row index.
#[derive(Clone, Copy, Debug, PartialEq, Eq, Structural)]
pub struct Coord {
    pub x: u64,
    pub y: u64,
}

impl Coord {
    /// The middle cell of a field, rounded up on each axis.
    pub open spec fn spec_centered(field_size: FieldSize) -> Coord {
        Coord { x: ((field_size.cols + 1) / 2) as u64, y: ((field_size.rows + 1) / 2) as u64 }
    }

    /// The cell one step away in `direction`, or `None` where an index would
    /// fall below zero or above what a `u64` holds.
    pub open spec fn spec_shifted(self, direction: Direction) -> Option<Coord> {
        let x = self.x + direction.dx();
        let y = self.y + direction.dy();
        if 0 <= x <= u64::MAX && 0 <= y <= u64::MAX {
            Some(Coord { x: x as u64, y: y as u64 })
        } else {
            None
        }
    }

    /// Whether this cell lies inside the field.
    pub open spec fn spec_within(self, field_size: FieldSize) -> bool {
        self.x < field_size.cols && self.y < field_size.rows
    }

    /// The cell in column `x` and row `y`.
    pub fn new(x: u64, y: u64) -> (made: Coord)
        ensures
            made == (Coord { x, y }),
    {
        Coord { x, y }
    }

    /// The cell a snake is spawned on.
    pub fn centered(field_size: FieldSize) -> (middle: Coord)
        requires
            field_size.wf(),
        ensures
            middle == Coord::spec_centered(field_size),
            middle.x >= 1,
            middle.y >= 1,
    {
        Coord {
            x: field_size.cols / 2 + field_size.cols % 2,
            y: field_size.rows / 2 + field_size.rows % 2,
        }
    }

    /// Applies the unit step of `direction` in widened arithmetic.
    pub fn shifted(self, direction: Direction) -> (moved: Option<Coord>)
        ensures
            moved == self.spec_shifted(direction),
    {
        let (dx, dy) = direction.delta();
        let x: i128 = self.x as i128 + dx as i128;
        let y: i128 = self.y as i128 + dy as i128;
        if x < 0 || x > u64::MAX as i128 || y < 0 || y > u64::MAX as i128 {
            None
        } else {
            Some(Coord { x: x as u64, y: y as u64 })
        }
    }

    /// Tells whether this cell lies inside the field.
    pub fn within(self, field_size: FieldSize) -> (inside: bool)
        ensures
            inside == self.spec_within(field_size),
    {
        self.x < field_size.cols && self.y < field_size.rows
    }
}

} // verus!
