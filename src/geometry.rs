use vstd::prelude::*;

verus! {

/// A cell of the arena, as a pair of integer coordinates.
#[derive(Clone, Copy, Debug, PartialEq, Eq, Structural, Hash)]
pub struct Position {
    pub x: i32,
    pub y: i32,
}

/// One of the four headings the snake can travel in.
#[derive(Clone, Copy, Debug, PartialEq, Eq, Structural, Hash)]
pub enum Direction {
    Left,
    Up,
    Right,
    Down,
}

/// The reverse of a heading.
pub open spec fn opposite_of(d: Direction) -> Direction {
    match d {
        Direction::Left => Direction::Right,
        Direction::Right => Direction::Left,
        Direction::Up => Direction::Down,
        Direction::Down => Direction::Up,
    }
}

/// The change of x one step along `d` makes.
pub open spec fn dx(d: Direction) -> int {
    match d {
        Direction::Left => -1,
        Direction::Right => 1,
        _ => 0,
    }
}

/// The change of y one step along `d` makes.
pub open spec fn dy(d: Direction) -> int {
    match d {
        Direction::Up => 1,
        Direction::Down => -1,
        _ => 0,
    }
}

/// Whether one step along `d` from `p` stays within the range of `i32`.
pub open spec fn can_step(p: Position, d: Direction) -> bool {
    i32::MIN <= p.x + dx(d) <= i32::MAX && i32::MIN <= p.y + dy(d) <= i32::MAX
}

/// The cell one step along `d` from `p`.
pub open spec fn stepped(p: Position, d: Direction) -> Position
    recommends
        can_step(p, d),
{
    Position { x: (p.x + dx(d)) as i32, y: (p.y + dy(d)) as i32 }
}

/// Whether `p` lies in a `width` by `height` arena.
pub open spec fn inside(p: Position, width: u32, height: u32) -> bool {
    0 <= p.x < width && 0 <= p.y < height
}

impl Direction {
    pub fn opposite(self) -> (r: Direction)
        ensures
            r == opposite_of(self),
    {
        match self {
            Direction::Left => Direction::Right,
            Direction::Right => Direction::Left,
            Direction::Up => Direction::Down,
            Direction::Down => Direction::Up,
        }
    }
}

impl Position {
    /// The cell one step along `d`.
    pub fn step(self, d: Direction) -> (r: Position)
        requires
            can_step(self, d),
        ensures
            r == stepped(self, d),
    {
        match d {
            Direction::Left => Position { x: self.x - 1, y: self.y },
            Direction::Right => Position { x: self.x + 1, y: self.y },
            Direction::Up => Position { x: self.x, y: self.y + 1 },
            Direction::Down => Position { x: self.x, y: self.y - 1 },
        }
    }
}

/// Whether `pos` lies in a `width` by `height` arena.
pub fn in_bounds(pos: Position, width: u32, height: u32) -> (r: bool)
    ensures
        r == inside(pos, width, height),
{
    pos.x >= 0 && pos.y >= 0 && (pos.x as u32) < width && (pos.y as u32) < height
}

/// Whether `pos` is one of the cells of `cells`.
pub fn contains_position(cells: &Vec<Position>, pos: Position) -> (r: bool)
    ensures
        r == cells@.contains(pos),
{
    let mut i: usize = 0;
    while i < cells.len()
        invariant
            i <= cells@.len(),
            forall|j: int| 0 <= j < i ==> cells@[j] != pos,
        decreases cells@.len() - i,
    {
        if cells[i] == pos {
            assert(cells@[i as int] == pos);
            return true;
        }
        i = i + 1;
    }
    false
}

} // verus!
