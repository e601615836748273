use crate::geometry::{can_step, contains_position, opposite_of, stepped, Direction, Position};
use vstd::prelude::*;

verus! {

/// Where the head stands when a snake is spawned.
pub open spec fn spawn_head() -> Position {
    Position { x: 3, y: 3 }
}

/// Where the single body segment stands when a snake is spawned.
pub open spec fn spawn_body() -> Position {
    Position { x: 3, y: 2 }
}

/// The heading after a turn to `requested` is asked for: a reversal is refused.
pub open spec fn turned(current: Direction, requested: Direction) -> Direction {
    if requested == opposite_of(current) {
        current
    } else {
        requested
    }
}

/// The segments after one step along `d`: a new head, and each other segment
/// where its predecessor stood.
pub open spec fn shifted(segments: Seq<Position>, d: Direction) -> Seq<Position> {
    seq![stepped(segments[0], d)] + segments.drop_last()
}

/// The body of the snake, head first, and the heading of its head.
pub struct Snake {
    pub segments: Vec<Position>,
    pub heading: Direction,
}

impl Snake {
    /// A snake always has a head and at least one body segment.
    pub open spec fn wf(&self) -> bool {
        self.segments@.len() >= 2
    }

    /// The position of the head.
    pub open spec fn head_spec(&self) -> Position {
        self.segments@[0]
    }

    /// The snake of a fresh round: head at (3,3), body at (3,2), heading up.
    pub fn spawn() -> (r: Snake)
        ensures
            r.wf(),
            r.segments@ == seq![spawn_head(), spawn_body()],
            r.heading == Direction::Up,
    {
        let segments = vec![Position { x: 3, y: 3 }, Position { x: 3, y: 2 }];
        Snake { segments, heading: Direction::Up }
    }

    /// A snake made of the given segments, head first.
    pub fn from_segments(segments: Vec<Position>, heading: Direction) -> (r: Snake)
        requires
            segments@.len() >= 2,
        ensures
            r.wf(),
            r.segments@ == segments@,
            r.heading == heading,
    {
        Snake { segments, heading }
    }

    pub fn head(&self) -> (r: Position)
        requires
            self.wf(),
        ensures
            r == self.head_spec(),
    {
        self.segments[0]
    }

    pub fn heading(&self) -> (r: Direction)
        ensures
            r == self.heading,
    {
        self.heading
    }

    pub fn len(&self) -> (r: usize)
        ensures
            r == self.segments@.len(),
    {
        self.segments.len()
    }

    /// Turns the head towards `requested` unless that reverses it; returns
    /// whether the turn was taken.
    pub fn set_heading(&mut self, requested: Direction) -> (accepted: bool)
        ensures
            accepted == (requested != opposite_of(old(self).heading)),
            final(self).heading == turned(old(self).heading, requested),
            final(self).segments@ == old(self).segments@,
    {
        if requested.opposite() != self.heading {
            self.heading = requested;
            true
        } else {
            false
        }
    }

    /// The cell the head would enter on the next step.
    pub fn next_head(&self) -> (r: Position)
        requires
            self.wf(),
            can_step(self.head_spec(), self.heading),
        ensures
            r == stepped(self.head_spec(), self.heading),
    {
        self.segments[0].step(self.heading)
    }

    /// Whether some segment stands at `pos`.
    pub fn contains_body(&self, pos: Position) -> (r: bool)
        ensures
            r == self.segments@.contains(pos),
    {
        contains_position(&self.segments, pos)
    }

    /// Moves the snake one cell along its heading; returns the new head and the
    /// cell the tail left.
    pub fn advance(&mut self) -> (r: (Position, Position))
        requires
            old(self).wf(),
            can_step(old(self).head_spec(), old(self).heading),
        ensures
            final(self).wf(),
            final(self).heading == old(self).heading,
            final(self).segments@ == shifted(old(self).segments@, old(self).heading),
            r.0 == stepped(old(self).head_spec(), old(self).heading),
            r.1 == old(self).segments@.last(),
    {
        let n = self.segments.len();
        let new_head = self.segments[0].step(self.heading);
        let tail = self.segments[n - 1];
        let mut moved: Vec<Position> = Vec::new();
        moved.push(new_head);
        let mut i: usize = 0;
        while i + 1 < n
            invariant
                n == self.segments@.len(),
                n >= 2,
                i + 1 <= n,
                moved@ == seq![new_head] + self.segments@.subrange(0, i as int),
            decreases n - i,
        {
            moved.push(self.segments[i]);
            assert(self.segments@.subrange(0, i + 1) == self.segments@.subrange(0, i as int).push(
                self.segments@[i as int],
            ));
            i = i + 1;
        }
        assert(self.segments@.subrange(0, i as int) == self.segments@.drop_last());
        self.segments = moved;
        (new_head, tail)
    }

    /// Appends a segment at the tail end, at `at`.
    pub fn grow(&mut self, at: Position)
        requires
            old(self).wf(),
        ensures
            final(self).wf(),
            final(self).heading == old(self).heading,
            final(self).segments@ == old(self).segments@.push(at),
    {
        self.segments.push(at);
    }
}

/// A turn that would reverse the snake is refused: its heading stays, and the
/// next step goes the way it went before.
pub proof fn lemma_reversal_refused(segments: Seq<Position>, h: Direction)
    requires
        segments.len() >= 2,
    ensures
        turned(h, opposite_of(h)) == h,
        shifted(segments, turned(h, opposite_of(h))) == shifted(segments, h),
{
}

/// After a step, every segment but the head stands where its predecessor stood
/// before the step, and the head stands one cell along the heading.
pub proof fn lemma_follow_the_leader(segments: Seq<Position>, d: Direction)
    requires
        segments.len() >= 2,
    ensures
        shifted(segments, d).len() == segments.len(),
        shifted(segments, d)[0] == stepped(segments[0], d),
        forall|i: int| 1 <= i < segments.len() ==> #[trigger] shifted(segments, d)[i] == segments[i - 1],
{
}

} // verus!
