use crate::geometry::{contains_position, inside, Position};
use crate::timer::RepeatingTimer;
use vstd::prelude::*;

verus! {

/// A piece of food: an identity and the cell it lies on.
#[derive(Clone, Copy, Debug, PartialEq, Eq, Structural)]
pub struct Food {
    pub id: u64,
    pub position: Position,
}

/// The items of `s` that `keep` holds of, in their order.
pub open spec fn retained(s: Seq<Food>, keep: spec_fn(Food) -> bool) -> Seq<Food>
    decreases s.len(),
{
    if s.len() == 0 {
        seq![]
    } else {
        let rest = retained(s.drop_last(), keep);
        if keep(s.last()) {
            rest.push(s.last())
        } else {
            rest
        }
    }
}

/// The items of `s` whose identity is not `id`.
pub open spec fn without_id(s: Seq<Food>, id: u64) -> Seq<Food> {
    retained(s, |f: Food| f.id != id)
}

/// The items of `s` that do not lie on `pos`.
pub open spec fn without_position(s: Seq<Food>, pos: Position) -> Seq<Food> {
    retained(s, |f: Food| f.position != pos)
}

/// The items of `s` that lie on none of the cells of `occupied`.
pub open spec fn clear_of(s: Seq<Food>, occupied: Seq<Position>) -> Seq<Food> {
    retained(s, |f: Food| !occupied.contains(f.position))
}

/// Whether some item of `s` lies on `pos`.
pub open spec fn has_food_at(s: Seq<Food>, pos: Position) -> bool {
    exists|i: int| 0 <= i < s.len() && (#[trigger] s[i]).position == pos
}

proof fn lemma_retained_step(s: Seq<Food>, keep: spec_fn(Food) -> bool, i: int)
    requires
        0 <= i < s.len(),
    ensures
        retained(s.subrange(0, i + 1), keep) == (if keep(s[i]) {
            retained(s.subrange(0, i), keep).push(s[i])
        } else {
            retained(s.subrange(0, i), keep)
        }),
{
    assert(s.subrange(0, i + 1).drop_last() == s.subrange(0, i));
}

/// Relies on rand's `thread_rng` and `Rng::gen_range`: a value drawn from
/// `0..bound`, which is never empty here.
#[verifier::external_body]
fn random_below(bound: u32) -> (r: u32)
    requires
        bound > 0,
    ensures
        r < bound,
{
    rand::Rng::gen_range(&mut rand::thread_rng(), 0..bound)
}

/// The food on the board and the clock that says when more appears.
pub struct FoodManager {
    pub items: Vec<Food>,
    pub next_id: u64,
    pub spawn_timer: RepeatingTimer,
}

impl FoodManager {
    pub open spec fn wf(&self) -> bool {
        self.spawn_timer.wf()
    }

    /// The identity the item after one with identity `id` gets.
    pub open spec fn id_after(id: u64) -> u64 {
        if id < u64::MAX {
            (id + 1) as u64
        } else {
            0
        }
    }

    /// An empty board whose food appears every `interval_ms` milliseconds.
    pub fn new(interval_ms: u64) -> (r: FoodManager)
        requires
            interval_ms > 0,
        ensures
            r.wf(),
            r.items@.len() == 0,
            r.spawn_timer.interval_ms == interval_ms,
            r.spawn_timer.elapsed_ms == 0,
    {
        FoodManager { items: Vec::new(), next_id: 0, spawn_timer: RepeatingTimer::new(interval_ms) }
    }

    /// Lets `elapsed_ms` pass; returns how many items are due to appear.
    pub fn tick(&mut self, elapsed_ms: u64) -> (due: u64)
        requires
            old(self).wf(),
        ensures
            final(self).wf(),
            final(self).items@ == old(self).items@,
            final(self).next_id == old(self).next_id,
            final(self).spawn_timer.interval_ms == old(self).spawn_timer.interval_ms,
            due as int == (old(self).spawn_timer.elapsed_ms + elapsed_ms) / (
            old(self).spawn_timer.interval_ms as int),
            final(self).spawn_timer.elapsed_ms as int == (old(self).spawn_timer.elapsed_ms
                + elapsed_ms) % (old(self).spawn_timer.interval_ms as int),
    {
        self.spawn_timer.tick(elapsed_ms)
    }

    /// Puts an item at `pos`, whatever lies there already; returns its identity.
    pub fn spawn_at(&mut self, pos: Position) -> (id: u64)
        ensures
            id == old(self).next_id,
            final(self).items@ == old(self).items@.push(Food { id, position: pos }),
            final(self).next_id == Self::id_after(old(self).next_id),
            final(self).spawn_timer == old(self).spawn_timer,
    {
        let id = self.next_id;
        self.items.push(Food { id, position: pos });
        self.next_id = if id < u64::MAX {
            id + 1
        } else {
            0
        };
        id
    }

    /// Puts an item on a cell of a `width` by `height` arena drawn at random.
    pub fn spawn_random(&mut self, width: u32, height: u32) -> (id: u64)
        requires
            width > 0,
            height > 0,
            width <= i32::MAX,
            height <= i32::MAX,
        ensures
            id == old(self).next_id,
            final(self).items@.drop_last() == old(self).items@,
            final(self).items@.len() == old(self).items@.len() + 1,
            final(self).items@.last().id == id,
            inside(final(self).items@.last().position, width, height),
            final(self).next_id == Self::id_after(old(self).next_id),
            final(self).spawn_timer == old(self).spawn_timer,
    {
        let x = random_below(width);
        let y = random_below(height);
        self.spawn_at(Position { x: x as i32, y: y as i32 })
    }

    /// Takes away the item with identity `id`, if there is one.
    pub fn remove(&mut self, id: u64)
        ensures
            final(self).items@ == without_id(old(self).items@, id),
            final(self).next_id == old(self).next_id,
            final(self).spawn_timer == old(self).spawn_timer,
    {
        let ghost keep = |f: Food| f.id != id;
        let mut kept: Vec<Food> = Vec::new();
        let mut i: usize = 0;
        while i < self.items.len()
            invariant
                i <= self.items@.len(),
                kept@ == retained(self.items@.subrange(0, i as int), keep),
                keep == (|f: Food| f.id != id),
            decreases self.items@.len() - i,
        {
            proof {
                lemma_retained_step(self.items@, keep, i as int);
            }
            let f = self.items[i];
            if f.id != id {
                kept.push(f);
            }
            i = i + 1;
        }
        assert(self.items@.subrange(0, i as int) == self.items@);
        self.items = kept;
    }

    /// Takes away every item on `pos`; returns whether there was one.
    pub fn eat_at(&mut self, pos: Position) -> (ate: bool)
        ensures
            ate == has_food_at(old(self).items@, pos),
            final(self).items@ == without_position(old(self).items@, pos),
            final(self).next_id == old(self).next_id,
            final(self).spawn_timer == old(self).spawn_timer,
    {
        let ghost keep = |f: Food| f.position != pos;
        let mut kept: Vec<Food> = Vec::new();
        let mut ate = false;
        let mut i: usize = 0;
        while i < self.items.len()
            invariant
                i <= self.items@.len(),
                kept@ == retained(self.items@.subrange(0, i as int), keep),
                keep == (|f: Food| f.position != pos),
                ate == exists|j: int| 0 <= j < i && (#[trigger] self.items@[j]).position == pos,
            decreases self.items@.len() - i,
        {
            proof {
                lemma_retained_step(self.items@, keep, i as int);
            }
            let f = self.items[i];
            if f.position != pos {
                kept.push(f);
            } else {
                ate = true;
            }
            i = i + 1;
        }
        assert(self.items@.subrange(0, i as int) == self.items@);
        self.items = kept;
        ate
    }

    /// Takes away every item that lies on a cell of `occupied`.
    pub fn clear_overlaps(&mut self, occupied: &Vec<Position>)
        ensures
            final(self).items@ == clear_of(old(self).items@, occupied@),
            final(self).next_id == old(self).next_id,
            final(self).spawn_timer == old(self).spawn_timer,
    {
        let ghost keep = |f: Food| !occupied@.contains(f.position);
        let mut kept: Vec<Food> = Vec::new();
        let mut i: usize = 0;
        while i < self.items.len()
            invariant
                i <= self.items@.len(),
                kept@ == retained(self.items@.subrange(0, i as int), keep),
                keep == (|f: Food| !occupied@.contains(f.position)),
            decreases self.items@.len() - i,
        {
            proof {
                lemma_retained_step(self.items@, keep, i as int);
            }
            let f = self.items[i];
            if !contains_position(occupied, f.position) {
                kept.push(f);
            }
            i = i + 1;
        }
        assert(self.items@.subrange(0, i as int) == self.items@);
        self.items = kept;
    }

    /// Takes away every item.
    pub fn clear(&mut self)
        ensures
            final(self).items@.len() == 0,
            final(self).next_id == old(self).next_id,
            final(self).spawn_timer == old(self).spawn_timer,
    {
        self.items = Vec::new();
    }
}

} // verus!
