//! The game state and the per-tick update: time gating, movement, growth on
//! reaching the target, and the self-collision penalty.

use crate::grid::{in_bounds, moved, opposite_dir, Direction, Location};
use crate::grid::get_next_loc;
use std::collections::VecDeque;
use vstd::prelude::*;

verus! {

/// The trail length every game starts with, and the length the trail shrinks
/// back to after a self-collision.
pub const BASELINE_CAPACITY: usize = 5;

/// Accumulated milliseconds needed before a call to `do_game_move` fires one
/// discrete movement.
pub const TICK_THRESHOLD_MS: u64 = 100;

/// Relies on rand::random_range over `1..grid_size`: a draw from the
/// thread-local generator, uniform in `[1, grid_size)`; it panics only on an
/// empty range, which `grid_size >= 2` rules out.
#[verifier::external_body]
fn random_coord(grid_size: usize) -> (r: usize)
    requires
        grid_size >= 2,
    ensures
        1 <= r < grid_size,
{
    rand::random_range(1..grid_size)
}

/// A cell drawn at random from `[1, grid_size)` in each axis; coordinate 0 is
/// never drawn, so random placement stays off the zero row and column.
fn random_location(grid_size: usize) -> (r: Location)
    requires
        grid_size >= 2,
    ensures
        1 <= r.x < grid_size,
        1 <= r.y < grid_size,
{
    Location::new(random_coord(grid_size), random_coord(grid_size))
}

/// The whole state of one game session.
///
/// The trail is ordered head-first: the front is the most recently occupied
/// cell, the back the oldest. `waiting_time` accumulates elapsed milliseconds
/// until they reach `TICK_THRESHOLD_MS` and a movement fires.
#[derive(Debug)]
pub struct Game {
    pub trail: VecDeque<Location>,
    pub trail_len: usize,
    pub grid_size: usize,
    pub player_direction: Direction,
    pub apple: Location,
    pub waiting_time: u64,
}

/// The first `cap` cells of `s`, or all of `s` when it is shorter: what
/// truncating a trail to capacity `cap` leaves.
pub open spec fn truncated(s: Seq<Location>, cap: int) -> Seq<Location> {
    if cap <= s.len() {
        s.take(cap)
    } else {
        s
    }
}

impl Game {
    /// Well-formedness: the grid can hold a random draw from `[1, grid_size)`,
    /// the trail is non-empty, within capacity, on the grid and free of
    /// duplicates, the capacity never falls below the baseline, the target is
    /// on the grid, and less than one tick's worth of time is pending.
    pub open spec fn inv(&self) -> bool {
        &&& self.grid_size >= 2
        &&& 1 <= self.trail@.len() <= self.trail_len
        &&& BASELINE_CAPACITY <= self.trail_len
        &&& forall|i: int|
            0 <= i < self.trail@.len() ==> in_bounds(#[trigger] self.trail@[i], self.grid_size)
        &&& forall|i: int, j: int|
            0 <= i < j < self.trail@.len() ==> self.trail@[i] != self.trail@[j]
        &&& in_bounds(self.apple, self.grid_size)
        &&& self.waiting_time < TICK_THRESHOLD_MS
    }

    /// The head: the most recently occupied cell.
    pub open spec fn head(&self) -> Location {
        self.trail@[0]
    }

    /// The cell the head moves to when the next movement fires.
    pub open spec fn next_head(&self) -> Location {
        moved(self.head(), self.player_direction, self.grid_size)
    }

    /// Whether the next movement reaches the target.
    pub open spec fn hits_target(&self) -> bool {
        self.next_head() == self.apple
    }

    /// Whether the next movement runs into the trail itself.
    pub open spec fn self_collides(&self) -> bool {
        self.trail@.contains(self.next_head())
    }

    /// The trail capacity after one movement: reset to the baseline on a
    /// self-collision, grown by one on reaching the target, else unchanged.
    /// A collision that also reaches the target still resets.
    pub open spec fn capacity_after_move(&self) -> int {
        if self.self_collides() {
            BASELINE_CAPACITY as int
        } else if self.hits_target() {
            self.trail_len + 1
        } else {
            self.trail_len as int
        }
    }

    /// The trail after one movement: on a self-collision the colliding head
    /// is not pushed; otherwise the next head is pushed to the front; either
    /// way the result is truncated to the new capacity.
    pub open spec fn trail_after_move(&self) -> Seq<Location> {
        truncated(
            if self.self_collides() {
                self.trail@
            } else {
                seq![self.next_head()] + self.trail@
            },
            self.capacity_after_move(),
        )
    }

    /// What holds of a newly created game: a 20-by-20 grid, a one-cell trail
    /// placed at random off the zero row and column, baseline capacity,
    /// heading Right, the target placed the same way, no accumulated time.
    pub open spec fn fresh(&self) -> bool {
        &&& self.inv()
        &&& self.grid_size == 20
        &&& self.trail@.len() == 1
        &&& 1 <= self.trail@[0].x < self.grid_size
        &&& 1 <= self.trail@[0].y < self.grid_size
        &&& self.trail_len == BASELINE_CAPACITY
        &&& self.player_direction == Direction::Right
        &&& 1 <= self.apple.x < self.grid_size
        &&& 1 <= self.apple.y < self.grid_size
        &&& self.waiting_time == 0
    }

    pub fn new() -> (g: Game)
        ensures
            g.fresh(),
    {
        let grid_size: usize = 20;
        let head = random_location(grid_size);
        let mut trail: VecDeque<Location> = VecDeque::new();
        trail.push_front(head);
        Game {
            trail,
            trail_len: BASELINE_CAPACITY,
            grid_size,
            player_direction: Direction::Right,
            apple: random_location(grid_size),
            waiting_time: 0,
        }
    }

    fn current_head(&self) -> (r: Location)
        requires
            self.trail@.len() >= 1,
        ensures
            r == self.head(),
    {
        let current_head = &self.trail[0];
        Location::new(current_head.x, current_head.y)
    }

    /// Sets the heading, unless the request is exactly the opposite of the
    /// current heading, in which case it is silently ignored (an entity
    /// longer than one cell would otherwise reverse into its own body).
    pub fn change_dir(&mut self, new_dir: Direction)
        ensures
            new_dir == opposite_dir(old(self).player_direction) ==> *final(self) == *old(self),
            new_dir != opposite_dir(old(self).player_direction) ==> (*final(self) == (Game {
                player_direction: new_dir,
                ..*old(self)
            })),
    {
        if new_dir == self.player_direction.opposite() {
            return ;
        }
        self.player_direction = new_dir;
    }

    /// Whether `cell` appears anywhere in the trail.
    pub fn occupies(&self, cell: &Location) -> (r: bool)
        ensures
            r == self.trail@.contains(*cell),
    {
        trail_contains(&self.trail, cell)
    }

    /// Whether `cell` is the target.
    pub fn is_target(&self, cell: &Location) -> (r: bool)
        ensures
            r == (*cell == self.apple),
    {
        *cell == self.apple
    }
}

impl Default for Game {
    fn default() -> (g: Game)
        ensures
            g.fresh(),
    {
        Game::new()
    }
}

fn trail_contains(trail: &VecDeque<Location>, loc: &Location) -> (r: bool)
    ensures
        r == trail@.contains(*loc),
{
    let n = trail.len();
    let mut i: usize = 0;
    while i < n
        invariant
            i <= n,
            n == trail@.len(),
            forall|k: int| 0 <= k < i ==> trail@[k] != *loc,
        decreases n - i,
    {
        if trail[i] == *loc {
            return true;
        }
        i = i + 1;
    }
    false
}

/// One call of the time-gated per-tick update.
///
/// `time_change` milliseconds are added to the accumulated waiting time; if
/// the total stays below `TICK_THRESHOLD_MS` nothing else changes. Otherwise
/// the accumulator resets and one discrete movement fires: the head advances
/// one cell along the current heading with toroidal wraparound; reaching the
/// target grows the capacity by one and relocates the target at random within
/// `[1, grid_size)` in each axis; running into the trail resets the capacity
/// to the baseline and does not push the colliding head; finally the trail is
/// truncated to the (new) capacity, dropping its oldest cells.
pub fn do_game_move(game: &mut Game, time_change: u64)
    requires
        old(game).inv(),
        old(game).trail_len < usize::MAX,
    ensures
        final(game).inv(),
        final(game).trail@.len() <= final(game).trail_len,
        old(game).waiting_time + time_change < TICK_THRESHOLD_MS ==> (*final(game) == (Game {
            waiting_time: (old(game).waiting_time + time_change) as u64,
            ..*old(game)
        })),
        old(game).waiting_time + time_change >= TICK_THRESHOLD_MS ==> ({
            &&& final(game).waiting_time == 0
            &&& final(game).grid_size == old(game).grid_size
            &&& final(game).player_direction == old(game).player_direction
            &&& final(game).trail_len == old(game).capacity_after_move()
            &&& final(game).trail@ == old(game).trail_after_move()
            &&& (old(game).hits_target() ==> 1 <= final(game).apple.x < old(game).grid_size && 1
                <= final(game).apple.y < old(game).grid_size)
            &&& (!old(game).hits_target() ==> final(game).apple == old(game).apple)
        }),
{
    let total: u64 = if time_change >= TICK_THRESHOLD_MS {
        TICK_THRESHOLD_MS
    } else {
        game.waiting_time + time_change
    };

    if total < TICK_THRESHOLD_MS {
        game.waiting_time = total;
        return ;
    }

    game.waiting_time = 0;

    let next_head = get_next_loc(&game.current_head(), &game.player_direction, game.grid_size);
    proof {
        crate::grid::lemma_moved_in_bounds(
            old(game).head(),
            old(game).player_direction,
            old(game).grid_size,
        );
    }

    if next_head == game.apple {
        game.trail_len = game.trail_len + 1;
        game.apple = random_location(game.grid_size);
    }

    if trail_contains(&game.trail, &next_head) {
        game.trail_len = BASELINE_CAPACITY;
    } else {
        game.trail.push_front(next_head);
    }

    game.trail.truncate(game.trail_len);
}

} // verus!
