//! The snake: an ordered, never empty run of grid cells and a heading.

use std::collections::VecDeque;
use vstd::prelude::*;
use crate::direction::{steer, Direction, Key};
use crate::grid::{cells_view, Cell, Position};
use crate::render::{squares_view, PixelSquare, Square};

verus! {

/// A snake as mathematics sees it. `body[0]` is the head, the last entry
/// the tail.
pub struct SnakeView {
    pub body: Seq<Cell>,
    pub dir: Direction,
}

impl SnakeView {
    /// A snake has at least one segment.
    pub open spec fn wf(self) -> bool {
        self.body.len() > 0
    }

    /// The cell of the head.
    pub open spec fn head(self) -> Cell
        recommends
            self.wf(),
    {
        self.body[0]
    }

    /// One square per segment, in body order.
    pub open spec fn squares(self) -> Seq<PixelSquare> {
        self.body.map_values(|c: Cell| c.segment_square())
    }

    /// The snake after `key` is pressed: the heading goes through the
    /// steering rule, the body stays where it is.
    pub open spec fn steered(self, key: Key) -> SnakeView {
        SnakeView { body: self.body, dir: steer(self.dir, key) }
    }

    /// The cell that the head enters at the next tick.
    pub open spec fn next_head(self) -> Cell
        recommends
            self.wf(),
    {
        self.head().step(self.dir)
    }

    /// Whether a tick can be carried out: there is a head, and the cell
    /// ahead of it has coordinates that a `Position` can hold.
    pub open spec fn can_advance(self) -> bool {
        self.wf() && self.next_head().fits()
    }

    /// The snake after one tick: a new head one cell ahead of the old one,
    /// every other segment in the place of the one before it, the old tail
    /// cell given up.
    pub open spec fn advance(self) -> SnakeView
        recommends
            self.wf(),
    {
        SnakeView { body: seq![self.next_head()] + self.body.drop_last(), dir: self.dir }
    }
}

/// The sum of the unit vectors of `dirs`: where a walk along `dirs` ends,
/// seen from where it began.
pub open spec fn displacement(dirs: Seq<Direction>) -> Cell
    decreases dirs.len(),
{
    if dirs.len() == 0 {
        Cell { x: 0, y: 0 }
    } else {
        displacement(dirs.drop_last()).step(dirs.last())
    }
}

impl SnakeView {
    /// The snake after the keys of `keys` are pressed one after the other.
    pub open spec fn steered_by(self, keys: Seq<Key>) -> SnakeView
        decreases keys.len(),
    {
        if keys.len() == 0 {
            self
        } else {
            self.steered_by(keys.drop_last()).steered(keys.last())
        }
    }

    /// The snake after a run of rounds, each of them some key presses
    /// followed by one tick.
    pub open spec fn played(self, rounds: Seq<Seq<Key>>) -> SnakeView
        decreases rounds.len(),
    {
        if rounds.len() == 0 {
            self
        } else {
            self.played(rounds.drop_last()).steered_by(rounds.last()).advance()
        }
    }

    /// The heading in force at each tick of that run, in order.
    pub open spec fn headings(self, rounds: Seq<Seq<Key>>) -> Seq<Direction>
        decreases rounds.len(),
    {
        if rounds.len() == 0 {
            Seq::empty()
        } else {
            self.headings(rounds.drop_last()).push(
                self.played(rounds.drop_last()).steered_by(rounds.last()).dir,
            )
        }
    }

    /// A tick moves the head by exactly the unit vector of the heading and
    /// keeps the number of segments.
    pub proof fn lemma_advance_moves_head(self)
        requires
            self.wf(),
        ensures
            self.advance().wf(),
            self.advance().head() == self.head().step(self.dir),
            self.advance().head().x == self.head().x + self.dir.dx(),
            self.advance().head().y == self.head().y + self.dir.dy(),
            self.advance().body.len() == self.body.len(),
            self.advance().dir == self.dir,
    {
    }

    /// A tick moves every segment but the head into the place of the one
    /// before it.
    pub proof fn lemma_advance_follows(self, i: int)
        requires
            self.wf(),
            0 < i < self.body.len(),
        ensures
            self.advance().body[i] == self.body[i - 1],
    {
    }

    /// Pressing the same key a second time changes nothing more.
    pub proof fn lemma_steered_idempotent(self, key: Key)
        ensures
            self.steered(key).steered(key) == self.steered(key),
    {
    }

    /// Key presses, however many, move nothing.
    pub proof fn lemma_steered_by_keeps_body(self, keys: Seq<Key>)
        ensures
            self.steered_by(keys).body == self.body,
        decreases keys.len(),
    {
        if keys.len() > 0 {
            self.lemma_steered_by_keeps_body(keys.drop_last());
        }
    }

    /// After any run of rounds the snake has as many segments as before,
    /// and its head has moved by one unit vector per tick, each that of the
    /// heading that was in force at that tick.
    pub proof fn lemma_played_travels(self, rounds: Seq<Seq<Key>>)
        requires
            self.wf(),
        ensures
            self.played(rounds).wf(),
            self.played(rounds).body.len() == self.body.len(),
            self.headings(rounds).len() == rounds.len(),
            self.played(rounds).head() == self.head().shifted(
                displacement(self.headings(rounds)),
            ),
        decreases rounds.len(),
    {
        if rounds.len() > 0 {
            let before = self.played(rounds.drop_last());
            let turned = before.steered_by(rounds.last());
            self.lemma_played_travels(rounds.drop_last());
            before.lemma_steered_by_keeps_body(rounds.last());
            turned.lemma_advance_moves_head();
            assert(self.headings(rounds).drop_last() =~= self.headings(rounds.drop_last()));
        }
    }
}

/// Rendering has one answer: whatever two runs of squares meet the contract
/// of `Snake::render` for two snakes with the same body are the same run.
/// The heading plays no part in it.
pub proof fn lemma_render_deterministic(
    a: SnakeView,
    b: SnakeView,
    drawn_a: Seq<Square>,
    drawn_b: Seq<Square>,
)
    requires
        a.body == b.body,
        squares_view(drawn_a) == a.squares(),
        squares_view(drawn_b) == b.squares(),
    ensures
        drawn_a == drawn_b,
{
    assert(drawn_a.len() == squares_view(drawn_a).len());
    assert(drawn_b.len() == squares_view(drawn_b).len());
    assert forall|i: int| 0 <= i < drawn_a.len() implies drawn_a[i] == drawn_b[i] by {
        assert(squares_view(drawn_a)[i] == squares_view(drawn_b)[i]);
    }
}

/// The snake as the program holds it. The body is a deque, so that a tick
/// costs one push at the front and one pop at the back.
pub struct Snake {
    body: VecDeque<Position>,
    dir: Direction,
}

impl View for Snake {
    type V = SnakeView;

    closed spec fn view(&self) -> SnakeView {
        SnakeView { body: cells_view(self.body@), dir: self.dir }
    }
}

impl Snake {
    /// Builds a snake from its segments, head first. A snake without a
    /// body does not exist: an empty `body` gives `None`.
    pub fn new(body: Vec<Position>, dir: Direction) -> (made: Option<Snake>)
        ensures
            made is None <==> body@.len() == 0,
            made matches Some(s) ==> s@.wf() && s@ == (SnakeView { body: cells_view(body@), dir }),
    {
        if body.len() == 0 {
            return None;
        }
        let mut segments: VecDeque<Position> = VecDeque::new();
        let mut i: usize = 0;
        while i < body.len()
            invariant
                i <= body.len(),
                segments@ == body@.take(i as int),
            decreases body.len() - i,
        {
            segments.push_back(body[i]);
            i += 1;
        }
        assert(body@.take(body.len() as int) == body@);
        Some(Snake { body: segments, dir })
    }

    /// The heading.
    pub fn direction(&self) -> (dir: Direction)
        ensures
            dir == self@.dir,
    {
        self.dir
    }

    /// The number of segments.
    pub fn len(&self) -> (n: usize)
        ensures
            n == self@.body.len(),
    {
        self.body.len()
    }

    /// The position of the head.
    pub fn head(&self) -> (head: Position)
        requires
            self@.wf(),
        ensures
            head@ == self@.head(),
    {
        self.body[0]
    }

    /// The segments, head first.
    pub fn body(&self) -> (segments: Vec<Position>)
        ensures
            cells_view(segments@) == self@.body,
    {
        let mut segments: Vec<Position> = Vec::new();
        let mut i: usize = 0;
        while i < self.body.len()
            invariant
                i <= self.body@.len(),
                segments@ == self.body@.take(i as int),
            decreases self.body@.len() - i,
        {
            segments.push(self.body[i]);
            i += 1;
        }
        assert(self.body@.take(self.body@.len() as int) == self.body@);
        segments
    }

    /// Whether `update` may be called: whether the cell ahead of the head
    /// still has coordinates that a `Position` can hold.
    pub fn can_update(&self) -> (ok: bool)
        ensures
            ok == self@.can_advance(),
    {
        if self.body.len() == 0 {
            return false;
        }
        let head: Position = self.body[0];
        match self.dir {
            Direction::Left => head.x > i32::MIN,
            Direction::Right => head.x < i32::MAX,
            Direction::Up => head.y > i32::MIN,
            Direction::Down => head.y < i32::MAX,
        }
    }

    /// One tick: the snake glides one cell in its heading. The body keeps
    /// its length and its order; the heading is untouched.
    pub fn update(&mut self)
        requires
            old(self)@.can_advance(),
        ensures
            final(self)@ == old(self)@.advance(),
            final(self)@.wf(),
            final(self)@.head() == old(self)@.head().step(old(self)@.dir),
            final(self)@.body.len() == old(self)@.body.len(),
            final(self)@.dir == old(self)@.dir,
    {
        let mut new_head: Position = self.body[0];
        match self.dir {
            Direction::Left => new_head.x -= 1,
            Direction::Right => new_head.x += 1,
            Direction::Up => new_head.y -= 1,
            Direction::Down => new_head.y += 1,
        }
        self.body.push_front(new_head);
        self.body.pop_back();
        proof {
            assert(self@.body =~= old(self)@.advance().body);
        }
    }

    /// A key press: an arrow key sets the heading, unless it asks for the
    /// reverse of the current one; any other key is ignored. The body does
    /// not move before the next tick.
    pub fn pressed(&mut self, key: Key)
        ensures
            final(self)@ == old(self)@.steered(key),
            final(self)@.body == old(self)@.body,
    {
        let last_direction: Direction = self.dir;
        self.dir = match key {
            Key::Up if last_direction != Direction::Down => Direction::Up,
            Key::Down if last_direction != Direction::Up => Direction::Down,
            Key::Left if last_direction != Direction::Right => Direction::Left,
            Key::Right if last_direction != Direction::Left => Direction::Right,
            _ => last_direction,
        };
    }

    /// The squares to fill for this snake: one per segment, each covering
    /// its whole cell, in body order.
    pub fn render(&self) -> (squares: Vec<Square>)
        ensures
            squares_view(squares@) == self@.squares(),
    {
        let mut squares: Vec<Square> = Vec::new();
        let mut i: usize = 0;
        while i < self.body.len()
            invariant
                i <= self.body@.len(),
                squares@.len() == i,
                forall|k: int|
                    0 <= k < i ==> (#[trigger] squares@[k])@ == self.body@[k]@.segment_square(),
            decreases self.body@.len() - i,
        {
            let segment: Position = self.body[i];
            squares.push(segment.segment_square());
            i += 1;
        }
        squares
    }
}

} // verus!
