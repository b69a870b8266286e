//! The tick engine: the whole game state, the message protocol between the
//! input relay and the engine, and the per-frame step that drains pending
//! messages, advances the head, detects collisions, grows the body on food,
//! and emits incremental terminal effects.

use vstd::prelude::*;

use crate::body::Body;
use crate::direction::Direction;
use crate::grid::{Grid, Position, Tile};
use crate::text::{game_over_message, spec_game_over_message};

verus! {

/// A key the terminal reader can recognize.
#[derive(Debug, Clone, Copy, PartialEq, Eq, Structural)]
pub enum Key {
    ArrowUp,
    ArrowDown,
    ArrowLeft,
    ArrowRight,
    Escape,
    Other,
}

/// A message passed from the input relay (or the seed phase) to the engine.
pub enum Msg {
    /// A request to change the heading.
    MoveDirection(Direction),
    /// A raw key press, translated by the engine itself.
    OnKeyPress(Key),
    /// A request to end the game, carrying the reason to print.
    Close { message: String },
}

/// One incremental terminal action the engine asks its front end to perform.
pub enum Effect {
    /// Move the cursor to `(x, y)` and write `glyph` there.
    Draw { x: usize, y: usize, glyph: char },
    /// Tear the terminal down and print `message`.
    Close { message: String },
}

/// Whether `e` is a tear-down effect carrying exactly the message `msg`.
pub open spec fn spec_is_close_with(e: Effect, msg: Seq<char>) -> bool {
    match e {
        Effect::Close { message } => message@ == msg,
        _ => false,
    }
}

/// Whether `e` draws `glyph` at `(x, y)`.
pub open spec fn spec_is_draw(e: Effect, x: int, y: int, glyph: char) -> bool {
    match e {
        Effect::Draw { x: ex, y: ey, glyph: g } => ex == x && ey == y && g == glyph,
        _ => false,
    }
}

/// The effects at positions `base + j` are close effects whose messages
/// match `views`, in order.
pub open spec fn spec_closes_match(effects: Seq<Effect>, base: int, views: Seq<Seq<char>>) -> bool {
    forall|j: int| 0 <= j < views.len() ==> spec_is_close_with(effects[base + j], #[trigger] views[j])
}

/// The transition rule of the direction state machine: a requested heading is
/// adopted unless it is the opposite of the current one, in which case the
/// request is silently dropped.
pub open spec fn spec_apply_request(cur: Option<Direction>, req: Direction) -> Option<Direction> {
    match cur {
        Some(c) => if req.spec_opposite() == c {
            Some(c)
        } else {
            Some(req)
        },
        None => Some(req),
    }
}

/// The heading and termination flag after one message is applied.
pub open spec fn spec_apply_msg(dir: Option<Direction>, closed: bool, m: Msg) -> (
    Option<Direction>,
    bool,
) {
    match m {
        Msg::MoveDirection(d) => (spec_apply_request(dir, d), closed),
        Msg::OnKeyPress(k) => match k {
            Key::ArrowUp => (spec_apply_request(dir, Direction::Up), closed),
            Key::ArrowDown => (spec_apply_request(dir, Direction::Down), closed),
            Key::ArrowLeft => (spec_apply_request(dir, Direction::Left), closed),
            Key::ArrowRight => (spec_apply_request(dir, Direction::Right), closed),
            Key::Escape => (dir, true),
            Key::Other => (dir, closed),
        },
        Msg::Close { .. } => (dir, true),
    }
}

/// The heading and termination flag after a whole queue of messages is
/// applied in arrival order: the last accepted heading wins, and a close
/// request raises the flag for good.
pub open spec fn spec_drain(dir: Option<Direction>, closed: bool, msgs: Seq<Msg>) -> (
    Option<Direction>,
    bool,
)
    decreases msgs.len(),
{
    if msgs.len() == 0 {
        (dir, closed)
    } else {
        let prev = spec_drain(dir, closed, msgs.drop_last());
        spec_apply_msg(prev.0, prev.1, msgs.last())
    }
}

/// The views of the close messages one message makes the engine emit.
pub open spec fn spec_msg_close_views(m: Msg) -> Seq<Seq<char>> {
    match m {
        Msg::OnKeyPress(Key::Escape) => seq!["Snake game closed"@],
        Msg::Close { message } => seq![message@],
        _ => Seq::empty(),
    }
}

/// The views of the close messages draining a whole queue emits, in order.
pub open spec fn spec_close_views(msgs: Seq<Msg>) -> Seq<Seq<char>>
    decreases msgs.len(),
{
    if msgs.len() == 0 {
        Seq::empty()
    } else {
        spec_close_views(msgs.drop_last()) + spec_msg_close_views(msgs.last())
    }
}

/// The transition rule in both halves: a request opposite to the current
/// heading is dropped and the heading stands; any other request is adopted.
pub proof fn lemma_transition_rule(cur: Direction, req: Direction)
    ensures
        req.spec_opposite() == cur ==> spec_apply_request(Some(cur), req) == Some(cur),
        req.spec_opposite() != cur ==> spec_apply_request(Some(cur), req) == Some(req),
{
}

/// Once the termination flag is up, no message takes it down.
pub proof fn lemma_apply_msg_keeps_closed(dir: Option<Direction>, m: Msg)
    ensures
        spec_apply_msg(dir, true, m).1,
{
}

/// A drain that leaves the termination flag down emitted no close message.
pub proof fn lemma_unclosed_drain_is_silent(dir: Option<Direction>, msgs: Seq<Msg>)
    ensures
        !spec_drain(dir, false, msgs).1 ==> spec_close_views(msgs).len() == 0,
    decreases msgs.len(),
{
    if msgs.len() > 0 {
        lemma_unclosed_drain_is_silent(dir, msgs.drop_last());
        let prev = spec_drain(dir, false, msgs.drop_last());
        if prev.1 {
            lemma_apply_msg_keeps_closed(prev.0, msgs.last());
        }
    }
}

/// Draining never forgets the heading: once one is set, one stays set.
pub proof fn lemma_drain_keeps_direction(dir: Option<Direction>, closed: bool, msgs: Seq<Msg>)
    ensures
        dir is Some ==> spec_drain(dir, closed, msgs).0 is Some,
    decreases msgs.len(),
{
    if msgs.len() > 0 {
        lemma_drain_keeps_direction(dir, closed, msgs.drop_last());
    }
}

/// The candidate head column after one step in heading `d`.
pub open spec fn spec_next_x(p: Position, d: Direction) -> int {
    match d {
        Direction::Left => p.x - 1,
        Direction::Right => p.x + 1,
        _ => p.x as int,
    }
}

/// The candidate head row after one step in heading `d`.
pub open spec fn spec_next_y(p: Position, d: Direction) -> int {
    match d {
        Direction::Up => p.y - 1,
        Direction::Down => p.y + 1,
        _ => p.y as int,
    }
}

/// The whole game state: dimensions captured at startup, the heading and the
/// termination flag, the grid, the body, the recorded head, and the fixed
/// per-tick sleep.
pub struct Game {
    pub width: isize,
    pub height: isize,
    pub close_requested: bool,
    pub direction: Option<Direction>,
    pub position: Position,
    pub grid: Grid,
    pub body: Body,
    pub sleep_ms: u64,
}

impl Game {
    /// Whether `p` lies on the playing field.
    pub open spec fn p_in_bounds(self, p: Position) -> bool {
        self.grid.in_bounds_spec(p.x as int, p.y as int)
    }

    /// The tile recorded for coordinate `p`.
    pub open spec fn tile_at(self, p: Position) -> Tile {
        self.grid.tile(p.x as int, p.y as int)
    }

    /// The state invariant: the grid matches the recorded dimensions, the
    /// body stays inside it and never self-intersects, a coordinate is in the
    /// body exactly when its tile is `Snake`, and the recorded head is the
    /// back of the body.
    pub open spec fn wf(self) -> bool {
        &&& self.grid.wf()
        &&& self.grid.width == self.width
        &&& self.grid.height == self.height
        &&& self.body.distinct()
        &&& forall|i: int|
            0 <= i < self.body@.len() ==> self.p_in_bounds(#[trigger] self.body@[i])
        &&& forall|q: Position|
            self.p_in_bounds(q) ==> ((#[trigger] self.tile_at(q)) == Tile::Snake
                <==> self.body.contains_spec(q))
        &&& (self.body@.len() > 0 ==> self.body@.last() == self.position)
    }

    /// Whether initialization has placed the starting head.
    pub open spec fn started(self) -> bool {
        self.body@.len() >= 1
    }

    /// The fixed startup configuration never changes afterwards.
    pub open spec fn same_config(a: Game, b: Game) -> bool {
        &&& a.width == b.width
        &&& a.height == b.height
        &&& a.sleep_ms == b.sleep_ms
    }

    /// A fresh game for a viewport of the given size: no heading yet, empty
    /// body, every tile open, head centred, and a 70 ms tick sleep.
    pub fn new(width: isize, height: isize) -> (g: Game)
        requires
            0 <= width,
            0 <= height,
        ensures
            g.wf(),
            g.width == width,
            g.height == height,
            !g.close_requested,
            g.direction is None,
            g.body@ =~= Seq::<Position>::empty(),
            g.position.x == width / 2,
            g.position.y == height / 2,
            forall|q: Position| g.p_in_bounds(q) ==> g.tile_at(q) == Tile::Open,
            g.sleep_ms == 70,
    {
        Game {
            width,
            height,
            close_requested: false,
            direction: None,
            position: Position { x: width / 2, y: height / 2 },
            grid: Grid::new(width, height),
            body: Body::new(),
            sleep_ms: 70,
        }
    }

    /// Records a close request and emits the tear-down effect. Idempotent: a
    /// second request only repeats the effect.
    fn do_close(&mut self, message: String, effects: &mut Vec<Effect>)
        ensures
            final(self).close_requested,
            final(self).direction == old(self).direction,
            final(self).grid == old(self).grid,
            final(self).body == old(self).body,
            final(self).position == old(self).position,
            Game::same_config(*final(self), *old(self)),
            final(effects)@ == old(effects)@.push((Effect::Close { message })),
    {
        self.close_requested = true;
        effects.push(Effect::Close { message });
    }

    /// The transition rule applied to one requested heading: adopted unless
    /// it would reverse the current heading into the snake's own neck.
    pub fn apply_request(&mut self, d: Direction)
        ensures
            final(self).direction == spec_apply_request(old(self).direction, d),
            final(self).close_requested == old(self).close_requested,
            final(self).grid == old(self).grid,
            final(self).body == old(self).body,
            final(self).position == old(self).position,
            Game::same_config(*final(self), *old(self)),
    {
        match self.direction {
            Some(cur) => {
                if d.is_opposite(cur) {
                    return ;
                }
                self.direction = Some(d);
            },
            None => {
                self.direction = Some(d);
            },
        }
    }

    /// Applies one message: a direction request goes through the transition
    /// rule, a key press is first translated to the request it stands for,
    /// and a close request raises the termination flag and emits the
    /// tear-down effect. Grid and body are never touched.
    pub fn update(&mut self, msg: Msg, effects: &mut Vec<Effect>)
        ensures
            old(self).wf() ==> final(self).wf(),
            (final(self).direction, final(self).close_requested) == spec_apply_msg(
                old(self).direction,
                old(self).close_requested,
                msg,
            ),
            final(self).grid == old(self).grid,
            final(self).body == old(self).body,
            final(self).position == old(self).position,
            Game::same_config(*final(self), *old(self)),
            final(effects)@.len() == old(effects)@.len() + spec_msg_close_views(msg).len(),
            forall|j: int| 0 <= j < old(effects)@.len() ==> final(effects)@[j] == old(effects)@[j],
            forall|j: int|
                0 <= j < spec_msg_close_views(msg).len() ==> spec_is_close_with(
                    final(effects)@[old(effects)@.len() + j],
                    spec_msg_close_views(msg)[j],
                ),
    {
        match msg {
            Msg::MoveDirection(d) => self.apply_request(d),
            Msg::OnKeyPress(key) => match key {
                Key::ArrowLeft => self.apply_request(Direction::Left),
                Key::ArrowRight => self.apply_request(Direction::Right),
                Key::ArrowUp => self.apply_request(Direction::Up),
                Key::ArrowDown => self.apply_request(Direction::Down),
                Key::Escape => self.do_close(String::from_str("Snake game closed"), effects),
                Key::Other => {},
            },
            Msg::Close { message } => self.do_close(message, effects),
        }
        proof {
            if old(self).wf() {
                lemma_wf_same(*old(self), *self);
            }
        }
    }

    /// Drains every message queued since the previous tick, applying the
    /// transition rule in arrival order. The last accepted heading becomes
    /// the tick's heading; any close request raises the termination flag.
    /// The grid and the body are untouched.
    #[verifier::loop_isolation(false)]
    pub fn drain(&mut self, msgs: Vec<Msg>, effects: &mut Vec<Effect>)
        ensures
            old(self).wf() ==> final(self).wf(),
            (final(self).direction, final(self).close_requested) == spec_drain(
                old(self).direction,
                old(self).close_requested,
                msgs@,
            ),
            final(self).grid == old(self).grid,
            final(self).body == old(self).body,
            final(self).position == old(self).position,
            Game::same_config(*final(self), *old(self)),
            final(effects)@.len() == old(effects)@.len() + spec_close_views(msgs@).len(),
            forall|j: int|
                0 <= j < old(effects)@.len() ==> final(effects)@[j] == old(effects)@[j],
            spec_closes_match(final(effects)@, old(effects)@.len() as int, spec_close_views(msgs@)),
    {
        let ghost orig = msgs@;
        let mut rest = msgs;
        while rest.len() > 0
            invariant
                rest@.len() <= orig.len(),
                rest@ =~= orig.subrange(orig.len() - rest@.len(), orig.len() as int),
                (self.direction, self.close_requested) == spec_drain(
                    old(self).direction,
                    old(self).close_requested,
                    orig.take(orig.len() - rest@.len()),
                ),
                self.grid == old(self).grid,
                self.body == old(self).body,
                self.position == old(self).position,
                Game::same_config(*self, *old(self)),
                effects@.len() == old(effects)@.len() + spec_close_views(
                    orig.take(orig.len() - rest@.len()),
                ).len(),
                forall|j: int|
                    0 <= j < old(effects)@.len() ==> effects@[j] == old(effects)@[j],
                spec_closes_match(
                    effects@,
                    old(effects)@.len() as int,
                    spec_close_views(orig.take(orig.len() - rest@.len())),
                ),
            decreases rest@.len(),
        {
            let ghost k = orig.len() - rest@.len();
            let m = rest.remove(0);
            proof {
                assert(m == orig[k]);
            }
            self.update(m, effects);
            proof {
                assert(orig.take(k + 1).drop_last() =~= orig.take(k));
                assert(orig.take(k + 1).last() == orig[k]);
                assert(spec_close_views(orig.take(k + 1)) =~= spec_close_views(orig.take(k))
                    + spec_msg_close_views(orig[k]));
            }
        }
        proof {
            assert(orig.take(orig.len() as int) =~= orig);
            if old(self).wf() {
                lemma_wf_same(*old(self), *self);
            }
        }
    }

    /// Writes the candidate head: marks its tile `Snake`, appends it to the
    /// body, records it as the head, and emits its glyph. The candidate must
    /// be a free in-bounds cell, so the invariant is preserved.
    fn advance_head(&mut self, np: Position, glyph: char, effects: &mut Vec<Effect>)
        requires
            old(self).wf(),
            old(self).p_in_bounds(np),
            old(self).tile_at(np) != Tile::Snake,
        ensures
            final(self).wf(),
            final(self).body@ == old(self).body@.push(np),
            final(self).position == np,
            final(self).tile_at(np) == Tile::Snake,
            forall|q: Position|
                old(self).p_in_bounds(q) && q != np ==> final(self).tile_at(q) == old(self).tile_at(q),
            final(self).direction == old(self).direction,
            final(self).close_requested == old(self).close_requested,
            Game::same_config(*final(self), *old(self)),
            final(effects)@ == old(effects)@.push(
                (Effect::Draw { x: np.x as usize, y: np.y as usize, glyph }),
            ),
    {
        proof {
            assert(!old(self).body.contains_spec(np));
        }
        self.grid.set(np, Tile::Snake);
        self.body.push_head(np);
        self.position = np;
        effects.push(Effect::Draw { x: np.x as usize, y: np.y as usize, glyph });
        proof {
            let pre = *old(self);
            assert forall|q: Position| self.p_in_bounds(q) implies ((self.tile_at(q)
                == Tile::Snake) <==> self.body.contains_spec(q)) by {
                if q == np {
                    assert(self.body@[self.body@.len() - 1] == q);
                    assert(self.body.contains_spec(q));
                    assert(self.tile_at(q) == Tile::Snake);
                } else {
                    assert(self.tile_at(q) == pre.tile_at(q));
                    assert(pre.tile_at(q) == Tile::Snake <==> pre.body.contains_spec(q));
                    if self.body.contains_spec(q) {
                        let i = choose|i: int|
                            0 <= i < self.body@.len() && self.body@[i] == q;
                        assert(i < pre.body@.len());
                        assert(pre.body@[i] == q);
                        assert(pre.body.contains_spec(q));
                    }
                    if pre.body.contains_spec(q) {
                        let i = choose|i: int|
                            0 <= i < pre.body@.len() && pre.body@[i] == q;
                        assert(self.body@[i] == q);
                        assert(self.body.contains_spec(q));
                    }
                }
            }
        }
    }

    /// Erases the tail: removes the front coordinate from the body, opens its
    /// tile, and emits a blank glyph for it. The body must have at least the
    /// head besides the tail, so the invariant is preserved.
    fn retract_tail(&mut self, effects: &mut Vec<Effect>)
        requires
            old(self).wf(),
            old(self).body@.len() >= 2,
        ensures
            final(self).wf(),
            final(self).body@ == old(self).body@.drop_first(),
            final(self).position == old(self).position,
            final(self).tile_at(old(self).body@[0]) == Tile::Open,
            forall|q: Position|
                old(self).p_in_bounds(q) && q != old(self).body@[0] ==> final(self).tile_at(q)
                    == old(self).tile_at(q),
            final(self).direction == old(self).direction,
            final(self).close_requested == old(self).close_requested,
            Game::same_config(*final(self), *old(self)),
            final(effects)@ == old(effects)@.push(
                (Effect::Draw {
                    x: old(self).body@[0].x as usize,
                    y: old(self).body@[0].y as usize,
                    glyph: ' ',
                }),
            ),
    {
        let tail = self.body.pop_tail();
        self.grid.set(tail, Tile::Open);
        effects.push(Effect::Draw { x: tail.x as usize, y: tail.y as usize, glyph: ' ' });
        proof {
            let pre = *old(self);
            assert forall|q: Position| self.p_in_bounds(q) implies ((self.tile_at(q)
                == Tile::Snake) <==> self.body.contains_spec(q)) by {
                if q == tail {
                    assert(self.tile_at(q) == Tile::Open);
                    if self.body.contains_spec(q) {
                        let i = choose|i: int|
                            0 <= i < self.body@.len() && self.body@[i] == q;
                        assert(pre.body@[i + 1] == q);
                        assert(pre.body@[0] == q);
                        assert(false);
                    }
                } else {
                    assert(self.tile_at(q) == pre.tile_at(q));
                    assert(pre.tile_at(q) == Tile::Snake <==> pre.body.contains_spec(q));
                    if self.body.contains_spec(q) {
                        let i = choose|i: int|
                            0 <= i < self.body@.len() && self.body@[i] == q;
                        assert(pre.body@[i + 1] == q);
                        assert(pre.body.contains_spec(q));
                    }
                    if pre.body.contains_spec(q) {
                        let i = choose|i: int|
                            0 <= i < pre.body@.len() && pre.body@[i] == q;
                        assert(i != 0);
                        assert(self.body@[i - 1] == q);
                        assert(self.body.contains_spec(q));
                    }
                }
            }
            assert(self.body@.last() == pre.body@.last());
        }
    }

    /// Food placement: collects every currently open coordinate, draws one of
    /// them uniformly at random, marks it `Food`, and emits its glyph.
    /// Returns the chosen coordinate; `None` exactly when no tile is open, in
    /// which case nothing changes.
    #[verifier::loop_isolation(false)]
    pub fn place_food(&mut self, effects: &mut Vec<Effect>) -> (r: Option<Position>)
        requires
            old(self).wf(),
        ensures
            final(self).wf(),
            final(self).direction == old(self).direction,
            final(self).close_requested == old(self).close_requested,
            final(self).position == old(self).position,
            final(self).body == old(self).body,
            Game::same_config(*final(self), *old(self)),
            (r is Some) <==> (exists|q: Position|
                old(self).p_in_bounds(q) && old(self).tile_at(q) == Tile::Open),
            match r {
                Some(p) => {
                    &&& old(self).p_in_bounds(p)
                    &&& old(self).tile_at(p) == Tile::Open
                    &&& final(self).tile_at(p) == Tile::Food
                    &&& forall|q: Position|
                        old(self).p_in_bounds(q) && q != p ==> final(self).tile_at(q) == old(self).tile_at(q)
                    &&& final(effects)@ == old(effects)@.push(
                        (Effect::Draw { x: p.x as usize, y: p.y as usize, glyph: '+' }),
                    )
                },
                None => {
                    &&& final(self).grid == old(self).grid
                    &&& final(effects)@ == old(effects)@
                },
            },
    {
        let mut open_cells: Vec<Position> = Vec::new();
        let mut x: isize = 0;
        while x < self.width
            invariant
                0 <= x <= self.width,
                forall|i: int|
                    0 <= i < open_cells@.len() ==> self.p_in_bounds(#[trigger] open_cells@[i])
                        && self.tile_at(open_cells@[i]) == Tile::Open,
                open_cells@.len() == 0 ==> (forall|q: Position|
                    self.p_in_bounds(q) && q.x < x ==> #[trigger] self.tile_at(q) != Tile::Open),
            decreases self.width - x,
        {
            let mut y: isize = 0;
            while y < self.height
                invariant
                    0 <= x < self.width,
                    0 <= y <= self.height,
                    forall|i: int|
                        0 <= i < open_cells@.len() ==> self.p_in_bounds(#[trigger] open_cells@[i])
                            && self.tile_at(open_cells@[i]) == Tile::Open,
                    open_cells@.len() == 0 ==> (forall|q: Position|
                        self.p_in_bounds(q) && q.x < x ==> #[trigger] self.tile_at(q)
                            != Tile::Open),
                    open_cells@.len() == 0 ==> (forall|q: Position|
                        self.p_in_bounds(q) && q.x == x && q.y < y ==> #[trigger] self.tile_at(q)
                            != Tile::Open),
                decreases self.height - y,
            {
                let p = Position { x, y };
                if self.grid.get(p) == Tile::Open {
                    open_cells.push(p);
                }
                y = y + 1;
            }
            x = x + 1;
        }
        if open_cells.len() == 0 {
            return None;
        }
        let idx = random_index(open_cells.len());
        let p = open_cells[idx];
        self.grid.set(p, Tile::Food);
        effects.push(Effect::Draw { x: p.x as usize, y: p.y as usize, glyph: '+' });
        proof {
            let pre = *old(self);
            assert forall|q: Position| self.p_in_bounds(q) implies ((self.tile_at(q)
                == Tile::Snake) <==> self.body.contains_spec(q)) by {
                if q == p {
                    assert(self.tile_at(q) == Tile::Food);
                    assert(pre.tile_at(q) == Tile::Open);
                    assert(!pre.body.contains_spec(q));
                } else {
                    assert(self.tile_at(q) == pre.tile_at(q));
                }
            }
        }
        Some(p)
    }

    /// Sets up the board before the first tick: puts the starting head on the
    /// grid and into the body, emits its glyph, and places the first food.
    /// Returns `false`, changing nothing, exactly when the starting head lies
    /// outside the field, as it does for a degenerate zero-sized viewport.
    pub fn init_board(&mut self, effects: &mut Vec<Effect>) -> (r: bool)
        requires
            old(self).wf(),
            old(self).body@.len() == 0,
        ensures
            final(self).wf(),
            final(self).direction == old(self).direction,
            final(self).close_requested == old(self).close_requested,
            Game::same_config(*final(self), *old(self)),
            r == old(self).p_in_bounds(old(self).position),
            !r ==> *final(self) == *old(self) && final(effects)@ == old(effects)@,
            r ==> {
                &&& final(self).body@ == seq![old(self).position]
                &&& final(self).started()
                &&& final(self).position == old(self).position
                &&& final(self).tile_at(old(self).position) == Tile::Snake
                &&& final(effects)@.len() >= old(effects)@.len() + 1
                &&& final(effects)@[old(effects)@.len() as int] == (Effect::Draw {
                    x: old(self).position.x as usize,
                    y: old(self).position.y as usize,
                    glyph: '@',
                })
            },
            // where any cell besides the head is open, the first food lands
            // on exactly one such cell, and every other tile keeps its value
            (r && (exists|f: Position|
                old(self).p_in_bounds(f) && f != old(self).position && old(self).tile_at(f)
                    == Tile::Open)) ==> (exists|f: Position|
                {
                    &&& old(self).p_in_bounds(f)
                    &&& f != old(self).position
                    &&& old(self).tile_at(f) == Tile::Open
                    &&& final(self).tile_at(f) == Tile::Food
                    &&& (forall|q: Position|
                        old(self).p_in_bounds(q) && q != f && q != old(self).position
                            ==> final(self).tile_at(q) == old(self).tile_at(q))
                    &&& final(effects)@.len() == old(effects)@.len() + 2
                    &&& spec_is_draw(final(effects)@.last(), f.x as int, f.y as int, '+')
                }),
            // where no cell besides the head is open, only the head tile
            // changes and the head glyph is the only effect
            (r && !(exists|f: Position|
                old(self).p_in_bounds(f) && f != old(self).position && old(self).tile_at(f)
                    == Tile::Open)) ==> {
                &&& (forall|q: Position|
                    old(self).p_in_bounds(q) && q != old(self).position ==> final(self).tile_at(
                        q,
                    ) == old(self).tile_at(q))
                &&& final(effects)@.len() == old(effects)@.len() + 1
            },
    {
        let start = self.position;
        if !self.grid.is_within_bounds(start) {
            return false;
        }
        proof {
            assert(old(self).body@.push(start) =~= seq![old(self).position]);
        }
        self.advance_head(start, '@', effects);
        let ghost mid = *self;
        let placed = self.place_food(effects);
        proof {
            let pre = *old(self);
            if exists|f: Position|
                pre.p_in_bounds(f) && f != pre.position && pre.tile_at(f) == Tile::Open {
                let f = choose|f: Position|
                    pre.p_in_bounds(f) && f != pre.position && pre.tile_at(f) == Tile::Open;
                assert(mid.tile_at(f) == Tile::Open);
                assert(placed is Some);
                let p = placed.unwrap();
                assert(mid.tile_at(p) == Tile::Open);
                assert(p != pre.position);
                assert(pre.tile_at(p) == Tile::Open);
                assert forall|q: Position|
                    pre.p_in_bounds(q) && q != p && q != pre.position implies self.tile_at(q)
                    == pre.tile_at(q) by {
                    assert(mid.p_in_bounds(q));
                    assert(mid.tile_at(q) == pre.tile_at(q));
                    assert(self.tile_at(q) == mid.tile_at(q));
                }
                assert({
                    &&& pre.p_in_bounds(p)
                    &&& p != pre.position
                    &&& pre.tile_at(p) == Tile::Open
                    &&& self.tile_at(p) == Tile::Food
                    &&& (forall|q: Position|
                        pre.p_in_bounds(q) && q != p && q != pre.position ==> self.tile_at(q)
                            == pre.tile_at(q))
                    &&& effects@.len() == old(effects)@.len() + 2
                    &&& spec_is_draw(effects@.last(), p.x as int, p.y as int, '+')
                });
            } else {
                assert forall|q: Position|
                    mid.p_in_bounds(q) implies mid.tile_at(q) != Tile::Open by {
                    if q == pre.position {
                        assert(mid.tile_at(q) == Tile::Snake);
                    } else {
                        assert(pre.p_in_bounds(q));
                        assert(mid.tile_at(q) == pre.tile_at(q));
                        assert(pre.tile_at(q) != Tile::Open);
                    }
                }
                assert(placed is None);
                assert forall|q: Position|
                    pre.p_in_bounds(q) && q != pre.position implies self.tile_at(q)
                    == pre.tile_at(q) by {
                    assert(mid.tile_at(q) == pre.tile_at(q));
                    assert(self.tile_at(q) == mid.tile_at(q));
                }
            }
        }
        true
    }

    /// One frame of the game. In order: a changed viewport ends the game; the
    /// pending messages are drained in arrival order; the head advances one
    /// cell in the resulting heading; leaving the field or biting the snake
    /// loses, with the score in the final message; landing on food grows the
    /// body by one and places new food; otherwise the tail is erased. Every
    /// terminal action is appended to `effects`.
    #[verifier::rlimit(100)]
    pub fn tick(
        &mut self,
        msgs: Vec<Msg>,
        viewport_width: isize,
        viewport_height: isize,
        effects: &mut Vec<Effect>,
    )
        requires
            old(self).wf(),
            old(self).started(),
            old(self).direction is Some,
            !old(self).close_requested,
        ensures
            final(self).wf(),
            Game::same_config(*final(self), *old(self)),
            forall|j: int|
                0 <= j < old(effects)@.len() ==> final(effects)@[j] == old(effects)@[j],
            // a tick that consumes no food leaves every food tile in place
            final(self).body@.len() <= old(self).body@.len() ==> (forall|q: Position|
                old(self).p_in_bounds(q) && old(self).tile_at(q) == Tile::Food ==> final(self).tile_at(q) == Tile::Food),
            // a mid-game viewport change is fatal: nothing moves
            (viewport_width != old(self).width || viewport_height != old(self).height) ==> {
                &&& final(self).close_requested
                &&& final(self).direction == old(self).direction
                &&& final(self).grid == old(self).grid
                &&& final(self).body == old(self).body
                &&& final(effects)@.len() == old(effects)@.len() + 1
                &&& spec_is_close_with(
                    final(effects)@.last(),
                    "Console was resized. Snake game has ended."@,
                )
            },
            (viewport_width == old(self).width && viewport_height == old(self).height) ==> {
                &&& final(self).direction == spec_tick_heading(*old(self), msgs@)
                &&& final(self).direction is Some
                &&& spec_closes_match(
                    final(effects)@,
                    old(effects)@.len() as int,
                    spec_close_views(msgs@),
                )
                // a close request among the messages stops the tick before moving
                &&& spec_tick_closed_by_msg(*old(self), msgs@) ==> {
                    &&& final(self).close_requested
                    &&& final(self).grid == old(self).grid
                    &&& final(self).body == old(self).body
                    &&& final(effects)@.len() == old(effects)@.len() + spec_close_views(
                        msgs@,
                    ).len()
                }
                // stepping outside the field or into the snake loses
                &&& (!spec_tick_closed_by_msg(*old(self), msgs@) && spec_tick_loses(
                    *old(self),
                    msgs@,
                )) ==> {
                    &&& final(self).close_requested
                    &&& final(self).grid == old(self).grid
                    &&& final(self).body == old(self).body
                    &&& final(effects)@.len() == old(effects)@.len() + 1
                    &&& spec_is_close_with(
                        final(effects)@.last(),
                        spec_game_over_message(old(self).body@.len() - 1),
                    )
                }
                // otherwise the head advances
                &&& (!spec_tick_closed_by_msg(*old(self), msgs@) && !spec_tick_loses(
                    *old(self),
                    msgs@,
                )) ==> {
                    &&& !final(self).close_requested
                    &&& final(self).position.x == spec_candidate_x(*old(self), msgs@)
                    &&& final(self).position.y == spec_candidate_y(*old(self), msgs@)
                    &&& final(self).body@.last() == final(self).position
                    &&& final(self).tile_at(final(self).position) == Tile::Snake
                    &&& spec_is_draw(
                        final(effects)@[old(effects)@.len() as int],
                        spec_candidate_x(*old(self), msgs@),
                        spec_candidate_y(*old(self), msgs@),
                        spec_tick_heading(*old(self), msgs@).unwrap().spec_glyph(),
                    )
                    // eating grows the body by exactly one and places new food
                    &&& spec_tick_eats(*old(self), msgs@) ==> {
                        &&& final(self).body@ == old(self).body@.push(final(self).position)
                        &&& final(self).body@.len() == old(self).body@.len() + 1
                        &&& ({
                            ||| (exists|f: Position|
                                {
                                    &&& old(self).p_in_bounds(f)
                                    &&& f != final(self).position
                                    &&& old(self).tile_at(f) == Tile::Open
                                    &&& final(self).tile_at(f) == Tile::Food
                                    &&& (forall|q: Position|
                                        old(self).p_in_bounds(q) && q != f && q != final(self).position ==> final(self).tile_at(q) == old(self).tile_at(
                                            q,
                                        ))
                                    &&& final(effects)@.len() == old(effects)@.len() + 2
                                    &&& spec_is_draw(
                                        final(effects)@.last(),
                                        f.x as int,
                                        f.y as int,
                                        '+',
                                    )
                                })
                            ||| ((forall|q: Position|
                                old(self).p_in_bounds(q) && q != final(self).position ==> final(self).tile_at(q) == old(self).tile_at(q) && final(self).tile_at(q)
                                    != Tile::Open) && final(effects)@.len() == old(effects)@.len()
                                + 1)
                        })
                    }
                    // a plain move keeps the length: the tail is erased
                    &&& !spec_tick_eats(*old(self), msgs@) ==> {
                        &&& final(self).body@ == old(self).body@.drop_first().push(
                            final(self).position,
                        )
                        &&& final(self).body@.len() == old(self).body@.len()
                        &&& final(self).tile_at(old(self).body@[0]) == Tile::Open
                        &&& (forall|q: Position|
                            old(self).p_in_bounds(q) && q != final(self).position && q != old(self).body@[0] ==> final(self).tile_at(q) == old(self).tile_at(q))
                        &&& final(effects)@.len() == old(effects)@.len() + 2
                        &&& spec_is_draw(
                            final(effects)@.last(),
                            old(self).body@[0].x as int,
                            old(self).body@[0].y as int,
                            ' ',
                        )
                    }
                }
            },
    {
        if viewport_width != self.width || viewport_height != self.height {
            let m = String::from_str("Console was resized. Snake game has ended.");
            self.do_close(m, effects);
            proof {
                lemma_wf_same(*old(self), *self);
            }
            return ;
        }
        let ghost pre = *old(self);
        self.drain(msgs, effects);
        proof {
            lemma_drain_keeps_direction(pre.direction, false, msgs@);
            lemma_unclosed_drain_is_silent(pre.direction, msgs@);
            lemma_wf_same(pre, *self);
        }
        if self.close_requested {
            return ;
        }
        let d = match self.direction {
            Some(d) => d,
            None => vstd::pervasive::unreached(),
        };
        let head = self.body.head();
        proof {
            assert(pre.p_in_bounds(pre.body@[pre.body@.len() - 1]));
        }
        let mut nx: isize = head.x;
        let mut ny: isize = head.y;
        match d {
            Direction::Up => {
                ny = ny - 1;
            },
            Direction::Down => {
                ny = ny + 1;
            },
            Direction::Left => {
                nx = nx - 1;
            },
            Direction::Right => {
                nx = nx + 1;
            },
        }
        let candidate = Position { x: nx, y: ny };
        let lost = if !self.grid.is_within_bounds(candidate) {
            true
        } else {
            self.grid.get(candidate) == Tile::Snake
        };
        if lost {
            let score = self.body.len() - 1;
            let m = game_over_message(score);
            self.do_close(m, effects);
            proof {
                lemma_wf_same(pre, *self);
            }
            return ;
        }
        let was_food = self.grid.get(candidate) == Tile::Food;
        self.advance_head(candidate, d.glyph(), effects);
        if was_food {
            let _ = self.place_food(effects);
        } else {
            self.retract_tail(effects);
            proof {
                assert(self.body@ =~= pre.body@.drop_first().push(candidate));
            }
        }
    }
}

/// The heading the tick adopts after draining `msgs`: the last accepted
/// request wins.
pub open spec fn spec_tick_heading(g: Game, msgs: Seq<Msg>) -> Option<Direction> {
    spec_drain(g.direction, false, msgs).0
}

/// Whether one of the drained messages requested a close.
pub open spec fn spec_tick_closed_by_msg(g: Game, msgs: Seq<Msg>) -> bool {
    spec_drain(g.direction, false, msgs).1
}

/// The candidate head column for this tick.
pub open spec fn spec_candidate_x(g: Game, msgs: Seq<Msg>) -> int {
    spec_next_x(g.body@.last(), spec_tick_heading(g, msgs).unwrap())
}

/// The candidate head row for this tick.
pub open spec fn spec_candidate_y(g: Game, msgs: Seq<Msg>) -> int {
    spec_next_y(g.body@.last(), spec_tick_heading(g, msgs).unwrap())
}

/// Whether the candidate head cell loses the game: outside the field, or
/// already part of the snake.
pub open spec fn spec_tick_loses(g: Game, msgs: Seq<Msg>) -> bool {
    ||| !g.grid.in_bounds_spec(spec_candidate_x(g, msgs), spec_candidate_y(g, msgs))
    ||| g.grid.tile(spec_candidate_x(g, msgs), spec_candidate_y(g, msgs)) == Tile::Snake
}

/// Whether the candidate head cell holds food.
pub open spec fn spec_tick_eats(g: Game, msgs: Seq<Msg>) -> bool {
    &&& g.grid.in_bounds_spec(spec_candidate_x(g, msgs), spec_candidate_y(g, msgs))
    &&& g.grid.tile(spec_candidate_x(g, msgs), spec_candidate_y(g, msgs)) == Tile::Food
}

/// Two states with the same grid, body and head have the same invariant.
proof fn lemma_wf_same(a: Game, b: Game)
    requires
        a.wf(),
        b.grid == a.grid,
        b.body == a.body,
        b.position == a.position,
        b.width == a.width,
        b.height == a.height,
    ensures
        b.wf(),
{
    assert forall|q: Position| b.p_in_bounds(q) implies ((b.tile_at(q) == Tile::Snake)
        <==> b.body.contains_spec(q)) by {
        assert(b.tile_at(q) == a.tile_at(q));
        assert(b.body.contains_spec(q) == a.body.contains_spec(q));
    }
    assert forall|i: int| 0 <= i < b.body@.len() implies b.p_in_bounds(
        #[trigger] b.body@[i],
    ) by {
        assert(a.p_in_bounds(a.body@[i]));
    }
}

/// Relies on `rand::thread_rng` and `rand::Rng::gen_range`: sampling the
/// range `0..bound` yields an index below `bound`. The call panics only on an
/// empty range, which the precondition rules out.
#[verifier::external_body]
fn random_index(bound: usize) -> (r: usize)
    requires
        bound > 0,
    ensures
        r < bound,
{
    rand::Rng::gen_range(&mut rand::thread_rng(), 0..bound)
}

} // verus!
