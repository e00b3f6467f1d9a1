//! The game core: the 8x8 grid model, the two snakes, food placement and the
//! collision/win state machine that governs each simulation tick.

use vstd::prelude::*;
use vstd::set_lib::lemma_len_union;
use vstd::set_lib::lemma_len_subset;

verus! {

/// Width and height of the square playing field, in cells.
pub const GRID_SIZE: i32 = 8;

/// A coordinate pair on the playing field; valid cells satisfy
/// `0 <= x < GRID_SIZE` and `0 <= y < GRID_SIZE`.
#[derive(Clone, Copy, Debug, PartialEq, Eq, Structural)]
pub struct GridPosition {
    pub x: i32,
    pub y: i32,
}

/// A travel direction; it persists on a snake until replaced by a new intent.
#[derive(Clone, Copy, Debug, PartialEq, Eq, Structural)]
pub enum Dir {
    Up,
    Down,
    Left,
    Right,
}

/// The rendering tag a snake carries; the first snake is green, the second blue.
#[derive(Clone, Copy, Debug, PartialEq, Eq, Structural)]
pub enum SnakeColor {
    Green,
    Blue,
}

/// The state machine gating the board: `Running` until a collision ends the
/// game, then a terminal state that only `reset` leaves.
#[derive(Clone, Copy, Debug, PartialEq, Eq, Structural)]
pub enum BoardState {
    Running,
    Won { is_player2: bool },
    BothLost,
}

/// True when `p` lies on the playing field.
pub open spec fn spec_in_bounds(p: GridPosition) -> bool {
    0 <= p.x < GRID_SIZE && 0 <= p.y < GRID_SIZE
}

/// The cell one step from `p` in direction `d`, with toroidal wraparound:
/// leaving one edge re-enters from the opposite edge.
pub open spec fn spec_step(p: GridPosition, d: Dir) -> GridPosition {
    match d {
        Dir::Up => GridPosition { x: p.x, y: if p.y == 0 { (GRID_SIZE - 1) as i32 } else { (p.y - 1) as i32 } },
        Dir::Down => GridPosition { x: p.x, y: if p.y == GRID_SIZE - 1 { 0 } else { (p.y + 1) as i32 } },
        Dir::Left => GridPosition { x: if p.x == 0 { (GRID_SIZE - 1) as i32 } else { (p.x - 1) as i32 }, y: p.y },
        Dir::Right => GridPosition { x: if p.x == GRID_SIZE - 1 { 0 } else { (p.x + 1) as i32 }, y: p.y },
    }
}

impl GridPosition {
    /// True when this position lies on the playing field.
    pub fn in_bounds(&self) -> (r: bool)
        ensures
            r == spec_in_bounds(*self),
    {
        self.x >= 0 && self.y >= 0 && self.x < GRID_SIZE && self.y < GRID_SIZE
    }
}

/// Wraparound keeps every move on the playing field.
pub proof fn lemma_step_stays_in_bounds(p: GridPosition, d: Dir)
    requires
        spec_in_bounds(p),
    ensures
        spec_in_bounds(spec_step(p, d)),
{
}

/// An ordered body of cells plus a persisted travel direction. `body[0]` is
/// the head; the cell most recently dropped from the tail is cached so that a
/// growth step can re-append it.
pub struct Snake {
    body: Vec<GridPosition>,
    color: SnakeColor,
    dir: Dir,
    last_end: GridPosition,
}

impl Snake {
    /// The ordered body, head first.
    pub closed spec fn body_view(self) -> Seq<GridPosition> {
        self.body@
    }

    /// The current travel direction.
    pub closed spec fn dir_view(self) -> Dir {
        self.dir
    }

    /// The rendering tag.
    pub closed spec fn color_view(self) -> SnakeColor {
        self.color
    }

    /// The cached segment most recently dropped from the tail.
    pub closed spec fn last_end_view(self) -> GridPosition {
        self.last_end
    }

    /// The head cell.
    pub open spec fn spec_head(self) -> GridPosition {
        self.body_view()[0]
    }

    /// A snake always has at least its head, and every segment is on the field.
    pub open spec fn wf(self) -> bool {
        &&& self.body_view().len() >= 1
        &&& forall|i: int| 0 <= i < self.body_view().len() ==> spec_in_bounds(#[trigger] self.body_view()[i])
    }

    /// An out-of-bounds spawn position is a defect in fixed constants, so it
    /// is excluded up front rather than handled at run time.
    fn new(pos: GridPosition, color: SnakeColor) -> (r: Snake)
        requires
            spec_in_bounds(pos),
        ensures
            r.wf(),
            r.body_view() == seq![pos],
            r.dir_view() == Dir::Right,
            r.color_view() == color,
            r.last_end_view() == pos,
    {
        let mut body: Vec<GridPosition> = Vec::new();
        body.push(pos);
        proof {
            assert(body@ =~= seq![pos]);
        }
        Snake { body, color, dir: Dir::Right, last_end: pos }
    }

    /// The head cell.
    fn pos(&self) -> (r: GridPosition)
        requires
            self.wf(),
        ensures
            r == self.spec_head(),
    {
        self.body[0]
    }

    /// Advance by exactly one cell: an intent, if present, replaces the stored
    /// direction unconditionally (reversal is accepted input, not guarded);
    /// then the head moves one cell with wraparound, and the last segment is
    /// dropped from the tail and cached.
    fn go(&mut self, dir: Option<Dir>)
        requires
            old(self).wf(),
        ensures
            final(self).wf(),
            final(self).dir_view() == spec_new_dir(old(self).dir_view(), dir),
            final(self).body_view() =~= spec_moved_body(old(self).body_view(), final(self).dir_view()),
            final(self).body_view().len() == old(self).body_view().len(),
            final(self).last_end_view() == old(self).body_view().last(),
            final(self).color_view() == old(self).color_view(),
    {
        if let Some(d) = dir {
            self.dir = d;
        }

        let head = self.body[0];
        let new_head = step(head, self.dir);

        self.body.insert(0, new_head);
        let dropped = self.body.pop();
        match dropped {
            Some(p) => {
                self.last_end = p;
            },
            None => {
                proof {
                    assert(false);
                }
            },
        }
        proof {
            assert(self.body@ =~= spec_moved_body(old(self).body@, self.dir));
        }
    }
}

/// One wraparound step in executable form.
fn step(p: GridPosition, d: Dir) -> (r: GridPosition)
    requires
        spec_in_bounds(p),
    ensures
        r == spec_step(p, d),
        spec_in_bounds(r),
{
    match d {
        Dir::Up => GridPosition { x: p.x, y: if p.y == 0 { GRID_SIZE - 1 } else { p.y - 1 } },
        Dir::Down => GridPosition { x: p.x, y: if p.y == GRID_SIZE - 1 { 0 } else { p.y + 1 } },
        Dir::Left => GridPosition { x: if p.x == 0 { GRID_SIZE - 1 } else { p.x - 1 }, y: p.y },
        Dir::Right => GridPosition { x: if p.x == GRID_SIZE - 1 { 0 } else { p.x + 1 }, y: p.y },
    }
}

/// The direction a snake travels this tick: the intent if one was given,
/// otherwise the stored direction.
pub open spec fn spec_new_dir(cur: Dir, intent: Option<Dir>) -> Dir {
    match intent {
        Some(d) => d,
        None => cur,
    }
}

/// A body after one move in direction `d`: the new head in front, the last
/// segment dropped.
pub open spec fn spec_moved_body(body: Seq<GridPosition>, d: Dir) -> Seq<GridPosition> {
    seq![spec_step(body[0], d)] + body.drop_last()
}

/// True when some tail segment (everything behind the head) coincides with
/// the head.
pub open spec fn spec_hits_self(b: Seq<GridPosition>) -> bool {
    exists|j: int| 1 <= j < b.len() && #[trigger] b[j] == b[0]
}

/// The collision verdict for the two post-move bodies, in the fixed priority
/// order: head-to-head first, then the first snake's losing conditions, then
/// the second's. A tick in which both snakes lose independently therefore
/// resolves as a win for the second player.
pub open spec fn spec_resolve(b1: Seq<GridPosition>, b2: Seq<GridPosition>) -> BoardState {
    if b1[0] == b2[0] {
        BoardState::BothLost
    } else if b2.contains(b1[0]) || spec_hits_self(b1) {
        BoardState::Won { is_player2: true }
    } else if b1.contains(b2[0]) || spec_hits_self(b2) {
        BoardState::Won { is_player2: false }
    } else {
        BoardState::Running
    }
}

/// True when the vector holds the position.
fn vec_contains(v: &Vec<GridPosition>, p: GridPosition) -> (r: bool)
    ensures
        r == v@.contains(p),
{
    let mut i: usize = 0;
    while i < v.len()
        invariant
            0 <= i <= v@.len(),
            forall|j: int| 0 <= j < i ==> v@[j] != p,
        decreases v@.len() - i,
    {
        if v[i] == p {
            return true;
        }
        i = i + 1;
    }
    false
}

#[verifier::external_type_specification]
#[verifier::external_body]
pub struct ExStdRng(rand::rngs::StdRng);

/// Relies on `rand::Rng::gen_range` over `0..n`: it panics only on an empty
/// range and otherwise returns a uniformly distributed value below `n`.
#[verifier::external_body]
fn rand_index(rng: &mut rand::rngs::StdRng, n: usize) -> (r: usize)
    requires
        n > 0,
    ensures
        r < n,
{
    rand::Rng::gen_range(rng, 0..n)
}

/// Relies on `rand::SeedableRng::seed_from_u64`: the generator is a function
/// of the seed alone, which makes food placement reproducible in tests.
#[verifier::external_body]
fn rng_from_seed(seed: u64) -> rand::rngs::StdRng {
    <rand::rngs::StdRng as rand::SeedableRng>::seed_from_u64(seed)
}

/// Relies on `rand::SeedableRng::from_entropy`: a generator seeded from the
/// operating system (it aborts only if that entropy source fails).
#[verifier::external_body]
fn fresh_rng() -> rand::rngs::StdRng {
    <rand::rngs::StdRng as rand::SeedableRng>::from_entropy()
}

/// True when the position occurs at index `from` or later.
fn contains_from(v: &Vec<GridPosition>, p: GridPosition, from: usize) -> (r: bool)
    ensures
        r == exists|j: int| from <= j < v@.len() && #[trigger] v@[j] == p,
{
    let mut i: usize = from;
    if i > v.len() {
        return false;
    }
    while i < v.len()
        invariant
            from <= i <= v@.len(),
            forall|j: int| from <= j < i ==> v@[j] != p,
        decreases v@.len() - i,
    {
        if v[i] == p {
            return true;
        }
        i = i + 1;
    }
    false
}

/// A cell's rank in row-major scanning order; distinct on the playing field.
pub open spec fn cell_index(p: GridPosition) -> int {
    p.x * GRID_SIZE + p.y
}

/// Every free cell of the field, scanned in row-major order. The count
/// argument: the two bodies cover at most 63 of the 64 cells, so at least one
/// cell is left over.
#[verifier::loop_isolation(false)]
fn free_cells(b1: &Vec<GridPosition>, b2: &Vec<GridPosition>) -> (v: Vec<GridPosition>)
    requires
        b1@.len() + b2@.len() <= 63,
    ensures
        v@.len() >= 1,
        forall|i: int| 0 <= i < v@.len() ==> spec_in_bounds(#[trigger] v@[i]) && !b1@.contains(v@[i])
            && !b2@.contains(v@[i]),
        forall|p: GridPosition| spec_in_bounds(p) && !b1@.contains(p) && !b2@.contains(p)
            ==> #[trigger] v@.contains(p),
{
    let ghost occ: Set<GridPosition> = b1@.to_set().union(b2@.to_set());
    let ghost mut seen: Set<GridPosition> = Set::empty();
    let mut v: Vec<GridPosition> = Vec::new();
    let mut x: i32 = 0;
    while x < GRID_SIZE
        invariant
            0 <= x <= GRID_SIZE,
            seen.finite(),
            seen.subset_of(occ),
            v@.len() + seen.len() == x * GRID_SIZE,
            forall|q: GridPosition| #[trigger] seen.contains(q) ==> spec_in_bounds(q) && cell_index(q) < x * GRID_SIZE,
            forall|i: int| 0 <= i < v@.len() ==> spec_in_bounds(#[trigger] v@[i]) && !b1@.contains(v@[i])
                && !b2@.contains(v@[i]),
            forall|p: GridPosition| spec_in_bounds(p) && cell_index(p) < x * GRID_SIZE
                && !b1@.contains(p) && !b2@.contains(p) ==> #[trigger] v@.contains(p),
        decreases GRID_SIZE - x,
    {
        let mut y: i32 = 0;
        while y < GRID_SIZE
            invariant
                0 <= x < GRID_SIZE,
                0 <= y <= GRID_SIZE,
                seen.finite(),
                seen.subset_of(occ),
                v@.len() + seen.len() == x * GRID_SIZE + y,
                forall|q: GridPosition| #[trigger] seen.contains(q) ==> spec_in_bounds(q) && cell_index(q) < x * GRID_SIZE + y,
                forall|i: int| 0 <= i < v@.len() ==> spec_in_bounds(#[trigger] v@[i]) && !b1@.contains(v@[i])
                    && !b2@.contains(v@[i]),
                forall|p: GridPosition| spec_in_bounds(p) && cell_index(p) < x * GRID_SIZE + y
                    && !b1@.contains(p) && !b2@.contains(p) ==> #[trigger] v@.contains(p),
            decreases GRID_SIZE - y,
        {
            let p = GridPosition { x, y };
            let in1 = vec_contains(b1, p);
            let in2 = vec_contains(b2, p);
            if in1 || in2 {
                proof {
                    assert(cell_index(p) == x * GRID_SIZE + y);
                    assert(!seen.contains(p));
                    if in1 {
                        assert(b1@.to_set().contains(p));
                    } else {
                        assert(b2@.to_set().contains(p));
                    }
                    assert(occ.contains(p));
                    seen = seen.insert(p);
                    assert forall|p2: GridPosition| spec_in_bounds(p2) && cell_index(p2) < x
                        * GRID_SIZE + y + 1 && !b1@.contains(p2) && !b2@.contains(p2) implies #[trigger] v@.contains(
                        p2,
                    ) by {
                        if cell_index(p2) == x * GRID_SIZE + y {
                            assert(p2 == p);
                        }
                    }
                }
            } else {
                let ghost v_prev = v@;
                v.push(p);
                proof {
                    assert forall|p2: GridPosition| spec_in_bounds(p2) && cell_index(p2) < x
                        * GRID_SIZE + y + 1 && !b1@.contains(p2) && !b2@.contains(p2) implies #[trigger] v@.contains(
                        p2,
                    ) by {
                        if cell_index(p2) == x * GRID_SIZE + y {
                            assert(p2 == p);
                            assert(v@[v@.len() - 1] == p);
                        } else {
                            assert(v_prev.contains(p2));
                            let i = choose|i: int| 0 <= i < v_prev.len() && v_prev[i] == p2;
                            assert(v@[i] == p2);
                        }
                    }
                }
            }
            y = y + 1;
        }
        x = x + 1;
    }
    proof {
        b1@.lemma_cardinality_of_set();
        b2@.lemma_cardinality_of_set();
        broadcast use vstd::seq_lib::seq_to_set_is_finite;

        lemma_len_union(b1@.to_set(), b2@.to_set());
        lemma_len_subset(seen, occ);
    }
    v
}

/// Owns the two snakes, the food and the state machine; the board is the sole
/// mutator of all of them, and resolves the rules of each tick in a fixed
/// order.
pub struct Board {
    snake1: Snake,
    snake2: Snake,
    food: GridPosition,
    state: BoardState,
    rng: rand::rngs::StdRng,
}

impl Board {
    /// The first snake.
    pub closed spec fn snake1_view(self) -> Snake {
        self.snake1
    }

    /// The second snake.
    pub closed spec fn snake2_view(self) -> Snake {
        self.snake2
    }

    /// The food cell.
    pub closed spec fn food_view(self) -> GridPosition {
        self.food
    }

    /// The state machine's current state.
    pub closed spec fn state_view(self) -> BoardState {
        self.state
    }

    /// The first snake's body, head first.
    pub open spec fn body1(self) -> Seq<GridPosition> {
        self.snake1_view().body_view()
    }

    /// The second snake's body, head first.
    pub open spec fn body2(self) -> Seq<GridPosition> {
        self.snake2_view().body_view()
    }

    /// True when `p` lies on either snake's body.
    pub open spec fn occupied(self, p: GridPosition) -> bool {
        self.body1().contains(p) || self.body2().contains(p)
    }

    /// Both snakes are well formed, the food is on the field, and while the
    /// game runs the food never coincides with a body segment.
    pub open spec fn wf(self) -> bool {
        &&& self.snake1_view().wf()
        &&& self.snake2_view().wf()
        &&& spec_in_bounds(self.food_view())
        &&& self.state_view() == BoardState::Running ==> !self.occupied(self.food_view())
    }

    /// True when the first snake eats this tick: its head lands on the food.
    pub open spec fn spec_grows1(self, i1: Option<Dir>) -> bool {
        spec_step(self.body1()[0], spec_new_dir(self.snake1_view().dir_view(), i1)) == self.food_view()
    }

    /// True when the second snake eats this tick. The food check is
    /// sequential: if the first snake ate, the food has already been
    /// relocated off both bodies, so the second snake cannot eat the same
    /// tick even if both heads landed on the original food cell.
    pub open spec fn spec_grows2(self, i1: Option<Dir>, i2: Option<Dir>) -> bool {
        &&& !self.spec_grows1(i1)
        &&& spec_step(self.body2()[0], spec_new_dir(self.snake2_view().dir_view(), i2)) == self.food_view()
    }

    /// The first snake's body after this tick's move and (possible) growth.
    pub open spec fn spec_body1_after(self, i1: Option<Dir>) -> Seq<GridPosition> {
        let m = spec_moved_body(self.body1(), spec_new_dir(self.snake1_view().dir_view(), i1));
        if self.spec_grows1(i1) {
            m.push(self.body1().last())
        } else {
            m
        }
    }

    /// The second snake's body after this tick's move and (possible) growth.
    pub open spec fn spec_body2_after(self, i1: Option<Dir>, i2: Option<Dir>) -> Seq<GridPosition> {
        let m = spec_moved_body(self.body2(), spec_new_dir(self.snake2_view().dir_view(), i2));
        if self.spec_grows2(i1, i2) {
            m.push(self.body2().last())
        } else {
            m
        }
    }

    /// Everything one running tick determines. Only the relocated food cell
    /// is left open (it is drawn at random), and even for it the clauses pin
    /// what matters: it is on the field and off both bodies.
    pub open spec fn spec_tick(pre: Board, post: Board, i1: Option<Dir>, i2: Option<Dir>) -> bool {
        &&& post.body1() == pre.spec_body1_after(i1)
        &&& post.body2() == pre.spec_body2_after(i1, i2)
        &&& post.snake1_view().dir_view() == spec_new_dir(pre.snake1_view().dir_view(), i1)
        &&& post.snake2_view().dir_view() == spec_new_dir(pre.snake2_view().dir_view(), i2)
        &&& post.snake1_view().last_end_view() == pre.body1().last()
        &&& post.snake2_view().last_end_view() == pre.body2().last()
        &&& post.snake1_view().color_view() == pre.snake1_view().color_view()
        &&& post.snake2_view().color_view() == pre.snake2_view().color_view()
        &&& post.state_view() == spec_resolve(post.body1(), post.body2())
        &&& if pre.spec_grows1(i1) || pre.spec_grows2(i1, i2) {
            &&& spec_in_bounds(post.food_view())
            &&& !post.body1().contains(post.food_view())
            &&& !post.body2().contains(post.food_view())
        } else {
            post.food_view() == pre.food_view()
        }
    }

    /// One simulation tick. A terminal state makes the call a complete no-op;
    /// otherwise both snakes move, the food rules run (first snake checked
    /// before the second), and the collision rules resolve in their fixed
    /// priority order. The length bound keeps a free cell available for the
    /// food; given how slowly bodies grow on an 8x8 field it is never reached
    /// in practice.
    pub fn update(&mut self, snake1_dir: Option<Dir>, snake2_dir: Option<Dir>)
        requires
            old(self).wf(),
            old(self).state_view() == BoardState::Running ==> old(self).body1().len()
                + old(self).body2().len() <= 62,
        ensures
            final(self).wf(),
            old(self).state_view() != BoardState::Running ==> *final(self) == *old(self),
            old(self).state_view() == BoardState::Running ==> Board::spec_tick(
                *old(self),
                *final(self),
                snake1_dir,
                snake2_dir,
            ),
    {
        if self.state != BoardState::Running {
            return;
        }
        let ghost pre = *self;

        self.snake1.go(snake1_dir);
        self.snake2.go(snake2_dir);

        proof {
            assert(pre.body1().contains(pre.body1().last()));
            assert(pre.body2().contains(pre.body2().last()));
        }

        let head1 = self.snake1.pos();
        if head1 == self.food {
            let seg = self.snake1.last_end;
            self.snake1.body.push(seg);
            self.move_food();
        }
        proof {
            assert(self.body1() =~= pre.spec_body1_after(snake1_dir));
        }

        let head2 = self.snake2.pos();
        if head2 == self.food {
            proof {
                assert(self.body2().contains(self.body2()[0]));
                assert(!pre.spec_grows1(snake1_dir));
            }
            let seg = self.snake2.last_end;
            self.snake2.body.push(seg);
            self.move_food();
        }
        proof {
            assert(self.body2() =~= pre.spec_body2_after(snake1_dir, snake2_dir));
            if !(pre.spec_grows1(snake1_dir) || pre.spec_grows2(snake1_dir, snake2_dir)) {
                assert(self.food_view() == pre.food_view());
                assert forall|q: GridPosition| self.body1().contains(q) implies q
                    != self.food_view() by {
                    let i = choose|i: int| 0 <= i < self.body1().len() && self.body1()[i] == q;
                    if i > 0 {
                        assert(pre.body1().contains(pre.body1()[i - 1]));
                    }
                }
                assert forall|q: GridPosition| self.body2().contains(q) implies q
                    != self.food_view() by {
                    let i = choose|i: int| 0 <= i < self.body2().len() && self.body2()[i] == q;
                    if i > 0 {
                        assert(pre.body2().contains(pre.body2()[i - 1]));
                    }
                }
            }
            assert(!self.occupied(self.food_view()));
        }

        let head1 = self.snake1.pos();
        let head2 = self.snake2.pos();

        if head1 == head2 {
            self.state = BoardState::BothLost;
            return;
        }

        if vec_contains(&self.snake2.body, head1) || contains_from(&self.snake1.body, head1, 1) {
            self.state = BoardState::Won { is_player2: true };
            return;
        }

        if vec_contains(&self.snake1.body, head2) || contains_from(&self.snake2.body, head2, 1) {
            self.state = BoardState::Won { is_player2: false };
            return;
        }
    }

    /// Relocate the food to a random free cell. Undefined only when no free
    /// cell exists, which the precondition rules out.
    fn move_food(&mut self)
        requires
            old(self).body1().len() + old(self).body2().len() <= 63,
        ensures
            spec_in_bounds(final(self).food_view()),
            !final(self).occupied(final(self).food_view()),
            final(self).snake1_view() == old(self).snake1_view(),
            final(self).snake2_view() == old(self).snake2_view(),
            final(self).state_view() == old(self).state_view(),
    {
        let cells = free_cells(&self.snake1.body, &self.snake2.body);
        let i = rand_index(&mut self.rng, cells.len());
        self.food = cells[i];
    }

    /// A fresh board: snake 1 at the origin, snake 2 at the far corner, both
    /// facing right, the game running, and the food at a random free cell.
    pub fn new() -> (r: Board)
        ensures
            r.wf(),
            Board::spec_initial(r),
    {
        Board::with_rng(fresh_rng())
    }

    /// A fresh board whose food placement is reproducible from `seed`.
    pub fn new_seeded(seed: u64) -> (r: Board)
        ensures
            r.wf(),
            Board::spec_initial(r),
    {
        Board::with_rng(rng_from_seed(seed))
    }

    /// The starting configuration every fresh or reset board satisfies.
    pub open spec fn spec_initial(r: Board) -> bool {
        &&& r.body1() == seq![GridPosition { x: 0, y: 0 }]
        &&& r.body2() == seq![GridPosition { x: 7, y: 7 }]
        &&& r.snake1_view().dir_view() == Dir::Right
        &&& r.snake2_view().dir_view() == Dir::Right
        &&& r.snake1_view().color_view() == SnakeColor::Green
        &&& r.snake2_view().color_view() == SnakeColor::Blue
        &&& r.state_view() == BoardState::Running
    }

    fn with_rng(rng: rand::rngs::StdRng) -> (r: Board)
        ensures
            r.wf(),
            Board::spec_initial(r),
    {
        let s1 = Snake::new(GridPosition { x: 0, y: 0 }, SnakeColor::Green);
        let s2 = Snake::new(GridPosition { x: 7, y: 7 }, SnakeColor::Blue);
        let mut board = Board {
            snake1: s1,
            snake2: s2,
            food: GridPosition { x: 0, y: 0 },
            state: BoardState::Running,
            rng,
        };
        board.move_food();
        board
    }

    /// A board in a chosen running configuration, for driving specific
    /// scenarios. The food must already be off both bodies.
    pub fn from_parts(
        body1: Vec<GridPosition>,
        dir1: Dir,
        body2: Vec<GridPosition>,
        dir2: Dir,
        food: GridPosition,
        seed: u64,
    ) -> (r: Board)
        requires
            body1@.len() >= 1,
            body2@.len() >= 1,
            forall|i: int| 0 <= i < body1@.len() ==> spec_in_bounds(#[trigger] body1@[i]),
            forall|i: int| 0 <= i < body2@.len() ==> spec_in_bounds(#[trigger] body2@[i]),
            spec_in_bounds(food),
            !body1@.contains(food),
            !body2@.contains(food),
        ensures
            r.wf(),
            r.body1() == body1@,
            r.body2() == body2@,
            r.snake1_view().dir_view() == dir1,
            r.snake2_view().dir_view() == dir2,
            r.snake1_view().color_view() == SnakeColor::Green,
            r.snake2_view().color_view() == SnakeColor::Blue,
            r.food_view() == food,
            r.state_view() == BoardState::Running,
    {
        let e1 = body1[body1.len() - 1];
        let e2 = body2[body2.len() - 1];
        Board {
            snake1: Snake { body: body1, color: SnakeColor::Green, dir: dir1, last_end: e1 },
            snake2: Snake { body: body2, color: SnakeColor::Blue, dir: dir2, last_end: e2 },
            food,
            state: BoardState::Running,
            rng: rng_from_seed(seed),
        }
    }

    /// Discard all state and start over, exactly as fresh construction does.
    pub fn reset(&mut self)
        ensures
            final(self).wf(),
            Board::spec_initial(*final(self)),
    {
        *self = Board::new();
    }

    /// The current state, by value.
    pub fn get_state(&self) -> (r: BoardState)
        ensures
            r == self.state_view(),
    {
        self.state
    }

    /// The two scores: the snakes' body lengths at call time.
    pub fn get_scores(&self) -> (r: (usize, usize))
        ensures
            r.0 == self.body1().len(),
            r.1 == self.body2().len(),
    {
        (self.snake1.body.len(), self.snake2.body.len())
    }

    /// The current food cell.
    pub fn get_food(&self) -> (r: GridPosition)
        ensures
            r == self.food_view(),
    {
        self.food
    }

    /// A copy of the first snake's body, head first.
    pub fn snake1_body(&self) -> (r: Vec<GridPosition>)
        ensures
            r@ == self.body1(),
    {
        self.snake1.body.clone()
    }

    /// A copy of the second snake's body, head first.
    pub fn snake2_body(&self) -> (r: Vec<GridPosition>)
        ensures
            r@ == self.body2(),
    {
        self.snake2.body.clone()
    }

    /// The size of one cell on the rendered board, in characters.
    pub fn cell_size(&self) -> (r: (i32, i32))
        ensures
            r == spec_cell_size(),
    {
        (6, 3)
    }

    /// The thickness of the rendered border between cells.
    pub fn border_size(&self) -> (r: (i32, i32))
        ensures
            r == spec_border_size(),
    {
        (2, 1)
    }

    /// The overall rendered size: eight cells, seven borders and the outer
    /// frame on each axis.
    pub fn render_size(&self) -> (r: (i32, i32))
        ensures
            r.0 == 8 * spec_cell_size().0 + 7 * spec_border_size().0 + 2,
            r.1 == 8 * spec_cell_size().1 + 7 * spec_border_size().1 + 2,
    {
        (
            8 * self.cell_size().0 + 7 * self.border_size().0 + 2,
            8 * self.cell_size().1 + 7 * self.border_size().1 + 2,
        )
    }

    /// Where a cell's rendered block starts, relative to the board's inner
    /// frame: one cell plus one border per preceding cell on each axis.
    pub fn cell_origin(&self, p: GridPosition) -> (r: (i32, i32))
        requires
            spec_in_bounds(p),
        ensures
            r.0 == (spec_cell_size().0 + spec_border_size().0) * p.x,
            r.1 == (spec_cell_size().1 + spec_border_size().1) * p.y,
    {
        let cs = self.cell_size();
        let bs = self.border_size();
        proof {
            assert(cs.0 + bs.0 == 8 && cs.1 + bs.1 == 4);
        }
        ((cs.0 + bs.0) * p.x, (cs.1 + bs.1) * p.y)
    }

    /// The interval between ticks, in milliseconds.
    pub fn get_update_intervar() -> (r: u64)
        ensures
            r == 300,
    {
        300
    }

    /// What a cell shows this frame; a rendering sink paints from this alone.
    pub fn cell_fill(&self, p: GridPosition) -> (r: CellFill)
        requires
            spec_in_bounds(p),
        ensures
            r == spec_cell_fill(*self, p),
    {
        match self.state {
            BoardState::Running => {
                if p == self.food {
                    CellFill::Food
                } else if vec_contains(&self.snake2.body, p) {
                    CellFill::Snake(self.snake2.color)
                } else if vec_contains(&self.snake1.body, p) {
                    CellFill::Snake(self.snake1.color)
                } else {
                    CellFill::Empty
                }
            },
            BoardState::Won { is_player2 } => {
                CellFill::Snake(if is_player2 { self.snake2.color } else { self.snake1.color })
            },
            BoardState::BothLost => {
                if 1 <= p.x && p.x <= GRID_SIZE - 2 && (p.y == p.x || p.y == GRID_SIZE - 1 - p.x) {
                    CellFill::LostMark
                } else {
                    CellFill::LostFill
                }
            },
        }
    }
}

/// The cell size of the rendered board, in characters.
pub open spec fn spec_cell_size() -> (i32, i32) {
    (6, 3)
}

/// The border thickness of the rendered board.
pub open spec fn spec_border_size() -> (i32, i32) {
    (2, 1)
}

/// What one cell of the board shows: nothing, a snake's color, the food, or
/// the two fills of the game-over pattern (its backdrop and its cross marks).
#[derive(Clone, Copy, Debug, PartialEq, Eq, Structural)]
pub enum CellFill {
    Empty,
    Snake(SnakeColor),
    Food,
    LostFill,
    LostMark,
}

/// What each cell shows. While running: the food, else the second snake's
/// body, else the first's (later drawing wins on overlap), else nothing.
/// After a win: the winner's color everywhere. After a draw: the backdrop
/// with cross marks on both diagonals, corners excluded.
pub open spec fn spec_cell_fill(b: Board, p: GridPosition) -> CellFill {
    match b.state_view() {
        BoardState::Running => if p == b.food_view() {
            CellFill::Food
        } else if b.body2().contains(p) {
            CellFill::Snake(b.snake2_view().color_view())
        } else if b.body1().contains(p) {
            CellFill::Snake(b.snake1_view().color_view())
        } else {
            CellFill::Empty
        },
        BoardState::Won { is_player2 } => CellFill::Snake(
            if is_player2 {
                b.snake2_view().color_view()
            } else {
                b.snake1_view().color_view()
            },
        ),
        BoardState::BothLost => if 1 <= p.x <= GRID_SIZE - 2 && (p.y == p.x || p.y == GRID_SIZE
            - 1 - p.x) {
            CellFill::LostMark
        } else {
            CellFill::LostFill
        },
    }
}

/// While the game runs, a tick leaves each snake's length unchanged or grows
/// it by exactly one, and it grows exactly when the snake ate the food.
pub proof fn lemma_tick_lengths(pre: Board, post: Board, i1: Option<Dir>, i2: Option<Dir>)
    requires
        pre.wf(),
        pre.state_view() == BoardState::Running,
        Board::spec_tick(pre, post, i1, i2),
    ensures
        post.body1().len() == if pre.spec_grows1(i1) {
            pre.body1().len() + 1
        } else {
            pre.body1().len()
        },
        post.body2().len() == if pre.spec_grows2(i1, i2) {
            pre.body2().len() + 1
        } else {
            pre.body2().len()
        },
{
}

/// While the game runs, the food never lies on either snake's body.
pub proof fn lemma_food_free(b: Board)
    requires
        b.wf(),
        b.state_view() == BoardState::Running,
    ensures
        !b.body1().contains(b.food_view()),
        !b.body2().contains(b.food_view()),
{
}

/// Wraparound at every edge: leaving the field on one side re-enters on the
/// opposite side, with the other coordinate unchanged.
pub proof fn lemma_wraparound(p: GridPosition)
    requires
        spec_in_bounds(p),
    ensures
        p.x == GRID_SIZE - 1 ==> spec_step(p, Dir::Right) == (GridPosition { x: 0, y: p.y }),
        p.x == 0 ==> spec_step(p, Dir::Left) == (GridPosition { x: (GRID_SIZE - 1) as i32, y: p.y }),
        p.y == 0 ==> spec_step(p, Dir::Up) == (GridPosition { x: p.x, y: (GRID_SIZE - 1) as i32 }),
        p.y == GRID_SIZE - 1 ==> spec_step(p, Dir::Down) == (GridPosition { x: p.x, y: 0 }),
{
}

/// When both heads land on the food cell in the same tick, the sequential
/// check lets only the first snake grow: by the time the second snake is
/// checked the food has already been relocated off both bodies.
pub proof fn lemma_food_tiebreak(pre: Board, post: Board, i1: Option<Dir>, i2: Option<Dir>)
    requires
        pre.wf(),
        pre.state_view() == BoardState::Running,
        Board::spec_tick(pre, post, i1, i2),
        spec_step(pre.body1()[0], spec_new_dir(pre.snake1_view().dir_view(), i1)) == pre.food_view(),
        spec_step(pre.body2()[0], spec_new_dir(pre.snake2_view().dir_view(), i2)) == pre.food_view(),
    ensures
        post.body1().len() == pre.body1().len() + 1,
        post.body2().len() == pre.body2().len(),
{
}

/// Two coinciding heads resolve as a draw for both players, whatever other
/// collision condition also holds that tick.
pub proof fn lemma_head_to_head(b1: Seq<GridPosition>, b2: Seq<GridPosition>)
    requires
        b1[0] == b2[0],
    ensures
        spec_resolve(b1, b2) == BoardState::BothLost,
{
}

/// When each snake's head lands inside the other's body (heads distinct),
/// the first snake is judged to have lost first: the verdict is a win for
/// the second player, never the symmetric outcome and never a draw.
pub proof fn lemma_mutual_collision_priority(b1: Seq<GridPosition>, b2: Seq<GridPosition>)
    requires
        b1[0] != b2[0],
        b2.contains(b1[0]),
        b1.contains(b2[0]),
    ensures
        spec_resolve(b1, b2) == (BoardState::Won { is_player2: true }),
{
}

} // verus!
