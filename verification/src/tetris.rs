use vstd::prelude::*;

use crate::bag::{bag_step, full_bag, upcoming, BagModel, PieceBag};
use crate::board::{
    board_wf, cleared_count, cleared_grid, empty_grid, empty_row, lemma_cleared_no_complete,
    lemma_legal_implies_in_bounds, no_complete_rows, occupies, place_piece, placement_in_bounds,
    placement_legal, rows_view, Board, HIDDEN_ROWS, MAP_HEIGHT, MAP_WIDTH, TRUE_MAP_HEIGHT,
};
use crate::tetromino::{
    piece_wf, rotated_model, spawn_grid, spawn_model, Tetromino, TetrominoModel, TetrominoTrait,
};
use crate::tetromino_type::TetrominoType;

verus! {

/// Gravity divisor: one gravity step for every this many ticks.
pub const TICKS_PER_DROP: u8 = 60;

/// Mathematical model of the whole game state.
pub ghost struct TetrisModel {
    pub score: u32,
    pub hold: TetrominoType,
    pub bag: Seq<TetrominoType>,
    pub lookahead: Seq<TetrominoType>,
    pub grid: Seq<Seq<TetrominoType>>,
    pub piece: TetrominoModel,
    pub tick: u8,
    pub blocked: bool,
    pub lost: bool,
    pub held_this_round: bool,
}

/// The generator part of the game state.
pub open spec fn bag_model(m: TetrisModel) -> BagModel {
    BagModel { bag: m.bag, lookahead: m.lookahead }
}

/// A well-formed game state: a full-size grid, a well-formed in-bounds
/// piece, a live tick counter, and a lawful bag pair.
pub open spec fn model_wf(m: TetrisModel) -> bool {
    &&& board_wf(m.grid)
    &&& piece_wf(m.piece)
    &&& placement_in_bounds(m.piece.grid, m.piece.row, m.piece.col)
    &&& (!m.lost ==> no_complete_rows(m.grid))
    &&& m.tick < TICKS_PER_DROP
    &&& 1 <= m.bag.len() <= 7
    &&& m.bag.to_multiset().subset_of(full_bag())
    &&& m.lookahead.to_multiset() == full_bag()
}

/// Points for one clear event: the fixed table keyed by lines cleared.
pub open spec fn line_points(n: int) -> int {
    if n <= 0 {
        0
    } else if n == 1 {
        40
    } else if n == 2 {
        100
    } else if n == 3 {
        300
    } else {
        1200
    }
}

/// The score after clearing `n` lines: the table value is multiplied by
/// one more than the score already held before being added, and the sum
/// saturates at the counter's maximum.
pub open spec fn score_after(s: u32, n: int) -> u32 {
    let total = s + (s + 1) * line_points(n);
    if total > u32::MAX {
        u32::MAX
    } else {
        total as u32
    }
}

/// A newly spawned piece of this shape cannot stand on `m`: some spawn
/// cell already holds a locked block.
pub open spec fn spawn_blocked(m: Seq<Seq<TetrominoType>>, shape: TetrominoType) -> bool {
    !placement_legal(m, spawn_grid(shape), 0, 3)
}

/// How one lock event changes the state. The piece's cells are written to
/// the grid and the next shape is drawn and spawned. If its spawn cells
/// overlap a locked block, the terminal lost flag is set and the board is
/// left exactly as locked; otherwise the complete lines are cleared, the
/// score grows by the table, and the hold mechanic is rearmed.
pub open spec fn lock_rel(pre: TetrisModel, post: TetrisModel) -> bool {
    let locked = place_piece(pre.grid, pre.piece.grid, pre.piece.row, pre.piece.col, pre.piece.shape);
    let s = pre.bag.last();
    &&& post.piece == spawn_model(s)
    &&& bag_step(bag_model(pre), bag_model(post))
    &&& post.hold == pre.hold
    &&& post.tick == pre.tick
    &&& post.blocked == pre.blocked
    &&& if spawn_blocked(locked, s) {
        &&& post.lost
        &&& post.grid == locked
        &&& post.score == pre.score
        &&& post.held_this_round == pre.held_this_round
    } else {
        &&& post.lost == pre.lost
        &&& post.grid == cleared_grid(locked)
        &&& post.score == score_after(pre.score, cleared_count(locked))
        &&& !post.held_this_round
    }
}

/// How one hold request changes the state. A second hold in the same
/// lock-cycle is a no-op. Otherwise the active shape goes to the hold
/// slot; the new active piece is drawn from the bag when the slot was
/// empty, else spawned from the previously held shape.
pub open spec fn hold_rel(pre: TetrisModel, post: TetrisModel) -> bool {
    if pre.held_this_round {
        post == pre
    } else {
        &&& post.hold == pre.piece.shape
        &&& post.held_this_round
        &&& post.score == pre.score
        &&& post.grid == pre.grid
        &&& post.tick == pre.tick
        &&& post.blocked == pre.blocked
        &&& post.lost == pre.lost
        &&& if pre.hold == TetrominoType::E {
            &&& post.piece == spawn_model(pre.bag.last())
            &&& bag_step(bag_model(pre), bag_model(post))
        } else {
            &&& post.piece == spawn_model(pre.hold)
            &&& post.bag == pre.bag
            &&& post.lookahead == pre.lookahead
        }
    }
}

/// The visible playfield with the active piece composited in.
pub open spec fn display_grid(m: TetrisModel) -> Seq<Seq<TetrominoType>> {
    Seq::new(
        MAP_HEIGHT as nat,
        |r: int| Seq::new(
            MAP_WIDTH as nat,
            |c: int| if occupies(
                m.piece.grid,
                r + HIDDEN_ROWS as int - m.piece.row,
                c - m.piece.col,
            ) {
                m.piece.shape
            } else {
                m.grid[r + HIDDEN_ROWS as int][c]
            },
        ),
    )
}

/// A spawned piece always stands inside the board.
pub proof fn lemma_spawn_in_bounds(shape: TetrominoType)
    requires
        shape != TetrominoType::E,
    ensures
        placement_in_bounds(spawn_grid(shape), 0, 3),
{
    let g = spawn_grid(shape);
    assert forall|y: int, x: int| #[trigger] occupies(g, y, x) implies {
        &&& 0 <= 0 + y < TRUE_MAP_HEIGHT as int
        &&& 0 <= 3 + x < MAP_WIDTH as int
    } by {
        assert(g.len() <= 4);
        assert(g[y].len() <= 4);
    }
}

/// The game engine: the sole owner and mutator of the board, the active
/// piece, the generator, the score, and the hold slot.
pub struct Tetris {
    score: u32,
    hold: TetrominoType,
    bag: PieceBag,
    board: Board,
    current: Tetromino,
    tick: u8,
    is_blocked: bool,
    is_lost: bool,
    has_hold_this_round: bool,
}

impl View for Tetris {
    type V = TetrisModel;

    closed spec fn view(&self) -> TetrisModel {
        TetrisModel {
            score: self.score,
            hold: self.hold,
            bag: self.bag@.bag,
            lookahead: self.bag@.lookahead,
            grid: self.board@,
            piece: self.current@,
            tick: self.tick,
            blocked: self.is_blocked,
            lost: self.is_lost,
            held_this_round: self.has_hold_this_round,
        }
    }
}

impl Tetris {
    pub open spec fn wf(&self) -> bool {
        model_wf(self@)
    }

    /// A fresh game: empty board, zero score, empty hold slot, a shuffled
    /// bag pair, and the first drawn piece at the spawn position.
    pub fn new() -> (t: Tetris)
        ensures
            t.wf(),
            t@.score == 0,
            t@.hold == TetrominoType::E,
            t@.grid == empty_grid(),
            t@.tick == 0,
            !t@.blocked,
            !t@.lost,
            !t@.held_this_round,
            t@.piece == spawn_model(t@.piece.shape),
            t@.bag.len() == 6,
            t@.bag.to_multiset().insert(t@.piece.shape) == full_bag(),
            t@.lookahead.to_multiset() == full_bag(),
    {
        let mut bag = PieceBag::new();
        let ghost bag0 = bag@.bag;
        let first = bag.next_shape();
        let current = Tetromino::new(first);
        proof {
            lemma_spawn_in_bounds(first);
            broadcast use vstd::seq_lib::group_to_multiset_ensures;

            assert(bag0 =~= bag@.bag.push(first));
            assert(bag@.bag.push(first).to_multiset() =~= bag@.bag.to_multiset().insert(first));
            assert forall|r: int| 0 <= r < empty_grid().len() implies !crate::board::row_complete(
                #[trigger] empty_grid()[r],
            ) by {
                assert(empty_grid()[r] == empty_row());
                assert(empty_row()[0] == TetrominoType::E);
            }
        }
        Tetris {
            score: 0,
            hold: TetrominoType::E,
            bag,
            board: Board::new(),
            current,
            tick: 0,
            is_blocked: false,
            is_lost: false,
            has_hold_this_round: false,
        }
    }

    /// One tick: advances the tick counter modulo the gravity divisor, and
    /// on every rollover performs a gravity step. A gravity step descends
    /// the piece when legal; otherwise the first failure grants one grace
    /// period and the second locks the piece.
    pub fn on_tick(&mut self)
        requires
            old(self).wf(),
        ensures
            final(self).wf(),
            final(self)@.tick == (old(self)@.tick + 1) % (TICKS_PER_DROP as int),
            ({
                let pre = old(self)@;
                let post = final(self)@;
                if (pre.tick + 1) % (TICKS_PER_DROP as int) != 0 {
                    post == (TetrisModel { tick: post.tick, ..pre })
                } else if placement_legal(pre.grid, pre.piece.grid, pre.piece.row + 1, pre.piece.col) {
                    post == (TetrisModel {
                        tick: post.tick,
                        blocked: false,
                        piece: (TetrominoModel { row: pre.piece.row + 1, ..pre.piece }),
                        ..pre
                    })
                } else if pre.blocked {
                    lock_rel((TetrisModel { tick: post.tick, blocked: false, ..pre }), post)
                } else {
                    post == (TetrisModel { tick: post.tick, blocked: true, ..pre })
                }
            }),
    {
        self.tick = (self.tick + 1) % TICKS_PER_DROP;
        if self.tick != 0 {
            return ;
        }
        if self.can_move([1, 0]) {
            self.move_piece([1, 0]);
            self.is_blocked = false;
            return ;
        }
        if self.is_blocked {
            self.lock_current();
            self.is_blocked = false;
            return ;
        }
        self.is_blocked = true;
    }

    /// Locks the active piece, draws and spawns the next shape, detects
    /// top-out, and otherwise clears lines, scores, and rearms hold.
    fn lock_current(&mut self)
        requires
            old(self).wf(),
        ensures
            final(self).wf(),
            lock_rel(old(self)@, final(self)@),
    {
        self.board.lock(&self.current);
        let s = self.bag.next_shape();
        self.current = Tetromino::new(s);
        proof {
            lemma_spawn_in_bounds(s);
        }
        if !self.board.is_legal(&self.current, [0, 0]) {
            self.is_lost = true;
        } else {
            let n = self.board.clear_completed_lines();
            self.score = Self::add_score(self.score, n);
            self.has_hold_this_round = false;
            proof {
                lemma_cleared_no_complete(
                    place_piece(
                        old(self)@.grid,
                        old(self)@.piece.grid,
                        old(self)@.piece.row,
                        old(self)@.piece.col,
                        old(self)@.piece.shape,
                    ),
                );
            }
        }
    }

    /// The saturating score update for one clear event: the table value,
    /// multiplied by one more than the score held, is added to the score.
    pub fn add_score(score: u32, n: usize) -> (r: u32)
        ensures
            r == score_after(score, n as int),
    {
        let pts: u64 = if n == 0 {
            0
        } else if n == 1 {
            40
        } else if n == 2 {
            100
        } else if n == 3 {
            300
        } else {
            1200
        };
        proof {
            assert((score as u64 + 1) * pts <= 4294967296u64 * 1200) by (nonlinear_arith)
                requires
                    pts <= 1200,
                    score as u64 + 1 <= 4294967296u64,
            ;
        }
        let total: u64 = score as u64 + (score as u64 + 1) * pts;
        if total > (u32::MAX as u64) {
            u32::MAX
        } else {
            total as u32
        }
    }

    /// The current score.
    pub fn get_score(&self) -> (r: u32)
        ensures
            r == self@.score,
    {
        self.score
    }

    /// Rotation request from input, under the rotation contract of the
    /// active piece.
    pub fn rotate_counter_clockwise(&mut self)
        requires
            old(self).wf(),
        ensures
            final(self).wf(),
            final(self)@ == (TetrisModel {
                piece: rotated_model(old(self)@.piece, old(self)@.grid, false),
                ..old(self)@
            }),
    {
        self.current.rotate_counter_clockwise(&self.board);
        proof {
            self.lemma_rotation_keeps_bounds(old(self)@);
        }
    }

    /// Rotation request from input, under the rotation contract of the
    /// active piece.
    pub fn rotate_clockwise(&mut self)
        requires
            old(self).wf(),
        ensures
            final(self).wf(),
            final(self)@ == (TetrisModel {
                piece: rotated_model(old(self)@.piece, old(self)@.grid, true),
                ..old(self)@
            }),
    {
        self.current.rotate_clockwise(&self.board);
        proof {
            self.lemma_rotation_keeps_bounds(old(self)@);
        }
    }

    /// After a rotation the piece still stands inside the board: a
    /// committed turn was checked legal, a rejected one left it in place.
    proof fn lemma_rotation_keeps_bounds(&self, pre: TetrisModel)
        requires
            model_wf(pre),
            self@.piece.grid == pre.piece.grid || placement_legal(
                pre.grid,
                self@.piece.grid,
                pre.piece.row,
                pre.piece.col,
            ),
            self@.piece.row == pre.piece.row,
            self@.piece.col == pre.piece.col,
        ensures
            placement_in_bounds(self@.piece.grid, self@.piece.row, self@.piece.col),
    {
        if self@.piece.grid != pre.piece.grid {
            lemma_legal_implies_in_bounds(
                pre.grid,
                self@.piece.grid,
                pre.piece.row,
                pre.piece.col,
            );
        }
    }

    /// Whether the active piece, moved by `vector`, would sit legally.
    fn can_move(&self, vector: [i8; 2]) -> (r: bool)
        requires
            self.wf(),
        ensures
            r == placement_legal(
                self@.grid,
                self@.piece.grid,
                self@.piece.row + vector@[0],
                self@.piece.col + vector@[1],
            ),
    {
        self.board.is_legal(&self.current, vector)
    }

    /// Legality-checked single-step translation request from input: a
    /// no-op when any target cell would leave the board or land on a
    /// locked cell. Does not affect tick state.
    pub fn move_piece(&mut self, vector: [i8; 2])
        requires
            old(self).wf(),
        ensures
            final(self).wf(),
            final(self)@ == (TetrisModel {
                piece: if placement_legal(
                    old(self)@.grid,
                    old(self)@.piece.grid,
                    old(self)@.piece.row + vector@[0],
                    old(self)@.piece.col + vector@[1],
                ) {
                    (TetrominoModel {
                        row: old(self)@.piece.row + vector@[0],
                        col: old(self)@.piece.col + vector@[1],
                        ..old(self)@.piece
                    })
                } else {
                    old(self)@.piece
                },
                ..old(self)@
            }),
    {
        if self.can_move(vector) {
            proof {
                let pre = self@;
                let (y0, x0) = choose|y: int, x: int| occupies(pre.piece.grid, y, x);
                assert(0 <= pre.piece.row + vector@[0] + y0 < TRUE_MAP_HEIGHT as int);
                assert(0 <= pre.piece.col + vector@[1] + x0 < MAP_WIDTH as int);
            }
            self.current.translate(vector);
            proof {
                lemma_legal_implies_in_bounds(
                    old(self)@.grid,
                    self@.piece.grid,
                    self@.piece.row,
                    self@.piece.col,
                );
            }
        }
    }

    /// The terminal lost flag, for the host loop to stop the run.
    pub fn is_lost(&self) -> (r: bool)
        ensures
            r == self@.lost,
    {
        self.is_lost
    }

    /// Bank the active piece, once per lock-cycle: swaps with the held
    /// shape, or draws from the bag when the slot was empty.
    pub fn hold(&mut self)
        requires
            old(self).wf(),
        ensures
            final(self).wf(),
            hold_rel(old(self)@, final(self)@),
    {
        if self.has_hold_this_round {
            return ;
        }
        let swap = self.current.shape();
        if self.hold == TetrominoType::E {
            let s = self.bag.next_shape();
            self.current = Tetromino::new(s);
            proof {
                lemma_spawn_in_bounds(s);
            }
        } else {
            let held = self.hold;
            self.current = Tetromino::new(held);
            proof {
                lemma_spawn_in_bounds(held);
            }
        }
        self.hold = swap;
        self.has_hold_this_round = true;
    }

    /// The held shape; the empty marker means the slot is unused.
    pub fn get_hold(&self) -> (r: TetrominoType)
        ensures
            r == self@.hold,
    {
        self.hold
    }

    /// The active piece, for rendering.
    pub fn current_piece(&self) -> (p: &Tetromino)
        ensures
            p@ == self@.piece,
    {
        &self.current
    }

    /// The board of locked cells, for rendering.
    pub fn board(&self) -> (b: &Board)
        ensures
            b@ == self@.grid,
    {
        &self.board
    }

    /// The upcoming-shapes preview, fixed depth of five, without
    /// consuming.
    pub fn nexts(&self) -> (v: Vec<TetrominoType>)
        requires
            self.wf(),
        ensures
            v@.len() == 5,
            forall|i: int| 0 <= i < 5 ==> #[trigger] v@[i] == upcoming(bag_model(self@), i),
    {
        self.bag.preview(5)
    }

    /// How many rows the active piece could descend before resting: the
    /// ghost piece, for display only.
    pub fn shadow(&self) -> (d: i8)
        requires
            self.wf(),
        ensures
            0 <= d < TRUE_MAP_HEIGHT,
            forall|k: int|
                1 <= k <= d ==> #[trigger] placement_legal(
                    self@.grid,
                    self@.piece.grid,
                    self@.piece.row + k,
                    self@.piece.col,
                ),
            !placement_legal(self@.grid, self@.piece.grid, self@.piece.row + d + 1, self@.piece.col),
    {
        self.board.shadow(&self.current)
    }

    /// The visible playfield, top row first, with the active piece
    /// composited in.
    pub fn get_map(&self) -> (v: Vec<Vec<TetrominoType>>)
        requires
            self.wf(),
        ensures
            rows_view(v@) == display_grid(self@),
    {
        let p = self.current.pos();
        let shape = self.current.shape();
        let cells = self.current.pieces();
        let mut v: Vec<Vec<TetrominoType>> = Vec::new();
        for r in 0..MAP_HEIGHT
            invariant
                self.wf(),
                p.0 as int == self@.piece.row,
                p.1 as int == self@.piece.col,
                shape == self@.piece.shape,
                rows_view(cells@) == self@.piece.grid,
                v@.len() == r,
                forall|i: int| 0 <= i < r ==> (#[trigger] v@[i])@ == display_grid(self@)[i],
        {
            let mut row: Vec<TetrominoType> = Vec::new();
            for c in 0..MAP_WIDTH
                invariant
                    self.wf(),
                    r < MAP_HEIGHT,
                    p.0 as int == self@.piece.row,
                    p.1 as int == self@.piece.col,
                    shape == self@.piece.shape,
                    rows_view(cells@) == self@.piece.grid,
                    row@.len() == c,
                    forall|j: int| 0 <= j < c ==> #[trigger] row@[j] == display_grid(self@)[r as int][j],
            {
                let ar = r + HIDDEN_ROWS;
                let base = self.board.cell(ar, c);
                let ly = ar as i32 - p.0 as i32;
                let lx = c as i32 - p.1 as i32;
                let mut cell = base;
                if 0 <= ly && (ly as usize) < cells.len() {
                    proof {
                        assert(self@.piece.grid[ly as int] == cells@[ly as int]@);
                    }
                    if 0 <= lx && (lx as usize) < cells[ly as usize].len() {
                        if cells[ly as usize][lx as usize] != TetrominoType::E {
                            proof {
                                assert(occupies(self@.piece.grid, ly as int, lx as int));
                            }
                            cell = shape;
                        }
                    }
                }
                proof {
                    assert(display_grid(self@)[r as int][c as int] == cell);
                }
                row.push(cell);
            }
            proof {
                assert(row@ =~= display_grid(self@)[r as int]);
            }
            v.push(row);
        }
        proof {
            assert(rows_view(v@) =~~= display_grid(self@));
        }
        v
    }
}

} // verus!
