use vstd::prelude::*;

use crate::board::{occupies, placement_legal, rows_view, Board};
use crate::tetromino_type::TetrominoType;

verus! {

/// Mathematical model of an active piece: its shape tag, the informational
/// facing counter, the board-relative anchor (signed row and column, signed
/// because the local bounding box may extend past the anchor), and the local
/// occupancy grid.
pub ghost struct TetrominoModel {
    pub shape: TetrominoType,
    pub rotation: u8,
    pub row: int,
    pub col: int,
    pub grid: Seq<Seq<TetrominoType>>,
}

/// Rows of the local occupancy grid for each shape.
pub open spec fn grid_rows(shape: TetrominoType) -> int {
    if shape == TetrominoType::I {
        4
    } else if shape == TetrominoType::O {
        2
    } else {
        3
    }
}

/// Columns of the local occupancy grid for each shape.
pub open spec fn grid_cols(shape: TetrominoType) -> int {
    if shape == TetrominoType::I {
        4
    } else {
        3
    }
}

/// The spawn-orientation occupancy grid of each shape.
pub open spec fn spawn_grid(shape: TetrominoType) -> Seq<Seq<TetrominoType>> {
    match shape {
        TetrominoType::E => seq![],
        TetrominoType::I => seq![
            seq![TetrominoType::E, TetrominoType::E, TetrominoType::E, TetrominoType::E],
            seq![TetrominoType::I, TetrominoType::I, TetrominoType::I, TetrominoType::I],
            seq![TetrominoType::E, TetrominoType::E, TetrominoType::E, TetrominoType::E],
            seq![TetrominoType::E, TetrominoType::E, TetrominoType::E, TetrominoType::E],
        ],
        TetrominoType::L => seq![
            seq![TetrominoType::E, TetrominoType::E, TetrominoType::L],
            seq![TetrominoType::L, TetrominoType::L, TetrominoType::L],
            seq![TetrominoType::E, TetrominoType::E, TetrominoType::E],
        ],
        TetrominoType::J => seq![
            seq![TetrominoType::J, TetrominoType::E, TetrominoType::E],
            seq![TetrominoType::J, TetrominoType::J, TetrominoType::J],
            seq![TetrominoType::E, TetrominoType::E, TetrominoType::E],
        ],
        TetrominoType::O => seq![
            seq![TetrominoType::E, TetrominoType::O, TetrominoType::O],
            seq![TetrominoType::E, TetrominoType::O, TetrominoType::O],
        ],
        TetrominoType::Z => seq![
            seq![TetrominoType::Z, TetrominoType::Z, TetrominoType::E],
            seq![TetrominoType::E, TetrominoType::Z, TetrominoType::Z],
            seq![TetrominoType::E, TetrominoType::E, TetrominoType::E],
        ],
        TetrominoType::S => seq![
            seq![TetrominoType::E, TetrominoType::S, TetrominoType::S],
            seq![TetrominoType::S, TetrominoType::S, TetrominoType::E],
            seq![TetrominoType::E, TetrominoType::E, TetrominoType::E],
        ],
        TetrominoType::T => seq![
            seq![TetrominoType::E, TetrominoType::T, TetrominoType::E],
            seq![TetrominoType::T, TetrominoType::T, TetrominoType::T],
            seq![TetrominoType::E, TetrominoType::E, TetrominoType::E],
        ],
    }
}

/// The model of a freshly spawned piece: spawn occupancy, facing 0,
/// anchored at the spawn position.
pub open spec fn spawn_model(shape: TetrominoType) -> TetrominoModel {
    TetrominoModel { shape, rotation: 0, row: 0, col: 3, grid: spawn_grid(shape) }
}

/// A well-formed piece: a real shape, the facing counter below four, the
/// local grid of the shape's dimensions, every cell either empty or the
/// piece's own tag, and at least one cell occupied.
pub open spec fn piece_wf(p: TetrominoModel) -> bool {
    &&& p.shape != TetrominoType::E
    &&& p.rotation < 4
    &&& p.grid.len() == grid_rows(p.shape)
    &&& forall|y: int| 0 <= y < p.grid.len() ==> (#[trigger] p.grid[y]).len() == grid_cols(p.shape)
    &&& forall|y: int, x: int| 0 <= y < p.grid.len() && 0 <= x < p.grid[y].len() ==> {
        (#[trigger] p.grid[y][x]) == TetrominoType::E || p.grid[y][x] == p.shape
    }
    &&& exists|y: int, x: int| occupies(p.grid, y, x)
}

/// A square grid turned a quarter clockwise: row `r`, column `c` of the
/// result is row `n - 1 - c`, column `r` of the input.
pub open spec fn rotated_cw(g: Seq<Seq<TetrominoType>>, n: int) -> Seq<Seq<TetrominoType>> {
    Seq::new(n as nat, |r: int| Seq::new(n as nat, |c: int| g[n - 1 - c][r]))
}

/// A square grid turned a quarter counter-clockwise: row `r`, column `c` of
/// the result is row `c`, column `n - 1 - r` of the input.
pub open spec fn rotated_ccw(g: Seq<Seq<TetrominoType>>, n: int) -> Seq<Seq<TetrominoType>> {
    Seq::new(n as nat, |r: int| Seq::new(n as nat, |c: int| g[c][n - 1 - r]))
}

/// The occupancy grid a rotation aims for: the square shapes turn inside
/// their own bounding box, the O piece never changes occupancy.
pub open spec fn rotate_spec(
    shape: TetrominoType,
    g: Seq<Seq<TetrominoType>>,
    cw: bool,
) -> Seq<Seq<TetrominoType>> {
    if shape == TetrominoType::O {
        g
    } else if cw {
        rotated_cw(g, grid_rows(shape))
    } else {
        rotated_ccw(g, grid_rows(shape))
    }
}

/// The piece after a rotation request against `board`: the turned occupancy
/// when all of its occupied cells are legal, the old occupancy otherwise;
/// the facing counter always advances.
pub open spec fn rotated_model(
    pre: TetrominoModel,
    board: Seq<Seq<TetrominoType>>,
    cw: bool,
) -> TetrominoModel {
    let turned = rotate_spec(pre.shape, pre.grid, cw);
    TetrominoModel {
        shape: pre.shape,
        rotation: (if cw {
            (pre.rotation + 1) % 4
        } else {
            (pre.rotation + 3) % 4
        }) as u8,
        row: pre.row,
        col: pre.col,
        grid: if placement_legal(board, turned, pre.row, pre.col) {
            turned
        } else {
            pre.grid
        },
    }
}

/// Occupied cells of `row` from column `x` on.
pub open spec fn row_occupied_from(row: Seq<TetrominoType>, x: int) -> nat
    decreases row.len() - x,
{
    if 0 <= x < row.len() {
        (if row[x] != TetrominoType::E {
            1nat
        } else {
            0nat
        }) + row_occupied_from(row, x + 1)
    } else {
        0
    }
}

/// Occupied cells of `g` from row `y` on.
pub open spec fn occupied_from(g: Seq<Seq<TetrominoType>>, y: int) -> nat
    decreases g.len() - y,
{
    if 0 <= y < g.len() {
        row_occupied_from(g[y], 0) + occupied_from(g, y + 1)
    } else {
        0
    }
}

/// Number of occupied cells of a local occupancy grid.
pub open spec fn occupied_count(g: Seq<Seq<TetrominoType>>) -> nat {
    occupied_from(g, 0)
}

proof fn lemma_row3_count(a: TetrominoType, b: TetrominoType, c: TetrominoType)
    ensures
        row_occupied_from(seq![a, b, c], 0) == (if a != TetrominoType::E {
            1int
        } else {
            0int
        }) + (if b != TetrominoType::E {
            1int
        } else {
            0int
        }) + (if c != TetrominoType::E {
            1int
        } else {
            0int
        }),
{
    reveal_with_fuel(row_occupied_from, 5);
}

proof fn lemma_row4_count(a: TetrominoType, b: TetrominoType, c: TetrominoType, d: TetrominoType)
    ensures
        row_occupied_from(seq![a, b, c, d], 0) == (if a != TetrominoType::E {
            1int
        } else {
            0int
        }) + (if b != TetrominoType::E {
            1int
        } else {
            0int
        }) + (if c != TetrominoType::E {
            1int
        } else {
            0int
        }) + (if d != TetrominoType::E {
            1int
        } else {
            0int
        }),
{
    reveal_with_fuel(row_occupied_from, 6);
}

/// Every freshly spawned piece occupies exactly four cells, whatever its
/// shape: the canonical tetromino size.
pub proof fn lemma_spawn_occupies_four(shape: TetrominoType)
    requires
        shape != TetrominoType::E,
    ensures
        occupied_count(spawn_grid(shape)) == 4,
{
    let g = spawn_grid(shape);
    reveal_with_fuel(occupied_from, 6);
    match shape {
        TetrominoType::E => {
        },
        TetrominoType::I => {
            lemma_row4_count(TetrominoType::E, TetrominoType::E, TetrominoType::E, TetrominoType::E);
            lemma_row4_count(TetrominoType::I, TetrominoType::I, TetrominoType::I, TetrominoType::I);
        },
        TetrominoType::L => {
            lemma_row3_count(TetrominoType::E, TetrominoType::E, TetrominoType::L);
            lemma_row3_count(TetrominoType::L, TetrominoType::L, TetrominoType::L);
            lemma_row3_count(TetrominoType::E, TetrominoType::E, TetrominoType::E);
        },
        TetrominoType::J => {
            lemma_row3_count(TetrominoType::J, TetrominoType::E, TetrominoType::E);
            lemma_row3_count(TetrominoType::J, TetrominoType::J, TetrominoType::J);
            lemma_row3_count(TetrominoType::E, TetrominoType::E, TetrominoType::E);
        },
        TetrominoType::O => {
            lemma_row3_count(TetrominoType::E, TetrominoType::O, TetrominoType::O);
        },
        TetrominoType::Z => {
            lemma_row3_count(TetrominoType::Z, TetrominoType::Z, TetrominoType::E);
            lemma_row3_count(TetrominoType::E, TetrominoType::Z, TetrominoType::Z);
            lemma_row3_count(TetrominoType::E, TetrominoType::E, TetrominoType::E);
        },
        TetrominoType::S => {
            lemma_row3_count(TetrominoType::E, TetrominoType::S, TetrominoType::S);
            lemma_row3_count(TetrominoType::S, TetrominoType::S, TetrominoType::E);
            lemma_row3_count(TetrominoType::E, TetrominoType::E, TetrominoType::E);
        },
        TetrominoType::T => {
            lemma_row3_count(TetrominoType::E, TetrominoType::T, TetrominoType::E);
            lemma_row3_count(TetrominoType::T, TetrominoType::T, TetrominoType::T);
            lemma_row3_count(TetrominoType::E, TetrominoType::E, TetrominoType::E);
        },
    }
}

/// Rotation is a four-cycle group action on the occupancy grid: four
/// clockwise quarter turns restore it, and one counter-clockwise turn
/// undoes one clockwise turn; the O piece is invariant under every
/// rotation.
pub proof fn lemma_rotation_four_cycle(shape: TetrominoType, g: Seq<Seq<TetrominoType>>)
    requires
        shape != TetrominoType::E,
        g.len() == grid_rows(shape),
        forall|y: int| 0 <= y < g.len() ==> (#[trigger] g[y]).len() == grid_cols(shape),
    ensures
        rotate_spec(
            shape,
            rotate_spec(shape, rotate_spec(shape, rotate_spec(shape, g, true), true), true),
            true,
        ) == g,
        rotate_spec(shape, rotate_spec(shape, g, true), false) == g,
        shape == TetrominoType::O ==> rotate_spec(shape, g, true) == g && rotate_spec(
            shape,
            g,
            false,
        ) == g,
{
    if shape != TetrominoType::O {
        let n = grid_rows(shape);
        let g1 = rotate_spec(shape, g, true);
        let g2 = rotate_spec(shape, g1, true);
        let g3 = rotate_spec(shape, g2, true);
        let g4 = rotate_spec(shape, g3, true);
        assert(g4 =~~= g);
        assert(rotate_spec(shape, g1, false) =~~= g);
    }
}

/// The currently falling piece.
pub struct Tetromino {
    shape: TetrominoType,
    rotation: u8,
    pos: (i8, i8),
    pieces: Vec<Vec<TetrominoType>>,
}

impl View for Tetromino {
    type V = TetrominoModel;

    closed spec fn view(&self) -> TetrominoModel {
        TetrominoModel {
            shape: self.shape,
            rotation: self.rotation,
            row: self.pos.0 as int,
            col: self.pos.1 as int,
            grid: rows_view(self.pieces@),
        }
    }
}

/// Rotation of the active piece against a board: a quarter turn in place,
/// committed only when every post-rotation cell is in bounds and empty.
pub trait TetrominoTrait {
    spec fn model(&self) -> TetrominoModel;

    spec fn well_formed(&self) -> bool;

    /// Quarter turn clockwise, or a no-op on the occupancy when the turned
    /// cells are not all legal on `board`; the facing counter always advances.
    fn rotate_clockwise(&mut self, board: &Board)
        requires
            old(self).well_formed(),
            board.wf(),
        ensures
            final(self).well_formed(),
            final(self).model() == rotated_model(old(self).model(), board@, true),
    ;

    /// Quarter turn counter-clockwise, under the same contract as the
    /// clockwise turn.
    fn rotate_counter_clockwise(&mut self, board: &Board)
        requires
            old(self).well_formed(),
            board.wf(),
        ensures
            final(self).well_formed(),
            final(self).model() == rotated_model(old(self).model(), board@, false),
    ;
}

impl TetrominoTrait for Tetromino {
    open spec fn model(&self) -> TetrominoModel {
        self@
    }

    open spec fn well_formed(&self) -> bool {
        self.wf()
    }

    fn rotate_clockwise(&mut self, board: &Board) {
        self.turn(board, true);
    }

    fn rotate_counter_clockwise(&mut self, board: &Board) {
        self.turn(board, false);
    }
}

impl Tetromino {
    pub open spec fn wf(&self) -> bool {
        piece_wf(self@)
    }

    /// A fresh piece of the given shape in spawn orientation at the spawn
    /// position.
    pub fn new(shape: TetrominoType) -> (t: Tetromino)
        requires
            shape != TetrominoType::E,
        ensures
            t@ == spawn_model(shape),
            t.wf(),
    {
        let mut pieces: Vec<Vec<TetrominoType>> = Vec::new();
        match shape {
            TetrominoType::E => {
                proof {
                    assert(false);
                }
            },
            TetrominoType::I => {
                pieces.push(Self::row4(TetrominoType::E, TetrominoType::E, TetrominoType::E, TetrominoType::E));
                pieces.push(Self::row4(TetrominoType::I, TetrominoType::I, TetrominoType::I, TetrominoType::I));
                pieces.push(Self::row4(TetrominoType::E, TetrominoType::E, TetrominoType::E, TetrominoType::E));
                pieces.push(Self::row4(TetrominoType::E, TetrominoType::E, TetrominoType::E, TetrominoType::E));
            },
            TetrominoType::L => {
                pieces.push(Self::row3(TetrominoType::E, TetrominoType::E, TetrominoType::L));
                pieces.push(Self::row3(TetrominoType::L, TetrominoType::L, TetrominoType::L));
                pieces.push(Self::row3(TetrominoType::E, TetrominoType::E, TetrominoType::E));
            },
            TetrominoType::J => {
                pieces.push(Self::row3(TetrominoType::J, TetrominoType::E, TetrominoType::E));
                pieces.push(Self::row3(TetrominoType::J, TetrominoType::J, TetrominoType::J));
                pieces.push(Self::row3(TetrominoType::E, TetrominoType::E, TetrominoType::E));
            },
            TetrominoType::O => {
                pieces.push(Self::row3(TetrominoType::E, TetrominoType::O, TetrominoType::O));
                pieces.push(Self::row3(TetrominoType::E, TetrominoType::O, TetrominoType::O));
            },
            TetrominoType::Z => {
                pieces.push(Self::row3(TetrominoType::Z, TetrominoType::Z, TetrominoType::E));
                pieces.push(Self::row3(TetrominoType::E, TetrominoType::Z, TetrominoType::Z));
                pieces.push(Self::row3(TetrominoType::E, TetrominoType::E, TetrominoType::E));
            },
            TetrominoType::S => {
                pieces.push(Self::row3(TetrominoType::E, TetrominoType::S, TetrominoType::S));
                pieces.push(Self::row3(TetrominoType::S, TetrominoType::S, TetrominoType::E));
                pieces.push(Self::row3(TetrominoType::E, TetrominoType::E, TetrominoType::E));
            },
            TetrominoType::T => {
                pieces.push(Self::row3(TetrominoType::E, TetrominoType::T, TetrominoType::E));
                pieces.push(Self::row3(TetrominoType::T, TetrominoType::T, TetrominoType::T));
                pieces.push(Self::row3(TetrominoType::E, TetrominoType::E, TetrominoType::E));
            },
        }
        let t = Tetromino { shape, rotation: 0, pos: (0, 3), pieces };
        proof {
            assert(t@.grid =~~= spawn_grid(shape));
            assert(occupies(t@.grid, 1, 1));
        }
        t
    }

    fn row3(a: TetrominoType, b: TetrominoType, c: TetrominoType) -> (r: Vec<TetrominoType>)
        ensures
            r@ =~= seq![a, b, c],
    {
        let mut r: Vec<TetrominoType> = Vec::new();
        r.push(a);
        r.push(b);
        r.push(c);
        r
    }

    fn row4(a: TetrominoType, b: TetrominoType, c: TetrominoType, d: TetrominoType) -> (r: Vec<
        TetrominoType,
    >)
        ensures
            r@ =~= seq![a, b, c, d],
    {
        let mut r: Vec<TetrominoType> = Vec::new();
        r.push(a);
        r.push(b);
        r.push(c);
        r.push(d);
        r
    }

    /// The anchor position (row, column).
    pub fn pos(&self) -> (p: (i8, i8))
        ensures
            p.0 as int == self@.row,
            p.1 as int == self@.col,
    {
        self.pos
    }

    /// The local occupancy grid.
    pub fn pieces(&self) -> (r: &Vec<Vec<TetrominoType>>)
        ensures
            rows_view(r@) == self@.grid,
    {
        &self.pieces
    }

    /// The shape tag.
    pub fn shape(&self) -> (s: TetrominoType)
        ensures
            s == self@.shape,
    {
        self.shape
    }

    /// Pure translation of the anchor; legality is the caller's
    /// responsibility and must be checked before calling this.
    pub fn translate(&mut self, vector: [i8; 2])
        requires
            i8::MIN <= old(self)@.row + vector@[0] <= i8::MAX,
            i8::MIN <= old(self)@.col + vector@[1] <= i8::MAX,
        ensures
            final(self)@ == (TetrominoModel {
                row: old(self)@.row + vector@[0],
                col: old(self)@.col + vector@[1],
                ..old(self)@
            }),
    {
        self.pos.0 = self.pos.0 + vector[0];
        self.pos.1 = self.pos.1 + vector[1];
    }

    /// Builds the turned copy of the occupancy grid of a non-O piece.
    fn turned_grid(&self, cw: bool) -> (t: Vec<Vec<TetrominoType>>)
        requires
            self.wf(),
            self@.shape != TetrominoType::O,
        ensures
            rows_view(t@) == rotate_spec(self@.shape, self@.grid, cw),
    {
        let n = self.pieces.len();
        proof {
            assert(n == grid_rows(self@.shape));
            assert(grid_cols(self@.shape) == n);
        }
        let mut turned: Vec<Vec<TetrominoType>> = Vec::new();
        for r in 0..n
            invariant
                n == self.pieces@.len(),
                self.wf(),
                self@.shape != TetrominoType::O,
                n == grid_rows(self@.shape),
                n == grid_cols(self@.shape),
                turned@.len() == r,
                forall|i: int| 0 <= i < r ==> (#[trigger] turned@[i])@ == Seq::new(
                    n as nat,
                    |c: int| if cw {
                        self@.grid[n - 1 - c][i]
                    } else {
                        self@.grid[c][n - 1 - i]
                    },
                ),
        {
            let mut row: Vec<TetrominoType> = Vec::new();
            for c in 0..n
                invariant
                    n == self.pieces@.len(),
                    self.wf(),
                    self@.shape != TetrominoType::O,
                    n == grid_rows(self@.shape),
                    n == grid_cols(self@.shape),
                    r < n,
                    row@.len() == c,
                    forall|j: int| 0 <= j < c ==> #[trigger] row@[j] == (if cw {
                        self@.grid[n - 1 - j][r as int]
                    } else {
                        self@.grid[j][n - 1 - r]
                    }),
            {
                proof {
                    let idx: int = if cw {
                        n - 1 - c as int
                    } else {
                        c as int
                    };
                    assert(self@.grid[idx] == self.pieces@[idx]@);
                    assert(self@.grid[idx].len() == grid_cols(self@.shape));
                }
                let v = if cw {
                    self.pieces[n - 1 - c][r]
                } else {
                    self.pieces[c][n - 1 - r]
                };
                row.push(v);
            }
            proof {
                assert(row@ =~= Seq::new(
                    n as nat,
                    |c: int| if cw {
                        self@.grid[n - 1 - c][r as int]
                    } else {
                        self@.grid[c][n - 1 - r]
                    },
                ));
            }
            turned.push(row);
        }
        proof {
            assert(rows_view(turned@) =~~= rotate_spec(self@.shape, self@.grid, cw));
        }
        turned
    }

    /// One rotation request: check the turned cells against the board,
    /// commit only when legal, and advance the facing counter.
    fn turn(&mut self, board: &Board, cw: bool)
        requires
            old(self).wf(),
            board.wf(),
        ensures
            final(self).wf(),
            final(self)@ == rotated_model(old(self)@, board@, cw),
    {
        let ghost pre = self@;
        if self.shape != TetrominoType::O {
            let turned = self.turned_grid(cw);
            proof {
                assert(rows_view(turned@).len() == turned@.len());
                assert forall|y: int| 0 <= y < turned@.len() implies (#[trigger] turned@[y])@.len()
                    <= 4 by {
                    assert(rows_view(turned@)[y] == turned@[y]@);
                }
            }
            let p = self.pos;
            if board.legal_at(&turned, p.0 as i32, p.1 as i32) {
                self.pieces = turned;
                proof {
                    let n = grid_rows(pre.shape);
                    let (y0, x0) = choose|y: int, x: int| occupies(pre.grid, y, x);
                    if cw {
                        assert(self@.grid[x0][n - 1 - y0] == pre.grid[y0][x0]);
                        assert(occupies(self@.grid, x0, n - 1 - y0));
                    } else {
                        assert(self@.grid[n - 1 - x0][y0] == pre.grid[y0][x0]);
                        assert(occupies(self@.grid, n - 1 - x0, y0));
                    }
                }
            }
        }
        if cw {
            self.rotation = (self.rotation + 1) % 4;
        } else {
            self.rotation = (self.rotation + 3) % 4;
        }
    }
}

} // verus!
