use vstd::prelude::*;

use crate::tetromino::{grid_cols, occupied_count, occupied_from, row_occupied_from, Tetromino};
use crate::tetromino_type::TetrominoType;

verus! {

/// Total number of grid rows, the hidden spawn buffer included.
pub const TRUE_MAP_HEIGHT: usize = 22;
/// Number of grid columns.
pub const MAP_WIDTH: usize = 10;
/// Number of visible playfield rows.
pub const MAP_HEIGHT: usize = 20;
/// Rows of the hidden spawn buffer above the visible playfield.
pub const HIDDEN_ROWS: usize = TRUE_MAP_HEIGHT - MAP_HEIGHT;

/// The sequence-of-rows abstraction of a vector-of-vectors grid.
pub open spec fn rows_view(rows: Seq<Vec<TetrominoType>>) -> Seq<Seq<TetrominoType>> {
    Seq::new(rows.len(), |i: int| rows[i]@)
}

/// A row of the fixed width holding no blocks.
pub open spec fn empty_row() -> Seq<TetrominoType> {
    Seq::new(MAP_WIDTH as nat, |x: int| TetrominoType::E)
}

/// A full-size grid holding no blocks.
pub open spec fn empty_grid() -> Seq<Seq<TetrominoType>> {
    Seq::new(TRUE_MAP_HEIGHT as nat, |r: int| empty_row())
}

/// A full-size board grid: the fixed number of rows, each of the fixed width.
pub open spec fn board_wf(m: Seq<Seq<TetrominoType>>) -> bool {
    &&& m.len() == TRUE_MAP_HEIGHT
    &&& forall|r: int| 0 <= r < m.len() ==> (#[trigger] m[r]).len() == MAP_WIDTH
}

/// Cell (`y`, `x`) of the local occupancy grid `g` holds a block.
pub open spec fn occupies(g: Seq<Seq<TetrominoType>>, y: int, x: int) -> bool {
    &&& 0 <= y < g.len()
    &&& 0 <= x < g[y].len()
    &&& g[y][x] != TetrominoType::E
}

/// Every occupied cell of `g`, anchored at (`row`, `col`), lies inside the board.
pub open spec fn placement_in_bounds(g: Seq<Seq<TetrominoType>>, row: int, col: int) -> bool {
    forall|y: int, x: int| #[trigger] occupies(g, y, x) ==> {
        &&& 0 <= row + y < TRUE_MAP_HEIGHT as int
        &&& 0 <= col + x < MAP_WIDTH as int
    }
}

/// Every occupied cell of `g`, anchored at (`row`, `col`), lies inside the
/// board and lands on an empty cell of `m`.
pub open spec fn placement_legal(
    m: Seq<Seq<TetrominoType>>,
    g: Seq<Seq<TetrominoType>>,
    row: int,
    col: int,
) -> bool {
    forall|y: int, x: int| #[trigger] occupies(g, y, x) ==> {
        &&& 0 <= row + y < TRUE_MAP_HEIGHT as int
        &&& 0 <= col + x < MAP_WIDTH as int
        &&& m[row + y][col + x] == TetrominoType::E
    }
}

/// `m` with `shape` written into every cell covered by `g` anchored at
/// (`row`, `col`); all other cells keep their contents.
pub open spec fn place_piece(
    m: Seq<Seq<TetrominoType>>,
    g: Seq<Seq<TetrominoType>>,
    row: int,
    col: int,
    shape: TetrominoType,
) -> Seq<Seq<TetrominoType>> {
    Seq::new(
        m.len(),
        |r: int| Seq::new(
            m[r].len(),
            |c: int| if occupies(g, r - row, c - col) {
                shape
            } else {
                m[r][c]
            },
        ),
    )
}

/// A row with no empty cell.
pub open spec fn row_complete(row: Seq<TetrominoType>) -> bool {
    forall|x: int| 0 <= x < row.len() ==> #[trigger] row[x] != TetrominoType::E
}

/// The rows of `m` that survive line clearing, in order.
pub open spec fn kept_rows(m: Seq<Seq<TetrominoType>>) -> Seq<Seq<TetrominoType>> {
    m.filter(|row: Seq<TetrominoType>| !row_complete(row))
}

/// How many complete rows line clearing removes from `m`.
pub open spec fn cleared_count(m: Seq<Seq<TetrominoType>>) -> int {
    m.len() - kept_rows(m).len()
}

/// The grid after line clearing: the incomplete rows of `m`, shifted to the
/// bottom in their original order, with fresh empty rows on top.
pub open spec fn cleared_grid(m: Seq<Seq<TetrominoType>>) -> Seq<Seq<TetrominoType>> {
    let kept = kept_rows(m);
    Seq::new(
        m.len(),
        |r: int| if r < m.len() - kept.len() {
            empty_row()
        } else {
            kept[r - (m.len() - kept.len())]
        },
    )
}

/// The grid of locked cells. Only the game engine mutates it, on lock and on
/// line clearing.
pub struct Board {
    cells: Vec<Vec<TetrominoType>>,
}

impl View for Board {
    type V = Seq<Seq<TetrominoType>>;

    closed spec fn view(&self) -> Seq<Seq<TetrominoType>> {
        rows_view(self.cells@)
    }
}

impl Board {
    pub open spec fn wf(&self) -> bool {
        board_wf(self@)
    }

    /// An empty board.
    pub fn new() -> (b: Board)
        ensures
            b.wf(),
            b@ == empty_grid(),
    {
        let mut cells: Vec<Vec<TetrominoType>> = Vec::new();
        for r in 0..TRUE_MAP_HEIGHT
            invariant
                cells@.len() == r,
                forall|i: int| 0 <= i < r ==> (#[trigger] cells@[i])@ == empty_row(),
        {
            cells.push(Self::empty_row_vec());
        }
        let b = Board { cells };
        assert(b@ =~= empty_grid());
        b
    }

    /// The contents of one board cell.
    pub fn cell(&self, y: usize, x: usize) -> (t: TetrominoType)
        requires
            self.wf(),
            y < TRUE_MAP_HEIGHT,
            x < MAP_WIDTH,
        ensures
            t == self@[y as int][x as int],
    {
        self.cells[y][x]
    }

    /// Whether the occupancy grid `cells`, anchored at (`row`, `col`), sits
    /// fully inside the board on currently empty cells.
    pub(crate) fn legal_at(&self, cells: &Vec<Vec<TetrominoType>>, row: i32, col: i32) -> (r: bool)
        requires
            self.wf(),
            cells@.len() <= 4,
            forall|y: int| 0 <= y < cells@.len() ==> (#[trigger] cells@[y])@.len() <= 4,
            -1000 <= row <= 1000,
            -1000 <= col <= 1000,
        ensures
            r == placement_legal(self@, rows_view(cells@), row as int, col as int),
    {
        let ghost g = rows_view(cells@);
        let n = cells.len();
        for y in 0..n
            invariant
                n == cells@.len(),
                self.wf(),
                cells@.len() <= 4,
                forall|i: int| 0 <= i < cells@.len() ==> (#[trigger] cells@[i])@.len() <= 4,
                -1000 <= row <= 1000,
                -1000 <= col <= 1000,
                g == rows_view(cells@),
                forall|py: int, px: int| #[trigger] occupies(g, py, px) && py < y ==> {
                    &&& 0 <= row + py < TRUE_MAP_HEIGHT as int
                    &&& 0 <= col + px < MAP_WIDTH as int
                    &&& self@[row + py][col + px] == TetrominoType::E
                },
        {
            let w = cells[y].len();
            for x in 0..w
                invariant
                    n == cells@.len(),
                    y < cells@.len(),
                    w == cells@[y as int]@.len(),
                    self.wf(),
                    cells@.len() <= 4,
                    forall|i: int| 0 <= i < cells@.len() ==> (#[trigger] cells@[i])@.len() <= 4,
                    -1000 <= row <= 1000,
                    -1000 <= col <= 1000,
                    g == rows_view(cells@),
                    forall|py: int, px: int| #[trigger] occupies(g, py, px)
                        && (py < y || (py == y && px < x)) ==> {
                        &&& 0 <= row + py < TRUE_MAP_HEIGHT as int
                        &&& 0 <= col + px < MAP_WIDTH as int
                        &&& self@[row + py][col + px] == TetrominoType::E
                    },
            {
                if cells[y][x] != TetrominoType::E {
                    assert(occupies(g, y as int, x as int));
                    let by = row + y as i32;
                    let bx = col + x as i32;
                    if by < 0 || by >= TRUE_MAP_HEIGHT as i32 {
                        return false;
                    }
                    if bx < 0 || bx >= MAP_WIDTH as i32 {
                        return false;
                    }
                    if self.cells[by as usize][bx as usize] != TetrominoType::E {
                        assert(self@[row + y as int][col + x as int] != TetrominoType::E);
                        return false;
                    }
                }
            }
        }
        true
    }

    /// Collision query: the piece, moved by `vector` (row delta, column
    /// delta), must keep every occupied cell inside the board and on an
    /// empty cell. Only occupied local cells participate.
    pub fn is_legal(&self, piece: &Tetromino, vector: [i8; 2]) -> (r: bool)
        requires
            self.wf(),
            piece.wf(),
        ensures
            r == placement_legal(
                self@,
                piece@.grid,
                piece@.row + vector@[0],
                piece@.col + vector@[1],
            ),
    {
        let p = piece.pos();
        let cells = piece.pieces();
        proof {
            assert(cells@.len() == rows_view(cells@).len());
            assert forall|y: int| 0 <= y < cells@.len() implies (#[trigger] cells@[y])@.len()
                <= 4 by {
                assert(rows_view(cells@)[y] == cells@[y]@);
                assert(piece@.grid[y].len() == grid_cols(piece@.shape));
            }
        }
        self.legal_at(cells, p.0 as i32 + vector[0] as i32, p.1 as i32 + vector[1] as i32)
    }

    /// Writes the piece's occupied cells onto the board. To be called only
    /// on a position already validated as legal for a zero-delta check;
    /// writing over an occupied cell means the spawn area was blocked.
    pub fn lock(&mut self, piece: &Tetromino)
        requires
            old(self).wf(),
            piece.wf(),
            placement_in_bounds(piece@.grid, piece@.row, piece@.col),
        ensures
            final(self).wf(),
            final(self)@ == place_piece(
                old(self)@,
                piece@.grid,
                piece@.row,
                piece@.col,
                piece@.shape,
            ),
    {
        let ghost m0 = self@;
        let ghost g = piece@.grid;
        let ghost prow = piece@.row;
        let ghost pcol = piece@.col;
        let p = piece.pos();
        let shape = piece.shape();
        let cells = piece.pieces();
        let n = cells.len();
        for y in 0..n
            invariant
                n == cells@.len(),
                g == rows_view(cells@),
                g == piece@.grid,
                piece.wf(),
                p.0 as int == prow,
                p.1 as int == pcol,
                shape == piece@.shape,
                placement_in_bounds(g, prow, pcol),
                board_wf(self@),
                forall|r: int, c: int|
                    0 <= r < TRUE_MAP_HEIGHT as int && 0 <= c < MAP_WIDTH as int
                        ==> #[trigger] self@[r][c] == (if occupies(g, r - prow, c - pcol) && r
                        - prow < y {
                        shape
                    } else {
                        m0[r][c]
                    }),
        {
            proof {
                assert(g[y as int] == cells@[y as int]@);
            }
            let w = cells[y].len();
            for x in 0..w
                invariant
                    n == cells@.len(),
                    y < n,
                    w == cells@[y as int]@.len(),
                    w == g[y as int].len(),
                    g == rows_view(cells@),
                    g == piece@.grid,
                    piece.wf(),
                    p.0 as int == prow,
                    p.1 as int == pcol,
                    shape == piece@.shape,
                    placement_in_bounds(g, prow, pcol),
                    board_wf(self@),
                    forall|r: int, c: int|
                        0 <= r < TRUE_MAP_HEIGHT as int && 0 <= c < MAP_WIDTH as int
                            ==> #[trigger] self@[r][c] == (if occupies(g, r - prow, c - pcol) && (r
                            - prow < y || (r - prow == y && c - pcol < x)) {
                            shape
                        } else {
                            m0[r][c]
                        }),
            {
                if cells[y][x] != TetrominoType::E {
                    proof {
                        assert(g[y as int][x as int] == cells@[y as int]@[x as int]);
                        assert(occupies(g, y as int, x as int));
                        assert(0 <= prow + y < TRUE_MAP_HEIGHT as int);
                        assert(0 <= pcol + x < MAP_WIDTH as int);
                    }
                    let ghost before = self@;
                    let by = p.0 as i32 + y as i32;
                    let bx = p.1 as i32 + x as i32;
                    let br = by as usize;
                    let bc = bx as usize;
                    proof {
                        assert(br == prow + y);
                        assert(bc == pcol + x);
                        assert(self.cells@.len() == TRUE_MAP_HEIGHT);
                        assert(before[br as int].len() == MAP_WIDTH);
                        assert(before[br as int] == self.cells@[br as int]@);
                    }
                    self.cells[br][bc] = shape;
                    proof {
                        assert(self@.len() == before.len());
                        assert forall|r: int|
                            0 <= r < TRUE_MAP_HEIGHT as int implies (#[trigger] self@[r]).len()
                            == before[r].len() by {
                            assert(self@[r] == self.cells@[r]@);
                        }
                        assert forall|r: int, c: int|
                            0 <= r < TRUE_MAP_HEIGHT as int && 0 <= c < MAP_WIDTH as int
                                implies #[trigger] self@[r][c] == (if r == br as int && c
                            == bc as int {
                            shape
                        } else {
                            before[r][c]
                        }) by {
                            assert(self@[r] == self.cells@[r]@);
                        }
                    }
                }
            }
        }
        proof {
            assert forall|r: int|
                0 <= r < TRUE_MAP_HEIGHT as int implies #[trigger] self@[r] =~= place_piece(
                m0,
                g,
                prow,
                pcol,
                shape,
            )[r] by {
                assert forall|c: int|
                    0 <= c < MAP_WIDTH as int implies #[trigger] self@[r][c] == place_piece(
                    m0,
                    g,
                    prow,
                    pcol,
                    shape,
                )[r][c] by {
                    if occupies(g, r - prow, c - pcol) {
                        assert(r - prow < n);
                    }
                }
            }
            assert(self@ =~= place_piece(m0, g, prow, pcol, shape));
        }
    }

    /// A fresh all-empty row.
    fn empty_row_vec() -> (r: Vec<TetrominoType>)
        ensures
            r@ == empty_row(),
    {
        let mut row: Vec<TetrominoType> = Vec::new();
        for c in 0..MAP_WIDTH
            invariant
                row@.len() == c,
                forall|j: int| 0 <= j < c ==> (#[trigger] row@[j]) == TetrominoType::E,
        {
            row.push(TetrominoType::E);
        }
        proof {
            assert(row@ =~= empty_row());
        }
        row
    }

    /// Whether a row is complete: no cell in it is empty.
    fn row_full(row: &Vec<TetrominoType>) -> (r: bool)
        ensures
            r == row_complete(row@),
    {
        let n = row.len();
        for x in 0..n
            invariant
                n == row@.len(),
                forall|j: int| 0 <= j < x ==> #[trigger] row@[j] != TetrominoType::E,
        {
            if row[x] == TetrominoType::E {
                assert(!row_complete(row@));
                return false;
            }
        }
        true
    }

    /// An element-wise copy of a row.
    fn copy_row(row: &Vec<TetrominoType>) -> (r: Vec<TetrominoType>)
        ensures
            r@ == row@,
    {
        let n = row.len();
        let mut r: Vec<TetrominoType> = Vec::new();
        for x in 0..n
            invariant
                n == row@.len(),
                r@.len() == x,
                forall|j: int| 0 <= j < x ==> #[trigger] r@[j] == row@[j],
        {
            r.push(row[x]);
        }
        proof {
            assert(r@ =~= row@);
        }
        r
    }

    /// Line clearing: removes every complete row, shifts the rows above each
    /// removed row down by one, and refills the top with empty rows.
    /// Returns how many lines were cleared.
    pub fn clear_completed_lines(&mut self) -> (n: usize)
        requires
            old(self).wf(),
        ensures
            final(self).wf(),
            final(self)@ == cleared_grid(old(self)@),
            n as int == cleared_count(old(self)@),
    {
        let ghost m = self@;
        let ghost pred = |row: Seq<TetrominoType>| !row_complete(row);
        let mut kept: Vec<Vec<TetrominoType>> = Vec::new();
        for y in 0..TRUE_MAP_HEIGHT
            invariant
                board_wf(self@),
                m == self@,
                rows_view(kept@) =~= kept_rows(m.subrange(0, y as int)),
                kept@.len() <= y,
                forall|j: int| 0 <= j < kept@.len() ==> (#[trigger] kept@[j])@.len() == MAP_WIDTH,
        {
            proof {
                assert(m[y as int] == self.cells@[y as int]@);
                assert(m.subrange(0, y as int + 1).drop_last() =~= m.subrange(0, y as int));
                assert(m.subrange(0, y as int + 1).last() == m[y as int]);
            }
            let ghost kept_pre = rows_view(kept@);
            if !Self::row_full(&self.cells[y]) {
                kept.push(Self::copy_row(&self.cells[y]));
            }
            proof {
                reveal_with_fuel(Seq::<_>::filter, 2);
                assert(kept_rows(m.subrange(0, y as int + 1)) =~= (if !row_complete(m[y as int]) {
                    kept_pre.push(m[y as int])
                } else {
                    kept_pre
                }));
                assert(rows_view(kept@) =~= kept_rows(m.subrange(0, y as int + 1)));
            }
        }
        proof {
            assert(m.subrange(0, TRUE_MAP_HEIGHT as int) =~= m);
            m.lemma_filter_len(pred);
            assert(kept_rows(m).len() <= TRUE_MAP_HEIGHT as int);
        }
        let k = kept.len();
        let n = TRUE_MAP_HEIGHT - k;
        let mut rebuilt: Vec<Vec<TetrominoType>> = Vec::new();
        for i in 0..n
            invariant
                n == TRUE_MAP_HEIGHT - k,
                rebuilt@.len() == i,
                forall|j: int| 0 <= j < i ==> (#[trigger] rebuilt@[j])@ == empty_row(),
        {
            rebuilt.push(Self::empty_row_vec());
        }
        for i in 0..k
            invariant
                n == TRUE_MAP_HEIGHT - k,
                k == kept@.len(),
                rebuilt@.len() == n + i,
                forall|j: int| 0 <= j < kept@.len() ==> (#[trigger] kept@[j])@.len() == MAP_WIDTH,
                forall|j: int| 0 <= j < n ==> (#[trigger] rebuilt@[j])@ == empty_row(),
                forall|j: int| 0 <= j < i ==> (#[trigger] rebuilt@[n + j])@ == rows_view(kept@)[j],
        {
            proof {
                assert(rows_view(kept@)[i as int] == kept@[i as int]@);
            }
            rebuilt.push(Self::copy_row(&kept[i]));
        }
        self.cells = rebuilt;
        proof {
            assert forall|r: int|
                0 <= r < TRUE_MAP_HEIGHT as int implies #[trigger] self@[r] == cleared_grid(m)[r] by {
                assert(self@[r] == self.cells@[r]@);
                if r >= n as int {
                    let j = r - n as int;
                    assert(self.cells@[n + j]@ == rows_view(kept@)[j]);
                }
            }
            assert(self@ =~= cleared_grid(m));
            assert forall|r: int| 0 <= r < self@.len() implies (#[trigger] self@[r]).len()
                == MAP_WIDTH by {
                assert(self@[r] == self.cells@[r]@);
                if r >= n as int {
                    assert(self.cells@[r]@ == kept@[r - n]@);
                }
            }
        }
        n
    }

    /// How many rows the piece can descend before it rests: probes downward
    /// one row at a time until illegal. For display of the ghost piece only;
    /// never affects authoritative state.
    pub fn shadow(&self, piece: &Tetromino) -> (d: i8)
        requires
            self.wf(),
            piece.wf(),
            placement_in_bounds(piece@.grid, piece@.row, piece@.col),
        ensures
            0 <= d < TRUE_MAP_HEIGHT,
            forall|k: int|
                1 <= k <= d ==> #[trigger] placement_legal(self@, piece@.grid, piece@.row + k, piece@.col),
            !placement_legal(self@, piece@.grid, piece@.row + d + 1, piece@.col),
    {
        let mut d: i8 = 0;
        while self.is_legal(piece, [d + 1, 0])
            invariant
                self.wf(),
                piece.wf(),
                placement_in_bounds(piece@.grid, piece@.row, piece@.col),
                0 <= d <= 21,
                forall|k: int|
                    1 <= k <= d ==> #[trigger] placement_legal(self@, piece@.grid, piece@.row + k, piece@.col),
            decreases 22 - d,
        {
            proof {
                let (y0, x0) = choose|y: int, x: int| occupies(piece@.grid, y, x);
                assert(piece@.row + (d + 1) + y0 < TRUE_MAP_HEIGHT as int);
                assert(piece@.row + y0 >= 0);
                assert(d <= 20);
            }
            d = d + 1;
        }
        d
    }
}

/// A row of empty cells holds no blocks.
proof fn lemma_row_occ_empty(x: int)
    ensures
        row_occupied_from(empty_row(), x) == 0,
    decreases MAP_WIDTH as int - x,
{
    if 0 <= x < MAP_WIDTH as int {
        lemma_row_occ_empty(x + 1);
    }
}

/// A complete row holds one block per cell.
proof fn lemma_row_occ_complete(row: Seq<TetrominoType>, x: int)
    requires
        row_complete(row),
        0 <= x <= row.len(),
    ensures
        row_occupied_from(row, x) == row.len() - x,
    decreases row.len() - x,
{
    if x < row.len() {
        lemma_row_occ_complete(row, x + 1);
    }
}

/// Two grids whose rows agree from the given offsets on hold equally many
/// blocks from there on.
proof fn lemma_occ_from_shift(
    s: Seq<Seq<TetrominoType>>,
    t: Seq<Seq<TetrominoType>>,
    ys: int,
    yt: int,
)
    requires
        0 <= ys <= s.len(),
        0 <= yt <= t.len(),
        s.len() - ys == t.len() - yt,
        forall|k: int| 0 <= k < s.len() - ys ==> #[trigger] s[ys + k] == t[yt + k],
    ensures
        occupied_from(s, ys) == occupied_from(t, yt),
    decreases s.len() - ys,
{
    if ys < s.len() {
        assert(s[ys + 0] == t[yt + 0]);
        assert forall|k: int| 0 <= k < s.len() - (ys + 1) implies #[trigger] s[ys + 1 + k] == t[
            yt + 1 + k] by {
            assert(s[ys + (k + 1)] == t[yt + (k + 1)]);
        }
        lemma_occ_from_shift(s, t, ys + 1, yt + 1);
    }
}

/// Filtering a grid without a complete row keeps every row.
proof fn lemma_filter_keeps_all(m: Seq<Seq<TetrominoType>>)
    requires
        forall|i: int| 0 <= i < m.len() ==> !row_complete(#[trigger] m[i]),
    ensures
        kept_rows(m) =~= m,
    decreases m.len(),
{
    reveal_with_fuel(Seq::<_>::filter, 2);
    if m.len() > 0 {
        let d = m.drop_last();
        assert(forall|i: int| 0 <= i < d.len() ==> !row_complete(#[trigger] d[i]));
        lemma_filter_keeps_all(d);
        assert(!row_complete(m.last()));
        assert(kept_rows(m) =~= kept_rows(d).push(m.last()));
        assert(kept_rows(m) =~= m);
    }
}

/// Filtering a grid whose only complete row is `q` removes exactly that row.
proof fn lemma_filter_except_one(m: Seq<Seq<TetrominoType>>, q: int)
    requires
        0 <= q < m.len(),
        row_complete(m[q]),
        forall|i: int| 0 <= i < m.len() && i != q ==> !row_complete(#[trigger] m[i]),
    ensures
        kept_rows(m) =~= m.remove(q),
    decreases m.len(),
{
    reveal_with_fuel(Seq::<_>::filter, 2);
    let d = m.drop_last();
    if q == m.len() - 1 {
        assert(forall|i: int| 0 <= i < d.len() ==> !row_complete(#[trigger] d[i]));
        lemma_filter_keeps_all(d);
        assert(kept_rows(m) =~= d);
        assert(m.remove(q) =~= d);
    } else {
        assert(!row_complete(m.last()));
        assert(d[q] == m[q]);
        assert(forall|i: int| 0 <= i < d.len() && i != q ==> !row_complete(#[trigger] d[i]));
        lemma_filter_except_one(d, q);
        assert(kept_rows(m) =~= kept_rows(d).push(m.last()));
        assert(m.remove(q) =~= d.remove(q).push(m.last()));
    }
}

/// Clearing a grid whose only complete row is `q` clears exactly one line:
/// the top row becomes empty, every row above `q` shifts down by one, every
/// row below `q` stays in place, and the total count of locked cells drops
/// by exactly the row width.
pub proof fn lemma_clear_single_row(m: Seq<Seq<TetrominoType>>, q: int)
    requires
        board_wf(m),
        0 <= q < m.len(),
        row_complete(m[q]),
        forall|i: int| 0 <= i < m.len() && i != q ==> !row_complete(#[trigger] m[i]),
    ensures
        cleared_count(m) == 1,
        cleared_grid(m)[0] == empty_row(),
        forall|i: int| 0 <= i < q ==> #[trigger] cleared_grid(m)[i + 1] == m[i],
        forall|i: int| q < i < m.len() ==> #[trigger] cleared_grid(m)[i] == m[i],
        occupied_count(cleared_grid(m)) + MAP_WIDTH as int == occupied_count(m),
{
    lemma_filter_except_one(m, q);
    let cg = cleared_grid(m);
    assert(cg.len() == m.len());
    assert forall|i: int| 0 <= i < q implies #[trigger] cg[i + 1] == m[i] by {
        assert(kept_rows(m)[i] == m.remove(q)[i]);
    }
    assert forall|i: int| q < i < m.len() implies #[trigger] cg[i] == m[i] by {
        assert(kept_rows(m)[i - 1] == m.remove(q)[i - 1]);
    }
    // Counting: the suffix below the cleared row is unchanged, the prefix
    // above it shifts down by one, and the new top row is empty.
    assert forall|k: int| 0 <= k < m.len() - (q + 1) implies #[trigger] cg[(q + 1) + k] == m[(q
        + 1) + k] by {
        assert(cg[q + 1 + k] == m[q + 1 + k]);
    }
    lemma_occ_from_shift(cg, m, q + 1, q + 1);
    assert forall|k: int| 0 <= k < q implies #[trigger] cg[1 + k] == m[0 + k] by {
        assert(cg[k + 1] == m[k]);
    }
    lemma_occ_prefix_step(cg, m, q, 0);
    lemma_row_occ_complete(m[q], 0);
    lemma_row_occ_empty(0);
    assert(occupied_from(cg, 0) == row_occupied_from(cg[0], 0) + occupied_from(cg, 1));
    assert(cg[0] == empty_row());
}

/// Row-by-row accounting for the shifted prefix of a cleared grid, from
/// row `j` down to the cleared row `q`.
proof fn lemma_occ_prefix_step(
    cg: Seq<Seq<TetrominoType>>,
    m: Seq<Seq<TetrominoType>>,
    q: int,
    j: int,
)
    requires
        0 <= j <= q < m.len(),
        cg.len() == m.len(),
        forall|k: int| 0 <= k < q ==> #[trigger] cg[1 + k] == m[k],
    ensures
        occupied_from(cg, 1 + j) + row_occupied_from(m[q], 0) + occupied_from(m, q + 1)
            == occupied_from(m, j) + occupied_from(cg, q + 1),
    decreases q - j,
{
    if j == q {
        assert(occupied_from(m, q) == row_occupied_from(m[q], 0) + occupied_from(m, q + 1));
    } else {
        assert(cg[1 + j] == m[j]);
        lemma_occ_prefix_step(cg, m, q, j + 1);
        assert(occupied_from(cg, 1 + j) == row_occupied_from(cg[1 + j], 0) + occupied_from(
            cg,
            1 + j + 1,
        ));
        assert(occupied_from(m, j) == row_occupied_from(m[j], 0) + occupied_from(m, j + 1));
    }
}

/// A grid with no complete row: the normal state of the board between
/// events, since every lock event clears all the rows it completes.
pub open spec fn no_complete_rows(m: Seq<Seq<TetrominoType>>) -> bool {
    forall|r: int| 0 <= r < m.len() ==> !row_complete(#[trigger] m[r])
}

/// Line clearing leaves no complete row behind: the surviving rows were
/// kept for being incomplete, and the fresh top rows are empty.
pub proof fn lemma_cleared_no_complete(m: Seq<Seq<TetrominoType>>)
    ensures
        no_complete_rows(cleared_grid(m)),
{
    let pred = |row: Seq<TetrominoType>| !row_complete(row);
    let kept = kept_rows(m);
    m.lemma_filter_len(pred);
    assert forall|r: int| 0 <= r < cleared_grid(m).len() implies !row_complete(
        #[trigger] cleared_grid(m)[r],
    ) by {
        if r < m.len() - kept.len() {
            assert(cleared_grid(m)[r] == empty_row());
            assert(empty_row()[0] == TetrominoType::E);
        } else {
            m.lemma_filter_pred(pred, r - (m.len() - kept.len()));
        }
    }
}

/// All the rows that a filtered grid loses lie inside the index window
/// `[lo, hi)`, so at most `hi - lo` rows are lost.
proof fn lemma_kept_len_window(m: Seq<Seq<TetrominoType>>, lo: int, hi: int)
    requires
        lo <= hi,
        forall|r: int| 0 <= r < m.len() && row_complete(#[trigger] m[r]) ==> lo <= r < hi,
    ensures
        kept_rows(m).len() + (hi - lo) >= m.len(),
    decreases m.len(),
{
    reveal_with_fuel(Seq::<_>::filter, 2);
    if m.len() > 0 {
        let d = m.drop_last();
        assert(forall|r: int| 0 <= r < d.len() ==> #[trigger] d[r] == m[r]);
        if row_complete(m.last()) {
            assert(lo <= m.len() - 1 < hi);
            assert(forall|r: int|
                0 <= r < d.len() && row_complete(#[trigger] d[r]) ==> lo <= r < hi - 1);
            lemma_kept_len_window(d, lo, hi - 1);
            assert(kept_rows(m) =~= kept_rows(d));
        } else {
            lemma_kept_len_window(d, lo, hi);
            assert(kept_rows(m) =~= kept_rows(d).push(m.last()));
        }
    }
}

/// One lock event on a board without complete rows completes at most four
/// lines: the piece's occupancy grid spans at most four rows, and a row it
/// does not touch stays incomplete.
pub proof fn lemma_lock_clears_at_most_four(
    m: Seq<Seq<TetrominoType>>,
    g: Seq<Seq<TetrominoType>>,
    row: int,
    col: int,
    shape: TetrominoType,
)
    requires
        no_complete_rows(m),
        g.len() <= 4,
    ensures
        0 <= cleared_count(place_piece(m, g, row, col, shape)) <= 4,
{
    let locked = place_piece(m, g, row, col, shape);
    let pred = |r: Seq<TetrominoType>| !row_complete(r);
    locked.lemma_filter_len(pred);
    assert forall|r: int|
        0 <= r < locked.len() && row_complete(#[trigger] locked[r]) implies row <= r < row
        + 4 by {
        if !(row <= r < row + g.len()) {
            assert forall|c: int| 0 <= c < m[r].len() implies #[trigger] locked[r][c]
                == m[r][c] by {
                assert(!occupies(g, r - row, c - col));
            }
            assert(locked[r] =~= m[r]);
            assert(!row_complete(m[r]));
        }
    }
    lemma_kept_len_window(locked, row, row + 4);
}

/// Legality of a placement implies that the placement is in bounds.
pub proof fn lemma_legal_implies_in_bounds(
    m: Seq<Seq<TetrominoType>>,
    g: Seq<Seq<TetrominoType>>,
    row: int,
    col: int,
)
    requires
        placement_legal(m, g, row, col),
    ensures
        placement_in_bounds(g, row, col),
{
    assert forall|y: int, x: int| #[trigger] occupies(g, y, x) implies {
        &&& 0 <= row + y < TRUE_MAP_HEIGHT as int
        &&& 0 <= col + x < MAP_WIDTH as int
    } by {
        assert(placement_legal(m, g, row, col));
    }
}

} // verus!
