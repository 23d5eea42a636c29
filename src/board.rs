use vstd::prelude::*;

verus! {

/// The contents of one cell.
#[allow(non_camel_case_types)]
#[derive(Debug, Clone, Copy, PartialEq, Eq, Structural)]
pub enum CellType {
    NON,
    PLAYER_1,
    PLAYER_2,
}

/// A column `x` and a row `y`; a cell of the board when both lie in `0..=2`.
#[derive(Debug, Clone, Copy, PartialEq, Eq, Structural)]
pub struct Coord {
    pub x: isize,
    pub y: isize,
}

impl Coord {
    /// Both components lie in `0..=2`.
    pub open spec fn in_range(&self) -> bool {
        0 <= self.x <= 2 && 0 <= self.y <= 2
    }

    /// The row-major index of the cell this coordinate names.
    pub open spec fn index(&self) -> int {
        self.y * 3 + self.x
    }

    /// Whether this coordinate names a cell of the board.
    pub fn is_valid(&self) -> (r: bool)
        ensures
            r == self.in_range(),
    {
        let valid_x = !(self.x < 0 || self.x > 2);
        let valid_y = !(self.y < 0 || self.y > 2);
        valid_x && valid_y
    }
}

/// The coordinate of the cell at row-major index `p`.
pub open spec fn coord_of(p: int) -> Coord {
    Coord { x: (p % 3) as isize, y: (p / 3) as isize }
}

/// The row-major index of the cell at `coord`.
pub fn coord_to_position(coord: &Coord) -> (r: usize)
    requires
        coord.in_range(),
    ensures
        r == coord.index(),
        r < 9,
{
    ((coord.y * 3) + coord.x) as usize
}

/// The coordinate of row-major index `position`: column `position % 3`, row `position / 3`.
pub fn position_to_coord(position: &usize) -> (r: Coord)
    requires
        *position <= isize::MAX,
    ensures
        r == coord_of(*position as int),
{
    let x: isize = (*position as isize) % 3;
    let y: isize = (*position as isize) / 3;
    Coord { x, y }
}

/// What a finished or unfinished game stands at.
#[allow(non_camel_case_types)]
#[derive(Debug, Clone, Copy, PartialEq, Eq, Structural)]
pub enum GameOverType {
    PLAYING,
    PLAYER_1_WIN,
    PLAYER_2_WIN,
    DRAW,
}

/// The nine cells, row-major: cell `(x, y)` is at index `y * 3 + x`.
#[derive(Debug, Clone, Copy)]
pub struct Board {
    cells: [CellType; 9],
}

/// A fresh board: nine empty cells.
pub open spec fn empty_cells() -> Seq<CellType> {
    Seq::new(9, |i: int| CellType::NON)
}

/// `s` after placing `mark` at `c`: a cell that holds a mark keeps it.
pub open spec fn placed(s: Seq<CellType>, c: Coord, mark: CellType) -> Seq<CellType> {
    if s[c.index()] != CellType::NON {
        s
    } else {
        s.update(c.index(), mark)
    }
}

/// The eight lines, in the order in which they are scanned: the rows, the
/// columns, then the diagonal from the top left and the one from the top right.
pub open spec fn line(k: int) -> (int, int, int) {
    if k == 0 { (0, 1, 2) }
    else if k == 1 { (3, 4, 5) }
    else if k == 2 { (6, 7, 8) }
    else if k == 3 { (0, 3, 6) }
    else if k == 4 { (1, 4, 7) }
    else if k == 5 { (2, 5, 8) }
    else if k == 6 { (0, 4, 8) }
    else { (2, 4, 6) }
}

/// The mark that fills all three cells, or `NON` when they differ.
pub open spec fn victor_of(a: CellType, b: CellType, c: CellType) -> CellType {
    if a == b && a == c { a } else { CellType::NON }
}

/// The mark that fills line `k` of `s`, or `NON`.
pub open spec fn line_victor(s: Seq<CellType>, k: int) -> CellType {
    let (a, b, c) = line(k);
    victor_of(s[a], s[b], s[c])
}

/// The first element of `s` that is not `NON`, or `NON` when there is none.
pub open spec fn first_marked(s: Seq<CellType>) -> CellType
    decreases s.len(),
{
    if s.len() == 0 {
        CellType::NON
    } else if s[0] != CellType::NON {
        s[0]
    } else {
        first_marked(s.drop_first())
    }
}

/// The victor of each line, in scan order.
pub open spec fn line_victors(s: Seq<CellType>) -> Seq<CellType> {
    Seq::new(8, |k: int| line_victor(s, k))
}

/// The outcome of a board: the mark of the first filled line in scan order
/// wins; with no such line the game is drawn once no cell is empty.
pub open spec fn outcome(s: Seq<CellType>) -> GameOverType {
    match first_marked(line_victors(s)) {
        CellType::PLAYER_1 => GameOverType::PLAYER_1_WIN,
        CellType::PLAYER_2 => GameOverType::PLAYER_2_WIN,
        CellType::NON => if s.contains(CellType::NON) {
            GameOverType::PLAYING
        } else {
            GameOverType::DRAW
        },
    }
}

/// The behaviour of a game board: read its cells, classify it, and place marks.
pub trait Game: Sized {
    /// The cells, row-major.
    spec fn cells(&self) -> Seq<CellType>;

    /// The nine cells, row-major.
    fn get_board_state(&self) -> (r: Vec<CellType>)
        ensures
            r@ == self.cells(),
            r@.len() == 9,
    ;

    /// The first line in scan order that one mark fills decides the game;
    /// with none, a board without an empty cell is a draw.
    fn is_game_over(&self) -> (r: GameOverType)
        ensures
            r == outcome(self.cells()),
    ;

    /// Places `cell_type` at `coord`; an occupied cell is left as it is.
    fn set_player(&self, coord: Coord, cell_type: CellType) -> (r: Self)
        requires
            coord.in_range(),
        ensures
            r.cells() == placed(self.cells(), coord, cell_type),
    ;

    /// Places the first player's mark at `coord`, unless that cell is occupied.
    fn place_player(&self, coord: Coord) -> (r: Self)
        requires
            coord.in_range(),
        ensures
            r.cells() == placed(self.cells(), coord, CellType::PLAYER_1),
    ;

    /// Places the second player's mark at `coord`, unless that cell is occupied.
    fn place_bot(&self, coord: Coord) -> (r: Self)
        requires
            coord.in_range(),
        ensures
            r.cells() == placed(self.cells(), coord, CellType::PLAYER_2),
    ;
}

impl View for Board {
    type V = Seq<CellType>;

    closed spec fn view(&self) -> Seq<CellType> {
        self.cells@
    }
}

/// Every board has exactly nine cells.
pub proof fn lemma_board_has_nine_cells(b: &Board)
    ensures
        b@.len() == 9,
{
}

/// A fresh board, every cell empty.
pub fn new() -> (r: Board)
    ensures
        r@ == empty_cells(),
{
    let r = Board { cells: [CellType::NON; 9] };
    assert(r@ =~= empty_cells());
    r
}

/// The mark that fills all three cells, or `NON`.
fn get_victor(cells: [CellType; 3]) -> (r: CellType)
    ensures
        r == victor_of(cells[0], cells[1], cells[2]),
{
    let p0_cell_type = cells[0];
    if p0_cell_type == cells[1] && p0_cell_type == cells[2] {
        return p0_cell_type;
    }
    CellType::NON
}

/// The first cell of `cells` that holds a mark, or `NON` when none does.
pub fn get_prioritized_cell_type(cells: Vec<CellType>) -> (r: CellType)
    ensures
        r == first_marked(cells@),
{
    let mut i: usize = 0;
    assert(cells@.subrange(0, cells@.len() as int) =~= cells@);
    while i < cells.len()
        invariant
            i <= cells@.len(),
            first_marked(cells@) == first_marked(cells@.subrange(i as int, cells@.len() as int)),
        decreases cells@.len() - i,
    {
        assert(cells@.subrange(i as int, cells@.len() as int).drop_first()
            =~= cells@.subrange(i + 1, cells@.len() as int));
        if cells[i] != CellType::NON {
            return cells[i];
        }
        i = i + 1;
    }
    CellType::NON
}

/// Whether some cell of `board` is empty.
fn has_empty_cell(board: &Board) -> (r: bool)
    ensures
        r == board@.contains(CellType::NON),
{
    let mut i: usize = 0;
    while i < 9
        invariant
            i <= 9,
            board@.len() == 9,
            forall|j: int| 0 <= j < i ==> board@[j] != CellType::NON,
        decreases 9 - i,
    {
        let cell = board.cells[i];
        assert(cell == board@[i as int]);
        if cell == CellType::NON {
            return true;
        }
        i = i + 1;
    }
    false
}

/// `board` with `cell_type` placed at `coord`, unless that cell is occupied.
fn update_cell_type(board: &Board, coord: Coord, cell_type: CellType) -> (r: Board)
    requires
        coord.in_range(),
    ensures
        r@ == placed(board@, coord, cell_type),
{
    let position = coord_to_position(&coord);
    if board.cells[position] != CellType::NON {
        return *board;
    }
    let mut updated_board = *board;
    updated_board.cells[position] = cell_type;
    updated_board
}

impl Game for Board {
    open spec fn cells(&self) -> Seq<CellType> {
        self@
    }

    fn get_board_state(&self) -> (r: Vec<CellType>) {
        let mut r: Vec<CellType> = Vec::new();
        let mut i: usize = 0;
        while i < 9
            invariant
                i <= 9,
                self@.len() == 9,
                r@ == self@.subrange(0, i as int),
            decreases 9 - i,
        {
            r.push(self.cells[i]);
            i = i + 1;
            assert(r@ =~= self@.subrange(0, i as int));
        }
        assert(r@ =~= self@);
        r
    }

    fn is_game_over(&self) -> (r: GameOverType) {
        let c = &self.cells;
        let victors: Vec<CellType> = vec![
            get_victor([c[0], c[1], c[2]]),
            get_victor([c[3], c[4], c[5]]),
            get_victor([c[6], c[7], c[8]]),
            get_victor([c[0], c[3], c[6]]),
            get_victor([c[1], c[4], c[7]]),
            get_victor([c[2], c[5], c[8]]),
            get_victor([c[0], c[4], c[8]]),
            get_victor([c[2], c[4], c[6]]),
        ];
        assert(victors@ =~= line_victors(self@));
        let winner = get_prioritized_cell_type(victors);
        match winner {
            CellType::PLAYER_1 => GameOverType::PLAYER_1_WIN,
            CellType::PLAYER_2 => GameOverType::PLAYER_2_WIN,
            CellType::NON => if has_empty_cell(self) {
                GameOverType::PLAYING
            } else {
                GameOverType::DRAW
            },
        }
    }

    fn set_player(&self, coord: Coord, cell_type: CellType) -> (r: Board) {
        update_cell_type(self, coord, cell_type)
    }

    fn place_player(&self, coord: Coord) -> (r: Board) {
        update_cell_type(self, coord, CellType::PLAYER_1)
    }

    fn place_bot(&self, coord: Coord) -> (r: Board) {
        update_cell_type(self, coord, CellType::PLAYER_2)
    }
}

/// The mark that wins a game that `m` fills a line of.
pub open spec fn win_for(m: CellType) -> GameOverType {
    if m == CellType::PLAYER_1 {
        GameOverType::PLAYER_1_WIN
    } else {
        GameOverType::PLAYER_2_WIN
    }
}

proof fn lemma_first_marked_none(v: Seq<CellType>)
    requires
        forall|j: int| 0 <= j < v.len() ==> v[j] == CellType::NON,
    ensures
        first_marked(v) == CellType::NON,
    decreases v.len(),
{
    if v.len() > 0 {
        lemma_first_marked_none(v.drop_first());
    }
}

proof fn lemma_first_marked_at(v: Seq<CellType>, k: int, m: CellType)
    requires
        0 <= k < v.len(),
        m != CellType::NON,
        v[k] == m,
        forall|j: int| 0 <= j < k ==> v[j] == CellType::NON || v[j] == m,
    ensures
        first_marked(v) == m,
    decreases k,
{
    if v[0] == CellType::NON {
        lemma_first_marked_at(v.drop_first(), k - 1, m);
    }
}

/// Placing a mark on any cell of a fresh board puts that mark there.
pub proof fn lemma_place_on_fresh_board(c: Coord, m: CellType)
    requires
        c.in_range(),
    ensures
        placed(empty_cells(), c, m)[c.index()] == m,
{
}

/// Once a cell holds a mark, a further placement there changes nothing:
/// placing `m1` and then `m2` at `c` gives the board that placing `m1` gave,
/// whenever `c` was occupied already or `m1` is a player's mark.
pub proof fn lemma_place_on_occupied_cell(s: Seq<CellType>, c: Coord, m1: CellType, m2: CellType)
    requires
        s.len() == 9,
        c.in_range(),
        s[c.index()] != CellType::NON || m1 != CellType::NON,
    ensures
        placed(placed(s, c, m1), c, m2) == placed(s, c, m1),
{
}

/// A fresh board is still in play.
pub proof fn lemma_fresh_board_in_progress()
    ensures
        outcome(empty_cells()) == GameOverType::PLAYING,
{
    let v = line_victors(empty_cells());
    assert(forall|j: int| 0 <= j < v.len() ==> v[j] == CellType::NON);
    lemma_first_marked_none(v);
    assert(empty_cells()[0] == CellType::NON);
}

/// A full board on which no line is filled by one mark is a draw.
pub proof fn lemma_full_board_draw(s: Seq<CellType>)
    requires
        s.len() == 9,
        forall|i: int| 0 <= i < 9 ==> s[i] != CellType::NON,
        forall|k: int| 0 <= k < 8 ==> line_victor(s, k) == CellType::NON,
    ensures
        outcome(s) == GameOverType::DRAW,
{
    lemma_first_marked_none(line_victors(s));
}

/// A board on which line `k` is filled by the player's mark `m` is a win for
/// `m`, unless an earlier line in scan order is filled by the other mark.
pub proof fn lemma_filled_line_wins(s: Seq<CellType>, k: int, m: CellType)
    requires
        s.len() == 9,
        0 <= k < 8,
        m != CellType::NON,
        line_victor(s, k) == m,
        forall|j: int| 0 <= j < k ==> line_victor(s, j) == CellType::NON || line_victor(s, j) == m,
    ensures
        outcome(s) == win_for(m),
{
    lemma_first_marked_at(line_victors(s), k, m);
}

} // verus!
