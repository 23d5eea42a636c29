use vstd::prelude::*;
use crate::board::{coord_of, line, position_to_coord, Board, CellType, Coord, Game};

verus! {

/// The analyzer holds no state: its advice depends on the board and the mark alone.
pub struct AnalyzerState {}

/// Whether the `n`-th of the cells `l` of `s` holds `m`, counted as 0 or 1.
pub open spec fn holds_nth(s: Seq<CellType>, l: (int, int, int), m: CellType, n: int) -> int {
    let p = if n == 0 { l.0 } else if n == 1 { l.1 } else { l.2 };
    if s[p] == m { 1 } else { 0 }
}

/// How many of the first `n` cells of `l` hold `m` in `s`.
pub open spec fn count_first(s: Seq<CellType>, l: (int, int, int), m: CellType, n: int) -> int {
    (if n > 0 { holds_nth(s, l, m, 0) } else { 0 })
        + (if n > 1 { holds_nth(s, l, m, 1) } else { 0 })
        + (if n > 2 { holds_nth(s, l, m, 2) } else { 0 })
}

/// How many of the three cells of `l` hold `m` in `s`.
pub open spec fn count_on(s: Seq<CellType>, l: (int, int, int), m: CellType) -> int {
    count_first(s, l, m, 3)
}

/// The first cell of `l` that is empty in `s` (the last one when none is).
pub open spec fn empty_cell(s: Seq<CellType>, l: (int, int, int)) -> int {
    if s[l.0] == CellType::NON {
        l.0
    } else if s[l.1] == CellType::NON {
        l.1
    } else {
        l.2
    }
}

/// `mark` completes `l` with one move: two of its cells hold `mark`, the third is empty.
pub open spec fn completes(s: Seq<CellType>, mark: CellType, l: (int, int, int)) -> bool {
    count_on(s, l, mark) == 2 && count_on(s, l, CellType::NON) == 1
}

/// `mark` must block `l`: none of its cells holds `mark` and exactly one is
/// empty, so the other two hold the opponent's mark.
pub open spec fn blocks(s: Seq<CellType>, mark: CellType, l: (int, int, int)) -> bool {
    count_on(s, l, mark) == 0 && count_on(s, l, CellType::NON) == 1
}

/// The advice from line `k` on: on each line in scan order a completing
/// move comes first, then a blocking one; the first line that offers
/// either decides.
pub open spec fn advice_from(s: Seq<CellType>, mark: CellType, k: int) -> Option<int>
    decreases 8 - k,
{
    if k >= 8 {
        None
    } else if completes(s, mark, line(k)) {
        Some(empty_cell(s, line(k)))
    } else if blocks(s, mark, line(k)) {
        Some(empty_cell(s, line(k)))
    } else {
        advice_from(s, mark, k + 1)
    }
}

/// The cell index that `mark` is advised to take on `s`, if any.
pub open spec fn advice(s: Seq<CellType>, mark: CellType) -> Option<int> {
    advice_from(s, mark, 0)
}

/// The advised coordinate for `mark` on `s`, if any.
pub open spec fn advice_coord(s: Seq<CellType>, mark: CellType) -> Option<Coord> {
    match advice(s, mark) {
        Some(p) => Some(coord_of(p)),
        None => None,
    }
}

/// The three positions of `p` as a line.
pub open spec fn as_line(p: [usize; 3]) -> (int, int, int) {
    (p[0] as int, p[1] as int, p[2] as int)
}

/// The last of the first `n` cells of `l` that is empty in `s`.
pub open spec fn last_empty_first(s: Seq<CellType>, l: (int, int, int), n: int) -> Option<int> {
    if n > 2 && s[l.2] == CellType::NON {
        Some(l.2)
    } else if n > 1 && s[l.1] == CellType::NON {
        Some(l.1)
    } else if n > 0 && s[l.0] == CellType::NON {
        Some(l.0)
    } else {
        None
    }
}

/// Suggests moves for a player.
pub trait Analyzer {
    /// The cell that `for_cell_type` should take on `game_board`: one that
    /// wins at once or, failing that, one that blocks the opponent, by the
    /// first line in scan order that offers either.
    fn get_best_move(&self, game_board: Board, for_cell_type: CellType) -> (r: Option<Coord>)
        ensures
            r == advice_coord(game_board@, for_cell_type),
    ;
}

impl Analyzer for AnalyzerState {
    fn get_best_move(&self, game_board: Board, for_cell_type: CellType) -> (r: Option<Coord>) {
        let board_state = game_board.get_board_state();
        let pattern_check_list: Vec<[usize; 3]> = vec![
            [0, 1, 2],
            [3, 4, 5],
            [6, 7, 8],
            [0, 3, 6],
            [1, 4, 7],
            [2, 5, 8],
            [0, 4, 8],
            [2, 4, 6],
        ];
        assert(forall|k: int| 0 <= k < 8 ==> #[trigger] as_line(pattern_check_list@[k]) == line(k));
        let mut i: usize = 0;
        while i < pattern_check_list.len()
            invariant
                i <= pattern_check_list@.len() == 8,
                board_state@ == game_board@,
                board_state@.len() == 9,
                forall|k: int| 0 <= k < 8 ==> #[trigger] as_line(pattern_check_list@[k]) == line(k),
                advice(game_board@, for_cell_type) == advice_from(game_board@, for_cell_type, i as int),
            decreases 8 - i,
        {
            let pattern = pattern_check_list[i];
            assert(as_line(pattern) == line(i as int));
            if let Some(position) = get_winning_position(&board_state, for_cell_type, pattern) {
                return Some(position_to_coord(&position));
            }
            if let Some(position) = get_defending_position(&board_state, for_cell_type, pattern) {
                return Some(position_to_coord(&position));
            }
            i = i + 1;
        }
        None
    }
}

/// An analyzer.
pub fn new() -> (r: AnalyzerState) {
    AnalyzerState {}
}

/// The empty cell of the line `positions` when `for_cell_type` holds the
/// other two cells.
fn get_winning_position(board: &Vec<CellType>, for_cell_type: CellType, positions: [usize; 3]) -> (r:
    Option<usize>)
    requires
        forall|j: int| 0 <= j < 3 ==> positions[j] < board@.len(),
    ensures
        r == (if completes(board@, for_cell_type, as_line(positions)) {
            Some(empty_cell(board@, as_line(positions)) as usize)
        } else {
            None
        }),
{
    let ghost l = as_line(positions);
    let mut selected_position: Option<usize> = None;
    let mut cell_type_match_count: u8 = 0;
    let mut i: usize = 0;
    while i < 3
        invariant
            i <= 3,
            l == as_line(positions),
            forall|j: int| 0 <= j < 3 ==> positions[j] < board@.len(),
            for_cell_type != CellType::NON ==> count_first(board@, l, for_cell_type, i as int)
                + count_first(board@, l, CellType::NON, i as int) == i,
            cell_type_match_count as int == (if for_cell_type == CellType::NON {
                0
            } else {
                count_first(board@, l, for_cell_type, i as int)
            }),
            selected_position == (match last_empty_first(board@, l, i as int) {
                Some(p) => Some(p as usize),
                None => None::<usize>,
            }),
        decreases 3 - i,
    {
        let position = positions[i];
        if board[position] != for_cell_type && board[position] != CellType::NON {
            return None;
        }
        if board[position] == CellType::NON {
            selected_position = Some(position);
            i = i + 1;
            continue;
        }
        if board[position] == for_cell_type {
            cell_type_match_count += 1;
        }
        i = i + 1;
    }
    if cell_type_match_count != 2 {
        return None;
    }
    selected_position
}

/// The empty cell of the line `positions` when the opponent of
/// `for_cell_type` holds the other two cells.
fn get_defending_position(board: &Vec<CellType>, for_cell_type: CellType, positions: [usize; 3]) -> (r:
    Option<usize>)
    requires
        forall|j: int| 0 <= j < 3 ==> positions[j] < board@.len(),
    ensures
        r == (if blocks(board@, for_cell_type, as_line(positions)) {
            Some(empty_cell(board@, as_line(positions)) as usize)
        } else {
            None
        }),
{
    let ghost l = as_line(positions);
    let mut selected_position: Option<usize> = None;
    let mut cell_type_match_count: u8 = 0;
    let mut i: usize = 0;
    while i < 3
        invariant
            i <= 3,
            l == as_line(positions),
            forall|j: int| 0 <= j < 3 ==> positions[j] < board@.len(),
            count_first(board@, l, for_cell_type, i as int) == 0,
            cell_type_match_count as int == i - count_first(board@, l, CellType::NON, i as int),
            selected_position == (match last_empty_first(board@, l, i as int) {
                Some(p) => Some(p as usize),
                None => None::<usize>,
            }),
        decreases 3 - i,
    {
        let position = positions[i];
        if board[position] == for_cell_type {
            return None;
        }
        if board[position] == CellType::NON {
            selected_position = Some(position);
            i = i + 1;
            continue;
        }
        if board[position] != for_cell_type {
            cell_type_match_count += 1;
        }
        i = i + 1;
    }
    if cell_type_match_count != 2 {
        return None;
    }
    selected_position
}

} // verus!
