//! The board and the turn state machine, owned by the presentation loop.
use vstd::prelude::*;
use crate::codec::{decode_frame, Placement};
use crate::grid::{cell_at, map_to_cell, COLUMNS, ROWS};

verus! {

/// Number of cells of the board.
pub const CELLS: usize = 42;

/// Where a match stands.
#[derive(Clone, Copy, Debug, PartialEq, Eq, Structural)]
pub enum Phase {
    /// No identity has come from the server yet.
    AwaitingIdentity,
    /// Moves are being played.
    InProgress,
    /// A participant has won; nothing changes any more.
    Over,
}

/// What the turn indicator below the board shows.
#[derive(Clone, Copy, Debug, PartialEq, Eq, Structural)]
pub enum Indicator {
    Waiting,
    YourTurn,
    OpponentsTurn,
    YouWon,
    YouLost,
}

impl Indicator {
    /// The words shown for this indicator.
    pub fn text(&self) -> (r: &'static str)
        ensures
            r@ == indicator_text(*self),
    {
        match self {
            Indicator::Waiting => "Waiting to start...",
            Indicator::YourTurn => "Your turn",
            Indicator::OpponentsTurn => "Opponent's turn",
            Indicator::YouWon => "You won!",
            Indicator::YouLost => "You lost!",
        }
    }
}

/// The words shown for the indicator `i`.
pub open spec fn indicator_text(i: Indicator) -> Seq<char> {
    match i {
        Indicator::Waiting => "Waiting to start..."@,
        Indicator::YourTurn => "Your turn"@,
        Indicator::OpponentsTurn => "Opponent's turn"@,
        Indicator::YouWon => "You won!"@,
        Indicator::YouLost => "You lost!"@,
    }
}

/// The abstract state of a match.
pub struct GameView {
    /// The cells, row by row from the top, seven to a row.
    pub board: Seq<u8>,
    pub phase: Phase,
    /// The local participant's number, `0` until the identity arrives.
    pub player: u8,
    /// Whether the next placement is the local participant's.
    pub my_turn: bool,
    /// The winner's number, meaningful once the match is over.
    pub winner: u8,
}

/// Position in the board sequence of the cell at `row`, `column`.
pub open spec fn cell_index(row: int, column: int) -> int {
    row * COLUMNS + column
}

impl GameView {
    /// The shape that every reachable state has.
    pub open spec fn wf(self) -> bool {
        &&& self.board.len() == CELLS
        &&& forall|i: int| 0 <= i < CELLS ==> #[trigger] self.board[i] < 3
        &&& self.phase == Phase::AwaitingIdentity ==> self.player == 0
        &&& self.phase != Phase::AwaitingIdentity ==> (self.player == 1 || self.player == 2)
    }

    /// The cell at `row`, `column`.
    pub open spec fn cell(self, row: int, column: int) -> u8 {
        self.board[cell_index(row, column)]
    }

    /// What the turn indicator shows in this state.
    pub open spec fn indicator(self) -> Indicator {
        match self.phase {
            Phase::AwaitingIdentity => Indicator::Waiting,
            Phase::InProgress => if self.my_turn {
                Indicator::YourTurn
            } else {
                Indicator::OpponentsTurn
            },
            Phase::Over => if self.winner == self.player {
                Indicator::YouWon
            } else {
                Indicator::YouLost
            },
        }
    }
}

/// The state after the inbound frame `frame` has been handled.
///
/// The first frame names the local participant (any number but 1 or 2 is
/// ignored); each later one is a placement, ignored when its cell is off the
/// board. Once the match is over nothing changes.
pub open spec fn apply_frame(g: GameView, frame: Seq<u8>) -> GameView {
    let (row, column, outcome) = (frame[0], frame[1], frame[2]);
    match g.phase {
        Phase::AwaitingIdentity => if row == 1 || row == 2 {
            GameView { phase: Phase::InProgress, player: row, my_turn: row == 1, ..g }
        } else {
            g
        },
        Phase::InProgress => if row < ROWS && column < COLUMNS {
            let board = g.board.update(cell_index(row as int, column as int), (outcome % 3) as u8);
            if outcome > 2 {
                GameView { board, phase: Phase::Over, winner: (outcome - 3) as u8, ..g }
            } else {
                GameView { board, my_turn: !g.my_turn, ..g }
            }
        } else {
            g
        },
        Phase::Over => g,
    }
}

/// The column choice that a click at `(x, y)` sends, if any: only while the match
/// is in progress, only on a cell, and only when that cell's column has room left.
pub open spec fn click_choice(g: GameView, x: int, y: int) -> Option<int> {
    if g.phase == Phase::InProgress {
        match cell_at(x, y) {
            Some((column, _)) => if g.cell(0, column) == 0 {
                Some(column)
            } else {
                None
            },
            None => None,
        }
    } else {
        None
    }
}

/// A placement with an outcome of 0, 1 or 2 leaves that value in its cell and the
/// match in progress; one with an outcome of 4 or 5 ends the match, won by
/// participant `outcome - 3`. Every frame keeps the state's shape.
pub proof fn lemma_placement_outcome(g: GameView, frame: Seq<u8>)
    requires
        g.wf(),
        g.phase == Phase::InProgress,
        frame.len() == 3,
        frame[0] < ROWS,
        frame[1] < COLUMNS,
    ensures
        apply_frame(g, frame).wf(),
        frame[2] <= 2 ==> apply_frame(g, frame).cell(frame[0] as int, frame[1] as int) == frame[2]
            && apply_frame(g, frame).phase == Phase::InProgress,
        (frame[2] == 4 || frame[2] == 5) ==> apply_frame(g, frame).phase == Phase::Over
            && apply_frame(g, frame).winner == frame[2] - 3,
{
    lemma_apply_keeps_wf(g, frame);
}

/// Handling a frame keeps the state's shape.
pub proof fn lemma_apply_keeps_wf(g: GameView, frame: Seq<u8>)
    requires
        g.wf(),
        frame.len() == 3,
    ensures
        apply_frame(g, frame).wf(),
{
    let n = apply_frame(g, frame);
    assert forall|i: int| 0 <= i < CELLS implies #[trigger] n.board[i] < 3 by {
        if g.phase == Phase::InProgress && frame[0] < ROWS && frame[1] < COLUMNS {
            let k = cell_index(frame[0] as int, frame[1] as int);
            if i != k {
                assert(n.board[i] == g.board[i]);
            }
        }
    }
}

/// A match between the local participant and the server's other participant.
pub struct Game {
    board: Vec<u8>,
    phase: Phase,
    player: u8,
    my_turn: bool,
    winner: u8,
}

impl View for Game {
    type V = GameView;

    closed spec fn view(&self) -> GameView {
        GameView {
            board: self.board@,
            phase: self.phase,
            player: self.player,
            my_turn: self.my_turn,
            winner: self.winner,
        }
    }
}

impl Game {
    /// An empty board, waiting for the identity.
    pub fn new() -> (r: Game)
        ensures
            r@.wf(),
            r@.phase == Phase::AwaitingIdentity,
            forall|i: int| 0 <= i < CELLS ==> #[trigger] r@.board[i] == 0,
    {
        let mut board: Vec<u8> = Vec::new();
        while board.len() < CELLS
            invariant
                board.len() <= CELLS,
                forall|i: int| 0 <= i < board.len() ==> #[trigger] board@[i] == 0,
            decreases CELLS - board.len(),
        {
            board.push(0);
        }
        Game { board, phase: Phase::AwaitingIdentity, player: 0, my_turn: false, winner: 0 }
    }

    /// Handles one inbound frame from the session: the identity first, then
    /// placements, and nothing once the match is over.
    pub fn apply(&mut self, frame: [u8; 3])
        requires
            old(self)@.wf(),
        ensures
            final(self)@ == apply_frame(old(self)@, frame@),
            final(self)@.wf(),
    {
        proof {
            lemma_apply_keeps_wf(self@, frame@);
        }
        match self.phase {
            Phase::AwaitingIdentity => {
                let id = frame[0];
                if id == 1 || id == 2 {
                    self.player = id;
                    self.phase = Phase::InProgress;
                    self.my_turn = id == 1;
                }
            },
            Phase::InProgress => {
                let p: Placement = decode_frame(frame);
                if p.row < ROWS && p.column < COLUMNS {
                    let i: usize = p.row as usize * 7 + p.column as usize;
                    self.board.set(i, p.outcome % 3);
                    if p.outcome > 2 {
                        self.phase = Phase::Over;
                        self.winner = p.outcome - 3;
                    } else {
                        self.my_turn = !self.my_turn;
                    }
                }
            },
            Phase::Over => {},
        }
    }

    /// The value of the cell at `row`, `column`: 0 when empty, else the owner's number.
    pub fn cell(&self, row: u8, column: u8) -> (r: u8)
        requires
            self@.wf(),
            row < ROWS,
            column < COLUMNS,
        ensures
            r == self@.cell(row as int, column as int),
    {
        self.board[row as usize * 7 + column as usize]
    }

    /// Where the match stands.
    pub fn phase(&self) -> (r: Phase)
        ensures
            r == self@.phase,
    {
        self.phase
    }

    /// The local participant's number, `0` until the identity arrives; it is also
    /// the colour tag of the turn indicator.
    pub fn player(&self) -> (r: u8)
        ensures
            r == self@.player,
    {
        self.player
    }

    /// The winner's number, once the match is over.
    pub fn winner(&self) -> (r: Option<u8>)
        ensures
            r is Some <==> self@.phase == Phase::Over,
            r matches Some(w) ==> w == self@.winner,
    {
        if self.phase == Phase::Over {
            Some(self.winner)
        } else {
            None
        }
    }

    /// What the turn indicator shows.
    pub fn indicator(&self) -> (r: Indicator)
        ensures
            r == self@.indicator(),
    {
        match self.phase {
            Phase::AwaitingIdentity => Indicator::Waiting,
            Phase::InProgress => if self.my_turn {
                Indicator::YourTurn
            } else {
                Indicator::OpponentsTurn
            },
            Phase::Over => if self.winner == self.player {
                Indicator::YouWon
            } else {
                Indicator::YouLost
            },
        }
    }

    /// The column choice to send for a left click at `(x, y)`, if the click is
    /// accepted: `None` outside a match in progress, off the cells, or on a full
    /// column.
    pub fn handle_click(&self, x: i32, y: i32) -> (r: Option<u8>)
        requires
            self@.wf(),
        ensures
            r matches Some(c) ==> click_choice(self@, x as int, y as int) == Some(c as int),
            r is None ==> click_choice(self@, x as int, y as int) is None,
    {
        if self.phase != Phase::InProgress {
            return None;
        }
        match map_to_cell(x, y) {
            Some((column, _)) => {
                if self.board[column as usize] == 0 {
                    Some(column)
                } else {
                    None
                }
            },
            None => None,
        }
    }
}

} // verus!
