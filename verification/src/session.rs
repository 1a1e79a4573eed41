//! The session state machine and the event router.  A session moves from
//! `Idle` through the invite/answer handshake into active play, tracks
//! whose turn it is, and concludes when a move completes a line; `reset`
//! returns it to `Idle` for a fresh game.  The router maps local intents
//! and inbound messages to session transitions, to at most one outbound
//! payload, and to presentation events; it never branches on anything else.

use vstd::prelude::*;
use crate::tictactoe::{
    TicTacToe, Tile, Player, GameError, empty_grid, grid_update, grid_wf, wins_through,
};
use crate::codec::{Message, encode_invite, encode_answer, encode_turn, invite_bytes, answer_bytes, turn_bytes};
use crate::commands::{spec_peer_index, parse_peer_index};

verus! {

/// Who is authorised to place the next mark.  `Unset` exactly while no
/// handshake has completed.
#[derive(Copy, Clone, PartialEq, Eq, Structural, Debug)]
pub enum TurnOwner {
    Unset,
    You,
    Opponent,
}

/// Where the session stands: waiting, in the handshake (on one side or the
/// other), playing, or finished until `reset`.
#[derive(Copy, Clone, PartialEq, Eq, Structural, Debug)]
pub enum SessionPhase {
    Idle,
    Invited { as_initiator: bool },
    Active,
    Concluded,
}

/// Why a protocol action was refused.  `NotInitiated` covers any action
/// attempted while no active game exists.
#[derive(Copy, Clone, PartialEq, Eq, Structural, Debug)]
pub enum SessionError {
    OutOfRange,
    Occupied,
    NotYourTurn,
    NotInitiated,
}

/// A local intent, as resolved from one input line.
#[derive(Debug, PartialEq, Eq)]
pub enum Input {
    ListPeers,
    Turn(usize, usize),
    InitiateGame(String),
    Yes,
    No,
}

/// A presentation callback: what the surrounding program should show.
#[derive(Debug, PartialEq)]
pub enum OutputEvents {
    ListPeers(Vec<String>),
    GameProposal(String),
    StartTrue([[char; 3]; 3]),
    StartFalse,
    TurnResolved([[char; 3]; 3]),
    GameOver,
}

/// Everything one routed event asks the surrounding program to do: at most
/// one payload to publish on the game topic, presentation events in order,
/// and user guidance when a local intent was refused.
pub struct Effects {
    pub publish: Option<Vec<u8>>,
    pub events: Vec<OutputEvents>,
    pub error: Option<SessionError>,
}

/// The rendered glyphs agree with the grid cell by cell.
pub open spec fn grid_chars(s: [[char; 3]; 3], g: Seq<Seq<Tile>>) -> bool {
    forall|r: int, c: int| 0 <= r < 3 && 0 <= c < 3 ==> s@[r]@[c] == g[r][c].spec_char()
}

/// Two string lists with the same texts.
pub open spec fn same_strings(a: Seq<String>, b: Seq<String>) -> bool {
    a.len() == b.len() && (forall|i: int| 0 <= i < a.len() ==> (#[trigger] a[i])@ == b[i]@)
}

/// The session one game session starts from and returns to.
pub open spec fn is_fresh(s: GameSession) -> bool {
    &&& s.spec_phase() is Idle
    &&& s.spec_turn() is Unset
    &&& s.spec_opponent() == Seq::<char>::empty()
    &&& s.grid() == empty_grid()
    &&& s.spec_outcome() == Player::Noone
}

/// One two-party game session: the opponent's identifier, the board, the
/// phase, and the turn owner.
pub struct GameSession {
    opponent_id: String,
    game: TicTacToe,
    phase: SessionPhase,
    turn_owner: TurnOwner,
}

impl GameSession {
    pub closed spec fn spec_phase(self) -> SessionPhase {
        self.phase
    }

    pub closed spec fn spec_turn(self) -> TurnOwner {
        self.turn_owner
    }

    pub closed spec fn spec_opponent(self) -> Seq<char> {
        self.opponent_id@
    }

    pub closed spec fn grid(self) -> Seq<Seq<Tile>> {
        self.game.grid()
    }

    /// The recorded outcome: `Noone` until a game concludes.
    pub closed spec fn spec_outcome(self) -> Player {
        self.game.spec_winner()
    }

    /// The session invariant: the turn owner is unset exactly until the
    /// handshake completes, and an outcome is recorded exactly in
    /// `Concluded`.
    pub open spec fn wf(self) -> bool {
        &&& (self.spec_turn() is Unset) <==> (self.spec_phase() is Idle || self.spec_phase()
            is Invited)
        &&& (self.spec_phase() is Concluded) <==> (self.spec_outcome() != Player::Noone)
    }

    /// A fresh session.
    pub fn new() -> (s: GameSession)
        ensures
            s.wf(),
            is_fresh(s),
    {
        GameSession {
            opponent_id: String::new(),
            game: TicTacToe::new(),
            phase: SessionPhase::Idle,
            turn_owner: TurnOwner::Unset,
        }
    }

    /// Returns the session to `Idle`: the opponent, the turn owner, the
    /// outcome, and the board are all cleared.
    pub fn reset(&mut self)
        ensures
            final(self).wf(),
            is_fresh(*final(self)),
    {
        self.game.reset();
        self.opponent_id = String::new();
        self.phase = SessionPhase::Idle;
        self.turn_owner = TurnOwner::Unset;
    }

    /// Starts the handshake with the chosen peer.  Meaningful only from
    /// `Idle`, where it records the opponent, moves to `Invited` as the
    /// initiator, and hands back the invite to send; from any other phase
    /// nothing changes and nothing is sent.
    pub fn initiate(&mut self, opponent_id: String) -> (m: Option<Message>)
        requires
            old(self).wf(),
        ensures
            final(self).wf(),
            if old(self).spec_phase() is Idle {
                &&& (m matches Some(msg) && msg matches Message::Invite { sender } && sender@
                    == opponent_id@)
                &&& final(self).spec_phase() == (SessionPhase::Invited { as_initiator: true })
                &&& final(self).spec_opponent() == opponent_id@
                &&& final(self).spec_turn() is Unset
                &&& final(self).grid() == old(self).grid()
                &&& final(self).spec_outcome() == old(self).spec_outcome()
            } else {
                m is None && *final(self) == *old(self)
            },
    {
        match self.phase {
            SessionPhase::Idle => {
                self.opponent_id = opponent_id.clone();
                self.phase = SessionPhase::Invited { as_initiator: true };
                Some(Message::Invite { sender: opponent_id })
            },
            _ => None,
        }
    }

    /// Applies an inbound invite.  It is acted on only when it is addressed
    /// to this participant and the session is `Idle`: then the session
    /// moves to `Invited` as the invitee and a proposal is to be surfaced.
    /// An invite addressed to anyone else, or arriving in any other phase,
    /// changes nothing.
    pub fn receive_invite(&mut self, target: &String, local_id: &String) -> (proposal: bool)
        requires
            old(self).wf(),
        ensures
            final(self).wf(),
            if old(self).spec_phase() is Idle && target@ == local_id@ {
                &&& proposal
                &&& final(self).spec_phase() == (SessionPhase::Invited { as_initiator: false })
                &&& final(self).spec_opponent() == target@
                &&& final(self).spec_turn() is Unset
                &&& final(self).grid() == old(self).grid()
                &&& final(self).spec_outcome() == old(self).spec_outcome()
            } else {
                !proposal && *final(self) == *old(self)
            },
    {
        let addressed = match self.phase {
            SessionPhase::Idle => *target == *local_id,
            _ => false,
        };
        if addressed {
            self.opponent_id = target.clone();
            self.phase = SessionPhase::Invited { as_initiator: false };
            true
        } else {
            false
        }
    }

    /// Answers a received invite.  Meaningful only from `Invited` as the
    /// invitee: the answer to send is handed back, and on accepting, the
    /// session enters active play with the initiator to move first; on
    /// declining it returns to `Idle`.
    pub fn answer(&mut self, accept: bool) -> (m: Option<Message>)
        requires
            old(self).wf(),
        ensures
            final(self).wf(),
            if old(self).spec_phase() == (SessionPhase::Invited { as_initiator: false }) {
                &&& (m matches Some(msg) && msg matches Message::Answer { accept: a } && a
                    == accept)
                &&& final(self).grid() == old(self).grid()
                &&& final(self).spec_outcome() == old(self).spec_outcome()
                &&& if accept {
                    &&& final(self).spec_phase() is Active
                    &&& final(self).spec_turn() is Opponent
                    &&& final(self).spec_opponent() == old(self).spec_opponent()
                } else {
                    &&& final(self).spec_phase() is Idle
                    &&& final(self).spec_turn() is Unset
                    &&& final(self).spec_opponent() == Seq::<char>::empty()
                }
            } else {
                m is None && *final(self) == *old(self)
            },
    {
        match self.phase {
            SessionPhase::Invited { as_initiator: false } => {
                if accept {
                    self.phase = SessionPhase::Active;
                    self.turn_owner = TurnOwner::Opponent;
                } else {
                    self.phase = SessionPhase::Idle;
                    self.turn_owner = TurnOwner::Unset;
                    self.opponent_id = String::new();
                }
                Some(Message::Answer { accept })
            },
            _ => None,
        }
    }

    /// Applies an inbound answer.  Meaningful only from `Invited` as the
    /// initiator: on acceptance the session enters active play with this
    /// participant to move first; on refusal it returns to `Idle`.  In any
    /// other phase the answer is ignored.
    pub fn receive_answer(&mut self, accept: bool) -> (acted: bool)
        requires
            old(self).wf(),
        ensures
            final(self).wf(),
            if old(self).spec_phase() == (SessionPhase::Invited { as_initiator: true }) {
                &&& acted
                &&& final(self).grid() == old(self).grid()
                &&& final(self).spec_outcome() == old(self).spec_outcome()
                &&& if accept {
                    &&& final(self).spec_phase() is Active
                    &&& final(self).spec_turn() is You
                    &&& final(self).spec_opponent() == old(self).spec_opponent()
                } else {
                    &&& final(self).spec_phase() is Idle
                    &&& final(self).spec_turn() is Unset
                    &&& final(self).spec_opponent() == Seq::<char>::empty()
                }
            } else {
                !acted && *final(self) == *old(self)
            },
    {
        match self.phase {
            SessionPhase::Invited { as_initiator: true } => {
                if accept {
                    self.phase = SessionPhase::Active;
                    self.turn_owner = TurnOwner::You;
                } else {
                    self.phase = SessionPhase::Idle;
                    self.turn_owner = TurnOwner::Unset;
                    self.opponent_id = String::new();
                }
                true
            },
            _ => false,
        }
    }

    /// Places this participant's mark.  On success the turn passes to the
    /// opponent, the turn message to send is handed back, and a winning
    /// move concludes the session.
    pub fn make_move(&mut self, x: usize, y: usize) -> (r: Result<Message, SessionError>)
        requires
            old(self).wf(),
        ensures
            final(self).wf(),
            make_move_post(*old(self), *final(self), x as int, y as int, r),
    {
        match self.phase {
            SessionPhase::Active => {},
            _ => {
                return Err(SessionError::NotInitiated);
            },
        }
        match self.turn_owner {
            TurnOwner::You => {},
            _ => {
                return Err(SessionError::NotYourTurn);
            },
        }
        match self.game.make_my_turn(x, y) {
            Ok(()) => {
                self.turn_owner = TurnOwner::Opponent;
                if self.game.am_i_winner() {
                    self.phase = SessionPhase::Concluded;
                }
                Ok(Message::Turn { x, y })
            },
            Err(GameError::InvalidValue) => Err(SessionError::OutOfRange),
            Err(GameError::OccupiedField) => Err(SessionError::Occupied),
        }
    }

    /// Applies the opponent's inbound move.  It fails closed — ignored,
    /// not an error — unless the session is active, it is the opponent's
    /// turn, and the cell is a free one on the board; turn legality, not
    /// delivery order, is what keeps play consistent.  On success the turn
    /// passes to this participant, and a winning move concludes the
    /// session.
    pub fn receive_move(&mut self, x: usize, y: usize) -> (applied: bool)
        requires
            old(self).wf(),
        ensures
            final(self).wf(),
            receive_move_post(*old(self), *final(self), x as int, y as int, applied),
    {
        match self.phase {
            SessionPhase::Active => {},
            _ => {
                return false;
            },
        }
        match self.turn_owner {
            TurnOwner::Opponent => {},
            _ => {
                return false;
            },
        }
        match self.game.make_opponent_turn(x, y) {
            Ok(()) => {
                self.turn_owner = TurnOwner::You;
                if self.game.is_opponent_winner() {
                    self.phase = SessionPhase::Concluded;
                }
                true
            },
            Err(_) => false,
        }
    }

    /// Whether a handshake has completed.
    pub fn is_initiated(&self) -> (b: bool)
        ensures
            b == !(self.spec_turn() is Unset),
    {
        !matches!(self.turn_owner, TurnOwner::Unset)
    }

    /// Whether this participant is authorised to move.
    pub fn is_your_turn(&self) -> (b: bool)
        ensures
            b == (self.spec_turn() is You),
    {
        matches!(self.turn_owner, TurnOwner::You)
    }

    pub fn phase(&self) -> (p: SessionPhase)
        ensures
            p == self.spec_phase(),
    {
        self.phase
    }

    pub fn turn(&self) -> (t: TurnOwner)
        ensures
            t == self.spec_turn(),
    {
        self.turn_owner
    }

    pub fn outcome(&self) -> (p: Player)
        ensures
            p == self.spec_outcome(),
    {
        if self.game.am_i_winner() {
            Player::You
        } else if self.game.is_opponent_winner() {
            Player::Opponent
        } else {
            Player::Noone
        }
    }

    pub fn opponent_id(&self) -> (s: &String)
        ensures
            s@ == self.spec_opponent(),
    {
        &self.opponent_id
    }

    /// The board as displayable glyphs.
    pub fn get_state(&self) -> (s: [[char; 3]; 3])
        ensures
            grid_chars(s, self.grid()),
    {
        self.game.get_state()
    }
}

/// Which refusal, if any, a local move meets: the session must be active,
/// it must be this participant's turn, and the coordinates must name a free
/// cell on the board.
pub open spec fn move_error(pre: GameSession, x: int, y: int) -> Option<SessionError> {
    if !(pre.spec_phase() is Active) {
        Some(SessionError::NotInitiated)
    } else if !(pre.spec_turn() is You) {
        Some(SessionError::NotYourTurn)
    } else if !(0 <= x < 3 && 0 <= y < 3) {
        Some(SessionError::OutOfRange)
    } else if pre.grid()[x][y] != Tile::Empty {
        Some(SessionError::Occupied)
    } else {
        None
    }
}

/// What `make_move` does: a refused move returns its error and changes
/// nothing at all; an accepted one writes this participant's tile, passes
/// the turn, hands back the turn message, and concludes the session with
/// this participant as winner exactly when the move completed a line.
pub open spec fn make_move_post(
    pre: GameSession,
    post: GameSession,
    x: int,
    y: int,
    r: Result<Message, SessionError>,
) -> bool {
    match move_error(pre, x, y) {
        Some(e) => r == Err::<Message, SessionError>(e) && post == pre,
        None => {
            let g2 = grid_update(pre.grid(), x, y, Player::You.spec_tile());
            let won = wins_through(g2, Player::You.spec_tile(), x, y);
            &&& (r matches Ok(m) && m matches Message::Turn { x: mx, y: my } && mx as int == x
                && my as int == y)
            &&& post.grid() == g2
            &&& post.spec_turn() is Opponent
            &&& post.spec_opponent() == pre.spec_opponent()
            &&& post.spec_phase() == (if won {
                SessionPhase::Concluded
            } else {
                SessionPhase::Active
            })
            &&& post.spec_outcome() == (if won {
                Player::You
            } else {
                pre.spec_outcome()
            })
        },
    }
}

/// When an inbound move is applied at all.
pub open spec fn remote_move_allowed(pre: GameSession, x: int, y: int) -> bool {
    &&& pre.spec_phase() is Active
    &&& pre.spec_turn() is Opponent
    &&& 0 <= x < 3 && 0 <= y < 3
    &&& pre.grid()[x][y] == Tile::Empty
}

/// No outbound payload, no presentation events, no guidance.
pub open spec fn quiet(eff: Effects) -> bool {
    eff.publish is None && eff.events@.len() == 0 && eff.error is None
}

/// What an accepted local move leaves behind: a winning move concludes the
/// game and the session is put back to fresh at once, as one process plays
/// consecutive games over the same session; otherwise play goes on with
/// the opponent to move.
pub open spec fn local_move_result(pre: GameSession, post: GameSession, x: int, y: int) -> bool {
    let g2 = grid_update(pre.grid(), x, y, Player::You.spec_tile());
    let won = wins_through(g2, Player::You.spec_tile(), x, y);
    if won {
        is_fresh(post)
    } else {
        &&& post.grid() == g2
        &&& post.spec_turn() is Opponent
        &&& post.spec_phase() is Active
        &&& post.spec_opponent() == pre.spec_opponent()
        &&& post.spec_outcome() == pre.spec_outcome()
    }
}

/// What routing one local intent does, case by case.
pub open spec fn handle_input_post(
    pre: GameSession,
    post: GameSession,
    input: Input,
    peers: Seq<String>,
    eff: Effects,
) -> bool {
    match input {
        Input::ListPeers => {
            &&& post == pre
            &&& eff.publish is None
            &&& eff.error is None
            &&& eff.events@.len() == 1
            &&& (eff.events@[0] matches OutputEvents::ListPeers(v) && same_strings(v@, peers))
        },
        Input::Turn(x, y) => match move_error(pre, x as int, y as int) {
            None => {
                &&& (eff.publish matches Some(p) && p@ == turn_bytes(x as int, y as int))
                &&& eff.events@.len() == 0
                &&& eff.error is None
                &&& local_move_result(pre, post, x as int, y as int)
            },
            Some(e) => {
                &&& post == pre
                &&& eff.publish is None
                &&& eff.events@.len() == 0
                &&& eff.error == Some(e)
            },
        },
        Input::InitiateGame(s) => match spec_peer_index(s@, peers.len() as int) {
            Some(i) => if pre.spec_phase() is Idle {
                &&& post.spec_phase() == (SessionPhase::Invited { as_initiator: true })
                &&& post.spec_opponent() == peers[i]@
                &&& post.spec_turn() is Unset
                &&& post.grid() == pre.grid()
                &&& post.spec_outcome() == pre.spec_outcome()
                &&& (eff.publish matches Some(p) && p@ == invite_bytes(peers[i]@))
                &&& eff.events@.len() == 0
                &&& eff.error is None
            } else {
                post == pre && quiet(eff)
            },
            None => post == pre && quiet(eff),
        },
        Input::Yes => if pre.spec_phase() == (SessionPhase::Invited { as_initiator: false }) {
            &&& post.spec_phase() is Active
            &&& post.spec_turn() is Opponent
            &&& post.spec_opponent() == pre.spec_opponent()
            &&& post.grid() == pre.grid()
            &&& post.spec_outcome() == pre.spec_outcome()
            &&& (eff.publish matches Some(p) && p@ == answer_bytes(true))
            &&& eff.events@.len() == 1
            &&& (eff.events@[0] matches OutputEvents::StartTrue(g) && grid_chars(g, post.grid()))
            &&& eff.error is None
        } else {
            &&& post == pre
            &&& eff.publish is None
            &&& eff.events@.len() == 0
            &&& eff.error == Some(SessionError::NotInitiated)
        },
        Input::No => if pre.spec_phase() == (SessionPhase::Invited { as_initiator: false }) {
            &&& post.spec_phase() is Idle
            &&& post.spec_turn() is Unset
            &&& post.spec_opponent() == Seq::<char>::empty()
            &&& post.grid() == pre.grid()
            &&& post.spec_outcome() == pre.spec_outcome()
            &&& (eff.publish matches Some(p) && p@ == answer_bytes(false))
            &&& eff.events@.len() == 0
            &&& eff.error is None
        } else {
            &&& post == pre
            &&& eff.publish is None
            &&& eff.events@.len() == 0
            &&& eff.error == Some(SessionError::NotInitiated)
        },
    }
}

fn clone_strings(v: &Vec<String>) -> (r: Vec<String>)
    ensures
        same_strings(r@, v@),
{
    let mut r: Vec<String> = Vec::new();
    let mut i: usize = 0;
    while i < v.len()
        invariant
            i <= v@.len(),
            r@.len() == i,
            forall|j: int| 0 <= j < i ==> (#[trigger] r@[j])@ == v@[j]@,
        decreases v@.len() - i,
    {
        r.push(v[i].clone());
        i += 1;
    }
    r
}

/// Routes one local intent: applies the session transition it names, and
/// hands back what to publish and what to show.  Refused moves and answers
/// report their error as guidance; a malformed or out-of-range peer index,
/// or an initiation while a session already stands, is dropped without
/// effect.
pub fn handle_input(session: &mut GameSession, input: Input, peers: &Vec<String>) -> (eff: Effects)
    requires
        old(session).wf(),
    ensures
        final(session).wf(),
        handle_input_post(*old(session), *final(session), input, peers@, eff),
{
    match input {
        Input::ListPeers => {
            let mut events: Vec<OutputEvents> = Vec::new();
            events.push(OutputEvents::ListPeers(clone_strings(peers)));
            Effects { publish: None, events, error: None }
        },
        Input::Turn(x, y) => match session.make_move(x, y) {
            Ok(_) => {
                let payload = encode_turn(x, y);
                if session.game.am_i_winner() {
                    session.reset();
                }
                Effects { publish: Some(payload), events: Vec::new(), error: None }
            },
            Err(e) => Effects { publish: None, events: Vec::new(), error: Some(e) },
        },
        Input::InitiateGame(s) => match parse_peer_index(s.as_str(), peers.len()) {
            Some(i) => {
                if matches!(session.phase, SessionPhase::Idle) {
                    let m = session.initiate(peers[i].clone());
                    match m {
                        Some(Message::Invite { sender }) => Effects {
                            publish: Some(encode_invite(sender.as_str())),
                            events: Vec::new(),
                            error: None,
                        },
                        _ => {
                            // initiating from `Idle` always hands back an invite
                            proof {
                                assert(false);
                            }
                            Effects { publish: None, events: Vec::new(), error: None }
                        },
                    }
                } else {
                    Effects { publish: None, events: Vec::new(), error: None }
                }
            },
            None => Effects { publish: None, events: Vec::new(), error: None },
        },
        Input::Yes => match session.answer(true) {
            Some(_) => {
                let mut events: Vec<OutputEvents> = Vec::new();
                events.push(OutputEvents::StartTrue(session.get_state()));
                Effects { publish: Some(encode_answer(true)), events, error: None }
            },
            None => Effects {
                publish: None,
                events: Vec::new(),
                error: Some(SessionError::NotInitiated),
            },
        },
        Input::No => match session.answer(false) {
            Some(_) => Effects {
                publish: Some(encode_answer(false)),
                events: Vec::new(),
                error: None,
            },
            None => Effects {
                publish: None,
                events: Vec::new(),
                error: Some(SessionError::NotInitiated),
            },
        },
    }
}

/// What routing one inbound message does, case by case.  Messages never
/// publish and never carry guidance: anything inapplicable is ignored.
pub open spec fn handle_message_post(
    pre: GameSession,
    post: GameSession,
    msg: Message,
    local: Seq<char>,
    eff: Effects,
) -> bool {
    &&& eff.publish is None
    &&& eff.error is None
    &&& match msg {
        Message::Invite { sender } => if pre.spec_phase() is Idle && sender@ == local {
            &&& post.spec_phase() == (SessionPhase::Invited { as_initiator: false })
            &&& post.spec_opponent() == sender@
            &&& post.spec_turn() is Unset
            &&& post.grid() == pre.grid()
            &&& post.spec_outcome() == pre.spec_outcome()
            &&& eff.events@.len() == 1
            &&& (eff.events@[0] matches OutputEvents::GameProposal(p) && p@ == sender@)
        } else {
            post == pre && eff.events@.len() == 0
        },
        Message::Answer { accept } => if pre.spec_phase() == (SessionPhase::Invited {
            as_initiator: true,
        }) {
            &&& post.grid() == pre.grid()
            &&& post.spec_outcome() == pre.spec_outcome()
            &&& if accept {
                &&& post.spec_phase() is Active
                &&& post.spec_turn() is You
                &&& post.spec_opponent() == pre.spec_opponent()
                &&& eff.events@.len() == 1
                &&& (eff.events@[0] matches OutputEvents::StartTrue(g) && grid_chars(
                    g,
                    post.grid(),
                ))
            } else {
                &&& post.spec_phase() is Idle
                &&& post.spec_turn() is Unset
                &&& post.spec_opponent() == Seq::<char>::empty()
                &&& eff.events@.len() == 1
                &&& eff.events@[0] is StartFalse
            }
        } else {
            post == pre && eff.events@.len() == 0
        },
        Message::Turn { x, y } => if remote_move_allowed(pre, x as int, y as int) {
            let g2 = grid_update(pre.grid(), x as int, y as int, Player::Opponent.spec_tile());
            let won = wins_through(g2, Player::Opponent.spec_tile(), x as int, y as int);
            &&& (eff.events@[0] matches OutputEvents::TurnResolved(g) && grid_chars(g, g2))
            &&& if won {
                &&& is_fresh(post)
                &&& eff.events@.len() == 2
                &&& eff.events@[1] is GameOver
            } else {
                &&& post.grid() == g2
                &&& post.spec_turn() is You
                &&& post.spec_phase() is Active
                &&& post.spec_opponent() == pre.spec_opponent()
                &&& post.spec_outcome() == pre.spec_outcome()
                &&& eff.events@.len() == 1
            }
        } else {
            post == pre && eff.events@.len() == 0
        },
    }
}

/// Routes one decoded inbound message: applies the session transition it
/// names and hands back the presentation events.  An opponent's winning
/// move shows the final board and the game-over notice, then puts the
/// session back to fresh for the next game.
pub fn handle_message(session: &mut GameSession, msg: Message, local_id: &String) -> (eff: Effects)
    requires
        old(session).wf(),
    ensures
        final(session).wf(),
        handle_message_post(*old(session), *final(session), msg, local_id@, eff),
{
    match msg {
        Message::Invite { sender } => {
            let proposal = session.receive_invite(&sender, local_id);
            let mut events: Vec<OutputEvents> = Vec::new();
            if proposal {
                events.push(OutputEvents::GameProposal(sender));
            }
            Effects { publish: None, events, error: None }
        },
        Message::Answer { accept } => {
            let acted = session.receive_answer(accept);
            let mut events: Vec<OutputEvents> = Vec::new();
            if acted {
                if accept {
                    events.push(OutputEvents::StartTrue(session.get_state()));
                } else {
                    events.push(OutputEvents::StartFalse);
                }
            }
            Effects { publish: None, events, error: None }
        },
        Message::Turn { x, y } => {
            let applied = session.receive_move(x, y);
            let mut events: Vec<OutputEvents> = Vec::new();
            if applied {
                events.push(OutputEvents::TurnResolved(session.get_state()));
                if session.game.is_opponent_winner() {
                    events.push(OutputEvents::GameOver);
                    session.reset();
                }
            }
            Effects { publish: None, events, error: None }
        },
    }
}

/// What `receive_move` does: an inapplicable move changes nothing; an
/// applied one writes the opponent's tile, passes the turn back, and
/// concludes the session with the opponent as winner exactly when the move
/// completed a line.
pub open spec fn receive_move_post(
    pre: GameSession,
    post: GameSession,
    x: int,
    y: int,
    applied: bool,
) -> bool {
    if remote_move_allowed(pre, x, y) {
        let g2 = grid_update(pre.grid(), x, y, Player::Opponent.spec_tile());
        let won = wins_through(g2, Player::Opponent.spec_tile(), x, y);
        &&& applied
        &&& post.grid() == g2
        &&& post.spec_turn() is You
        &&& post.spec_opponent() == pre.spec_opponent()
        &&& post.spec_phase() == (if won {
            SessionPhase::Concluded
        } else {
            SessionPhase::Active
        })
        &&& post.spec_outcome() == (if won {
            Player::Opponent
        } else {
            pre.spec_outcome()
        })
    } else {
        !applied && post == pre
    }
}

/// The other turn owner.
pub open spec fn flip_owner(o: TurnOwner) -> TurnOwner {
    match o {
        TurnOwner::You => TurnOwner::Opponent,
        TurnOwner::Opponent => TurnOwner::You,
        TurnOwner::Unset => TurnOwner::Unset,
    }
}

/// The mover a turn owner authorises.
pub open spec fn mover_matches(o: TurnOwner, p: Player) -> bool {
    (p == Player::You && o == TurnOwner::You) || (p == Player::Opponent && o
        == TurnOwner::Opponent)
}

/// A move `(mover, row, col)` is valid when its mover owns the turn and it
/// names a free cell of the board.  This is the same legality `make_move`
/// and `receive_move` enforce, stated over the board model.
pub open spec fn move_allowed(g: Seq<Seq<Tile>>, o: TurnOwner, m: (Player, int, int)) -> bool {
    &&& mover_matches(o, m.0)
    &&& 0 <= m.1 < 3 && 0 <= m.2 < 3
    &&& g[m.1][m.2] == Tile::Empty
}

/// The board after one move.
pub open spec fn play_step(g: Seq<Seq<Tile>>, m: (Player, int, int)) -> Seq<Seq<Tile>> {
    grid_update(g, m.1, m.2, m.0.spec_tile())
}

/// A whole sequence of moves, each valid in the state the previous ones
/// produced, with the turn passing to the other side after every move.
pub open spec fn moves_allowed(g: Seq<Seq<Tile>>, o: TurnOwner, ms: Seq<(Player, int, int)>) -> bool
    decreases ms.len(),
{
    ms.len() == 0 || (move_allowed(g, o, ms[0]) && moves_allowed(
        play_step(g, ms[0]),
        flip_owner(o),
        ms.drop_first(),
    ))
}

/// The board a sequence of moves leaves behind.
pub open spec fn grid_after(g: Seq<Seq<Tile>>, ms: Seq<(Player, int, int)>) -> Seq<Seq<Tile>>
    decreases ms.len(),
{
    if ms.len() == 0 {
        g
    } else {
        grid_after(play_step(g, ms[0]), ms.drop_first())
    }
}

/// The turn owner a sequence of moves leaves behind.
pub open spec fn owner_after(o: TurnOwner, ms: Seq<(Player, int, int)>) -> TurnOwner
    decreases ms.len(),
{
    if ms.len() == 0 {
        o
    } else {
        owner_after(flip_owner(o), ms.drop_first())
    }
}

proof fn lemma_owner_after_snoc(o: TurnOwner, s: Seq<(Player, int, int)>, m: (Player, int, int))
    ensures
        owner_after(o, s.push(m)) == flip_owner(owner_after(o, s)),
    decreases s.len(),
{
    if s.len() == 0 {
        assert(s.push(m).drop_first() =~= Seq::<(Player, int, int)>::empty());
        assert(owner_after(flip_owner(o), Seq::<(Player, int, int)>::empty()) == flip_owner(o));
    } else {
        assert(s.push(m).drop_first() =~= s.drop_first().push(m));
        lemma_owner_after_snoc(flip_owner(o), s.drop_first(), m);
    }
}

/// Law: in any sequence of valid moves the turn owner strictly alternates:
/// before every accepted move it authorises exactly that move's mover, and
/// after the move it has passed to the other side.
pub proof fn lemma_turn_owner_alternates(
    g: Seq<Seq<Tile>>,
    o: TurnOwner,
    ms: Seq<(Player, int, int)>,
    i: int,
)
    requires
        moves_allowed(g, o, ms),
        0 <= i < ms.len(),
    ensures
        mover_matches(owner_after(o, ms.take(i)), ms[i].0),
        owner_after(o, ms.take(i + 1)) == flip_owner(owner_after(o, ms.take(i))),
    decreases ms.len(),
{
    assert(ms.take(i + 1) =~= ms.take(i).push(ms[i]));
    lemma_owner_after_snoc(o, ms.take(i), ms[i]);
    if i == 0 {
        assert(ms.take(0) =~= Seq::<(Player, int, int)>::empty());
        assert(move_allowed(g, o, ms[0]));
    } else {
        let ms1 = ms.drop_first();
        lemma_turn_owner_alternates(play_step(g, ms[0]), flip_owner(o), ms1, i - 1);
        assert(ms1.take(i - 1) =~= ms.take(i).drop_first());
        assert(ms1[i - 1] == ms[i]);
        assert(ms.take(i).len() != 0 && ms.take(i)[0] == ms[0]);
    }
}

/// Law: in any sequence of valid moves two consecutive accepted moves are
/// always made by different players.
pub proof fn lemma_turns_alternate(
    g: Seq<Seq<Tile>>,
    o: TurnOwner,
    ms: Seq<(Player, int, int)>,
    i: int,
)
    requires
        moves_allowed(g, o, ms),
        0 <= i,
        i + 1 < ms.len(),
    ensures
        ms[i].0 != ms[i + 1].0,
    decreases ms.len(),
{
    if i == 0 {
        let ms1 = ms.drop_first();
        assert(move_allowed(g, o, ms[0]));
        assert(moves_allowed(play_step(g, ms[0]), flip_owner(o), ms1));
        assert(move_allowed(play_step(g, ms[0]), flip_owner(o), ms1[0]));
        assert(ms1[0] == ms[1]);
    } else {
        lemma_turns_alternate(play_step(g, ms[0]), flip_owner(o), ms.drop_first(), i - 1);
        assert(ms.drop_first()[i - 1] == ms[i]);
        assert(ms.drop_first()[i] == ms[i + 1]);
    }
}

/// Law: in any sequence of valid moves no cell is ever overwritten — a
/// cell holding a mark holds that same mark after every later move.
pub proof fn lemma_no_overwrite(
    g: Seq<Seq<Tile>>,
    o: TurnOwner,
    ms: Seq<(Player, int, int)>,
    r: int,
    c: int,
)
    requires
        grid_wf(g),
        moves_allowed(g, o, ms),
        0 <= r < 3,
        0 <= c < 3,
        g[r][c] != Tile::Empty,
    ensures
        grid_after(g, ms)[r][c] == g[r][c],
    decreases ms.len(),
{
    if ms.len() > 0 {
        let m = ms[0];
        let g1 = play_step(g, m);
        assert(grid_wf(g1));
        assert(g1[r][c] == g[r][c]);
        lemma_no_overwrite(g1, flip_owner(o), ms.drop_first(), r, c);
    }
}

} // verus!

