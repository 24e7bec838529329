//! Global shortcuts, including the Ctrl+X leader chords.
use vstd::prelude::*;

use crate::app::Action;
use crate::event::{KeyEvent, Modifiers, Scancode};

verus! {

/// Ticks after which a pending Ctrl+X leader is dropped.
pub const LEADER_TIMEOUT_TICKS: u64 = 40;

/// What a key press resolves to, as a value the contracts can compare.
pub enum ChordOutcome {
    Nothing,
    Quit,
    OpenPalette,
    Command(Seq<char>),
    Terminal,
}

/// `action` is the executable form of `outcome`.
pub open spec fn outcome_matches(action: Option<Action>, outcome: ChordOutcome) -> bool {
    match outcome {
        ChordOutcome::Nothing => action is None,
        ChordOutcome::Quit => action == Some(Action::Quit),
        ChordOutcome::OpenPalette => action == Some(Action::OpenPalette),
        ChordOutcome::Command(c) => action matches Some(Action::ExecuteCommand(s)) && s@ == c,
        ChordOutcome::Terminal => action matches Some(Action::OpenTerminal(s)) && s@.len() == 0,
    }
}

/// The leader after dropping it if it has timed out at `tick`.
pub open spec fn leader_after_timeout(leader: Option<u64>, tick: u64) -> Option<u64> {
    match leader {
        Some(lt) => if tick >= lt && tick - lt >= LEADER_TIMEOUT_TICKS {
            None
        } else {
            Some(lt)
        },
        None => None,
    }
}

/// `c` is `lower` or its uppercase form `upper`.
pub open spec fn is_letter(c: char, lower: char, upper: char) -> bool {
    c == lower || c == upper
}

/// What a key press does when no leader is pending.
pub open spec fn no_leader_step(key: KeyEvent, tick: u64) -> (Option<u64>, ChordOutcome) {
    if key.modifiers.ctrl {
        match key.scancode {
            Scancode::Char(c) => if is_letter(c, 'c', 'C') {
                (None, ChordOutcome::Quit)
            } else if is_letter(c, 'x', 'X') {
                (Some(tick), ChordOutcome::Nothing)
            } else if is_letter(c, 'p', 'P') {
                (None, ChordOutcome::OpenPalette)
            } else {
                (None, ChordOutcome::Nothing)
            },
            _ => (None, ChordOutcome::Nothing),
        }
    } else {
        (None, ChordOutcome::Nothing)
    }
}

/// The chord completed by a plain key pressed after the leader.
pub open spec fn leader_outcome(scancode: Scancode) -> ChordOutcome {
    match scancode {
        Scancode::Char(c) => if is_letter(c, 'q', 'Q') {
            ChordOutcome::Quit
        } else if is_letter(c, 'l', 'L') {
            ChordOutcome::Command("/sessions"@)
        } else if is_letter(c, 'm', 'M') {
            ChordOutcome::Command("/models"@)
        } else if is_letter(c, 'h', 'H') {
            ChordOutcome::Command("/help"@)
        } else if is_letter(c, 'n', 'N') {
            ChordOutcome::Command("/new"@)
        } else if is_letter(c, 't', 'T') {
            ChordOutcome::Terminal
        } else if is_letter(c, 'd', 'D') {
            ChordOutcome::Command("/diagnostics"@)
        } else if is_letter(c, 'o', 'O') {
            ChordOutcome::Command("/todos"@)
        } else {
            ChordOutcome::Nothing
        },
        _ => ChordOutcome::Nothing,
    }
}

/// The new leader and the outcome of a key press at `tick`.
pub open spec fn chord_step(leader: Option<u64>, key: KeyEvent, tick: u64) -> (
    Option<u64>,
    ChordOutcome,
) {
    let l = leader_after_timeout(leader, tick);
    match l {
        None => no_leader_step(key, tick),
        Some(lt) => if !key.modifiers.is_none() {
            (Some(lt), ChordOutcome::Nothing)
        } else {
            (None, leader_outcome(key.scancode))
        },
    }
}

/// Tracks the Ctrl+X leader and turns key presses into global actions.
#[derive(Debug, Clone, PartialEq, Eq, Structural)]
pub struct KeyChord {
    leader_tick: Option<u64>,
}

impl View for KeyChord {
    type V = Option<u64>;

    /// The tick at which the pending leader was pressed, if any.
    closed spec fn view(&self) -> Option<u64> {
        self.leader_tick
    }
}

impl KeyChord {
    /// A chord tracker with no leader pending.
    pub fn new() -> (r: KeyChord)
        ensures
            r@ is None,
    {
        KeyChord { leader_tick: None }
    }

    /// Handles a key press at `tick` and returns the global action it completes.
    pub fn handle(&mut self, key: &KeyEvent, tick: u64) -> (r: Option<Action>)
        ensures
            final(self)@ == chord_step(old(self)@, *key, tick).0,
            outcome_matches(r, chord_step(old(self)@, *key, tick).1),
    {
        self.check_timeout(tick);
        match self.leader_tick {
            None => self.handle_no_leader(key, tick),
            Some(_) => self.handle_with_leader(key),
        }
    }

    /// Advances time; drops the leader once it has timed out. Never yields an action.
    pub fn tick(&mut self, tick: u64) -> (r: Option<Action>)
        ensures
            final(self)@ == leader_after_timeout(old(self)@, tick),
            r is None,
    {
        self.check_timeout(tick);
        None
    }

    /// Whether a Ctrl+X leader is pending.
    pub fn is_leader_active(&self) -> (r: bool)
        ensures
            r == (self@ is Some),
    {
        self.leader_tick.is_some()
    }

    fn check_timeout(&mut self, tick: u64)
        ensures
            final(self)@ == leader_after_timeout(old(self)@, tick),
    {
        if let Some(lt) = self.leader_tick {
            if tick.saturating_sub(lt) >= LEADER_TIMEOUT_TICKS {
                self.leader_tick = None;
            }
        }
    }

    fn handle_no_leader(&mut self, key: &KeyEvent, tick: u64) -> (r: Option<Action>)
        requires
            old(self)@ is None,
        ensures
            final(self)@ == no_leader_step(*key, tick).0,
            outcome_matches(r, no_leader_step(*key, tick).1),
    {
        if key.modifiers.ctrl {
            match key.scancode {
                Scancode::Char('c') | Scancode::Char('C') => return Some(Action::Quit),
                Scancode::Char('x') | Scancode::Char('X') => {
                    self.leader_tick = Some(tick);
                    return None;
                },
                Scancode::Char('p') | Scancode::Char('P') => {
                    return Some(Action::OpenPalette);
                },
                _ => {},
            }
        }
        None
    }

    fn handle_with_leader(&mut self, key: &KeyEvent) -> (r: Option<Action>)
        requires
            old(self)@ is Some,
        ensures
            !key.modifiers.is_none() ==> final(self)@ == old(self)@ && r is None,
            key.modifiers.is_none() ==> final(self)@ is None && outcome_matches(
                r,
                leader_outcome(key.scancode),
            ),
    {
        let m = key.modifiers;
        if m.shift || m.ctrl || m.alt || m.meta {
            return None;
        }
        self.leader_tick = None;
        match key.scancode {
            Scancode::Char('q') | Scancode::Char('Q') => Some(Action::Quit),
            Scancode::Char('l') | Scancode::Char('L') => Some(
                Action::ExecuteCommand("/sessions".to_owned()),
            ),
            Scancode::Char('m') | Scancode::Char('M') => Some(
                Action::ExecuteCommand("/models".to_owned()),
            ),
            Scancode::Char('h') | Scancode::Char('H') => Some(
                Action::ExecuteCommand("/help".to_owned()),
            ),
            Scancode::Char('n') | Scancode::Char('N') => Some(
                Action::ExecuteCommand("/new".to_owned()),
            ),
            Scancode::Char('t') | Scancode::Char('T') => Some(Action::OpenTerminal(String::new())),
            Scancode::Char('d') | Scancode::Char('D') => Some(
                Action::ExecuteCommand("/diagnostics".to_owned()),
            ),
            Scancode::Char('o') | Scancode::Char('O') => Some(
                Action::ExecuteCommand("/todos".to_owned()),
            ),
            _ => None,
        }
    }
}

impl Default for KeyChord {
    fn default() -> (r: KeyChord)
        ensures
            r@ is None,
    {
        KeyChord::new()
    }
}

/// Ctrl+C quits at once, whatever the time, when no leader is pending.
pub proof fn law_ctrl_c_quits(key: KeyEvent, tick: u64)
    requires
        key.modifiers.ctrl,
        key.scancode == Scancode::Char('c') || key.scancode == Scancode::Char('C'),
    ensures
        chord_step(None, key, tick) == (None::<u64>, ChordOutcome::Quit),
{
}

/// A leader pressed at tick `t` stays pending through tick `t + 39` and is gone
/// from tick `t + 40` on.
pub proof fn law_leader_lifetime(t: u64, later: u64)
    requires
        t <= later,
    ensures
        later - t < LEADER_TIMEOUT_TICKS ==> leader_after_timeout(Some(t), later) == Some(t),
        later - t >= LEADER_TIMEOUT_TICKS ==> leader_after_timeout(Some(t), later) is None,
{
}

/// While the leader is pending, a key without modifiers always ends leader mode,
/// and a key with a modifier leaves it pending and does nothing.
pub proof fn law_leader_consumes_one_plain_key(leader: u64, key: KeyEvent, tick: u64)
    requires
        leader <= tick,
        tick - leader < LEADER_TIMEOUT_TICKS,
    ensures
        key.modifiers.is_none() ==> chord_step(Some(leader), key, tick).0 is None,
        !key.modifiers.is_none() ==> chord_step(Some(leader), key, tick) == (
            Some(leader),
            ChordOutcome::Nothing,
        ),
{
}

/// Ctrl+X then Q, in time, quits.
pub proof fn law_ctrl_x_q_quits(x: KeyEvent, q: KeyEvent, t0: u64, t1: u64)
    requires
        x.modifiers.ctrl,
        x.scancode == Scancode::Char('x'),
        q.modifiers.is_none(),
        q.scancode == Scancode::Char('q'),
        t0 <= t1,
        t1 - t0 < LEADER_TIMEOUT_TICKS,
    ensures
        chord_step(None, x, t0) == (Some(t0), ChordOutcome::Nothing),
        chord_step(Some(t0), q, t1) == (None::<u64>, ChordOutcome::Quit),
{
}

} // verus!
