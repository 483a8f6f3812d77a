use vstd::prelude::*;
use crate::state::{GameState, TransitionKind};
use crate::table::TransitionTable;

verus! {

/// An accepted change of state; handed out once per change.
#[derive(Clone, Copy, Debug, PartialEq, Eq, Structural)]
pub struct TransitionEvent {
    pub from: GameState,
    pub to: GameState,
}

/// A request for a move that the table does not declare.
#[derive(Clone, Copy, Debug, PartialEq, Eq, Structural)]
pub struct IllegalTransition {
    pub from: GameState,
    pub to: GameState,
}

/// What is pending after a request for `target` while in `current` with
/// `pending` already set: the target where the move is declared, else what was
/// pending before.
pub open spec fn pending_after_request(
    table: TransitionTable,
    current: GameState,
    pending: Option<GameState>,
    target: GameState,
) -> Option<GameState> {
    if table.allows_spec(current, target) {
        Some(target)
    } else {
        pending
    }
}

/// Where a tick leads from `current` with `pending`: to the pending state where
/// it is still a declared move, else to the sole successor of a linear state,
/// else nowhere.
pub open spec fn tick_target(
    table: TransitionTable,
    current: GameState,
    pending: Option<GameState>,
) -> Option<GameState> {
    if pending is Some && table.allows_spec(current, pending->0) {
        pending
    } else if table.kind(current) == TransitionKind::Linear {
        Some(table.successors(current)[0])
    } else {
        None
    }
}

/// The current state after a tick.
pub open spec fn current_after_tick(
    table: TransitionTable,
    current: GameState,
    pending: Option<GameState>,
) -> GameState {
    match tick_target(table, current, pending) {
        Some(next) => next,
        None => current,
    }
}

/// The owner of the current state. Requests are collected during a tick and
/// the last legal one is committed by `advance`.
pub struct RuntimeState {
    table: TransitionTable,
    current_state: GameState,
    pending_state: Option<GameState>,
}

impl RuntimeState {
    pub closed spec fn table_spec(self) -> TransitionTable {
        self.table
    }

    pub closed spec fn current_spec(self) -> GameState {
        self.current_state
    }

    pub closed spec fn pending_spec(self) -> Option<GameState> {
        self.pending_state
    }

    /// The table is valid, the current state is declared in it, and a pending
    /// state is always a declared successor of the current one.
    pub open spec fn wf(self) -> bool {
        &&& self.table_spec().wf()
        &&& self.table_spec().contains(self.current_spec())
        &&& (self.pending_spec() matches Some(p) ==> self.table_spec().allows_spec(
            self.current_spec(),
            p,
        ))
    }

    /// A runtime in the table's initial state, with nothing pending.
    pub fn new(table: TransitionTable) -> (r: RuntimeState)
        requires
            table.wf(),
        ensures
            r.wf(),
            r.table_spec() == table,
            r.current_spec() == table.initial_spec(),
            r.pending_spec() is None,
    {
        let initial = table.initial();
        RuntimeState { table, current_state: initial, pending_state: None }
    }

    /// The active state.
    pub fn current(&self) -> (r: GameState)
        ensures
            r == self.current_spec(),
    {
        self.current_state
    }

    /// The state requested for the next tick, if any.
    pub fn pending(&self) -> (r: Option<GameState>)
        ensures
            r == self.pending_spec(),
    {
        self.pending_state
    }

    /// The table the runtime checks moves against.
    pub fn table(&self) -> (r: &TransitionTable)
        ensures
            *r == self.table_spec(),
    {
        &self.table
    }

    /// Asks for a move to `target` on the next tick. Where the move is declared
    /// from the current state, `target` replaces whatever was pending; else the
    /// request is refused and nothing changes.
    pub fn request_transition(&mut self, target: GameState) -> (r: Result<(), IllegalTransition>)
        requires
            old(self).wf(),
        ensures
            final(self).wf(),
            final(self).table_spec() == old(self).table_spec(),
            final(self).current_spec() == old(self).current_spec(),
            final(self).pending_spec() == pending_after_request(
                old(self).table_spec(),
                old(self).current_spec(),
                old(self).pending_spec(),
                target,
            ),
            r is Ok <==> old(self).table_spec().allows_spec(old(self).current_spec(), target),
            r matches Err(e) ==> e == (IllegalTransition { from: old(self).current_spec(), to: target }),
    {
        if self.table.allows(self.current_state, target) {
            self.pending_state = Some(target);
            Ok(())
        } else {
            Err(IllegalTransition { from: self.current_state, to: target })
        }
    }

    /// Runs one tick: commits the pending state where it is still a declared
    /// move, else follows a linear state to its sole successor, else stays.
    /// Whatever was pending is cleared. Returns the change made, if any.
    pub fn advance(&mut self) -> (r: Option<TransitionEvent>)
        requires
            old(self).wf(),
        ensures
            final(self).wf(),
            final(self).table_spec() == old(self).table_spec(),
            final(self).pending_spec() is None,
            final(self).current_spec() == current_after_tick(
                old(self).table_spec(),
                old(self).current_spec(),
                old(self).pending_spec(),
            ),
            match tick_target(
                old(self).table_spec(),
                old(self).current_spec(),
                old(self).pending_spec(),
            ) {
                Some(next) => r == Some(TransitionEvent { from: old(self).current_spec(), to: next }),
                None => r is None,
            },
    {
        let from = self.current_state;
        let pending = self.pending_state;
        self.pending_state = None;
        let next = match pending {
            Some(p) => {
                if self.table.allows(from, p) {
                    Some(p)
                } else {
                    None
                }
            },
            None => None,
        };
        let next = match next {
            Some(p) => Some(p),
            None => {
                if self.table.kind_of(from) == TransitionKind::Linear {
                    let succ = self.table.successors_of(from);
                    proof {
                        crate::laws::lemma_linear_has_one_successor(self.table, from);
                    }
                    Some(succ[0])
                } else {
                    None
                }
            },
        };
        match next {
            Some(to) => {
                proof {
                    crate::laws::lemma_successors_declared(self.table, from, to);
                }
                self.current_state = to;
                Some(TransitionEvent { from, to })
            },
            None => None,
        }
    }
}

} // verus!
