use vstd::prelude::*;
use crate::state::{GameState, TransitionKind};
use crate::table::{Declaration, TransitionTable, arity_fits, declares, lemma_entry};
use crate::runtime::{current_after_tick, pending_after_request, tick_target};

verus! {

/// Every state that is not terminal has at least one successor.
pub proof fn lemma_nonterminal_has_successors(table: TransitionTable, s: GameState)
    requires
        table.wf(),
    ensures
        table.kind(s) != TransitionKind::Terminal ==> table.successors(s).len() > 0,
{
    lemma_arity(table, s);
}

/// Every linear state has exactly one successor.
pub proof fn lemma_linear_has_one_successor(table: TransitionTable, s: GameState)
    requires
        table.wf(),
    ensures
        table.kind(s) == TransitionKind::Linear ==> table.successors(s).len() == 1,
{
    lemma_arity(table, s);
}

/// The number of successors of each state fits its kind.
pub proof fn lemma_arity(table: TransitionTable, s: GameState)
    requires
        table.wf(),
    ensures
        arity_fits(table.kind(s), table.successors(s).len() as int),
{
    let d = table.declarations();
    if declares(d, s) {
        let i = choose|i: int| 0 <= i < d.len() && d[i].state == s;
        lemma_entry(d, i);
    }
}

/// Every successor of a state is itself declared in the table.
pub proof fn lemma_successors_declared(table: TransitionTable, from: GameState, to: GameState)
    requires
        table.wf(),
        table.allows_spec(from, to),
    ensures
        table.contains(to),
{
    let d = table.declarations();
    if declares(d, from) {
        let i = choose|i: int| 0 <= i < d.len() && d[i].state == from;
        lemma_entry(d, i);
        let k = choose|k: int| 0 <= k < d[i].successors@.len() && d[i].successors@[k] == to;
    }
}

/// A tick on a linear state with nothing pending moves to its sole successor.
pub proof fn lemma_linear_tick(table: TransitionTable, s: GameState)
    requires
        table.wf(),
        table.kind(s) == TransitionKind::Linear,
    ensures
        table.successors(s).len() == 1,
        tick_target(table, s, None) == Some(table.successors(s)[0]),
        current_after_tick(table, s, None) == table.successors(s)[0],
{
    lemma_arity(table, s);
}

/// What is pending after requests for each of `targets` in turn, while in
/// `current`.
pub open spec fn pending_after_requests(
    table: TransitionTable,
    current: GameState,
    pending: Option<GameState>,
    targets: Seq<GameState>,
) -> Option<GameState>
    decreases targets.len(),
{
    if targets.len() == 0 {
        pending
    } else {
        pending_after_request(
            table,
            current,
            pending_after_requests(table, current, pending, targets.drop_last()),
            targets.last(),
        )
    }
}

/// Requests for moves that are not declared change nothing, however many
/// there are: the current state is never touched by a request, and what was
/// pending stays pending.
pub proof fn lemma_rejected_requests_change_nothing(
    table: TransitionTable,
    current: GameState,
    pending: Option<GameState>,
    targets: Seq<GameState>,
)
    requires
        forall|i: int| 0 <= i < targets.len() ==> !table.allows_spec(current, #[trigger] targets[i]),
    ensures
        pending_after_requests(table, current, pending, targets) == pending,
    decreases targets.len(),
{
    if targets.len() > 0 {
        let rest = targets.drop_last();
        assert forall|i: int| 0 <= i < rest.len() implies !table.allows_spec(
            current,
            #[trigger] rest[i],
        ) by {
            assert(rest[i] == targets[i]);
        }
        lemma_rejected_requests_change_nothing(table, current, pending, rest);
        assert(!table.allows_spec(current, targets[targets.len() - 1]));
    }
}

/// Of two legal requests made in one tick, the later one is the one the tick
/// commits.
pub proof fn lemma_last_request_wins(
    table: TransitionTable,
    current: GameState,
    pending: Option<GameState>,
    a: GameState,
    b: GameState,
)
    requires
        table.allows_spec(current, a),
        table.allows_spec(current, b),
    ensures
        current_after_tick(
            table,
            current,
            pending_after_request(
                table,
                current,
                pending_after_request(table, current, pending, a),
                b,
            ),
        ) == b,
{
}

/// Two lists of declarations that say the same thing, line by line.
pub open spec fn same_declarations(d1: Seq<Declaration>, d2: Seq<Declaration>) -> bool {
    &&& d1.len() == d2.len()
    &&& forall|i: int|
        0 <= i < d1.len() ==> {
            &&& (#[trigger] d1[i]).state == d2[i].state
            &&& d1[i].kind == d2[i].kind
            &&& d1[i].successors@ == d2[i].successors@
        }
}

/// Two tables built from the same declarations agree on every state's kind
/// and successors.
pub proof fn lemma_build_deterministic(t1: TransitionTable, t2: TransitionTable)
    requires
        t1.wf(),
        t2.wf(),
        same_declarations(t1.declarations(), t2.declarations()),
    ensures
        forall|s: GameState| #[trigger] t1.successors(s) == t2.successors(s),
        forall|s: GameState| #[trigger] t1.kind(s) == t2.kind(s),
        forall|s: GameState| #[trigger] t1.contains(s) == t2.contains(s),
{
    let d1 = t1.declarations();
    let d2 = t2.declarations();
    assert forall|s: GameState|
        t1.successors(s) == t2.successors(s) && t1.kind(s) == t2.kind(s) && t1.contains(s)
            == t2.contains(s) by {
        if declares(d1, s) {
            let i = choose|i: int| 0 <= i < d1.len() && d1[i].state == s;
            assert(d2[i].state == s);
            lemma_entry(d1, i);
            lemma_entry(d2, i);
        } else if declares(d2, s) {
            let j = choose|j: int| 0 <= j < d2.len() && d2[j].state == s;
            assert(d1[j].state == s);
        }
    }
}

} // verus!
