use vstd::prelude::*;
use crate::state::{GameState, TransitionKind};

verus! {

/// One line of the declaration: a state, how it is left, and where it may go.
pub struct Declaration {
    pub state: GameState,
    pub kind: TransitionKind,
    pub successors: Vec<GameState>,
}

/// Why a list of declarations does not make a transition table.
#[derive(Clone, Copy, Debug, PartialEq, Eq, Structural)]
pub enum ConfigurationError {
    /// The state is declared more than once.
    DuplicateState(GameState),
    /// `from` names `to` as a successor, but `to` is not declared.
    DanglingSuccessor { from: GameState, to: GameState },
    /// The number of successors does not fit the declared kind: one for a
    /// linear state, at least one for an arbitrary state, none for a terminal one.
    InvalidArity(GameState),
    /// The designated initial state is not declared.
    MissingDefault(GameState),
    /// Following linear states from the designated initial state never comes
    /// to rest in an arbitrary or terminal state.
    NoSteadyState(GameState),
}

/// `s` is declared somewhere in `decls`.
pub open spec fn declares(decls: Seq<Declaration>, s: GameState) -> bool {
    exists|i: int| 0 <= i < decls.len() && decls[i].state == s
}

/// Whether `n` successors are allowed for a state of the given kind.
pub open spec fn arity_fits(kind: TransitionKind, n: int) -> bool {
    match kind {
        TransitionKind::Linear => n == 1,
        TransitionKind::Arbitrary => n >= 1,
        TransitionKind::Terminal => n == 0,
    }
}

pub open spec fn has_duplicate(decls: Seq<Declaration>) -> bool {
    exists|i: int, j: int| 0 <= i < j < decls.len() && decls[i].state == decls[j].state
}

pub open spec fn has_bad_arity(decls: Seq<Declaration>) -> bool {
    exists|i: int|
        0 <= i < decls.len() && !arity_fits(decls[i].kind, decls[i].successors@.len() as int)
}

pub open spec fn has_dangling(decls: Seq<Declaration>) -> bool {
    exists|i: int, k: int|
        0 <= i < decls.len() && 0 <= k < decls[i].successors@.len() && !declares(
            decls,
            decls[i].successors@[k],
        )
}

/// Where `k` automatic steps lead from `s`: each step from a linear state goes
/// to its first successor, and any other state stays where it is.
pub open spec fn linear_walk(decls: Seq<Declaration>, s: GameState, k: nat) -> GameState
    decreases k,
{
    if k == 0 {
        s
    } else {
        let p = linear_walk(decls, s, (k - 1) as nat);
        if declared_kind(decls, p) == TransitionKind::Linear {
            declared_successors(decls, p)[0]
        } else {
            p
        }
    }
}

/// Automatic steps from `s` reach an arbitrary or terminal state within as
/// many steps as there are declarations. (Taking more steps never helps: by
/// then some state has come round twice.)
pub open spec fn settles(decls: Seq<Declaration>, s: GameState) -> bool {
    exists|k: nat|
        k <= decls.len() && declared_kind(decls, #[trigger] linear_walk(decls, s, k))
            != TransitionKind::Linear
}

/// A list of declarations that makes a transition table with initial state `initial`.
pub open spec fn valid_declarations(decls: Seq<Declaration>, initial: GameState) -> bool {
    &&& !has_duplicate(decls)
    &&& !has_bad_arity(decls)
    &&& !has_dangling(decls)
    &&& declares(decls, initial)
    &&& settles(decls, initial)
}

/// The error `e` names a defect that `decls` really has. Duplicates and
/// arities are checked first, line by line; then successors; then the initial
/// state is looked up; then it must settle.
pub open spec fn describes_defect(
    decls: Seq<Declaration>,
    initial: GameState,
    e: ConfigurationError,
) -> bool {
    match e {
        ConfigurationError::DuplicateState(s) => exists|i: int, j: int|
            0 <= i < j < decls.len() && decls[i].state == s && decls[j].state == s,
        ConfigurationError::InvalidArity(s) => exists|i: int|
            0 <= i < decls.len() && decls[i].state == s && !arity_fits(
                decls[i].kind,
                decls[i].successors@.len() as int,
            ),
        ConfigurationError::DanglingSuccessor { from, to } => {
            &&& !has_duplicate(decls)
            &&& !has_bad_arity(decls)
            &&& exists|i: int, k: int|
                0 <= i < decls.len() && 0 <= k < decls[i].successors@.len() && decls[i].state
                    == from && decls[i].successors@[k] == to && !declares(decls, to)
        },
        ConfigurationError::MissingDefault(s) => {
            &&& !has_duplicate(decls)
            &&& !has_bad_arity(decls)
            &&& !has_dangling(decls)
            &&& s == initial
            &&& !declares(decls, initial)
        },
        ConfigurationError::NoSteadyState(s) => {
            &&& !has_duplicate(decls)
            &&& !has_bad_arity(decls)
            &&& !has_dangling(decls)
            &&& declares(decls, initial)
            &&& s == initial
            &&& !settles(decls, initial)
        },
    }
}

/// The successors that `decls` gives `s`; none where `s` is not declared.
pub open spec fn declared_successors(decls: Seq<Declaration>, s: GameState) -> Seq<GameState> {
    if declares(decls, s) {
        decls[choose|i: int| 0 <= i < decls.len() && decls[i].state == s].successors@
    } else {
        Seq::empty()
    }
}

/// The kind that `decls` gives `s`; terminal where `s` is not declared.
pub open spec fn declared_kind(decls: Seq<Declaration>, s: GameState) -> TransitionKind {
    if declares(decls, s) {
        decls[choose|i: int| 0 <= i < decls.len() && decls[i].state == s].kind
    } else {
        TransitionKind::Terminal
    }
}

/// Where no state is declared twice, the entry at `i` is the one for its state.
pub proof fn lemma_entry(decls: Seq<Declaration>, i: int)
    requires
        !has_duplicate(decls),
        0 <= i < decls.len(),
    ensures
        declares(decls, decls[i].state),
        declared_successors(decls, decls[i].state) == decls[i].successors@,
        declared_kind(decls, decls[i].state) == decls[i].kind,
{
    let s = decls[i].state;
    assert(declares(decls, s));
    let j = choose|j: int| 0 <= j < decls.len() && decls[j].state == s;
    if j < i {
        assert(decls[j].state == decls[i].state);
    } else if i < j {
        assert(decls[i].state == decls[j].state);
    }
}

/// The first index at which `s` is declared, if any.
fn position_of(decls: &Vec<Declaration>, s: GameState) -> (r: Option<usize>)
    ensures
        match r {
            Some(i) => i < decls@.len() && decls@[i as int].state == s && forall|j: int|
                0 <= j < i ==> decls@[j].state != s,
            None => !declares(decls@, s),
        },
{
    let mut i: usize = 0;
    while i < decls.len()
        invariant
            i <= decls@.len(),
            forall|j: int| 0 <= j < i ==> decls@[j].state != s,
        decreases decls@.len() - i,
    {
        if decls[i].state == s {
            return Some(i);
        }
        i = i + 1;
    }
    None
}

/// The kind `decls` gives `s`.
fn kind_in(decls: &Vec<Declaration>, s: GameState) -> (r: TransitionKind)
    requires
        !has_duplicate(decls@),
    ensures
        r == declared_kind(decls@, s),
{
    match position_of(decls, s) {
        Some(i) => {
            proof {
                lemma_entry(decls@, i as int);
            }
            decls[i].kind
        },
        None => TransitionKind::Terminal,
    }
}

/// The sole successor `decls` gives a linear state `s`.
fn linear_successor_in(decls: &Vec<Declaration>, s: GameState) -> (r: GameState)
    requires
        !has_duplicate(decls@),
        !has_bad_arity(decls@),
        declared_kind(decls@, s) == TransitionKind::Linear,
    ensures
        r == declared_successors(decls@, s)[0],
{
    match position_of(decls, s) {
        Some(i) => {
            proof {
                lemma_entry(decls@, i as int);
            }
            decls[i].successors[0]
        },
        None => vstd::pervasive::unreached(),
    }
}

/// The checked map from each declared state to its kind and legal successors,
/// with the state the game starts in. It never changes once built.
pub struct TransitionTable {
    entries: Vec<Declaration>,
    initial_state: GameState,
}

impl TransitionTable {
    /// The declarations the table was built from.
    pub closed spec fn declarations(self) -> Seq<Declaration> {
        self.entries@
    }

    /// The state a runtime over this table starts in.
    pub closed spec fn initial_spec(self) -> GameState {
        self.initial_state
    }

    pub open spec fn wf(self) -> bool {
        valid_declarations(self.declarations(), self.initial_spec())
    }

    pub open spec fn contains(self, s: GameState) -> bool {
        declares(self.declarations(), s)
    }

    pub open spec fn successors(self, s: GameState) -> Seq<GameState> {
        declared_successors(self.declarations(), s)
    }

    pub open spec fn kind(self, s: GameState) -> TransitionKind {
        declared_kind(self.declarations(), s)
    }

    /// A move from `from` to `to` is declared.
    pub open spec fn allows_spec(self, from: GameState, to: GameState) -> bool {
        self.successors(from).contains(to)
    }

    /// Checks the declarations and builds the table from them, with `initial`
    /// as the state a runtime starts in. Fails where a state is declared twice,
    /// where a state has a number of successors its kind does not allow, where
    /// a successor is not declared, or where `initial` is not declared.
    pub fn build(declarations: Vec<Declaration>, initial: GameState) -> (r: Result<
        TransitionTable,
        ConfigurationError,
    >)
        ensures
            match r {
                Ok(t) => valid_declarations(declarations@, initial) && t.declarations()
                    == declarations@ && t.initial_spec() == initial,
                Err(e) => !valid_declarations(declarations@, initial) && describes_defect(
                    declarations@,
                    initial,
                    e,
                ),
            },
    {
        let n = declarations.len();
        let mut i: usize = 0;
        while i < n
            invariant
                n == declarations@.len(),
                i <= n,
                forall|a: int, b: int|
                    0 <= a < b < i ==> declarations@[a].state != declarations@[b].state,
                forall|a: int|
                    0 <= a < i ==> arity_fits(
                        declarations@[a].kind,
                        declarations@[a].successors@.len() as int,
                    ),
            decreases n - i,
        {
            let s = declarations[i].state;
            match position_of(&declarations, s) {
                Some(p) => {
                    if p < i {
                        assert(declarations@[p as int].state == declarations@[i as int].state);
                        return Err(ConfigurationError::DuplicateState(s));
                    }
                },
                None => {},
            }
            let m = declarations[i].successors.len();
            let fits = match declarations[i].kind {
                TransitionKind::Linear => m == 1,
                TransitionKind::Arbitrary => m >= 1,
                TransitionKind::Terminal => m == 0,
            };
            if !fits {
                return Err(ConfigurationError::InvalidArity(s));
            }
            i = i + 1;
        }
        let mut i: usize = 0;
        while i < n
            invariant
                n == declarations@.len(),
                i <= n,
                !has_duplicate(declarations@),
                !has_bad_arity(declarations@),
                forall|a: int, k: int|
                    0 <= a < i && 0 <= k < declarations@[a].successors@.len() ==> declares(
                        declarations@,
                        declarations@[a].successors@[k],
                    ),
            decreases n - i,
        {
            let mut k: usize = 0;
            while k < declarations[i].successors.len()
                invariant
                    n == declarations@.len(),
                    i < n,
                    !has_duplicate(declarations@),
                    !has_bad_arity(declarations@),
                    k <= declarations@[i as int].successors@.len(),
                    forall|c: int|
                        0 <= c < k ==> declares(
                            declarations@,
                            declarations@[i as int].successors@[c],
                        ),
                decreases declarations@[i as int].successors@.len() - k,
            {
                let to = declarations[i].successors[k];
                if position_of(&declarations, to).is_none() {
                    return Err(
                        ConfigurationError::DanglingSuccessor { from: declarations[i].state, to },
                    );
                }
                k = k + 1;
            }
            i = i + 1;
        }
        if position_of(&declarations, initial).is_none() {
            return Err(ConfigurationError::MissingDefault(initial));
        }
        let mut cur = initial;
        let mut k: usize = 0;
        loop
            invariant
                n == declarations@.len(),
                !has_duplicate(declarations@),
                !has_bad_arity(declarations@),
                !has_dangling(declarations@),
                declares(declarations@, initial),
                k <= n,
                cur == linear_walk(declarations@, initial, k as nat),
                forall|j: nat|
                    j < k ==> declared_kind(declarations@, #[trigger] linear_walk(declarations@, initial, j))
                        == TransitionKind::Linear,
            ensures
                k <= n,
                declared_kind(declarations@, linear_walk(declarations@, initial, k as nat))
                    != TransitionKind::Linear,
            decreases n - k,
        {
            if kind_in(&declarations, cur) != TransitionKind::Linear {
                break;
            }
            if k == n {
                assert forall|j: nat| j <= n implies declared_kind(
                    declarations@,
                    #[trigger] linear_walk(declarations@, initial, j),
                ) == TransitionKind::Linear by {}
                return Err(ConfigurationError::NoSteadyState(initial));
            }
            cur = linear_successor_in(&declarations, cur);
            k = k + 1;
        }
        Ok(TransitionTable { entries: declarations, initial_state: initial })
    }

    /// The state a runtime over this table starts in.
    pub fn initial(&self) -> (r: GameState)
        ensures
            r == self.initial_spec(),
    {
        self.initial_state
    }

    /// The declared successors of `s`, in declaration order; empty where `s`
    /// is terminal or not declared.
    pub fn successors_of(&self, s: GameState) -> (r: Vec<GameState>)
        requires
            self.wf(),
        ensures
            r@ == self.successors(s),
    {
        let mut r: Vec<GameState> = Vec::new();
        match position_of(&self.entries, s) {
            Some(i) => {
                proof {
                    lemma_entry(self.entries@, i as int);
                }
                let succ = &self.entries[i].successors;
                let mut k: usize = 0;
                while k < succ.len()
                    invariant
                        k <= succ@.len(),
                        r@ == succ@.subrange(0, k as int),
                    decreases succ@.len() - k,
                {
                    r.push(succ[k]);
                    k = k + 1;
                }
                assert(r@ == succ@);
            },
            None => {},
        }
        r
    }

    /// The declared kind of `s`; terminal where `s` is not declared.
    pub fn kind_of(&self, s: GameState) -> (r: TransitionKind)
        requires
            self.wf(),
        ensures
            r == self.kind(s),
    {
        kind_in(&self.entries, s)
    }

    /// Whether a move from `from` to `to` is declared.
    pub fn allows(&self, from: GameState, to: GameState) -> (r: bool)
        requires
            self.wf(),
        ensures
            r == self.allows_spec(from, to),
    {
        match position_of(&self.entries, from) {
            Some(i) => {
                proof {
                    lemma_entry(self.entries@, i as int);
                }
                let succ = &self.entries[i].successors;
                let mut k: usize = 0;
                while k < succ.len()
                    invariant
                        k <= succ@.len(),
                        succ@ == self.successors(from),
                        forall|c: int| 0 <= c < k ==> succ@[c] != to,
                    decreases succ@.len() - k,
                {
                    if succ[k] == to {
                        return true;
                    }
                    k = k + 1;
                }
                false
            },
            None => false,
        }
    }
}

} // verus!
