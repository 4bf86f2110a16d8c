//! Versioned interface resolver.
//!
//! An accessor that is exported under a different name by each revision of the
//! runtime is found by trying an ordered list of candidate names. The policy
//! is *first success wins, last failure is reported*: the first candidate that
//! resolves is taken and no later one is asked for; if none resolves, the
//! failure of the last candidate is the one that surfaces.
//!
//! The resolver performs no lookup itself. It names the candidate to look up
//! next and is told what the module answered.

use vstd::prelude::*;

verus! {

/// What became of a list of candidates.
pub enum Resolution {
    /// `name` is the first candidate that resolved, `entry` its address.
    Chosen { name: &'static str, entry: usize },
    /// Every candidate failed; the cause is that of the last one tried.
    Unresolved(libloading::Error),
}

/// A [`Resolution`] with its name as a sequence of characters.
pub enum ResolutionView {
    Chosen { name: Seq<char>, entry: usize },
    Unresolved(libloading::Error),
}

impl View for Resolution {
    type V = ResolutionView;

    open spec fn view(&self) -> ResolutionView {
        match *self {
            Resolution::Chosen { name, entry } => ResolutionView::Chosen { name: name@, entry },
            Resolution::Unresolved(cause) => ResolutionView::Unresolved(cause),
        }
    }
}

/// A resolution under way: it awaits the module's answer for one candidate.
pub struct VersionedResolver {
    candidates: Vec<&'static str>,
    tried: usize,
}

/// The state of a resolution under way.
pub struct ResolverState {
    /// The candidate names, in the order in which they are tried.
    pub names: Seq<Seq<char>>,
    /// How many candidates have been tried, all of them in vain.
    pub tried: nat,
}

/// Either a lookup is still awaited, or the resolution is decided.
pub enum Attempt {
    Try(VersionedResolver),
    Done(Resolution),
}

/// An [`Attempt`] over views.
pub enum AttemptView {
    Try(ResolverState),
    Done(ResolutionView),
}

/// The names of a candidate list.
pub open spec fn names_of(candidates: Seq<&'static str>) -> Seq<Seq<char>> {
    Seq::new(candidates.len(), |i: int| candidates[i]@)
}

/// Where a resolution over `names` starts: awaiting the first candidate.
/// Over an empty list there is nothing to start.
pub open spec fn begin(names: Seq<Seq<char>>) -> Option<ResolverState> {
    if names.len() == 0 {
        None
    } else {
        Some(ResolverState { names, tried: 0 })
    }
}

impl ResolverState {
    /// A lookup is awaited: not every candidate has been tried.
    pub open spec fn wf(self) -> bool {
        self.tried < self.names.len()
    }

    /// The candidate whose lookup is awaited.
    pub open spec fn pending(self) -> Seq<char> {
        self.names[self.tried as int]
    }

    /// The step taken when the module answers `reply` for the pending
    /// candidate.
    pub open spec fn supply(self, reply: Result<usize, libloading::Error>) -> AttemptView {
        match reply {
            Ok(entry) => AttemptView::Done(
                ResolutionView::Chosen { name: self.pending(), entry },
            ),
            Err(cause) => if self.tried + 1 == self.names.len() {
                AttemptView::Done(ResolutionView::Unresolved(cause))
            } else {
                AttemptView::Try(ResolverState { names: self.names, tried: self.tried + 1 })
            },
        }
    }

    /// The resolution reached from this state when every lookup is answered
    /// by `exports`.
    pub open spec fn run(
        self,
        exports: spec_fn(Seq<char>) -> Result<usize, libloading::Error>,
    ) -> ResolutionView
        decreases self.names.len() - self.tried,
        when self.wf()
    {
        match self.supply(exports(self.pending())) {
            AttemptView::Try(next) => next.run(exports),
            AttemptView::Done(resolution) => resolution,
        }
    }
}

/// The resolution of `names` against a module that answers by `exports`;
/// `None` where there is no candidate to try.
pub open spec fn resolve(
    names: Seq<Seq<char>>,
    exports: spec_fn(Seq<char>) -> Result<usize, libloading::Error>,
) -> Option<ResolutionView> {
    match begin(names) {
        Some(state) => Some(state.run(exports)),
        None => None,
    }
}

/// Candidate `k` resolves and no earlier candidate does.
pub open spec fn first_success(
    names: Seq<Seq<char>>,
    exports: spec_fn(Seq<char>) -> Result<usize, libloading::Error>,
    k: int,
) -> bool {
    &&& 0 <= k < names.len()
    &&& exports(names[k]) is Ok
    &&& forall|j: int| 0 <= j < k ==> exports(#[trigger] names[j]) is Err
}

/// No candidate resolves.
pub open spec fn all_fail(
    names: Seq<Seq<char>>,
    exports: spec_fn(Seq<char>) -> Result<usize, libloading::Error>,
) -> bool {
    forall|j: int| 0 <= j < names.len() ==> exports(#[trigger] names[j]) is Err
}

impl View for VersionedResolver {
    type V = ResolverState;

    closed spec fn view(&self) -> ResolverState {
        ResolverState { names: names_of(self.candidates@), tried: self.tried as nat }
    }
}

impl View for Attempt {
    type V = AttemptView;

    open spec fn view(&self) -> AttemptView {
        match *self {
            Attempt::Try(resolver) => AttemptView::Try(resolver@),
            Attempt::Done(resolution) => AttemptView::Done(resolution@),
        }
    }
}

impl VersionedResolver {
    #[verifier::type_invariant]
    closed spec fn inv(&self) -> bool {
        self@.wf()
    }

    /// Starts a resolution over `candidates`, which are tried in the order
    /// given. An empty list yields `None`: nothing can be tried, which is a
    /// condition of its own and no failure of a lookup.
    pub fn start(candidates: Vec<&'static str>) -> (resolver: Option<VersionedResolver>)
        ensures
            resolver is None <==> candidates@.len() == 0,
            resolver matches Some(r) ==> (begin(names_of(candidates@)) == Some(r@) && r@.wf()),
    {
        if candidates.len() == 0 {
            None
        } else {
            Some(VersionedResolver { candidates, tried: 0 })
        }
    }

    /// The candidate to look up next.
    pub fn pending(&self) -> (name: &'static str)
        ensures
            self@.wf(),
            name@ == self@.pending(),
    {
        proof {
            use_type_invariant(self);
        }
        self.candidates[self.tried]
    }

    /// Takes the module's answer for the pending candidate. A success decides
    /// the resolution for that candidate; a failure moves on to the next
    /// candidate or, after the last, decides the resolution with that failure.
    pub fn advance(self, reply: Result<usize, libloading::Error>) -> (attempt: Attempt)
        ensures
            self@.wf(),
            attempt@ == self@.supply(reply),
            attempt matches Attempt::Try(resolver) ==> resolver@.wf(),
    {
        proof {
            use_type_invariant(&self);
            assert(self.tried < self.candidates.len());
        }
        match reply {
            Ok(entry) => {
                let name = self.candidates[self.tried];
                Attempt::Done(Resolution::Chosen { name, entry })
            },
            Err(cause) => {
                if self.tried + 1 == self.candidates.len() {
                    Attempt::Done(Resolution::Unresolved(cause))
                } else {
                    Attempt::Try(
                        VersionedResolver { candidates: self.candidates, tried: self.tried + 1 },
                    )
                }
            },
        }
    }
}

/// From a state in which every candidate tried so far fails in `exports`,
/// the run ends with the first candidate that resolves, or with the failure
/// of the last candidate if none does.
proof fn lemma_run(
    state: ResolverState,
    exports: spec_fn(Seq<char>) -> Result<usize, libloading::Error>,
)
    requires
        state.wf(),
        forall|j: int| 0 <= j < state.tried ==> exports(#[trigger] state.names[j]) is Err,
    ensures
        forall|k: int| #[trigger]
            first_success(state.names, exports, k) ==> state.run(exports)
                == (ResolutionView::Chosen {
                name: state.names[k],
                entry: exports(state.names[k])->Ok_0,
            }),
        all_fail(state.names, exports) ==> state.run(exports) == ResolutionView::Unresolved(
            exports(state.names.last())->Err_0,
        ),
    decreases state.names.len() - state.tried,
{
    let at = state.tried as int;
    match state.supply(exports(state.pending())) {
        AttemptView::Try(next) => {
            lemma_run(next, exports);
        },
        AttemptView::Done(resolution) => {
            assert forall|k: int| #[trigger]
                first_success(state.names, exports, k) implies state.run(exports)
                == (ResolutionView::Chosen {
                name: state.names[k],
                entry: exports(state.names[k])->Ok_0,
            }) by {
                if k < at {
                    assert(exports(state.names[k]) is Err);
                } else if k > at {
                    assert(exports(state.names[at]) is Err);
                }
            }
        },
    }
}

/// First success wins: where candidate `k` resolves in a module and no
/// earlier candidate does, the resolution against that module chooses
/// candidate `k`, with the address that the module gives for it.
pub proof fn lemma_first_success_wins(
    names: Seq<Seq<char>>,
    exports: spec_fn(Seq<char>) -> Result<usize, libloading::Error>,
    k: int,
)
    requires
        first_success(names, exports, k),
    ensures
        resolve(names, exports) == Some(
            ResolutionView::Chosen { name: names[k], entry: exports(names[k])->Ok_0 },
        ),
{
    lemma_run(ResolverState { names, tried: 0 }, exports);
}

/// Last failure surfaces: where no candidate of a list that is not empty
/// resolves in a module, the resolution against that module fails with the
/// failure of the last candidate.
pub proof fn lemma_last_failure_surfaces(
    names: Seq<Seq<char>>,
    exports: spec_fn(Seq<char>) -> Result<usize, libloading::Error>,
)
    requires
        names.len() > 0,
        all_fail(names, exports),
    ensures
        resolve(names, exports) == Some(
            ResolutionView::Unresolved(exports(names.last())->Err_0),
        ),
{
    lemma_run(ResolverState { names, tried: 0 }, exports);
}

/// An empty candidate list is a condition of its own: there is no
/// resolution at all, whatever the module exports, and every other list has
/// one.
pub proof fn lemma_no_candidates_is_distinct(
    names: Seq<Seq<char>>,
    exports: spec_fn(Seq<char>) -> Result<usize, libloading::Error>,
)
    ensures
        resolve(names, exports) is None <==> names.len() == 0,
{
}

} // verus!
