//! Symbol table loader and runtime handle.
//!
//! Loading asks an open module for a fixed plan of names: the four core
//! entry points, then the candidates of the apps interface accessor until
//! one resolves, then the eight flat calls of the apps interface. A core or
//! flat name that is missing ends the load at once; so does an accessor of
//! which no candidate resolves. Nothing partial is ever handed out.
//!
//! The loader makes no lookup itself. It names the symbol to look up next
//! and is told what the module answered.

use vstd::pervasive::unreached;
use vstd::prelude::*;

use crate::error::ClientError;
use crate::resolver::{
    all_fail, first_success, Attempt, AttemptView, Resolution, ResolutionView, ResolverState,
    VersionedResolver,
};
use crate::steamapps::{ISteamApps, SteamApps, SteamAppsFns};
use crate::symbols::{
    accessor_names, core_names, core_symbol, flat_names, flat_symbol, steamapps_candidates,
    CORE_COUNT, FLAT_COUNT,
};

verus! {

/// A loaded runtime: the open module, which it owns and keeps mapped, and
/// every address resolved from it.
pub struct SteamApi {
    /// The open module. It is held so that it stays mapped for as long as
    /// an address resolved from it can be used.
    pub library: libloading::Library,
    pub init: usize,
    pub shutdown: usize,
    pub is_running: usize,
    pub run_callbacks: usize,
    /// The candidate name under which the apps interface accessor was found.
    pub steamapps_getter_name: &'static str,
    pub steamapps_getter: usize,
    /// The flat calls of the apps interface.
    pub apps: SteamAppsFns,
}

/// What a loaded runtime consists of: the module and the addresses, each
/// list in the order of its names.
pub struct ApiView {
    pub library: libloading::Library,
    pub core: Seq<usize>,
    pub getter_name: Seq<char>,
    pub getter: usize,
    pub flat: Seq<usize>,
}

/// The entries of a flat call table, in the order of [`flat_names`].
pub open spec fn flat_entries(table: SteamAppsFns) -> Seq<usize> {
    seq![
        table.bis_dlc_installed,
        table.bis_low_violence,
        table.bis_subscribed,
        table.bis_subscribed_app,
        table.bis_subscribed_from_family_sharing,
        table.bis_subscribed_from_free_weekend,
        table.bis_vac_banned,
        table.get_dlc_count,
    ]
}

impl View for SteamApi {
    type V = ApiView;

    open spec fn view(&self) -> ApiView {
        ApiView {
            library: self.library,
            core: seq![self.init, self.shutdown, self.is_running, self.run_callbacks],
            getter_name: self.steamapps_getter_name@,
            getter: self.steamapps_getter,
            flat: flat_entries(self.apps),
        }
    }
}

/// How far a load has come.
enum Stage {
    Core { found: Vec<usize> },
    Accessor { core: Vec<usize>, resolver: VersionedResolver },
    Flat { core: Vec<usize>, getter_name: &'static str, getter: usize, found: Vec<usize> },
}

/// How far a load has come, and what it has found so far.
pub enum StageView {
    /// The core entry points are being resolved; `found` holds the first of
    /// them.
    Core { found: Seq<usize> },
    /// The core entry points are resolved; the accessor is being looked for.
    Accessor { core: Seq<usize>, resolver: ResolverState },
    /// The accessor is found; the flat calls are being resolved, and `found`
    /// holds the first of them.
    Flat { core: Seq<usize>, getter_name: Seq<char>, getter: usize, found: Seq<usize> },
}

impl View for Stage {
    type V = StageView;

    closed spec fn view(&self) -> StageView {
        match *self {
            Stage::Core { found } => StageView::Core { found: found@ },
            Stage::Accessor { core, resolver } => StageView::Accessor {
                core: core@,
                resolver: resolver@,
            },
            Stage::Flat { core, getter_name, getter, found } => StageView::Flat {
                core: core@,
                getter_name: getter_name@,
                getter,
                found: found@,
            },
        }
    }
}

/// A load under way: it owns the open module and awaits the answer for one
/// symbol.
pub struct Loader {
    lib: libloading::Library,
    stage: Stage,
}

/// The state of a load under way.
pub struct LoaderView {
    pub library: libloading::Library,
    pub stage: StageView,
}

/// Either a lookup is still awaited, or the load has ended: in a runtime, or
/// in the failure that stopped it.
pub enum Progress {
    Need(Loader),
    Done(Result<SteamApi, ClientError>),
}

/// A [`Progress`] over views.
pub enum ProgressView {
    Need(LoaderView),
    Done(Result<ApiView, ClientError>),
}

impl LoaderView {
    /// Where the load of `library` starts: no symbol resolved yet.
    pub open spec fn initial(library: libloading::Library) -> LoaderView {
        LoaderView { library, stage: StageView::Core { found: Seq::empty() } }
    }

    /// A lookup is awaited, and what was found belongs to the stage.
    pub open spec fn wf(self) -> bool {
        match self.stage {
            StageView::Core { found } => found.len() < CORE_COUNT,
            StageView::Accessor { core, resolver } => {
                &&& core.len() == CORE_COUNT
                &&& resolver.wf()
                &&& resolver.names == accessor_names()
            },
            StageView::Flat { core, getter_name, getter, found } => {
                &&& core.len() == CORE_COUNT
                &&& found.len() < FLAT_COUNT
            },
        }
    }

    /// The symbol whose lookup is awaited.
    pub open spec fn pending(self) -> Seq<char> {
        match self.stage {
            StageView::Core { found } => core_names()[found.len() as int],
            StageView::Accessor { core, resolver } => resolver.pending(),
            StageView::Flat { core, getter_name, getter, found } => flat_names()[found.len() as int],
        }
    }

    /// The step taken when the module answers `reply` for the pending
    /// symbol.
    pub open spec fn step(self, reply: Result<usize, libloading::Error>) -> ProgressView {
        match self.stage {
            StageView::Core { found } => match reply {
                Ok(entry) => if found.len() + 1 < CORE_COUNT {
                    ProgressView::Need(
                        LoaderView {
                            library: self.library,
                            stage: StageView::Core { found: found.push(entry) },
                        },
                    )
                } else {
                    ProgressView::Need(
                        LoaderView {
                            library: self.library,
                            stage: StageView::Accessor {
                                core: found.push(entry),
                                resolver: ResolverState { names: accessor_names(), tried: 0 },
                            },
                        },
                    )
                },
                Err(cause) => ProgressView::Done(Err(ClientError::Load(cause))),
            },
            StageView::Accessor { core, resolver } => match resolver.supply(reply) {
                AttemptView::Try(next) => ProgressView::Need(
                    LoaderView {
                        library: self.library,
                        stage: StageView::Accessor { core, resolver: next },
                    },
                ),
                AttemptView::Done(ResolutionView::Chosen { name, entry }) => ProgressView::Need(
                    LoaderView {
                        library: self.library,
                        stage: StageView::Flat {
                            core,
                            getter_name: name,
                            getter: entry,
                            found: Seq::empty(),
                        },
                    },
                ),
                AttemptView::Done(ResolutionView::Unresolved(cause)) => ProgressView::Done(
                    Err(ClientError::VersionResolution(cause)),
                ),
            },
            StageView::Flat { core, getter_name, getter, found } => match reply {
                Ok(entry) => if found.len() + 1 < FLAT_COUNT {
                    ProgressView::Need(
                        LoaderView {
                            library: self.library,
                            stage: StageView::Flat {
                                core,
                                getter_name,
                                getter,
                                found: found.push(entry),
                            },
                        },
                    )
                } else {
                    ProgressView::Done(
                        Ok(
                            ApiView {
                                library: self.library,
                                core,
                                getter_name,
                                getter,
                                flat: found.push(entry),
                            },
                        ),
                    )
                },
                Err(cause) => ProgressView::Done(Err(ClientError::Load(cause))),
            },
        }
    }
}

impl LoaderView {
    /// How many lookups the load can still ask for.
    pub open spec fn remaining(self) -> int {
        match self.stage {
            StageView::Core { found } => CORE_COUNT - found.len() + accessor_names().len()
                + FLAT_COUNT,
            StageView::Accessor { core, resolver } => resolver.names.len() - resolver.tried
                + FLAT_COUNT,
            StageView::Flat { core, getter_name, getter, found } => FLAT_COUNT - found.len(),
        }
    }

    /// The end that the load reaches from this state when every lookup is
    /// answered by `exports`.
    pub open spec fn run(
        self,
        exports: spec_fn(Seq<char>) -> Result<usize, libloading::Error>,
    ) -> Result<ApiView, ClientError>
        decreases self.remaining(),
        when self.wf()
    {
        match self.step(exports(self.pending())) {
            ProgressView::Need(next) => next.run(exports),
            ProgressView::Done(result) => result,
        }
    }
}

/// The end of loading a runtime from `library` when the module answers every
/// lookup by `exports`.
pub open spec fn loaded(
    library: libloading::Library,
    exports: spec_fn(Seq<char>) -> Result<usize, libloading::Error>,
) -> Result<ApiView, ClientError> {
    LoaderView::initial(library).run(exports)
}

/// Name `i` is missing from the module and no earlier name of the list is.
pub open spec fn first_failure(
    names: Seq<Seq<char>>,
    exports: spec_fn(Seq<char>) -> Result<usize, libloading::Error>,
    i: int,
) -> bool {
    &&& 0 <= i < names.len()
    &&& exports(names[i]) is Err
    &&& forall|j: int| 0 <= j < i ==> exports(#[trigger] names[j]) is Ok
}

/// The module exports every name of the list.
pub open spec fn all_succeed(
    names: Seq<Seq<char>>,
    exports: spec_fn(Seq<char>) -> Result<usize, libloading::Error>,
) -> bool {
    forall|j: int| 0 <= j < names.len() ==> exports(#[trigger] names[j]) is Ok
}

/// The addresses that the module gives for the names of the list.
pub open spec fn entries(
    names: Seq<Seq<char>>,
    exports: spec_fn(Seq<char>) -> Result<usize, libloading::Error>,
) -> Seq<usize> {
    Seq::new(names.len(), |i: int| exports(names[i])->Ok_0)
}

impl View for Loader {
    type V = LoaderView;

    closed spec fn view(&self) -> LoaderView {
        LoaderView { library: self.lib, stage: self.stage@ }
    }
}

impl View for Progress {
    type V = ProgressView;

    open spec fn view(&self) -> ProgressView {
        match *self {
            Progress::Need(loader) => ProgressView::Need(loader@),
            Progress::Done(Ok(api)) => ProgressView::Done(Ok(api@)),
            Progress::Done(Err(failure)) => ProgressView::Done(Err(failure)),
        }
    }
}

impl SteamApi {
    /// Begins to load a runtime from the open module `lib`. The loader that
    /// comes back awaits the first core entry point.
    pub fn load(lib: libloading::Library) -> (loader: Loader)
        ensures
            loader@ == LoaderView::initial(lib),
            loader@.wf(),
    {
        Loader { lib, stage: Stage::Core { found: Vec::new() } }
    }

    /// Wraps the token that the apps interface accessor returned. To be
    /// called only after the runtime's init has succeeded. A null token
    /// yields `None`; any other a wrapper over this runtime's call table.
    pub fn steamapps(&self, token: ISteamApps) -> (wrapper: Option<SteamApps<'_>>)
        ensures
            wrapper is None <==> token.is_null(),
            wrapper matches Some(w) ==> (w.token() == token && w.table() == self.apps),
    {
        SteamApps::from_raw(token, &self.apps)
    }
}

impl Loader {
    #[verifier::type_invariant]
    closed spec fn inv(&self) -> bool {
        self@.wf()
    }

    /// The open module, for whoever makes the lookup.
    pub fn library(&self) -> (lib: &libloading::Library)
        ensures
            *lib == self@.library,
    {
        &self.lib
    }

    /// The symbol to look up next.
    pub fn pending(&self) -> (name: &'static str)
        ensures
            self@.wf(),
            name@ == self@.pending(),
    {
        proof {
            use_type_invariant(self);
        }
        match &self.stage {
            Stage::Core { found } => match core_symbol(found.len()) {
                Some(name) => name,
                None => unreached(),
            },
            Stage::Accessor { core, resolver } => resolver.pending(),
            Stage::Flat { core, getter_name, getter, found } => match flat_symbol(found.len()) {
                Some(name) => name,
                None => unreached(),
            },
        }
    }

    /// Takes the module's answer for the pending symbol and moves on.
    ///
    /// A missing core or flat symbol ends the load in `ClientError::Load`
    /// with the module's own failure. A failing accessor candidate moves on
    /// to the next; the first that resolves is kept under its name, and
    /// after the last has failed the load ends in
    /// `ClientError::VersionResolution` with that last failure. The answer
    /// for the last flat call completes the runtime.
    pub fn advance(self, reply: Result<usize, libloading::Error>) -> (progress: Progress)
        ensures
            self@.wf(),
            progress@ == self@.step(reply),
            progress matches Progress::Need(next) ==> next@.wf(),
    {
        proof {
            use_type_invariant(&self);
        }
        let Loader { lib, stage } = self;
        match stage {
            Stage::Core { found } => match reply {
                Ok(entry) => {
                    let mut found = found;
                    found.push(entry);
                    if found.len() < CORE_COUNT {
                        Progress::Need(Loader { lib, stage: Stage::Core { found } })
                    } else {
                        match VersionedResolver::start(steamapps_candidates()) {
                            Some(resolver) => Progress::Need(
                                Loader { lib, stage: Stage::Accessor { core: found, resolver } },
                            ),
                            None => unreached(),
                        }
                    }
                },
                Err(cause) => Progress::Done(Err(ClientError::Load(cause))),
            },
            Stage::Accessor { core, resolver } => match resolver.advance(reply) {
                Attempt::Try(next) => Progress::Need(
                    Loader { lib, stage: Stage::Accessor { core, resolver: next } },
                ),
                Attempt::Done(Resolution::Chosen { name, entry }) => Progress::Need(
                    Loader {
                        lib,
                        stage: Stage::Flat {
                            core,
                            getter_name: name,
                            getter: entry,
                            found: Vec::new(),
                        },
                    },
                ),
                Attempt::Done(Resolution::Unresolved(cause)) => Progress::Done(
                    Err(ClientError::VersionResolution(cause)),
                ),
            },
            Stage::Flat { core, getter_name, getter, found } => match reply {
                Ok(entry) => {
                    let mut found = found;
                    found.push(entry);
                    if found.len() < FLAT_COUNT {
                        Progress::Need(
                            Loader { lib, stage: Stage::Flat { core, getter_name, getter, found } },
                        )
                    } else {
                        let apps = SteamAppsFns {
                            bis_dlc_installed: found[0],
                            bis_low_violence: found[1],
                            bis_subscribed: found[2],
                            bis_subscribed_app: found[3],
                            bis_subscribed_from_family_sharing: found[4],
                            bis_subscribed_from_free_weekend: found[5],
                            bis_vac_banned: found[6],
                            get_dlc_count: found[7],
                        };
                        let api = SteamApi {
                            library: lib,
                            init: core[0],
                            shutdown: core[1],
                            is_running: core[2],
                            run_callbacks: core[3],
                            steamapps_getter_name: getter_name,
                            steamapps_getter: getter,
                            apps,
                        };
                        assert(api@.core =~= core@);
                        assert(api@.flat =~= found@);
                        Progress::Done(Ok(api))
                    }
                },
                Err(cause) => Progress::Done(Err(ClientError::Load(cause))),
            },
        }
    }
}

/// What was found so far in the flat stage is what `exports` answers.
spec fn flat_agrees(
    found: Seq<usize>,
    exports: spec_fn(Seq<char>) -> Result<usize, libloading::Error>,
) -> bool {
    forall|j: int|
        0 <= j < found.len() ==> exports(#[trigger] flat_names()[j]) == Ok::<
            usize,
            libloading::Error,
        >(found[j])
}

/// What was found so far in the core stage is what `exports` answers.
spec fn core_agrees(
    found: Seq<usize>,
    exports: spec_fn(Seq<char>) -> Result<usize, libloading::Error>,
) -> bool {
    forall|j: int|
        0 <= j < found.len() ==> exports(#[trigger] core_names()[j]) == Ok::<
            usize,
            libloading::Error,
        >(found[j])
}

/// From a flat stage whose findings are what `exports` answers, the run
/// ends in the failure of the first flat name that is missing, or in the
/// complete runtime if none is.
proof fn lemma_flat_run(
    view: LoaderView,
    exports: spec_fn(Seq<char>) -> Result<usize, libloading::Error>,
)
    requires
        view.wf(),
        view.stage is Flat,
        flat_agrees(view.stage->Flat_found, exports),
    ensures
        forall|i: int| #[trigger]
            first_failure(flat_names(), exports, i) ==> view.run(exports) == Err::<
                ApiView,
                ClientError,
            >(ClientError::Load(exports(flat_names()[i])->Err_0)),
        all_succeed(flat_names(), exports) ==> view.run(exports) == Ok::<ApiView, ClientError>(
            ApiView {
                library: view.library,
                core: view.stage->Flat_core,
                getter_name: view.stage->Flat_getter_name,
                getter: view.stage->Flat_getter,
                flat: entries(flat_names(), exports),
            },
        ),
    decreases view.remaining(),
{
    let found = view.stage->Flat_found;
    let at = found.len() as int;
    let reply = exports(view.pending());
    assert(view.pending() == flat_names()[at]);
    match view.step(reply) {
        ProgressView::Need(next) => {
            assert(flat_agrees(next.stage->Flat_found, exports)) by {
                assert forall|j: int| 0 <= j < found.len() + 1 implies exports(
                    #[trigger] flat_names()[j],
                ) == Ok::<usize, libloading::Error>(next.stage->Flat_found[j]) by {
                    if j < at {
                        assert(exports(flat_names()[j]) == Ok::<usize, libloading::Error>(found[j]));
                    }
                }
            }
            lemma_flat_run(next, exports);
        },
        ProgressView::Done(result) => {
            assert forall|i: int| #[trigger]
                first_failure(flat_names(), exports, i) implies view.run(exports) == Err::<
                ApiView,
                ClientError,
            >(ClientError::Load(exports(flat_names()[i])->Err_0)) by {
                if i < at {
                    assert(exports(flat_names()[i]) is Ok);
                } else if i > at {
                    assert(exports(flat_names()[at]) is Ok);
                }
            }
            if all_succeed(flat_names(), exports) {
                assert(exports(flat_names()[at]) is Ok);
                let entry = reply->Ok_0;
                assert(found.push(entry) =~= entries(flat_names(), exports)) by {
                    assert forall|j: int| 0 <= j < FLAT_COUNT implies found.push(entry)[j]
                        == entries(flat_names(), exports)[j] by {
                        if j < at {
                            assert(exports(flat_names()[j]) == Ok::<usize, libloading::Error>(
                                found[j],
                            ));
                        }
                    }
                }
            }
        },
    }
}

/// From an accessor stage in which every candidate tried so far fails in
/// `exports`, the run ends as the first resolving candidate and the flat
/// names decide, or in the failure of the last candidate if none resolves.
proof fn lemma_accessor_run(
    view: LoaderView,
    exports: spec_fn(Seq<char>) -> Result<usize, libloading::Error>,
)
    requires
        view.wf(),
        view.stage is Accessor,
        forall|j: int|
            0 <= j < view.stage->Accessor_resolver.tried ==> exports(
                #[trigger] accessor_names()[j],
            ) is Err,
    ensures
        all_fail(accessor_names(), exports) ==> view.run(exports) == Err::<ApiView, ClientError>(
            ClientError::VersionResolution(exports(accessor_names().last())->Err_0),
        ),
        forall|k: int, i: int|
            #![trigger first_success(accessor_names(), exports, k), first_failure(flat_names(), exports, i)]
            first_success(accessor_names(), exports, k) && first_failure(
                flat_names(),
                exports,
                i,
            ) ==> view.run(exports) == Err::<ApiView, ClientError>(
                ClientError::Load(exports(flat_names()[i])->Err_0),
            ),
        forall|k: int| #[trigger]
            first_success(accessor_names(), exports, k) && all_succeed(flat_names(), exports)
                ==> view.run(exports) == Ok::<ApiView, ClientError>(
                ApiView {
                    library: view.library,
                    core: view.stage->Accessor_core,
                    getter_name: accessor_names()[k],
                    getter: exports(accessor_names()[k])->Ok_0,
                    flat: entries(flat_names(), exports),
                },
            ),
    decreases view.remaining(),
{
    let resolver = view.stage->Accessor_resolver;
    let at = resolver.tried as int;
    let reply = exports(view.pending());
    assert(view.pending() == accessor_names()[at]);
    match view.step(reply) {
        ProgressView::Need(next) => {
            if next.stage is Accessor {
                assert(reply is Err);
                assert forall|j: int| 0 <= j < next.stage->Accessor_resolver.tried implies exports(
                    #[trigger] accessor_names()[j],
                ) is Err by {
                    if j < at {
                        assert(exports(accessor_names()[j]) is Err);
                    }
                }
                lemma_accessor_run(next, exports);
            } else {
                assert(reply is Ok);
                assert(flat_agrees(next.stage->Flat_found, exports));
                lemma_flat_run(next, exports);
                assert forall|k: int| #[trigger]
                    first_success(accessor_names(), exports, k) implies k == at by {
                    if k < at {
                        assert(exports(accessor_names()[k]) is Err);
                    } else if k > at {
                        assert(exports(accessor_names()[at]) is Err);
                    }
                }
                if all_fail(accessor_names(), exports) {
                    assert(exports(accessor_names()[at]) is Err);
                }
            }
        },
        ProgressView::Done(result) => {
            assert(reply is Err);
            assert(at + 1 == accessor_names().len());
            assert(accessor_names().last() == accessor_names()[at]);
            assert forall|k: int| #[trigger]
                first_success(accessor_names(), exports, k) implies false by {
                if k < at {
                    assert(exports(accessor_names()[k]) is Err);
                }
            }
        },
    }
}

/// From a core stage whose findings are what `exports` answers, the run
/// ends in the failure of the first core name that is missing, or as the
/// accessor candidates and the flat names decide if none is.
proof fn lemma_core_run(
    view: LoaderView,
    exports: spec_fn(Seq<char>) -> Result<usize, libloading::Error>,
)
    requires
        view.wf(),
        view.stage is Core,
        core_agrees(view.stage->Core_found, exports),
    ensures
        forall|i: int| #[trigger]
            first_failure(core_names(), exports, i) ==> view.run(exports) == Err::<
                ApiView,
                ClientError,
            >(ClientError::Load(exports(core_names()[i])->Err_0)),
        all_succeed(core_names(), exports) && all_fail(accessor_names(), exports) ==> view.run(
            exports,
        ) == Err::<ApiView, ClientError>(
            ClientError::VersionResolution(exports(accessor_names().last())->Err_0),
        ),
        forall|k: int, i: int|
            #![trigger first_success(accessor_names(), exports, k), first_failure(flat_names(), exports, i)]
            all_succeed(core_names(), exports) && first_success(accessor_names(), exports, k)
                && first_failure(flat_names(), exports, i) ==> view.run(exports) == Err::<
                ApiView,
                ClientError,
            >(ClientError::Load(exports(flat_names()[i])->Err_0)),
        forall|k: int| #[trigger]
            first_success(accessor_names(), exports, k) && all_succeed(core_names(), exports)
                && all_succeed(flat_names(), exports) ==> view.run(exports) == Ok::<
                ApiView,
                ClientError,
            >(
                ApiView {
                    library: view.library,
                    core: entries(core_names(), exports),
                    getter_name: accessor_names()[k],
                    getter: exports(accessor_names()[k])->Ok_0,
                    flat: entries(flat_names(), exports),
                },
            ),
    decreases view.remaining(),
{
    let found = view.stage->Core_found;
    let at = found.len() as int;
    let reply = exports(view.pending());
    assert(view.pending() == core_names()[at]);
    match view.step(reply) {
        ProgressView::Need(next) => {
            assert(reply is Ok);
            let entry = reply->Ok_0;
            assert forall|i: int| #[trigger]
                first_failure(core_names(), exports, i) implies i > at by {
                if i < at {
                    assert(exports(core_names()[i]) is Ok);
                }
            }
            assert(core_agrees(found.push(entry), exports)) by {
                assert forall|j: int| 0 <= j < at + 1 implies exports(
                    #[trigger] core_names()[j],
                ) == Ok::<usize, libloading::Error>(found.push(entry)[j]) by {
                    if j < at {
                        assert(exports(core_names()[j]) == Ok::<usize, libloading::Error>(
                            found[j],
                        ));
                    }
                }
            }
            if next.stage is Core {
                lemma_core_run(next, exports);
            } else {
                lemma_accessor_run(next, exports);
                assert forall|i: int| #[trigger]
                    first_failure(core_names(), exports, i) implies false by {
                    assert(exports(core_names()[i]) is Ok);
                }
                if all_succeed(core_names(), exports) {
                    assert(found.push(entry) =~= entries(core_names(), exports)) by {
                        assert forall|j: int| 0 <= j < CORE_COUNT implies found.push(entry)[j]
                            == entries(core_names(), exports)[j] by {
                            assert(exports(core_names()[j]) == Ok::<usize, libloading::Error>(
                                found.push(entry)[j],
                            ));
                        }
                    }
                }
            }
        },
        ProgressView::Done(result) => {
            assert(reply is Err);
            assert forall|i: int| #[trigger]
                first_failure(core_names(), exports, i) implies i == at by {
                if i < at {
                    assert(exports(core_names()[i]) is Ok);
                } else if i > at {
                    assert(exports(core_names()[at]) is Ok);
                }
            }
            if all_succeed(core_names(), exports) {
                assert(exports(core_names()[at]) is Ok);
            }
        },
    }
}

/// A missing core entry point is a hard failure: where name `i` of the core
/// list is the first that the module lacks, the load ends in a load failure
/// that carries the module's failure for that name, whatever else the module
/// exports.
pub proof fn lemma_missing_core_symbol_fails(
    library: libloading::Library,
    exports: spec_fn(Seq<char>) -> Result<usize, libloading::Error>,
    i: int,
)
    requires
        first_failure(core_names(), exports, i),
    ensures
        loaded(library, exports) == Err::<ApiView, ClientError>(
            ClientError::Load(exports(core_names()[i])->Err_0),
        ),
{
    lemma_core_run(LoaderView::initial(library), exports);
}

/// Where the core entry points resolve and no accessor candidate does, the
/// load ends in a version resolution failure that carries the failure of the
/// last candidate.
pub proof fn lemma_unresolved_accessor_fails(
    library: libloading::Library,
    exports: spec_fn(Seq<char>) -> Result<usize, libloading::Error>,
)
    requires
        all_succeed(core_names(), exports),
        all_fail(accessor_names(), exports),
    ensures
        loaded(library, exports) == Err::<ApiView, ClientError>(
            ClientError::VersionResolution(exports(accessor_names().last())->Err_0),
        ),
{
    lemma_core_run(LoaderView::initial(library), exports);
}

/// Where the core entry points and an accessor candidate resolve, and name
/// `i` of the flat list is the first that the module lacks, the load ends in
/// a load failure that carries the module's failure for that name.
pub proof fn lemma_missing_flat_symbol_fails(
    library: libloading::Library,
    exports: spec_fn(Seq<char>) -> Result<usize, libloading::Error>,
    k: int,
    i: int,
)
    requires
        all_succeed(core_names(), exports),
        first_success(accessor_names(), exports, k),
        first_failure(flat_names(), exports, i),
    ensures
        loaded(library, exports) == Err::<ApiView, ClientError>(
            ClientError::Load(exports(flat_names()[i])->Err_0),
        ),
{
    lemma_core_run(LoaderView::initial(library), exports);
}

/// Where the module exports every core entry point and every flat call, and
/// accessor candidate `k` is the first that resolves, the load ends in a
/// runtime that owns the module and holds exactly the addresses that the
/// module gave, with the accessor under the name of candidate `k`.
pub proof fn lemma_complete_module_loads(
    library: libloading::Library,
    exports: spec_fn(Seq<char>) -> Result<usize, libloading::Error>,
    k: int,
)
    requires
        all_succeed(core_names(), exports),
        first_success(accessor_names(), exports, k),
        all_succeed(flat_names(), exports),
    ensures
        loaded(library, exports) == Ok::<ApiView, ClientError>(
            ApiView {
                library,
                core: entries(core_names(), exports),
                getter_name: accessor_names()[k],
                getter: exports(accessor_names()[k])->Ok_0,
                flat: entries(flat_names(), exports),
            },
        ),
{
    lemma_core_run(LoaderView::initial(library), exports);
}

} // verus!
