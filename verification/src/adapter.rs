use vstd::prelude::*;
use crate::error::BuildError;
use crate::error::ConfigurationError;
use crate::filter::FilterIdResult;
use crate::hooks::BuildEndInput;
use crate::hooks::BuildPhase;
use crate::hooks::CallbackRef;
use crate::hooks::HookHandle;
use crate::hooks::HookKind;
use crate::hooks::HookResolveIdArgs;
use crate::hooks::HookResolveIdArgsOptions;
use crate::hooks::LoadInput;
use crate::hooks::PluginOptions;
use crate::hooks::ResolveIdInput;
use crate::hooks::ResolveIdResult;
use crate::hooks::SourceResult;
use crate::hooks::TraceEvent;
use crate::hooks::TransformInput;

verus! {

/// What `load_filters` asks of its caller: the cached filter result is
/// ready for use, or the `filter_id` callback must first be invoked at
/// the boundary and its result handed to `commit_filters`.
#[derive(Clone, Copy, PartialEq, Eq, Structural, Debug)]
pub enum FilterPlan {
    Ready,
    AwaitFilterId,
}

/// What a gated hook method asks of its caller: compute the filters
/// first, skip the callback and use the neutral default, or cross the
/// boundary with the given marshaled arguments.
pub enum LoadPlan {
    AwaitFilters,
    Defer,
    Invoke(LoadInput),
}

/// As `LoadPlan`, for the `transform` hook. `Defer` here means "pass
/// the source through unchanged".
pub enum TransformPlan {
    AwaitFilters,
    Defer,
    Invoke(TransformInput),
}

/// The record grows by exactly one crossing of the given hook; a
/// per-module hook records the id it was crossed for.
pub open spec fn records_one_more(
    old_t: Seq<TraceEvent>,
    new_t: Seq<TraceEvent>,
    hook: HookKind,
    id: Option<Seq<char>>,
) -> bool {
    &&& new_t.len() == old_t.len() + 1
    &&& new_t.drop_last() =~= old_t
    &&& new_t.last().hook == hook
    &&& (match id {
        Some(s) => new_t.last().id matches Some(t) && t@ == s,
        None => new_t.last().id is None,
    })
}

proof fn lemma_push_keeps_filter_witness(old_t: Seq<TraceEvent>, new_t: Seq<TraceEvent>)
    requires
        new_t.len() == old_t.len() + 1,
        forall|i: int| 0 <= i < old_t.len() ==> new_t[i] == old_t[i],
        exists|i: int| 0 <= i < old_t.len() && (#[trigger] old_t[i]).hook is FilterId,
    ensures
        exists|i: int| 0 <= i < new_t.len() && (#[trigger] new_t[i]).hook is FilterId,
{
    let i = choose|i: int| 0 <= i < old_t.len() && (#[trigger] old_t[i]).hook is FilterId;
    assert(new_t[i].hook is FilterId);
}

/// One plugin instance: the immutable hook registry built from its
/// configuration, the write-once filter cache, the lifecycle phase,
/// and the record of completed boundary crossings.
pub struct JsAdapterPlugin {
    pub name: String,
    build_start_fn: Option<HookHandle>,
    resolve_id_fn: Option<HookHandle>,
    filter_id_fn: Option<HookHandle>,
    load_fn: Option<HookHandle>,
    transform_fn: Option<HookHandle>,
    build_end_fn: Option<HookHandle>,
    filters_cache: Option<FilterIdResult>,
    phase: BuildPhase,
    trace: Vec<TraceEvent>,
}

impl JsAdapterPlugin {
    pub closed spec fn spec_name(self) -> Seq<char> {
        self.name@
    }

    pub closed spec fn has_build_start(self) -> bool {
        self.build_start_fn is Some
    }

    pub closed spec fn has_resolve_id(self) -> bool {
        self.resolve_id_fn is Some
    }

    pub closed spec fn has_filter_id(self) -> bool {
        self.filter_id_fn is Some
    }

    pub closed spec fn has_load(self) -> bool {
        self.load_fn is Some
    }

    pub closed spec fn has_transform(self) -> bool {
        self.transform_fn is Some
    }

    pub closed spec fn has_build_end(self) -> bool {
        self.build_end_fn is Some
    }

    /// The filter cache has been committed.
    pub closed spec fn filters_ready(self) -> bool {
        self.filters_cache is Some
    }

    /// The committed filter result; meaningful only when
    /// `filters_ready` holds.
    pub closed spec fn filters_value(self) -> FilterIdResult {
        self.filters_cache->Some_0
    }

    pub closed spec fn phase(self) -> BuildPhase {
        self.phase
    }

    /// The completed boundary crossings, in order.
    pub closed spec fn recorded(self) -> Seq<TraceEvent> {
        self.trace@
    }

    /// The registry and name are fixed at construction: no method
    /// changes them.
    pub open spec fn same_registry(self, other: JsAdapterPlugin) -> bool {
        &&& self.spec_name() == other.spec_name()
        &&& self.has_build_start() == other.has_build_start()
        &&& self.has_resolve_id() == other.has_resolve_id()
        &&& self.has_filter_id() == other.has_filter_id()
        &&& self.has_load() == other.has_load()
        &&& self.has_transform() == other.has_transform()
        &&& self.has_build_end() == other.has_build_end()
    }

    /// The filter cache is write-once: once committed it keeps its
    /// value.
    pub open spec fn cache_preserved(self, other: JsAdapterPlugin) -> bool {
        self.filters_ready() ==> {
            &&& other.filters_ready()
            &&& other.filters_value() == self.filters_value()
        }
    }

    /// What must hold of one recorded crossing: a hook is only ever
    /// recorded when the registry holds its handle; `build_start` can
    /// only be the first crossing and `build_end` only the last, after
    /// the build ended; the gated hooks carry a module id the
    /// committed filter admits; and a `filter_id` crossing commits the
    /// cache.
    spec fn event_ok(self, e: TraceEvent, i: int) -> bool {
        match e.hook {
            HookKind::BuildStart => i == 0 && self.has_build_start() && e.id is None,
            HookKind::ResolveId => self.has_resolve_id() && e.id is Some,
            HookKind::FilterId => self.has_filter_id() && self.filters_ready() && e.id is None,
            HookKind::Load => {
                &&& self.has_load()
                &&& e.id is Some
                &&& self.filters_ready()
                &&& self.filters_value().spec_matches(e.id->Some_0@)
            },
            HookKind::Transform => {
                &&& self.has_transform()
                &&& e.id is Some
                &&& self.filters_ready()
                &&& self.filters_value().spec_matches(e.id->Some_0@)
            },
            HookKind::BuildEnd => {
                &&& self.has_build_end()
                &&& i == self.recorded().len() - 1
                &&& self.phase() is Ended
                &&& e.id is None
            },
        }
    }

    /// The plugin instance's invariant: well-formed handles, an empty
    /// record and cache before the build starts, every recorded
    /// crossing justified, at most one `filter_id` crossing, and a
    /// cache committed without a `filter_id` hook holding the
    /// unfiltered default.
    pub closed spec fn inv(self) -> bool {
        &&& (self.build_start_fn matches Some(h) ==> h.wf())
        &&& (self.resolve_id_fn matches Some(h) ==> h.wf())
        &&& (self.filter_id_fn matches Some(h) ==> h.wf())
        &&& (self.load_fn matches Some(h) ==> h.wf())
        &&& (self.transform_fn matches Some(h) ==> h.wf())
        &&& (self.build_end_fn matches Some(h) ==> h.wf())
        &&& (self.phase is Configured ==> self.trace@.len() == 0 && self.filters_cache is None)
        &&& (forall|i: int|
            0 <= i < self.trace@.len() ==> self.event_ok(#[trigger] self.trace@[i], i))
        &&& (forall|i: int, j: int|
            0 <= i < self.trace@.len() && 0 <= j < self.trace@.len()
                && #[trigger] self.trace@[i].hook is FilterId
                && #[trigger] self.trace@[j].hook is FilterId ==> i == j)
        &&& (self.filter_id_fn is None ==> (self.filters_cache matches Some(f)
            ==> f.is_unfiltered()))
        &&& (self.filter_id_fn is Some && self.filters_cache is Some ==> exists|i: int|
            0 <= i < self.trace@.len() && (#[trigger] self.trace@[i]).hook is FilterId)
    }

    /// Builds the hook registry from a configuration: every present
    /// callable is bound, absent fields produce no handle, and the
    /// first reference that cannot be bound fails the whole
    /// construction before any build work starts. Construction invokes
    /// no hook and leaves the filter cache empty.
    pub fn new(option: PluginOptions) -> (r: Result<JsAdapterPlugin, ConfigurationError>)
        ensures
            r is Ok <==> option.all_bindable(),
            r matches Ok(p) ==> {
                &&& p.inv()
                &&& p.spec_name() == option.name@
                &&& p.has_build_start() == (option.build_start is Some)
                &&& p.has_resolve_id() == (option.resolve_id is Some)
                &&& p.has_filter_id() == (option.filter_id is Some)
                &&& p.has_load() == (option.load is Some)
                &&& p.has_transform() == (option.transform is Some)
                &&& p.has_build_end() == (option.build_end is Some)
                &&& !p.filters_ready()
                &&& p.phase() is Configured
                &&& p.recorded().len() == 0
            },
            r matches Err(e) ==> {
                &&& e.plugin@ == option.name@
                &&& e.hook == option.first_unbindable()
            },
    {
        let build_start_fn = match bind_optional(
            &option.build_start,
            HookKind::BuildStart,
            &option.name,
        ) {
            Ok(h) => h,
            Err(e) => {
                return Err(e);
            },
        };
        let resolve_id_fn = match bind_optional(
            &option.resolve_id,
            HookKind::ResolveId,
            &option.name,
        ) {
            Ok(h) => h,
            Err(e) => {
                return Err(e);
            },
        };
        let filter_id_fn = match bind_optional(
            &option.filter_id,
            HookKind::FilterId,
            &option.name,
        ) {
            Ok(h) => h,
            Err(e) => {
                return Err(e);
            },
        };
        let load_fn = match bind_optional(&option.load, HookKind::Load, &option.name) {
            Ok(h) => h,
            Err(e) => {
                return Err(e);
            },
        };
        let transform_fn = match bind_optional(
            &option.transform,
            HookKind::Transform,
            &option.name,
        ) {
            Ok(h) => h,
            Err(e) => {
                return Err(e);
            },
        };
        let build_end_fn = match bind_optional(
            &option.build_end,
            HookKind::BuildEnd,
            &option.name,
        ) {
            Ok(h) => h,
            Err(e) => {
                return Err(e);
            },
        };
        Ok(JsAdapterPlugin {
            name: option.name,
            build_start_fn,
            resolve_id_fn,
            filter_id_fn,
            load_fn,
            transform_fn,
            build_end_fn,
            filters_cache: None,
            phase: BuildPhase::Configured,
            trace: Vec::new(),
        })
    }

    /// As `new`, but boxed, for a pipeline that stores its plugins
    /// behind one pointer type.
    pub fn new_boxed(option: PluginOptions) -> (r: Result<
        Box<JsAdapterPlugin>,
        ConfigurationError,
    >)
        ensures
            r is Ok <==> option.all_bindable(),
            r matches Ok(p) ==> {
                &&& p.inv()
                &&& p.spec_name() == option.name@
                &&& p.has_build_start() == (option.build_start is Some)
                &&& p.has_resolve_id() == (option.resolve_id is Some)
                &&& p.has_filter_id() == (option.filter_id is Some)
                &&& p.has_load() == (option.load is Some)
                &&& p.has_transform() == (option.transform is Some)
                &&& p.has_build_end() == (option.build_end is Some)
                &&& !p.filters_ready()
                &&& p.phase() is Configured
                &&& p.recorded().len() == 0
            },
            r matches Err(e) ==> {
                &&& e.plugin@ == option.name@
                &&& e.hook == option.first_unbindable()
            },
    {
        match Self::new(option) {
            Ok(p) => Ok(Box::new(p)),
            Err(e) => Err(e),
        }
    }

    /// The plugin's identity, exposed for diagnostics and
    /// registration.
    pub fn name(&self) -> (r: String)
        ensures
            r@ == self.spec_name(),
    {
        self.name.clone()
    }

    /// The committed filter result.
    pub fn filters(&self) -> (r: &FilterIdResult)
        requires
            self.filters_ready(),
        ensures
            *r == self.filters_value(),
    {
        match &self.filters_cache {
            Some(f) => f,
            None => vstd::pervasive::unreached(),
        }
    }

    /// The record of completed boundary crossings.
    pub fn trace(&self) -> (t: &Vec<TraceEvent>)
        ensures
            t@ == self.recorded(),
    {
        &self.trace
    }

    pub fn current_phase(&self) -> (p: BuildPhase)
        ensures
            p == self.phase(),
    {
        self.phase
    }

    /// Enters the build. The boundary must be crossed for the
    /// `build_start` callback exactly when the plugin implements it;
    /// an absent hook is a no-op success and the boundary stays
    /// untouched.
    pub fn build_start(&mut self) -> (invoke: bool)
        requires
            old(self).inv(),
            old(self).phase() is Configured,
        ensures
            final(self).inv(),
            old(self).same_registry(*final(self)),
            final(self).phase() is Started,
            !final(self).filters_ready(),
            invoke == old(self).has_build_start(),
            invoke ==> records_one_more(
                old(self).recorded(),
                final(self).recorded(),
                HookKind::BuildStart,
                None,
            ),
            !invoke ==> final(self).recorded() == old(self).recorded(),
    {
        self.phase = BuildPhase::Started;
        if self.build_start_fn.is_some() {
            self.trace.push(TraceEvent { hook: HookKind::BuildStart, id: None });
            true
        } else {
            false
        }
    }

    /// The memoized filter computation. Once a result is committed
    /// every later call answers `Ready` from the cache without
    /// touching the boundary; before that, a plugin without a
    /// `filter_id` hook commits the unfiltered default on the spot,
    /// and one with the hook asks the caller to invoke it and commit
    /// what it returns. A failed invocation commits nothing, so a
    /// later call simply asks again: failure cannot poison the cache.
    pub fn load_filters(&mut self) -> (p: FilterPlan)
        requires
            old(self).inv(),
            old(self).phase() is Started,
        ensures
            final(self).inv(),
            old(self).same_registry(*final(self)),
            final(self).phase() is Started,
            final(self).recorded() == old(self).recorded(),
            old(self).cache_preserved(*final(self)),
            old(self).filters_ready() ==> p is Ready && *final(self) == *old(self),
            !old(self).filters_ready() && !old(self).has_filter_id() ==> {
                &&& p is Ready
                &&& final(self).filters_ready()
                &&& final(self).filters_value().is_unfiltered()
            },
            !old(self).filters_ready() && old(self).has_filter_id() ==> {
                &&& p is AwaitFilterId
                &&& *final(self) == *old(self)
            },
            p is Ready <==> final(self).filters_ready(),
    {
        if self.filters_cache.is_some() {
            FilterPlan::Ready
        } else if self.filter_id_fn.is_some() {
            FilterPlan::AwaitFilterId
        } else {
            self.filters_cache = Some(FilterIdResult::default());
            FilterPlan::Ready
        }
    }

    /// Commits the result one `filter_id` invocation returned. Only
    /// the first successful computation can commit: the cache is
    /// write-once, and all later readers observe this value.
    pub fn commit_filters(&mut self, result: FilterIdResult)
        requires
            old(self).inv(),
            old(self).phase() is Started,
            !old(self).filters_ready(),
            old(self).has_filter_id(),
        ensures
            final(self).inv(),
            old(self).same_registry(*final(self)),
            final(self).phase() is Started,
            final(self).filters_ready(),
            final(self).filters_value() == result,
            records_one_more(
                old(self).recorded(),
                final(self).recorded(),
                HookKind::FilterId,
                None,
            ),
    {
        self.filters_cache = Some(result);
        self.trace.push(TraceEvent { hook: HookKind::FilterId, id: None });
        proof {
            assert(self.trace@[self.trace@.len() - 1].hook is FilterId);
        }
    }

    /// The single gate `load` and `transform` consult: whether the
    /// committed filter admits the candidate id.
    pub fn is_id_filtered(&self, id: &str) -> (b: bool)
        requires
            self.filters_ready(),
        ensures
            b == self.filters_value().spec_matches(id@),
    {
        self.filters().matches(id)
    }

    /// Per import specifier. Not gated by the filter: the boundary is
    /// crossed exactly when the plugin implements `resolve_id`, with
    /// the pipeline's arguments marshaled into the callback's shape;
    /// an absent hook defers to the pipeline's default resolution.
    pub fn resolve_id(&mut self, args: &HookResolveIdArgs) -> (inp: Option<ResolveIdInput>)
        requires
            old(self).inv(),
            old(self).phase() is Started,
        ensures
            final(self).inv(),
            old(self).same_registry(*final(self)),
            final(self).phase() is Started,
            old(self).cache_preserved(*final(self)),
            final(self).filters_ready() == old(self).filters_ready(),
            inp is Some <==> old(self).has_resolve_id(),
            inp matches Some(i) ==> {
                &&& i.specifier@ == args.source@
                &&& i.importer == args.importer
                &&& i.options.is_entry == args.options.is_entry
            },
            old(self).has_resolve_id() ==> records_one_more(
                old(self).recorded(),
                final(self).recorded(),
                HookKind::ResolveId,
                Some(args.source@),
            ),
            !old(self).has_resolve_id() ==> final(self).recorded() == old(self).recorded(),
    {
        if self.resolve_id_fn.is_some() {
            self.trace.push(
                TraceEvent { hook: HookKind::ResolveId, id: Some(args.source.clone()) },
            );
            proof {
                if old(self).has_filter_id() && old(self).filters_ready() {
                    lemma_push_keeps_filter_witness(old(self).trace@, self.trace@);
                }
            }
            let importer = match &args.importer {
                Some(s) => Some(s.clone()),
                None => None,
            };
            Some(
                ResolveIdInput {
                    specifier: args.source.clone(),
                    importer,
                    options: HookResolveIdArgsOptions::from_options(&args.options),
                },
            )
        } else {
            None
        }
    }

    /// Per resolved module id, gated by the filter. The caller first
    /// computes the filters if asked to; then the boundary is crossed
    /// exactly when the plugin implements `load` and the filter admits
    /// the id. Otherwise the plugin produces no content and the
    /// pipeline's default loader takes over, without the boundary
    /// being touched.
    pub fn load(&mut self, id: &str) -> (plan: LoadPlan)
        requires
            old(self).inv(),
            old(self).phase() is Started,
        ensures
            final(self).inv(),
            old(self).same_registry(*final(self)),
            final(self).phase() is Started,
            old(self).cache_preserved(*final(self)),
            !old(self).filters_ready() && old(self).has_filter_id() ==> {
                &&& plan is AwaitFilters
                &&& *final(self) == *old(self)
            },
            old(self).filters_ready() || !old(self).has_filter_id() ==> {
                &&& final(self).filters_ready()
                &&& (old(self).has_load() && final(self).filters_value().spec_matches(id@) ==> {
                    &&& (plan matches LoadPlan::Invoke(inp) && inp.id@ == id@)
                    &&& records_one_more(
                        old(self).recorded(),
                        final(self).recorded(),
                        HookKind::Load,
                        Some(id@),
                    )
                })
                &&& (!(old(self).has_load() && final(self).filters_value().spec_matches(id@))
                    ==> plan is Defer && final(self).recorded() == old(self).recorded())
            },
            !old(self).has_filter_id() && old(self).has_load() ==> (plan matches LoadPlan::Invoke(
                inp,
            ) && inp.id@ == id@),
    {
        match self.load_filters() {
            FilterPlan::AwaitFilterId => LoadPlan::AwaitFilters,
            FilterPlan::Ready => {
                proof {
                    if self.filter_id_fn is None {
                        crate::filter::lemma_unfiltered_matches_all(self.filters_value(), id@);
                    }
                }
                if self.load_fn.is_some() && self.is_id_filtered(id) {
                    self.trace.push(TraceEvent { hook: HookKind::Load, id: Some(id.to_owned()) });
                    proof {
                        if old(self).has_filter_id() && old(self).filters_ready() {
                            lemma_push_keeps_filter_witness(old(self).trace@, self.trace@);
                        }
                    }
                    LoadPlan::Invoke(LoadInput { id: id.to_owned() })
                } else {
                    LoadPlan::Defer
                }
            },
        }
    }

    /// Per loaded module's source text, gated by the filter exactly as
    /// `load` is. An absent hook or an id the filter rejects passes
    /// the source through unchanged, without the boundary being
    /// touched.
    pub fn transform(&mut self, code: &str, id: &str) -> (plan: TransformPlan)
        requires
            old(self).inv(),
            old(self).phase() is Started,
        ensures
            final(self).inv(),
            old(self).same_registry(*final(self)),
            final(self).phase() is Started,
            old(self).cache_preserved(*final(self)),
            !old(self).filters_ready() && old(self).has_filter_id() ==> {
                &&& plan is AwaitFilters
                &&& *final(self) == *old(self)
            },
            old(self).filters_ready() || !old(self).has_filter_id() ==> {
                &&& final(self).filters_ready()
                &&& (old(self).has_transform() && final(self).filters_value().spec_matches(id@)
                    ==> {
                    &&& (plan matches TransformPlan::Invoke(inp) && inp.id@ == id@ && inp.code@
                        == code@)
                    &&& records_one_more(
                        old(self).recorded(),
                        final(self).recorded(),
                        HookKind::Transform,
                        Some(id@),
                    )
                })
                &&& (!(old(self).has_transform() && final(self).filters_value().spec_matches(
                    id@,
                )) ==> plan is Defer && final(self).recorded() == old(self).recorded())
            },
            !old(self).has_filter_id() && old(self).has_transform() ==> (plan matches
                TransformPlan::Invoke(inp) && inp.id@ == id@ && inp.code@ == code@),
    {
        match self.load_filters() {
            FilterPlan::AwaitFilterId => TransformPlan::AwaitFilters,
            FilterPlan::Ready => {
                proof {
                    if self.filter_id_fn is None {
                        crate::filter::lemma_unfiltered_matches_all(self.filters_value(), id@);
                    }
                }
                if self.transform_fn.is_some() && self.is_id_filtered(id) {
                    self.trace.push(
                        TraceEvent { hook: HookKind::Transform, id: Some(id.to_owned()) },
                    );
                    proof {
                        if old(self).has_filter_id() && old(self).filters_ready() {
                            lemma_push_keeps_filter_witness(old(self).trace@, self.trace@);
                        }
                    }
                    TransformPlan::Invoke(
                        TransformInput { code: code.to_owned(), id: id.to_owned() },
                    )
                } else {
                    TransformPlan::Defer
                }
            },
        }
    }

    /// Ends the build. The boundary must be crossed for the
    /// `build_end` callback exactly when the plugin implements it,
    /// handing over the build failure description if the build failed;
    /// an absent hook is a no-op success.
    pub fn build_end(&mut self, error: Option<&str>) -> (inp: Option<BuildEndInput>)
        requires
            old(self).inv(),
            old(self).phase() is Started,
        ensures
            final(self).inv(),
            old(self).same_registry(*final(self)),
            final(self).phase() is Ended,
            old(self).cache_preserved(*final(self)),
            inp is Some <==> old(self).has_build_end(),
            inp matches Some(i) ==> {
                &&& (i.error is Some <==> error is Some)
                &&& (error matches Some(e) ==> i.error matches Some(s) && s@ == e@)
            },
            old(self).has_build_end() ==> records_one_more(
                old(self).recorded(),
                final(self).recorded(),
                HookKind::BuildEnd,
                None,
            ),
            !old(self).has_build_end() ==> final(self).recorded() == old(self).recorded(),
    {
        self.phase = BuildPhase::Ended;
        if self.build_end_fn.is_some() {
            self.trace.push(TraceEvent { hook: HookKind::BuildEnd, id: None });
            proof {
                if old(self).has_filter_id() && old(self).filters_ready() {
                    lemma_push_keeps_filter_witness(old(self).trace@, self.trace@);
                }
            }
            let message = match error {
                Some(e) => Some(e.to_owned()),
                None => None,
            };
            Some(BuildEndInput { error: message })
        } else {
            None
        }
    }

    /// Re-expresses a failed `build_start` crossing in the pipeline's
    /// error domain; a successful one is a no-op success.
    pub fn complete_build_start(&self, outcome: Result<(), String>) -> (r: Result<(), BuildError>)
        ensures
            r is Ok <==> outcome is Ok,
            outcome matches Err(m) ==> (r matches Err(e) && {
                &&& e.plugin@ == self.spec_name()
                &&& e.hook is BuildStart
                &&& e.id is None
                &&& e.message == m
            }),
    {
        match outcome {
            Ok(u) => Ok(u),
            Err(m) => Err(
                BuildError::from_callback_failure(&self.name, HookKind::BuildStart, None, m),
            ),
        }
    }

    /// Passes a successful `resolve_id` result through unchanged and
    /// re-expresses a failure in the pipeline's error domain.
    pub fn complete_resolve_id(&self, outcome: Result<Option<ResolveIdResult>, String>) -> (r:
        Result<Option<ResolveIdResult>, BuildError>)
        ensures
            r is Ok <==> outcome is Ok,
            outcome matches Ok(v) ==> r matches Ok(w) && w == v,
            outcome matches Err(m) ==> (r matches Err(e) && {
                &&& e.plugin@ == self.spec_name()
                &&& e.hook is ResolveId
                &&& e.id is None
                &&& e.message == m
            }),
    {
        match outcome {
            Ok(v) => Ok(v),
            Err(m) => Err(
                BuildError::from_callback_failure(&self.name, HookKind::ResolveId, None, m),
            ),
        }
    }

    /// Passes a successful `load` result through unchanged and
    /// re-expresses a failure in the pipeline's error domain, tagged
    /// with the module id the crossing was for.
    pub fn complete_load(&self, id: &str, outcome: Result<Option<SourceResult>, String>) -> (r:
        Result<Option<SourceResult>, BuildError>)
        ensures
            r is Ok <==> outcome is Ok,
            outcome matches Ok(v) ==> r matches Ok(w) && w == v,
            outcome matches Err(m) ==> (r matches Err(e) && {
                &&& e.plugin@ == self.spec_name()
                &&& e.hook is Load
                &&& (e.id matches Some(s) && s@ == id@)
                &&& e.message == m
            }),
    {
        match outcome {
            Ok(v) => Ok(v),
            Err(m) => Err(
                BuildError::from_callback_failure(
                    &self.name,
                    HookKind::Load,
                    Some(id.to_owned()),
                    m,
                ),
            ),
        }
    }

    /// Passes a successful `transform` result through unchanged and
    /// re-expresses a failure in the pipeline's error domain, tagged
    /// with the module id the crossing was for.
    pub fn complete_transform(
        &self,
        id: &str,
        outcome: Result<Option<SourceResult>, String>,
    ) -> (r: Result<Option<SourceResult>, BuildError>)
        ensures
            r is Ok <==> outcome is Ok,
            outcome matches Ok(v) ==> r matches Ok(w) && w == v,
            outcome matches Err(m) ==> (r matches Err(e) && {
                &&& e.plugin@ == self.spec_name()
                &&& e.hook is Transform
                &&& (e.id matches Some(s) && s@ == id@)
                &&& e.message == m
            }),
    {
        match outcome {
            Ok(v) => Ok(v),
            Err(m) => Err(
                BuildError::from_callback_failure(
                    &self.name,
                    HookKind::Transform,
                    Some(id.to_owned()),
                    m,
                ),
            ),
        }
    }

    /// Re-expresses a failed `build_end` crossing in the pipeline's
    /// error domain; a successful one is a no-op success.
    pub fn complete_build_end(&self, outcome: Result<(), String>) -> (r: Result<(), BuildError>)
        ensures
            r is Ok <==> outcome is Ok,
            outcome matches Err(m) ==> (r matches Err(e) && {
                &&& e.plugin@ == self.spec_name()
                &&& e.hook is BuildEnd
                &&& e.id is None
                &&& e.message == m
            }),
    {
        match outcome {
            Ok(u) => Ok(u),
            Err(m) => Err(
                BuildError::from_callback_failure(&self.name, HookKind::BuildEnd, None, m),
            ),
        }
    }

    /// Re-expresses a failed `filter_id` crossing: it surfaces from
    /// whichever gated hook triggered the computation, tagged with the
    /// `filter_id` hook itself. Nothing was committed, so a later hook
    /// call is free to recompute.
    pub fn filter_failure(&self, message: String) -> (e: BuildError)
        ensures
            e.plugin@ == self.spec_name(),
            e.hook is FilterId,
            e.id is None,
            e.message == message,
    {
        BuildError::from_callback_failure(&self.name, HookKind::FilterId, None, message)
    }
}

/// An absent hook is a supported configuration, not a degraded state:
/// the boundary is never crossed for a hook the plugin does not
/// implement, so no recorded crossing names one.
pub proof fn lemma_absent_hooks_never_crossed(p: &JsAdapterPlugin)
    requires
        p.inv(),
    ensures
        forall|i: int| #![trigger p.recorded()[i]]
            0 <= i < p.recorded().len() ==> match p.recorded()[i].hook {
                HookKind::BuildStart => p.has_build_start(),
                HookKind::ResolveId => p.has_resolve_id(),
                HookKind::FilterId => p.has_filter_id(),
                HookKind::Load => p.has_load(),
                HookKind::Transform => p.has_transform(),
                HookKind::BuildEnd => p.has_build_end(),
            },
{
}

/// A recorded `build_start` crossing precedes every other recorded
/// crossing, and a recorded `build_end` crossing follows every other:
/// all per-module work lies between them.
pub proof fn lemma_trace_ordering(p: &JsAdapterPlugin)
    requires
        p.inv(),
    ensures
        forall|i: int, j: int| #![trigger p.recorded()[i], p.recorded()[j]]
            0 <= i < p.recorded().len() && 0 <= j < p.recorded().len()
                && p.recorded()[i].hook is BuildStart && j != i ==> i < j,
        forall|i: int, j: int| #![trigger p.recorded()[i], p.recorded()[j]]
            0 <= i < p.recorded().len() && 0 <= j < p.recorded().len()
                && p.recorded()[j].hook is BuildEnd && i != j ==> i < j,
{
}

/// The `filter_id` hook crosses the boundary exactly once per plugin
/// instance with a committed hook-computed filter, however many `load`
/// and `transform` calls ask for filter data: two recorded crossings
/// are the same crossing, and once the cache is ready one crossing is
/// on record. All callers observe the one committed result.
pub proof fn lemma_filter_hook_exactly_once(p: &JsAdapterPlugin)
    requires
        p.inv(),
    ensures
        forall|i: int, j: int| #![trigger p.recorded()[i], p.recorded()[j]]
            0 <= i < p.recorded().len() && 0 <= j < p.recorded().len()
                && p.recorded()[i].hook is FilterId && p.recorded()[j].hook is FilterId ==> i
                == j,
        p.has_filter_id() && p.filters_ready() ==> exists|i: int|
            0 <= i < p.recorded().len() && (#[trigger] p.recorded()[i]).hook is FilterId,
{
}

/// A plugin with no `filter_id` hook has its gated hooks run for
/// every id: the committed default admits everything.
pub proof fn lemma_no_filter_matches_all(p: &JsAdapterPlugin, id: Seq<char>)
    requires
        p.inv(),
        p.filters_ready(),
        !p.has_filter_id(),
    ensures
        p.filters_value().spec_matches(id),
{
    crate::filter::lemma_unfiltered_matches_all(p.filters_value(), id);
}

/// The boundary was never crossed for a gated hook on an id the
/// committed filter rejects: every recorded `load` or `transform`
/// crossing carries an admitted id.
pub proof fn lemma_gated_crossings_match_filter(p: &JsAdapterPlugin)
    requires
        p.inv(),
    ensures
        forall|i: int| #![trigger p.recorded()[i]]
            0 <= i < p.recorded().len() && (p.recorded()[i].hook is Load || p.recorded()[i].hook
                is Transform) ==> p.filters_ready() && p.recorded()[i].id is Some
                && p.filters_value().spec_matches(p.recorded()[i].id->Some_0@),
{
}

fn bind_optional(r: &Option<CallbackRef>, hook: HookKind, plugin: &String) -> (res: Result<
    Option<HookHandle>,
    ConfigurationError,
>)
    ensures
        res is Ok <==> (r matches Some(c) ==> c.is_bindable()),
        res matches Ok(h) ==> {
            &&& h is Some <==> r is Some
            &&& (h matches Some(hh) ==> hh.wf())
        },
        res matches Err(e) ==> e.hook == hook && e.plugin@ == plugin@,
{
    match r {
        None => Ok(None),
        Some(c) => match HookHandle::bind(*c) {
            Some(h) => Ok(Some(h)),
            None => Err(ConfigurationError { plugin: plugin.clone(), hook }),
        },
    }
}

} // verus!
