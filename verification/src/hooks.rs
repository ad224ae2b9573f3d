use vstd::prelude::*;

verus! {

/// The six extension points a plugin may implement, one per build
/// lifecycle trigger.
#[derive(Clone, Copy, PartialEq, Eq, Structural, Debug)]
pub enum HookKind {
    BuildStart,
    ResolveId,
    FilterId,
    Load,
    Transform,
    BuildEnd,
}

impl HookKind {
    /// The hook's name as it appears in diagnostics.
    pub open spec fn spec_name(self) -> Seq<char> {
        match self {
            HookKind::BuildStart => "build_start"@,
            HookKind::ResolveId => "resolve_id"@,
            HookKind::FilterId => "filter_id"@,
            HookKind::Load => "load"@,
            HookKind::Transform => "transform"@,
            HookKind::BuildEnd => "build_end"@,
        }
    }

    pub fn name(&self) -> (r: String)
        ensures
            r@ == self.spec_name(),
    {
        match self {
            HookKind::BuildStart => "build_start".to_owned(),
            HookKind::ResolveId => "resolve_id".to_owned(),
            HookKind::FilterId => "filter_id".to_owned(),
            HookKind::Load => "load".to_owned(),
            HookKind::Transform => "transform".to_owned(),
            HookKind::BuildEnd => "build_end".to_owned(),
        }
    }
}

/// Where a plugin instance stands in the build lifecycle: configured
/// but not yet started, inside a build, or after the build ended.
#[derive(Clone, Copy, PartialEq, Eq, Structural, Debug)]
pub enum BuildPhase {
    Configured,
    Started,
    Ended,
}

/// A callable reference as the runtime boundary hands it over. The
/// boundary identifies a callable by a nonzero token; a zero token is
/// a null or dangling reference, which cannot be bound.
#[derive(Clone, Copy, PartialEq, Eq, Structural, Debug)]
pub struct CallbackRef {
    pub token: u64,
}

impl CallbackRef {
    pub open spec fn is_bindable(self) -> bool {
        self.token != 0
    }
}

/// A handle to one callable, produced by binding a well-formed
/// `CallbackRef` at construction time and never reassigned. The driver
/// uses the token to find the callable when a hook method asks for the
/// boundary to be crossed.
#[derive(Clone, Copy, Debug)]
pub struct HookHandle {
    token: u64,
}

impl HookHandle {
    /// A bound handle always refers to an actual callable.
    pub closed spec fn wf(self) -> bool {
        self.token != 0
    }

    pub closed spec fn spec_token(self) -> u64 {
        self.token
    }

    /// Binding validates the reference: a null reference produces no
    /// handle, anything else is bound as it stands.
    pub fn bind(r: CallbackRef) -> (res: Option<HookHandle>)
        ensures
            res is Some <==> r.is_bindable(),
            res matches Some(h) ==> h.wf() && h.spec_token() == r.token,
    {
        if r.token == 0 {
            None
        } else {
            Some(HookHandle { token: r.token })
        }
    }

    pub fn token(&self) -> (t: u64)
        ensures
            t == self.spec_token(),
    {
        self.token
    }
}

/// External input describing one plugin: a name and one optional
/// callable reference per recognized hook. Absent fields are legal and
/// meaningful: the plugin simply does not implement that hook.
pub struct PluginOptions {
    pub name: String,
    pub build_start: Option<CallbackRef>,
    pub resolve_id: Option<CallbackRef>,
    pub filter_id: Option<CallbackRef>,
    pub load: Option<CallbackRef>,
    pub transform: Option<CallbackRef>,
    pub build_end: Option<CallbackRef>,
}

impl PluginOptions {
    /// Every declared callable can be bound.
    pub open spec fn all_bindable(self) -> bool {
        &&& (self.build_start matches Some(c) ==> c.is_bindable())
        &&& (self.resolve_id matches Some(c) ==> c.is_bindable())
        &&& (self.filter_id matches Some(c) ==> c.is_bindable())
        &&& (self.load matches Some(c) ==> c.is_bindable())
        &&& (self.transform matches Some(c) ==> c.is_bindable())
        &&& (self.build_end matches Some(c) ==> c.is_bindable())
    }

    /// The first hook, in registry order, whose declared callable
    /// cannot be bound. Meaningful only when `all_bindable` fails.
    pub open spec fn first_unbindable(self) -> HookKind {
        if self.build_start matches Some(c) && !c.is_bindable() {
            HookKind::BuildStart
        } else if self.resolve_id matches Some(c) && !c.is_bindable() {
            HookKind::ResolveId
        } else if self.filter_id matches Some(c) && !c.is_bindable() {
            HookKind::FilterId
        } else if self.load matches Some(c) && !c.is_bindable() {
            HookKind::Load
        } else if self.transform matches Some(c) && !c.is_bindable() {
            HookKind::Transform
        } else {
            HookKind::BuildEnd
        }
    }
}

/// Resolution options as the pipeline supplies them with a
/// `resolve_id` call.
#[derive(Clone, Copy, PartialEq, Eq, Structural, Debug)]
pub struct ResolveIdOptions {
    pub is_entry: bool,
}

/// Resolution options in the shape the callback boundary expects;
/// built from `ResolveIdOptions` when the arguments are marshaled.
#[derive(Clone, Copy, PartialEq, Eq, Structural, Debug)]
pub struct HookResolveIdArgsOptions {
    pub is_entry: bool,
}

impl HookResolveIdArgsOptions {
    pub fn from_options(o: &ResolveIdOptions) -> (r: Self)
        ensures
            r.is_entry == o.is_entry,
    {
        HookResolveIdArgsOptions { is_entry: o.is_entry }
    }
}

/// Arguments the pipeline hands to `resolve_id`: the import specifier,
/// the importing module if any, and resolution options.
pub struct HookResolveIdArgs {
    pub source: String,
    pub importer: Option<String>,
    pub options: ResolveIdOptions,
}

/// The marshaled argument tuple for one `resolve_id` callback
/// invocation.
pub struct ResolveIdInput {
    pub specifier: String,
    pub importer: Option<String>,
    pub options: HookResolveIdArgsOptions,
}

/// The marshaled argument tuple for one `load` callback invocation.
pub struct LoadInput {
    pub id: String,
}

/// The marshaled argument tuple for one `transform` callback
/// invocation.
pub struct TransformInput {
    pub code: String,
    pub id: String,
}

/// The marshaled argument tuple for one `build_end` callback
/// invocation: the build failure description, present exactly when the
/// build failed.
pub struct BuildEndInput {
    pub error: Option<String>,
}

/// What a `resolve_id` callback produces when it handles a specifier.
pub struct ResolveIdResult {
    pub id: String,
    pub external: bool,
}

/// What a `load` or `transform` callback produces when it handles a
/// module.
pub struct SourceResult {
    pub code: String,
}

/// One completed crossing of the runtime boundary, as the adapter
/// records it: which hook ran, and for the per-module hooks, on which
/// module id or specifier.
#[derive(Clone, Debug)]
pub struct TraceEvent {
    pub hook: HookKind,
    pub id: Option<String>,
}

} // verus!
