//! Decorators: named hooks that look at a task's context before the task is
//! built, may add to it, and may refuse it.
use vstd::prelude::*;
use vstd::string::*;
use vstd::hash_map::StringHashMap;
use crate::errhuman::unit_outcome;
use crate::errhuman::ErrorKind;
use crate::errhuman::Fault;
use crate::errhuman::TransRError;
use crate::errhuman::TransRResult;
use crate::outside::instant_now;
use crate::outside::instant_text;
use crate::text::decimal_digits;
use crate::text::join;
use crate::text::parse_u32;
use crate::text::parsed_u32;
use crate::text::render_decimal;
use crate::text::same_text;
use crate::text::split_commas;
use crate::text::split_on_commas;
use crate::text::trim;
use crate::text::trimmed;

verus! {

/// What a decorator chain works on: the name of the task, the parameters
/// that decorators read, a result that a decorator may set, and what
/// decorators leave for later ones.
pub struct TaskContext {
    pub name: String,
    pub args: StringHashMap<String>,
    pub result: Option<String>,
    pub metadata: StringHashMap<String>,
}

/// A context as contracts see it.
pub struct ContextModel {
    pub name: Seq<char>,
    pub args: Map<Seq<char>, Seq<char>>,
    pub result: Option<Seq<char>>,
    pub metadata: Map<Seq<char>, Seq<char>>,
}

impl View for TaskContext {
    type V = ContextModel;

    open spec fn view(&self) -> ContextModel {
        ContextModel {
            name: self.name@,
            args: self.args@.map_values(|v: String| v@),
            result: self.result.deep_view(),
            metadata: self.metadata@.map_values(|v: String| v@),
        }
    }
}

/// The context that a chain starts from: the name, and nothing else.
pub open spec fn fresh_context(name: Seq<char>) -> ContextModel {
    ContextModel {
        name,
        args: Map::<Seq<char>, Seq<char>>::empty(),
        result: None,
        metadata: Map::<Seq<char>, Seq<char>>::empty(),
    }
}

/// `before` with `key` set to `value` in its metadata.
pub open spec fn with_metadata(before: ContextModel, key: Seq<char>, value: Seq<char>) -> ContextModel {
    ContextModel { metadata: before.metadata.insert(key, value), ..before }
}

impl TaskContext {
    /// A fresh context for the task of the given name.
    pub fn new(name: &str) -> (r: TaskContext)
        ensures
            r@ == fresh_context(name@),
    {
        let r = TaskContext {
            name: String::from_str(name),
            args: StringHashMap::new(),
            result: None,
            metadata: StringHashMap::new(),
        };
        assert(r@.args =~= Map::<Seq<char>, Seq<char>>::empty());
        assert(r@.metadata =~= Map::<Seq<char>, Seq<char>>::empty());
        r
    }

    /// Sets the parameter `key` to `value`, in place of an earlier value.
    pub fn set_arg(&mut self, key: String, value: String)
        ensures
            final(self)@ == (ContextModel {
                args: old(self)@.args.insert(key@, value@),
                ..old(self)@
            }),
    {
        self.args.insert(key, value);
        assert(self@.args =~= old(self)@.args.insert(key@, value@));
    }

    /// Sets `key` to `value` in the metadata, in place of an earlier value.
    pub fn set_metadata(&mut self, key: String, value: String)
        ensures
            final(self)@ == with_metadata(old(self)@, key@, value@),
    {
        self.metadata.insert(key, value);
        assert(self@.metadata =~= old(self)@.metadata.insert(key@, value@));
    }
}

/// The hooks that every registry starts with.
#[derive(Debug, Clone, Copy, PartialEq, Eq, Structural)]
pub enum Builtin {
    Timing,
    Log,
    Region,
    Retry,
    Cache,
    Validate,
    Async,
    Secure,
}

/// Whether a region is one in which features are offered.
pub open spec fn region_allowed(region: Seq<char>) -> bool {
    region == "global"@ || region == "asia"@ || region == "us"@ || region == "eu"@
}

/// The retry budget that the parameters ask for: `max_retries` read as a
/// `u32`, or 3 if it is missing or no such number.
pub open spec fn retry_budget(args: Map<Seq<char>, Seq<char>>) -> u32 {
    if args.contains_key("max_retries"@) {
        match parsed_u32(args["max_retries"@]) {
            Some(n) => n,
            None => 3,
        }
    } else {
        3
    }
}

/// The first of the fields that, trimmed, is no parameter.
pub open spec fn first_missing(fields: Seq<Seq<char>>, args: Map<Seq<char>, Seq<char>>) -> Option<
    Seq<char>,
>
    decreases fields.len(),
{
    if fields.len() == 0 {
        None
    } else if !args.contains_key(trimmed(fields.first())) {
        Some(fields.first())
    } else {
        first_missing(fields.drop_first(), args)
    }
}

/// The field that the `validate` hook finds missing: the first piece of the
/// comma-separated `required` parameter that is no parameter itself. None if
/// `required` is not given.
pub open spec fn missing_field(args: Map<Seq<char>, Seq<char>>) -> Option<Seq<char>> {
    if args.contains_key("required"@) {
        first_missing(split_commas(args["required"@]), args)
    } else {
        None
    }
}

/// The error with which a builtin hook refuses a context, if it does.
///
/// `region` refuses a `region` parameter outside the allowed regions, with a
/// region error that names the task. `validate` refuses a context that lacks
/// a required field, with a validation error that names the field. No other
/// hook refuses anything.
pub open spec fn builtin_refusal(kind: Builtin, before: ContextModel) -> Option<Fault> {
    match kind {
        Builtin::Region => if before.args.contains_key("region"@) && !region_allowed(
            before.args["region"@],
        ) {
            Some(Fault { kind: ErrorKind::Region, detail: before.name })
        } else {
            None
        },
        Builtin::Validate => match missing_field(before.args) {
            Some(field) => Some(
                Fault {
                    kind: ErrorKind::Validation,
                    detail: "Missing required field: "@ + field,
                },
            ),
            None => None,
        },
        _ => None,
    }
}

/// The context that a builtin hook leaves when it accepts `before`; `marker`
/// is the start time that `timing` reads off the clock.
pub open spec fn builtin_effect(kind: Builtin, before: ContextModel, marker: Seq<char>) -> ContextModel {
    match kind {
        Builtin::Timing => with_metadata(before, "start_time"@, marker),
        Builtin::Retry => with_metadata(
            before,
            "max_retries"@,
            decimal_digits(retry_budget(before.args) as nat),
        ),
        Builtin::Cache => with_metadata(before, "cache_enabled"@, "true"@),
        Builtin::Async => with_metadata(before, "async"@, "true"@),
        Builtin::Secure => with_metadata(before, "secure"@, "true"@),
        _ => before,
    }
}

/// The line that a builtin hook puts out at the informational level when it
/// meets `before`: `region` only where a region is given and allowed, every
/// other hook always.
pub open spec fn builtin_notice(kind: Builtin, before: ContextModel) -> Option<Seq<char>> {
    match kind {
        Builtin::Timing => Some("⏱️  Starting: "@ + before.name),
        Builtin::Log => Some("📝 Executing: "@ + before.name),
        Builtin::Region => if before.args.contains_key("region"@) && region_allowed(
            before.args["region"@],
        ) {
            Some("✓ Region check passed: "@ + before.args["region"@])
        } else {
            None
        },
        Builtin::Retry => Some(
            "🔄 Retry enabled: max "@ + decimal_digits(retry_budget(before.args) as nat)
                + " attempts"@,
        ),
        Builtin::Cache => Some("💾 Cache enabled for: "@ + before.name),
        Builtin::Validate => Some("✓ Validating inputs for: "@ + before.name),
        Builtin::Async => Some("⚡ Async mode enabled for: "@ + before.name),
        Builtin::Secure => Some("🔒 Security checks enabled for: "@ + before.name),
    }
}

/// The builtin hook that a registry starts out with under `name`, if any.
pub open spec fn builtin_named(name: Seq<char>) -> Option<Builtin> {
    if name == "timing"@ {
        Some(Builtin::Timing)
    } else if name == "log"@ {
        Some(Builtin::Log)
    } else if name == "region"@ {
        Some(Builtin::Region)
    } else if name == "retry"@ {
        Some(Builtin::Retry)
    } else if name == "cache"@ {
        Some(Builtin::Cache)
    } else if name == "validate"@ {
        Some(Builtin::Validate)
    } else if name == "async"@ {
        Some(Builtin::Async)
    } else if name == "secure"@ {
        Some(Builtin::Secure)
    } else {
        None
    }
}

/// What a builtin hook may do: refuse the context with its error and leave
/// it as it was, or accept it and leave its effect, for some start time.
pub open spec fn builtin_admits(
    kind: Builtin,
    before: ContextModel,
    after: ContextModel,
    outcome: Result<(), Fault>,
) -> bool {
    match builtin_refusal(kind, before) {
        Some(fault) => outcome == Err::<(), Fault>(fault) && after == before,
        None => outcome is Ok && exists|marker: Seq<char>|
            after == #[trigger] builtin_effect(kind, before, marker),
    }
}

/// A hook: it may change the context and may refuse it. `admits` says which
/// changes and outcomes the hook may produce; a hook that does not say may
/// produce any.
pub trait Decorator {
    open spec fn admits(
        &self,
        before: ContextModel,
        after: ContextModel,
        outcome: Result<(), Fault>,
    ) -> bool {
        true
    }

    fn decorate(&self, ctx: &mut TaskContext) -> (r: TransRResult<()>)
        ensures
            self.admits(old(ctx)@, final(ctx)@, unit_outcome(r)),
    ;
}

/// Whether a region is one in which features are offered.
pub fn is_region_allowed(region: &str) -> (r: bool)
    ensures
        r == region_allowed(region@),
{
    same_text(region, "global") || same_text(region, "asia") || same_text(region, "us")
        || same_text(region, "eu")
}

/// The first of the fields that, trimmed, is no key of `args`.
fn find_missing(fields: &Vec<String>, args: &StringHashMap<String>) -> (r: Option<usize>)
    ensures
        match r {
            Some(i) => i < fields.len() && first_missing(
                fields.deep_view(),
                args@.map_values(|v: String| v@),
            ) == Some(fields[i as int]@),
            None => first_missing(fields.deep_view(), args@.map_values(|v: String| v@)) is None,
        },
{
    let ghost all = fields.deep_view();
    let ghost model = args@.map_values(|v: String| v@);
    let mut i: usize = 0;
    assert(all.skip(0) =~= all);
    while i < fields.len()
        invariant
            i <= fields.len(),
            all == fields.deep_view(),
            model == args@.map_values(|v: String| v@),
            first_missing(all, model) == first_missing(all.skip(i as int), model),
        decreases fields.len() - i,
    {
        let key = trim(fields[i].as_str());
        proof {
            assert(all.skip(i as int).first() == fields[i as int]@);
            assert(all.skip(i as int).drop_first() =~= all.skip(i + 1));
        }
        if !args.contains_key(key.as_str()) {
            return Some(i);
        }
        i = i + 1;
    }
    None
}

impl Builtin {
    /// The name under which a registry starts out with this hook.
    pub open spec fn name_of(self) -> Seq<char> {
        match self {
            Builtin::Timing => "timing"@,
            Builtin::Log => "log"@,
            Builtin::Region => "region"@,
            Builtin::Retry => "retry"@,
            Builtin::Cache => "cache"@,
            Builtin::Validate => "validate"@,
            Builtin::Async => "async"@,
            Builtin::Secure => "secure"@,
        }
    }

    /// The name under which a registry starts out with this hook.
    pub fn name(&self) -> (r: &'static str)
        ensures
            r@ == self.name_of(),
    {
        match self {
            Builtin::Timing => "timing",
            Builtin::Log => "log",
            Builtin::Region => "region",
            Builtin::Retry => "retry",
            Builtin::Cache => "cache",
            Builtin::Validate => "validate",
            Builtin::Async => "async",
            Builtin::Secure => "secure",
        }
    }

    /// The builtin hook that a registry starts out with under `name`, if
    /// any.
    pub fn named(name: &str) -> (r: Option<Builtin>)
        ensures
            r == builtin_named(name@),
    {
        if same_text(name, "timing") {
            Some(Builtin::Timing)
        } else if same_text(name, "log") {
            Some(Builtin::Log)
        } else if same_text(name, "region") {
            Some(Builtin::Region)
        } else if same_text(name, "retry") {
            Some(Builtin::Retry)
        } else if same_text(name, "cache") {
            Some(Builtin::Cache)
        } else if same_text(name, "validate") {
            Some(Builtin::Validate)
        } else if same_text(name, "async") {
            Some(Builtin::Async)
        } else if same_text(name, "secure") {
            Some(Builtin::Secure)
        } else {
            None
        }
    }

    /// The line that the hook puts out at the informational level when it
    /// meets `ctx`.
    pub fn notice(&self, ctx: &TaskContext) -> (r: Option<String>)
        ensures
            r.deep_view() == builtin_notice(*self, ctx@),
    {
        let name = ctx.name.as_str();
        match self {
            Builtin::Timing => Some(join("⏱️  Starting: ", name)),
            Builtin::Log => Some(join("📝 Executing: ", name)),
            Builtin::Region => match ctx.args.get("region") {
                Some(region) => if is_region_allowed(region.as_str()) {
                    Some(join("✓ Region check passed: ", region.as_str()))
                } else {
                    None
                },
                None => None,
            },
            Builtin::Retry => {
                let budget = render_decimal(Builtin::budget(ctx) as u128);
                let mut line = String::from_str("🔄 Retry enabled: max ");
                line.append(budget.as_str());
                line.append(" attempts");
                Some(line)
            },
            Builtin::Cache => Some(join("💾 Cache enabled for: ", name)),
            Builtin::Validate => Some(join("✓ Validating inputs for: ", name)),
            Builtin::Async => Some(join("⚡ Async mode enabled for: ", name)),
            Builtin::Secure => Some(join("🔒 Security checks enabled for: ", name)),
        }
    }

    /// The retry budget that the context asks for.
    fn budget(ctx: &TaskContext) -> (r: u32)
        ensures
            r == retry_budget(ctx@.args),
    {
        match ctx.args.get("max_retries") {
            Some(text) => match parse_u32(text.as_str()) {
                Some(n) => n,
                None => 3,
            },
            None => 3,
        }
    }

    /// Checks the `region` parameter.
    fn check_region(ctx: &TaskContext) -> (r: TransRResult<()>)
        ensures
            unit_outcome(r) == match builtin_refusal(Builtin::Region, ctx@) {
                Some(fault) => Err::<(), Fault>(fault),
                None => Ok::<(), Fault>(()),
            },
    {
        match ctx.args.get("region") {
            Some(region) => {
                if !is_region_allowed(region.as_str()) {
                    return Err(TransRError::RegionError(ctx.name.clone()));
                }
                Ok(())
            },
            None => Ok(()),
        }
    }

    /// Checks the `required` parameter.
    fn check_required(ctx: &TaskContext) -> (r: TransRResult<()>)
        ensures
            unit_outcome(r) == match builtin_refusal(Builtin::Validate, ctx@) {
                Some(fault) => Err::<(), Fault>(fault),
                None => Ok::<(), Fault>(()),
            },
    {
        match ctx.args.get("required") {
            Some(required) => {
                let fields = split_on_commas(required.as_str());
                match find_missing(&fields, &ctx.args) {
                    Some(i) => Err(
                        TransRError::ValidationError(
                            join("Missing required field: ", fields[i].as_str()),
                        ),
                    ),
                    None => Ok(()),
                }
            },
            None => Ok(()),
        }
    }
}

impl Decorator for Builtin {
    open spec fn admits(
        &self,
        before: ContextModel,
        after: ContextModel,
        outcome: Result<(), Fault>,
    ) -> bool {
        builtin_admits(*self, before, after, outcome)
    }

    fn decorate(&self, ctx: &mut TaskContext) -> (r: TransRResult<()>) {
        let ghost before = ctx@;
        match self {
            Builtin::Timing => {
                let marker = instant_text(&instant_now());
                ctx.set_metadata(String::from_str("start_time"), marker);
                assert(ctx@ == builtin_effect(*self, before, marker@));
                Ok(())
            },
            Builtin::Log => {
                assert(ctx@ == builtin_effect(*self, before, Seq::<char>::empty()));
                Ok(())
            },
            Builtin::Region => {
                let r = Builtin::check_region(ctx);
                assert(ctx@ == builtin_effect(*self, before, Seq::<char>::empty()));
                r
            },
            Builtin::Retry => {
                let max_retries = Builtin::budget(ctx);
                ctx.set_metadata(
                    String::from_str("max_retries"),
                    render_decimal(max_retries as u128),
                );
                assert(ctx@ == builtin_effect(*self, before, Seq::<char>::empty()));
                Ok(())
            },
            Builtin::Cache => {
                ctx.set_metadata(String::from_str("cache_enabled"), String::from_str("true"));
                assert(ctx@ == builtin_effect(*self, before, Seq::<char>::empty()));
                Ok(())
            },
            Builtin::Validate => {
                let r = Builtin::check_required(ctx);
                assert(ctx@ == builtin_effect(*self, before, Seq::<char>::empty()));
                r
            },
            Builtin::Async => {
                ctx.set_metadata(String::from_str("async"), String::from_str("true"));
                assert(ctx@ == builtin_effect(*self, before, Seq::<char>::empty()));
                Ok(())
            },
            Builtin::Secure => {
                ctx.set_metadata(String::from_str("secure"), String::from_str("true"));
                assert(ctx@ == builtin_effect(*self, before, Seq::<char>::empty()));
                Ok(())
            },
        }
    }
}

/// The error of applying a decorator that is not registered.
pub open spec fn unknown_decorator(name: Seq<char>) -> Fault {
    Fault { kind: ErrorKind::Validation, detail: "Unknown decorator: @"@ + name }
}

/// What applying the decorator registered under `name` may do to a context:
/// what the hook admits, if there is one; else the context stays as it was
/// and the outcome is the error that names the unknown decorator.
pub open spec fn step_admits<D: Decorator>(
    registry: Map<Seq<char>, D>,
    name: Seq<char>,
    before: ContextModel,
    after: ContextModel,
    outcome: Result<(), Fault>,
) -> bool {
    if registry.contains_key(name) {
        registry[name].admits(before, after, outcome)
    } else {
        after == before && outcome == Err::<(), Fault>(unknown_decorator(name))
    }
}

/// Whether `ctx` is a context that the first `k` of the named decorators,
/// applied in order and each accepting, may make of `start`.
pub open spec fn chain_reaches<D: Decorator>(
    registry: Map<Seq<char>, D>,
    names: Seq<Seq<char>>,
    k: int,
    start: ContextModel,
    ctx: ContextModel,
) -> bool
    decreases k,
{
    if k <= 0 {
        ctx == start
    } else {
        exists|mid: ContextModel|
            chain_reaches(registry, names, k - 1, start, mid) && #[trigger] step_admits(
                registry,
                names[k - 1],
                mid,
                ctx,
                Ok::<(), Fault>(()),
            )
    }
}

/// What applying the named decorators in order may do: either all accept,
/// one after the other, or some decorator `k` refuses what those before it
/// made of the context, and that ends the chain with its error.
pub open spec fn chain_admits<D: Decorator>(
    registry: Map<Seq<char>, D>,
    names: Seq<Seq<char>>,
    before: ContextModel,
    after: ContextModel,
    outcome: Result<(), Fault>,
) -> bool {
    match outcome {
        Ok(_) => chain_reaches(registry, names, names.len() as int, before, after),
        Err(fault) => exists|k: int, mid: ContextModel|
            0 <= k < names.len() && chain_reaches(registry, names, k, before, mid)
                && #[trigger] step_admits(registry, names[k], mid, after, Err::<(), Fault>(fault)),
    }
}

/// The registry: the hooks by name. No name is registered twice.
pub struct DecoratorRegistry<D: Decorator> {
    decorators: Vec<(String, D)>,
}

impl<D: Decorator> DecoratorRegistry<D> {
    /// The registry's invariant: no name is registered twice.
    pub closed spec fn wf(self) -> bool {
        forall|i: int, j: int|
            0 <= i < j < self.decorators.len() ==> (#[trigger] self.decorators[i]).0@ != (
            #[trigger] self.decorators[j]).0@
    }

    /// Whether entry `i` holds `name`.
    spec fn holds(self, i: int, name: Seq<char>) -> bool {
        0 <= i < self.decorators.len() && self.decorators[i].0@ == name
    }

    /// The hooks by name.
    pub closed spec fn view(&self) -> Map<Seq<char>, D> {
        Map::new(
            |name: Seq<char>| exists|i: int| self.holds(i, name),
            |name: Seq<char>| self.decorators[choose|i: int| self.holds(i, name)].1,
        )
    }

    /// A registry without any hook.
    pub fn empty() -> (r: Self)
        ensures
            r.wf(),
            r@ == Map::<Seq<char>, D>::empty(),
    {
        let r = DecoratorRegistry { decorators: Vec::new() };
        assert(r@ =~= Map::<Seq<char>, D>::empty());
        r
    }

    /// The place of `name` among the entries, if it is registered.
    fn find(&self, name: &str) -> (r: Option<usize>)
        requires
            self.wf(),
        ensures
            match r {
                Some(i) => self.holds(i as int, name@) && self@.contains_key(name@) && self@[name@]
                    == self.decorators[i as int].1,
                None => !self@.contains_key(name@) && forall|i: int| !self.holds(i, name@),
            },
    {
        let mut i: usize = 0;
        while i < self.decorators.len()
            invariant
                self.wf(),
                i <= self.decorators.len(),
                forall|k: int| 0 <= k < i ==> !self.holds(k, name@),
            decreases self.decorators.len() - i,
        {
            if same_text(self.decorators[i].0.as_str(), name) {
                assert(self.holds(i as int, name@));
                let ghost c = choose|k: int| self.holds(k, name@);
                assert(self.holds(c, name@));
                assert(c == i);
                return Some(i);
            }
            i = i + 1;
        }
        None
    }

    /// Registers `decorator` under `name`, in place of an earlier hook of
    /// that name.
    pub fn register(&mut self, name: &str, decorator: D)
        requires
            old(self).wf(),
        ensures
            final(self).wf(),
            final(self)@ == old(self)@.insert(name@, decorator),
    {
        let ghost before = *self;
        match self.find(name) {
            Some(i) => {
                self.decorators.set(i, (String::from_str(name), decorator));
                proof {
                    assert forall|a: int, b: int| 0 <= a < b < self.decorators.len() implies (
                    #[trigger] self.decorators[a]).0@ != (#[trigger] self.decorators[b]).0@ by {
                        assert(before.decorators[a].0@ == self.decorators[a].0@);
                        assert(before.decorators[b].0@ == self.decorators[b].0@);
                    }
                    assert(self.wf());
                    assert forall|n: Seq<char>| #[trigger]
                        self@.contains_key(n) == before@.insert(name@, decorator).contains_key(
                            n,
                        ) by {
                        if self@.contains_key(n) {
                            let k = choose|k: int| self.holds(k, n);
                            assert(self.holds(k, n));
                            assert(before.holds(k, n));
                        }
                        if before@.insert(name@, decorator).contains_key(n) {
                            if n == name@ {
                                assert(self.holds(i as int, n));
                            } else {
                                let k = choose|k: int| before.holds(k, n);
                                assert(before.holds(k, n));
                                assert(self.holds(k, n));
                            }
                        }
                    }
                    assert forall|n: Seq<char>| #[trigger] self@.contains_key(n) implies self@[n]
                        == before@.insert(name@, decorator)[n] by {
                        let k = choose|k: int| self.holds(k, n);
                        assert(self.holds(k, n));
                        if n != name@ {
                            let b = choose|b: int| before.holds(b, n);
                            assert(before.holds(k, n));
                            assert(before.holds(b, n));
                            assert(b == k);
                        } else {
                            assert(self.holds(i as int, n));
                            assert(k == i);
                        }
                    }
                    assert(self@ =~= before@.insert(name@, decorator));
                }
            },
            None => {
                self.decorators.push((String::from_str(name), decorator));
                proof {
                    let last = self.decorators.len() - 1;
                    assert forall|a: int, b: int| 0 <= a < b < self.decorators.len() implies (
                    #[trigger] self.decorators[a]).0@ != (#[trigger] self.decorators[b]).0@ by {
                        assert(before.decorators[a].0@ == self.decorators[a].0@);
                        if b == last {
                            assert(!before.holds(a, name@));
                        } else {
                            assert(before.decorators[b].0@ == self.decorators[b].0@);
                        }
                    }
                    assert(self.wf());
                    assert forall|n: Seq<char>| #[trigger]
                        self@.contains_key(n) == before@.insert(name@, decorator).contains_key(
                            n,
                        ) by {
                        if self@.contains_key(n) {
                            let k = choose|k: int| self.holds(k, n);
                            assert(self.holds(k, n));
                            if k < last {
                                assert(before.holds(k, n));
                            }
                        }
                        if before@.insert(name@, decorator).contains_key(n) {
                            if n == name@ {
                                assert(self.holds(last, n));
                            } else {
                                let k = choose|k: int| before.holds(k, n);
                                assert(before.holds(k, n));
                                assert(self.holds(k, n));
                            }
                        }
                    }
                    assert forall|n: Seq<char>| #[trigger] self@.contains_key(n) implies self@[n]
                        == before@.insert(name@, decorator)[n] by {
                        let k = choose|k: int| self.holds(k, n);
                        assert(self.holds(k, n));
                        if n != name@ {
                            let b = choose|b: int| before.holds(b, n);
                            assert(before.holds(k, n));
                            assert(before.holds(b, n));
                            assert(b == k);
                        } else {
                            assert(self.holds(last, n));
                            assert(k == last);
                        }
                    }
                    assert(self@ =~= before@.insert(name@, decorator));
                }
            },
        }
    }

    /// Applies the decorator registered under `decorator_name` to `ctx`. An
    /// unregistered name is a validation error that names it.
    pub fn apply(&self, decorator_name: &str, ctx: &mut TaskContext) -> (r: TransRResult<()>)
        requires
            self.wf(),
        ensures
            step_admits(self@, decorator_name@, old(ctx)@, final(ctx)@, unit_outcome(r)),
    {
        match self.find(decorator_name) {
            Some(i) => self.decorators[i].1.decorate(ctx),
            None => Err(
                TransRError::ValidationError(join("Unknown decorator: @", decorator_name)),
            ),
        }
    }

    /// Applies the named decorators to `ctx` in order. The first that refuses
    /// ends the chain with its error.
    pub fn apply_all(&self, names: &Vec<&str>, ctx: &mut TaskContext) -> (r: TransRResult<()>)
        requires
            self.wf(),
        ensures
            chain_admits(self@, names.deep_view(), old(ctx)@, final(ctx)@, unit_outcome(r)),
    {
        let ghost all = names.deep_view();
        let ghost start = ctx@;
        let mut i: usize = 0;
        while i < names.len()
            invariant
                self.wf(),
                i <= names.len(),
                all == names.deep_view(),
                start == old(ctx)@,
                chain_reaches(self@, all, i as int, start, ctx@),
            decreases names.len() - i,
        {
            let ghost mid = ctx@;
            assert(all[i as int] == names[i as int]@);
            match self.apply(names[i], ctx) {
                Ok(()) => {
                    assert(chain_reaches(self@, all, i as int, start, mid) && step_admits(
                        self@,
                        all[i as int],
                        mid,
                        ctx@,
                        Ok::<(), Fault>(()),
                    ));
                    let ghost next = i + 1;
                    assert(chain_reaches(self@, all, next - 1, start, mid) && step_admits(
                        self@,
                        all[next - 1],
                        mid,
                        ctx@,
                        Ok::<(), Fault>(()),
                    ));
                    assert(chain_reaches(self@, all, next, start, ctx@));
                },
                Err(error) => {
                    assert(chain_reaches(self@, all, i as int, start, mid) && step_admits(
                        self@,
                        all[i as int],
                        mid,
                        ctx@,
                        Err::<(), Fault>(error@),
                    ));
                    return Err(error);
                },
            }
            i = i + 1;
        }
        Ok(())
    }

    /// The registered names, each once, in no particular order.
    pub fn list_decorators(&self) -> (r: Vec<String>)
        requires
            self.wf(),
        ensures
            r.deep_view().no_duplicates(),
            r.deep_view().to_set() == self@.dom(),
    {
        let mut out: Vec<String> = Vec::new();
        let mut i: usize = 0;
        while i < self.decorators.len()
            invariant
                i <= self.decorators.len(),
                out.len() == i,
                forall|k: int| 0 <= k < i ==> (#[trigger] out[k])@ == self.decorators[k].0@,
            decreases self.decorators.len() - i,
        {
            out.push(self.decorators[i].0.clone());
            i = i + 1;
        }
        proof {
            let names = out.deep_view();
            assert forall|a: int, b: int| 0 <= a < names.len() && 0 <= b < names.len() && a
                != b implies names[a] != names[b] by {
                assert(names[a] == out[a]@);
                assert(names[b] == out[b]@);
            }
            assert forall|n: Seq<char>| names.to_set().contains(n) == self@.dom().contains(
                n,
            ) by {
                if names.to_set().contains(n) {
                    let k = choose|k: int| 0 <= k < names.len() && names[k] == n;
                    assert(names[k] == out[k]@);
                    assert(self.holds(k, n));
                }
                if self@.dom().contains(n) {
                    let k = choose|k: int| self.holds(k, n);
                    assert(self.holds(k, n));
                    assert(names[k] == out[k]@);
                    assert(names.contains(n));
                }
            }
            assert(names.to_set() =~= self@.dom());
        }
        out
    }
}

/// The hooks that a new registry holds, each under its own name.
pub open spec fn builtin_registry() -> Map<Seq<char>, Builtin> {
    Map::<Seq<char>, Builtin>::empty().insert("timing"@, Builtin::Timing).insert(
        "log"@,
        Builtin::Log,
    ).insert("region"@, Builtin::Region).insert("retry"@, Builtin::Retry).insert(
        "cache"@,
        Builtin::Cache,
    ).insert("validate"@, Builtin::Validate).insert("async"@, Builtin::Async).insert(
        "secure"@,
        Builtin::Secure,
    )
}

/// The registry of builtin hooks holds each hook under its own name, and
/// nothing under any other name.
pub proof fn law_builtin_registry_by_name(name: Seq<char>)
    ensures
        builtin_registry().contains_key(name) <==> builtin_named(name) is Some,
        builtin_named(name) is Some ==> builtin_registry()[name] == builtin_named(name)->Some_0
            && builtin_named(name)->Some_0.name_of() == name,
{
    reveal_strlit("timing");
    reveal_strlit("log");
    reveal_strlit("region");
    reveal_strlit("retry");
    reveal_strlit("cache");
    reveal_strlit("validate");
    reveal_strlit("async");
    reveal_strlit("secure");
    // No two of the eight names are the same.
    assert("timing"@ != "log"@) by {
        assert("timing"@.len() != "log"@.len());
    }
    assert("timing"@ != "region"@) by {
        assert("timing"@[0] != "region"@[0]);
    }
    assert("timing"@ != "retry"@) by {
        assert("timing"@.len() != "retry"@.len());
    }
    assert("timing"@ != "cache"@) by {
        assert("timing"@.len() != "cache"@.len());
    }
    assert("timing"@ != "validate"@) by {
        assert("timing"@.len() != "validate"@.len());
    }
    assert("timing"@ != "async"@) by {
        assert("timing"@.len() != "async"@.len());
    }
    assert("timing"@ != "secure"@) by {
        assert("timing"@[0] != "secure"@[0]);
    }
    assert("log"@ != "region"@) by {
        assert("log"@.len() != "region"@.len());
    }
    assert("log"@ != "retry"@) by {
        assert("log"@.len() != "retry"@.len());
    }
    assert("log"@ != "cache"@) by {
        assert("log"@.len() != "cache"@.len());
    }
    assert("log"@ != "validate"@) by {
        assert("log"@.len() != "validate"@.len());
    }
    assert("log"@ != "async"@) by {
        assert("log"@.len() != "async"@.len());
    }
    assert("log"@ != "secure"@) by {
        assert("log"@.len() != "secure"@.len());
    }
    assert("region"@ != "retry"@) by {
        assert("region"@.len() != "retry"@.len());
    }
    assert("region"@ != "cache"@) by {
        assert("region"@.len() != "cache"@.len());
    }
    assert("region"@ != "validate"@) by {
        assert("region"@.len() != "validate"@.len());
    }
    assert("region"@ != "async"@) by {
        assert("region"@.len() != "async"@.len());
    }
    assert("region"@ != "secure"@) by {
        assert("region"@[0] != "secure"@[0]);
    }
    assert("retry"@ != "cache"@) by {
        assert("retry"@[0] != "cache"@[0]);
    }
    assert("retry"@ != "validate"@) by {
        assert("retry"@.len() != "validate"@.len());
    }
    assert("retry"@ != "async"@) by {
        assert("retry"@[0] != "async"@[0]);
    }
    assert("retry"@ != "secure"@) by {
        assert("retry"@.len() != "secure"@.len());
    }
    assert("cache"@ != "validate"@) by {
        assert("cache"@.len() != "validate"@.len());
    }
    assert("cache"@ != "async"@) by {
        assert("cache"@[0] != "async"@[0]);
    }
    assert("cache"@ != "secure"@) by {
        assert("cache"@.len() != "secure"@.len());
    }
    assert("validate"@ != "async"@) by {
        assert("validate"@.len() != "async"@.len());
    }
    assert("validate"@ != "secure"@) by {
        assert("validate"@.len() != "secure"@.len());
    }
    assert("async"@ != "secure"@) by {
        assert("async"@.len() != "secure"@.len());
    }
}

impl DecoratorRegistry<Builtin> {
    /// A registry with the eight builtin hooks.
    pub fn new() -> (r: Self)
        ensures
            r.wf(),
            r@ == builtin_registry(),
    {
        let mut registry = DecoratorRegistry::empty();
        registry.register_builtin();
        registry
    }

    /// Registers the eight builtin hooks, each under its own name.
    pub fn register_builtin(&mut self)
        requires
            old(self).wf(),
        ensures
            final(self).wf(),
            final(self)@ == old(self)@.insert("timing"@, Builtin::Timing).insert(
                "log"@,
                Builtin::Log,
            ).insert("region"@, Builtin::Region).insert("retry"@, Builtin::Retry).insert(
                "cache"@,
                Builtin::Cache,
            ).insert("validate"@, Builtin::Validate).insert("async"@, Builtin::Async).insert(
                "secure"@,
                Builtin::Secure,
            ),
    {
        self.register("timing", Builtin::Timing);
        self.register("log", Builtin::Log);
        self.register("region", Builtin::Region);
        self.register("retry", Builtin::Retry);
        self.register("cache", Builtin::Cache);
        self.register("validate", Builtin::Validate);
        self.register("async", Builtin::Async);
        self.register("secure", Builtin::Secure);
    }
}

/// Applying a name that is not registered fails with the validation error
/// that names it, and leaves the context as it was.
pub proof fn law_unregistered_name_is_refused<D: Decorator>(
    registry: Map<Seq<char>, D>,
    name: Seq<char>,
    before: ContextModel,
    after: ContextModel,
    outcome: Result<(), Fault>,
)
    requires
        !registry.contains_key(name),
        step_admits(registry, name, before, after, outcome),
    ensures
        outcome == Err::<(), Fault>(unknown_decorator(name)),
        unknown_decorator(name).kind == ErrorKind::Validation,
        after == before,
{
}

/// A builtin hook changes nothing of a context but its metadata.
pub proof fn law_builtin_keeps_parameters(
    kind: Builtin,
    before: ContextModel,
    after: ContextModel,
    outcome: Result<(), Fault>,
)
    requires
        builtin_admits(kind, before, after, outcome),
    ensures
        after.name == before.name,
        after.args == before.args,
        after.result == before.result,
{
}

/// A builtin hook accepts every context without parameters.
pub proof fn law_builtin_accepts_bare_context(kind: Builtin, before: ContextModel)
    requires
        before.args == Map::<Seq<char>, Seq<char>>::empty(),
    ensures
        builtin_refusal(kind, before) is None,
{
}

/// Where a chain over the builtin registry has come through `k` decorators,
/// each of them is registered, and the context still has the name, the
/// parameters and the result that it started with.
pub proof fn law_builtin_chain_keeps_parameters(
    names: Seq<Seq<char>>,
    k: int,
    start: ContextModel,
    ctx: ContextModel,
)
    requires
        0 <= k <= names.len(),
        chain_reaches(builtin_registry(), names, k, start, ctx),
    ensures
        ctx.name == start.name,
        ctx.args == start.args,
        ctx.result == start.result,
        forall|j: int| 0 <= j < k ==> builtin_registry().contains_key(#[trigger] names[j]),
    decreases k,
{
    if k > 0 {
        let mid = choose|mid: ContextModel|
            chain_reaches(builtin_registry(), names, k - 1, start, mid) && #[trigger] step_admits(
                builtin_registry(),
                names[k - 1],
                mid,
                ctx,
                Ok::<(), Fault>(()),
            );
        law_builtin_chain_keeps_parameters(names, k - 1, start, mid);
    }
}

/// A chain of builtin decorators on a context without parameters fails only
/// at a name that is not registered, with the error that names it; every
/// name before it is registered.
pub proof fn law_bare_chain_fails_on_unknown_name(
    names: Seq<Seq<char>>,
    start: ContextModel,
    after: ContextModel,
    fault: Fault,
)
    requires
        start.args == Map::<Seq<char>, Seq<char>>::empty(),
        chain_admits(builtin_registry(), names, start, after, Err::<(), Fault>(fault)),
    ensures
        exists|k: int|
            0 <= k < names.len() && !builtin_registry().contains_key(#[trigger] names[k])
                && fault == unknown_decorator(names[k]) && forall|j: int|
                0 <= j < k ==> builtin_registry().contains_key(#[trigger] names[j]),
{
    let (k, mid) = choose|k: int, mid: ContextModel|
        0 <= k < names.len() && chain_reaches(builtin_registry(), names, k, start, mid)
            && #[trigger] step_admits(
            builtin_registry(),
            names[k],
            mid,
            after,
            Err::<(), Fault>(fault),
        );
    law_builtin_chain_keeps_parameters(names, k, start, mid);
    if builtin_registry().contains_key(names[k]) {
        law_builtin_accepts_bare_context(builtin_registry()[names[k]], mid);
    }
    assert(!builtin_registry().contains_key(names[k]));
}

/// Builds a fresh context for the task `name` and applies the named builtin
/// decorators to it in order.
pub fn decorated_task(name: &str, decorators: Vec<&str>) -> (r: TransRResult<TaskContext>)
    ensures
        match r {
            Ok(ctx) => chain_admits(
                builtin_registry(),
                decorators.deep_view(),
                fresh_context(name@),
                ctx@,
                Ok::<(), Fault>(()),
            ),
            Err(error) => exists|after: ContextModel|
                chain_admits(
                    builtin_registry(),
                    decorators.deep_view(),
                    fresh_context(name@),
                    after,
                    Err::<(), Fault>(error@),
                ),
        },
        r is Ok <==> forall|j: int|
            0 <= j < decorators.len() ==> builtin_registry().contains_key(
                #[trigger] decorators.deep_view()[j],
            ),
        r is Ok ==> r->Ok_0@.name == name@ && r->Ok_0@.args == Map::<
            Seq<char>,
            Seq<char>,
        >::empty() && r->Ok_0@.result == None::<Seq<char>>,
        r is Err ==> exists|k: int|
            0 <= k < decorators.len() && !builtin_registry().contains_key(
                #[trigger] decorators.deep_view()[k],
            ) && r->Err_0@ == unknown_decorator(decorators.deep_view()[k]) && forall|j: int|
                0 <= j < k ==> builtin_registry().contains_key(
                    #[trigger] decorators.deep_view()[j],
                ),
{
    let registry = DecoratorRegistry::new();
    let mut ctx = TaskContext::new(name);
    match registry.apply_all(&decorators, &mut ctx) {
        Ok(()) => {
            proof {
                law_builtin_chain_keeps_parameters(
                    decorators.deep_view(),
                    decorators.len() as int,
                    fresh_context(name@),
                    ctx@,
                );
            }
            Ok(ctx)
        },
        Err(error) => {
            assert(chain_admits(
                builtin_registry(),
                decorators.deep_view(),
                fresh_context(name@),
                ctx@,
                Err::<(), Fault>(error@),
            ));
            proof {
                law_bare_chain_fails_on_unknown_name(
                    decorators.deep_view(),
                    fresh_context(name@),
                    ctx@,
                    error@,
                );
            }
            Err(error)
        },
    }
}

} // verus!
