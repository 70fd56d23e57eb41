use transr::errhuman::ErrorKind;
use transr::errhuman::TransRError;
use transr::errhuman::TransRResult;
use transr::plugins::decorator::decorated_task;
use transr::plugins::decorator::is_region_allowed;
use transr::plugins::decorator::Builtin;
use transr::plugins::decorator::Decorator;
use transr::plugins::decorator::DecoratorRegistry;
use transr::plugins::decorator::TaskContext;

fn context(name: &str, args: &[(&str, &str)]) -> TaskContext {
    let mut ctx = TaskContext::new(name);
    for (key, value) in args {
        ctx.set_arg(key.to_string(), value.to_string());
    }
    ctx
}

fn metadata(ctx: &TaskContext, key: &str) -> Option<String> {
    ctx.metadata.get(key).cloned()
}

#[test]
fn fresh_context_holds_only_the_name() {
    let ctx = TaskContext::new("job");
    assert_eq!(ctx.name, "job");
    assert!(ctx.args.is_empty());
    assert!(ctx.metadata.is_empty());
    assert_eq!(ctx.result, None);
}

#[test]
fn validate_cites_the_missing_field() {
    let registry = DecoratorRegistry::new();
    let mut ctx = context("job", &[("required", "a,b"), ("a", "1")]);
    let error = registry.apply("validate", &mut ctx).unwrap_err();
    assert_eq!(error.kind(), ErrorKind::Validation);
    assert_eq!(error.detail(), "Missing required field: b");
}

#[test]
fn validate_accepts_when_all_fields_are_given() {
    let registry = DecoratorRegistry::new();
    let mut ctx = context("job", &[("required", "a"), ("a", "1")]);
    assert!(registry.apply("validate", &mut ctx).is_ok());
    let mut bare = context("job", &[]);
    assert!(registry.apply("validate", &mut bare).is_ok());
}

#[test]
fn validate_trims_the_fields_and_names_the_first_missing() {
    let registry = DecoratorRegistry::new();
    let mut ctx = context("job", &[("required", " a , b ,c"), ("a", "1"), ("c", "3")]);
    let error = registry.apply("validate", &mut ctx).unwrap_err();
    assert_eq!(error.detail(), "Missing required field:  b ");
    let mut ok = context("job", &[("required", " a , b "), ("a", "1"), ("b", "2")]);
    assert!(registry.apply("validate", &mut ok).is_ok());
    // The parameter `required` is itself a key, so it is never missing.
    let mut own = context("job", &[("required", "required")]);
    assert!(registry.apply("validate", &mut own).is_ok());
    // An empty list has one empty field, which is no key.
    let mut empty = context("job", &[("required", "")]);
    assert_eq!(
        registry.apply("validate", &mut empty).unwrap_err().detail(),
        "Missing required field: "
    );
}

#[test]
fn region_refuses_mars() {
    let registry = DecoratorRegistry::new();
    let mut ctx = context("probe", &[("region", "mars")]);
    let error = registry.apply("region", &mut ctx).unwrap_err();
    assert_eq!(error.kind(), ErrorKind::Region);
    assert_eq!(error.detail(), "probe");
    assert_eq!(
        error.to_string(),
        "❌ Region Error: Feature 'probe' tidak tersedia dalam region ini"
    );
}

#[test]
fn region_accepts_the_allowed_regions_and_absence() {
    let registry = DecoratorRegistry::new();
    for region in ["global", "asia", "us", "eu"] {
        let mut ctx = context("probe", &[("region", region)]);
        assert!(registry.apply("region", &mut ctx).is_ok());
        assert!(is_region_allowed(region));
    }
    let mut absent = context("probe", &[]);
    assert!(registry.apply("region", &mut absent).is_ok());
    assert!(!is_region_allowed("EU"));
    assert!(!is_region_allowed(""));
}

#[test]
fn unregistered_decorator_is_a_validation_error() {
    let registry = DecoratorRegistry::new();
    let mut ctx = context("job", &[]);
    let error = registry.apply("nope", &mut ctx).unwrap_err();
    assert_eq!(error.kind(), ErrorKind::Validation);
    assert_eq!(error.detail(), "Unknown decorator: @nope");
    assert!(ctx.metadata.is_empty());
}

#[test]
fn retry_stores_the_budget() {
    let registry = DecoratorRegistry::new();
    let mut default = context("job", &[]);
    registry.apply("retry", &mut default).unwrap();
    assert_eq!(metadata(&default, "max_retries"), Some("3".to_string()));
    let mut given = context("job", &[("max_retries", "7")]);
    registry.apply("retry", &mut given).unwrap();
    assert_eq!(metadata(&given, "max_retries"), Some("7".to_string()));
    let mut junk = context("job", &[("max_retries", "many")]);
    registry.apply("retry", &mut junk).unwrap();
    assert_eq!(metadata(&junk, "max_retries"), Some("3".to_string()));
    let mut negative = context("job", &[("max_retries", "-1")]);
    registry.apply("retry", &mut negative).unwrap();
    assert_eq!(metadata(&negative, "max_retries"), Some("3".to_string()));
    let mut padded = context("job", &[("max_retries", "010")]);
    registry.apply("retry", &mut padded).unwrap();
    assert_eq!(metadata(&padded, "max_retries"), Some("10".to_string()));
}

#[test]
fn flags_are_set_in_the_metadata() {
    let registry = DecoratorRegistry::new();
    let mut ctx = context("job", &[]);
    registry.apply("cache", &mut ctx).unwrap();
    registry.apply("async", &mut ctx).unwrap();
    registry.apply("secure", &mut ctx).unwrap();
    assert_eq!(metadata(&ctx, "cache_enabled"), Some("true".to_string()));
    assert_eq!(metadata(&ctx, "async"), Some("true".to_string()));
    assert_eq!(metadata(&ctx, "secure"), Some("true".to_string()));
    assert_eq!(ctx.metadata.len(), 3);
}

#[test]
fn timing_records_a_start_marker_and_log_changes_nothing() {
    let registry = DecoratorRegistry::new();
    let mut ctx = context("job", &[("k", "v")]);
    registry.apply("log", &mut ctx).unwrap();
    assert!(ctx.metadata.is_empty());
    registry.apply("timing", &mut ctx).unwrap();
    assert!(metadata(&ctx, "start_time").is_some());
    assert_eq!(ctx.metadata.len(), 1);
    assert_eq!(ctx.args.len(), 1);
}

#[test]
fn registry_lists_the_builtin_names() {
    let registry = DecoratorRegistry::new();
    let mut names = registry.list_decorators();
    names.sort();
    assert_eq!(
        names,
        vec!["async", "cache", "log", "region", "retry", "secure", "timing", "validate"]
    );
}

#[test]
fn register_inserts_and_overwrites() {
    let mut registry = DecoratorRegistry::new();
    registry.register("strict", Builtin::Validate);
    registry.register("cache", Builtin::Secure);
    let mut names = registry.list_decorators();
    names.sort();
    assert_eq!(names.len(), 9);
    assert!(names.contains(&"strict".to_string()));
    let mut ctx = context("job", &[("required", "x")]);
    assert!(registry.apply("strict", &mut ctx).is_err());
    registry.apply("cache", &mut ctx).unwrap();
    assert_eq!(metadata(&ctx, "secure"), Some("true".to_string()));
    assert_eq!(metadata(&ctx, "cache_enabled"), None);
}

/// A hook of the caller's own: it refuses a context whose name is empty and
/// notes that it has seen the others.
struct NamedOnly;

impl Decorator for NamedOnly {
    fn decorate(&self, ctx: &mut TaskContext) -> TransRResult<()> {
        if ctx.name.is_empty() {
            return Err(TransRError::ValidationError("A task needs a name".to_string()));
        }
        ctx.set_metadata("named".to_string(), "true".to_string());
        Ok(())
    }
}

#[test]
fn callers_register_hooks_of_their_own() {
    let mut registry: DecoratorRegistry<NamedOnly> = DecoratorRegistry::empty();
    assert!(registry.list_decorators().is_empty());
    registry.register("named", NamedOnly);
    let mut ctx = context("job", &[]);
    registry.apply("named", &mut ctx).unwrap();
    assert_eq!(metadata(&ctx, "named"), Some("true".to_string()));
    let mut nameless = context("", &[]);
    assert_eq!(
        registry.apply("named", &mut nameless).unwrap_err().detail(),
        "A task needs a name"
    );
    assert_eq!(
        registry.apply("cache", &mut ctx).unwrap_err().detail(),
        "Unknown decorator: @cache"
    );
}

#[test]
fn chain_stops_at_the_first_refusal() {
    let registry = DecoratorRegistry::new();
    let mut ctx = context("job", &[("region", "mars")]);
    let names = vec!["cache", "region", "secure"];
    let error = registry.apply_all(&names, &mut ctx).unwrap_err();
    assert_eq!(error.kind(), ErrorKind::Region);
    assert_eq!(metadata(&ctx, "cache_enabled"), Some("true".to_string()));
    assert_eq!(metadata(&ctx, "secure"), None);
    let mut fine = context("job", &[("region", "eu")]);
    registry.apply_all(&names, &mut fine).unwrap();
    assert_eq!(metadata(&fine, "secure"), Some("true".to_string()));
    let mut untouched = context("job", &[]);
    registry.apply_all(&vec![], &mut untouched).unwrap();
    assert!(untouched.metadata.is_empty());
}

#[test]
fn decorated_task_applies_the_chain_to_a_fresh_context() {
    let ctx = decorated_task("job", vec!["timing", "retry", "cache", "validate", "region"]).unwrap();
    assert_eq!(ctx.name, "job");
    assert!(ctx.args.is_empty());
    assert_eq!(ctx.result, None);
    assert_eq!(metadata(&ctx, "max_retries"), Some("3".to_string()));
    assert_eq!(metadata(&ctx, "cache_enabled"), Some("true".to_string()));
    assert!(metadata(&ctx, "start_time").is_some());
    assert_eq!(ctx.metadata.len(), 3);
    let bare = decorated_task("job", vec![]).unwrap();
    assert!(bare.metadata.is_empty());
}

#[test]
fn decorated_task_fails_on_an_unknown_name() {
    match decorated_task("job", vec!["cache", "turbo", "bogus"]) {
        Err(error) => {
            assert_eq!(error.kind(), ErrorKind::Validation);
            assert_eq!(error.detail(), "Unknown decorator: @turbo");
        }
        Ok(_) => panic!("an error was expected"),
    }
}

#[test]
fn builtin_names() {
    assert_eq!(Builtin::Timing.name(), "timing");
    assert_eq!(Builtin::Log.name(), "log");
    assert_eq!(Builtin::Region.name(), "region");
    assert_eq!(Builtin::Retry.name(), "retry");
    assert_eq!(Builtin::Cache.name(), "cache");
    assert_eq!(Builtin::Validate.name(), "validate");
    assert_eq!(Builtin::Async.name(), "async");
    assert_eq!(Builtin::Secure.name(), "secure");
}

#[test]
fn builtins_by_name() {
    for kind in [
        Builtin::Timing,
        Builtin::Log,
        Builtin::Region,
        Builtin::Retry,
        Builtin::Cache,
        Builtin::Validate,
        Builtin::Async,
        Builtin::Secure,
    ] {
        assert_eq!(Builtin::named(kind.name()), Some(kind));
    }
    assert_eq!(Builtin::named("Timing"), None);
    assert_eq!(Builtin::named(""), None);
}

#[test]
fn hooks_say_what_they_do() {
    let ctx = context("job", &[("region", "eu"), ("max_retries", "5")]);
    assert_eq!(Builtin::Timing.notice(&ctx), Some("⏱️  Starting: job".to_string()));
    assert_eq!(Builtin::Log.notice(&ctx), Some("📝 Executing: job".to_string()));
    assert_eq!(Builtin::Region.notice(&ctx), Some("✓ Region check passed: eu".to_string()));
    assert_eq!(
        Builtin::Retry.notice(&ctx),
        Some("🔄 Retry enabled: max 5 attempts".to_string())
    );
    assert_eq!(Builtin::Cache.notice(&ctx), Some("💾 Cache enabled for: job".to_string()));
    assert_eq!(Builtin::Validate.notice(&ctx), Some("✓ Validating inputs for: job".to_string()));
    assert_eq!(Builtin::Async.notice(&ctx), Some("⚡ Async mode enabled for: job".to_string()));
    assert_eq!(
        Builtin::Secure.notice(&ctx),
        Some("🔒 Security checks enabled for: job".to_string())
    );
    let bare = context("job", &[]);
    assert_eq!(Builtin::Region.notice(&bare), None);
    assert_eq!(
        Builtin::Retry.notice(&bare),
        Some("🔄 Retry enabled: max 3 attempts".to_string())
    );
    let mars = context("job", &[("region", "mars")]);
    assert_eq!(Builtin::Region.notice(&mars), None);
}
