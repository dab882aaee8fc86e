use transition_core::context::ContextValue;
use transition_core::context::Error;
use transition_core::context::StarlarkContext;
use transition_core::context::Tier;

#[test]
fn test_combine() {
    assert_eq!(Tier::Input.combine(None), Tier::Input);
    assert_eq!(Tier::Input.combine(Some(Tier::Input)), Tier::Input);
    assert_eq!(
        Tier::Input.combine(Some(Tier::Environment)),
        Tier::Environment
    );
    assert_eq!(Tier::Input.combine(Some(Tier::Tier0)), Tier::Tier0);
    assert_eq!(Tier::Environment.combine(Some(Tier::Tier0)), Tier::Tier0);
    assert_eq!(Tier::Tier0.combine(Some(Tier::Input)), Tier::Tier0);
}

#[test]
fn test_category_not_in_formatting() {
    let e = Error::new("test error".to_string()).context(ContextValue::Dyn("foo".to_string()));
    let e2 = Error::new("test error".to_string())
        .context(ContextValue::Dyn("foo".to_string()))
        .context(ContextValue::Tier(Tier::Input));
    assert_eq!(e.render(), e2.render());
}

#[test]
fn test_category_infra_preferred() {
    let e = Error::new("test error".to_string())
        .context(ContextValue::Tier(Tier::Tier0))
        .context(ContextValue::Tier(Tier::Input));
    assert_eq!(e.get_tier(), Some(Tier::Tier0));
}

#[test]
fn test_render_exact() {
    let e = Error::new("test error".to_string()).context(ContextValue::Dyn("foo".to_string()));
    assert_eq!(e.render(), "foo: test error");
}

#[test]
fn test_render_skips_bookkeeping_contexts() {
    let e = Error::new("root".to_string())
        .context(ContextValue::Key("CATEGORY".to_string()))
        .context(ContextValue::Dyn("outer".to_string()));
    assert_eq!(e.render(), "outer: root");
}

#[test]
fn test_get_tier_none_without_tier_context() {
    let e = Error::new("root".to_string()).context(ContextValue::Dyn("foo".to_string()));
    assert_eq!(e.get_tier(), None);
}

#[test]
fn test_should_display() {
    assert!(ContextValue::Dyn("x".to_string()).should_display());
    assert!(!ContextValue::Tier(Tier::Input).should_display());
    assert!(!ContextValue::Key("k".to_string()).should_display());
}

#[test]
fn test_context_assert_eq_on_equal_values() {
    let a = ContextValue::Dyn("same".to_string());
    let b = ContextValue::Dyn("same".to_string());
    a.assert_eq(&b);
    let c = ContextValue::Tier(Tier::Environment);
    let d = ContextValue::Tier(Tier::Environment);
    c.assert_eq(&d);
}

#[test]
fn test_concat_without_other_keeps_context() {
    let ctx = StarlarkContext {
        call_stack: "Traceback (most recent call last):\n  File a\n".to_string(),
        error_msg: "boom".to_string(),
        span: None,
    };
    let r = ctx.concat(None);
    assert_eq!(
        r.call_stack,
        "Traceback (most recent call last):\n  File a\n"
    );
    assert_eq!(r.error_msg, "boom");
}

#[test]
fn test_concat_strips_traceback_heading() {
    let first = StarlarkContext {
        call_stack: "Traceback (most recent call last):\n  File a\n".to_string(),
        error_msg: "first".to_string(),
        span: None,
    };
    let second = StarlarkContext {
        call_stack: "Traceback (most recent call last):\n  File b\n".to_string(),
        error_msg: "second".to_string(),
        span: None,
    };
    let r = first.concat(Some(second));
    assert_eq!(
        r.call_stack,
        "Traceback (most recent call last):\n  File a\n\n  File b\n"
    );
    assert_eq!(r.error_msg, "second");
}
