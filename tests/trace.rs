use fs_tracing::{Error, PrimitiveError, Span, SpanStack, SpanTrace};
use std::io::ErrorKind;

fn not_found() -> PrimitiveError {
    let io = std::io::Error::from(ErrorKind::NotFound);
    PrimitiveError::new(io.kind(), io.to_string(), None)
}

fn names(t: &SpanTrace) -> Vec<String> {
    let mut v = Vec::new();
    let mut i = 0;
    while let Some(s) = t.get(i) {
        v.push(s.name.clone());
        i += 1;
    }
    v
}

#[test]
fn wrap_keeps_every_kind() {
    let kinds = [
        ErrorKind::NotFound,
        ErrorKind::PermissionDenied,
        ErrorKind::AlreadyExists,
        ErrorKind::Interrupted,
        ErrorKind::InvalidInput,
        ErrorKind::UnexpectedEof,
        ErrorKind::Other,
    ];
    let mut stack = SpanStack::new();
    stack.enter(Span::new("fs_tracing", "read", "path=/x"));
    for k in kinds {
        let e = PrimitiveError::new(k, format!("{:?}", k), None);
        assert_eq!(Error::wrap_in(e, &stack).kind(), k);
        let e = PrimitiveError::new(k, format!("{:?}", k), None);
        assert_eq!(Error::wrap(e).kind(), k);
    }
}

#[test]
fn source_shows_the_original_text() {
    let io = std::io::Error::new(ErrorKind::PermissionDenied, "no access");
    let text = io.to_string();
    let inner = io.into_inner().map(|b| b.to_string());
    let e = PrimitiveError::new(ErrorKind::PermissionDenied, text.clone(), inner);
    let w = Error::wrap_in(e, &SpanStack::new());
    assert_eq!(w.source().message, text);
    assert_eq!(w.message(), "no access");
    assert_eq!(w.source().cause.as_deref(), Some("no access"));
    assert_eq!(w.into_source().kind, ErrorKind::PermissionDenied);
}

#[test]
fn capture_lists_innermost_first() {
    let mut stack = SpanStack::new();
    stack.enter(Span::new("app", "outer", ""));
    stack.enter(Span::new("app", "middle", "n=1"));
    stack.enter(Span::new("app", "inner", "n=2"));
    let t = stack.capture();
    assert_eq!(t.len(), 3);
    assert!(!t.is_empty());
    assert_eq!(names(&t), vec!["inner", "middle", "outer"]);
    assert_eq!(t.get(1).unwrap().fields, "n=1");
    assert!(t.get(3).is_none());
}

#[test]
fn capture_with_no_span_is_empty() {
    let stack = SpanStack::new();
    let t = stack.capture();
    assert!(t.is_empty());
    assert_eq!(t.render(), "");
}

#[test]
fn nested_failure_restores_the_stack() {
    let mut stack = SpanStack::new();
    stack.enter(Span::new("app", "main", ""));
    let before = stack.depth();
    stack.enter(Span::new("fs_tracing", "copy", "from=/a to=/tmp/x"));
    stack.enter(Span::new("fs_tracing", "open", "path=/tmp/x"));
    let err = Error::wrap_in(not_found(), &stack);
    assert_eq!(stack.exit().unwrap().name, "open");
    assert_eq!(stack.exit().unwrap().name, "copy");
    assert_eq!(stack.depth(), before);
    assert_eq!(stack.current().unwrap().name, "main");
    assert_eq!(err.trace().len(), 3);
}

#[test]
fn exit_on_empty_stack_changes_nothing() {
    let mut stack = SpanStack::new();
    assert!(stack.exit().is_none());
    assert_eq!(stack.depth(), 0);
    assert!(stack.current().is_none());
}

#[test]
fn capture_twice_gives_the_same_trace() {
    let mut stack = SpanStack::new();
    stack.enter(Span::new("app", "outer", "a=1"));
    stack.enter(Span::new("app", "inner", "b=2"));
    let first = stack.capture();
    let second = stack.capture();
    assert_eq!(first.render(), second.render());
    assert_eq!(names(&first), names(&second));
    assert_eq!(stack.depth(), 2);
}

#[test]
fn read_not_found_renders_message_and_span() {
    let mut stack = SpanStack::new();
    stack.enter(Span::new("fs_tracing", "read", "path=/not_exist"));
    let err = Error::wrap_in(not_found(), &stack);
    stack.exit();
    let text = err.render();
    assert!(text.starts_with("entity not found\n"));
    assert!(text.ends_with("Trace:\n   0: fs_tracing::read\n           with path=/not_exist"));
    assert_eq!(err.kind(), ErrorKind::NotFound);
}

#[test]
fn nested_open_lists_open_before_copy() {
    let mut stack = SpanStack::new();
    stack.enter(Span::new("fs_tracing", "copy", "from=/a,to=/tmp/x"));
    stack.enter(Span::new("fs_tracing", "open", "path=/tmp/x"));
    let err = Error::wrap_in(not_found(), &stack);
    let t = err.trace();
    assert_eq!(names(t), vec!["open", "copy"]);
    assert_eq!(t.get(0).unwrap().fields, "path=/tmp/x");
    assert_eq!(t.get(1).unwrap().fields, "from=/a,to=/tmp/x");
    assert_eq!(
        err.render(),
        "entity not found\nTrace:\n   0: fs_tracing::open\n           with path=/tmp/x\n   1: fs_tracing::copy\n           with from=/a,to=/tmp/x"
    );
}

#[test]
fn two_writes_get_their_own_traces() {
    let mut stack = SpanStack::new();
    stack.enter(Span::new("fs_tracing", "write", "path=/not_exist"));
    let first = Error::wrap_in(not_found(), &stack);
    stack.exit();
    assert_eq!(stack.depth(), 0);
    stack.enter(Span::new("fs_tracing", "write", "path=/not_exist"));
    let second = Error::wrap_in(not_found(), &stack);
    stack.exit();
    assert_eq!(first.trace().len(), 1);
    assert_eq!(second.trace().len(), 1);
    assert_eq!(first.render(), second.render());
    assert_eq!(stack.depth(), 0);
}

#[test]
fn render_prints_the_cause_line() {
    let e = PrimitiveError::new(
        ErrorKind::InvalidData,
        "bad header".to_string(),
        Some("bad header".to_string()),
    );
    let mut stack = SpanStack::new();
    stack.enter(Span::new("m", "parse", ""));
    let w = Error::wrap_in(e, &stack);
    assert_eq!(w.render(), "bad header\nbad header\nTrace:\n   0: m::parse");
}

#[test]
fn render_with_no_span_ends_with_empty_section() {
    let w = Error::with_trace(not_found(), SpanTrace::new());
    assert_eq!(w.render(), "entity not found\nTrace:\n");
}

#[test]
fn capture_without_subscriber_is_empty() {
    assert!(SpanTrace::capture().is_empty());
    let w = Error::wrap(not_found());
    assert!(w.trace().is_empty());
    assert_eq!(w.kind(), ErrorKind::NotFound);
}

#[test]
fn span_snapshot_and_push_outer() {
    let s = Span::new("t", "n", "f=1");
    let c = s.snapshot();
    assert_eq!((c.target.as_str(), c.name.as_str(), c.fields.as_str()), ("t", "n", "f=1"));
    let mut t = SpanTrace::new();
    t.push_outer(s);
    t.push_outer(Span::new("t", "outer", ""));
    assert_eq!(names(&t), vec!["n", "outer"]);
    assert_eq!(t.render(), "   0: t::n\n           with f=1\n   1: t::outer");
}

#[test]
fn positions_are_right_aligned() {
    let mut stack = SpanStack::new();
    let mut i = 0;
    while i < 12 {
        stack.enter(Span::new("m", &format!("s{}", i), ""));
        i += 1;
    }
    let text = stack.capture().render();
    let lines: Vec<&str> = text.split('\n').collect();
    assert_eq!(lines.len(), 12);
    assert_eq!(lines[0], "   0: m::s11");
    assert_eq!(lines[9], "   9: m::s2");
    assert_eq!(lines[10], "  10: m::s1");
    assert_eq!(lines[11], "  11: m::s0");
}
