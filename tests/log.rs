use marketplace_core::log::{warn as record, Field, FieldValue, Span, TraceContext, WarnRecord};

const MODULE: &str = "log";

fn signed(name: &str, v: i64) -> Field {
    Field { name: name.to_string(), value: FieldValue::Signed(v) }
}

fn flag(name: &str, v: bool) -> Field {
    Field { name: name.to_string(), value: FieldValue::Bool(v) }
}

fn dbg(name: &str, v: i64) -> Field {
    Field { name: name.to_string(), value: FieldValue::Debug(format!("{:?}", v)) }
}

fn disp(name: &str, v: i64) -> Field {
    Field { name: name.to_string(), value: FieldValue::Display(format!("{}", v)) }
}

fn emit(context: &TraceContext, target: &str, fields: Vec<Field>, message: Option<String>) -> WarnRecord {
    let n = fields.len();
    let r = record(context, target.to_string(), None, fields, message.clone());
    assert_eq!(r.target, target);
    assert_eq!(r.message, message);
    assert_eq!(r.fields.len(), n + 2);
    assert_eq!(r.fields[0].name, "trace_id");
    assert!(matches!(r.fields[0].value, FieldValue::Unsigned(v) if v == context.trace_id));
    assert_eq!(r.fields[1].name, "span_id");
    assert!(matches!(r.fields[1].value, FieldValue::Unsigned(v) if v == context.span_id as u128));
    r
}

fn warn_all(context: &TraceContext) {
    let m = |s: String| Some(s);
    emit(context, MODULE, vec![dbg("foo", 3), disp("bar.baz", 2), flag("quux", false)], None);
    emit(context, MODULE, vec![signed("foo", 3), signed("bar.baz", 2), flag("quux", false)], None);
    emit(context, MODULE, vec![signed("foo", 3), signed("bar.baz", 3)], None);
    emit(context, MODULE, vec![], m("foo".to_string()));
    emit(context, MODULE, vec![], m(format!("foo: {}", 3)));
    emit(
        context,
        MODULE,
        vec![dbg("foo", 3), disp("bar.baz", 2), flag("quux", false)],
        m(format!("hello world {:?}", 42)),
    );
    emit(
        context,
        MODULE,
        vec![signed("foo", 3), signed("bar.baz", 2), flag("quux", false)],
        m(format!("hello world {:?}", 42)),
    );
    emit(context, MODULE, vec![signed("foo", 3), signed("bar.baz", 3)], m(format!("hello world {:?}", 42)));
    emit(context, MODULE, vec![signed("foo", 3), signed("bar.baz", 80)], m("quux".to_string()));
    emit(context, MODULE, vec![signed("foo", 2), signed("bar.baz", 79)], m(format!("quux {:?}", true)));
    emit(
        context,
        MODULE,
        vec![signed("foo", 2), signed("bar.baz", 79)],
        m(format!("quux {:?}, {quux}", true, quux = false)),
    );
    emit(context, MODULE, vec![signed("foo", 2), signed("bar.baz", 78)], m("quux".to_string()));
    emit(context, MODULE, vec![dbg("foo", 2), disp("bar.baz", 78)], m("quux".to_string()));
    emit(context, "foo_events", vec![signed("foo", 3), signed("bar.baz", 2), flag("quux", false)], None);
    emit(context, "foo_events", vec![signed("foo", 3), signed("bar.baz", 3)], None);
    emit(context, "foo_events", vec![], m("foo".to_string()));
    emit(context, "foo_events", vec![], m(format!("foo: {}", 3)));
    emit(context, "foo_events", vec![signed("foo", 3), signed("bar.baz", 80)], m("quux".to_string()));
    emit(context, "foo_events", vec![signed("foo", 2), signed("bar.baz", 79)], m(format!("quux {:?}", true)));
    emit(
        context,
        "foo_events",
        vec![signed("foo", 2), signed("bar.baz", 79)],
        m(format!("quux {:?}, {quux}", true, quux = false)),
    );
    emit(context, "foo_events", vec![signed("foo", 2), signed("bar.baz", 78)], m("quux".to_string()));
    let foo = 1;
    emit(context, MODULE, vec![dbg("foo", foo)], None);
    emit(context, MODULE, vec![disp("foo", foo)], None);
    emit(context, MODULE, vec![signed("foo", foo)], None);
    emit(context, "foo_events", vec![dbg("foo", foo)], None);
    emit(context, "foo_events", vec![disp("foo", foo)], None);
    emit(context, "foo_events", vec![signed("foo", foo)], None);
    emit(context, "foo_events", vec![dbg("foo", foo), flag("true", true)], m("message".to_string()));
    emit(context, "foo_events", vec![disp("foo", foo), flag("true", true)], m("message".to_string()));
    emit(context, "foo_events", vec![signed("foo", foo), flag("true", true)], m("message".to_string()));
}

#[test]
fn warn() {
    warn_all(&TraceContext { trace_id: 0, span_id: 0 });
}

#[test]
fn warn_inside_span() {
    let span = Span::new(
        "my span".to_string(),
        TraceContext { trace_id: 0x4bf92f3577b34da6a3ce929d0e0e4736, span_id: 0x00f067aa0ba902b7 },
    );
    assert_eq!(span.name, "my span");
    warn_all(&span.context);
}

#[test]
fn warn_keeps_caller_fields_after_ids() {
    let context = TraceContext { trace_id: 9, span_id: 4 };
    let r = emit(&context, "t", vec![signed("a", 1), flag("b", true)], None);
    assert_eq!(r.fields[2].name, "a");
    assert!(matches!(r.fields[2].value, FieldValue::Signed(1)));
    assert_eq!(r.fields[3].name, "b");
    assert!(matches!(r.fields[3].value, FieldValue::Bool(true)));
}
