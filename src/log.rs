use vstd::prelude::*;

verus! {

/// Identities of the trace and span that are current where an event is
/// recorded; zero outside any span.
#[derive(Clone, Copy, Debug, PartialEq, Eq, Structural)]
pub struct TraceContext {
    pub trace_id: u128,
    pub span_id: u64,
}

/// A value of a structured field.
#[derive(Debug)]
pub enum FieldValue {
    Unsigned(u128),
    Signed(i64),
    Bool(bool),
    /// A value shown with its `Debug` rendering.
    Debug(String),
    /// A value shown with its `Display` rendering.
    Display(String),
}

/// A named field of an event.
#[derive(Debug)]
pub struct Field {
    pub name: String,
    pub value: FieldValue,
}

/// A warn-level event, ready to be emitted.
#[derive(Debug)]
pub struct WarnRecord {
    pub target: String,
    pub parent: Option<u64>,
    /// The current trace and span identities first, then the caller's fields.
    pub fields: Vec<Field>,
    pub message: Option<String>,
}

/// A named span and the context that is current inside it.
#[derive(Debug)]
pub struct Span {
    pub name: String,
    pub context: TraceContext,
}

impl Span {
    pub fn new(name: String, context: TraceContext) -> (r: Span)
        ensures
            r.name@ == name@,
            r.context == context,
    {
        Span { name, context }
    }
}

/// Whether `f` is the field named `name` holding the unsigned value `v`.
pub open spec fn is_id_field(f: Field, name: Seq<char>, v: u128) -> bool {
    f.name@ == name && f.value == FieldValue::Unsigned(v)
}

/// Records a warn-level event for `target`, with the current trace and span
/// identities added in front of the caller's fields as `trace_id` and
/// `span_id`.
pub fn warn(
    context: &TraceContext,
    target: String,
    parent: Option<u64>,
    fields: Vec<Field>,
    message: Option<String>,
) -> (r: WarnRecord)
    ensures
        r.target@ == target@,
        r.parent == parent,
        r.message == message,
        r.fields@.len() == fields@.len() + 2,
        is_id_field(r.fields@[0], "trace_id"@, context.trace_id),
        is_id_field(r.fields@[1], "span_id"@, context.span_id as u128),
        r.fields@.subrange(2, r.fields@.len() as int) == fields@,
{
    let mut fields = fields;
    let mut all: Vec<Field> = Vec::new();
    all.push(Field { name: "trace_id".to_owned(), value: FieldValue::Unsigned(context.trace_id) });
    all.push(
        Field { name: "span_id".to_owned(), value: FieldValue::Unsigned(context.span_id as u128) },
    );
    let ghost given = fields@;
    all.append(&mut fields);
    assert(all@.subrange(2, all@.len() as int) =~= given);
    WarnRecord { target, parent, fields: all, message }
}

} // verus!
