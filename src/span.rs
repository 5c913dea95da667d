use vstd::prelude::*;
use vstd::string::*;

verus! {

/// What a span is, as a mathematical value.
pub struct SpanView {
    pub target: Seq<char>,
    pub name: Seq<char>,
    pub fields: Seq<char>,
}

/// A snapshot of one named execution scope: the target (module path) that
/// declared it, its name, and its fields already formatted as text
/// (for instance `path="/not_exist"`).
#[derive(Clone, Debug)]
pub struct Span {
    pub target: String,
    pub name: String,
    pub fields: String,
}

impl View for Span {
    type V = SpanView;

    open spec fn view(&self) -> SpanView {
        SpanView { target: self.target@, name: self.name@, fields: self.fields@ }
    }
}

impl Span {
    /// A span snapshot with the given target, name and formatted fields.
    pub fn new(target: &str, name: &str, fields: &str) -> (r: Span)
        ensures
            r@ == (SpanView { target: target@, name: name@, fields: fields@ }),
    {
        Span { target: String::from_str(target), name: String::from_str(name), fields: String::from_str(fields) }
    }

    /// An independent copy of this span.
    pub fn snapshot(&self) -> (r: Span)
        ensures
            r@ == self@,
    {
        Span { target: self.target.clone(), name: self.name.clone(), fields: self.fields.clone() }
    }
}

/// The views of a sequence of spans.
pub open spec fn views(v: Seq<Span>) -> Seq<SpanView> {
    v.map_values(|s: Span| s@)
}

/// The decimal digit for `d`, which is below ten.
pub open spec fn digit_char(d: nat) -> char {
    if d == 0 { '0' }
    else if d == 1 { '1' }
    else if d == 2 { '2' }
    else if d == 3 { '3' }
    else if d == 4 { '4' }
    else if d == 5 { '5' }
    else if d == 6 { '6' }
    else if d == 7 { '7' }
    else if d == 8 { '8' }
    else { '9' }
}

/// `n` written in decimal, with no leading zero.
pub open spec fn decimal(n: nat) -> Seq<char>
    decreases n,
{
    if n < 10 {
        seq![digit_char(n)]
    } else {
        decimal(n / 10) + seq![digit_char(n % 10)]
    }
}

/// The spaces that right-align the decimal text of `n` in four columns.
pub open spec fn index_pad(n: nat) -> Seq<char> {
    if n < 10 {
        "   "@
    } else if n < 100 {
        "  "@
    } else if n < 1000 {
        " "@
    } else {
        Seq::empty()
    }
}

/// The text of the span at position `i` of a rendered trace: its position,
/// right-aligned in four columns, its target and name, and on a second line
/// its fields when it has any.
pub open spec fn span_text(i: nat, s: SpanView) -> Seq<char> {
    let head = index_pad(i) + decimal(i) + ": "@ + s.target + "::"@ + s.name;
    if s.fields.len() == 0 {
        head
    } else {
        head + "\n           with "@ + s.fields
    }
}

/// The text of a whole trace: the spans in order, each with its position,
/// and a line break between two neighbours.
pub open spec fn trace_text(s: Seq<SpanView>) -> Seq<char>
    decreases s.len(),
{
    if s.len() == 0 {
        Seq::empty()
    } else if s.len() == 1 {
        span_text(0, s[0])
    } else {
        trace_text(s.drop_last()) + "\n"@ + span_text((s.len() - 1) as nat, s.last())
    }
}

fn digit_str(d: usize) -> (r: &'static str)
    requires
        d < 10,
    ensures
        r@ == seq![digit_char(d as nat)],
{
    if d == 0 { proof { reveal_strlit("0"); } "0" }
    else if d == 1 { proof { reveal_strlit("1"); } "1" }
    else if d == 2 { proof { reveal_strlit("2"); } "2" }
    else if d == 3 { proof { reveal_strlit("3"); } "3" }
    else if d == 4 { proof { reveal_strlit("4"); } "4" }
    else if d == 5 { proof { reveal_strlit("5"); } "5" }
    else if d == 6 { proof { reveal_strlit("6"); } "6" }
    else if d == 7 { proof { reveal_strlit("7"); } "7" }
    else if d == 8 { proof { reveal_strlit("8"); } "8" }
    else { proof { reveal_strlit("9"); } "9" }
}

/// Appends `n` in decimal to `out`.
fn push_decimal(out: &mut String, n: usize)
    ensures
        final(out)@ == old(out)@ + decimal(n as nat),
    decreases n,
{
    if n >= 10 {
        push_decimal(out, n / 10);
    }
    out.append(digit_str(n % 10));
    assert(final(out)@ =~= old(out)@ + decimal(n as nat));
}

/// Appends the text of the span `s` at position `i` to `out`.
fn push_span_text(out: &mut String, i: usize, s: &Span)
    ensures
        final(out)@ == old(out)@ + span_text(i as nat, s@),
{
    if i < 10 {
        out.append("   ");
    } else if i < 100 {
        out.append("  ");
    } else if i < 1000 {
        out.append(" ");
    }
    push_decimal(out, i);
    out.append(": ");
    out.append(s.target.as_str());
    out.append("::");
    out.append(s.name.as_str());
    if !s.fields.as_str().is_empty() {
        out.append("\n           with ");
        out.append(s.fields.as_str());
    }
    assert(final(out)@ =~= old(out)@ + span_text(i as nat, s@));
}

/// An immutable snapshot of the spans that were active at one moment,
/// innermost (the scope that failed) first, outermost last.
#[derive(Clone, Debug)]
pub struct SpanTrace {
    spans: Vec<Span>,
}

impl View for SpanTrace {
    type V = Seq<SpanView>;

    closed spec fn view(&self) -> Seq<SpanView> {
        views(self.spans@)
    }
}

impl SpanTrace {
    /// A trace that holds no span.
    pub fn new() -> (r: SpanTrace)
        ensures
            r@ == Seq::<SpanView>::empty(),
    {
        let r = SpanTrace { spans: Vec::new() };
        assert(r@ =~= Seq::<SpanView>::empty());
        r
    }

    pub fn len(&self) -> (r: usize)
        ensures
            r == self@.len(),
    {
        self.spans.len()
    }

    pub fn is_empty(&self) -> (r: bool)
        ensures
            r == (self@.len() == 0),
    {
        self.spans.len() == 0
    }

    /// The span at position `i`, counted from the innermost.
    pub fn get(&self, i: usize) -> (r: Option<&Span>)
        ensures
            i < self@.len() ==> r.is_some() && r.unwrap()@ == self@[i as int],
            i >= self@.len() ==> r.is_none(),
    {
        if i < self.spans.len() {
            Some(&self.spans[i])
        } else {
            None
        }
    }

    /// A snapshot of the spans that the tracing subscriber of the calling
    /// thread holds active, innermost first. What it holds depends on that
    /// subscriber alone: without one that records spans it is empty.
    pub fn capture() -> (r: SpanTrace) {
        current_trace()
    }

    /// Adds `s` as the new outermost span of the trace.
    pub fn push_outer(&mut self, s: Span)
        ensures
            final(self)@ == old(self)@.push(s@),
    {
        self.spans.push(s);
        assert(final(self)@ =~= old(self)@.push(s@));
    }

    /// The trace as text, innermost span first.
    pub fn render(&self) -> (r: String)
        ensures
            r@ == trace_text(self@),
    {
        let mut out = String::new();
        let mut i: usize = 0;
        while i < self.spans.len()
            invariant
                i <= self.spans@.len(),
                out@ == trace_text(self@.take(i as int)),
            decreases self.spans@.len() - i,
        {
            proof {
                let t = self@.take(i as int + 1);
                assert(t.drop_last() =~= self@.take(i as int));
                assert(t.last() == self@[i as int]);
            }
            if i > 0 {
                out.append("\n");
            }
            push_span_text(&mut out, i, &self.spans[i]);
            i = i + 1;
        }
        assert(self@.take(i as int) =~= self@);
        out
    }
}

/// Relies on `tracing_error::SpanTrace::capture`, which records the current
/// span of the calling thread, and on `SpanTrace::with_spans`, which visits
/// the recorded spans innermost first with their metadata and formatted
/// fields. Each visited span is copied into the library's own trace.
#[verifier::external_body]
fn current_trace() -> (r: SpanTrace) {
    let mut t = SpanTrace::new();
    tracing_error::SpanTrace::capture().with_spans(|meta, fields| {
        t.push_outer(Span::new(meta.target(), meta.name(), fields));
        true
    });
    t
}

} // verus!
