use vstd::prelude::*;
use crate::span::{views, Span, SpanTrace, SpanView};

verus! {

/// The spans of a stack listed innermost first: the reverse of the stack,
/// whose innermost span is its last.
pub open spec fn innermost_first(s: Seq<SpanView>) -> Seq<SpanView> {
    Seq::new(s.len(), |k: int| s[s.len() - 1 - k])
}

/// The stack after a span is entered: the span goes on top.
pub open spec fn entered(s: Seq<SpanView>, x: SpanView) -> Seq<SpanView> {
    s.push(x)
}

/// The stack after the innermost span is left; an empty stack stays empty.
pub open spec fn exited(s: Seq<SpanView>) -> Seq<SpanView> {
    if s.len() == 0 {
        s
    } else {
        s.drop_last()
    }
}

/// The spans that are active on one thread of control, outermost first,
/// so that the innermost span is on top.
#[derive(Debug)]
pub struct SpanStack {
    active: Vec<Span>,
}

impl View for SpanStack {
    type V = Seq<SpanView>;

    closed spec fn view(&self) -> Seq<SpanView> {
        views(self.active@)
    }
}

impl SpanStack {
    /// A stack with no active span.
    pub fn new() -> (r: SpanStack)
        ensures
            r@ == Seq::<SpanView>::empty(),
    {
        let r = SpanStack { active: Vec::new() };
        assert(r@ =~= Seq::<SpanView>::empty());
        r
    }

    /// How many spans are active.
    pub fn depth(&self) -> (r: usize)
        ensures
            r == self@.len(),
    {
        self.active.len()
    }

    /// The innermost active span, if any.
    pub fn current(&self) -> (r: Option<&Span>)
        ensures
            self@.len() == 0 ==> r.is_none(),
            self@.len() > 0 ==> r.is_some() && r.unwrap()@ == self@.last(),
    {
        let n = self.active.len();
        if n == 0 {
            None
        } else {
            Some(&self.active[n - 1])
        }
    }

    /// Enters `s`: it becomes the innermost active span, and the span that
    /// was innermost before is its parent.
    pub fn enter(&mut self, s: Span)
        ensures
            final(self)@ == entered(old(self)@, s@),
    {
        self.active.push(s);
        assert(final(self)@ =~= entered(old(self)@, s@));
    }

    /// Leaves the innermost active span and hands it back; on a stack with
    /// no active span nothing changes and the result is `None`.
    pub fn exit(&mut self) -> (r: Option<Span>)
        ensures
            final(self)@ == exited(old(self)@),
            old(self)@.len() == 0 ==> r.is_none(),
            old(self)@.len() > 0 ==> r.is_some() && r.unwrap()@ == old(self)@.last(),
    {
        let r = self.active.pop();
        assert(final(self)@ =~= exited(old(self)@));
        r
    }

    /// A snapshot of the active spans, innermost first. The stack is left
    /// as it is.
    pub fn capture(&self) -> (r: SpanTrace)
        ensures
            r@ == innermost_first(self@),
    {
        let n = self.active.len();
        let mut t = SpanTrace::new();
        let mut i: usize = n;
        while i > 0
            invariant
                n == self@.len(),
                i <= n,
                t@.len() == n - i,
                forall|k: int| 0 <= k < n - i ==> #[trigger] t@[k] == self@[n - 1 - k],
            decreases i,
        {
            i = i - 1;
            t.push_outer(self.active[i].snapshot());
        }
        assert(t@ =~= innermost_first(self@));
        t
    }
}

/// A trace captured while at least one span is active holds at least one
/// span, and lists the spans innermost first: its first span is the one on
/// top of the stack, and each later span is the parent of the one before.
pub proof fn lemma_capture_nonempty_innermost_first(s: Seq<SpanView>)
    requires
        s.len() > 0,
    ensures
        innermost_first(s).len() > 0,
        innermost_first(s)[0] == s.last(),
        innermost_first(s).last() == s[0],
        forall|k: int|
            0 <= k < s.len() ==> #[trigger] innermost_first(s)[k] == s[s.len() - 1 - k],
{
}

/// Entering a span and leaving it again gives back the stack as it was
/// before, whatever the outcome of the scope in between.
pub proof fn lemma_enter_exit_restores(s: Seq<SpanView>, x: SpanView)
    ensures
        exited(entered(s, x)) == s,
{
    assert(entered(s, x).drop_last() =~= s);
}

/// Entering the spans `xs` one inside the other and then leaving as many
/// gives back the stack as it was before the outermost of them was entered.
pub proof fn lemma_nested_scopes_restore(s: Seq<SpanView>, xs: Seq<SpanView>)
    ensures
        exit_times(enter_all(s, xs), xs.len()) == s,
    decreases xs.len(),
{
    if xs.len() > 0 {
        let inner = xs.drop_last();
        lemma_nested_scopes_restore(s, inner);
        lemma_enter_exit_restores(enter_all(s, inner), xs.last());
    }
}

/// The stack after entering each span of `xs` in turn.
pub open spec fn enter_all(s: Seq<SpanView>, xs: Seq<SpanView>) -> Seq<SpanView>
    decreases xs.len(),
{
    if xs.len() == 0 {
        s
    } else {
        entered(enter_all(s, xs.drop_last()), xs.last())
    }
}

/// The stack after leaving the innermost span `n` times.
pub open spec fn exit_times(s: Seq<SpanView>, n: nat) -> Seq<SpanView>
    decreases n,
{
    if n == 0 {
        s
    } else {
        exit_times(exited(s), (n - 1) as nat)
    }
}

/// Two traces captured from one stack with no change to it in between hold
/// the same spans in the same order.
pub proof fn lemma_capture_repeatable(s: Seq<SpanView>, first: Seq<SpanView>, second: Seq<SpanView>)
    requires
        first == innermost_first(s),
        second == innermost_first(s),
    ensures
        first == second,
{
}

} // verus!
