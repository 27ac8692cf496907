use vstd::prelude::*;
use crate::adapters::{FixedSize, Guarded, Wrapped};
use crate::component::{Component, Widget};
use crate::event::{Direction, Event, EventResult, Selector};
use crate::geometry::{Rect, Vec2};
use crate::leaf::Leaf;
use crate::wrapper::{
    forward_drawing, forward_found, forward_focused, forward_interest, forward_laid_out,
    forward_reacted, forward_refocused, forward_sized, forward_stale, ViewWrapper,
};

verus! {

/// Whether every operation of `W` keeps its forwarding default.
pub open spec fn forwards_all<W: ViewWrapper>() -> bool {
    &&& W::forwards_draw()
    &&& W::forwards_size()
    &&& W::forwards_event()
    &&& W::forwards_layout()
    &&& W::forwards_focus()
    &&& W::forwards_search()
    &&& W::forwards_focus_view()
    &&& W::forwards_relayout()
    &&& W::forwards_area()
}

/// A wrapper whose child is reachable behaves as its child: each operation
/// has the child's outcome, and leaves the wrapper holding the child as the
/// child's own operation leaves it.
pub proof fn lemma_pass_through<W: ViewWrapper>(
    w: W,
    size: Vec2,
    event: Event,
    source: Direction,
    selector: Selector,
)
    requires
        forwards_all::<W>(),
        w.available(),
    ensures
        w.drawing(size) == w.child().drawing(size),
        w.found(selector) == w.child().found(selector),
        w.stale() == w.child().stale(),
        w.interest(size) == w.child().interest(size),
        w.child().sized(size) matches Some(p) ==> w.sized(size) == Some((p.0, w.with_child(p.1))),
        w.child().reacted(event) matches Some(p) ==> w.reacted(event) == Some((p.0, w.with_child(p.1))),
        w.child().laid_out(size) matches Some(c) ==> w.laid_out(size) == Some(w.with_child(c)),
        w.child().focused(source) matches Some(p) ==> w.focused(source) == Some((p.0, w.with_child(p.1))),
        w.child().refocused(selector) matches Some(p) ==> w.refocused(selector) == Some((p.0, w.with_child(p.1))),
{
}

/// A wrapper whose child is unreachable gives each operation its neutral
/// outcome and is left unchanged: nothing drawn, a zero size, an ignored
/// event, focus refused, nothing found, a failed focus move, a relayout
/// asked for, and the empty area at the origin.
pub proof fn lemma_unavailable_defaults<W: ViewWrapper>(
    w: W,
    size: Vec2,
    event: Event,
    source: Direction,
    selector: Selector,
)
    requires
        forwards_all::<W>(),
        !w.available(),
    ensures
        w.drawing(size) == Some(Seq::<(Vec2, Seq<char>)>::empty()),
        w.sized(size) == Some((Vec2::zero(), w)),
        w.reacted(event) == Some((EventResult::Ignored, w)),
        w.laid_out(size) == Some(w),
        w.focused(source) == Some((false, w)),
        w.found(selector) == Some(Seq::<Seq<char>>::empty()),
        w.refocused(selector) == Some((false, w)),
        w.stale() == Some(true),
        w.interest(size) == Some(Rect::from_point(Vec2::zero())),
{
}

/// Each operation of a wrapper follows the forwarding rule as long as that
/// one operation is not replaced, whatever other operations are replaced.
pub proof fn lemma_override_isolation<W: ViewWrapper>(
    w: W,
    size: Vec2,
    event: Event,
    source: Direction,
    selector: Selector,
)
    ensures
        W::forwards_draw() ==> w.drawing(size) == forward_drawing(w, size),
        W::forwards_size() ==> w.sized(size) == forward_sized(w, size),
        W::forwards_event() ==> w.reacted(event) == forward_reacted(w, event),
        W::forwards_layout() ==> w.laid_out(size) == forward_laid_out(w, size),
        W::forwards_focus() ==> w.focused(source) == forward_focused(w, source),
        W::forwards_search() ==> w.found(selector) == forward_found(w, selector),
        W::forwards_focus_view() ==> w.refocused(selector) == forward_refocused(w, selector),
        W::forwards_relayout() ==> w.stale() == forward_stale(w),
        W::forwards_area() ==> w.interest(size) == forward_interest(w, size),
{
}

/// A search through a wrapper of a wrapper finds exactly what a search of
/// the innermost component finds, in the same order: nesting is flattened.
pub proof fn lemma_search_flattens<W: ViewWrapper<V = U>, U: ViewWrapper>(w: W, selector: Selector)
    requires
        W::forwards_search(),
        U::forwards_search(),
        w.available(),
        w.child().available(),
    ensures
        w.found(selector) == w.child().child().found(selector),
{
}

/// A search for a leaf's own name through two plain wrappers visits that
/// leaf once, under its name; a search for any other name visits nothing.
pub proof fn lemma_nested_leaf_search(w: Wrapped<Wrapped<Leaf>>, selector: Selector)
    ensures
        selector.target() == w.view.view.name@ ==> w.found(selector) == Some(seq![w.view.view.name@]),
        selector.target() != w.view.view.name@ ==> w.found(selector) == Some(Seq::<Seq<char>>::empty()),
{
}

/// The plain and the guarded wrapper forward every operation.
pub proof fn lemma_adapters_forward_all<T: Component>()
    ensures
        forwards_all::<Wrapped<T>>(),
        forwards_all::<Guarded<T>>(),
{
}

/// Replacing size negotiation in a wrapper leaves every other operation
/// forwarding: the fixed-size wrapper behaves as its child in all of them.
pub proof fn lemma_fixed_size_isolation<T: Component>(
    w: FixedSize<T>,
    size: Vec2,
    event: Event,
    source: Direction,
    selector: Selector,
)
    ensures
        !FixedSize::<T>::forwards_size(),
        w.sized(size) is None,
        w.drawing(size) == w.view.drawing(size),
        w.found(selector) == w.view.found(selector),
        w.stale() == w.view.stale(),
        w.interest(size) == w.view.interest(size),
        w.view.reacted(event) matches Some(p) ==> w.reacted(event) == Some((p.0, (FixedSize { view: p.1, size: w.size }))),
        w.view.laid_out(size) matches Some(c) ==> w.laid_out(size) == Some((FixedSize { view: c, size: w.size })),
        w.view.focused(source) matches Some(p) ==> w.focused(source) == Some((p.0, (FixedSize { view: p.1, size: w.size }))),
        w.view.refocused(selector) matches Some(p) ==> w.refocused(selector) == Some((p.0, (FixedSize { view: p.1, size: w.size }))),
{
}

} // verus!
