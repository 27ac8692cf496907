use vstd::prelude::*;
use crate::component::{Component, Drawing, Visitor, Widget};
use crate::event::{Direction, Event, EventResult, Selector};
use crate::geometry::{Rect, Vec2};
use crate::printer::Printer;

verus! {

/// A component that owns exactly one child and, by default, hands every
/// operation to it.
///
/// An implementation gives the two guarded accessors, `with_view` and
/// `with_view_mut`, which reach the child or report it unavailable (for
/// instance while an outer call on the same wrapper still holds it). Every
/// `wrap_*` operation is written against those two accessors alone, and the
/// wrapper is then a [`Component`] through the impls at the end of this
/// module.
///
/// An implementation may replace any `wrap_*` operation. It then sets the
/// matching `forwards_*` flag to `false`, which frees that one operation
/// from the forwarding contract and leaves the others bound to it.
pub trait ViewWrapper: Sized {
    /// The type of the child.
    type V: Component;

    /// Whether the child can be reached now.
    spec fn available(&self) -> bool;

    /// The child.
    spec fn child(&self) -> Self::V;

    /// This wrapper with its child replaced by `v`.
    spec fn with_child(&self, v: Self::V) -> Self;

    /// Shared access to the child, or `None` while it is unavailable.
    fn with_view(&self) -> (r: Option<&Self::V>)
        ensures
            self.available() ==> r == Some(&self.child()),
            !self.available() ==> r is None,
    ;

    /// Exclusive access to the child, or `None` while it is unavailable.
    fn with_view_mut(&mut self) -> (r: Option<&mut Self::V>)
        ensures
            old(self).available() ==> (r matches Some(v) && *v == old(self).child()
                && *final(self) == old(self).with_child(*final(v))),
            !old(self).available() ==> (r is None && *final(self) == *old(self)),
    ;

    /// Gives the child back, or the wrapper itself where the child cannot be
    /// taken out of it.
    fn into_inner(self) -> (r: Result<Self::V, Self>)
        ensures
            r matches Ok(v) ==> v == self.child(),
            r matches Err(w) ==> w == self,
    {
        Err(self)
    }

    /// Whether `wrap_draw` forwards.
    open spec fn forwards_draw() -> bool {
        true
    }

    /// Whether `wrap_required_size` forwards.
    open spec fn forwards_size() -> bool {
        true
    }

    /// Whether `wrap_on_event` forwards.
    open spec fn forwards_event() -> bool {
        true
    }

    /// Whether `wrap_layout` forwards.
    open spec fn forwards_layout() -> bool {
        true
    }

    /// Whether `wrap_take_focus` forwards.
    open spec fn forwards_focus() -> bool {
        true
    }

    /// Whether `wrap_call_on_any` forwards.
    open spec fn forwards_search() -> bool {
        true
    }

    /// Whether `wrap_focus_view` forwards.
    open spec fn forwards_focus_view() -> bool {
        true
    }

    /// Whether `wrap_needs_relayout` forwards.
    open spec fn forwards_relayout() -> bool {
        true
    }

    /// Whether `wrap_important_area` forwards.
    open spec fn forwards_area() -> bool {
        true
    }

    /// Draws the child; draws nothing while it is unavailable.
    fn wrap_draw(&self, printer: &mut Printer)
        ensures
            final(printer).size == old(printer).size,
            Self::forwards_draw() && !self.available() ==> final(printer)@ == old(printer)@,
            Self::forwards_draw() && self.available() ==> (self.child().drawing(old(printer).size) matches Some(d)
                ==> final(printer)@ == old(printer)@ + d),
    {
        match self.with_view() {
            Some(v) => v.draw(printer),
            None => {},
        }
    }

    /// The child's size request; zero while it is unavailable.
    fn wrap_required_size(&mut self, req: Vec2) -> (r: Vec2)
        ensures
            Self::forwards_size() && !old(self).available() ==> r == Vec2::zero() && *final(self) == *old(self),
            Self::forwards_size() && old(self).available() ==> (old(self).child().sized(req) matches Some(p)
                ==> r == p.0 && *final(self) == old(self).with_child(p.1)),
    {
        match self.with_view_mut() {
            Some(v) => v.required_size(req),
            None => Vec2::zero(),
        }
    }

    /// The child's handling of the event; `Ignored` while it is unavailable.
    fn wrap_on_event(&mut self, event: Event) -> (r: EventResult)
        ensures
            Self::forwards_event() && !old(self).available() ==> r == EventResult::Ignored && *final(self) == *old(self),
            Self::forwards_event() && old(self).available() ==> (old(self).child().reacted(event) matches Some(p)
                ==> r == p.0 && *final(self) == old(self).with_child(p.1)),
    {
        match self.with_view_mut() {
            Some(v) => v.on_event(event),
            None => EventResult::Ignored,
        }
    }

    /// Lays the child out; does nothing while it is unavailable.
    fn wrap_layout(&mut self, size: Vec2)
        ensures
            Self::forwards_layout() && !old(self).available() ==> *final(self) == *old(self),
            Self::forwards_layout() && old(self).available() ==> (old(self).child().laid_out(size) matches Some(c)
                ==> *final(self) == old(self).with_child(c)),
    {
        match self.with_view_mut() {
            Some(v) => v.layout(size),
            None => {},
        }
    }

    /// Offers focus to the child; refused while it is unavailable.
    fn wrap_take_focus(&mut self, source: Direction) -> (r: bool)
        ensures
            Self::forwards_focus() && !old(self).available() ==> !r && *final(self) == *old(self),
            Self::forwards_focus() && old(self).available() ==> (old(self).child().focused(source) matches Some(p)
                ==> r == p.0 && *final(self) == old(self).with_child(p.1)),
    {
        match self.with_view_mut() {
            Some(v) => v.take_focus(source),
            None => false,
        }
    }

    /// Searches the child; finds nothing while it is unavailable.
    fn wrap_call_on_any<C: Visitor>(&mut self, selector: &Selector, visitor: &mut C)
        ensures
            Self::forwards_search() && !old(self).available() ==> final(visitor).log() == old(visitor).log(),
            Self::forwards_search() && old(self).available() ==> (old(self).child().found(*selector) matches Some(f)
                ==> final(visitor).log() == old(visitor).log() + f),
    {
        match self.with_view_mut() {
            Some(v) => v.call_on_any(selector, visitor),
            None => {},
        }
    }

    /// Moves focus within the child; fails while it is unavailable.
    fn wrap_focus_view(&mut self, selector: &Selector) -> (r: Result<(), ()>)
        ensures
            Self::forwards_focus_view() && !old(self).available() ==> r is Err && *final(self) == *old(self),
            Self::forwards_focus_view() && old(self).available() ==> (old(self).child().refocused(*selector) matches Some(p)
                ==> (r is Ok) == p.0 && *final(self) == old(self).with_child(p.1)),
    {
        match self.with_view_mut() {
            Some(v) => v.focus_view(selector),
            None => Err(()),
        }
    }

    /// Whether the child must be laid out again; `true` while it is
    /// unavailable, since a stale layout is worse than a redundant one.
    fn wrap_needs_relayout(&self) -> (r: bool)
        ensures
            Self::forwards_relayout() && !self.available() ==> r,
            Self::forwards_relayout() && self.available() ==> (self.child().stale() matches Some(b) ==> r == b),
    {
        match self.with_view() {
            Some(v) => v.needs_relayout(),
            None => true,
        }
    }

    /// The child's area of interest; the empty area at the origin while it
    /// is unavailable.
    fn wrap_important_area(&self, size: Vec2) -> (r: Rect)
        ensures
            Self::forwards_area() && !self.available() ==> r == Rect::from_point(Vec2::zero()),
            Self::forwards_area() && self.available() ==> (self.child().interest(size) matches Some(a) ==> r == a),
    {
        match self.with_view() {
            Some(v) => v.important_area(size),
            None => Rect::from_point(Vec2::zero()),
        }
    }
}

/// What forwarding `draw` paints.
pub open spec fn forward_drawing<W: ViewWrapper>(w: W, size: Vec2) -> Option<Drawing> {
    if w.available() {
        w.child().drawing(size)
    } else {
        Some(Seq::empty())
    }
}

/// What forwarding `required_size` returns, and the wrapper after it.
pub open spec fn forward_sized<W: ViewWrapper>(w: W, req: Vec2) -> Option<(Vec2, W)> {
    if w.available() {
        match w.child().sized(req) {
            Some((r, c)) => Some((r, w.with_child(c))),
            None => None,
        }
    } else {
        Some((Vec2::zero(), w))
    }
}

/// What forwarding `on_event` returns, and the wrapper after it.
pub open spec fn forward_reacted<W: ViewWrapper>(w: W, event: Event) -> Option<(EventResult, W)> {
    if w.available() {
        match w.child().reacted(event) {
            Some((r, c)) => Some((r, w.with_child(c))),
            None => None,
        }
    } else {
        Some((EventResult::Ignored, w))
    }
}

/// The wrapper after a forwarding `layout`.
pub open spec fn forward_laid_out<W: ViewWrapper>(w: W, size: Vec2) -> Option<W> {
    if w.available() {
        match w.child().laid_out(size) {
            Some(c) => Some(w.with_child(c)),
            None => None,
        }
    } else {
        Some(w)
    }
}

/// What forwarding `take_focus` returns, and the wrapper after it.
pub open spec fn forward_focused<W: ViewWrapper>(w: W, source: Direction) -> Option<(bool, W)> {
    if w.available() {
        match w.child().focused(source) {
            Some((r, c)) => Some((r, w.with_child(c))),
            None => None,
        }
    } else {
        Some((false, w))
    }
}

/// The names that a forwarding `call_on_any` visits.
pub open spec fn forward_found<W: ViewWrapper>(w: W, selector: Selector) -> Option<Seq<Seq<char>>> {
    if w.available() {
        w.child().found(selector)
    } else {
        Some(Seq::empty())
    }
}

/// Whether a forwarding `focus_view` succeeds, and the wrapper after it.
pub open spec fn forward_refocused<W: ViewWrapper>(w: W, selector: Selector) -> Option<(bool, W)> {
    if w.available() {
        match w.child().refocused(selector) {
            Some((r, c)) => Some((r, w.with_child(c))),
            None => None,
        }
    } else {
        Some((false, w))
    }
}

/// What a forwarding `needs_relayout` returns.
pub open spec fn forward_stale<W: ViewWrapper>(w: W) -> Option<bool> {
    if w.available() {
        w.child().stale()
    } else {
        Some(true)
    }
}

/// What a forwarding `important_area` returns.
pub open spec fn forward_interest<W: ViewWrapper>(w: W, size: Vec2) -> Option<Rect> {
    if w.available() {
        w.child().interest(size)
    } else {
        Some(Rect::from_point(Vec2::zero()))
    }
}

impl<T: ViewWrapper> Widget for T {
    open spec fn drawing(&self, size: Vec2) -> Option<Drawing> {
        if T::forwards_draw() { forward_drawing(*self, size) } else { None }
    }

    open spec fn sized(&self, req: Vec2) -> Option<(Vec2, Self)> {
        if T::forwards_size() { forward_sized(*self, req) } else { None }
    }

    open spec fn reacted(&self, event: Event) -> Option<(EventResult, Self)> {
        if T::forwards_event() { forward_reacted(*self, event) } else { None }
    }

    open spec fn laid_out(&self, size: Vec2) -> Option<Self> {
        if T::forwards_layout() { forward_laid_out(*self, size) } else { None }
    }

    open spec fn focused(&self, source: Direction) -> Option<(bool, Self)> {
        if T::forwards_focus() { forward_focused(*self, source) } else { None }
    }

    open spec fn refocused(&self, selector: Selector) -> Option<(bool, Self)> {
        if T::forwards_focus_view() { forward_refocused(*self, selector) } else { None }
    }

    open spec fn stale(&self) -> Option<bool> {
        if T::forwards_relayout() { forward_stale(*self) } else { None }
    }

    open spec fn interest(&self, size: Vec2) -> Option<Rect> {
        if T::forwards_area() { forward_interest(*self, size) } else { None }
    }

    fn draw(&self, printer: &mut Printer) {
        self.wrap_draw(printer)
    }

    fn required_size(&mut self, req: Vec2) -> (r: Vec2) {
        self.wrap_required_size(req)
    }

    fn on_event(&mut self, event: Event) -> (r: EventResult) {
        self.wrap_on_event(event)
    }

    fn layout(&mut self, size: Vec2) {
        self.wrap_layout(size)
    }

    fn take_focus(&mut self, source: Direction) -> (r: bool) {
        self.wrap_take_focus(source)
    }

    fn focus_view(&mut self, selector: &Selector) -> (r: Result<(), ()>) {
        self.wrap_focus_view(selector)
    }

    fn needs_relayout(&self) -> (r: bool) {
        self.wrap_needs_relayout()
    }

    fn important_area(&self, size: Vec2) -> (r: Rect) {
        self.wrap_important_area(size)
    }
}

impl<T: ViewWrapper> Component for T {
    open spec fn found(&self, selector: Selector) -> Option<Seq<Seq<char>>> {
        if T::forwards_search() { forward_found(*self, selector) } else { None }
    }

    fn call_on_any<C: Visitor>(&mut self, selector: &Selector, visitor: &mut C) {
        self.wrap_call_on_any(selector, visitor)
    }
}

} // verus!
