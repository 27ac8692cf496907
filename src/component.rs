use vstd::prelude::*;
use crate::event::{Direction, Event, EventResult, Selector};
use crate::geometry::{Rect, Vec2};
use crate::printer::Printer;

verus! {

/// The strokes that one draw adds to a surface.
pub type Drawing = Seq<(Vec2, Seq<char>)>;

/// The operations of a displayable element that do not search the tree.
///
/// Each operation is described by a spec function. Where it returns `Some`,
/// the operation is bound to exactly that outcome; `None` leaves the outcome
/// to the implementation.
pub trait Widget: Sized {
    /// What `draw` paints on a surface of the given size.
    spec fn drawing(&self, size: Vec2) -> Option<Drawing>;

    /// The size asked for within `req`, and the component after the request.
    spec fn sized(&self, req: Vec2) -> Option<(Vec2, Self)>;

    /// The outcome of an event, and the component after it.
    spec fn reacted(&self, event: Event) -> Option<(EventResult, Self)>;

    /// The component after being laid out in `size`.
    spec fn laid_out(&self, size: Vec2) -> Option<Self>;

    /// Whether focus is taken when it comes from `source`, and the component
    /// after the attempt.
    spec fn focused(&self, source: Direction) -> Option<(bool, Self)>;

    /// Whether focus could be moved to the selected component, and the
    /// component after the attempt.
    spec fn refocused(&self, selector: Selector) -> Option<(bool, Self)>;

    /// Whether the cached layout is stale.
    spec fn stale(&self) -> Option<bool>;

    /// The area that should stay visible when the component has `size`.
    spec fn interest(&self, size: Vec2) -> Option<Rect>;

    /// Paints the component on `printer`, within its area.
    fn draw(&self, printer: &mut Printer)
        ensures
            final(printer).size == old(printer).size,
            self.drawing(old(printer).size) matches Some(d) ==> final(printer)@ == old(printer)@ + d,
    ;

    /// The size that the component needs, given the space available.
    fn required_size(&mut self, req: Vec2) -> (r: Vec2)
        ensures
            old(self).sized(req) matches Some(p) ==> r == p.0 && *final(self) == p.1,
    ;

    /// Handles an input event.
    fn on_event(&mut self, event: Event) -> (r: EventResult)
        ensures
            old(self).reacted(event) matches Some(p) ==> r == p.0 && *final(self) == p.1,
    ;

    /// Places the component, and its children, within the size granted.
    fn layout(&mut self, size: Vec2)
        ensures
            old(self).laid_out(size) matches Some(s) ==> *final(self) == s,
    ;

    /// Tries to take keyboard focus.
    fn take_focus(&mut self, source: Direction) -> (r: bool)
        ensures
            old(self).focused(source) matches Some(p) ==> r == p.0 && *final(self) == p.1,
    ;

    /// Tries to move focus to the component that `selector` matches.
    fn focus_view(&mut self, selector: &Selector) -> (r: Result<(), ()>)
        ensures
            old(self).refocused(*selector) matches Some(p) ==> (r is Ok) == p.0 && *final(self) == p.1,
    ;

    /// Whether the component must be laid out again.
    fn needs_relayout(&self) -> (r: bool)
        ensures
            self.stale() matches Some(b) ==> r == b,
    ;

    /// The area that the component most wants kept in view.
    fn important_area(&self, size: Vec2) -> (r: Rect)
        ensures
            self.interest(size) matches Some(a) ==> r == a,
    ;
}

/// The full contract of a displayable element: the widget operations and
/// the tree search.
pub trait Component: Widget {
    /// The names of the matching components, in depth-first order.
    spec fn found(&self, selector: Selector) -> Option<Seq<Seq<char>>>;

    /// Runs `visitor` on every component that `selector` matches.
    fn call_on_any<C: Visitor>(&mut self, selector: &Selector, visitor: &mut C)
        ensures
            old(self).found(*selector) matches Some(f) ==> final(visitor).log() == old(visitor).log() + f,
    ;
}

/// A callback run on each component that a search matches.
pub trait Visitor {
    /// The names under which components were visited, in order.
    spec fn log(&self) -> Seq<Seq<char>>;

    /// Visits `target`, which was matched under `name`.
    fn visit<T: Widget>(&mut self, name: &String, target: &mut T)
        ensures
            final(self).log() == old(self).log().push(name@),
    ;
}

/// A visitor that records the names of the components it visits.
#[derive(Debug)]
pub struct NameLog {
    pub names: Vec<String>,
}

impl NameLog {
    /// A log with nothing in it.
    pub fn new() -> (r: NameLog)
        ensures
            r.log() == Seq::<Seq<char>>::empty(),
    {
        let r = NameLog { names: Vec::new() };
        assert(r.log() =~= Seq::<Seq<char>>::empty());
        r
    }

    /// How many visits were recorded.
    pub fn len(&self) -> (r: usize)
        ensures
            r == self.log().len(),
    {
        self.names.len()
    }
}

impl Visitor for NameLog {
    open spec fn log(&self) -> Seq<Seq<char>> {
        self.names@.map_values(|s: String| s@)
    }

    fn visit<T: Widget>(&mut self, name: &String, target: &mut T) {
        self.names.push(name.clone());
        assert(self.log() =~= old(self).log().push(name@));
    }
}

} // verus!
