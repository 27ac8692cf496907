use vstd::prelude::*;
use crate::component::{Component, Drawing, Visitor, Widget};
use crate::event::{Direction, Event, EventResult, Selector};
use crate::geometry::{Rect, Vec2};
use crate::printer::Printer;

verus! {

/// A named leaf of fixed size: it paints its name, consumes key presses,
/// ignores the pointer and accepts focus.
#[derive(Debug)]
pub struct Leaf {
    pub name: String,
    pub size: Vec2,
    pub focused: bool,
    pub stale: bool,
}

impl Leaf {
    /// A leaf called `name` that asks for `size`, not yet laid out.
    pub fn new(name: &str, size: Vec2) -> (r: Leaf)
        ensures
            r.name@ == name@,
            r.size == size,
            !r.focused,
            r.stale,
    {
        Leaf { name: name.to_owned(), size, focused: false, stale: true }
    }

    /// This leaf with its focus set to `f`.
    pub open spec fn with_focus(self, f: bool) -> Leaf {
        Leaf { name: self.name, size: self.size, focused: f, stale: self.stale }
    }
}

impl Widget for Leaf {
    open spec fn drawing(&self, size: Vec2) -> Option<Drawing> {
        Some(seq![(Vec2::zero(), self.name@)])
    }

    open spec fn sized(&self, req: Vec2) -> Option<(Vec2, Self)> {
        Some((self.size, *self))
    }

    open spec fn reacted(&self, event: Event) -> Option<(EventResult, Self)> {
        match event {
            Event::Key(_) => Some((EventResult::Consumed(None), *self)),
            Event::Mouse(_) => Some((EventResult::Ignored, *self)),
        }
    }

    open spec fn laid_out(&self, size: Vec2) -> Option<Self> {
        Some(Leaf { name: self.name, size: self.size, focused: self.focused, stale: false })
    }

    open spec fn focused(&self, source: Direction) -> Option<(bool, Self)> {
        Some((true, self.with_focus(true)))
    }

    open spec fn refocused(&self, selector: Selector) -> Option<(bool, Self)> {
        if selector.target() == self.name@ {
            Some((true, self.with_focus(true)))
        } else {
            Some((false, *self))
        }
    }

    open spec fn stale(&self) -> Option<bool> {
        Some(self.stale)
    }

    open spec fn interest(&self, size: Vec2) -> Option<Rect> {
        Some(Rect { top_left: Vec2::zero(), size })
    }

    fn draw(&self, printer: &mut Printer) {
        printer.print(Vec2::zero(), self.name.as_str());
        assert(printer@ =~= old(printer)@ + seq![(Vec2::zero(), self.name@)]);
    }

    fn required_size(&mut self, req: Vec2) -> (r: Vec2) {
        self.size
    }

    fn on_event(&mut self, event: Event) -> (r: EventResult) {
        match event {
            Event::Key(_) => EventResult::Consumed(None),
            Event::Mouse(_) => EventResult::Ignored,
        }
    }

    fn layout(&mut self, size: Vec2) {
        self.stale = false;
    }

    fn take_focus(&mut self, source: Direction) -> (r: bool) {
        self.focused = true;
        true
    }

    fn focus_view(&mut self, selector: &Selector) -> (r: Result<(), ()>) {
        if selector.matches_name(&self.name) {
            self.focused = true;
            Ok(())
        } else {
            Err(())
        }
    }

    fn needs_relayout(&self) -> (r: bool) {
        self.stale
    }

    fn important_area(&self, size: Vec2) -> (r: Rect) {
        Rect { top_left: Vec2::zero(), size }
    }
}

impl Component for Leaf {
    open spec fn found(&self, selector: Selector) -> Option<Seq<Seq<char>>> {
        if selector.target() == self.name@ {
            Some(seq![self.name@])
        } else {
            Some(Seq::empty())
        }
    }

    fn call_on_any<C: Visitor>(&mut self, selector: &Selector, visitor: &mut C) {
        if selector.matches_name(&self.name) {
            let name = self.name.clone();
            visitor.visit(&name, self);
            assert(visitor.log() =~= old(visitor).log() + seq![old(self).name@]);
        } else {
            assert(visitor.log() =~= old(visitor).log() + Seq::<Seq<char>>::empty());
        }
    }
}

} // verus!
