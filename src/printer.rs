use vstd::prelude::*;
use crate::geometry::Vec2;

verus! {

/// One piece of text painted at a position.
#[derive(Debug)]
pub struct Stroke {
    pub at: Vec2,
    pub text: String,
}

/// A drawing surface for one component's area: it keeps the strokes painted
/// on it, in order.
#[derive(Debug)]
pub struct Printer {
    pub size: Vec2,
    pub strokes: Vec<Stroke>,
}

impl View for Printer {
    type V = Seq<(Vec2, Seq<char>)>;

    open spec fn view(&self) -> Seq<(Vec2, Seq<char>)> {
        self.strokes@.map_values(|s: Stroke| (s.at, s.text@))
    }
}

impl Printer {
    /// A blank surface of the given size.
    pub fn new(size: Vec2) -> (r: Printer)
        ensures
            r.size == size,
            r@ == Seq::<(Vec2, Seq<char>)>::empty(),
    {
        let r = Printer { size, strokes: Vec::new() };
        assert(r@ =~= Seq::<(Vec2, Seq<char>)>::empty());
        r
    }

    /// Paints `text` at `at`.
    pub fn print(&mut self, at: Vec2, text: &str)
        ensures
            final(self).size == old(self).size,
            final(self)@ == old(self)@.push((at, text@)),
    {
        self.strokes.push(Stroke { at, text: text.to_owned() });
        assert(self@ =~= old(self)@.push((at, text@)));
    }
}

} // verus!
