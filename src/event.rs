use vstd::prelude::*;
use crate::geometry::Vec2;

verus! {

/// The side from which keyboard focus arrives.
#[derive(Clone, Copy, Debug, PartialEq, Eq, Structural)]
pub enum Direction {
    /// Focus comes from the component above.
    Up,
    /// Focus comes from the component below.
    Down,
    /// Focus comes from the component on the left.
    Left,
    /// Focus comes from the component on the right.
    Right,
    /// Focus is given directly, with no neighbour involved.
    Absolute,
}

/// An input event. Wrappers hand it on without looking inside.
#[derive(Clone, Copy, Debug, PartialEq, Eq, Structural)]
pub enum Event {
    /// A key press, by the character it produces.
    Key(char),
    /// A pointer press at a position relative to the component.
    Mouse(Vec2),
}

/// A deferred action that the driver runs once the current dispatch is over,
/// known by the number that the driver gave it.
#[derive(Clone, Copy, Debug, PartialEq, Eq, Structural)]
pub struct Callback {
    pub id: u64,
}

/// What became of an input event.
#[derive(Clone, Copy, Debug, PartialEq, Eq, Structural)]
pub enum EventResult {
    /// Nothing happened; a sibling or an ancestor may try the event.
    Ignored,
    /// The event was handled, possibly leaving an action for the driver.
    Consumed(Option<Callback>),
}

/// How to locate a component in the tree.
#[derive(Debug)]
pub enum Selector {
    /// The component that carries this name.
    Name(String),
}

impl Selector {
    /// The name that this selector looks for.
    pub open spec fn target(&self) -> Seq<char> {
        match self {
            Selector::Name(n) => n@,
        }
    }

    /// Whether a component called `name` is selected.
    pub fn matches_name(&self, name: &String) -> (r: bool)
        ensures
            r == (self.target() == name@),
    {
        match self {
            Selector::Name(n) => n.eq(name),
        }
    }
}

} // verus!
