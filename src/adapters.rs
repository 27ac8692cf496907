use vstd::prelude::*;
use crate::component::Component;
use crate::geometry::Vec2;
use crate::wrapper::ViewWrapper;

verus! {

/// A wrapper that holds its child in a plain field. The child is always
/// reachable and can always be taken back.
#[derive(Debug)]
pub struct Wrapped<T> {
    pub view: T,
}

impl<T: Component> Wrapped<T> {
    /// Wraps `view`.
    pub fn new(view: T) -> (r: Wrapped<T>)
        ensures
            r.view == view,
    {
        Wrapped { view }
    }

    /// Shared access to the child, past the component operations.
    pub fn get_inner(&self) -> (r: &T)
        ensures
            *r == self.view,
    {
        &self.view
    }

    /// Exclusive access to the child, past the component operations.
    pub fn get_inner_mut(&mut self) -> (r: &mut T)
        ensures
            *r == old(self).view,
            final(self).view == *final(r),
    {
        &mut self.view
    }
}

impl<T: Component> ViewWrapper for Wrapped<T> {
    type V = T;

    open spec fn available(&self) -> bool {
        true
    }

    open spec fn child(&self) -> T {
        self.view
    }

    open spec fn with_child(&self, v: T) -> Self {
        Wrapped { view: v }
    }

    fn with_view(&self) -> (r: Option<&T>) {
        Some(&self.view)
    }

    fn with_view_mut(&mut self) -> (r: Option<&mut T>) {
        Some(&mut self.view)
    }

    fn into_inner(self) -> (r: Result<T, Self>)
        ensures
            r == Ok::<T, Self>(self.view),
    {
        Ok(self.view)
    }
}

/// A wrapper whose child can be checked out, as an outer call does while it
/// works on the child. While the child is out every operation falls back to
/// its neutral value. The child cannot be taken out of this wrapper.
#[derive(Debug)]
pub struct Guarded<T> {
    pub view: T,
    pub held: bool,
}

impl<T: Component> Guarded<T> {
    /// Guards `view`, which starts out reachable.
    pub fn new(view: T) -> (r: Guarded<T>)
        ensures
            r.view == view,
            !r.held,
    {
        Guarded { view, held: false }
    }

    /// Checks the child out: it is unreachable until `release`.
    pub fn hold(&mut self)
        ensures
            final(self).view == old(self).view,
            final(self).held,
    {
        self.held = true;
    }

    /// Makes the child reachable again.
    pub fn release(&mut self)
        ensures
            final(self).view == old(self).view,
            !final(self).held,
    {
        self.held = false;
    }

    /// Whether the child is checked out.
    pub fn is_held(&self) -> (r: bool)
        ensures
            r == self.held,
    {
        self.held
    }
}

impl<T: Component> ViewWrapper for Guarded<T> {
    type V = T;

    open spec fn available(&self) -> bool {
        !self.held
    }

    open spec fn child(&self) -> T {
        self.view
    }

    open spec fn with_child(&self, v: T) -> Self {
        Guarded { view: v, held: self.held }
    }

    fn with_view(&self) -> (r: Option<&T>) {
        if self.held {
            None
        } else {
            Some(&self.view)
        }
    }

    fn with_view_mut(&mut self) -> (r: Option<&mut T>) {
        if self.held {
            None
        } else {
            Some(&mut self.view)
        }
    }

    fn into_inner(self) -> (r: Result<T, Self>)
        ensures
            r == Err::<T, Self>(self),
    {
        Err(self)
    }
}

/// A wrapper that asks for a set size whatever its child would ask for,
/// and forwards every other operation.
#[derive(Debug)]
pub struct FixedSize<T> {
    pub view: T,
    pub size: Vec2,
}

impl<T: Component> FixedSize<T> {
    /// Wraps `view`, which will be given `size`.
    pub fn new(view: T, size: Vec2) -> (r: FixedSize<T>)
        ensures
            r.view == view,
            r.size == size,
    {
        FixedSize { view, size }
    }
}

impl<T: Component> ViewWrapper for FixedSize<T> {
    type V = T;

    open spec fn available(&self) -> bool {
        true
    }

    open spec fn child(&self) -> T {
        self.view
    }

    open spec fn with_child(&self, v: T) -> Self {
        FixedSize { view: v, size: self.size }
    }

    fn with_view(&self) -> (r: Option<&T>) {
        Some(&self.view)
    }

    fn with_view_mut(&mut self) -> (r: Option<&mut T>) {
        Some(&mut self.view)
    }

    open spec fn forwards_size() -> bool {
        false
    }

    fn wrap_required_size(&mut self, req: Vec2) -> (r: Vec2)
        ensures
            r == old(self).size,
            *final(self) == *old(self),
    {
        self.size
    }
}

} // verus!
