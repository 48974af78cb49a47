//! Lenses, bindings to application state, and handles to view state.

use vstd::prelude::*;
use crate::view_id::ViewId;

verus! {

/// Focuses on a part `U` of a value of type `T`.
pub trait Lens<T, U> {
    /// The part of `data` the lens focuses on.
    fn focus<'a>(&self, data: &'a T) -> &'a U;

    /// The part of `data` the lens focuses on, for writing.
    fn focus_mut<'a>(&self, data: &'a mut T) -> &'a mut U;
}

/// A binding to the part of another binding's value that a lens focuses on.
pub struct MapBinding<B, L, S, T> {
    binding: B,
    lens: L,
    phantom_s: std::marker::PhantomData<S>,
    phantom_t: std::marker::PhantomData<T>,
}

impl<B, L, S, T> MapBinding<B, L, S, T> {
    /// The underlying binding.
    pub closed spec fn spec_binding(&self) -> B {
        self.binding
    }

    /// The lens applied to the underlying binding's value.
    pub closed spec fn spec_lens(&self) -> L {
        self.lens
    }

    /// The underlying binding.
    pub fn binding(&self) -> (r: &B)
        ensures
            *r == self.spec_binding(),
    {
        &self.binding
    }

    /// The lens applied to the underlying binding's value.
    pub fn lens(&self) -> (r: &L)
        ensures
            *r == self.spec_lens(),
    {
        &self.lens
    }
}

impl<B: Copy, L: Copy, S, T> Clone for MapBinding<B, L, S, T> {
    fn clone(&self) -> (r: Self)
        ensures
            r.spec_binding() == self.spec_binding(),
            r.spec_lens() == self.spec_lens(),
    {
        Self {
            binding: self.binding,
            lens: self.lens,
            phantom_s: std::marker::PhantomData,
            phantom_t: std::marker::PhantomData,
        }
    }
}

impl<B: Copy, L: Copy, S, T> Copy for MapBinding<B, L, S, T> {}

impl<S, B, L, T> MapBinding<B, L, S, T> where L: Lens<T, S> {
    /// Focuses `binding` through `lens`.
    pub fn new(binding: B, lens: L) -> (r: Self)
        ensures
            r.spec_binding() == binding,
            r.spec_lens() == lens,
    {
        Self {
            binding,
            lens,
            phantom_s: std::marker::PhantomData,
            phantom_t: std::marker::PhantomData,
        }
    }
}

/// Weak reference to app state.
///
/// To get the underlying value, you'll need a `Context`, which is passed
/// to all event handlers, and functions passed to `state`.
pub struct StateHandle<S> {
    pub(crate) id: ViewId,
    phantom: std::marker::PhantomData<S>,
}

impl<S> StateHandle<S> {
    /// The view whose state this handle refers to.
    pub closed spec fn spec_id(&self) -> ViewId {
        self.id
    }

    /// A handle to the state of the view `id`.
    pub fn new(id: ViewId) -> (r: Self)
        ensures
            r.spec_id() == id,
    {
        Self { id, phantom: std::marker::PhantomData }
    }

    /// The view whose state this handle refers to.
    pub fn id(&self) -> (r: ViewId)
        ensures
            r == self.spec_id(),
    {
        self.id
    }
}

impl<S> Clone for StateHandle<S> {
    fn clone(&self) -> (r: Self)
        ensures
            r.spec_id() == self.spec_id(),
    {
        Self { id: self.id, phantom: std::marker::PhantomData }
    }
}

impl<S> Copy for StateHandle<S> {}

/// A view with state: `default` makes the initial state, `func` builds the
/// view from a handle to it.
pub struct StateView<D, F> {
    pub(crate) default: D,
    pub(crate) func: F,
}

impl<D, F> StateView<D, F> {
    /// What makes the initial state.
    pub closed spec fn spec_default(&self) -> D {
        self.default
    }

    /// What builds the view from a handle to the state.
    pub closed spec fn spec_func(&self) -> F {
        self.func
    }

    /// What makes the initial state.
    pub fn default_fn(&self) -> (r: &D)
        ensures
            *r == self.spec_default(),
    {
        &self.default
    }

    /// What builds the view from a handle to the state.
    pub fn func(&self) -> (r: &F)
        ensures
            *r == self.spec_func(),
    {
        &self.func
    }
}

/// State local to a view: `initial` makes the state when the view first
/// appears, and `f` builds the view from a handle to that state.
pub fn state<D, F>(initial: D, f: F) -> (r: StateView<D, F>)
    ensures
        r.spec_default() == initial,
        r.spec_func() == f,
{
    StateView { default: initial, func: f }
}

} // verus!
