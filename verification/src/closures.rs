//! The five non-recursive closure records. Each pairs a callable `F` with a
//! state value, crossing the state's ownership (borrowed, owned, or
//! exclusively borrowed) with how the call takes it (shared, exclusive, or by
//! value). Every record implements the consuming call; the records whose
//! ownership mode allows repeated access also implement the repeatable
//! levels.

use vstd::prelude::*;
use vstd::pervasive::cloned;
use core::marker::PhantomData;
use crate::stable_fn::StableFn;
use crate::stable_fn::StableFnMut;
use crate::stable_fn::StableFnOnce;

verus! {

/// A record whose calls only read its state, and which borrows that state
/// from an external owner: dropping the record does not drop the state.
pub struct Closure<'a, F, State, Input, Output> {
    /// The callable; it receives the state by shared reference.
    pub f: F,
    /// The borrowed state.
    pub t: &'a State,
    /// Marks the call signature the record is fixed to.
    pub ph: PhantomData<(Input, Output)>,
}

/// A record whose calls only read its state, and which owns that state:
/// dropping the record drops the state.
pub struct ClosureRef<F, State, Input, Output> {
    /// The callable; it receives the state by shared reference.
    pub f: F,
    /// The owned state.
    pub t: State,
    /// Marks the call signature the record is fixed to.
    pub ph: PhantomData<(Input, Output)>,
}

/// A record whose calls may mutate its state, which it borrows exclusively
/// from an external owner. Two live records can never share that state, so
/// this is the one record that supports no duplication at all.
pub struct ClosureMut<'a, F, State, Input, Output> {
    /// The callable; it receives the state by exclusive reference.
    pub f: F,
    /// The exclusively borrowed state.
    pub t: &'a mut State,
    /// Marks the call signature the record is fixed to.
    pub ph: PhantomData<(Input, Output)>,
}

/// A record whose calls may mutate its state, and which owns that state.
pub struct ClosureRefMut<F, State, Input, Output> {
    /// The callable; it receives the state by exclusive reference.
    pub f: F,
    /// The owned state.
    pub t: State,
    /// Marks the call signature the record is fixed to.
    pub ph: PhantomData<(Input, Output)>,
}

/// A record whose call consumes its state, so a call takes the record by
/// value and can happen at most once per record.
pub struct ClosureOnce<F, State, Input, Output> {
    /// The callable; it receives the state by value.
    pub f: F,
    /// The owned state.
    pub t: State,
    /// Marks the call signature the record is fixed to.
    pub ph: PhantomData<(Input, Output)>,
}

impl<'a, F: Fn(&State, Input) -> Output, State, Input, Output> Closure<'a, F, State, Input, Output> {
    /// Pair a callable with a borrowed state value.
    pub fn new(f: F, t: &'a State) -> (c: Self)
        ensures
            c.f == f,
            c.t == t,
    {
        Closure { f, t, ph: PhantomData }
    }

    // The calls below are the same invocations the capability traits offer,
    // with the record's contract written out over its stored callable. At a
    // record built over a closure type the trait's own specification does
    // not open, so these forms are the ones a proof works with.

    /// Invoke the record through a shared reference.
    pub fn stable_call(&self, i: Input) -> (o: Output)
        requires
            call_requires(self.f, (self.t, i)),
        ensures
            call_ensures(self.f, (self.t, i), o),
    {
        (self.f)(self.t, i)
    }

    /// Invoke the record through an exclusive reference; its state is only
    /// read, and the record is left unchanged.
    pub fn stable_call_mut(&mut self, i: Input) -> (o: Output)
        requires
            call_requires(old(self).f, (old(self).t, i)),
        ensures
            *final(self) == *old(self),
            call_ensures(old(self).f, (old(self).t, i), o),
    {
        (self.f)(self.t, i)
    }

    /// Invoke the record, giving up ownership of it.
    pub fn stable_call_once(self, i: Input) -> (o: Output)
        requires
            call_requires(self.f, (self.t, i)),
        ensures
            call_ensures(self.f, (self.t, i), o),
    {
        (self.f)(self.t, i)
    }
}

impl<F: Fn(&State, Input) -> Output, State, Input, Output> ClosureRef<F, State, Input, Output> {
    /// Pair a callable with an owned state value.
    pub fn new(f: F, t: State) -> (c: Self)
        ensures
            c.f == f,
            c.t == t,
    {
        ClosureRef { f, t, ph: PhantomData }
    }

    /// Invoke the record through a shared reference.
    pub fn stable_call(&self, i: Input) -> (o: Output)
        requires
            call_requires(self.f, (&self.t, i)),
        ensures
            call_ensures(self.f, (&self.t, i), o),
    {
        (self.f)(&self.t, i)
    }

    /// Invoke the record through an exclusive reference; its state is only
    /// read, and the record is left unchanged.
    pub fn stable_call_mut(&mut self, i: Input) -> (o: Output)
        requires
            call_requires(old(self).f, (&old(self).t, i)),
        ensures
            *final(self) == *old(self),
            call_ensures(old(self).f, (&old(self).t, i), o),
    {
        (self.f)(&self.t, i)
    }

    /// Invoke the record, giving up ownership of it and of its state.
    pub fn stable_call_once(self, i: Input) -> (o: Output)
        requires
            call_requires(self.f, (&self.t, i)),
        ensures
            call_ensures(self.f, (&self.t, i), o),
    {
        (self.f)(&self.t, i)
    }
}

impl<'a, F: Fn(&mut State, Input) -> Output, State, Input, Output> ClosureMut<
    'a,
    F,
    State,
    Input,
    Output,
> {
    /// Pair a callable with an exclusively borrowed state value.
    pub fn new(f: F, t: &'a mut State) -> (c: Self)
        ensures
            c.f == f,
            *c.t == *old(t),
            *final(c.t) == *final(t),
    {
        ClosureMut { f, t, ph: PhantomData }
    }

    /// Invoke the record through an exclusive reference. The callable
    /// receives the borrowed state and may mutate it; a later call sees the
    /// mutation, and the external owner of the state eventually sees the
    /// last value written.
    pub fn stable_call_mut(&mut self, i: Input) -> (o: Output)
        requires
            forall|m: &mut State| *m == *old(self).t ==> call_requires(old(self).f, (m, i)),
        ensures
            final(self).f == old(self).f,
            *final(final(self).t) == *final(old(self).t),
            exists|m: &mut State|
                (*m == *old(self).t && *final(m) == *final(self).t && call_ensures(
                    old(self).f,
                    (m, i),
                    o,
                )),
    {
        (self.f)(self.t, i)
    }

    /// Invoke the record, giving up ownership of it. The external owner of
    /// the state sees the value the callable wrote.
    pub fn stable_call_once(self, i: Input) -> (o: Output)
        requires
            forall|m: &mut State| *m == *self.t ==> call_requires(self.f, (m, i)),
        ensures
            exists|m: &mut State|
                (*m == *old(self.t) && *final(m) == *final(self.t) && call_ensures(
                    self.f,
                    (m, i),
                    o,
                )),
    {
        let ClosureMut { f, t, ph: _ } = self;
        f(t, i)
    }
}

impl<F: Fn(&mut State, Input) -> Output, State, Input, Output> ClosureRefMut<
    F,
    State,
    Input,
    Output,
> {
    /// Pair a callable with an owned state value.
    pub fn new(f: F, t: State) -> (c: Self)
        ensures
            c.f == f,
            c.t == t,
    {
        ClosureRefMut { f, t, ph: PhantomData }
    }

    /// Invoke the record through an exclusive reference. The callable
    /// receives the stored state and may mutate it; the state it leaves
    /// behind is the one stored afterwards, so a later call observes this
    /// call's mutation.
    pub fn stable_call_mut(&mut self, i: Input) -> (o: Output)
        requires
            forall|m: &mut State| *m == old(self).t ==> call_requires(old(self).f, (m, i)),
        ensures
            final(self).f == old(self).f,
            exists|m: &mut State|
                (*m == old(self).t && *final(m) == final(self).t && call_ensures(
                    old(self).f,
                    (m, i),
                    o,
                )),
    {
        (self.f)(&mut self.t, i)
    }

    /// Invoke the record, giving up ownership of it and of its state.
    pub fn stable_call_once(self, i: Input) -> (o: Output)
        requires
            forall|m: &mut State| *m == self.t ==> call_requires(self.f, (m, i)),
        ensures
            exists|m: &mut State| (*m == self.t && call_ensures(self.f, (m, i), o)),
    {
        let ClosureRefMut { f, mut t, ph: _ } = self;
        f(&mut t, i)
    }
}

impl<F: Fn(&mut State, Input) -> Output, State: Copy, Input, Output> ClosureRefMut<
    F,
    State,
    Input,
    Output,
> {
    /// Invoke the record through a shared reference. The callable receives
    /// a throwaway copy of the stored state: whatever it writes there is
    /// visible only inside this one invocation and is then discarded, so
    /// repeated calls never accumulate state changes.
    pub fn stable_call(&self, i: Input) -> (o: Output)
        requires
            forall|m: &mut State| *m == self.t ==> call_requires(self.f, (m, i)),
        ensures
            exists|m: &mut State| (*m == self.t && call_ensures(self.f, (m, i), o)),
    {
        let mut t = self.t;
        (self.f)(&mut t, i)
    }
}

impl<F: Fn(State, Input) -> Output, State, Input, Output> ClosureOnce<F, State, Input, Output> {
    /// Pair a callable with an owned state value.
    pub fn new(f: F, t: State) -> (c: Self)
        ensures
            c.f == f,
            c.t == t,
    {
        ClosureOnce { f, t, ph: PhantomData }
    }

    /// Invoke the record, giving up ownership of it: the state is consumed
    /// by the callable, so this call can happen at most once per record.
    pub fn stable_call_once(self, i: Input) -> (o: Output)
        requires
            call_requires(self.f, (self.t, i)),
        ensures
            call_ensures(self.f, (self.t, i), o),
    {
        let ClosureOnce { f, t, ph: _ } = self;
        f(t, i)
    }
}

impl<F: Fn(State, Input) -> Output, State: Copy, Input, Output> ClosureOnce<
    F,
    State,
    Input,
    Output,
> {
    /// Invoke the record through an exclusive reference. The callable
    /// consumes a copy of the stored state; the record is left unchanged.
    pub fn stable_call_mut(&mut self, i: Input) -> (o: Output)
        requires
            call_requires(old(self).f, (old(self).t, i)),
        ensures
            *final(self) == *old(self),
            call_ensures(old(self).f, (old(self).t, i), o),
    {
        let t = self.t;
        (self.f)(t, i)
    }

    /// Invoke the record through a shared reference. The callable consumes
    /// a copy of the stored state.
    pub fn stable_call(&self, i: Input) -> (o: Output)
        requires
            call_requires(self.f, (self.t, i)),
        ensures
            call_ensures(self.f, (self.t, i), o),
    {
        let t = self.t;
        (self.f)(t, i)
    }
}

// Duplication. A record owning or sharing its state may be duplicated when
// its parts can be; `ClosureMut` holds an exclusive borrow and never can.

impl<'a, F: Copy, State, Input, Output> Copy for Closure<'a, F, State, Input, Output> {

}

impl<'a, F: Clone, State, Input, Output> Clone for Closure<'a, F, State, Input, Output> {
    /// Duplicate the record: the copy refers to the very same state.
    fn clone(&self) -> (c: Self)
        ensures
            cloned(self.f, c.f),
            c.t == self.t,
    {
        Closure { f: self.f.clone(), t: self.t, ph: PhantomData }
    }
}

impl<F: Copy, State: Copy, Input, Output> Copy for ClosureRef<F, State, Input, Output> {

}

impl<F: Clone, State: Clone, Input, Output> Clone for ClosureRef<F, State, Input, Output> {
    /// Duplicate the record: the copy gets its own clone of the state.
    fn clone(&self) -> (c: Self)
        ensures
            cloned(self.f, c.f),
            cloned(self.t, c.t),
    {
        ClosureRef { f: self.f.clone(), t: self.t.clone(), ph: PhantomData }
    }
}

impl<F: Copy, State: Copy, Input, Output> Copy for ClosureRefMut<F, State, Input, Output> {

}

impl<F: Clone, State: Clone, Input, Output> Clone for ClosureRefMut<F, State, Input, Output> {
    /// Duplicate the record: the copy gets its own clone of the state.
    fn clone(&self) -> (c: Self)
        ensures
            cloned(self.f, c.f),
            cloned(self.t, c.t),
    {
        ClosureRefMut { f: self.f.clone(), t: self.t.clone(), ph: PhantomData }
    }
}

impl<F: Copy, State: Copy, Input, Output> Copy for ClosureOnce<F, State, Input, Output> {

}

impl<F: Clone, State: Clone, Input, Output> Clone for ClosureOnce<F, State, Input, Output> {
    /// Duplicate the record: the copy gets its own clone of the state.
    fn clone(&self) -> (c: Self)
        ensures
            cloned(self.f, c.f),
            cloned(self.t, c.t),
    {
        ClosureOnce { f: self.f.clone(), t: self.t.clone(), ph: PhantomData }
    }
}

// Every record supports the consuming call.

impl<'a, F: Fn(&State, Input) -> Output, State, Input, Output> StableFnOnce<Input> for Closure<
    'a,
    F,
    State,
    Input,
    Output,
> {
    type Output = Output;

    open spec fn call_once_req(self, i: Input) -> bool {
        call_requires(self.f, (self.t, i))
    }

    open spec fn call_once_ens(self, i: Input, o: Output) -> bool {
        call_ensures(self.f, (self.t, i), o)
    }

    fn stable_call_once(self, i: Input) -> (o: Output) {
        (self.f)(self.t, i)
    }
}

impl<F: Fn(&State, Input) -> Output, State, Input, Output> StableFnOnce<Input> for ClosureRef<
    F,
    State,
    Input,
    Output,
> {
    type Output = Output;

    open spec fn call_once_req(self, i: Input) -> bool {
        call_requires(self.f, (&self.t, i))
    }

    open spec fn call_once_ens(self, i: Input, o: Output) -> bool {
        call_ensures(self.f, (&self.t, i), o)
    }

    fn stable_call_once(self, i: Input) -> (o: Output) {
        (self.f)(&self.t, i)
    }
}

impl<'a, F: Fn(&mut State, Input) -> Output, State, Input, Output> StableFnOnce<Input> for ClosureMut<
    'a,
    F,
    State,
    Input,
    Output,
> {
    type Output = Output;

    open spec fn call_once_req(self, i: Input) -> bool {
        forall|m: &mut State| *m == *self.t ==> call_requires(self.f, (m, i))
    }

    open spec fn call_once_ens(self, i: Input, o: Output) -> bool {
        exists|m: &mut State| (*m == *self.t && call_ensures(self.f, (m, i), o))
    }

    /// Beyond the trait's contract, the concrete record promises that the
    /// external owner of the state sees the value the callable wrote.
    fn stable_call_once(self, i: Input) -> (o: Output)
        ensures
            exists|m: &mut State|
                (*m == *old(self.t) && *final(m) == *final(self.t) && call_ensures(
                    self.f,
                    (m, i),
                    o,
                )),
    {
        let ClosureMut { f, t, ph: _ } = self;
        f(t, i)
    }
}

impl<F: Fn(&mut State, Input) -> Output, State, Input, Output> StableFnOnce<Input> for ClosureRefMut<
    F,
    State,
    Input,
    Output,
> {
    type Output = Output;

    open spec fn call_once_req(self, i: Input) -> bool {
        forall|m: &mut State| *m == self.t ==> call_requires(self.f, (m, i))
    }

    open spec fn call_once_ens(self, i: Input, o: Output) -> bool {
        exists|m: &mut State| (*m == self.t && call_ensures(self.f, (m, i), o))
    }

    fn stable_call_once(self, i: Input) -> (o: Output) {
        let ClosureRefMut { f, mut t, ph: _ } = self;
        f(&mut t, i)
    }
}

impl<F: Fn(State, Input) -> Output, State, Input, Output> StableFnOnce<Input> for ClosureOnce<
    F,
    State,
    Input,
    Output,
> {
    type Output = Output;

    open spec fn call_once_req(self, i: Input) -> bool {
        call_requires(self.f, (self.t, i))
    }

    open spec fn call_once_ens(self, i: Input, o: Output) -> bool {
        call_ensures(self.f, (self.t, i), o)
    }

    fn stable_call_once(self, i: Input) -> (o: Output) {
        let ClosureOnce { f, t, ph: _ } = self;
        f(t, i)
    }
}

// The repeatable mutating call, through an exclusive reference.

impl<'a, F: Fn(&State, Input) -> Output, State, Input, Output> StableFnMut<Input> for Closure<
    'a,
    F,
    State,
    Input,
    Output,
> {
    open spec fn call_mut_req(self, i: Input) -> bool {
        call_requires(self.f, (self.t, i))
    }

    open spec fn call_mut_ens(self, new_self: Self, i: Input, o: Output) -> bool {
        new_self == self && call_ensures(self.f, (self.t, i), o)
    }

    fn stable_call_mut(&mut self, i: Input) -> (o: Output) {
        (self.f)(self.t, i)
    }
}

impl<F: Fn(&State, Input) -> Output, State, Input, Output> StableFnMut<Input> for ClosureRef<
    F,
    State,
    Input,
    Output,
> {
    open spec fn call_mut_req(self, i: Input) -> bool {
        call_requires(self.f, (&self.t, i))
    }

    open spec fn call_mut_ens(self, new_self: Self, i: Input, o: Output) -> bool {
        new_self == self && call_ensures(self.f, (&self.t, i), o)
    }

    fn stable_call_mut(&mut self, i: Input) -> (o: Output) {
        (self.f)(&self.t, i)
    }
}

impl<'a, F: Fn(&mut State, Input) -> Output, State, Input, Output> StableFnMut<Input> for ClosureMut<
    'a,
    F,
    State,
    Input,
    Output,
> {
    open spec fn call_mut_req(self, i: Input) -> bool {
        forall|m: &mut State| *m == *self.t ==> call_requires(self.f, (m, i))
    }

    open spec fn call_mut_ens(self, new_self: Self, i: Input, o: Output) -> bool {
        new_self.f == self.f && (exists|m: &mut State|
            (*m == *self.t && call_ensures(self.f, (m, i), o)))
    }

    /// Beyond the trait's contract, the concrete record promises that the
    /// call wrote the state the callable produced, and that the borrowed
    /// state still resolves to the same external owner.
    fn stable_call_mut(&mut self, i: Input) -> (o: Output)
        ensures
            *final(final(self).t) == *final(old(self).t),
            exists|m: &mut State|
                (*m == *old(self).t && *final(m) == *final(self).t && call_ensures(
                    old(self).f,
                    (m, i),
                    o,
                )),
    {
        (self.f)(self.t, i)
    }
}

impl<F: Fn(&mut State, Input) -> Output, State, Input, Output> StableFnMut<Input> for ClosureRefMut<
    F,
    State,
    Input,
    Output,
> {
    open spec fn call_mut_req(self, i: Input) -> bool {
        forall|m: &mut State| *m == self.t ==> call_requires(self.f, (m, i))
    }

    open spec fn call_mut_ens(self, new_self: Self, i: Input, o: Output) -> bool {
        new_self.f == self.f && (exists|m: &mut State|
            (*m == self.t && call_ensures(self.f, (m, i), o)))
    }

    /// Beyond the trait's contract, the concrete record promises that the
    /// state now stored is the one the callable produced, so a later call
    /// observes this call's mutation.
    fn stable_call_mut(&mut self, i: Input) -> (o: Output)
        ensures
            exists|m: &mut State|
                (*m == old(self).t && *final(m) == final(self).t && call_ensures(
                    old(self).f,
                    (m, i),
                    o,
                )),
    {
        (self.f)(&mut self.t, i)
    }
}

impl<F: Fn(State, Input) -> Output, State: Copy, Input, Output> StableFnMut<Input> for ClosureOnce<
    F,
    State,
    Input,
    Output,
> {
    open spec fn call_mut_req(self, i: Input) -> bool {
        call_requires(self.f, (self.t, i))
    }

    open spec fn call_mut_ens(self, new_self: Self, i: Input, o: Output) -> bool {
        new_self == self && call_ensures(self.f, (self.t, i), o)
    }

    fn stable_call_mut(&mut self, i: Input) -> (o: Output) {
        let t = self.t;
        (self.f)(t, i)
    }
}

// The repeatable read-only call, through a shared reference.

impl<'a, F: Fn(&State, Input) -> Output, State, Input, Output> StableFn<Input> for Closure<
    'a,
    F,
    State,
    Input,
    Output,
> {
    open spec fn call_req(self, i: Input) -> bool {
        call_requires(self.f, (self.t, i))
    }

    open spec fn call_ens(self, i: Input, o: Output) -> bool {
        call_ensures(self.f, (self.t, i), o)
    }

    fn stable_call(&self, i: Input) -> (o: Output) {
        (self.f)(self.t, i)
    }
}

impl<F: Fn(&State, Input) -> Output, State, Input, Output> StableFn<Input> for ClosureRef<
    F,
    State,
    Input,
    Output,
> {
    open spec fn call_req(self, i: Input) -> bool {
        call_requires(self.f, (&self.t, i))
    }

    open spec fn call_ens(self, i: Input, o: Output) -> bool {
        call_ensures(self.f, (&self.t, i), o)
    }

    fn stable_call(&self, i: Input) -> (o: Output) {
        (self.f)(&self.t, i)
    }
}

/// The read-only call of `ClosureRefMut` hands the callable a throwaway copy
/// of the state: whatever the callable does to it is visible only inside
/// that one invocation and is then discarded. This is a deliberate
/// asymmetry: the caller chooses between `stable_call_mut` (mutate for good)
/// and `stable_call` (mutate a disposable copy).
impl<F: Fn(&mut State, Input) -> Output, State: Copy, Input, Output> StableFn<Input> for ClosureRefMut<
    F,
    State,
    Input,
    Output,
> {
    open spec fn call_req(self, i: Input) -> bool {
        forall|m: &mut State| *m == self.t ==> call_requires(self.f, (m, i))
    }

    open spec fn call_ens(self, i: Input, o: Output) -> bool {
        exists|m: &mut State| (*m == self.t && call_ensures(self.f, (m, i), o))
    }

    fn stable_call(&self, i: Input) -> (o: Output) {
        let mut t = self.t;
        (self.f)(&mut t, i)
    }
}

impl<F: Fn(State, Input) -> Output, State: Copy, Input, Output> StableFn<Input> for ClosureOnce<
    F,
    State,
    Input,
    Output,
> {
    open spec fn call_req(self, i: Input) -> bool {
        call_requires(self.f, (self.t, i))
    }

    open spec fn call_ens(self, i: Input, o: Output) -> bool {
        call_ensures(self.f, (self.t, i), o)
    }

    fn stable_call(&self, i: Input) -> (o: Output) {
        let t = self.t;
        (self.f)(t, i)
    }
}

// What each record's call predicates mean, stated over the stored callable.
// Verus does not resolve a trait implementation whose type argument is a
// closure type, so at a concrete record these equations do not open by
// themselves; the lemmas below restate them so that any caller can use them,
// by `broadcast use` or by direct invocation.

/// The calls of a `Closure` are permitted exactly when its callable accepts
/// the borrowed state and the input.
pub broadcast proof fn lemma_closure_req<'a, F: Fn(&State, Input) -> Output, State, Input, Output>(
    c: Closure<'a, F, State, Input, Output>,
    i: Input,
)
    ensures
        (#[trigger] c.call_once_req(i)) == call_requires(c.f, (c.t, i)),
        (#[trigger] c.call_mut_req(i)) == call_requires(c.f, (c.t, i)),
        (#[trigger] c.call_req(i)) == call_requires(c.f, (c.t, i)),
{
}

/// The outputs of a `Closure` are exactly those its callable can produce
/// from the borrowed state and the input.
pub broadcast proof fn lemma_closure_ens<'a, F: Fn(&State, Input) -> Output, State, Input, Output>(
    c: Closure<'a, F, State, Input, Output>,
    i: Input,
    o: Output,
)
    ensures
        (#[trigger] c.call_once_ens(i, o)) == call_ensures(c.f, (c.t, i), o),
        (#[trigger] c.call_ens(i, o)) == call_ensures(c.f, (c.t, i), o),
{
}

/// A mutating call on a `Closure` leaves the record unchanged and produces
/// an output of its callable on the borrowed state.
pub broadcast proof fn lemma_closure_mut_ens<
    'a,
    F: Fn(&State, Input) -> Output,
    State,
    Input,
    Output,
>(c: Closure<'a, F, State, Input, Output>, nc: Closure<'a, F, State, Input, Output>, i: Input, o: Output)
    ensures
        (#[trigger] c.call_mut_ens(nc, i, o)) == (nc == c && call_ensures(c.f, (c.t, i), o)),
{
}

/// The calls of a `ClosureRef` are permitted exactly when its callable
/// accepts the owned state and the input.
pub broadcast proof fn lemma_closure_ref_req<F: Fn(&State, Input) -> Output, State, Input, Output>(
    c: ClosureRef<F, State, Input, Output>,
    i: Input,
)
    ensures
        (#[trigger] c.call_once_req(i)) == call_requires(c.f, (&c.t, i)),
        (#[trigger] c.call_mut_req(i)) == call_requires(c.f, (&c.t, i)),
        (#[trigger] c.call_req(i)) == call_requires(c.f, (&c.t, i)),
{
}

/// The outputs of a `ClosureRef` are exactly those its callable can produce
/// from the owned state and the input.
pub broadcast proof fn lemma_closure_ref_ens<F: Fn(&State, Input) -> Output, State, Input, Output>(
    c: ClosureRef<F, State, Input, Output>,
    i: Input,
    o: Output,
)
    ensures
        (#[trigger] c.call_once_ens(i, o)) == call_ensures(c.f, (&c.t, i), o),
        (#[trigger] c.call_ens(i, o)) == call_ensures(c.f, (&c.t, i), o),
{
}

/// A mutating call on a `ClosureRef` leaves the record unchanged and
/// produces an output of its callable on the owned state.
pub broadcast proof fn lemma_closure_ref_mut_ens<
    F: Fn(&State, Input) -> Output,
    State,
    Input,
    Output,
>(
    c: ClosureRef<F, State, Input, Output>,
    nc: ClosureRef<F, State, Input, Output>,
    i: Input,
    o: Output,
)
    ensures
        (#[trigger] c.call_mut_ens(nc, i, o)) == (nc == c && call_ensures(c.f, (&c.t, i), o)),
{
}

/// The calls of a `ClosureMut` are permitted exactly when its callable
/// accepts every exclusive reference holding the current state value.
pub broadcast proof fn lemma_closure_mut_req<
    'a,
    F: Fn(&mut State, Input) -> Output,
    State,
    Input,
    Output,
>(c: ClosureMut<'a, F, State, Input, Output>, i: Input)
    ensures
        (#[trigger] c.call_once_req(i)) == (forall|m: &mut State|
            *m == *old(c.t) ==> call_requires(c.f, (m, i))),
        (#[trigger] c.call_mut_req(i)) == (forall|m: &mut State|
            *m == *old(c.t) ==> call_requires(c.f, (m, i))),
{
}

/// A consuming call on a `ClosureMut` produces an output its callable can
/// produce on some exclusive reference to the current state value.
pub broadcast proof fn lemma_closure_mut_once_ens<
    'a,
    F: Fn(&mut State, Input) -> Output,
    State,
    Input,
    Output,
>(c: ClosureMut<'a, F, State, Input, Output>, i: Input, o: Output)
    ensures
        (#[trigger] c.call_once_ens(i, o)) == (exists|m: &mut State|
            (*m == *old(c.t) && call_ensures(c.f, (m, i), o))),
{
}

/// A mutating call on a `ClosureMut` keeps its callable and produces an
/// output its callable can produce on the state it held before the call.
pub broadcast proof fn lemma_closure_mut_mut_ens<
    'a,
    F: Fn(&mut State, Input) -> Output,
    State,
    Input,
    Output,
>(
    c: ClosureMut<'a, F, State, Input, Output>,
    nc: ClosureMut<'a, F, State, Input, Output>,
    i: Input,
    o: Output,
)
    ensures
        (#[trigger] c.call_mut_ens(nc, i, o)) == (nc.f == c.f && (exists|m: &mut State|
            (*m == *old(c.t) && call_ensures(c.f, (m, i), o)))),
{
}

/// The consuming and mutating calls of a `ClosureRefMut` are permitted
/// exactly when its callable accepts every exclusive reference holding the
/// stored state value.
pub broadcast proof fn lemma_closure_ref_mut_req<
    F: Fn(&mut State, Input) -> Output,
    State,
    Input,
    Output,
>(c: ClosureRefMut<F, State, Input, Output>, i: Input)
    ensures
        (#[trigger] c.call_once_req(i)) == (forall|m: &mut State|
            *m == c.t ==> call_requires(c.f, (m, i))),
        (#[trigger] c.call_mut_req(i)) == (forall|m: &mut State|
            *m == c.t ==> call_requires(c.f, (m, i))),
{
}

/// A consuming call on a `ClosureRefMut` produces an output its callable can
/// produce on some exclusive reference to the stored state.
pub broadcast proof fn lemma_closure_ref_mut_once_ens<
    F: Fn(&mut State, Input) -> Output,
    State,
    Input,
    Output,
>(c: ClosureRefMut<F, State, Input, Output>, i: Input, o: Output)
    ensures
        (#[trigger] c.call_once_ens(i, o)) == (exists|m: &mut State|
            (*m == c.t && call_ensures(c.f, (m, i), o))),
{
}

/// A mutating call on a `ClosureRefMut` keeps its callable and produces an
/// output its callable can produce on the state stored before the call.
pub broadcast proof fn lemma_closure_ref_mut_mut_ens<
    F: Fn(&mut State, Input) -> Output,
    State,
    Input,
    Output,
>(
    c: ClosureRefMut<F, State, Input, Output>,
    nc: ClosureRefMut<F, State, Input, Output>,
    i: Input,
    o: Output,
)
    ensures
        (#[trigger] c.call_mut_ens(nc, i, o)) == (nc.f == c.f && (exists|m: &mut State|
            (*m == c.t && call_ensures(c.f, (m, i), o)))),
{
}

/// The read-only call of a `ClosureRefMut` is permitted exactly when its
/// callable accepts every exclusive reference holding the stored state
/// value, and produces exactly the outputs of such a call: the state its
/// callable writes goes to a throwaway copy.
pub broadcast proof fn lemma_closure_ref_mut_view<
    F: Fn(&mut State, Input) -> Output,
    State: Copy,
    Input,
    Output,
>(c: ClosureRefMut<F, State, Input, Output>, i: Input)
    ensures
        (#[trigger] c.call_req(i)) == (forall|m: &mut State|
            *m == c.t ==> call_requires(c.f, (m, i))),
{
}

/// The outputs of a read-only call on a `ClosureRefMut`.
pub broadcast proof fn lemma_closure_ref_mut_view_ens<
    F: Fn(&mut State, Input) -> Output,
    State: Copy,
    Input,
    Output,
>(c: ClosureRefMut<F, State, Input, Output>, i: Input, o: Output)
    ensures
        (#[trigger] c.call_ens(i, o)) == (exists|m: &mut State|
            (*m == c.t && call_ensures(c.f, (m, i), o))),
{
}

/// The consuming call of a `ClosureOnce` is permitted exactly when its
/// callable accepts the stored state by value.
pub broadcast proof fn lemma_closure_once_req<F: Fn(State, Input) -> Output, State, Input, Output>(
    c: ClosureOnce<F, State, Input, Output>,
    i: Input,
)
    ensures
        (#[trigger] c.call_once_req(i)) == call_requires(c.f, (c.t, i)),
{
}

/// The outputs of a consuming call on a `ClosureOnce`.
pub broadcast proof fn lemma_closure_once_ens<F: Fn(State, Input) -> Output, State, Input, Output>(
    c: ClosureOnce<F, State, Input, Output>,
    i: Input,
    o: Output,
)
    ensures
        (#[trigger] c.call_once_ens(i, o)) == call_ensures(c.f, (c.t, i), o),
{
}

/// When its state can be copied, a `ClosureOnce` may also be called
/// repeatedly; each such call hands the callable a copy of the state.
pub broadcast proof fn lemma_closure_once_rep_req<
    F: Fn(State, Input) -> Output,
    State: Copy,
    Input,
    Output,
>(c: ClosureOnce<F, State, Input, Output>, i: Input)
    ensures
        (#[trigger] c.call_mut_req(i)) == call_requires(c.f, (c.t, i)),
        (#[trigger] c.call_req(i)) == call_requires(c.f, (c.t, i)),
{
}

/// The outputs of the repeatable calls on a `ClosureOnce` with copyable
/// state.
pub broadcast proof fn lemma_closure_once_rep_ens<
    F: Fn(State, Input) -> Output,
    State: Copy,
    Input,
    Output,
>(c: ClosureOnce<F, State, Input, Output>, i: Input, o: Output)
    ensures
        (#[trigger] c.call_ens(i, o)) == call_ensures(c.f, (c.t, i), o),
{
}

/// A mutating call on a `ClosureOnce` with copyable state leaves the record
/// unchanged: only a copy of the state is handed to the callable.
pub broadcast proof fn lemma_closure_once_mut_ens<
    F: Fn(State, Input) -> Output,
    State: Copy,
    Input,
    Output,
>(
    c: ClosureOnce<F, State, Input, Output>,
    nc: ClosureOnce<F, State, Input, Output>,
    i: Input,
    o: Output,
)
    ensures
        (#[trigger] c.call_mut_ens(nc, i, o)) == (nc == c && call_ensures(c.f, (c.t, i), o)),
{
}

/// Duplicating a record that owns duplicable state yields one whose calls
/// are governed by exactly the same contract as the original's: the
/// duplicate holds its own state, equal to the original's, and on any input
/// the two records permit the same calls and admit the same outputs.
pub proof fn lemma_duplicate_call_agrees<F: Fn(&State, Input) -> Output, State, Input, Output>(
    c: ClosureRef<F, State, Input, Output>,
    d: ClosureRef<F, State, Input, Output>,
    i: Input,
)
    requires
        d.f == c.f,
        d.t == c.t,
    ensures
        d.call_req(i) == c.call_req(i),
        forall|o: Output| #[trigger] d.call_ens(i, o) == c.call_ens(i, o),
{
}

/// A read-only call on a record with mutable owned state permits exactly
/// the calls a consuming call would, and admits exactly the outputs that
/// some mutating call could produce; the record itself keeps its stored
/// state, so the mutation is discarded and repeated read-only calls never
/// accumulate state changes.
pub proof fn lemma_view_call_discards_mutation<
    F: Fn(&mut State, Input) -> Output,
    State: Copy,
    Input,
    Output,
>(c: ClosureRefMut<F, State, Input, Output>, i: Input, o: Output)
    ensures
        c.call_req(i) == c.call_once_req(i),
        c.call_ens(i, o) == c.call_once_ens(i, o),
        c.call_ens(i, o) == (exists|nc: ClosureRefMut<F, State, Input, Output>|
            (#[trigger] c.call_mut_ens(nc, i, o))),
{
    if c.call_ens(i, o) {
        assert(c.call_mut_ens(c, i, o));
    }
}

/// Every equation relating a record's call predicates to its stored
/// callable, gathered so that a caller can bring them in with one
/// `broadcast use`.
pub broadcast group group_closure_contracts {
    lemma_closure_req,
    lemma_closure_ens,
    lemma_closure_mut_ens,
    lemma_closure_ref_req,
    lemma_closure_ref_ens,
    lemma_closure_ref_mut_ens,
    lemma_closure_mut_req,
    lemma_closure_mut_once_ens,
    lemma_closure_mut_mut_ens,
    lemma_closure_ref_mut_req,
    lemma_closure_ref_mut_once_ens,
    lemma_closure_ref_mut_mut_ens,
    lemma_closure_ref_mut_view,
    lemma_closure_ref_mut_view_ens,
    lemma_closure_once_req,
    lemma_closure_once_ens,
    lemma_closure_once_rep_req,
    lemma_closure_once_rep_ens,
    lemma_closure_once_mut_ens,
}

} // verus!
