//! The self-referencing closure records. Each pairs a callable with a state
//! value, and hands the callable the whole record, so that the callable can
//! rebuild a fresh record with new state and invoke it: a closure that
//! recurses into itself without a named recursive function.
//!
//! The callable of such a record cannot be an ordinary closure: its argument
//! type mentions the record, whose type mentions the callable. Each record
//! family therefore comes with a small trait that a callable type
//! implements; the implementing type plays the part the function pointer
//! plays in a non-recursive record.

use vstd::prelude::*;
use vstd::pervasive::cloned;
use core::marker::PhantomData;
use crate::stable_fn::StableFn;
use crate::stable_fn::StableFnMut;
use crate::stable_fn::StableFnOnce;

verus! {

/// A self-referencing record that its callable receives by shared
/// reference.
pub struct ClosureRec<F, State, Input, Output> {
    /// The callable type standing in for a function pointer.
    pub func: F,
    /// The state the record was built with.
    pub state: State,
    /// Marks the call signature the record is fixed to.
    pub ph: PhantomData<(Input, Output)>,
}

/// A self-referencing record that its callable receives by exclusive
/// reference, while the record itself owns its state.
pub struct ClosureMutRec<F, State, Input, Output> {
    /// The callable type standing in for a function pointer.
    pub func: F,
    /// The state the record was built with.
    pub state: State,
    /// Marks the call signature the record is fixed to.
    pub ph: PhantomData<(Input, Output)>,
}

/// A self-referencing record that its callable receives by exclusive
/// reference, and which borrows its state exclusively from an external
/// owner; like `ClosureMut` it supports no duplication.
pub struct ClosureRecMut<'a, F, State, Input, Output> {
    /// The callable type standing in for a function pointer.
    pub func: F,
    /// The exclusively borrowed state.
    pub state: &'a mut State,
    /// Marks the call signature the record is fixed to.
    pub ph: PhantomData<(Input, Output)>,
}

/// A self-referencing record that its callable consumes whole.
pub struct ClosureOnceRec<F, State, Input, Output> {
    /// The callable type standing in for a function pointer.
    pub func: F,
    /// The state the record was built with.
    pub state: State,
    /// Marks the call signature the record is fixed to.
    pub ph: PhantomData<(Input, Output)>,
}

/// The callable of a `ClosureRec`: it receives the record by shared
/// reference, and may invoke the record (or a rebuilt one) from its own
/// body.
pub trait ClosureRecFn<State, Input, Output>: Sized {
    /// When the callable may be invoked on a record. An implementation
    /// that keeps the default permits every invocation.
    open spec fn req(me: ClosureRec<Self, State, Input, Output>, i: Input) -> bool {
        true
    }

    /// Which outputs the callable may produce on a record. An
    /// implementation that keeps the default promises nothing of them.
    open spec fn ens(me: ClosureRec<Self, State, Input, Output>, i: Input, o: Output) -> bool {
        true
    }

    /// Invoke the callable on a record.
    fn call(me: &ClosureRec<Self, State, Input, Output>, i: Input) -> (o: Output)
        requires
            Self::req(*me, i),
        ensures
            Self::ens(*me, i, o),
    ;
}

/// The callable of a `ClosureMutRec`: it receives the record by exclusive
/// reference and may mutate its state.
pub trait ClosureMutRecFn<State, Input, Output>: Sized {
    /// When the callable may be invoked on a record. An implementation
    /// that keeps the default permits every invocation.
    open spec fn req(me: ClosureMutRec<Self, State, Input, Output>, i: Input) -> bool {
        true
    }

    /// How an invocation relates the record before the call, the record
    /// after it, and the output. An implementation that keeps the default
    /// promises nothing of them.
    open spec fn ens(
        pre: ClosureMutRec<Self, State, Input, Output>,
        post: ClosureMutRec<Self, State, Input, Output>,
        i: Input,
        o: Output,
    ) -> bool {
        true
    }

    /// Invoke the callable on a record.
    fn call(me: &mut ClosureMutRec<Self, State, Input, Output>, i: Input) -> (o: Output)
        requires
            Self::req(*old(me), i),
        ensures
            Self::ens(*old(me), *final(me), i, o),
    ;
}

/// The callable of a `ClosureRecMut`: it receives the record by exclusive
/// reference and may mutate the borrowed state.
pub trait ClosureRecMutFn<State, Input, Output>: Sized {
    /// When the callable may be invoked on a record. An implementation
    /// that keeps the default permits every invocation.
    open spec fn req<'a>(me: ClosureRecMut<'a, Self, State, Input, Output>, i: Input) -> bool {
        true
    }

    /// How an invocation relates the record before the call, the record
    /// after it, and the output. An implementation that keeps the default
    /// promises nothing of them.
    open spec fn ens<'a>(
        pre: ClosureRecMut<'a, Self, State, Input, Output>,
        post: ClosureRecMut<'a, Self, State, Input, Output>,
        i: Input,
        o: Output,
    ) -> bool {
        true
    }

    /// Invoke the callable on a record.
    fn call<'a>(me: &mut ClosureRecMut<'a, Self, State, Input, Output>, i: Input) -> (o: Output)
        requires
            Self::req(*old(me), i),
        ensures
            Self::ens(*old(me), *final(me), i, o),
    ;
}

/// The callable of a `ClosureOnceRec`: it consumes the record it is invoked
/// on.
pub trait ClosureOnceRecFn<State, Input, Output>: Sized {
    /// When the callable may be invoked on a record. An implementation
    /// that keeps the default permits every invocation.
    open spec fn req(me: ClosureOnceRec<Self, State, Input, Output>, i: Input) -> bool {
        true
    }

    /// Which outputs the callable may produce on a record. An
    /// implementation that keeps the default promises nothing of them.
    open spec fn ens(me: ClosureOnceRec<Self, State, Input, Output>, i: Input, o: Output) -> bool {
        true
    }

    /// Invoke the callable, consuming the record.
    fn call(me: ClosureOnceRec<Self, State, Input, Output>, i: Input) -> (o: Output)
        requires
            Self::req(me, i),
        ensures
            Self::ens(me, i, o),
    ;
}

impl<F: ClosureRecFn<State, Input, Output>, State, Input, Output> ClosureRec<
    F,
    State,
    Input,
    Output,
> {
    /// Pair a callable with an initial state.
    pub fn new(func: F, s: State) -> (c: Self)
        ensures
            c.func == func,
            c.state == s,
    {
        ClosureRec { func, state: s, ph: PhantomData }
    }
}

impl<F: ClosureRecFn<State, Input, Output> + Copy, State, Input, Output> ClosureRec<
    F,
    State,
    Input,
    Output,
> {
    /// Invoke the record's callable on a fresh record carrying the given
    /// state: the step a callable takes to recurse into itself.
    pub fn call_with_state(&self, s: State, i: Input) -> (o: Output)
        requires
            F::req((ClosureRec { func: self.func, state: s, ph: self.ph }), i),
        ensures
            F::ens((ClosureRec { func: self.func, state: s, ph: self.ph }), i, o),
    {
        F::call(&ClosureRec { func: self.func, state: s, ph: self.ph }, i)
    }
}

impl<F: ClosureMutRecFn<State, Input, Output>, State, Input, Output> ClosureMutRec<
    F,
    State,
    Input,
    Output,
> {
    /// Pair a callable with an initial state.
    pub fn new(func: F, s: State) -> (c: Self)
        ensures
            c.func == func,
            c.state == s,
    {
        ClosureMutRec { func, state: s, ph: PhantomData }
    }
}

impl<F: ClosureMutRecFn<State, Input, Output> + Copy, State, Input, Output> ClosureMutRec<
    F,
    State,
    Input,
    Output,
> {
    /// Invoke the record's callable on a fresh record carrying the given
    /// state. The fresh record lives only for this one call: whatever the
    /// callable does to its state is discarded on return.
    pub fn call_with_state(&self, s: State, i: Input) -> (o: Output)
        requires
            F::req((ClosureMutRec { func: self.func, state: s, ph: self.ph }), i),
        ensures
            exists|post: ClosureMutRec<F, State, Input, Output>|
                F::ens((ClosureMutRec { func: self.func, state: s, ph: self.ph }), post, i, o),
    {
        let mut me = ClosureMutRec { func: self.func, state: s, ph: self.ph };
        F::call(&mut me, i)
    }
}

impl<'a, F: ClosureRecMutFn<State, Input, Output>, State, Input, Output> ClosureRecMut<
    'a,
    F,
    State,
    Input,
    Output,
> {
    /// Pair a callable with an exclusively borrowed state.
    pub fn new(func: F, s: &'a mut State) -> (c: Self)
        ensures
            c.func == func,
            *c.state == *old(s),
            *final(c.state) == *final(s),
    {
        ClosureRecMut { func, state: s, ph: PhantomData }
    }
}

impl<F: ClosureOnceRecFn<State, Input, Output>, State, Input, Output> ClosureOnceRec<
    F,
    State,
    Input,
    Output,
> {
    /// Pair a callable with an initial state.
    pub fn new(func: F, s: State) -> (c: Self)
        ensures
            c.func == func,
            c.state == s,
    {
        ClosureOnceRec { func, state: s, ph: PhantomData }
    }
}

impl<F: ClosureOnceRecFn<State, Input, Output> + Copy, State, Input, Output> ClosureOnceRec<
    F,
    State,
    Input,
    Output,
> {
    /// Invoke the record's callable on a fresh record carrying the given
    /// state, consuming that fresh record.
    pub fn call_with_state(&self, s: State, i: Input) -> (o: Output)
        requires
            F::req((ClosureOnceRec { func: self.func, state: s, ph: self.ph }), i),
        ensures
            F::ens((ClosureOnceRec { func: self.func, state: s, ph: self.ph }), i, o),
    {
        F::call(ClosureOnceRec { func: self.func, state: s, ph: self.ph }, i)
    }
}

// Duplication.

impl<F: Copy, State: Copy, Input, Output> Copy for ClosureRec<F, State, Input, Output> {

}

impl<F: Clone, State: Clone, Input, Output> Clone for ClosureRec<F, State, Input, Output> {
    /// Duplicate the record: the copy gets its own clone of the state.
    fn clone(&self) -> (c: Self)
        ensures
            cloned(self.func, c.func),
            cloned(self.state, c.state),
    {
        ClosureRec { func: self.func.clone(), state: self.state.clone(), ph: PhantomData }
    }
}

impl<F: Copy, State: Copy, Input, Output> Copy for ClosureMutRec<F, State, Input, Output> {

}

impl<F: Clone, State: Clone, Input, Output> Clone for ClosureMutRec<F, State, Input, Output> {
    /// Duplicate the record: the copy gets its own clone of the state.
    fn clone(&self) -> (c: Self)
        ensures
            cloned(self.func, c.func),
            cloned(self.state, c.state),
    {
        ClosureMutRec { func: self.func.clone(), state: self.state.clone(), ph: PhantomData }
    }
}

impl<F: Copy, State: Copy, Input, Output> Copy for ClosureOnceRec<F, State, Input, Output> {

}

impl<F: Clone, State: Clone, Input, Output> Clone for ClosureOnceRec<F, State, Input, Output> {
    /// Duplicate the record: the copy gets its own clone of the state.
    fn clone(&self) -> (c: Self)
        ensures
            cloned(self.func, c.func),
            cloned(self.state, c.state),
    {
        ClosureOnceRec { func: self.func.clone(), state: self.state.clone(), ph: PhantomData }
    }
}

// The capability interfaces on the self-referencing records.

impl<F: ClosureRecFn<State, Input, Output>, State, Input, Output> StableFnOnce<Input> for ClosureRec<
    F,
    State,
    Input,
    Output,
> {
    type Output = Output;

    open spec fn call_once_req(self, i: Input) -> bool {
        F::req(self, i)
    }

    open spec fn call_once_ens(self, i: Input, o: Output) -> bool {
        F::ens(self, i, o)
    }

    fn stable_call_once(self, i: Input) -> (o: Output) {
        F::call(&self, i)
    }
}

impl<F: ClosureRecFn<State, Input, Output>, State, Input, Output> StableFnMut<Input> for ClosureRec<
    F,
    State,
    Input,
    Output,
> {
    open spec fn call_mut_req(self, i: Input) -> bool {
        F::req(self, i)
    }

    open spec fn call_mut_ens(self, new_self: Self, i: Input, o: Output) -> bool {
        new_self == self && F::ens(self, i, o)
    }

    fn stable_call_mut(&mut self, i: Input) -> (o: Output) {
        F::call(self, i)
    }
}

impl<F: ClosureRecFn<State, Input, Output>, State, Input, Output> StableFn<Input> for ClosureRec<
    F,
    State,
    Input,
    Output,
> {
    open spec fn call_req(self, i: Input) -> bool {
        F::req(self, i)
    }

    open spec fn call_ens(self, i: Input, o: Output) -> bool {
        F::ens(self, i, o)
    }

    fn stable_call(&self, i: Input) -> (o: Output) {
        F::call(self, i)
    }
}

impl<F: ClosureMutRecFn<State, Input, Output>, State, Input, Output> StableFnOnce<Input> for ClosureMutRec<
    F,
    State,
    Input,
    Output,
> {
    type Output = Output;

    open spec fn call_once_req(self, i: Input) -> bool {
        F::req(self, i)
    }

    open spec fn call_once_ens(self, i: Input, o: Output) -> bool {
        exists|post: ClosureMutRec<F, State, Input, Output>| F::ens(self, post, i, o)
    }

    fn stable_call_once(self, i: Input) -> (o: Output) {
        let mut me = self;
        F::call(&mut me, i)
    }
}

impl<F: ClosureMutRecFn<State, Input, Output>, State, Input, Output> StableFnMut<Input> for ClosureMutRec<
    F,
    State,
    Input,
    Output,
> {
    open spec fn call_mut_req(self, i: Input) -> bool {
        F::req(self, i)
    }

    open spec fn call_mut_ens(self, new_self: Self, i: Input, o: Output) -> bool {
        F::ens(self, new_self, i, o)
    }

    fn stable_call_mut(&mut self, i: Input) -> (o: Output) {
        F::call(self, i)
    }
}

/// The read-only call of a `ClosureMutRec` hands the callable a copy of the
/// whole record: mutations land in the copy and are discarded.
impl<
    F: ClosureMutRecFn<State, Input, Output> + Copy,
    State: Copy,
    Input,
    Output,
> StableFn<Input> for ClosureMutRec<F, State, Input, Output> {
    open spec fn call_req(self, i: Input) -> bool {
        F::req(self, i)
    }

    open spec fn call_ens(self, i: Input, o: Output) -> bool {
        exists|post: ClosureMutRec<F, State, Input, Output>| F::ens(self, post, i, o)
    }

    fn stable_call(&self, i: Input) -> (o: Output) {
        let mut me = *self;
        F::call(&mut me, i)
    }
}

impl<'a, F: ClosureRecMutFn<State, Input, Output>, State, Input, Output> StableFnOnce<
    Input,
> for ClosureRecMut<'a, F, State, Input, Output> {
    type Output = Output;

    open spec fn call_once_req(self, i: Input) -> bool {
        F::req(self, i)
    }

    open spec fn call_once_ens(self, i: Input, o: Output) -> bool {
        exists|post: ClosureRecMut<'a, F, State, Input, Output>| F::ens(self, post, i, o)
    }

    fn stable_call_once(self, i: Input) -> (o: Output) {
        let mut me = self;
        F::call(&mut me, i)
    }
}

impl<'a, F: ClosureRecMutFn<State, Input, Output>, State, Input, Output> StableFnMut<
    Input,
> for ClosureRecMut<'a, F, State, Input, Output> {
    open spec fn call_mut_req(self, i: Input) -> bool {
        F::req(self, i)
    }

    open spec fn call_mut_ens(self, new_self: Self, i: Input, o: Output) -> bool {
        F::ens(self, new_self, i, o)
    }

    fn stable_call_mut(&mut self, i: Input) -> (o: Output) {
        F::call(self, i)
    }
}

impl<F: ClosureOnceRecFn<State, Input, Output>, State, Input, Output> StableFnOnce<Input> for ClosureOnceRec<
    F,
    State,
    Input,
    Output,
> {
    type Output = Output;

    open spec fn call_once_req(self, i: Input) -> bool {
        F::req(self, i)
    }

    open spec fn call_once_ens(self, i: Input, o: Output) -> bool {
        F::ens(self, i, o)
    }

    fn stable_call_once(self, i: Input) -> (o: Output) {
        F::call(self, i)
    }
}

impl<
    F: ClosureOnceRecFn<State, Input, Output> + Copy,
    State: Copy,
    Input,
    Output,
> StableFnMut<Input> for ClosureOnceRec<F, State, Input, Output> {
    open spec fn call_mut_req(self, i: Input) -> bool {
        F::req(self, i)
    }

    open spec fn call_mut_ens(self, new_self: Self, i: Input, o: Output) -> bool {
        new_self == self && F::ens(self, i, o)
    }

    fn stable_call_mut(&mut self, i: Input) -> (o: Output) {
        F::call(*self, i)
    }
}

impl<
    F: ClosureOnceRecFn<State, Input, Output> + Copy,
    State: Copy,
    Input,
    Output,
> StableFn<Input> for ClosureOnceRec<F, State, Input, Output> {
    open spec fn call_req(self, i: Input) -> bool {
        F::req(self, i)
    }

    open spec fn call_ens(self, i: Input, o: Output) -> bool {
        F::ens(self, i, o)
    }

    fn stable_call(&self, i: Input) -> (o: Output) {
        F::call(*self, i)
    }
}

} // verus!
