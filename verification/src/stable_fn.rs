//! The three call-capability interfaces, mirroring the language's own
//! call-trait hierarchy: a consuming call, a repeatable mutating call, and a
//! repeatable read-only call. Each level refines the previous one, and each
//! method's contract is stated through spec functions that the implementing
//! record type fills in.

use vstd::prelude::*;

verus! {

/// A callable value that may be invoked at most once: the call consumes it.
pub trait StableFnOnce<Input>: Sized {
    type Output;

    /// When the consuming call may be made.
    spec fn call_once_req(self, i: Input) -> bool;

    /// Which outputs the consuming call may produce.
    spec fn call_once_ens(self, i: Input, o: Self::Output) -> bool;

    /// Invoke the value, giving up ownership of it.
    fn stable_call_once(self, i: Input) -> (o: Self::Output)
        requires
            self.call_once_req(i),
        ensures
            self.call_once_ens(i, o),
    ;
}

/// A callable value that may be invoked repeatedly through an exclusive
/// reference; each call may mutate it, and later calls see the mutation.
pub trait StableFnMut<Input>: StableFnOnce<Input> {
    /// When the mutating call may be made.
    spec fn call_mut_req(self, i: Input) -> bool;

    /// How a mutating call relates the value before the call, the value
    /// after it, and the output.
    spec fn call_mut_ens(self, new_self: Self, i: Input, o: Self::Output) -> bool;

    /// Invoke the value through an exclusive reference.
    fn stable_call_mut(&mut self, i: Input) -> (o: Self::Output)
        requires
            old(self).call_mut_req(i),
        ensures
            old(self).call_mut_ens(*final(self), i, o),
    ;
}

/// A callable value that may be invoked repeatedly through a shared
/// reference; the value itself is left untouched by every call.
pub trait StableFn<Input>: StableFnMut<Input> {
    /// When the read-only call may be made.
    spec fn call_req(self, i: Input) -> bool;

    /// Which outputs the read-only call may produce.
    spec fn call_ens(self, i: Input, o: Self::Output) -> bool;

    /// Invoke the value through a shared reference.
    fn stable_call(&self, i: Input) -> (o: Self::Output)
        requires
            self.call_req(i),
        ensures
            self.call_ens(i, o),
    ;
}

/// A wrapper that turns a duplicable one-shot callable into a repeatable
/// one: every repeatable invocation runs on a fresh clone of the wrapped
/// value, so the original is never spent.
pub struct CloneOnCall<T>(pub T);

/// Wrap a duplicable one-shot callable so that it can be called repeatedly;
/// each repeatable call consumes a fresh clone of it.
pub fn as_cloning_stable_fn<Input, T: StableFnOnce<Input> + Clone>(f: T) -> (r: CloneOnCall<T>)
    ensures
        r.0 == f,
{
    CloneOnCall(f)
}

impl<Input, T: StableFnOnce<Input>> StableFnOnce<Input> for CloneOnCall<T> {
    type Output = T::Output;

    open spec fn call_once_req(self, i: Input) -> bool {
        self.0.call_once_req(i)
    }

    open spec fn call_once_ens(self, i: Input, o: T::Output) -> bool {
        self.0.call_once_ens(i, o)
    }

    fn stable_call_once(self, i: Input) -> (o: T::Output) {
        let CloneOnCall(t) = self;
        t.stable_call_once(i)
    }
}

impl<Input, T: StableFnOnce<Input> + Clone> StableFnMut<Input> for CloneOnCall<T> {
    open spec fn call_mut_req(self, i: Input) -> bool {
        forall|c: T| #[trigger] vstd::pervasive::cloned(self.0, c) ==> c.call_once_req(i)
    }

    open spec fn call_mut_ens(self, new_self: Self, i: Input, o: T::Output) -> bool {
        new_self == self && (exists|c: T|
            (#[trigger] vstd::pervasive::cloned(self.0, c) && c.call_once_ens(i, o)))
    }

    fn stable_call_mut(&mut self, i: Input) -> (o: T::Output) {
        let c = self.0.clone();
        proof {
            assert(vstd::pervasive::cloned(self.0, c));
        }
        c.stable_call_once(i)
    }
}

impl<Input, T: StableFnOnce<Input> + Clone> StableFn<Input> for CloneOnCall<T> {
    open spec fn call_req(self, i: Input) -> bool {
        forall|c: T| #[trigger] vstd::pervasive::cloned(self.0, c) ==> c.call_once_req(i)
    }

    open spec fn call_ens(self, i: Input, o: T::Output) -> bool {
        exists|c: T| (#[trigger] vstd::pervasive::cloned(self.0, c) && c.call_once_ens(i, o))
    }

    fn stable_call(&self, i: Input) -> (o: T::Output) {
        let c = self.0.clone();
        proof {
            assert(vstd::pervasive::cloned(self.0, c));
        }
        c.stable_call_once(i)
    }
}

} // verus!
