//! Nameable closure records: each pairs a captured-state value with a
//! callable, so closures with the same state layout and call signature can
//! share one sized, nominal type, be stored in homogeneous containers, and
//! support copy, clone, or once-call semantics according to how they hold
//! their state.
//!
//! Five records cross the state's ownership with how the call takes it:
//! [`Closure`] (borrowed state, read-only calls), [`ClosureRef`] (owned
//! state, read-only calls), [`ClosureMut`] (exclusively borrowed state,
//! mutating calls), [`ClosureRefMut`] (owned state, mutating calls), and
//! [`ClosureOnce`] (owned state, consumed by the call). A second family —
//! [`ClosureRec`], [`ClosureMutRec`], [`ClosureRecMut`], [`ClosureOnceRec`]
//! — hands the callable the whole record, so that it can rebuild itself
//! with new state and recurse.
//!
//! Three capability interfaces, [`StableFnOnce`], [`StableFnMut`] and
//! [`StableFn`], mirror the language's own call-trait hierarchy; each
//! record implements the levels its ownership mode supports.

pub mod closure_rec;
pub mod closures;
pub mod stable_fn;

pub use closure_rec::ClosureMutRec;
pub use closure_rec::ClosureMutRecFn;
pub use closure_rec::ClosureOnceRec;
pub use closure_rec::ClosureOnceRecFn;
pub use closure_rec::ClosureRec;
pub use closure_rec::ClosureRecFn;
pub use closure_rec::ClosureRecMut;
pub use closure_rec::ClosureRecMutFn;
pub use closures::Closure;
pub use closures::ClosureMut;
pub use closures::ClosureOnce;
pub use closures::ClosureRef;
pub use closures::ClosureRefMut;
pub use stable_fn::CloneOnCall;
pub use stable_fn::StableFn;
pub use stable_fn::StableFnMut;
pub use stable_fn::StableFnOnce;
pub use stable_fn::as_cloning_stable_fn;
