use namable_closures::ClosureMutRec;
use namable_closures::ClosureMutRecFn;
use namable_closures::ClosureOnceRec;
use namable_closures::ClosureOnceRecFn;
use namable_closures::ClosureRec;
use namable_closures::ClosureRecFn;
use namable_closures::ClosureRecMut;
use namable_closures::ClosureRecMutFn;
use namable_closures::StableFn;
use namable_closures::StableFnMut;
use namable_closures::StableFnOnce;

#[derive(Clone, Copy)]
struct FacFn;

impl ClosureRecFn<(), (i32,), i32> for FacFn {
    fn call(me: &ClosureRec<FacFn, (), (i32,), i32>, i: (i32,)) -> i32 {
        let (n,) = i;
        if n == 0 {
            1
        } else {
            me.stable_call((n - 1,)) * n
        }
    }
}

#[test]
fn test_fac() {
    let fac: ClosureRec<FacFn, (), (i32,), i32> = ClosureRec::new(FacFn, ());
    assert_eq!(fac.stable_call((10,)), 3628800);
}

#[derive(Clone, Copy)]
struct FibFn;

impl ClosureRecFn<(i32, i32), (i32,), i32> for FibFn {
    fn call(me: &ClosureRec<FibFn, (i32, i32), (i32,), i32>, i: (i32,)) -> i32 {
        let (i0, i1) = me.state;
        match i.0 {
            0 => i0,
            1 => i1,
            _ => me.call_with_state((i1, i0 + i1), (i.0 - 1,)),
        }
    }
}

#[test]
fn test_fib() {
    let fib: ClosureRec<FibFn, (i32, i32), (i32,), i32> = ClosureRec::new(FibFn, (1, 1));
    assert_eq!(fib.stable_call((10,)), 89);
    assert_eq!(fib.state, (1, 1));
}

#[test]
fn test_rec_once_and_mut_calls() {
    let fac: ClosureRec<FacFn, (), (i32,), i32> = ClosureRec::new(FacFn, ());
    let mut fac2 = fac;
    assert_eq!(fac2.stable_call_mut((5,)), 120);
    assert_eq!(fac.stable_call_once((6,)), 720);
}

#[derive(Clone, Copy)]
struct SumFn;

impl ClosureMutRecFn<i32, (i32,), i32> for SumFn {
    fn call(me: &mut ClosureMutRec<SumFn, i32, (i32,), i32>, i: (i32,)) -> i32 {
        let (n,) = i;
        me.state += n;
        if n == 0 {
            me.state
        } else {
            me.call_with_state(me.state, (n - 1,))
        }
    }
}

#[test]
fn test_mut_rec_sums_through_fresh_records() {
    let mut rec: ClosureMutRec<SumFn, i32, (i32,), i32> = ClosureMutRec::new(SumFn, 0);
    assert_eq!(rec.stable_call_mut((3,)), 6);
    // Only the top-level record's own mutation survives: each recursive
    // step ran on a fresh record that was discarded on return.
    assert_eq!(rec.state, 3);
    assert_eq!(rec.stable_call((2,)), 6);
    assert_eq!(rec.state, 3);
}

struct TallyFn;

impl ClosureRecMutFn<i32, (i32,), ()> for TallyFn {
    fn call<'a>(me: &mut ClosureRecMut<'a, TallyFn, i32, (i32,), ()>, i: (i32,)) {
        *me.state += i.0;
    }
}

#[test]
fn test_rec_mut_writes_through_borrow() {
    let mut v: i32 = 0;
    {
        let mut rec: ClosureRecMut<'_, TallyFn, i32, (i32,), ()> = ClosureRecMut::new(TallyFn, &mut v);
        rec.stable_call_mut((4,));
        rec.stable_call_mut((5,));
    }
    assert_eq!(v, 9);
}

#[derive(Clone, Copy)]
struct CountUpFn;

impl ClosureOnceRecFn<i32, (i32,), i32> for CountUpFn {
    fn call(me: ClosureOnceRec<CountUpFn, i32, (i32,), i32>, i: (i32,)) -> i32 {
        let (n,) = i;
        if n == 0 {
            me.state
        } else {
            me.call_with_state(me.state + 1, (n - 1,))
        }
    }
}

#[test]
fn test_once_rec_counts_up() {
    let rec: ClosureOnceRec<CountUpFn, i32, (i32,), i32> = ClosureOnceRec::new(CountUpFn, 0);
    assert_eq!(rec.stable_call_once((5,)), 5);
    let mut rec2: ClosureOnceRec<CountUpFn, i32, (i32,), i32> = ClosureOnceRec::new(CountUpFn, 2);
    assert_eq!(rec2.stable_call_mut((1,)), 3);
    assert_eq!(rec2.stable_call((0,)), 2);
    assert_eq!(rec2.state, 2);
}
