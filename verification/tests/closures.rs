use namable_closures::Closure;
use namable_closures::ClosureMut;
use namable_closures::ClosureOnce;
use namable_closures::ClosureRef;
use namable_closures::ClosureRefMut;
use namable_closures::StableFn;
use namable_closures::StableFnMut;
use namable_closures::StableFnOnce;

#[test]
fn test_closure_reads_borrowed_state() {
    let state: i32 = 10;
    let add_ten: Closure<'_, _, i32, (i32,), i32> = Closure::new(|s: &i32, (i,): (i32,)| *s + i, &state);
    assert_eq!(add_ten.stable_call((1,)), 11);
    let mut add_ten = add_ten;
    assert_eq!(add_ten.stable_call_mut((2,)), 12);
    assert_eq!(add_ten.stable_call_once((3,)), 13);
}

#[test]
fn test_closure_copy_refers_to_same_state() {
    let state: i32 = 10;
    let add_ten: Closure<'_, _, i32, (i32,), i32> = Closure::new(|s: &i32, (i,): (i32,)| *s + i, &state);
    let dup = add_ten;
    assert_eq!(add_ten.stable_call((1,)), dup.stable_call((1,)));
    let cloned = add_ten.clone();
    assert_eq!(cloned.stable_call((5,)), 15);
}

#[test]
fn test_closure_ref_owns_state() {
    let add_ten: ClosureRef<_, i32, (i32,), i32> = ClosureRef::new(|s: &i32, (i,): (i32,)| *s + i, 10);
    assert_eq!(add_ten.stable_call((1,)), 11);
    let offset: ClosureRef<_, (i32, i32), (i32, i32), (i32, i32)> = ClosureRef::new(
        |s: &(i32, i32), (a, b): (i32, i32)| (s.0 + a, s.1 + b),
        (10, 20),
    );
    let p = offset.stable_call((1, 2));
    assert_eq!(p.0, 11);
    assert_eq!(p.1, 22);
}

#[test]
fn test_closure_ref_duplicate_agrees() {
    let add_ten: ClosureRef<_, i32, (i32,), i32> = ClosureRef::new(|s: &i32, (i,): (i32,)| *s + i, 10);
    let dup = add_ten.clone();
    assert_eq!(add_ten.stable_call((7,)), dup.stable_call((7,)));
    let copy = add_ten;
    assert_eq!(copy.stable_call((7,)), add_ten.stable_call((7,)));
}

#[test]
fn test_closure_mut_counts_matches() {
    let mut state: i32 = 0;
    {
        let mut match_cnt: ClosureMut<'_, _, i32, (i32, i32), ()> = ClosureMut::new(
            |s: &mut i32, (a, b): (i32, i32)| {
                if a == b {
                    *s += 1
                }
            },
            &mut state,
        );
        for i in 0..10i32 {
            match_cnt.stable_call_mut((i, i * 3 % 10));
        }
    }
    assert_eq!(state, 2);
}

#[test]
fn test_closure_mut_once_writes_back() {
    let mut state: i32 = 5;
    {
        let bump: ClosureMut<'_, _, i32, (i32,), i32> = ClosureMut::new(
            |s: &mut i32, (i,): (i32,)| {
                *s += i;
                *s
            },
            &mut state,
        );
        assert_eq!(bump.stable_call_once((3,)), 8);
    }
    assert_eq!(state, 8);
}

#[test]
fn test_closure_ref_mut_accumulates() {
    let mut accumulate: ClosureRefMut<_, i32, (i32,), i32> = ClosureRefMut::new(
        |s: &mut i32, (c,): (i32,)| {
            *s += c;
            *s
        },
        0,
    );
    assert_eq!(accumulate.stable_call_mut((1,)), 1);
    assert_eq!(accumulate.stable_call_mut((2,)), 3);
    assert_eq!(accumulate.t, 3);
    assert_eq!(accumulate.stable_call_once((2,)), 5);
}

#[test]
fn test_closure_ref_mut_view_discards_mutation() {
    let mut acc: ClosureRefMut<_, i32, (i32,), i32> = ClosureRefMut::new(
        |s: &mut i32, (c,): (i32,)| {
            *s += c;
            *s
        },
        5,
    );
    // Each read-only call hands the callable a throwaway copy of the
    // state: no mutation accumulates across the calls.
    assert_eq!(acc.stable_call((4,)), 9);
    assert_eq!(acc.stable_call((4,)), 9);
    assert_eq!(acc.t, 5);
    // A mutating call afterwards still starts from the stored state.
    assert_eq!(acc.stable_call_mut((1,)), 6);
    assert_eq!(acc.t, 6);
}

#[test]
fn test_closure_once_consumes_state() {
    let pick: ClosureOnce<_, Vec<i32>, (usize,), i32> =
        ClosureOnce::new(|v: Vec<i32>, (k,): (usize,)| v[k], vec![1, 2, 3]);
    assert_eq!(pick.stable_call_once((1,)), 2);
}

#[test]
fn test_closure_once_with_copy_state_repeats() {
    let mut take: ClosureOnce<_, i32, (i32,), i32> = ClosureOnce::new(|s: i32, (i,): (i32,)| s + i, 10);
    assert_eq!(take.stable_call_mut((1,)), 11);
    assert_eq!(take.stable_call((2,)), 12);
    assert_eq!(take.t, 10);
    assert_eq!(take.stable_call_once((5,)), 15);
}
