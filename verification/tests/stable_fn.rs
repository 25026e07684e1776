use namable_closures::ClosureOnce;
use namable_closures::StableFn;
use namable_closures::StableFnMut;
use namable_closures::StableFnOnce;
use namable_closures::as_cloning_stable_fn;

#[test]
fn test_as_cloning_stable_fn_repeats_a_once_call() {
    let pick: ClosureOnce<_, Vec<i32>, (usize,), i32> =
        ClosureOnce::new(|v: Vec<i32>, (k,): (usize,)| v[k], vec![1, 2, 3]);
    let mut rep = as_cloning_stable_fn(pick);
    assert_eq!(rep.stable_call((0,)), 1);
    assert_eq!(rep.stable_call((2,)), 3);
    assert_eq!(rep.stable_call_mut((1,)), 2);
    assert_eq!(rep.stable_call_once((0,)), 1);
}
