use nounwind::{abort_unwind, assert_nounwind};

#[test]
fn abort_unwind_sums_to_ten() {
    let total = abort_unwind(|| {
        let values = [1, 7, 2];
        let mut sum = 0;
        for v in values {
            sum += v;
        }
        sum
    });
    assert_eq!(total, 10);
}

#[test]
fn abort_unwind_hands_back_owned_value() {
    let words = vec![String::from("alpha"), String::from("beta")];
    let joined = abort_unwind(move || words.join("-"));
    assert_eq!(joined, "alpha-beta");
}

#[test]
fn abort_unwind_runs_closure_once() {
    let mut calls = 0;
    let out = abort_unwind(|| {
        calls += 1;
        calls * 5
    });
    assert_eq!(out, 5);
    assert_eq!(calls, 1);
}

#[test]
fn abort_unwind_nested_guards() {
    let out = abort_unwind(|| abort_unwind(|| 21u64) * 2);
    assert_eq!(out, 42);
}

#[test]
fn abort_unwind_unit_result() {
    let r: () = abort_unwind(|| ());
    assert_eq!(r, ());
}

#[test]
fn assert_nounwind_true_returns() {
    assert_nounwind(true, "never printed");
    assert_nounwind(1 + 1 == 2, "arithmetic");
}
