//! Guarded code that does not panic.
//!
//! Code that panics under the guard ends the whole process, test harness
//! included, so only the normal path is run here.

#[test]
fn nopanic_closure() {
    nounwind::abort_unwind(|| {
        println!("shouldn't panic");
        assert_eq!(3 + 4, 7);
    });
    assert_eq!(
        nounwind::abort_unwind(|| [1, 7, 2].into_iter().sum::<i32>()),
        10
    );
}

#[test]
fn nopanic_macro() {
    nounwind::abort_unwind(move || {
        println!("shouldn't panic");
        let x = [1, 7, 2];
        let mut res = 7;
        for val in x {
            res += val;
        }
        println!("res {res}");
    })
}
