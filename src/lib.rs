//! Calls that end the process instead of unwinding.
//!
//! A panic normally unwinds: it runs destructors frame by frame until it is
//! caught or leaves the thread. Where going on after a partial cleanup would
//! break an invariant, the caller marks the region with [`abort_unwind`]:
//! a panic inside it ends the process on the spot.
//!
//! The reporting functions ([`panic_nounwind`], [`panic_nounwind_fmt`],
//! [`assert_nounwind`]) raise an ordinary panic, so that the message and the
//! panic hook still run, but they raise it inside [`abort_unwind`], so that it
//! can never be caught.
use vstd::prelude::*;

pub mod panic_internals;
pub mod transform;

pub use transform::{do_nounwind, nounwind, rewrite_parsed, NounwindError};

verus! {

/// Declares `core::fmt::Arguments`, a message waiting to be formatted, as
/// an opaque type: it is only carried through to the formatter.
#[verifier::external_type_specification]
#[verifier::external_body]
pub struct ExArguments<'a>(core::fmt::Arguments<'a>);

/// A type with no values.
///
/// A function that returns `Never` does not return at all; a caller that
/// holds one learns `false` from its type invariant.
pub struct Never {
    unbuilt: (),
}

impl Never {
    #[verifier::type_invariant]
    spec fn has_no_value(self) -> bool {
        false
    }

    /// Turns a `Never` into a value of any type, so that a call that never
    /// returns can stand where any value is expected.
    pub fn absurd<T>(self) -> T {
        proof {
            use_type_invariant(&self);
        }
        loop
            invariant
                self.has_no_value(),
            decreases 0nat,
        {
        }
    }
}

/// Relies on `libabort::AbortGuard`: the guard is armed when it is made,
/// and dropping it while armed, as happens when `func` unwinds, calls
/// `libabort::abort`, which ends the process and never unwinds. Once `func`
/// has returned, `AbortGuard::defuse` disarms it without running that drop.
#[verifier::external_body]
fn run_guarded<F: FnOnce() -> R, R>(func: F) -> (r: R)
    requires
        func.requires(()),
    ensures
        func.ensures((), r),
    no_unwind
{
    let guard = libabort::AbortGuard::new();
    let res = func();
    guard.defuse();
    res
}

/// Relies on `Option::expect`: on `None` it panics with `msg` as the
/// message, so it never returns.
#[verifier::external_body]
fn raise(msg: &str) -> Never {
    None::<Never>.expect(msg)
}

/// Relies on the `Display` impl of `core::fmt::Arguments`, through
/// `format!`: it writes out the message that `args` describes.
#[verifier::external_body]
fn render(args: core::fmt::Arguments<'_>) -> String {
    format!("{}", args)
}

/// Invokes a closure, aborting the process if the closure unwinds.
///
/// When `func` returns, its value is handed back unchanged; when it
/// panics, the panic goes no further than this call.
pub fn abort_unwind<F: FnOnce() -> R, R>(func: F) -> (r: R)
    requires
        func.requires(()),
    ensures
        func.ensures((), r),
    no_unwind
{
    run_guarded(func)
}

/// A computation that can only return `v` gives `v` back through
/// [`abort_unwind`]: the guard never changes what a normal return carries.
pub proof fn lemma_abort_unwind_returns_value<F: FnOnce() -> R, R>(func: F, v: R)
    requires
        forall|r: R| #[trigger] func.ensures((), r) ==> r == v,
    ensures
        forall|r: R| #[trigger] call_ensures(abort_unwind::<F, R>, (func,), r) ==> r == v,
{
}

/// Panics with `s` as the message, but aborts instead of unwinding.
pub fn panic_nounwind(s: &'static str) -> Never
    no_unwind
{
    abort_unwind(move || raise(s))
}

/// Panics with the message that `f` formats, but aborts instead of
/// unwinding.
///
/// Both the formatting and the panic run inside [`abort_unwind`], so a
/// panic raised while the message is written ends the process too.
pub fn panic_nounwind_fmt(f: core::fmt::Arguments<'_>) -> Never
    no_unwind
{
    abort_unwind(
        move ||
            {
                let msg = render(f);
                raise(&msg)
            },
    )
}

/// Returns when `cond` holds; otherwise panics with `msg` and aborts
/// instead of unwinding.
pub fn assert_nounwind(cond: bool, msg: &'static str)
    ensures
        cond,
    no_unwind
{
    if !cond {
        let never = panic_nounwind(msg);
        proof {
            use_type_invariant(&never);
        }
    }
}

} // verus!
