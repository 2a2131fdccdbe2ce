//! The pieces behind [`crate::panic_nounwind`] and its relatives.
use vstd::prelude::*;

use crate::Never;

verus! {

/// Relies on `core::fmt::Arguments::as_str`: the message as a plain
/// string, where it has nothing to format at run time.
pub assume_specification<'a>[ core::fmt::Arguments::<'a>::as_str ](
    args: &core::fmt::Arguments<'a>,
) -> Option<&'static str>;

/// Aborts with the message that `unreachable!` gives.
pub fn unreachable_nounwind() -> Never
    no_unwind
{
    crate::panic_nounwind("internal error: entered unreachable code")
}

/// Panics with the message of `args` and aborts instead of unwinding,
/// taking the cheaper road of [`crate::panic_nounwind`] where the message is
/// a plain string.
///
/// Which road is taken changes the cost of the call, not its outcome:
/// either way the process ends and nothing unwinds.
pub fn do_panic_nounwind(args: core::fmt::Arguments<'_>) -> Never
    no_unwind
{
    let constant = crate::abort_unwind(move || args.as_str());
    match constant {
        Some(msg) => crate::panic_nounwind(msg),
        None => panic_nounwind_fmt(args),
    }
}

/// Panics with the message that `f` formats, but aborts instead of
/// unwinding.
pub fn panic_nounwind_fmt(f: core::fmt::Arguments<'_>) -> Never
    no_unwind
{
    crate::panic_nounwind_fmt(f)
}

} // verus!
