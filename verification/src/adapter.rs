//! `.unwrap_print()`: extract the success value from a fallible or optional
//! container, or report the failure through a printer registry and hand the
//! failure back unchanged.

use vstd::prelude::*;
use vstd::pervasive::arbitrary;

use crate::registry::PrinterRegistry;
use crate::registry::dispatched;
use crate::registry::print;
use crate::report::error_line;
use crate::report::error_line_at;
use crate::report::error_message;
use crate::report::error_message_at;
use crate::sink::Sink;

verus! {

/// The fixed token that stands for an absent optional value in a
/// diagnostic.
pub open spec fn none_detail() -> Seq<char> {
    "Option::None"@
}

/// Relies on std's `format!` with the `{:#?}` specifier: renders the value
/// through its `Debug` implementation.  Which text comes back is that
/// implementation's own affair, so nothing is claimed of the result.
#[verifier::external_body]
fn render_debug<E: core::fmt::Debug>(e: &E) -> String {
    format!("{:#?}", e)
}

/// Report one failure, rendered as `detail`, through the registry's
/// printer: exactly the location-free diagnostic line for `detail` is
/// dispatched, once.
pub fn report_failure<S: Sink>(reg: &mut PrinterRegistry<S>, detail: &str)
    ensures
        dispatched(*old(reg), *final(reg), error_line(detail@)),
{
    let msg = error_message(detail);
    print(reg, msg.as_str());
}

/// Report one failure, rendered as `detail`, through the registry's
/// printer, with the call site `file:line:column` named in the line.
pub fn report_failure_at<S: Sink>(
    reg: &mut PrinterRegistry<S>,
    file: &str,
    line: u32,
    column: u32,
    detail: &str,
)
    ensures
        dispatched(
            *old(reg),
            *final(reg),
            error_line_at(file@, line as nat, column as nat, detail@),
        ),
{
    let msg = error_message_at(file, line, column, detail);
    print(reg, msg.as_str());
}

/// `.unwrap_print()` ergonomics for value-or-failure containers.
///
/// The method is a transparent pass-through with a side effect on the
/// failure path only: a success comes back as `Ok` of the identical
/// payload, leaving the registry untouched; a failure is reported once
/// through the registry's printer and then returned unchanged.  It never
/// panics and never swallows the failure.
pub trait PrintableResult<T, E>: Sized {
    /// Whether this container holds a success.
    spec fn is_success(&self) -> bool;

    /// The success payload (meaningful when `is_success()`).
    spec fn success_value(&self) -> T;

    /// The failure payload handed back on the failure path.
    spec fn failure_value(&self) -> E;

    /// Pass a success through; report a failure and return it.
    fn unwrap_print<S: Sink>(self, reg: &mut PrinterRegistry<S>) -> (r: Result<T, E>)
        ensures
            self.is_success() ==> r == Ok::<T, E>(self.success_value()) && *final(reg) == *old(
                reg,
            ),
            !self.is_success() ==> r == Err::<T, E>(self.failure_value()) && (exists|
                line: Seq<char>,
            |
                dispatched(*old(reg), *final(reg), line)),
    ;

    /// As [`Self::unwrap_print`], with the call site `file:line:column`
    /// named in the diagnostic.  Call-site capture is opt-in: a caller
    /// that wants a located diagnostic passes its own location here.
    fn unwrap_print_at<S: Sink>(
        self,
        reg: &mut PrinterRegistry<S>,
        file: &str,
        line: u32,
        column: u32,
    ) -> (r: Result<T, E>)
        ensures
            self.is_success() ==> r == Ok::<T, E>(self.success_value()) && *final(reg) == *old(
                reg,
            ),
            !self.is_success() ==> r == Err::<T, E>(self.failure_value()) && (exists|
                msg: Seq<char>,
            |
                dispatched(*old(reg), *final(reg), msg)),
    ;
}

impl<T, E: core::fmt::Debug> PrintableResult<T, E> for Result<T, E> {
    open spec fn is_success(&self) -> bool {
        self is Ok
    }

    open spec fn success_value(&self) -> T {
        match *self {
            Ok(v) => v,
            Err(_) => arbitrary(),
        }
    }

    open spec fn failure_value(&self) -> E {
        match *self {
            Ok(_) => arbitrary(),
            Err(e) => e,
        }
    }

    fn unwrap_print<S: Sink>(self, reg: &mut PrinterRegistry<S>) -> (r: Result<T, E>)
        ensures
            r == self,
            self is Err ==> (exists|detail: Seq<char>|
                dispatched(*old(reg), *final(reg), error_line(detail))),
    {
        match self {
            Ok(v) => Ok(v),
            Err(e) => {
                let rendered = render_debug(&e);
                report_failure(reg, rendered.as_str());
                Err(e)
            },
        }
    }

    fn unwrap_print_at<S: Sink>(
        self,
        reg: &mut PrinterRegistry<S>,
        file: &str,
        line: u32,
        column: u32,
    ) -> (r: Result<T, E>)
        ensures
            r == self,
            self is Err ==> (exists|detail: Seq<char>|
                dispatched(
                    *old(reg),
                    *final(reg),
                    error_line_at(file@, line as nat, column as nat, detail),
                )),
    {
        match self {
            Ok(v) => Ok(v),
            Err(e) => {
                let rendered = render_debug(&e);
                report_failure_at(reg, file, line, column, rendered.as_str());
                Err(e)
            },
        }
    }
}

impl<T> PrintableResult<T, ()> for Option<T> {
    open spec fn is_success(&self) -> bool {
        self is Some
    }

    open spec fn success_value(&self) -> T {
        match *self {
            Some(v) => v,
            None => arbitrary(),
        }
    }

    open spec fn failure_value(&self) -> () {
        ()
    }

    fn unwrap_print<S: Sink>(self, reg: &mut PrinterRegistry<S>) -> (r: Result<T, ()>)
        ensures
            self is None ==> dispatched(*old(reg), *final(reg), error_line(none_detail())),
    {
        match self {
            Some(v) => Ok(v),
            None => {
                report_failure(reg, "Option::None");
                Err(())
            },
        }
    }

    fn unwrap_print_at<S: Sink>(
        self,
        reg: &mut PrinterRegistry<S>,
        file: &str,
        line: u32,
        column: u32,
    ) -> (r: Result<T, ()>)
        ensures
            self is None ==> dispatched(
                *old(reg),
                *final(reg),
                error_line_at(file@, line as nat, column as nat, none_detail()),
            ),
    {
        match self {
            Some(v) => Ok(v),
            None => {
                report_failure_at(reg, file, line, column, "Option::None");
                Err(())
            },
        }
    }
}

} // verus!
