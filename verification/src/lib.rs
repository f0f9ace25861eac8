//! Ergonomics for unwrapping fallible values while reporting failures through
//! a configurable printer.
//!
//! The crate has two halves.  A [`PrinterRegistry`] holds at most one
//! installed [`Sink`]; it is filled once with [`try_set_printer`], replaced
//! unconditionally with [`set_printer_force`], and consulted by [`print`],
//! which hands a diagnostic line to whichever sink is installed (or to
//! standard output when none is).  On top of that, [`PrintableResult`] gives
//! `Result` and `Option` values an `unwrap_print` method that passes a
//! success through untouched and, on failure, formats a one-line diagnostic,
//! routes it through the registry, and returns the failure unchanged.

pub mod sink;
pub mod registry;
pub mod report;
pub mod adapter;

pub use adapter::PrintableResult;
pub use adapter::none_detail;
pub use adapter::report_failure;
pub use adapter::report_failure_at;
pub use registry::PrinterRegistry;
pub use registry::dispatched;
pub use registry::force_install_post;
pub use registry::lemma_force_overwrite;
pub use registry::lemma_install_once;
pub use registry::print;
pub use registry::reset_printer;
pub use registry::set_printer_force;
pub use registry::try_install_post;
pub use registry::try_set_printer;
pub use report::dec_str;
pub use report::error_line;
pub use report::error_line_at;
pub use report::error_message;
pub use report::error_message_at;
pub use report::u32_to_string;
pub use sink::FnSink;
pub use sink::ForwardSink;
pub use sink::RecordSink;
pub use sink::Sink;
pub use sink::views_of;
