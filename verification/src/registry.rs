//! The printer registry: a slot holding at most one installed [`Sink`],
//! filled once by [`try_set_printer`], replaced unconditionally by
//! [`set_printer_force`], and consulted by [`print`].
//!
//! A registry is an ordinary value reached through references, so Rust's
//! exclusivity rules already serialize every mutation; no lock is held here,
//! and in particular no lock is held while an installed sink runs.  An
//! embedding program that wants a single process-wide registry wraps one
//! instance in the synchronization of its choice and forwards these
//! operations (the accompanying application crate does exactly that).

use std::io::Write;
use vstd::prelude::*;

use crate::sink::Sink;

verus! {

/// The slot that holds the installed printer, plus a ghost log of the lines
/// that fell through to the default standard-output behaviour.
pub struct PrinterRegistry<S: Sink> {
    slot: Option<S>,
    defaulted: Ghost<Seq<Seq<char>>>,
}

impl<S: Sink> PrinterRegistry<S> {
    /// The currently installed sink, if any.
    pub closed spec fn sink(&self) -> Option<S> {
        self.slot
    }

    /// The lines that were printed while no sink was installed, oldest
    /// first.  These are the lines the built-in behaviour wrote to standard
    /// output.
    pub closed spec fn default_log(&self) -> Seq<Seq<char>> {
        self.defaulted@
    }

    /// A fresh registry with no sink installed.
    pub fn new() -> (r: Self)
        ensures
            r.sink() is None,
            r.default_log() == Seq::<Seq<char>>::empty(),
    {
        PrinterRegistry { slot: None, defaulted: Ghost(Seq::empty()) }
    }

    /// The installed sink, for inspection.
    pub fn installed(&self) -> (r: Option<&S>)
        ensures
            match self.sink() {
                Some(s) => r matches Some(p) && *p == s,
                None => r is None,
            },
    {
        match &self.slot {
            Some(s) => Some(s),
            None => None,
        }
    }
}

/// What [`try_set_printer`] does to the registry: `printer` is installed
/// exactly when the slot was empty, and `installed` reports whether that
/// happened; an occupied slot is left untouched.
pub open spec fn try_install_post<S: Sink>(
    pre: PrinterRegistry<S>,
    post: PrinterRegistry<S>,
    printer: S,
    installed: bool,
) -> bool {
    &&& installed == (pre.sink() is None)
    &&& post.sink() == if installed {
        Some(printer)
    } else {
        pre.sink()
    }
    &&& post.default_log() == pre.default_log()
}

/// What [`set_printer_force`] does to the registry: `printer` is installed
/// whatever the slot held before.
pub open spec fn force_install_post<S: Sink>(
    pre: PrinterRegistry<S>,
    post: PrinterRegistry<S>,
    printer: S,
) -> bool {
    &&& post.sink() == Some(printer)
    &&& post.default_log() == pre.default_log()
}

/// What [`print`] does to the registry: exactly one copy of `line` is
/// delivered, to the installed sink if there is one and to the default
/// standard-output behaviour otherwise, and the slot itself keeps the sink
/// it had.
pub open spec fn dispatched<S: Sink>(
    pre: PrinterRegistry<S>,
    post: PrinterRegistry<S>,
    line: Seq<char>,
) -> bool {
    match pre.sink() {
        Some(s0) => match post.sink() {
            Some(s1) => {
                &&& s1.emitted() == s0.emitted().push(line)
                &&& post.default_log() == pre.default_log()
            },
            None => false,
        },
        None => {
            &&& post.sink() is None
            &&& post.default_log() == pre.default_log().push(line)
        },
    }
}

/// Install `printer` if and only if no sink is installed yet.
///
/// Returns `true` when `printer` was installed, `false` when a sink was
/// already present, in which case the present sink stays active and
/// `printer` is discarded.  Install a printer early, during program
/// initialization; later attempts are rejected until a forced replacement
/// or a reset.
pub fn try_set_printer<S: Sink>(reg: &mut PrinterRegistry<S>, printer: S) -> (installed: bool)
    ensures
        try_install_post(*old(reg), *final(reg), printer, installed),
{
    if reg.slot.is_some() {
        false
    } else {
        reg.slot = Some(printer);
        true
    }
}

/// Install `printer` unconditionally, replacing any sink already present.
///
/// This is an escape hatch for test harnesses and controlled
/// re-initialization; ordinary programs should prefer [`try_set_printer`].
pub fn set_printer_force<S: Sink>(reg: &mut PrinterRegistry<S>, printer: S)
    ensures
        force_install_post(*old(reg), *final(reg), printer),
{
    reg.slot = Some(printer);
}

/// Remove the installed sink, if any, returning the registry to its initial
/// empty state (the default log is kept).
pub fn reset_printer<S: Sink>(reg: &mut PrinterRegistry<S>)
    ensures
        final(reg).sink() is None,
        final(reg).default_log() == old(reg).default_log(),
{
    reg.slot = None;
}

/// Relies on std's `writeln!` to `std::io::stdout`: writes the text followed
/// by a newline to the standard output stream.  Used only when no sink is
/// installed.
#[verifier::external_body]
fn default_printer(text: &str) {
    let _ = writeln!(std::io::stdout(), "{}", text);
}

/// Deliver the diagnostic line `text` once: to the installed sink if there
/// is one, otherwise to standard output (recorded in the default log).
///
/// The sink runs while no lock of this crate is held — the registry is
/// reached through an exclusive reference alone — so a sink is free to
/// print through another registry of its own.
pub fn print<S: Sink>(reg: &mut PrinterRegistry<S>, text: &str)
    ensures
        dispatched(*old(reg), *final(reg), text@),
{
    match &mut reg.slot {
        Some(s) => {
            s.emit(text);
        },
        None => {
            default_printer(text);
            let ghost log = reg.defaulted@;
            proof {
                reg.defaulted@ = log.push(text@);
            }
        },
    }
}

/// Install-once: on a registry with an empty slot the first
/// [`try_set_printer`] reports success and installs its sink, and any later
/// attempt, made before a forced replacement or a reset, reports failure
/// and leaves the first sink active and unchanged.
pub proof fn lemma_install_once<S: Sink>(
    r0: PrinterRegistry<S>,
    r1: PrinterRegistry<S>,
    r2: PrinterRegistry<S>,
    a: S,
    b: S,
    ok_a: bool,
    ok_b: bool,
)
    requires
        r0.sink() is None,
        try_install_post(r0, r1, a, ok_a),
        try_install_post(r1, r2, b, ok_b),
    ensures
        ok_a,
        !ok_b,
        r1.sink() == Some(a),
        r2.sink() == Some(a),
{
}

/// Force overwrite: after two forced installations in a row, a dispatched
/// line reaches only the sink installed last — the slot then holds that
/// sink with exactly the one new line appended to its log — and the default
/// standard-output log is untouched throughout.
pub proof fn lemma_force_overwrite<S: Sink>(
    r0: PrinterRegistry<S>,
    r1: PrinterRegistry<S>,
    r2: PrinterRegistry<S>,
    r3: PrinterRegistry<S>,
    x: S,
    y: S,
    line: Seq<char>,
)
    requires
        force_install_post(r0, r1, x),
        force_install_post(r1, r2, y),
        dispatched(r2, r3, line),
    ensures
        r3.sink() matches Some(s) && s.emitted() == y.emitted().push(line),
        r3.default_log() == r0.default_log(),
{
}

} // verus!
