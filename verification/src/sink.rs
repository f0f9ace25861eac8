//! The sink side of the printer protocol: the [`Sink`] trait that receivers
//! of diagnostic lines implement, and three sinks — [`RecordSink`] keeps
//! every line it was handed, [`FnSink`] forwards each line to a function or
//! closure, and [`ForwardSink`] forwards each line into another printer
//! registry.

use vstd::prelude::*;

use crate::registry::PrinterRegistry;
use crate::registry::print;

verus! {

/// The sequence of views of a sequence of strings.
pub open spec fn views_of(v: Seq<String>) -> Seq<Seq<char>> {
    v.map_values(|s: String| s@)
}

/// A receiver of diagnostic lines.
///
/// A sink abstractly accumulates the lines it has been handed, in order, in
/// `emitted()`; `emit` appends exactly the line it received.  An
/// implementation is free to do anything with the text (print it, store it,
/// forward it) as long as it accounts for the line in its `emitted()` log.
pub trait Sink: Sized {
    /// The lines this sink has received so far, oldest first.
    spec fn emitted(&self) -> Seq<Seq<char>>;

    /// Receive one diagnostic line.
    fn emit(&mut self, text: &str)
        ensures
            final(self).emitted() == old(self).emitted().push(text@),
    ;
}

/// A sink that records every line it receives, for inspection afterwards.
pub struct RecordSink {
    messages: Vec<String>,
}

impl RecordSink {
    /// An empty recording sink.
    pub fn new() -> (s: Self)
        ensures
            s.emitted() == Seq::<Seq<char>>::empty(),
    {
        RecordSink { messages: Vec::new() }
    }

    /// The lines received so far, oldest first.
    pub fn messages(&self) -> (r: &Vec<String>)
        ensures
            views_of(r@) == self.emitted(),
    {
        &self.messages
    }
}

impl Sink for RecordSink {
    closed spec fn emitted(&self) -> Seq<Seq<char>> {
        views_of(self.messages@)
    }

    fn emit(&mut self, text: &str) {
        self.messages.push(text.to_owned());
        proof {
            assert(views_of(self.messages@) =~= views_of(old(self).messages@).push(text@));
        }
    }
}

/// A sink that forwards every line to a function or closure.
///
/// This is the shape an embedding program's printer usually has: a plain
/// function from `&str` to nothing.  The function must accept every line
/// (its `call_requires` holds of any argument); what it does with the text
/// is its own affair, and the lines handed to it are accounted for in a
/// ghost log.
pub struct FnSink<F: Fn(&str) -> ()> {
    f: F,
    log: Ghost<Seq<Seq<char>>>,
}

impl<F: Fn(&str) -> ()> FnSink<F> {
    #[verifier::type_invariant]
    spec fn wf(self) -> bool {
        forall|s: &str| call_requires(self.f, (s,))
    }

    /// The wrapped function.
    pub closed spec fn spec_func(&self) -> F {
        self.f
    }

    /// Wrap `f` as a sink.
    pub fn new(f: F) -> (r: Self)
        requires
            forall|s: &str| call_requires(f, (s,)),
        ensures
            r.emitted() == Seq::<Seq<char>>::empty(),
            r.spec_func() == f,
    {
        FnSink { f, log: Ghost(Seq::empty()) }
    }

    /// The wrapped function, for a caller that wants to invoke it itself.
    pub fn func(&self) -> (r: &F)
        ensures
            *r == self.spec_func(),
    {
        &self.f
    }
}

impl<F: Fn(&str) -> ()> Sink for FnSink<F> {
    closed spec fn emitted(&self) -> Seq<Seq<char>> {
        self.log@
    }

    fn emit(&mut self, text: &str) {
        proof {
            use_type_invariant(&*self);
        }
        (self.f)(text);
        proof {
            self.log@ = self.log@.push(text@);
        }
    }
}

/// A sink that forwards every line into a printer registry of its own.
///
/// Its `emit` calls [`print`] while it is itself being run by a `print` —
/// a sink is free to re-enter the printing machinery during its own
/// execution, since no lock of this crate is ever held around a running
/// sink.
pub struct ForwardSink<S: Sink> {
    inner: PrinterRegistry<S>,
}

impl<S: Sink> ForwardSink<S> {
    /// The registry the lines are forwarded into.
    pub closed spec fn spec_registry(&self) -> PrinterRegistry<S> {
        self.inner
    }

    /// Forward into `inner`.
    pub fn new(inner: PrinterRegistry<S>) -> (r: Self)
        ensures
            r.spec_registry() == inner,
    {
        ForwardSink { inner }
    }

    /// The registry the lines are forwarded into, for inspection.
    pub fn registry(&self) -> (r: &PrinterRegistry<S>)
        ensures
            *r == self.spec_registry(),
    {
        &self.inner
    }
}

impl<S: Sink> Sink for ForwardSink<S> {
    closed spec fn emitted(&self) -> Seq<Seq<char>> {
        match self.inner.sink() {
            Some(s) => s.emitted(),
            None => self.inner.default_log(),
        }
    }

    fn emit(&mut self, text: &str) {
        print(&mut self.inner, text);
    }
}

} // verus!
