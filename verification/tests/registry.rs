use unwrap_print::FnSink;
use unwrap_print::ForwardSink;
use unwrap_print::PrinterRegistry;
use unwrap_print::RecordSink;
use unwrap_print::print;
use unwrap_print::reset_printer;
use unwrap_print::set_printer_force;
use unwrap_print::try_set_printer;

fn quiet(_: &str) {}

#[test]
fn try_set_printer_returns_true_then_false() {
    let mut reg = PrinterRegistry::new();
    assert!(try_set_printer(&mut reg, FnSink::new(quiet)));
    assert!(!try_set_printer(&mut reg, FnSink::new(quiet)));
}

#[test]
fn set_printer_force_overwrites() {
    let mut reg = PrinterRegistry::new();
    set_printer_force(&mut reg, RecordSink::new());
    print(&mut reg, "hello");
    assert_eq!(reg.installed().unwrap().messages().as_slice(), &["hello"]);
    set_printer_force(&mut reg, RecordSink::new());
    print(&mut reg, "world");
    assert_eq!(reg.installed().unwrap().messages().as_slice(), &["world"]);
}

#[test]
fn print_uses_installed_printer() {
    let mut reg = PrinterRegistry::new();
    set_printer_force(&mut reg, RecordSink::new());
    print(&mut reg, "captured");
    assert!(
        !reg.installed().unwrap().messages().is_empty(),
        "installed printer was not invoked"
    );
}

#[test]
fn install_once_keeps_first_sink() {
    let mut reg = PrinterRegistry::new();
    assert!(try_set_printer(&mut reg, RecordSink::new()));
    print(&mut reg, "pre");
    assert!(!try_set_printer(&mut reg, RecordSink::new()));
    print(&mut reg, "again");
    assert_eq!(
        reg.installed().unwrap().messages().as_slice(),
        &["pre", "again"]
    );
}

#[test]
fn reset_printer_empties_slot() {
    let mut reg = PrinterRegistry::new();
    assert!(try_set_printer(&mut reg, RecordSink::new()));
    reset_printer(&mut reg);
    assert!(reg.installed().is_none());
    assert!(try_set_printer(&mut reg, RecordSink::new()));
}

fn reentrant(s: &str) {
    let mut inner: PrinterRegistry<RecordSink> = PrinterRegistry::new();
    print(&mut inner, s);
}

#[test]
fn reentrant_sink_completes() {
    let mut reg = PrinterRegistry::new();
    assert!(try_set_printer(&mut reg, FnSink::new(reentrant)));
    print(&mut reg, "nested");
    print(&mut reg, "nested again");
}

#[test]
fn forward_sink_delivers_reentrantly() {
    let mut inner = PrinterRegistry::new();
    set_printer_force(&mut inner, RecordSink::new());
    let mut reg = PrinterRegistry::new();
    set_printer_force(&mut reg, ForwardSink::new(inner));
    print(&mut reg, "nested line");
    let forwarded = reg.installed().unwrap().registry();
    assert_eq!(
        forwarded.installed().unwrap().messages().as_slice(),
        &["nested line"]
    );
}

#[test]
fn print_without_sink_leaves_slot_empty() {
    let mut reg: PrinterRegistry<RecordSink> = PrinterRegistry::new();
    print(&mut reg, "foobar");
    assert!(reg.installed().is_none());
}
