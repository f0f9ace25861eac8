use unwrap_print::PrintableResult;
use unwrap_print::PrinterRegistry;
use unwrap_print::RecordSink;
use unwrap_print::error_message;
use unwrap_print::error_message_at;
use unwrap_print::set_printer_force;
use unwrap_print::u32_to_string;

#[test]
fn unwrap_print_result_err_prints_debug() {
    let mut reg = PrinterRegistry::new();
    set_printer_force(&mut reg, RecordSink::new());
    let res = Err::<(), _>(String::from("boom")).unwrap_print(&mut reg);
    assert!(res.is_err());
    let v = reg.installed().unwrap().messages();
    assert!(
        v.iter().any(|s| s.contains("Error") && s.contains("\"boom\"")),
        "unexpected printed messages: {:?}",
        v
    );
}

#[test]
fn unwrap_print_option_none_prints() {
    let mut reg = PrinterRegistry::new();
    set_printer_force(&mut reg, RecordSink::new());
    let res = Option::<i32>::None.unwrap_print(&mut reg);
    assert!(res.is_err());
    let v = reg.installed().unwrap().messages();
    assert!(
        v.iter().any(|s| s.contains("Option::None")),
        "unexpected printed messages: {:?}",
        v
    );
}

#[test]
fn track_caller_result_prints_location() {
    let mut reg = PrinterRegistry::new();
    set_printer_force(&mut reg, RecordSink::new());
    let _ = Err::<(), _>(String::from("boom")).unwrap_print_at(&mut reg, "tests/adapter.rs", 40, 13);
    let v = reg.installed().unwrap().messages();
    let s = &v[0];
    assert!(s.contains("Error at "));
    assert!(s.contains("\"boom\""));
}

#[test]
fn track_caller_option_prints_location() {
    let mut reg = PrinterRegistry::new();
    set_printer_force(&mut reg, RecordSink::new());
    let _ = Option::<i32>::None.unwrap_print_at(&mut reg, "tests/adapter.rs", 50, 13);
    let v = reg.installed().unwrap().messages();
    let s = &v[0];
    assert!(s.contains("Error at "));
    assert!(s.contains("Option::None"));
}

#[test]
fn err_without_sink_returns_failure_unchanged() {
    let mut reg: PrinterRegistry<RecordSink> = PrinterRegistry::new();
    let res = Err::<(), _>(String::from("boom")).unwrap_print(&mut reg);
    assert_eq!(res, Err(String::from("boom")));
    assert!(reg.installed().is_none());
}

#[test]
fn unwrap_print_ok_passes_through() {
    let mut reg = PrinterRegistry::new();
    set_printer_force(&mut reg, RecordSink::new());
    let res = Ok::<i32, String>(17).unwrap_print(&mut reg);
    assert_eq!(res, Ok(17));
    assert!(reg.installed().unwrap().messages().is_empty());
}

#[test]
fn unwrap_print_some_passes_through() {
    let mut reg = PrinterRegistry::new();
    set_printer_force(&mut reg, RecordSink::new());
    let res = Some(17i32).unwrap_print(&mut reg);
    assert_eq!(res, Ok(17));
    assert!(reg.installed().unwrap().messages().is_empty());
}

#[test]
fn option_none_message_is_exact() {
    let mut reg = PrinterRegistry::new();
    set_printer_force(&mut reg, RecordSink::new());
    let _ = Option::<i32>::None.unwrap_print(&mut reg);
    let v = reg.installed().unwrap().messages();
    assert_eq!(v.as_slice(), &["Error: Option::None"]);
}

#[test]
fn located_none_message_is_exact() {
    let mut reg = PrinterRegistry::new();
    set_printer_force(&mut reg, RecordSink::new());
    let _ = Option::<i32>::None.unwrap_print_at(&mut reg, "lib.rs", 3, 9);
    let v = reg.installed().unwrap().messages();
    assert_eq!(v.as_slice(), &["Error at lib.rs:3:9: Option::None"]);
}

#[test]
fn error_message_formats() {
    assert_eq!(error_message("boom").as_str(), "Error: boom");
    assert_eq!(
        error_message_at("main.rs", 12, 5, "boom").as_str(),
        "Error at main.rs:12:5: boom"
    );
}

#[test]
fn u32_to_string_renders_decimal() {
    assert_eq!(u32_to_string(0).as_str(), "0");
    assert_eq!(u32_to_string(7).as_str(), "7");
    assert_eq!(u32_to_string(42).as_str(), "42");
    assert_eq!(u32_to_string(1000).as_str(), "1000");
    assert_eq!(u32_to_string(4294967295).as_str(), "4294967295");
}
