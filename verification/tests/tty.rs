use tty_probe::memo::InteractivityCache;
use tty_probe::name_buf::{extract_reported_name, NAME_WIDE_CAPACITY};
use tty_probe::probe::{
    classify, is_emulator_pipe_name, probe_complex, probe_simple, Classification, HandleReport,
};
use tty_probe::Stream;

fn wide(s: &str) -> Vec<u16> {
    s.encode_utf16().collect()
}

#[test]
fn probe_simple_matches_os_answer() {
    assert!(probe_simple(1));
    assert!(!probe_simple(0));
    assert!(!probe_simple(-1));
    assert!(!probe_simple(2));
}

#[test]
fn no_handle_is_not_interactive() {
    assert_eq!(classify(&HandleReport::Missing), Classification::NoHandle);
    assert!(!probe_complex(&HandleReport::Missing));
}

#[test]
fn native_console_with_vt_is_interactive() {
    let report = HandleReport::Console { vt_enable_ok: true };
    assert_eq!(classify(&report), Classification::NativeVtConsole);
    assert!(probe_complex(&report));
}

#[test]
fn legacy_console_without_vt_is_not_interactive() {
    let report = HandleReport::Console { vt_enable_ok: false };
    assert_eq!(classify(&report), Classification::LegacyConsoleNoVt);
    assert!(!probe_complex(&report));
}

#[test]
fn file_redirection_is_not_interactive() {
    assert_eq!(classify(&HandleReport::FileRedirect), Classification::FileRedirect);
    assert!(!probe_complex(&HandleReport::FileRedirect));
}

#[test]
fn pipe_without_name_is_not_interactive() {
    let report = HandleReport::Pipe { name: None };
    assert_eq!(classify(&report), Classification::PlainPipe);
    assert!(!probe_complex(&report));
}

#[test]
fn conemu_pipe_is_interactive() {
    let report = HandleReport::Pipe { name: Some(wide("\\ConEmuHk1234")) };
    assert_eq!(classify(&report), Classification::EmulatorMatch);
    assert!(probe_complex(&report));
}

#[test]
fn cygwin_pipe_is_interactive() {
    let report = HandleReport::Pipe { name: Some(wide("\\cygwin-abc-pty0-abc")) };
    assert_eq!(classify(&report), Classification::EmulatorMatch);
    assert!(probe_complex(&report));
}

#[test]
fn msys_pipe_is_interactive() {
    let report = HandleReport::Pipe { name: Some(wide("\\msys-abc-pty1-abc")) };
    assert_eq!(classify(&report), Classification::EmulatorMatch);
    assert!(probe_complex(&report));
}

#[test]
fn ordinary_pipe_is_not_interactive() {
    let report = HandleReport::Pipe { name: Some(wide("\\\\.\\pipe\\randomname")) };
    assert_eq!(classify(&report), Classification::PlainPipe);
    assert!(!probe_complex(&report));
}

#[test]
fn prefix_match_is_case_sensitive() {
    assert!(!is_emulator_pipe_name(&wide("\\conemuhk1234")));
    assert!(!is_emulator_pipe_name(&wide("\\Cygwin-abc-pty0-abc")));
    assert!(!is_emulator_pipe_name(&wide("\\MSYS-abc-pty1-abc")));
}

#[test]
fn prefix_match_is_anchored_at_the_start() {
    assert!(!is_emulator_pipe_name(&wide("x\\ConEmuHk1234")));
    assert!(!is_emulator_pipe_name(&wide(" \\cygwin-abc-pty0-abc")));
    assert!(!is_emulator_pipe_name(&wide("pipe\\msys-abc-pty1-abc")));
}

#[test]
fn exact_prefix_alone_matches() {
    assert!(is_emulator_pipe_name(&wide("\\ConEmuHk")));
    assert!(is_emulator_pipe_name(&wide("\\cygwin-")));
    assert!(is_emulator_pipe_name(&wide("\\msys-")));
}

#[test]
fn short_or_empty_names_do_not_match() {
    assert!(!is_emulator_pipe_name(&wide("")));
    assert!(!is_emulator_pipe_name(&wide("\\")));
    assert!(!is_emulator_pipe_name(&wide("\\msys")));
    assert!(!is_emulator_pipe_name(&wide("\\cygwin")));
    assert!(!is_emulator_pipe_name(&wide("\\ConEmuH")));
}

#[test]
fn name_extraction_is_bounded_at_full_capacity() {
    let buf: Vec<u16> = vec![65u16; NAME_WIDE_CAPACITY];
    let exact = extract_reported_name(&buf, (2 * NAME_WIDE_CAPACITY) as u32);
    assert_eq!(exact.len(), NAME_WIDE_CAPACITY);
    let over = extract_reported_name(&buf, (2 * NAME_WIDE_CAPACITY) as u32 + 2);
    assert_eq!(over.len(), NAME_WIDE_CAPACITY);
    let huge = extract_reported_name(&buf, u32::MAX);
    assert_eq!(huge.len(), NAME_WIDE_CAPACITY);
}

#[test]
fn name_extraction_takes_the_reported_wide_length() {
    let mut buf = wide("\\msys-1-pty2-3");
    let name_len = buf.len();
    buf.resize(NAME_WIDE_CAPACITY, 0u16);
    let name = extract_reported_name(&buf, (2 * name_len) as u32);
    assert_eq!(name, wide("\\msys-1-pty2-3"));
    let empty = extract_reported_name(&buf, 0);
    assert!(empty.is_empty());
    let odd = extract_reported_name(&buf, 5);
    assert_eq!(odd, wide("\\m"));
}

#[test]
fn extracted_emulator_name_is_detected() {
    let mut buf = wide("\\cygwin-abc-pty0-abc");
    let name_len = buf.len();
    buf.resize(NAME_WIDE_CAPACITY, 0u16);
    let name = extract_reported_name(&buf, (2 * name_len) as u32);
    let report = HandleReport::Pipe { name: Some(name) };
    assert_eq!(classify(&report), Classification::EmulatorMatch);
    assert!(probe_complex(&report));
}

#[test]
fn repeated_queries_return_the_first_stored_value() {
    let mut cache = InteractivityCache::new();
    assert_eq!(cache.lookup(Stream::Stdout), None);
    assert_eq!(cache.lookup(Stream::Stderr), None);

    assert!(cache.fulfill(Stream::Stdout, true));
    assert_eq!(cache.lookup(Stream::Stdout), Some(true));
    assert_eq!(cache.lookup(Stream::Stderr), None);

    // A later store with a different outcome does not displace the first.
    assert!(cache.fulfill(Stream::Stdout, false));
    assert_eq!(cache.lookup(Stream::Stdout), Some(true));

    assert!(!cache.fulfill(Stream::Stderr, false));
    assert_eq!(cache.lookup(Stream::Stderr), Some(false));
    assert!(!cache.fulfill(Stream::Stderr, true));
    assert_eq!(cache.lookup(Stream::Stderr), Some(false));
    assert_eq!(cache.lookup(Stream::Stdout), Some(true));
}
