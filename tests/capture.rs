use std::cell::Cell;
use std::collections::VecDeque;

use codectrl_logger::code_snippet::{get_code, get_code_snippet};
use codectrl_logger::frame::{frame_from_symbol, keeps_frame};
use codectrl_logger::text::normalize_name;
use codectrl_logger::transport::endpoint;
use codectrl_logger::{BacktraceData, CodeSnippet, Log, ResolvedSymbol, Warning};

fn ten_lines() -> Vec<Option<String>> {
    (1..=10).map(|i| Some(format!("  line {}  ", i))).collect()
}

fn keys(c: &CodeSnippet) -> Vec<u32> {
    c.0.keys().copied().collect()
}

fn symbol(name: &str, file: &str, line: u32, source: Vec<Option<String>>) -> ResolvedSymbol {
    ResolvedSymbol {
        name: Some(name.to_string()),
        file_path: Some(file.to_string()),
        line_number: Some(line),
        column_number: Some(7),
        source,
    }
}

fn frame(name: &str, file: &str, line: u32) -> BacktraceData {
    BacktraceData {
        name: name.to_string(),
        file_path: file.to_string(),
        line_number: line,
        column_number: 1,
        code: String::new(),
    }
}

#[test]
fn warning_text_is_fixed() {
    assert_eq!(
        Warning::CompiledWithoutDebugInfo.to_string(),
        "File was compiled without debug info, meaning information was lost"
    );
}

#[test]
fn normalize_strips_last_segment() {
    assert_eq!(normalize_name("mod::Type::method::h1a2b3"), "mod::Type::method");
    assert_eq!(normalize_name("app::main::h0011"), "app::main");
}

#[test]
fn normalize_keeps_name_without_separator() {
    assert_eq!(normalize_name("main"), "main");
    assert_eq!(normalize_name(""), "");
}

#[test]
fn normalize_splits_left_to_right() {
    assert_eq!(normalize_name("a:::b"), "a");
    assert_eq!(normalize_name("a::b::"), "a::b");
}

#[test]
fn filter_rejects_runtime_and_machinery() {
    assert!(keeps_frame("app::work", "/home/me/app/src/main.rs"));
    assert!(!keeps_frame("core::ops::call", "/rustc/abc123/library/core/src/ops.rs"));
    assert!(!keeps_frame("codectrl::Log<T>::log", "/home/me/app/src/lib.rs"));
    assert!(!keeps_frame("codectrl::Log<T>::log_if", "/home/me/app/src/lib.rs"));
    assert!(!keeps_frame("codectrl::Log<T>::boxed_log_if", "/home/me/app/src/lib.rs"));
    assert!(!keeps_frame("codectrl::Log<T>::get_stack_trace", "/home/me/app/src/lib.rs"));
    assert!(!keeps_frame("app::work", "/usr/lib/libc.so.6"));
}

#[test]
fn read_line_trims_text() {
    assert_eq!(get_code(&ten_lines(), 4), "line 4");
    assert_eq!(get_code(&ten_lines(), 10), "line 10");
}

#[test]
fn read_line_past_end_is_empty() {
    assert_eq!(get_code(&ten_lines(), 11), "");
    assert_eq!(get_code(&Vec::new(), 1), "");
}

#[test]
fn read_line_unreadable_is_empty() {
    let mut lines = ten_lines();
    lines[2] = None;
    assert_eq!(get_code(&lines, 3), "");
}

#[test]
fn read_line_zero_reads_first_line() {
    assert_eq!(get_code(&ten_lines(), 0), "line 1");
}

#[test]
fn window_around_line_five() {
    let snippet = get_code_snippet(&ten_lines(), 5, 2);
    assert_eq!(keys(&snippet), vec![3, 4, 5, 6, 7]);
    assert_eq!(snippet.0[&3], "  line 3  ");
    assert_eq!(snippet.0[&7], "  line 7  ");
}

#[test]
fn window_clipped_at_end() {
    let snippet = get_code_snippet(&ten_lines(), 9, 3);
    assert_eq!(keys(&snippet), vec![6, 7, 8, 9, 10]);
}

#[test]
fn window_clipped_at_start() {
    let snippet = get_code_snippet(&ten_lines(), 2, 3);
    assert_eq!(keys(&snippet), vec![1, 2, 3, 4, 5]);
}

#[test]
fn window_skips_unreadable_line() {
    let mut lines = ten_lines();
    lines[5] = None;
    let snippet = get_code_snippet(&lines, 5, 2);
    assert_eq!(keys(&snippet), vec![3, 4, 5, 7]);
}

#[test]
fn window_of_empty_file_is_empty() {
    assert!(get_code_snippet(&Vec::new(), 5, 3).0.is_empty());
}

#[test]
fn window_with_large_surround() {
    let snippet = get_code_snippet(&ten_lines(), u32::MAX, u32::MAX);
    assert_eq!(keys(&snippet), (1..=10).collect::<Vec<u32>>());
}

#[test]
fn frame_from_symbol_reads_code() {
    let f = frame_from_symbol(&symbol("app::work::h12", "/src/app.rs", 4, ten_lines())).unwrap();
    assert_eq!(f.name, "app::work");
    assert_eq!(f.file_path, "/src/app.rs");
    assert_eq!(f.line_number, 4);
    assert_eq!(f.column_number, 7);
    assert_eq!(f.code, "line 4");
}

#[test]
fn frame_from_symbol_without_name_is_kept() {
    let mut s = symbol("x", "/src/app.rs", 1, ten_lines());
    s.name = None;
    let f = frame_from_symbol(&s).unwrap();
    assert_eq!(f.name, "");
}

#[test]
fn frame_from_symbol_needs_location() {
    let mut s = symbol("app::work::h1", "/src/app.rs", 1, ten_lines());
    s.column_number = None;
    assert!(frame_from_symbol(&s).is_none());
}

#[test]
fn stack_trace_filters_and_orders() {
    let walk = vec![
        symbol("codectrl::Log<T>::get_stack_trace::h1", "/src/lib.rs", 1, vec![]),
        symbol("app::inner::h2", "/src/inner.rs", 2, ten_lines()),
        symbol("codectrl::Log<T>::log::h3", "/src/lib.rs", 3, vec![]),
        symbol("std::rt::lang_start::h4", "/rustc/0a1b/library/std/src/rt.rs", 4, vec![]),
        symbol("app::outer::h5", "/src/outer.rs", 5, ten_lines()),
        symbol("libc_start::h6", "/usr/lib/libc.so", 6, vec![]),
    ];
    let mut log: Log<u32> = Log::new("1".to_string(), "u32".to_string(), true);
    log.get_stack_trace(&walk);
    let names: Vec<&str> = log.stack.iter().map(|f| f.name.as_str()).collect();
    assert_eq!(names, vec!["app::outer", "app::inner"]);
    assert_eq!(log.stack[1].code, "line 2");
    assert!(log.stack.iter().all(|f| !f.file_path.starts_with("/rustc/")));
}

#[test]
fn build_with_empty_stack() {
    let log: Log<&str> = Log::build(
        "\"hi\"".to_string(),
        "&str".to_string(),
        true,
        None,
        VecDeque::new(),
        &ten_lines(),
    );
    assert_eq!(log.line_number, 0);
    assert_eq!(log.file_name, "");
    assert!(log.code_snippet.0.is_empty());
    assert!(log.warnings.is_empty());
    assert_eq!(log.message, "\"hi\"");
    assert_eq!(log.message_type, "&str");
}

#[test]
fn build_copies_last_frame() {
    let stack: VecDeque<BacktraceData> =
        vec![frame("app::outer", "/src/outer.rs", 2), frame("app::inner", "/src/inner.rs", 5)]
            .into_iter()
            .collect();
    let log: Log<u8> =
        Log::build("7".to_string(), "u8".to_string(), true, Some(2), stack, &ten_lines());
    assert_eq!(log.line_number, 5);
    assert_eq!(log.file_name, "/src/inner.rs");
    assert_eq!(keys(&log.code_snippet), vec![3, 4, 5, 6, 7]);
    assert_eq!(log.stack.len(), 2);
}

#[test]
fn build_uses_default_surround() {
    let stack: VecDeque<BacktraceData> = vec![frame("app::f", "/src/f.rs", 5)].into_iter().collect();
    let log: Log<u8> = Log::build("7".to_string(), "u8".to_string(), true, None, stack, &ten_lines());
    assert_eq!(keys(&log.code_snippet), vec![2, 3, 4, 5, 6, 7, 8]);
}

#[test]
fn build_without_debug_info_warns() {
    let log: Log<u8> =
        Log::build("7".to_string(), "u8".to_string(), false, None, VecDeque::new(), &Vec::new());
    assert_eq!(log.warnings, vec![Warning::CompiledWithoutDebugInfo.to_string()]);
}

#[test]
fn log_if_false_does_not_capture() {
    let called = Cell::new(false);
    let r: Result<bool, String> = Log::<u8>::log_if(
        || false,
        || {
            called.set(true);
            Ok(())
        },
    );
    assert_eq!(r, Ok(false));
    assert!(!called.get());
}

#[test]
fn log_if_true_captures() {
    let called = Cell::new(false);
    let r: Result<bool, String> = Log::<u8>::log_if(
        || true,
        || {
            called.set(true);
            Ok(())
        },
    );
    assert_eq!(r, Ok(true));
    assert!(called.get());
}

#[test]
fn log_if_passes_capture_error() {
    let r: Result<bool, String> = Log::<u8>::log_if(|| true, || Err("refused".to_string()));
    assert_eq!(r, Err("refused".to_string()));
}

#[test]
fn boxed_log_if_uses_outer_state() {
    let threshold = 3;
    let value = 5;
    let r: Result<bool, String> =
        Log::<u8>::boxed_log_if(Box::new(move || value > threshold), || Ok(()));
    assert_eq!(r, Ok(true));
    let r: Result<bool, String> =
        Log::<u8>::boxed_log_if(Box::new(move || value < threshold), || Ok(()));
    assert_eq!(r, Ok(false));
}

#[test]
fn endpoint_defaults() {
    assert_eq!(endpoint(None, None), "127.0.0.1:3001");
    assert_eq!(endpoint(Some("10.0.0.2"), None), "10.0.0.2:3001");
    assert_eq!(endpoint(None, Some("4000")), "127.0.0.1:4000");
    assert_eq!(endpoint(Some("host"), Some("1")), "host:1");
}
