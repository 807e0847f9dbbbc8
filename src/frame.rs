use vstd::prelude::*;

use crate::code_snippet::{get_code, line_text, source_view};
use crate::text::{
    chars_of, ends_with, is_prefix, is_suffix, normalize_name, normalized_name, occurs_in,
    starts_with,
};

verus! {

/// A frame as values: name, file path, line, column and the code on that line.
pub type FrameView = (Seq<char>, Seq<char>, u32, u32, Seq<char>);

/// One resolved frame of a call stack, with the source line it points at.
#[derive(Debug, Clone)]
pub struct BacktraceData {
    pub name: String,
    pub file_path: String,
    pub line_number: u32,
    pub column_number: u32,
    pub code: String,
}

impl View for BacktraceData {
    type V = FrameView;

    open spec fn view(&self) -> FrameView {
        (self.name@, self.file_path@, self.line_number, self.column_number, self.code@)
    }
}

/// What symbol resolution gave for one frame of the walk, with the lines of
/// its source file (left empty where the frame is not kept).
#[derive(Debug, Clone)]
pub struct ResolvedSymbol {
    pub name: Option<String>,
    pub file_path: Option<String>,
    pub line_number: Option<u32>,
    pub column_number: Option<u32>,
    pub source: Vec<Option<String>>,
}

/// The name is one of the capture entry points or the stack walk itself.
pub open spec fn is_capture_machinery(name: Seq<char>) -> bool {
    is_suffix("Log<T>::log"@, name) || is_suffix("Log<T>::log_if"@, name) || is_suffix(
        "Log<T>::boxed_log_if"@,
        name,
    ) || is_suffix("Log<T>::get_stack_trace"@, name)
}

/// A frame with this (normalized) name and file path is shown: it is not part of
/// the capture machinery, not from the compiler's own sources, and points at a
/// Rust source file.
pub open spec fn frame_kept(name: Seq<char>, file_path: Seq<char>) -> bool {
    &&& !is_capture_machinery(name)
    &&& !is_prefix("/rustc/"@, file_path)
    &&& occurs_in(".rs"@, file_path)
}

/// The displayed name of a symbol: normalized, or empty where none resolved.
pub open spec fn symbol_name(sym: ResolvedSymbol) -> Seq<char> {
    match sym.name {
        Some(n) => normalized_name(n@),
        None => Seq::empty(),
    }
}

/// The frame that a resolved symbol contributes to the stack, if any.
pub open spec fn symbol_frame(sym: ResolvedSymbol) -> Option<FrameView> {
    let name = symbol_name(sym);
    if sym.file_path is Some && sym.line_number is Some && sym.column_number is Some
        && frame_kept(name, sym.file_path->Some_0@) {
        Some(
            (
                name,
                sym.file_path->Some_0@,
                sym.line_number->Some_0,
                sym.column_number->Some_0,
                line_text(source_view(sym.source@), sym.line_number->Some_0),
            ),
        )
    } else {
        None
    }
}

/// Whether a frame with this normalized name and file path is kept in a stack.
pub fn keeps_frame(name: &str, file_path: &str) -> (r: bool)
    ensures
        r == frame_kept(name@, file_path@),
{
    let n = chars_of(name);
    let p = chars_of(file_path);
    let log = chars_of("Log<T>::log");
    let log_if = chars_of("Log<T>::log_if");
    let boxed = chars_of("Log<T>::boxed_log_if");
    let walk = chars_of("Log<T>::get_stack_trace");
    let rustc = chars_of("/rustc/");
    let ext = chars_of(".rs");
    proof {
        reveal_strlit("Log<T>::log");
        reveal_strlit("Log<T>::log_if");
        reveal_strlit("Log<T>::boxed_log_if");
        reveal_strlit("Log<T>::get_stack_trace");
        reveal_strlit("/rustc/");
        reveal_strlit(".rs");
    }
    let machinery = ends_with(&n, &log) || ends_with(&n, &log_if) || ends_with(&n, &boxed)
        || ends_with(&n, &walk);
    !machinery && !starts_with(&p, &rustc) && crate::text::contains(&p, &ext)
}

/// The frame that a resolved symbol contributes to the stack: none unless file,
/// line and column all resolved and the frame is kept.
pub fn frame_from_symbol(sym: &ResolvedSymbol) -> (r: Option<BacktraceData>)
    ensures
        match r {
            Some(f) => symbol_frame(*sym) == Some(f@),
            None => symbol_frame(*sym) is None,
        },
{
    let name = match &sym.name {
        Some(n) => normalize_name(n.as_str()),
        None => String::new(),
    };
    match (&sym.file_path, sym.line_number, sym.column_number) {
        (Some(file_path), Some(line_number), Some(column_number)) => {
            if keeps_frame(name.as_str(), file_path.as_str()) {
                let code = get_code(&sym.source, line_number);
                Some(
                    BacktraceData {
                        name,
                        file_path: file_path.clone(),
                        line_number,
                        column_number,
                        code,
                    },
                )
            } else {
                None
            }
        },
        _ => None,
    }
}

} // verus!
