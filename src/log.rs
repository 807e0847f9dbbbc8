use std::collections::VecDeque;
use std::marker::PhantomData;
use vstd::prelude::*;

use crate::code_snippet::{get_code_snippet, source_view, window, CodeSnippet};
use crate::frame::{frame_from_symbol, is_capture_machinery, symbol_frame, BacktraceData, FrameView, ResolvedSymbol};
use crate::text::{is_prefix, occurs_in};
use crate::warning::{warning_text, Warning};

verus! {

/// A value that can be sent as the message of a record.
pub trait Message: Sized {

}

impl<T: core::fmt::Debug> Message for T {

}

/// The frames of a stack as values, in order.
pub open spec fn stack_view(q: Seq<BacktraceData>) -> Seq<FrameView> {
    q.map_values(|f: BacktraceData| f@)
}

/// The frames that a walk over `syms` (innermost first) collects: each kept
/// frame is put in front, so the outermost caller comes first and the deepest
/// kept frame last.
pub open spec fn collected(syms: Seq<ResolvedSymbol>) -> Seq<FrameView>
    decreases syms.len(),
{
    if syms.len() == 0 {
        Seq::empty()
    } else {
        let rest = collected(syms.drop_last());
        match symbol_frame(syms.last()) {
            Some(f) => seq![f] + rest,
            None => rest,
        }
    }
}

/// Every frame that a walk collects is kept by the frame filter: none is part
/// of the capture machinery, none comes from the compiler's own sources, and
/// each points at a Rust source file.
pub proof fn lemma_collected_frames_kept(syms: Seq<ResolvedSymbol>)
    ensures
        forall|j: int|
            0 <= j < collected(syms).len() ==> {
                let f = #[trigger] collected(syms)[j];
                &&& !is_capture_machinery(f.0)
                &&& !is_prefix("/rustc/"@, f.1)
                &&& occurs_in(".rs"@, f.1)
            },
    decreases syms.len(),
{
    if syms.len() > 0 {
        lemma_collected_frames_kept(syms.drop_last());
        let rest = collected(syms.drop_last());
        match symbol_frame(syms.last()) {
            Some(f) => {
                assert forall|j: int| 1 <= j < collected(syms).len() implies collected(syms)[j]
                    == rest[j - 1] by {}
            },
            None => {},
        }
    }
}


/// The warnings that a record starts with.
pub open spec fn initial_warnings(debug_info: bool) -> Seq<Seq<char>> {
    if debug_info {
        Seq::empty()
    } else {
        seq![warning_text(Warning::CompiledWithoutDebugInfo)]
    }
}

/// The number of lines shown on each side of the focal line when none is given.
pub const DEFAULT_SURROUND: u32 = 3;

/// The record of one capture, sent to the collector.
#[derive(Debug)]
pub struct Log<T: Message> {
    /// The kept frames, outermost caller first and the deepest frame last.
    pub stack: VecDeque<BacktraceData>,
    /// The line of the deepest frame, or 0.
    pub line_number: u32,
    /// The source lines around `line_number`.
    pub code_snippet: CodeSnippet,
    /// The message, rendered as text.
    pub message: String,
    /// The name of the message's type.
    pub message_type: String,
    /// The file of the deepest frame, or empty.
    pub file_name: String,
    /// The address of the host that captured the record.
    pub address: String,
    /// The descriptions of the warnings raised by the capture.
    pub warnings: Vec<String>,
    pub _t: PhantomData<T>,
}

impl<T: Message> Log<T> {
    /// The warnings as text, in order.
    pub open spec fn warnings_view(&self) -> Seq<Seq<char>> {
        self.warnings@.map_values(|w: String| w@)
    }

    /// A record with no location yet: empty stack, line 0, no file, no snippet,
    /// and the debug-information warning where the build lacks it.
    pub fn new(message: String, message_type: String, debug_info: bool) -> (r: Log<T>)
        ensures
            r.stack@.len() == 0,
            r.line_number == 0,
            r.file_name@ == Seq::<char>::empty(),
            r.code_snippet@ == Map::<u32, Seq<char>>::empty(),
            r.message@ == message@,
            r.message_type@ == message_type@,
            r.address@ == Seq::<char>::empty(),
            r.warnings_view() == initial_warnings(debug_info),
    {
        let mut warnings: Vec<String> = Vec::new();
        if !debug_info {
            warnings.push(Warning::CompiledWithoutDebugInfo.to_string());
        }
        let r = Log {
            stack: VecDeque::new(),
            line_number: 0,
            code_snippet: CodeSnippet::new(),
            message,
            message_type,
            file_name: String::new(),
            address: String::new(),
            warnings,
            _t: PhantomData,
        };
        assert(r.warnings_view() =~= initial_warnings(debug_info));
        r
    }

    /// Walks the resolved symbols, innermost first, and puts each kept frame in
    /// front of the stack.
    pub fn get_stack_trace(&mut self, symbols: &Vec<ResolvedSymbol>)
        ensures
            stack_view(final(self).stack@) == collected(symbols@) + stack_view(old(self).stack@),
            final(self).line_number == old(self).line_number,
            final(self).file_name == old(self).file_name,
            final(self).code_snippet == old(self).code_snippet,
            final(self).message == old(self).message,
            final(self).message_type == old(self).message_type,
            final(self).address == old(self).address,
            final(self).warnings == old(self).warnings,
    {
        let ghost before = stack_view(self.stack@);
        let mut i: usize = 0;
        while i < symbols.len()
            invariant
                i <= symbols.len(),
                stack_view(self.stack@) == collected(symbols@.subrange(0, i as int)) + before,
                self.line_number == old(self).line_number,
                self.file_name == old(self).file_name,
                self.code_snippet == old(self).code_snippet,
                self.message == old(self).message,
                self.message_type == old(self).message_type,
                self.address == old(self).address,
                self.warnings == old(self).warnings,
            decreases symbols.len() - i,
        {
            let ghost prev = self.stack@;
            assert(symbols@.subrange(0, i + 1).drop_last() =~= symbols@.subrange(0, i as int));
            match frame_from_symbol(&symbols[i]) {
                Some(frame) => {
                    self.stack.push_front(frame);
                    assert(stack_view(self.stack@) =~= seq![frame@] + stack_view(prev));
                },
                None => {},
            }
            i = i + 1;
        }
        assert(symbols@.subrange(0, i as int) =~= symbols@);
    }

    /// Takes the last frame of the stack as the deepest: copies its line and
    /// file and reads the window of `surround` lines around it from `source`,
    /// the lines of that file. With an empty stack nothing changes.
    pub fn set_location(&mut self, source: &Vec<Option<String>>, surround: u32)
        ensures
            final(self).stack == old(self).stack,
            final(self).message == old(self).message,
            final(self).message_type == old(self).message_type,
            final(self).address == old(self).address,
            final(self).warnings == old(self).warnings,
            old(self).stack@.len() == 0 ==> {
                &&& final(self).line_number == old(self).line_number
                &&& final(self).file_name == old(self).file_name
                &&& final(self).code_snippet == old(self).code_snippet
            },
            old(self).stack@.len() > 0 ==> {
                let last = old(self).stack@.last();
                &&& final(self).line_number == last.line_number
                &&& final(self).file_name@ == last.file_path@
                &&& final(self).code_snippet@ == window(
                    source_view(source@),
                    last.line_number,
                    surround,
                )
            },
    {
        let n = self.stack.len();
        if n > 0 {
            let line_number = self.stack[n - 1].line_number;
            let file_name = self.stack[n - 1].file_path.clone();
            self.code_snippet = get_code_snippet(source, line_number, surround);
            self.line_number = line_number;
            self.file_name = file_name;
        }
    }

    /// Assembles a record from a collected stack: the location comes from the
    /// stack's last frame, the snippet from `source`, the lines of its file.
    pub fn build(
        message: String,
        message_type: String,
        debug_info: bool,
        surround: Option<u32>,
        stack: VecDeque<BacktraceData>,
        source: &Vec<Option<String>>,
    ) -> (r: Log<T>)
        ensures
            r.stack@ == stack@,
            r.message@ == message@,
            r.message_type@ == message_type@,
            r.address@ == Seq::<char>::empty(),
            r.warnings_view() == initial_warnings(debug_info),
            stack@.len() == 0 ==> {
                &&& r.line_number == 0
                &&& r.file_name@ == Seq::<char>::empty()
                &&& r.code_snippet@ == Map::<u32, Seq<char>>::empty()
            },
            stack@.len() > 0 ==> {
                let s = match surround {
                    Some(s) => s,
                    None => DEFAULT_SURROUND,
                };
                &&& r.line_number == stack@.last().line_number
                &&& r.file_name@ == stack@.last().file_path@
                &&& r.code_snippet@ == window(
                    source_view(source@),
                    stack@.last().line_number,
                    s,
                )
            },
    {
        let surround = match surround {
            Some(s) => s,
            None => DEFAULT_SURROUND,
        };
        let mut log = Log::new(message, message_type, debug_info);
        log.stack = stack;
        log.set_location(source, surround);
        log
    }

    /// Runs `capture` only when `condition` returns true, and says whether it
    /// did: `Ok(false)` when the condition was false (nothing captured),
    /// `Ok(true)` when it was true and the capture succeeded, and the capture's
    /// error when it was true and the capture failed.
    pub fn log_if<F, C, E>(condition: F, capture: C) -> (r: Result<bool, E>) where
        F: FnOnce() -> bool,
        C: FnOnce() -> Result<(), E>,

        requires
            condition.requires(()),
            capture.requires(()),
        ensures
            match r {
                Ok(fired) => condition.ensures((), fired) && (fired ==> capture.ensures(
                    (),
                    Ok(()),
                )),
                Err(e) => condition.ensures((), true) && capture.ensures((), Err(e)),
            },
    {
        let fired = condition();
        if fired {
            let outcome = capture();
            match outcome {
                Ok(_done) => {
                    assert(outcome == Ok::<(), E>(()));
                    Ok(true)
                },
                Err(e) => Err(e),
            }
        } else {
            Ok(false)
        }
    }

    /// As `log_if`, with a boxed condition that may hold state of its own.
    pub fn boxed_log_if<F, C, E>(condition: Box<F>, capture: C) -> (r: Result<bool, E>) where
        F: FnOnce() -> bool,
        C: FnOnce() -> Result<(), E>,

        requires
            (*condition).requires(()),
            capture.requires(()),
        ensures
            match r {
                Ok(fired) => (*condition).ensures((), fired) && (fired ==> capture.ensures(
                    (),
                    Ok(()),
                )),
                Err(e) => (*condition).ensures((), true) && capture.ensures((), Err(e)),
            },
    {
        let condition = *condition;
        Self::log_if(condition, capture)
    }
}

} // verus!
