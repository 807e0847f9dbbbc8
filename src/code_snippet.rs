use std::collections::BTreeMap;
use vstd::prelude::*;

use crate::text::{trim, trimmed};

verus! {

broadcast use vstd::laws_cmp::group_laws_cmp;

/// The lines of a source file, each as text, or as nothing where the line
/// could not be read.
pub open spec fn source_view(lines: Seq<Option<String>>) -> Seq<Option<Seq<char>>> {
    Seq::new(
        lines.len(),
        |i: int|
            match lines[i] {
                Some(s) => Some(s@),
                None => None,
            },
    )
}

/// The index of a 1-based line number; line 0 is read as the first line.
pub open spec fn line_index(n: u32) -> int {
    if n == 0 {
        0
    } else {
        n - 1
    }
}

/// The trimmed text of line `n`, or nothing past the end of the file or on an
/// unreadable line.
pub open spec fn line_text(src: Seq<Option<Seq<char>>>, n: u32) -> Seq<char> {
    let i = line_index(n);
    if i < src.len() && src[i] is Some {
        trimmed(src[i]->Some_0)
    } else {
        Seq::empty()
    }
}

/// The first line of the window around `n`: `max(1, n - s)`.
pub open spec fn window_start(n: u32, s: u32) -> int {
    if n - s < 1 {
        1
    } else {
        n - s
    }
}

/// The last line of the window around `n`: `min(len, n + s)`.
pub open spec fn window_end(len: nat, n: u32, s: u32) -> int {
    if n + s < len {
        n + s
    } else {
        len as int
    }
}

/// Line `k` is in the window of `s` lines around `n`, and could be read.
pub open spec fn in_window(src: Seq<Option<Seq<char>>>, n: u32, s: u32, k: u32) -> bool {
    window_start(n, s) <= k <= window_end(src.len(), n, s) && src[k - 1] is Some
}

/// The window of `s` lines on each side of line `n`, clipped to the file, with
/// each readable line keyed by its number.
pub open spec fn window(src: Seq<Option<Seq<char>>>, n: u32, s: u32) -> Map<u32, Seq<char>> {
    Map::new(|k: u32| in_window(src, n, s, k), |k: u32| src[k - 1]->Some_0)
}

/// Source lines around a focal line, keyed by their line number in ascending order.
#[derive(Debug, Clone)]
pub struct CodeSnippet(pub BTreeMap<u32, String>);

impl View for CodeSnippet {
    type V = Map<u32, Seq<char>>;

    open spec fn view(&self) -> Map<u32, Seq<char>> {
        self.0@.map_values(|v: String| v@)
    }
}

impl CodeSnippet {
    /// A snippet with no lines.
    pub fn new() -> (r: CodeSnippet)
        ensures
            r@ == Map::<u32, Seq<char>>::empty(),
    {
        let r = CodeSnippet(BTreeMap::new());
        assert(r@ =~= Map::<u32, Seq<char>>::empty());
        r
    }
}

/// The trimmed text of the 1-based line `line_number` of a file given by its
/// lines; empty past the end of the file or on a line that could not be read.
pub fn get_code(lines: &Vec<Option<String>>, line_number: u32) -> (r: String)
    ensures
        r@ == line_text(source_view(lines@), line_number),
        line_number > lines@.len() ==> r@ == Seq::<char>::empty(),
{
    let i: usize = if line_number == 0 {
        0
    } else {
        (line_number - 1) as usize
    };
    if i < lines.len() {
        match &lines[i] {
            Some(text) => trim(text.as_str()),
            None => String::new(),
        }
    } else {
        String::new()
    }
}

/// The lines from `max(1, line_number - surround)` to
/// `min(last line, line_number + surround)` of a file given by its lines, each
/// readable one keyed by its line number.
pub fn get_code_snippet(lines: &Vec<Option<String>>, line_number: u32, surround: u32) -> (r:
    CodeSnippet)
    ensures
        r@ == window(source_view(lines@), line_number, surround),
        forall|k: u32| #[trigger] r@.contains_key(k) ==> 1 <= k <= lines@.len(),
{
    let ghost src = source_view(lines@);
    let start: u64 = if line_number <= surround {
        1
    } else {
        (line_number - surround) as u64
    };
    let reach: u64 = line_number as u64 + surround as u64;
    let last: u64 = if reach < lines.len() as u64 {
        reach
    } else {
        lines.len() as u64
    };
    let end: u64 = if last < 0xffff_ffff {
        last
    } else {
        0xffff_ffff
    };
    let mut map: BTreeMap<u32, String> = BTreeMap::new();
    let mut k: u64 = start;
    while k <= end
        invariant
            src == source_view(lines@),
            start == window_start(line_number, surround),
            end <= window_end(lines@.len(), line_number, surround),
            end == window_end(lines@.len(), line_number, surround) || end == u32::MAX,
            end <= u32::MAX,
            end <= lines@.len(),
            1 <= start <= k,
            forall|j: u32| #[trigger]
                map@.contains_key(j) <==> (in_window(src, line_number, surround, j) && j < k),
            forall|j: u32| #[trigger]
                map@.contains_key(j) ==> map@[j]@ == src[j - 1]->Some_0,
        decreases end + 1 - k,
    {
        let key = k as u32;
        match &lines[(k - 1) as usize] {
            Some(text) => {
                map.insert(key, text.clone());
            },
            None => {},
        }
        k = k + 1;
    }
    let r = CodeSnippet(map);
    assert(r@ =~= window(src, line_number, surround));
    r
}

} // verus!
