use vstd::prelude::*;

verus! {

/// `p` is a prefix of `s`.
pub open spec fn is_prefix(p: Seq<char>, s: Seq<char>) -> bool {
    p.len() <= s.len() && s.subrange(0, p.len() as int) == p
}

/// `p` is a suffix of `s`.
pub open spec fn is_suffix(p: Seq<char>, s: Seq<char>) -> bool {
    p.len() <= s.len() && s.subrange(s.len() - p.len(), s.len() as int) == p
}

/// `p` occurs in `s` at position `i`.
pub open spec fn occurs_at(p: Seq<char>, s: Seq<char>, i: int) -> bool {
    0 <= i && i + p.len() <= s.len() && s.subrange(i, i + p.len()) == p
}

/// `p` occurs somewhere in `s`.
pub open spec fn occurs_in(p: Seq<char>, s: Seq<char>) -> bool {
    exists|i: int| occurs_at(p, s, i)
}

/// Scanning `s` from `i` onwards, left to right, splitting at every `::` that does
/// not overlap the previous one: the start of the last separator seen, or `last`
/// if there is none after `i`.
pub open spec fn last_separator_from(s: Seq<char>, i: int, last: int) -> int
    decreases s.len() - i,
{
    if i < 0 || i + 2 > s.len() {
        last
    } else if s[i] == ':' && s[i + 1] == ':' {
        last_separator_from(s, i + 2, i)
    } else {
        last_separator_from(s, i + 1, last)
    }
}

/// A symbol name without its final `::`-delimited segment; a name with no
/// separator stays as it is.
pub open spec fn normalized_name(s: Seq<char>) -> Seq<char> {
    let p = last_separator_from(s, 0, -1);
    if p < 0 {
        s
    } else {
        s.subrange(0, p)
    }
}

/// No `::` starts at or after position `i` of `s`.
pub open spec fn no_separator_from(s: Seq<char>, i: int) -> bool {
    forall|k: int| i <= k && k + 1 < s.len() ==> !(#[trigger] s[k] == ':' && s[k + 1] == ':')
}

proof fn lemma_scan_without_separator(s: Seq<char>, i: int, last: int)
    requires
        0 <= i,
        no_separator_from(s, i),
    ensures
        last_separator_from(s, i, last) == last,
    decreases s.len() - i,
{
    if i + 2 <= s.len() {
        assert(!(s[i] == ':' && s[i + 1] == ':'));
        lemma_scan_without_separator(s, i + 1, last);
    }
}

proof fn lemma_scan_reaches_separator(s: Seq<char>, i: int, last: int, m: int)
    requires
        0 <= i <= m,
        m + 1 < s.len(),
        s[m] == ':' && s[m + 1] == ':',
        m == 0 || s[m - 1] != ':',
    ensures
        last_separator_from(s, i, last) == last_separator_from(s, m + 2, m),
    decreases m - i,
{
    if i < m {
        if s[i] == ':' && s[i + 1] == ':' {
            lemma_scan_reaches_separator(s, i + 2, i, m);
        } else {
            lemma_scan_reaches_separator(s, i + 1, last, m);
        }
    }
}

/// Normalization strips exactly the final `::`-delimited segment: a name
/// `p::q`, whose last segment `q` holds no colon and whose head `p` does not
/// end in one, becomes `p`; a name without `::` is left unchanged.
pub proof fn lemma_normalize_strips_last_segment(p: Seq<char>, q: Seq<char>, plain: Seq<char>)
    ensures
        (forall|k: int| 0 <= k < q.len() ==> q[k] != ':') && (p.len() == 0 || p.last() != ':')
            ==> normalized_name(p + "::"@ + q) == p,
        !occurs_in("::"@, plain) ==> normalized_name(plain) == plain,
{
    reveal_strlit("::");
    let s = p + "::"@ + q;
    let m = p.len() as int;
    if (forall|k: int| 0 <= k < q.len() ==> q[k] != ':') && (p.len() == 0 || p.last() != ':') {
        assert(s[m] == ':' && s[m + 1] == ':');
        assert(m == 0 || s[m - 1] != ':');
        lemma_scan_reaches_separator(s, 0, -1, m);
        assert forall|k: int| m + 2 <= k && k + 1 < s.len() implies !(#[trigger] s[k] == ':'
            && s[k + 1] == ':') by {
            assert(s[k] == q[k - m - 2]);
        }
        lemma_scan_without_separator(s, m + 2, m);
        assert(s.subrange(0, m) =~= p);
    }
    if !occurs_in("::"@, plain) {
        assert forall|k: int| 0 <= k && k + 1 < plain.len() implies !(#[trigger] plain[k] == ':'
            && plain[k + 1] == ':') by {
            if plain[k] == ':' && plain[k + 1] == ':' {
                assert(plain.subrange(k, k + 2) =~= "::"@);
                assert(occurs_at("::"@, plain, k));
            }
        }
        lemma_scan_without_separator(plain, 0, -1);
    }
}


/// What `str::trim` gives for a string.
pub uninterp spec fn trimmed(s: Seq<char>) -> Seq<char>;

/// Relies on `str::chars`: the characters of the string, in order.
#[verifier::external_body]
pub(crate) fn chars_of(s: &str) -> (r: Vec<char>)
    ensures
        r@ == s@,
{
    s.chars().collect()
}

/// Relies on `String: FromIterator<char>`: the string made of these characters.
#[verifier::external_body]
pub(crate) fn string_of(v: &Vec<char>) -> (r: String)
    ensures
        r@ == v@,
{
    v.iter().collect()
}

/// Relies on `str::trim`: the string without leading and trailing whitespace.
#[verifier::external_body]
pub(crate) fn trim(s: &str) -> (r: String)
    ensures
        r@ == trimmed(s@),
{
    s.trim().to_string()
}

/// Whether `s` holds `p` at position `at`.
pub fn matches_at(s: &Vec<char>, p: &Vec<char>, at: usize) -> (r: bool)
    ensures
        r == occurs_at(p@, s@, at as int),
{
    if at > s.len() || p.len() > s.len() - at {
        return false;
    }
    let mut j: usize = 0;
    while j < p.len()
        invariant
            at + p.len() <= s.len(),
            j <= p.len(),
            forall|k: int| 0 <= k < j ==> s@[at + k] == p@[k],
        decreases p.len() - j,
    {
        if s[at + j] != p[j] {
            assert(s@.subrange(at as int, at + p.len())[j as int] != p@[j as int]);
            return false;
        }
        j = j + 1;
    }
    assert(s@.subrange(at as int, at + p.len()) =~= p@);
    true
}

/// Whether `s` begins with `p`.
pub fn starts_with(s: &Vec<char>, p: &Vec<char>) -> (r: bool)
    ensures
        r == is_prefix(p@, s@),
{
    matches_at(s, p, 0)
}

/// Whether `s` ends with `p`.
pub fn ends_with(s: &Vec<char>, p: &Vec<char>) -> (r: bool)
    ensures
        r == is_suffix(p@, s@),
{
    if p.len() > s.len() {
        false
    } else {
        matches_at(s, p, s.len() - p.len())
    }
}

/// Whether `p` occurs anywhere in `s`.
pub fn contains(s: &Vec<char>, p: &Vec<char>) -> (r: bool)
    ensures
        r == occurs_in(p@, s@),
{
    if p.len() > s.len() {
        return false;
    }
    let mut i: usize = 0;
    while i < s.len() - p.len()
        invariant
            p.len() <= s.len(),
            i <= s.len() - p.len(),
            forall|k: int| 0 <= k < i ==> !occurs_at(p@, s@, k),
        decreases s.len() - p.len() - i,
    {
        if matches_at(s, p, i) {
            return true;
        }
        i = i + 1;
    }
    if matches_at(s, p, i) {
        return true;
    }
    assert forall|k: int| !occurs_at(p@, s@, k) by {
        if 0 <= k && k + p@.len() <= s@.len() {
            assert(k <= i);
        }
    }
    false
}

/// A symbol name with its final `::`-delimited segment stripped, the way a
/// split at `::` that drops its last piece and joins the rest again would.
pub fn normalize_name(symbol: &str) -> (r: String)
    ensures
        r@ == normalized_name(symbol@),
{
    let s = chars_of(symbol);
    let mut i: usize = 0;
    let mut found = false;
    let mut last: usize = 0;
    while s.len() >= 2 && i <= s.len() - 2
        invariant
            s@ == symbol@,
            i <= s.len() + 1,
            found ==> last < i && last < s.len(),
            last_separator_from(s@, i as int, if found { last as int } else { -1 })
                == last_separator_from(s@, 0, -1),
        decreases s.len() + 2 - i,
    {
        if s[i] == ':' && s[i + 1] == ':' {
            found = true;
            last = i;
            i = i + 2;
        } else {
            i = i + 1;
        }
    }
    if !found {
        string_of(&s)
    } else {
        let mut out: Vec<char> = Vec::new();
        let mut k: usize = 0;
        while k < last
            invariant
                last < s.len(),
                k <= last,
                out@ == s@.subrange(0, k as int),
            decreases last - k,
        {
            out.push(s[k]);
            k = k + 1;
            assert(out@ =~= s@.subrange(0, k as int));
        }
        string_of(&out)
    }
}

} // verus!
