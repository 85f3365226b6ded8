//! Text helpers over `&str` and `String`, stated over their `Seq<char>` views.
use vstd::prelude::*;

verus! {

/// Whether two texts hold the same characters.
pub fn str_eq(a: &str, b: &str) -> (r: bool)
    ensures
        r == (a@ == b@),
{
    let n = a.unicode_len();
    if n != b.unicode_len() {
        return false;
    }
    let mut i: usize = 0;
    while i < n
        invariant
            n == a@.len(),
            n == b@.len(),
            i <= n,
            forall|j: int| 0 <= j < i ==> a@[j] == b@[j],
        decreases n - i,
    {
        if a.get_char(i) != b.get_char(i) {
            return false;
        }
        i = i + 1;
    }
    assert(a@ =~= b@);
    true
}

} // verus!

verus! {

/// The characters of a text, in order.
pub fn chars_of(s: &str) -> (r: Vec<char>)
    ensures
        r@ == s@,
{
    let mut r: Vec<char> = Vec::new();
    for c in it: s.chars()
        invariant
            it.seq() == s@,
            r@ == it.seq().take(it.index() as int),
    {
        r.push(c);
        assert(r@ =~= it.seq().take(it.index() + 1));
    }
    assert(r@ =~= s@);
    r
}

/// How many line feeds `s` holds.
pub open spec fn newline_count(s: Seq<char>) -> nat
    decreases s.len(),
{
    if s.len() == 0 {
        0
    } else {
        newline_count(s.drop_last()) + if s.last() == '\n' { 1nat } else { 0nat }
    }
}

/// How many lines `str::lines` yields for `s`: none for an empty text, and
/// otherwise one per line feed, plus one for a last line that no line feed
/// ends. A `\r` before a line feed changes no count.
pub open spec fn line_count(s: Seq<char>) -> nat {
    if s.len() == 0 {
        0
    } else if s.last() == '\n' {
        newline_count(s)
    } else {
        newline_count(s) + 1
    }
}

proof fn lemma_newline_count_bound(s: Seq<char>)
    ensures
        newline_count(s) <= s.len(),
    decreases s.len(),
{
    if s.len() > 0 {
        lemma_newline_count_bound(s.drop_last());
    }
}

/// The number of lines in a text, as `str::lines` counts them.
pub fn count_lines(content: &str) -> (n: usize)
    ensures
        n == line_count(content@),
{
    let cs = chars_of(content);
    let len = cs.len();
    let mut count: usize = 0;
    let mut i: usize = 0;
    while i < len
        invariant
            len == cs@.len(),
            cs@ == content@,
            i <= len,
            count == newline_count(cs@.take(i as int)),
        decreases len - i,
    {
        proof {
            assert(cs@.take(i + 1).drop_last() =~= cs@.take(i as int));
            lemma_newline_count_bound(cs@.take(i as int));
        }
        if cs[i] == '\n' {
            count = count + 1;
        }
        i = i + 1;
    }
    assert(cs@.take(len as int) =~= cs@);
    if len == 0 || cs[len - 1] == '\n' {
        count
    } else {
        proof {
            lemma_newline_count_bound(cs@.drop_last());
        }
        count + 1
    }
}

/// The position just after the last line feed of `s`, or 0 when it has none.
pub open spec fn after_last_newline(s: Seq<char>) -> nat
    decreases s.len(),
{
    if s.len() == 0 {
        0
    } else if s.last() == '\n' {
        s.len()
    } else {
        after_last_newline(s.drop_last())
    }
}

proof fn lemma_after_last_newline(s: Seq<char>, k: int)
    requires
        0 <= k <= s.len(),
        k == 0 || s[k - 1] == '\n',
        forall|i: int| k <= i < s.len() ==> s[i] != '\n',
    ensures
        after_last_newline(s) == k,
    decreases s.len(),
{
    if s.len() > 0 && k < s.len() {
        assert(s.last() != '\n');
        let t = s.drop_last();
        assert forall|i: int| k <= i < t.len() implies t[i] != '\n' by {
            assert(t[i] == s[i]);
        }
        lemma_after_last_newline(t, k);
    }
}

/// The last line of a text, as `str::lines` yields it (split at `\n`, one
/// `\r` before the `\n` dropped, no empty line after a final `\n`), when that
/// line exists and is not empty.
pub open spec fn last_nonempty_line(content: Seq<char>) -> Option<Seq<char>> {
    let ends_with_newline = content.len() > 0 && content.last() == '\n';
    let body = if ends_with_newline { content.drop_last() } else { content };
    let seg = body.subrange(after_last_newline(body) as int, body.len() as int);
    let line = if ends_with_newline && seg.len() > 0 && seg.last() == '\r' { seg.drop_last() } else { seg };
    if line.len() == 0 { None } else { Some(line) }
}

/// The last line of a text, if it is not empty.
pub fn last_line(content: &str) -> (r: Option<String>)
    ensures
        match r {
            Some(l) => last_nonempty_line(content@) == Some(l@),
            None => last_nonempty_line(content@) is None,
        },
{
    let cs = chars_of(content);
    let n = cs.len();
    let ends_with_newline = n > 0 && cs[n - 1] == '\n';
    let body_end: usize = if ends_with_newline { n - 1 } else { n };
    let ghost body = cs@.subrange(0, body_end as int);
    let mut start: usize = body_end;
    while start > 0 && cs[start - 1] != '\n'
        invariant
            start <= body_end <= n,
            n == cs@.len(),
            body == cs@.subrange(0, body_end as int),
            forall|i: int| start <= i < body_end ==> cs@[i] != '\n',
        decreases start,
    {
        start = start - 1;
    }
    proof {
        lemma_after_last_newline(body, start as int);
    }
    let mut end = body_end;
    if ends_with_newline && end > start && cs[end - 1] == '\r' {
        end = end - 1;
    }
    if end == start {
        proof {
            if ends_with_newline {
                assert(body =~= content@.drop_last());
            } else {
                assert(body =~= content@);
            }
        }
        None
    } else {
        let line = content.substring_char(start, end);
        proof {
            if ends_with_newline {
                assert(body =~= content@.drop_last());
            } else {
                assert(body =~= content@);
            }
            let seg = body.subrange(after_last_newline(body) as int, body.len() as int);
            assert(seg =~= cs@.subrange(start as int, body_end as int));
            if end < body_end {
                assert(seg.drop_last() =~= cs@.subrange(start as int, end as int));
            }
        }
        Some(String::from_str(line))
    }
}

} // verus!

verus! {

/// Whether `c` has the Unicode `White_Space` property, which is what
/// `char::is_whitespace` tests.
pub open spec fn is_unicode_whitespace(c: char) -> bool {
    let u = c as u32;
    (0x9 <= u <= 0xd) || u == 0x20 || u == 0x85 || u == 0xa0 || u == 0x1680
        || (0x2000 <= u <= 0x200a) || u == 0x2028 || u == 0x2029 || u == 0x202f
        || u == 0x205f || u == 0x3000
}

/// `s` without its leading whitespace.
pub open spec fn trim_start_ws(s: Seq<char>) -> Seq<char>
    decreases s.len(),
{
    if s.len() > 0 && is_unicode_whitespace(s[0]) {
        trim_start_ws(s.drop_first())
    } else {
        s
    }
}

/// `s` without its trailing whitespace.
pub open spec fn trim_end_ws(s: Seq<char>) -> Seq<char>
    decreases s.len(),
{
    if s.len() > 0 && is_unicode_whitespace(s.last()) {
        trim_end_ws(s.drop_last())
    } else {
        s
    }
}

/// `s` without leading and trailing whitespace.
pub open spec fn trim_ws(s: Seq<char>) -> Seq<char> {
    trim_start_ws(trim_end_ws(s))
}

/// Trimming the front leaves a suffix that is empty or starts with a
/// non-whitespace character; the suffix starts at the returned position.
pub proof fn lemma_trim_start_shape(s: Seq<char>) -> (k: int)
    ensures
        0 <= k <= s.len(),
        trim_start_ws(s) == s.skip(k),
        trim_start_ws(s).len() == 0 || !is_unicode_whitespace(trim_start_ws(s)[0]),
    decreases s.len(),
{
    if s.len() > 0 && is_unicode_whitespace(s[0]) {
        let k1 = lemma_trim_start_shape(s.drop_first());
        assert(s.drop_first().skip(k1) =~= s.skip(k1 + 1));
        k1 + 1
    } else {
        assert(s.skip(0) =~= s);
        0
    }
}

/// Trimming the end leaves a text that is empty or ends with a
/// non-whitespace character.
pub proof fn lemma_trim_end_shape(s: Seq<char>)
    ensures
        trim_end_ws(s).len() == 0 || !is_unicode_whitespace(trim_end_ws(s).last()),
    decreases s.len(),
{
    if s.len() > 0 && is_unicode_whitespace(s.last()) {
        lemma_trim_end_shape(s.drop_last());
    }
}

/// A text that neither starts nor ends with whitespace is its own trim.
pub proof fn lemma_trim_of_trimmed(s: Seq<char>)
    requires
        s.len() == 0 || (!is_unicode_whitespace(s[0]) && !is_unicode_whitespace(s.last())),
    ensures
        trim_ws(s) == s,
{
}

/// Trimming twice is trimming once.
pub proof fn lemma_trim_idempotent(s: Seq<char>)
    ensures
        trim_ws(trim_ws(s)) == trim_ws(s),
{
    let e = trim_end_ws(s);
    lemma_trim_end_shape(s);
    let k = lemma_trim_start_shape(e);
    let t = trim_ws(s);
    if t.len() > 0 {
        assert(t.last() == e.last());
    }
    lemma_trim_of_trimmed(t);
}

/// `s` with leading and trailing whitespace removed, by
/// `str::trim` and `str::to_string`. Claims what the documentation of
/// `str::trim` says: whitespace as the Unicode `White_Space` property
/// defines it is removed from both ends.
#[verifier::external_body]
pub(crate) fn trim_text(s: &str) -> (r: String)
    ensures
        r@ == trim_ws(s@),
{
    s.trim().to_string()
}

/// Whether `s` holds `pat` at position `i`.
pub open spec fn occurs_at(s: Seq<char>, pat: Seq<char>, i: int) -> bool {
    0 <= i && i + pat.len() <= s.len() && s.subrange(i, i + pat.len()) == pat
}

/// Whether `pat` occurs in `s`.
pub open spec fn contains_text(s: Seq<char>, pat: Seq<char>) -> bool {
    exists|i: int| occurs_at(s, pat, i)
}

/// Whether `cs[from..to]` holds the characters of `lit`.
pub fn segment_eq(cs: &Vec<char>, from: usize, to: usize, lit: &str) -> (r: bool)
    requires
        from <= to <= cs@.len(),
    ensures
        r == (cs@.subrange(from as int, to as int) == lit@),
{
    let n = lit.unicode_len();
    if to - from != n {
        return false;
    }
    let mut k: usize = 0;
    while k < n
        invariant
            from <= to <= cs@.len(),
            to - from == n,
            n == lit@.len(),
            k <= n,
            forall|j: int| 0 <= j < k ==> cs@[from + j] == lit@[j],
        decreases n - k,
    {
        if cs[from + k] != lit.get_char(k) {
            assert(cs@.subrange(from as int, to as int)[k as int] != lit@[k as int]);
            return false;
        }
        k = k + 1;
    }
    assert(cs@.subrange(from as int, to as int) =~= lit@);
    true
}

/// Whether the characters `cs` contain `pat`.
pub fn contains_chars(cs: &Vec<char>, pat: &str) -> (r: bool)
    ensures
        r == contains_text(cs@, pat@),
{
    let n = pat.unicode_len();
    if n > cs.len() {
        assert forall|i: int| !occurs_at(cs@, pat@, i) by {}
        return false;
    }
    if n == 0 {
        assert(cs@.subrange(0, 0) =~= pat@);
        assert(occurs_at(cs@, pat@, 0));
        return true;
    }
    let mut i: usize = 0;
    while i <= cs.len() - n
        invariant
            n == pat@.len(),
            n <= cs@.len(),
            i <= cs@.len() - n + 1,
            n >= 1,
            forall|j: int| 0 <= j < i ==> !occurs_at(cs@, pat@, j),
        decreases cs.len() + 1 - i,
    {
        if segment_eq(cs, i, i + n, pat) {
            assert(occurs_at(cs@, pat@, i as int));
            return true;
        }
        i = i + 1;
    }
    assert forall|j: int| !occurs_at(cs@, pat@, j) by {
        if 0 <= j && j + n <= cs@.len() {
            assert(j < i);
        }
    }
    false
}

/// The text of `s[from..to]`.
pub fn text_of_segment(s: &str, from: usize, to: usize) -> (r: String)
    requires
        from <= to <= s@.len(),
    ensures
        r@ == s@.subrange(from as int, to as int),
{
    String::from_str(s.substring_char(from, to))
}

/// What `str::to_lowercase` makes of a text. Its result is a function of
/// the text alone; Unicode's case tables decide it.
pub uninterp spec fn lowercase_text(s: Seq<char>) -> Seq<char>;

/// Whether every character of `s` is ASCII.
pub open spec fn is_ascii_text(s: Seq<char>) -> bool {
    forall|i: int| 0 <= i < s.len() ==> (#[trigger] s[i] as u32) < 128
}

/// The lowercase of `s`, by `str::to_lowercase`. Claims that the result is
/// [`lowercase_text`] of the text, a function of the text alone, and that on
/// a text of ASCII characters alone it maps `A`..`Z` to `a`..`z` and keeps
/// every other character, one for one; which non-ASCII character maps to
/// which is left to Unicode's tables and not stated.
#[verifier::external_body]
pub(crate) fn to_lowercase(s: &str) -> (r: String)
    ensures
        r@ == lowercase_text(s@),
        is_ascii_text(s@) ==> r@ == s@.map_values(|c: char| crate::keys::ascii_lower(c)),
{
    s.to_lowercase()
}

} // verus!
