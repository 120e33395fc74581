//! Character-level helpers for the status texts: Unicode whitespace trimming,
//! substring search, ASCII case folding and the meeting text itself.
use vstd::prelude::*;

verus! {

// ---------------------------------------------------------------------------
// Specifications
// ---------------------------------------------------------------------------

/// The Unicode `White_Space` property, the set of characters that
/// `char::is_whitespace` and `str::trim` treat as whitespace.
pub open spec fn is_whitespace(c: char) -> bool {
    let n = c as u32;
    ||| 0x09 <= n <= 0x0d
    ||| n == 0x20
    ||| n == 0x85
    ||| n == 0xa0
    ||| n == 0x1680
    ||| 0x2000 <= n <= 0x200a
    ||| n == 0x2028
    ||| n == 0x2029
    ||| n == 0x202f
    ||| n == 0x205f
    ||| n == 0x3000
}

/// `s` without its leading whitespace.
pub open spec fn trim_start(s: Seq<char>) -> Seq<char>
    decreases s.len(),
{
    if s.len() > 0 && is_whitespace(s[0]) {
        trim_start(s.drop_first())
    } else {
        s
    }
}

/// `s` without its trailing whitespace.
pub open spec fn trim_end(s: Seq<char>) -> Seq<char>
    decreases s.len(),
{
    if s.len() > 0 && is_whitespace(s.last()) {
        trim_end(s.drop_last())
    } else {
        s
    }
}

/// `s` without leading and trailing whitespace.
pub open spec fn trim(s: Seq<char>) -> Seq<char> {
    trim_end(trim_start(s))
}

/// `needle` occurs in `hay` as a contiguous run (the empty text occurs everywhere).
pub open spec fn occurs_in(needle: Seq<char>, hay: Seq<char>) -> bool {
    exists|i: int|
        0 <= i && i + needle.len() <= hay.len() && #[trigger] hay.subrange(i, i + needle.len())
            == needle
}

/// The status text shown during a meeting: the message is appended, after a
/// space, to the old text, and the whole is trimmed; a text that already holds
/// the message is left as it is.
pub open spec fn meeting_text(old_text: Seq<char>, message: Seq<char>) -> Seq<char> {
    if occurs_in(message, old_text) {
        old_text
    } else {
        trim(old_text + seq![' '] + message)
    }
}

/// The code of `c` after ASCII lowercasing (`A`..`Z` become `a`..`z`).
pub open spec fn ascii_lower_code(c: char) -> u32 {
    let n = c as u32;
    if 0x41 <= n <= 0x5a {
        (n + 32) as u32
    } else {
        n
    }
}

/// `s` lowercases, letter by letter, to `word`.  For a `word` made of
/// lowercase ASCII letters other than `k` this is what
/// `s.to_lowercase() == word` decides: besides `A`..`Z`, the only character
/// whose Unicode lowercase is made of ASCII letters alone is the Kelvin sign,
/// which becomes `k` (`İ` becomes `i` followed by a combining dot).
pub open spec fn folds_to(s: Seq<char>, word: Seq<char>) -> bool {
    &&& s.len() == word.len()
    &&& forall|i: int| 0 <= i < s.len() ==> ascii_lower_code(#[trigger] s[i]) == word[i] as u32
}

// ---------------------------------------------------------------------------
// Lemmas
// ---------------------------------------------------------------------------

/// Skipping a whitespace prefix is trimming the start, when it is followed by
/// a non-whitespace character or by nothing.
proof fn lemma_trim_start_at(s: Seq<char>, i: int)
    requires
        0 <= i <= s.len(),
        forall|k: int| 0 <= k < i ==> is_whitespace(#[trigger] s[k]),
        i < s.len() ==> !is_whitespace(s[i]),
    ensures
        trim_start(s) == s.subrange(i, s.len() as int),
    decreases i,
{
    if i == 0 {
        assert(s.subrange(0, s.len() as int) =~= s);
    } else {
        assert(is_whitespace(s[0]));
        let t = s.drop_first();
        assert forall|k: int| 0 <= k < i - 1 implies is_whitespace(#[trigger] t[k]) by {
            assert(t[k] == s[k + 1]);
        }
        lemma_trim_start_at(t, i - 1);
        assert(t.subrange(i - 1, t.len() as int) =~= s.subrange(i, s.len() as int));
    }
}

/// Cutting a whitespace suffix is trimming the end, when it is preceded by a
/// non-whitespace character or by nothing.
proof fn lemma_trim_end_at(s: Seq<char>, j: int)
    requires
        0 <= j <= s.len(),
        forall|k: int| j <= k < s.len() ==> is_whitespace(#[trigger] s[k]),
        j > 0 ==> !is_whitespace(s[j - 1]),
    ensures
        trim_end(s) == s.subrange(0, j),
    decreases s.len() - j,
{
    if j == s.len() {
        assert(s.subrange(0, j) =~= s);
    } else {
        assert(is_whitespace(s.last()));
        let t = s.drop_last();
        assert forall|k: int| j <= k < t.len() implies is_whitespace(#[trigger] t[k]) by {
            assert(t[k] == s[k]);
        }
        lemma_trim_end_at(t, j);
        assert(t.subrange(0, j) =~= s.subrange(0, j));
    }
}

/// A text with no whitespace at either end is its own trim.
pub(crate) proof fn lemma_trim_of_trimmed(s: Seq<char>)
    requires
        s.len() > 0 ==> !is_whitespace(s[0]) && !is_whitespace(s.last()),
    ensures
        trim(s) == s,
{
    lemma_trim_start_at(s, 0);
    assert(s.subrange(0, s.len() as int) =~= s);
    lemma_trim_end_at(s, s.len() as int);
}

/// Trimming `s` keeps every character between its first and last
/// non-whitespace characters, at the offset shifted by the cut prefix.
proof fn lemma_trim_window(s: Seq<char>, i: int, j: int)
    requires
        0 <= i <= j <= s.len(),
        forall|k: int| 0 <= k < i ==> is_whitespace(#[trigger] s[k]),
        forall|k: int| j <= k < s.len() ==> is_whitespace(#[trigger] s[k]),
        i < j ==> !is_whitespace(s[i]) && !is_whitespace(s[j - 1]),
        i == j ==> forall|k: int| 0 <= k < s.len() ==> is_whitespace(#[trigger] s[k]),
    ensures
        trim(s) == s.subrange(i, j),
{
    if i < j {
        lemma_trim_start_at(s, i);
        let t = s.subrange(i, s.len() as int);
        assert forall|k: int| j - i <= k < t.len() implies is_whitespace(#[trigger] t[k]) by {
            assert(t[k] == s[k + i]);
        }
        assert(t[j - i - 1] == s[j - 1]);
        lemma_trim_end_at(t, j - i);
        assert(t.subrange(0, j - i) =~= s.subrange(i, j));
    } else {
        lemma_trim_start_at(s, s.len() as int);
        let t = s.subrange(s.len() as int, s.len() as int);
        lemma_trim_end_at(t, 0);
        assert(t.subrange(0, 0) =~= s.subrange(i, j));
    }
}

/// Trimming the start of `a + m`, where `m` begins with a non-whitespace
/// character, only cuts into `a`.
proof fn lemma_trim_start_concat(a: Seq<char>, m: Seq<char>) -> (k: int)
    requires
        m.len() > 0,
        !is_whitespace(m[0]),
    ensures
        0 <= k <= a.len(),
        trim_start(a + m) == a.subrange(k, a.len() as int) + m,
    decreases a.len(),
{
    if a.len() > 0 && is_whitespace(a[0]) {
        assert((a + m).drop_first() =~= a.drop_first() + m);
        let k1 = lemma_trim_start_concat(a.drop_first(), m);
        assert(a.drop_first().subrange(k1, a.drop_first().len() as int) =~= a.subrange(
            k1 + 1,
            a.len() as int,
        ));
        k1 + 1
    } else {
        assert((a + m)[0] == if a.len() > 0 {
            a[0]
        } else {
            m[0]
        });
        assert(a.subrange(0, a.len() as int) =~= a);
        0
    }
}

/// For a message with no whitespace at either end, the meeting text ends with
/// the message, and building the meeting text a second time changes nothing:
/// a status already marked is never marked twice.
pub proof fn lemma_meeting_text_marks_once(old_text: Seq<char>, message: Seq<char>)
    requires
        message.len() > 0,
        !is_whitespace(message[0]),
        !is_whitespace(message.last()),
    ensures
        occurs_in(message, meeting_text(old_text, message)),
        meeting_text(meeting_text(old_text, message), message) == meeting_text(old_text, message),
{
    if !occurs_in(message, old_text) {
        let a = old_text + seq![' '];
        assert(old_text + seq![' '] + message == a + message);
        let k = lemma_trim_start_concat(a, message);
        let r = a.subrange(k, a.len() as int) + message;
        assert(r.last() == message.last());
        assert(trim_end(r) == r);
        let p = r.len() - message.len();
        assert(r.subrange(p, p + message.len()) =~= message);
        assert(occurs_in(message, r));
    }
}

// ---------------------------------------------------------------------------
// Executable helpers
// ---------------------------------------------------------------------------

/// The characters of `s`, in order.
pub fn chars_of(s: &str) -> (v: Vec<char>)
    ensures
        v@ == s@,
{
    let mut v: Vec<char> = Vec::new();
    for c in it: s.chars()
        invariant
            v@ == it.seq().take(it.index()),
    {
        v.push(c);
    }
    v
}

/// Whether `c` is Unicode whitespace.
pub fn char_is_whitespace(c: char) -> (b: bool)
    ensures
        b == is_whitespace(c),
{
    let n = c as u32;
    (0x09 <= n && n <= 0x0d) || n == 0x20 || n == 0x85 || n == 0xa0 || n == 0x1680 || (0x2000
        <= n && n <= 0x200a) || n == 0x2028 || n == 0x2029 || n == 0x202f || n == 0x205f || n
        == 0x3000
}

/// Whether `needle` occurs in `hay`.
pub fn contains_text(hay: &str, needle: &str) -> (b: bool)
    ensures
        b == occurs_in(needle@, hay@),
{
    let h = chars_of(hay);
    let n = chars_of(needle);
    if n.len() > h.len() {
        return false;
    }
    let last = h.len() - n.len();
    let mut i: usize = 0;
    while i <= last
        invariant
            h@ == hay@,
            n@ == needle@,
            last == h.len() - n.len(),
            n.len() <= h.len(),
            0 <= i <= last + 1,
            forall|p: int|
                0 <= p < i ==> #[trigger] h@.subrange(p, p + n@.len()) != n@,
        decreases last + 1 - i,
    {
        let mut k: usize = 0;
        let mut same = true;
        while k < n.len()
            invariant
                n.len() <= h.len(),
                i <= h.len() - n.len(),
                0 <= k <= n.len(),
                same == (forall|q: int| 0 <= q < k ==> h@[i + q] == n@[q]),
            decreases n.len() - k,
        {
            if h[i + k] != n[k] {
                same = false;
            }
            k = k + 1;
        }
        if same {
            assert(h@.subrange(i as int, i + n@.len()) =~= n@);
            return true;
        }
        assert(h@.subrange(i as int, i + n@.len())[(choose|q: int|
            0 <= q < n.len() && h@[i + q] != n@[q])] != n@[(choose|q: int|
            0 <= q < n.len() && h@[i + q] != n@[q])]);
        i = i + 1;
    }
    assert forall|p: int| 0 <= p && p + needle@.len() <= hay@.len() implies #[trigger] hay@.subrange(
        p,
        p + needle@.len(),
    ) != needle@ by {
        assert(p < i);
    }
    false
}

/// `s` with leading and trailing Unicode whitespace removed.
pub fn trim_text(s: &str) -> (t: String)
    ensures
        t@ == trim(s@),
{
    let v = chars_of(s);
    let len = v.len();
    let mut i: usize = 0;
    while i < len && char_is_whitespace(v[i])
        invariant
            v@ == s@,
            len == v.len(),
            0 <= i <= len,
            forall|k: int| 0 <= k < i ==> is_whitespace(#[trigger] v@[k]),
        decreases len - i,
    {
        i = i + 1;
    }
    let mut j: usize = len;
    while j > i && char_is_whitespace(v[j - 1])
        invariant
            v@ == s@,
            len == v.len(),
            0 <= i <= j <= len,
            forall|k: int| j <= k < len ==> is_whitespace(#[trigger] v@[k]),
        decreases j,
    {
        j = j - 1;
    }
    proof {
        if i == j {
            assert forall|k: int| 0 <= k < v@.len() implies is_whitespace(#[trigger] v@[k]) by {
                if k >= i {
                    assert(k >= j);
                }
            }
        } else {
            assert(!is_whitespace(v@[i as int]));
        }
        lemma_trim_window(v@, i as int, j as int);
    }
    String::from_str(s.substring_char(i, j))
}

/// The status text to show during a meeting.
pub fn build_meeting_text(old_text: &str, meeting_message: &str) -> (t: String)
    ensures
        t@ == meeting_text(old_text@, meeting_message@),
{
    if !contains_text(old_text, meeting_message) {
        let mut joined = String::from_str(old_text);
        joined.append(" ");
        joined.append(meeting_message);
        proof {
            reveal_strlit(" ");
            assert(" "@ =~= seq![' ']);
        }
        trim_text(joined.as_str())
    } else {
        String::from_str(old_text)
    }
}

/// Whether `s` lowercases, letter by letter, to `word`, a word of lowercase
/// ASCII letters.
pub fn text_folds_to(s: &str, word: &str) -> (b: bool)
    ensures
        b == folds_to(s@, word@),
{
    let v = chars_of(s);
    let w = chars_of(word);
    if v.len() != w.len() {
        return false;
    }
    let mut k: usize = 0;
    while k < v.len()
        invariant
            v@ == s@,
            w@ == word@,
            v.len() == w.len(),
            0 <= k <= v.len(),
            forall|q: int| 0 <= q < k ==> ascii_lower_code(#[trigger] v@[q]) == w@[q] as u32,
        decreases v.len() - k,
    {
        let n = v[k] as u32;
        let lowered: u32 = if 0x41 <= n && n <= 0x5a {
            n + 32
        } else {
            n
        };
        if lowered != w[k] as u32 {
            return false;
        }
        k = k + 1;
    }
    true
}

} // verus!
