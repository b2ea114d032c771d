use vstd::prelude::*;
use vstd::string::*;

verus! {

/// An ASCII letter or digit.
pub open spec fn is_alnum(c: char) -> bool {
    ('a' <= c && c <= 'z') || ('A' <= c && c <= 'Z') || ('0' <= c && c <= '9')
}

/// An ASCII letter.
pub open spec fn is_alpha(c: char) -> bool {
    ('a' <= c && c <= 'z') || ('A' <= c && c <= 'Z')
}

/// A character allowed inside a handle segment.
pub open spec fn is_seg_char(c: char) -> bool {
    is_alnum(c) || c == '-'
}

/// Position of the first `.` at or after `i`, or the length when none.
pub open spec fn first_dot_from(s: Seq<char>, i: int) -> int
    decreases s.len() - i when 0 <= i <= s.len()
{
    if i >= s.len() {
        s.len() as int
    } else if s[i] == '.' {
        i
    } else {
        first_dot_from(s, i + 1)
    }
}

/// Bounds and characterization of `first_dot_from`.
pub proof fn lemma_first_dot_from(s: Seq<char>, i: int)
    requires
        0 <= i <= s.len(),
    ensures
        i <= first_dot_from(s, i) <= s.len(),
        first_dot_from(s, i) < s.len() ==> s[first_dot_from(s, i)] == '.',
        forall|j: int| i <= j < first_dot_from(s, i) ==> s[j] != '.',
    decreases s.len() - i,
{
    if i < s.len() && s[i] != '.' {
        lemma_first_dot_from(s, i + 1);
    }
}

/// `first_dot_from` is pinned by a dot-free prefix ending at a dot (or at
/// the end of the string).
pub proof fn lemma_first_dot_at(s: Seq<char>, i: int, k: int)
    requires
        0 <= i <= k <= s.len(),
        forall|j: int| i <= j < k ==> s[j] != '.',
        k == s.len() || s[k] == '.',
    ensures
        first_dot_from(s, i) == k,
    decreases k - i,
{
    if i < k {
        lemma_first_dot_at(s, i + 1, k);
    }
}

/// One handle segment, standing at `s[a..b]`: one to 63 characters of
/// letters, digits and hyphens, beginning and ending with a letter or
/// digit; the final segment of a handle must begin with a letter.
pub open spec fn seg_ok(s: Seq<char>, a: int, b: int, last: bool) -> bool {
    &&& 1 <= b - a <= 63
    &&& (forall|j: int| a <= j < b ==> is_seg_char(#[trigger] s[j]))
    &&& (if last {
        is_alpha(s[a])
    } else {
        is_alnum(s[a])
    })
    &&& is_alnum(s[b - 1])
}

/// The dot-separated segments of `s`, from `a` on, are all well-formed.
pub open spec fn segments_ok(s: Seq<char>, a: int) -> bool
    decreases s.len() - a when 0 <= a <= s.len() via segments_ok_dec
{
    let d = first_dot_from(s, a);
    if d == s.len() {
        seg_ok(s, a, s.len() as int, true)
    } else {
        seg_ok(s, a, d, false) && segments_ok(s, d + 1)
    }
}

#[via_fn]
proof fn segments_ok_dec(s: Seq<char>, a: int) {
    lemma_first_dot_from(s, a);
}

/// Syntax of a handle: two or more dot-separated segments, each one to 63
/// characters of letters, digits and hyphens beginning and ending with a
/// letter or digit, the final segment beginning with a letter; at most 253
/// characters in all.
pub open spec fn spec_valid_handle(s: Seq<char>) -> bool {
    &&& s.len() <= 253
    &&& first_dot_from(s, 0) < s.len()
    &&& segments_ok(s, 0)
}

/// Whether `c` is an ASCII letter or digit.
pub fn alnum(c: char) -> (b: bool)
    ensures
        b == is_alnum(c),
{
    ('a' <= c && c <= 'z') || ('A' <= c && c <= 'Z') || ('0' <= c && c <= '9')
}

/// Whether `c` is an ASCII letter.
pub fn alpha(c: char) -> (b: bool)
    ensures
        b == is_alpha(c),
{
    ('a' <= c && c <= 'z') || ('A' <= c && c <= 'Z')
}

/// Validates `h` against the handle syntax.
pub fn valid_handle(h: &str) -> (r: bool)
    ensures
        r == spec_valid_handle(h@),
{
    let n = h.unicode_len();
    if n > 253 || n == 0 {
        proof {
            if n == 0 {
                assert(first_dot_from(h@, 0) == 0);
            }
        }
        return false;
    }
    let mut a: usize = 0;
    let mut saw_dot = false;
    loop
        invariant
            0 <= a <= n,
            n == h@.len(),
            1 <= n <= 253,
            segments_ok(h@, 0) == segments_ok(h@, a as int),
            (first_dot_from(h@, 0) < n) == (saw_dot || first_dot_from(h@, a as int) < n),
        decreases n - a,
    {
        // find where this segment ends: at the next dot, or at the end
        let mut i: usize = a;
        while i < n && h.get_char(i) != '.'
            invariant
                a <= i <= n,
                n == h@.len(),
                forall|j: int| a <= j < i ==> h@[j] != '.',
            decreases n - i,
        {
            i = i + 1;
        }
        proof {
            lemma_first_dot_at(h@, a as int, i as int);
        }
        let last = i == n;
        // segment shape: non-empty, at most 63 characters
        if i == a || i - a > 63 {
            return false;
        }
        // first character: a letter for the final segment, else a letter
        // or digit
        let first = h.get_char(a);
        if last {
            if !alpha(first) {
                return false;
            }
        } else {
            if !alnum(first) {
                return false;
            }
        }
        // every character: letter, digit or hyphen
        let mut chars_ok = true;
        let mut k: usize = a;
        while k < i
            invariant
                a <= k <= i <= n,
                n == h@.len(),
                chars_ok ==> forall|j: int| a <= j < k ==> is_seg_char(#[trigger] h@[j]),
                !chars_ok ==> exists|j: int| a <= j < k && !is_seg_char(#[trigger] h@[j]),
            decreases i - k,
        {
            let c = h.get_char(k);
            if !(alnum(c) || c == '-') {
                chars_ok = false;
            }
            k = k + 1;
        }
        if !chars_ok {
            return false;
        }
        // final character: a letter or digit
        if !alnum(h.get_char(i - 1)) {
            return false;
        }
        proof {
            assert(seg_ok(h@, a as int, i as int, last));
        }
        if last {
            return saw_dot;
        }
        a = i + 1;
        saw_dot = true;
    }
}

} // verus!
