//! The vacation marker: a suffix of the shape `(<date>` followed by the
//! marker glyph (U+4F11) and a closing parenthesis, appended to a display
//! name to signal vacation and stripped to signal return.

use vstd::prelude::*;
use vstd::string::StrSliceExecFns;
use vstd::string::StringExecFns;

verus! {

/// The glyph that tags a marker substring (U+4F11).
pub open spec fn marker_glyph() -> char {
    '\u{4F11}'
}

/// An opening parenthesis stands at index `i` of `s`.
pub open spec fn is_open_at(s: Seq<char>, i: int) -> bool {
    0 <= i < s.len() && s[i] == '('
}

/// The glyph-and-closing-parenthesis pair that ends a marker stands at
/// indices `j` and `j + 1` of `s`.
pub open spec fn is_close_at(s: Seq<char>, j: int) -> bool {
    0 <= j && j + 1 < s.len() && s[j] == marker_glyph() && s[j + 1] == ')'
}

/// The index of the first opening parenthesis at or after `k`, or
/// `s.len()` when there is none.
pub open spec fn first_open_from(s: Seq<char>, k: int) -> int
    recommends
        0 <= k <= s.len(),
    decreases s.len() - k when 0 <= k <= s.len()
{
    if k >= s.len() {
        s.len() as int
    } else if s[k] == '(' {
        k
    } else {
        first_open_from(s, k + 1)
    }
}

/// The index of the first opening parenthesis of `s`, or `s.len()`.
pub open spec fn first_open(s: Seq<char>) -> int {
    first_open_from(s, 0)
}

/// The largest `j < k` with a marker close at `j`, or `-1` when there
/// is none.
pub open spec fn last_close_before(s: Seq<char>, k: int) -> int
    recommends
        k <= s.len(),
    decreases k when k >= 0
{
    if k <= 0 {
        -1
    } else if is_close_at(s, k - 1) {
        k - 1
    } else {
        last_close_before(s, k - 1)
    }
}

/// The index of the last marker close of `s`, or `-1`.
pub open spec fn last_close(s: Seq<char>) -> int {
    last_close_before(s, s.len() as int)
}

/// `s` holds a marker substring: an opening parenthesis somewhere
/// before a glyph-closed pair.
pub open spec fn has_marker(s: Seq<char>) -> bool {
    first_open(s) < last_close(s)
}

/// The name with its marker removed. The match is greedy, as in the
/// removal pattern `\(.*` glyph `\)`: everything from the first opening
/// parenthesis through the last glyph-closed pair goes, so two markers
/// vanish as one span. Without a marker the name is unchanged.
pub open spec fn strip_spec(s: Seq<char>) -> Seq<char> {
    if has_marker(s) {
        s.subrange(0, first_open(s)) + s.subrange(last_close(s) + 2, s.len() as int)
    } else {
        s
    }
}

/// The name with one marker appended: `name` then `(`, the date, the
/// glyph and `)`.
pub open spec fn append_spec(name: Seq<char>, date: Seq<char>) -> Seq<char> {
    name + seq!['('] + date + seq![marker_glyph(), ')']
}

/// Appends the marker for `date` to `name`: the result is `name`
/// followed by `(<date>` and the glyph-closed tail. No validation of
/// `date` is done; appending twice leaves two markers.
pub fn append_marker(name: &str, date: &str) -> (r: String)
    ensures
        r@ == append_spec(name@, date@),
{
    proof {
        reveal_strlit("(");
        reveal_strlit("\u{4F11})");
    }
    let r = String::from_str(name).concat("(").concat(date).concat("\u{4F11})");
    proof {
        assert(r@ =~= append_spec(name@, date@));
    }
    r
}

/// Strips the marker from `name`: removes everything from the first
/// opening parenthesis through the last glyph-closed pair, when both
/// exist in that order, and returns the name unchanged otherwise.
pub fn strip_marker(name: &str) -> (r: String)
    ensures
        r@ == strip_spec(name@),
{
    let ghost s = name@;
    let n = name.unicode_len();

    // scan down for the last marker close
    let mut have_close = false;
    let mut close_j: usize = 0;
    let mut k: usize = if n == 0 { 0 } else { n - 1 };
    proof {
        if n > 0 {
            assert(!is_close_at(s, n - 1));
            assert(last_close_before(s, n as int) == last_close_before(s, n - 1));
        }
    }
    while k > 0 && !have_close
        invariant
            s == name@,
            n == s.len(),
            n == 0 ==> k == 0,
            n > 0 ==> k < n,
            !have_close ==> last_close(s) == last_close_before(s, k as int),
            have_close ==> is_close_at(s, close_j as int) && last_close(s) == close_j,
        decreases 2 * (k as int) + (if have_close { 0int } else { 1int }),
    {
        if name.get_char(k - 1) == '\u{4F11}' && name.get_char(k) == ')' {
            proof {
                assert(is_close_at(s, k - 1));
                assert(last_close_before(s, k as int) == k - 1);
            }
            close_j = k - 1;
            have_close = true;
        } else {
            proof {
                assert(!is_close_at(s, k - 1));
                assert(last_close_before(s, k as int) == last_close_before(s, k - 1));
            }
            k = k - 1;
        }
    }

    // scan up for the first opening parenthesis
    let mut have_open = false;
    let mut i: usize = 0;
    while i < n && !have_open
        invariant
            s == name@,
            n == s.len(),
            i <= n,
            !have_open ==> first_open(s) == first_open_from(s, i as int),
            have_open ==> i < n && is_open_at(s, i as int) && first_open(s) == i,
        decreases 2 * ((n - i) as int) + (if have_open { 0int } else { 1int }),
    {
        if name.get_char(i) == '(' {
            proof {
                assert(first_open_from(s, i as int) == i);
            }
            have_open = true;
        } else {
            proof {
                assert(first_open_from(s, i as int) == first_open_from(s, i + 1));
            }
            i = i + 1;
        }
    }

    if have_open && have_close && i < close_j {
        proof {
            assert(has_marker(s));
        }
        let front = name.substring_char(0, i);
        let back = name.substring_char(close_j + 2, n);
        let r = String::from_str(front).concat(back);
        proof {
            assert(r@ =~= strip_spec(s));
        }
        r
    } else {
        proof {
            if !have_close {
                assert(last_close(s) == last_close_before(s, 0));
                assert(last_close_before(s, 0) == -1);
            }
            if !have_open {
                assert(first_open(s) == first_open_from(s, n as int));
                assert(first_open_from(s, n as int) == n);
            }
            assert(!has_marker(s));
        }
        name.to_owned()
    }
}

/// A marker substring spans `i` to `j + 1` in `s`: an opening
/// parenthesis at `i` and the glyph-closed pair at `j`, in that order.
pub open spec fn marker_span_at(s: Seq<char>, i: int, j: int) -> bool {
    is_open_at(s, i) && is_close_at(s, j) && i < j
}

proof fn lemma_first_open_from_found(s: Seq<char>, k: int, i: int)
    requires
        0 <= k <= i < s.len(),
        s[i] == '(',
        forall|m: int| k <= m < i ==> s[m] != '(',
    ensures
        first_open_from(s, k) == i,
    decreases i - k,
{
    if k < i {
        lemma_first_open_from_found(s, k + 1, i);
    }
}

proof fn lemma_last_close_before_found(s: Seq<char>, k: int, j: int)
    requires
        0 <= j < k <= s.len(),
        is_close_at(s, j),
        forall|m: int| j < m < k ==> !is_close_at(s, m),
    ensures
        last_close_before(s, k) == j,
    decreases k,
{
    if j < k - 1 {
        lemma_last_close_before_found(s, k - 1, j);
    }
}

/// Law: stripping right after appending gives the original name back,
/// for every date string, as long as the name holds neither the marker
/// glyph nor an opening parenthesis. (A name with its own `(` breaks
/// the round trip: the greedy strip starts at that parenthesis.)
pub proof fn lemma_strip_append(name: Seq<char>, date: Seq<char>)
    requires
        !name.contains(marker_glyph()),
        !name.contains('('),
    ensures
        strip_spec(append_spec(name, date)) == name,
{
    let t = append_spec(name, date);
    let no = name.len() as int;
    let jc = no + 1 + date.len() as int;
    assert(t.len() == no + date.len() + 3);
    assert(t[no] == '(');
    assert forall|m: int| 0 <= m < no implies t[m] != '(' by {
        assert(t[m] == name[m]);
        if name[m] == '(' {
            assert(name.contains('('));
        }
    }
    lemma_first_open_from_found(t, 0, no);
    assert(t[jc] == marker_glyph());
    assert(t[jc + 1] == ')');
    assert(is_close_at(t, jc));
    assert forall|m: int| jc < m < t.len() implies !is_close_at(t, m) by {
        assert(m == jc + 1);
        assert(m + 1 == t.len());
    }
    lemma_last_close_before_found(t, t.len() as int, jc);
    assert(has_marker(t));
    assert(strip_spec(t) =~= name);
}

/// Law: appending a marker and then appending a second one leaves a
/// name with two separate marker substrings — appending is not
/// idempotent, and nothing deduplicates the suffix.
pub proof fn lemma_append_twice(name: Seq<char>, d1: Seq<char>, d2: Seq<char>)
    ensures
        marker_span_at(
            append_spec(append_spec(name, d1), d2),
            name.len() as int,
            name.len() + d1.len() + 1 as int,
        ),
        marker_span_at(
            append_spec(append_spec(name, d1), d2),
            name.len() + d1.len() + 3 as int,
            name.len() + d1.len() + d2.len() + 4 as int,
        ),
{
    let t1 = append_spec(name, d1);
    let t = append_spec(t1, d2);
    let no = name.len() as int;
    let n1 = t1.len() as int;
    assert(n1 == no + d1.len() + 3);
    assert(t1[no] == '(');
    assert(t1[no + 1 + d1.len()] == marker_glyph());
    assert(t1[no + 2 + d1.len()] == ')');
    assert(t[no] == t1[no]);
    assert(t[no + 1 + d1.len()] == t1[no + 1 + d1.len()]);
    assert(t[no + 2 + d1.len()] == t1[no + 2 + d1.len()]);
    assert(t[n1] == '(');
    assert(t[n1 + 1 + d2.len()] == marker_glyph());
    assert(t[n1 + 2 + d2.len()] == ')');
}

} // verus!
