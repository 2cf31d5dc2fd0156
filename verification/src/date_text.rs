//! Text handling for the date utility: trimming whitespace, splitting a
//! date string on its separator, and rendering the pieces as a
//! year/month/day phrase.

use vstd::prelude::*;
use vstd::string::{StrSliceExecFns, StringExecFns};

verus! {

/// A character of the Unicode White_Space set, the set the host's trim
/// removes from the ends of a string.
pub open spec fn is_space(c: char) -> bool {
    (9 <= c as u32 && c as u32 <= 13) || c as u32 == 32 || c as u32 == 0x85 || c as u32 == 0xA0
        || c as u32 == 0x1680 || (0x2000 <= c as u32 && c as u32 <= 0x200A) || c as u32 == 0x2028
        || c as u32 == 0x2029 || c as u32 == 0x202F || c as u32 == 0x205F || c as u32 == 0x3000
}

/// `s` without its leading whitespace.
pub open spec fn trim_front(s: Seq<char>) -> Seq<char>
    decreases s.len(),
{
    if s.len() > 0 && is_space(s[0]) {
        trim_front(s.skip(1))
    } else {
        s
    }
}

/// `s` without its trailing whitespace.
pub open spec fn trim_back(s: Seq<char>) -> Seq<char>
    decreases s.len(),
{
    if s.len() > 0 && is_space(s.last()) {
        trim_back(s.drop_last())
    } else {
        s
    }
}

/// `s` without whitespace at either end.
pub open spec fn trim_spec(s: Seq<char>) -> Seq<char> {
    trim_back(trim_front(s))
}

/// Dropping `a` all-whitespace leading characters, the next one (if any)
/// not whitespace, is exactly what `trim_front` leaves.
proof fn lemma_trim_front_skip(s: Seq<char>, a: int)
    requires
        0 <= a <= s.len(),
        forall|k: int| 0 <= k < a ==> is_space(#[trigger] s[k]),
        a < s.len() ==> !is_space(s[a]),
    ensures
        trim_front(s) == s.skip(a),
    decreases a,
{
    if a == 0 {
        assert(s.skip(0) =~= s);
    } else {
        lemma_trim_front_skip(s.skip(1), a - 1);
        assert(s.skip(1).skip(a - 1) =~= s.skip(a));
    }
}

/// Keeping `m` characters, the last kept (if any) not whitespace and all
/// dropped ones whitespace, is exactly what `trim_back` leaves.
proof fn lemma_trim_back_take(s: Seq<char>, m: int)
    requires
        0 <= m <= s.len(),
        forall|k: int| m <= k < s.len() ==> is_space(#[trigger] s[k]),
        m > 0 ==> !is_space(s[m - 1]),
    ensures
        trim_back(s) == s.take(m),
    decreases s.len() - m,
{
    if m == s.len() {
        assert(s.take(m) =~= s);
    } else {
        lemma_trim_back_take(s.drop_last(), m);
        assert(s.drop_last().take(m) =~= s.take(m));
    }
}

/// Whether `c` is in the Unicode White_Space set.
fn is_space_char(c: char) -> (b: bool)
    ensures
        b == is_space(c),
{
    let u: u32 = c as u32;
    (9 <= u && u <= 13) || u == 32 || u == 0x85 || u == 0xA0 || u == 0x1680 || (0x2000 <= u && u
        <= 0x200A) || u == 0x2028 || u == 0x2029 || u == 0x202F || u == 0x205F || u == 0x3000
}

/// `s` with whitespace removed from both ends, as the host's trim
/// removes it.
#[verifier::loop_isolation(false)]
pub fn trim(s: &str) -> (r: String)
    ensures
        r@ == trim_spec(s@),
{
    let len: usize = s.unicode_len();
    let mut a: usize = 0;
    let mut scanning: bool = true;
    while scanning && a < len
        invariant
            a <= len,
            forall|k: int| 0 <= k < a ==> is_space(#[trigger] s@[k]),
            !scanning ==> a < len && !is_space(s@[a as int]),
        decreases len - a, (if scanning { 1int } else { 0int }),
    {
        if is_space_char(s.get_char(a)) {
            a = a + 1;
        } else {
            scanning = false;
        }
    }
    let mut b: usize = len;
    let mut scanning_back: bool = true;
    while scanning_back && b > a
        invariant
            a <= b <= len,
            forall|k: int| b <= k < len ==> is_space(#[trigger] s@[k]),
            !scanning_back ==> b > a && !is_space(s@[b - 1]),
        decreases b, (if scanning_back { 1int } else { 0int }),
    {
        if is_space_char(s.get_char(b - 1)) {
            b = b - 1;
        } else {
            scanning_back = false;
        }
    }
    proof {
        lemma_trim_front_skip(s@, a as int);
        lemma_trim_back_take(s@.skip(a as int), b - a);
        assert(s@.skip(a as int).take(b - a) =~= s@.subrange(a as int, b as int));
    }
    s.substring_char(a, b).to_owned()
}

/// The position of the first `sep` in `s`, or the length of `s` when
/// there is none.
pub open spec fn find_sep(s: Seq<char>, sep: char) -> int
    decreases s.len(),
{
    if s.len() == 0 {
        0
    } else if s[0] == sep {
        0
    } else {
        1 + find_sep(s.skip(1), sep)
    }
}

/// `find_sep` points at the first occurrence: nothing before it is the
/// separator, and it is in range exactly when the separator occurs.
proof fn lemma_find_sep(s: Seq<char>, sep: char)
    ensures
        0 <= find_sep(s, sep) <= s.len(),
        forall|k: int| 0 <= k < find_sep(s, sep) ==> s[k] != sep,
        find_sep(s, sep) < s.len() ==> s[find_sep(s, sep)] == sep,
    decreases s.len(),
{
    if s.len() > 0 && s[0] != sep {
        lemma_find_sep(s.skip(1), sep);
        assert(forall|k: int| 1 <= k < find_sep(s, sep) ==> s[k] == s.skip(1)[k - 1]);
    }
}

/// The pieces of `s` between occurrences of `sep`, in order; a string
/// without the separator is one piece, so an empty string is one empty
/// piece.
pub open spec fn split_on(s: Seq<char>, sep: char) -> Seq<Seq<char>>
    decreases s.len(),
{
    let f = find_sep(s, sep);
    if 0 <= f && f < s.len() {
        seq![s.take(f)] + split_on(s.skip(f + 1), sep)
    } else {
        seq![s]
    }
}

/// Split `s` at each occurrence of `sep`, as the host's split does.
#[verifier::loop_isolation(false)]
pub fn split_char(s: &str, sep: char) -> (parts: Vec<String>)
    ensures
        parts@.map_values(|p: String| p@) == split_on(s@, sep),
    decreases s@.len(),
{
    let len: usize = s.unicode_len();
    let mut f: usize = 0;
    let mut scanning: bool = true;
    while scanning && f < len
        invariant
            f <= len,
            forall|k: int| 0 <= k < f ==> s@[k] != sep,
            !scanning ==> f < len && s@[f as int] == sep,
        decreases len - f, (if scanning { 1int } else { 0int }),
    {
        if s.get_char(f) == sep {
            scanning = false;
        } else {
            f = f + 1;
        }
    }
    proof {
        lemma_find_sep(s@, sep);
        assert(find_sep(s@, sep) == f);
    }
    if f == len {
        let mut parts: Vec<String> = Vec::new();
        parts.push(s.to_owned());
        proof {
            assert(parts@.map_values(|p: String| p@) =~= split_on(s@, sep));
        }
        parts
    } else {
        let head: String = s.substring_char(0, f).to_owned();
        let tail: &str = s.substring_char(f + 1, len);
        let mut parts: Vec<String> = split_char(tail, sep);
        parts.insert(0, head);
        proof {
            assert(parts@.map_values(|p: String| p@) =~= seq![s@.take(f as int)] + split_on(
                tail@,
                sep,
            ));
        }
        parts
    }
}

/// The year/month/day phrase built from the three pieces of a date.
pub open spec fn jp_date(parts: Seq<Seq<char>>) -> Seq<char> {
    parts[0] + "年"@ + parts[1] + "月"@ + parts[2] + "日"@
}

/// The lines the date utility prints for the raw text of a date command:
/// always the trimmed text, and, when that text splits on '-' into
/// exactly three pieces, also those pieces as a year/month/day phrase.
pub fn date_report(raw: &str) -> (lines: Vec<String>)
    ensures
        lines@.len() >= 1,
        lines@[0]@ == trim_spec(raw@),
        split_on(trim_spec(raw@), '-').len() == 3 ==> lines@.len() == 2 && lines@[1]@ == jp_date(
            split_on(trim_spec(raw@), '-'),
        ),
        split_on(trim_spec(raw@), '-').len() != 3 ==> lines@.len() == 1,
{
    let trimmed: String = trim(raw);
    let parts: Vec<String> = split_char(trimmed.as_str(), '-');
    let mut lines: Vec<String> = Vec::new();
    if parts.len() == 3 {
        proof {
            let pv = |p: String| p@;
            assert(parts@.map_values(pv)[0] == parts@[0]@);
            assert(parts@.map_values(pv)[1] == parts@[1]@);
            assert(parts@.map_values(pv)[2] == parts@[2]@);
        }
        let mut jp: String = parts[0].clone();
        jp.append("年");
        jp.append(parts[1].as_str());
        jp.append("月");
        jp.append(parts[2].as_str());
        jp.append("日");
        lines.push(trimmed);
        lines.push(jp);
    } else {
        lines.push(trimmed);
    }
    lines
}

} // verus!
