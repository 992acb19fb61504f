//! Small verified helpers on text: decimal numerals and substring search.

use vstd::prelude::*;

verus! {

/// The numeral of one decimal digit.
pub open spec fn digit(d: nat) -> Seq<char> {
    if d == 0 {
        "0"@
    } else if d == 1 {
        "1"@
    } else if d == 2 {
        "2"@
    } else if d == 3 {
        "3"@
    } else if d == 4 {
        "4"@
    } else if d == 5 {
        "5"@
    } else if d == 6 {
        "6"@
    } else if d == 7 {
        "7"@
    } else if d == 8 {
        "8"@
    } else {
        "9"@
    }
}

/// The decimal numeral of `n`, without leading zeros.
pub open spec fn decimal(n: nat) -> Seq<char>
    decreases n,
{
    if n < 10 {
        digit(n)
    } else {
        decimal(n / 10) + digit(n % 10)
    }
}

fn digit_str(d: usize) -> (r: &'static str)
    requires
        d < 10,
    ensures
        r@ == digit(d as nat),
{
    if d == 0 {
        "0"
    } else if d == 1 {
        "1"
    } else if d == 2 {
        "2"
    } else if d == 3 {
        "3"
    } else if d == 4 {
        "4"
    } else if d == 5 {
        "5"
    } else if d == 6 {
        "6"
    } else if d == 7 {
        "7"
    } else if d == 8 {
        "8"
    } else {
        "9"
    }
}

/// Writes `n` as a decimal numeral.
pub fn decimal_string(n: usize) -> (r: String)
    ensures
        r@ == decimal(n as nat),
    decreases n,
{
    if n < 10 {
        digit_str(n).to_owned()
    } else {
        let mut r = decimal_string(n / 10);
        r.append(digit_str(n % 10));
        r
    }
}

/// Whether `pattern` stands in `text` starting at position `at`.
pub open spec fn occurs_at(text: Seq<char>, pattern: Seq<char>, at: int) -> bool {
    &&& 0 <= at
    &&& at + pattern.len() <= text.len()
    &&& text.subrange(at, at + pattern.len()) == pattern
}

/// Whether `pattern` stands somewhere in `text`.
pub open spec fn contains_text(text: Seq<char>, pattern: Seq<char>) -> bool {
    exists|at: int| occurs_at(text, pattern, at)
}

/// The characters of `s`, one by one.
pub fn chars_of(s: &str) -> (chars: Vec<char>)
    ensures
        chars@ == s@,
{
    let mut chars: Vec<char> = Vec::new();
    for c in iter: s.chars()
        invariant
            iter.seq() == s@,
            chars@ == iter.seq().take(iter.index() as int),
    {
        chars.push(c);
        assert(chars@ =~= iter.seq().take(iter.index() + 1));
    }
    assert(s@.take(s@.len() as int) =~= s@);
    chars
}

fn matches_at(text: &Vec<char>, pattern: &Vec<char>, at: usize) -> (r: bool)
    requires
        at + pattern.len() <= text.len(),
    ensures
        r == occurs_at(text@, pattern@, at as int),
{
    let mut k: usize = 0;
    while k < pattern.len()
        invariant
            at + pattern.len() <= text.len(),
            k <= pattern.len(),
            forall|j: int| 0 <= j < k ==> text@[at + j] == pattern@[j],
        decreases pattern.len() - k,
    {
        if text[at + k] != pattern[k] {
            assert(text@.subrange(at as int, at + pattern.len())[k as int] != pattern@[k as int]);
            return false;
        }
        k += 1;
    }
    assert(text@.subrange(at as int, at + pattern.len()) =~= pattern@);
    true
}

/// Substring search: whether `pattern` stands somewhere in `text`.
pub fn contains(text: &str, pattern: &str) -> (r: bool)
    ensures
        r == contains_text(text@, pattern@),
{
    let haystack = chars_of(text);
    let needle = chars_of(pattern);
    if needle.len() > haystack.len() {
        return false;
    }
    let last = haystack.len() - needle.len();
    let mut at: usize = 0;
    loop
        invariant
            haystack@ == text@,
            needle@ == pattern@,
            last == haystack.len() - needle.len(),
            at <= last,
            forall|j: int| 0 <= j < at ==> !occurs_at(text@, pattern@, j),
        decreases last - at,
    {
        if matches_at(&haystack, &needle, at) {
            return true;
        }
        if at == last {
            return false;
        }
        at += 1;
    }
}

/// `text` with every occurrence of `pattern` replaced by `with`. Occurrences
/// are taken from left to right and do not overlap. An empty pattern occurs
/// nowhere.
pub open spec fn replaced(text: Seq<char>, pattern: Seq<char>, with: Seq<char>) -> Seq<char>
    decreases text.len(),
{
    if pattern.len() == 0 || text.len() < pattern.len() {
        text
    } else if occurs_at(text, pattern, 0) {
        with + replaced(text.skip(pattern.len() as int), pattern, with)
    } else {
        seq![text[0]] + replaced(text.skip(1), pattern, with)
    }
}

/// Replaces every occurrence of `pattern` in `text` by `with`.
pub fn replace_all(text: &str, pattern: &str, with: &str) -> (result: String)
    ensures
        result@ == replaced(text@, pattern@, with@),
{
    let haystack = chars_of(text);
    let needle = chars_of(pattern);
    if needle.len() == 0 {
        return text.to_owned();
    }
    let mut result = String::new();
    // Characters from `kept` up to `at` are to be copied as they are.
    let mut kept: usize = 0;
    let mut at: usize = 0;
    assert(text@.skip(0) =~= text@);
    assert(result@ + text@.subrange(0, 0) + replaced(text@, pattern@, with@) =~= replaced(
        text@,
        pattern@,
        with@,
    ));
    while at < haystack.len()
        invariant
            haystack@ == text@,
            needle@ == pattern@,
            needle.len() > 0,
            kept <= at <= haystack.len(),
            result@ + text@.subrange(kept as int, at as int) + replaced(
                text@.skip(at as int),
                pattern@,
                with@,
            ) == replaced(text@, pattern@, with@),
        decreases haystack.len() - at,
    {
        let ghost rest = text@.skip(at as int);
        let ghost before = result@ + text@.subrange(kept as int, at as int);
        if needle.len() <= haystack.len() - at {
            assert(rest.subrange(0, pattern@.len() as int) =~= text@.subrange(
                at as int,
                at + pattern@.len(),
            ));
        }
        if needle.len() <= haystack.len() - at && matches_at(&haystack, &needle, at) {
            assert(rest.skip(pattern@.len() as int) =~= text@.skip(at + pattern@.len()));
            result.append(text.substring_char(kept, at));
            result.append(with);
            at += needle.len();
            kept = at;
            assert(result@ + text@.subrange(kept as int, at as int) + replaced(
                text@.skip(at as int),
                pattern@,
                with@,
            ) =~= before + (with@ + replaced(text@.skip(at as int), pattern@, with@)));
        } else if needle.len() <= haystack.len() - at {
            assert(rest.skip(1) =~= text@.skip(at + 1));
            at += 1;
            assert(result@ + text@.subrange(kept as int, at as int) + replaced(
                text@.skip(at as int),
                pattern@,
                with@,
            ) =~= before + (seq![rest[0]] + replaced(text@.skip(at as int), pattern@, with@)));
        } else {
            assert(replaced(rest, pattern@, with@) == rest);
            at = haystack.len();
            assert(text@.skip(at as int) =~= Seq::<char>::empty());
            assert(result@ + text@.subrange(kept as int, at as int) + replaced(
                text@.skip(at as int),
                pattern@,
                with@,
            ) =~= before + rest);
        }
    }
    assert(text@.skip(at as int) =~= Seq::<char>::empty());
    result.append(text.substring_char(kept, at));
    assert(result@ =~= replaced(text@, pattern@, with@));
    result
}

} // verus!
