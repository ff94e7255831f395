//! Small text primitives shared by the rest of the library: reading a string
//! as characters, comparing, testing a suffix and trimming blanks.

use vstd::prelude::*;
use vstd::string::StrSliceExecFns;

verus! {

/// The text of an optional string.
pub open spec fn optional_text(value: Option<String>) -> Option<Seq<char>> {
    match value {
        Some(s) => Some(s@),
        None => None,
    }
}

/// `suffix` is the tail of `s`.
pub open spec fn is_suffix(s: Seq<char>, suffix: Seq<char>) -> bool {
    suffix.len() <= s.len() && s.subrange(s.len() - suffix.len(), s.len() as int) == suffix
}

/// The characters of `s`, in order.
pub fn chars_of(s: &str) -> (v: Vec<char>)
    ensures
        v@ == s@,
{
    let mut v: Vec<char> = Vec::new();
    for c in it: s.chars()
        invariant
            v@ == it.seq().take(it.index() as int),
            it.seq() == s@,
    {
        v.push(c);
    }
    v
}

/// Whether two strings hold the same characters.
pub fn same_text(a: &str, b: &str) -> (same: bool)
    ensures
        same == (a@ == b@),
{
    let x = a.to_string();
    let y = b.to_string();
    x == y
}

/// Whether `s` ends with `suffix`.
pub fn ends_with(s: &str, suffix: &str) -> (r: bool)
    ensures
        r == is_suffix(s@, suffix@),
{
    let text = chars_of(s);
    let tail = chars_of(suffix);
    if tail.len() > text.len() {
        return false;
    }
    let offset: usize = text.len() - tail.len();
    let mut i: usize = 0;
    while i < tail.len()
        invariant
            i <= tail.len(),
            offset + tail.len() == text.len(),
            text@ == s@,
            tail@ == suffix@,
            forall|j: int| 0 <= j < i ==> text@[offset + j] == tail@[j],
        decreases tail.len() - i,
    {
        if text[offset + i] != tail[i] {
            assert(s@.subrange(offset as int, s@.len() as int)[i as int] != suffix@[i as int]);
            return false;
        }
        i = i + 1;
    }
    assert(s@.subrange(offset as int, s@.len() as int) =~= suffix@);
    true
}

/// The characters that count as blank when a text is trimmed: those with the
/// Unicode property White_Space.
pub open spec fn is_blank(c: char) -> bool {
    let u = c as u32;
    ||| 0x09 <= u <= 0x0d
    ||| u == 0x20
    ||| u == 0x85
    ||| u == 0xa0
    ||| u == 0x1680
    ||| 0x2000 <= u <= 0x200a
    ||| u == 0x2028
    ||| u == 0x2029
    ||| u == 0x202f
    ||| u == 0x205f
    ||| u == 0x3000
}

/// How many items at the start of `s` are of the kind `strip`.
pub open spec fn prefix_run<T>(s: Seq<T>, strip: spec_fn(T) -> bool) -> nat
    decreases s.len(),
{
    if s.len() > 0 && strip(s[0]) {
        1 + prefix_run(s.drop_first(), strip)
    } else {
        0
    }
}

/// How many items at the end of `s` are of the kind `strip`.
pub open spec fn suffix_run<T>(s: Seq<T>, strip: spec_fn(T) -> bool) -> nat
    decreases s.len(),
{
    if s.len() > 0 && strip(s.last()) {
        1 + suffix_run(s.drop_last(), strip)
    } else {
        0
    }
}

/// `s` without the items of the kind `strip` at its start and at its end.
pub open spec fn stripped<T>(s: Seq<T>, strip: spec_fn(T) -> bool) -> Seq<T> {
    let rest = s.skip(prefix_run(s, strip) as int);
    rest.take(rest.len() - suffix_run(rest, strip))
}

/// The kind of the blank characters.
pub open spec fn blank() -> spec_fn(char) -> bool {
    |c: char| is_blank(c)
}

/// `s` without the blanks at its start and at its end.
pub open spec fn trimmed(s: Seq<char>) -> Seq<char> {
    stripped(s, blank())
}

/// The first `k` items of `s` are of the kind `strip` and the next one, if
/// any, is not: then `s` starts with exactly `k` of them.
pub proof fn lemma_prefix_run<T>(s: Seq<T>, strip: spec_fn(T) -> bool, k: int)
    requires
        0 <= k <= s.len(),
        forall|j: int| 0 <= j < k ==> strip(#[trigger] s[j]),
        k < s.len() ==> !strip(s[k]),
    ensures
        prefix_run(s, strip) == k,
    decreases k,
{
    if k > 0 {
        let rest = s.drop_first();
        assert forall|j: int| 0 <= j < k - 1 implies strip(#[trigger] rest[j]) by {
            assert(rest[j] == s[j + 1]);
        }
        lemma_prefix_run(rest, strip, k - 1);
    }
}

/// The last `k` items of `s` are of the kind `strip` and the one before them,
/// if any, is not: then `s` ends with exactly `k` of them.
pub proof fn lemma_suffix_run<T>(s: Seq<T>, strip: spec_fn(T) -> bool, k: int)
    requires
        0 <= k <= s.len(),
        forall|j: int| s.len() - k <= j < s.len() ==> strip(#[trigger] s[j]),
        k < s.len() ==> !strip(s[s.len() - k - 1]),
    ensures
        suffix_run(s, strip) == k,
    decreases k,
{
    if k > 0 {
        let rest = s.drop_last();
        assert forall|j: int| rest.len() - (k - 1) <= j < rest.len() implies strip(
            #[trigger] rest[j],
        ) by {
            assert(rest[j] == s[j]);
        }
        lemma_suffix_run(rest, strip, k - 1);
    }
}

/// `s` is stripped to what lies between `start` and `end`, where everything
/// before `start` and from `end` on is of the kind `strip` and the items at
/// the two ends of that range are not.
pub proof fn lemma_stripped_is_range<T>(s: Seq<T>, strip: spec_fn(T) -> bool, start: int, end: int)
    requires
        0 <= start <= end <= s.len(),
        forall|j: int| 0 <= j < start ==> strip(#[trigger] s[j]),
        forall|j: int| end <= j < s.len() ==> strip(#[trigger] s[j]),
        start < s.len() ==> !strip(s[start]),
        start < end ==> !strip(s[end - 1]),
    ensures
        stripped(s, strip) == s.subrange(start, end),
{
    lemma_prefix_run(s, strip, start);
    let rest = s.skip(start);
    assert forall|j: int| rest.len() - (s.len() - end) <= j < rest.len() implies strip(
        #[trigger] rest[j],
    ) by {
        assert(rest[j] == s[j + start]);
    }
    if s.len() - end < rest.len() {
        assert(rest[rest.len() - (s.len() - end) - 1] == s[end - 1]);
    }
    lemma_suffix_run(rest, strip, s.len() - end);
    assert(stripped(s, strip) =~= s.subrange(start, end));
}

/// Whether `c` is blank.
pub fn is_blank_char(c: char) -> (blank: bool)
    ensures
        blank == is_blank(c),
{
    let u: u32 = c as u32;
    (0x09 <= u && u <= 0x0d) || u == 0x20 || u == 0x85 || u == 0xa0 || u == 0x1680 || (0x2000 <= u
        && u <= 0x200a) || u == 0x2028 || u == 0x2029 || u == 0x202f || u == 0x205f || u == 0x3000
}

/// Whether `s`, once trimmed, is exactly `core`. Walks through `s` without
/// copying it.
pub fn trimmed_is(s: &str, core: &str) -> (r: bool)
    ensures
        r == (trimmed(s@) == core@),
{
    let want = chars_of(core);
    let total = s.unicode_len();
    let mut i: usize = 0;
    // The first character that is not blank, once one was seen, and the place
    // behind the last such character.
    let mut found = false;
    let mut start: usize = 0;
    let mut end: usize = 0;
    // Whether what was read from `start` on agrees with `core` so far.
    let mut agrees = true;
    for c in it: s.chars()
        invariant
            it.seq() == s@,
            want@ == core@,
            total == s@.len(),
            i == it.index(),
            !found ==> start == 0 && end == 0 && agrees,
            !found ==> forall|j: int| 0 <= j < i ==> is_blank(#[trigger] s@[j]),
            found ==> start < end <= i,
            found ==> forall|j: int| 0 <= j < start ==> is_blank(#[trigger] s@[j]),
            found ==> !is_blank(s@[start as int]) && !is_blank(s@[end - 1]),
            found ==> forall|j: int| end <= j < i ==> is_blank(#[trigger] s@[j]),
            found ==> (agrees <==> forall|k: int|
                0 <= k < want.len() && start + k < i ==> s@[start + k] == #[trigger] want@[k]),
    {
        if !is_blank_char(c) {
            if !found {
                found = true;
                start = i;
            }
            end = i + 1;
        }
        if found {
            let k: usize = i - start;
            if k < want.len() && want[k] != c {
                agrees = false;
            }
        }
        i = i + 1;
    }
    proof {
        if found {
            lemma_stripped_is_range(s@, blank(), start as int, end as int);
        } else {
            lemma_stripped_is_range(s@, blank(), total as int, total as int);
        }
    }
    if !found {
        assert(trimmed(s@) =~= Seq::<char>::empty());
        assert(want@.len() == 0 <==> want@ =~= Seq::<char>::empty());
        return want.len() == 0;
    }
    if end - start != want.len() {
        return false;
    }
    proof {
        if agrees {
            assert(s@.subrange(start as int, end as int) =~= want@);
        } else {
            let k = choose|k: int|
                0 <= k < want.len() && start + k < i && s@[start + k] != #[trigger] want@[k];
            assert(s@.subrange(start as int, end as int)[k] != want@[k]);
        }
    }
    agrees
}

} // verus!
