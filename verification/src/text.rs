//! Text as sequences of characters: white space, trimming, and the dot-separated
//! parts of a token.
use vstd::prelude::*;

verus! {

/// The Unicode property `White_Space`.
pub open spec fn is_white_space(c: char) -> bool {
    let v = c as int;
    ||| 0x9 <= v <= 0xd
    ||| v == 0x20
    ||| v == 0x85
    ||| v == 0xa0
    ||| v == 0x1680
    ||| 0x2000 <= v <= 0x200a
    ||| v == 0x2028
    ||| v == 0x2029
    ||| v == 0x202f
    ||| v == 0x205f
    ||| v == 0x3000
}

/// Nothing but white space.
pub open spec fn is_blank(s: Seq<char>) -> bool {
    forall|i: int| 0 <= i < s.len() ==> is_white_space(#[trigger] s[i])
}

/// `s` without the white space at its two ends.
pub open spec fn trimmed(s: Seq<char>) -> Seq<char>
    decreases s.len(),
{
    if s.len() == 0 {
        s
    } else if is_white_space(s.first()) {
        trimmed(s.drop_first())
    } else if is_white_space(s.last()) {
        trimmed(s.drop_last())
    } else {
        s
    }
}

/// Whether `c` is white space.
pub fn white_space(c: char) -> (res: bool)
    ensures
        res == is_white_space(c),
{
    let v: u32 = c as u32;
    (0x9 <= v && v <= 0xd) || v == 0x20 || v == 0x85 || v == 0xa0 || v == 0x1680 || (0x2000 <= v
        && v <= 0x200a) || v == 0x2028 || v == 0x2029 || v == 0x202f || v == 0x205f || v == 0x3000
}

/// The characters of `s`, one by one.
fn characters(s: &str) -> (res: Vec<char>)
    ensures
        res@ == s@,
{
    let mut res: Vec<char> = Vec::new();
    for c in iter: s.chars()
        invariant
            iter.seq() == s@,
            res@ == s@.take(iter.index()),
    {
        res.push(c);
    }
    res
}

/// A copy of an optional text.
pub fn clone_option(text: &Option<String>) -> (res: Option<String>)
    ensures
        res == *text,
{
    match text {
        Some(s) => Some(s.clone()),
        None => None,
    }
}

/// An optional text, borrowed.
pub fn as_text<'a>(text: &'a Option<String>) -> (res: Option<&'a str>)
    ensures
        res.deep_view() == text.deep_view(),
{
    match text {
        Some(text) => Some(text.as_str()),
        None => None,
    }
}

/// `s` without the white space at its two ends.
pub fn trim(s: &str) -> (res: &str)
    ensures
        res@ == trimmed(s@),
{
    let chars: Vec<char> = characters(s);
    let n: usize = chars.len();
    let mut lo: usize = 0;
    assert(s@.subrange(0, n as int) =~= s@);
    while lo < n && white_space(chars[lo])
        invariant
            n == chars@.len(),
            chars@ == s@,
            lo <= n,
            trimmed(s@.subrange(lo as int, n as int)) == trimmed(s@),
        ensures
            lo <= n,
            trimmed(s@.subrange(lo as int, n as int)) == trimmed(s@),
            lo < n ==> !is_white_space(s@[lo as int]),
        decreases n - lo,
    {
        assert(s@.subrange(lo as int, n as int).drop_first() =~= s@.subrange(lo + 1, n as int));
        lo = lo + 1;
    }
    let mut hi: usize = n;
    while hi > lo && white_space(chars[hi - 1])
        invariant
            n == chars@.len(),
            chars@ == s@,
            lo <= hi <= n,
            lo < n ==> !is_white_space(s@[lo as int]),
            trimmed(s@.subrange(lo as int, hi as int)) == trimmed(s@),
        ensures
            lo <= hi <= n,
            trimmed(s@.subrange(lo as int, hi as int)) == trimmed(s@),
            hi > lo ==> !is_white_space(s@[hi - 1]),
        decreases hi,
    {
        assert(s@.subrange(lo as int, hi as int).drop_last() =~= s@.subrange(lo as int, hi - 1));
        hi = hi - 1;
    }
    assert(trimmed(s@.subrange(lo as int, hi as int)) == s@.subrange(lo as int, hi as int));
    s.substring_char(lo, hi)
}

/// The place of the first dot in `s` at or after `from`, or the length of `s`.
pub open spec fn dot_from(s: Seq<char>, from: int) -> int
    decreases s.len() - from,
{
    if from >= s.len() {
        s.len() as int
    } else if s[from] == '.' {
        from
    } else {
        dot_from(s, from + 1)
    }
}

/// Where nothing from `from` up to `dot` is a dot and a dot, or the end, stands there, `dot` is
/// the place of the first one.
pub proof fn lemma_dot_from_is(s: Seq<char>, from: int, dot: int)
    requires
        0 <= from <= dot <= s.len(),
        forall|i: int| from <= i < dot ==> #[trigger] s[i] != '.',
        dot < s.len() ==> s[dot] == '.',
    ensures
        dot_from(s, from) == dot,
    decreases dot - from,
{
    if from < dot {
        lemma_dot_from_is(s, from + 1, dot);
    }
}

/// What stands between the first dot of `s` and the next one, or the end; nothing where `s`
/// has no dot.
pub open spec fn second_part(s: Seq<char>) -> Option<Seq<char>> {
    let dot = dot_from(s, 0);
    if dot < s.len() {
        Some(s.subrange(dot + 1, dot_from(s, dot + 1)))
    } else {
        None
    }
}

/// The place of the first dot at or after `from`.
fn find_dot(chars: &Vec<char>, from: usize) -> (res: usize)
    requires
        from <= chars@.len(),
    ensures
        res == dot_from(chars@, from as int),
        from <= res <= chars@.len(),
{
    let n: usize = chars.len();
    let mut i: usize = from;
    while i < n && chars[i] != '.'
        invariant
            n == chars@.len(),
            from <= i <= n,
            dot_from(chars@, from as int) == dot_from(chars@, i as int),
        ensures
            from <= i <= n,
            dot_from(chars@, from as int) == dot_from(chars@, i as int),
            i < n ==> chars@[i as int] == '.',
        decreases n - i,
    {
        i = i + 1;
    }
    i
}

/// The second of the parts that the dots of `s` separate.
pub fn second_dot_part(s: &str) -> (res: Option<&str>)
    ensures
        match res {
            Some(part) => second_part(s@) == Some(part@),
            None => second_part(s@) is None,
        },
{
    let chars: Vec<char> = characters(s);
    let dot: usize = find_dot(&chars, 0);
    if dot < chars.len() {
        let end: usize = find_dot(&chars, dot + 1);
        Some(s.substring_char(dot + 1, end))
    } else {
        None
    }
}

/// Where a text has a dot, its second part is what stands between the first dot and the next, or
/// the end; without a dot there is none.
pub proof fn law_second_part_stands_between_dots(
    head: Seq<char>,
    part: Seq<char>,
    tail: Seq<char>,
)
    requires
        !head.contains('.'),
        !part.contains('.'),
    ensures
        second_part(head) is None,
        second_part(head + seq!['.'] + part) == Some(part),
        second_part(head + seq!['.'] + part + seq!['.'] + tail) == Some(part),
{
    let bare = head + seq!['.'] + part;
    let full = bare + seq!['.'] + tail;
    let n = head.len() as int;
    let m = n + 1 + part.len();
    assert forall|i: int| 0 <= i < n implies #[trigger] head[i] != '.' && bare[i] != '.' && full[i]
        != '.' by {
        assert(head.contains(head[i]));
        assert(bare[i] == head[i] && full[i] == head[i]);
    }
    assert forall|i: int| n < i < m implies #[trigger] bare[i] != '.' && full[i] != '.' by {
        assert(part.contains(part[i - n - 1]));
        assert(bare[i] == part[i - n - 1] && full[i] == part[i - n - 1]);
    }
    assert forall|i: int| 0 <= i < n implies #[trigger] bare[i] != '.' by {
        assert(head[i] != '.');
    }
    assert forall|i: int| 0 <= i < n implies #[trigger] full[i] != '.' by {
        assert(head[i] != '.');
    }
    assert forall|i: int| n + 1 <= i < m implies #[trigger] full[i] != '.' by {
        assert(bare[i] != '.');
    }
    assert(bare[n] == '.' && full[n] == '.' && full[m] == '.');
    lemma_dot_from_is(head, 0, n);
    lemma_dot_from_is(bare, 0, n);
    lemma_dot_from_is(bare, n + 1, m);
    lemma_dot_from_is(full, 0, n);
    lemma_dot_from_is(full, n + 1, m);
    assert(bare.subrange(n + 1, m) =~= part);
    assert(full.subrange(n + 1, m) =~= part);
}

/// Trimming leaves a run of the text that neither begins nor ends with white space, and leaves
/// out nothing but white space: what stands before the run and what stands behind it. Of a text
/// of nothing but white space it leaves nothing.
pub proof fn law_trimming_takes_white_space_off_the_ends(s: Seq<char>) -> (bounds: (int, int))
    ensures
        0 <= bounds.0 <= bounds.1 <= s.len(),
        trimmed(s) == s.subrange(bounds.0, bounds.1),
        forall|i: int|
            0 <= i < s.len() && !(bounds.0 <= i < bounds.1) ==> is_white_space(#[trigger] s[i]),
        bounds.0 < bounds.1 ==> !is_white_space(s[bounds.0]) && !is_white_space(s[bounds.1 - 1]),
        (forall|i: int| 0 <= i < s.len() ==> is_white_space(#[trigger] s[i])) <==> trimmed(s).len()
            == 0,
{
    let (lo, hi) = lemma_trimmed_is_a_run(s);
    lemma_trimmed_empty_iff_blank(s);
    assert forall|i: int| 0 <= i < s.len() && !(lo <= i < hi) implies is_white_space(
        #[trigger] s[i],
    ) by {
        if i < lo {
            assert(s.subrange(0, lo)[i] == s[i]);
        } else {
            assert(s.subrange(hi, s.len() as int)[i - hi] == s[i]);
        }
    }
    (lo, hi)
}

/// Trimming takes a run of the text, and only white space is left out before and after it.
pub proof fn lemma_trimmed_is_a_run(s: Seq<char>) -> (bounds: (int, int))
    ensures
        0 <= bounds.0 <= bounds.1 <= s.len(),
        trimmed(s) == s.subrange(bounds.0, bounds.1),
        is_blank(s.subrange(0, bounds.0)),
        is_blank(s.subrange(bounds.1, s.len() as int)),
        trimmed(s).len() > 0 ==> !is_white_space(trimmed(s).first()) && !is_white_space(
            trimmed(s).last(),
        ),
    decreases s.len(),
{
    if s.len() > 0 && is_white_space(s.first()) {
        let (lo, hi) = lemma_trimmed_is_a_run(s.drop_first());
        assert(s.subrange(lo + 1, hi + 1) =~= s.drop_first().subrange(lo, hi));
        assert forall|i: int| 0 <= i < lo + 1 implies is_white_space(
            #[trigger] s.subrange(0, lo + 1)[i],
        ) by {
            if i > 0 {
                assert(s.subrange(0, lo + 1)[i] == s.drop_first().subrange(0, lo)[i - 1]);
            }
        }
        assert(s.subrange(hi + 1, s.len() as int) =~= s.drop_first().subrange(hi, s.len() - 1));
        (lo + 1, hi + 1)
    } else if s.len() > 0 && is_white_space(s.last()) {
        let (lo, hi) = lemma_trimmed_is_a_run(s.drop_last());
        assert(s.subrange(lo, hi) =~= s.drop_last().subrange(lo, hi));
        assert(s.subrange(0, lo) =~= s.drop_last().subrange(0, lo));
        assert forall|i: int| 0 <= i < s.len() - hi implies is_white_space(
            #[trigger] s.subrange(hi, s.len() as int)[i],
        ) by {
            if i < s.len() - hi - 1 {
                assert(s.subrange(hi, s.len() as int)[i] == s.drop_last().subrange(
                    hi,
                    s.len() - 1,
                )[i]);
            }
        }
        (lo, hi)
    } else {
        assert(s.subrange(0, s.len() as int) =~= s);
        (0, s.len() as int)
    }
}

/// Trimming leaves nothing exactly where the text is blank.
pub proof fn lemma_trimmed_empty_iff_blank(s: Seq<char>)
    ensures
        trimmed(s).len() == 0 <==> is_blank(s),
    decreases s.len(),
{
    if s.len() > 0 && is_white_space(s.first()) {
        lemma_trimmed_empty_iff_blank(s.drop_first());
        assert(is_blank(s.drop_first()) ==> is_blank(s)) by {
            assert forall|i: int| is_blank(s.drop_first()) && 0 <= i < s.len() implies is_white_space(
                #[trigger] s[i],
            ) by {
                if i > 0 {
                    assert(s[i] == s.drop_first()[i - 1]);
                }
            }
        }
    } else if s.len() > 0 && is_white_space(s.last()) {
        assert(!is_white_space(s[0]));
        lemma_trimmed_empty_iff_blank(s.drop_last());
        assert(s.drop_last()[0] == s[0]);
    } else if s.len() > 0 {
        assert(!is_white_space(s[0]));
    }
}

/// Trimming twice is trimming once.
pub proof fn lemma_trimmed_is_idempotent(s: Seq<char>)
    ensures
        trimmed(trimmed(s)) == trimmed(s),
{
    let _ = lemma_trimmed_is_a_run(s);
}

} // verus!
