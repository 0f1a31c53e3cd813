//! Text on which the rest of the library relies: whitespace, trimming and
//! splitting a comma-separated list.

use vstd::prelude::*;

verus! {

/// Whether `c` has the Unicode property White_Space.
pub open spec fn is_space(c: char) -> bool {
    let n = c as u32;
    ||| 0x09 <= n <= 0x0D
    ||| n == 0x20
    ||| n == 0x85
    ||| n == 0xA0
    ||| n == 0x1680
    ||| 0x2000 <= n <= 0x200A
    ||| n == 0x2028
    ||| n == 0x2029
    ||| n == 0x202F
    ||| n == 0x205F
    ||| n == 0x3000
}

/// `s` without its leading whitespace.
pub open spec fn trim_start(s: Seq<char>) -> Seq<char>
    decreases s.len(),
{
    if s.len() > 0 && is_space(s[0]) {
        trim_start(s.drop_first())
    } else {
        s
    }
}

/// `s` without its trailing whitespace.
pub open spec fn trim_end(s: Seq<char>) -> Seq<char>
    decreases s.len(),
{
    if s.len() > 0 && is_space(s.last()) {
        trim_end(s.drop_last())
    } else {
        s
    }
}

/// `s` without leading and trailing whitespace.
pub open spec fn trimmed(s: Seq<char>) -> Seq<char> {
    trim_end(trim_start(s))
}

/// The segments of `s` between its commas, in order. A text with `k` commas
/// has `k + 1` segments, some of them possibly empty.
pub open spec fn split_commas(s: Seq<char>) -> Seq<Seq<char>>
    decreases s.len(),
{
    if s.len() == 0 {
        seq![Seq::<char>::empty()]
    } else {
        let head = split_commas(s.drop_last());
        if s.last() == ',' {
            head.push(Seq::<char>::empty())
        } else {
            head.drop_last().push(head.last().push(s.last()))
        }
    }
}

/// Whether a segment is kept as a name: whether anything is left of it.
pub open spec fn is_name(s: Seq<char>) -> bool {
    s.len() > 0
}

/// The names among `segments`: each segment trimmed, the empty ones left out.
pub open spec fn names_of(segments: Seq<Seq<char>>) -> Seq<Seq<char>> {
    segments.map_values(|x: Seq<char>| trimmed(x)).filter(|x: Seq<char>| is_name(x))
}

/// The names in a comma-separated list: split on commas, trim each segment,
/// discard what is empty.
pub open spec fn comma_names(s: Seq<char>) -> Seq<Seq<char>> {
    names_of(split_commas(s))
}

/// The segments joined again, a comma between each two.
pub open spec fn join_commas(segments: Seq<Seq<char>>) -> Seq<char>
    decreases segments.len(),
{
    if segments.len() == 0 {
        Seq::empty()
    } else if segments.len() == 1 {
        segments[0]
    } else {
        join_commas(segments.drop_last()) + seq![','] + segments.last()
    }
}

/// Whether a text is a clean name: not empty, without a comma, and with no
/// whitespace at either end.
pub open spec fn is_clean(name: Seq<char>) -> bool {
    &&& name.len() > 0
    &&& !is_space(name[0])
    &&& !is_space(name.last())
    &&& forall|j: int| 0 <= j < name.len() ==> name[j] != ','
}

/// The views of a vector of strings, in order.
pub open spec fn views(v: Seq<String>) -> Seq<Seq<char>> {
    Seq::new(v.len(), |i: int| v[i]@)
}

/// `String::push` appends `ch` to the end of the string.
pub assume_specification[ String::push ](s: &mut String, ch: char)
    ensures
        final(s)@ == old(s)@.push(ch),
;

/// Decides whether `c` is whitespace.
pub fn is_whitespace(c: char) -> (r: bool)
    ensures
        r == is_space(c),
{
    let n: u32 = c as u32;
    (0x09 <= n && n <= 0x0D) || n == 0x20 || n == 0x85 || n == 0xA0 || n == 0x1680 || (0x2000 <= n
        && n <= 0x200A) || n == 0x2028 || n == 0x2029 || n == 0x202F || n == 0x205F || n == 0x3000
}

/// The characters of `s`, one by one.
pub fn chars_of(s: &str) -> (r: Vec<char>)
    ensures
        r@ == s@,
{
    let mut out: Vec<char> = Vec::new();
    for c in it: s.chars()
        invariant
            it.seq() == s@,
            out@ == s@.take(it.index() as int),
    {
        out.push(c);
    }
    out
}

/// Skipping `k` leading whitespace characters that are followed by the end
/// or by a character that is no whitespace trims the start.
pub proof fn lemma_trim_start(s: Seq<char>, k: int)
    requires
        0 <= k <= s.len(),
        forall|j: int| 0 <= j < k ==> is_space(#[trigger] s[j]),
        k < s.len() ==> !is_space(s[k]),
    ensures
        trim_start(s) == s.subrange(k, s.len() as int),
    decreases k,
{
    if k > 0 {
        let t = s.drop_first();
        assert(forall|j: int| 0 <= j < k - 1 ==> is_space(#[trigger] t[j]));
        lemma_trim_start(t, k - 1);
    }
}

/// Dropping trailing whitespace down to length `k`, where the character
/// before position `k`, if any, is no whitespace, trims the end.
pub proof fn lemma_trim_end(s: Seq<char>, k: int)
    requires
        0 <= k <= s.len(),
        forall|j: int| k <= j < s.len() ==> is_space(#[trigger] s[j]),
        k > 0 ==> !is_space(s[k - 1]),
    ensures
        trim_end(s) == s.subrange(0, k),
    decreases s.len() - k,
{
    if k < s.len() {
        lemma_trim_end(s.drop_last(), k);
    }
}

/// The bounds of `cs[lo..hi]` once trimmed.
pub(crate) fn trim_range(cs: &Vec<char>, lo: usize, hi: usize) -> (r: (usize, usize))
    requires
        lo <= hi <= cs.len(),
    ensures
        lo <= r.0 <= r.1 <= hi,
        cs@.subrange(r.0 as int, r.1 as int) == trimmed(cs@.subrange(lo as int, hi as int)),
{
    let ghost seg = cs@.subrange(lo as int, hi as int);
    let mut a: usize = lo;
    while a < hi && is_whitespace(cs[a])
        invariant
            lo <= a <= hi <= cs.len(),
            forall|j: int| lo <= j < a ==> is_space(#[trigger] cs@[j]),
        decreases hi - a,
    {
        a = a + 1;
    }
    let mut b: usize = hi;
    while b > a && is_whitespace(cs[b - 1])
        invariant
            a <= b <= hi <= cs.len(),
            forall|j: int| b <= j < hi ==> is_space(#[trigger] cs@[j]),
        decreases b - a,
    {
        b = b - 1;
    }
    proof {
        assert(forall|j: int| 0 <= j < a - lo ==> is_space(#[trigger] seg[j]));
        lemma_trim_start(seg, a - lo);
        let mid = seg.subrange(a - lo, seg.len() as int);
        assert(forall|j: int| b - a <= j < mid.len() ==> is_space(#[trigger] mid[j]));
        lemma_trim_end(mid, b - a);
    }
    (a, b)
}

/// The characters `cs[lo..hi]` as a string.
pub(crate) fn text_of(cs: &Vec<char>, lo: usize, hi: usize) -> (r: String)
    requires
        lo <= hi <= cs.len(),
    ensures
        r@ == cs@.subrange(lo as int, hi as int),
{
    let mut out: String = String::new();
    let mut i: usize = lo;
    while i < hi
        invariant
            lo <= i <= hi <= cs.len(),
            out@ == cs@.subrange(lo as int, i as int),
        decreases hi - i,
    {
        out.push(cs[i]);
        i = i + 1;
    }
    out
}

/// `s` without leading and trailing whitespace, as a string of its own.
pub fn trim_text(s: &str) -> (r: String)
    ensures
        r@ == trimmed(s@),
{
    let cs: Vec<char> = chars_of(s);
    let (a, b) = trim_range(&cs, 0, cs.len());
    assert(cs@.subrange(0, cs.len() as int) =~= cs@);
    text_of(&cs, a, b)
}

/// Whether two texts hold the same characters.
pub fn same_text(a: &str, b: &str) -> (r: bool)
    ensures
        r == (a@ == b@),
{
    let x: String = a.to_owned();
    let y: String = b.to_owned();
    x == y
}

/// Splitting loses nothing and invents nothing: there is at least one
/// segment, no segment holds a comma, and the segments joined by commas
/// are the text again.
pub proof fn lemma_split_commas(s: Seq<char>)
    ensures
        split_commas(s).len() >= 1,
        join_commas(split_commas(s)) == s,
        forall|i: int, j: int|
            0 <= i < split_commas(s).len() && 0 <= j < split_commas(s)[i].len()
                ==> #[trigger] split_commas(s)[i][j] != ',',
    decreases s.len(),
{
    let segs = split_commas(s);
    if s.len() > 0 {
        let head = split_commas(s.drop_last());
        lemma_split_commas(s.drop_last());
        assert(s =~= s.drop_last().push(s.last()));
        if s.last() == ',' {
            assert(segs.drop_last() =~= head);
        } else {
            assert(segs.drop_last() =~= head.drop_last());
        }
    }
}

/// Trimming the start takes a suffix that does not begin with whitespace.
pub proof fn lemma_trim_start_shape(s: Seq<char>)
    ensures
        trim_start(s).len() <= s.len(),
        trim_start(s) == s.subrange(s.len() - trim_start(s).len(), s.len() as int),
        trim_start(s).len() > 0 ==> !is_space(trim_start(s)[0]),
    decreases s.len(),
{
    if s.len() > 0 && is_space(s[0]) {
        let t = s.drop_first();
        lemma_trim_start_shape(t);
        assert(t.subrange(t.len() - trim_start(t).len(), t.len() as int) =~= s.subrange(
            s.len() - trim_start(t).len(),
            s.len() as int,
        ));
    }
}

/// Trimming the end takes a prefix that does not end with whitespace.
pub proof fn lemma_trim_end_shape(s: Seq<char>)
    ensures
        trim_end(s).len() <= s.len(),
        trim_end(s) == s.subrange(0, trim_end(s).len() as int),
        trim_end(s).len() > 0 ==> !is_space(trim_end(s).last()),
    decreases s.len(),
{
    if s.len() > 0 && is_space(s.last()) {
        let t = s.drop_last();
        lemma_trim_end_shape(t);
        assert(t.subrange(0, trim_end(t).len() as int) =~= s.subrange(
            0,
            trim_end(t).len() as int,
        ));
    }
}

/// A trimmed text is a piece of the text it was trimmed from, with no
/// whitespace at either end.
pub proof fn lemma_trimmed_shape(s: Seq<char>)
    ensures
        exists|a: int, b: int| 0 <= a <= b <= s.len() && trimmed(s) == #[trigger] s.subrange(a, b),
        trimmed(s).len() > 0 ==> !is_space(trimmed(s)[0]) && !is_space(trimmed(s).last()),
{
    let front = trim_start(s);
    lemma_trim_start_shape(s);
    lemma_trim_end_shape(front);
    let a = s.len() - front.len();
    let b = a + trimmed(s).len();
    assert(trimmed(s) =~= s.subrange(a, b));
}

/// The names among segments without a comma are clean.
pub proof fn lemma_names_are_clean(segments: Seq<Seq<char>>)
    requires
        forall|i: int, j: int|
            0 <= i < segments.len() && 0 <= j < segments[i].len() ==> #[trigger] segments[i][j]
                != ',',
    ensures
        forall|k: int| 0 <= k < names_of(segments).len() ==> is_clean(#[trigger] names_of(segments)[k]),
    decreases segments.len(),
{
    if segments.len() == 0 {
        reveal_with_fuel(Seq::filter, 1);
    } else {
        let rest = segments.drop_last();
        let seg = segments.last();
        assert(forall|i: int, j: int|
            0 <= i < rest.len() && 0 <= j < rest[i].len() ==> #[trigger] rest[i][j] != ',');
        lemma_names_are_clean(rest);
        assert(segments =~= rest.push(seg));
        lemma_names_push(rest, seg);
        lemma_trimmed_shape(seg);
        let name = trimmed(seg);
        if is_name(name) {
            let (a, b) = choose|a: int, b: int|
                0 <= a <= b <= seg.len() && name == #[trigger] seg.subrange(a, b);
            assert(forall|j: int| 0 <= j < name.len() ==> name[j] != ',');
        }
    }
}

/// One more segment adds its trimmed text to the names, unless that is empty.
pub proof fn lemma_names_push(segments: Seq<Seq<char>>, seg: Seq<char>)
    ensures
        names_of(segments.push(seg)) == if is_name(trimmed(seg)) {
            names_of(segments).push(trimmed(seg))
        } else {
            names_of(segments)
        },
{
    let f = |x: Seq<char>| trimmed(x);
    let p = |x: Seq<char>| is_name(x);
    segments.lemma_push_map_commute(f, seg);
    segments.map_values(f).lemma_filter_push(trimmed(seg), p);
}

/// Appends the trimmed text of `cs[lo..hi]` to `out`, unless it is empty.
fn push_name(cs: &Vec<char>, lo: usize, hi: usize, out: &mut Vec<String>)
    requires
        lo <= hi <= cs.len(),
    ensures
        views(final(out)@) == if is_name(trimmed(cs@.subrange(lo as int, hi as int))) {
            views(old(out)@).push(trimmed(cs@.subrange(lo as int, hi as int)))
        } else {
            views(old(out)@)
        },
{
    let (a, b) = trim_range(cs, lo, hi);
    if a < b {
        out.push(text_of(cs, a, b));
    }
}

/// The names in the comma-separated list `s`, in the order in which they
/// stand there.
pub fn split_names(s: &str) -> (r: Vec<String>)
    ensures
        views(r@) == comma_names(s@),
{
    let cs: Vec<char> = chars_of(s);
    let n: usize = cs.len();
    let mut out: Vec<String> = Vec::new();
    let ghost mut done: Seq<Seq<char>> = Seq::empty();
    let mut start: usize = 0;
    let mut i: usize = 0;
    proof {
        assert(cs@.subrange(0, 0) =~= Seq::<char>::empty());
        reveal_with_fuel(Seq::filter, 1);
    }
    while i < n
        invariant
            start <= i <= n,
            n == cs.len(),
            cs@ == s@,
            split_commas(cs@.take(i as int)) == done.push(cs@.subrange(start as int, i as int)),
            views(out@) == names_of(done),
        decreases n - i,
    {
        let ghost seg = cs@.subrange(start as int, i as int);
        proof {
            assert(cs@.take(i + 1).drop_last() =~= cs@.take(i as int));
        }
        if cs[i] == ',' {
            push_name(&cs, start, i, &mut out);
            proof {
                lemma_names_push(done, seg);
                done = done.push(seg);
                assert(cs@.subrange(i + 1, i + 1) =~= Seq::<char>::empty());
            }
            start = i + 1;
        } else {
            proof {
                assert(seg.push(cs@[i as int]) =~= cs@.subrange(start as int, i + 1));
            }
        }
        i = i + 1;
    }
    push_name(&cs, start, n, &mut out);
    proof {
        lemma_names_push(done, cs@.subrange(start as int, n as int));
        assert(cs@.take(n as int) =~= cs@);
    }
    out
}

} // verus!
