//! Text over the character sequence of a string: splitting, trimming, words,
//! and decimal integers, each stated as a spec function and computed by an
//! executable function over a range of a character vector.

use vstd::prelude::*;

verus! {

/// `c` is white space in the sense of `char::is_whitespace` (Unicode `White_Space`).
pub open spec fn is_ws(c: char) -> bool {
    let u = c as u32;
    ||| 0x09 <= u <= 0x0D
    ||| u == 0x20
    ||| u == 0x85
    ||| u == 0xA0
    ||| u == 0x1680
    ||| 0x2000 <= u <= 0x200A
    ||| u == 0x2028
    ||| u == 0x2029
    ||| u == 0x202F
    ||| u == 0x205F
    ||| u == 0x3000
}

/// What separates pieces of a text.
#[derive(Clone, Copy)]
pub enum Sep {
    /// One given character.
    Char(char),
    /// Any white-space character.
    Whitespace,
}

pub open spec fn is_sep(sep: Sep, c: char) -> bool {
    match sep {
        Sep::Char(d) => c == d,
        Sep::Whitespace => is_ws(c),
    }
}

/// The pieces of `s` between separators, as `str::split` yields them: one more
/// piece than there are separators, empty pieces included.
pub open spec fn pieces(s: Seq<char>, sep: Sep) -> Seq<Seq<char>>
    decreases s.len(),
{
    if s.len() == 0 {
        seq![Seq::<char>::empty()]
    } else {
        let prev = pieces(s.drop_last(), sep);
        if is_sep(sep, s.last()) {
            prev.push(Seq::<char>::empty())
        } else {
            prev.update(prev.len() - 1, prev.last().push(s.last()))
        }
    }
}

/// The non-empty members of `xs`, in order.
pub open spec fn drop_empty(xs: Seq<Seq<char>>) -> Seq<Seq<char>>
    decreases xs.len(),
{
    if xs.len() == 0 {
        Seq::<Seq<char>>::empty()
    } else if xs.last().len() == 0 {
        drop_empty(xs.drop_last())
    } else {
        drop_empty(xs.drop_last()).push(xs.last())
    }
}

/// The words of `s`, as `str::split_whitespace` yields them.
pub open spec fn words(s: Seq<char>) -> Seq<Seq<char>> {
    drop_empty(pieces(s, Sep::Whitespace))
}

/// `s` without its leading white space.
pub open spec fn trim_start(s: Seq<char>) -> Seq<char>
    decreases s.len(),
{
    if s.len() > 0 && is_ws(s[0]) {
        trim_start(s.drop_first())
    } else {
        s
    }
}

/// `s` without its trailing white space.
pub open spec fn trim_end(s: Seq<char>) -> Seq<char>
    decreases s.len(),
{
    if s.len() > 0 && is_ws(s.last()) {
        trim_end(s.drop_last())
    } else {
        s
    }
}

/// `s` without leading and trailing white space, as `str::trim` gives it.
pub open spec fn trim(s: Seq<char>) -> Seq<char> {
    trim_end(trim_start(s))
}

pub open spec fn has_prefix(s: Seq<char>, p: Seq<char>) -> bool {
    p.len() <= s.len() && s.subrange(0, p.len() as int) == p
}

pub open spec fn has_suffix(s: Seq<char>, p: Seq<char>) -> bool {
    p.len() <= s.len() && s.subrange(s.len() - p.len(), s.len() as int) == p
}

pub open spec fn is_digit(c: char) -> bool {
    '0' <= c <= '9'
}

pub open spec fn all_digits(d: Seq<char>) -> bool {
    forall|i: int| 0 <= i < d.len() ==> is_digit(#[trigger] d[i])
}

/// The number that the decimal digits `d` write.
pub open spec fn digits_value(d: Seq<char>) -> int
    decreases d.len(),
{
    if d.len() == 0 {
        0
    } else {
        digits_value(d.drop_last()) * 10 + (d.last() as int - '0' as int)
    }
}

/// What `<i64 as FromStr>::from_str` gives for `w`: an optional `+` or `-`,
/// then at least one decimal digit and nothing else, within the range of `i64`.
pub open spec fn parse_i64(w: Seq<char>) -> Option<int> {
    let neg = w.len() > 0 && w[0] == '-';
    let d = if w.len() > 0 && (w[0] == '-' || w[0] == '+') {
        w.drop_first()
    } else {
        w
    };
    let v = if neg {
        -digits_value(d)
    } else {
        digits_value(d)
    };
    if d.len() > 0 && all_digits(d) && i64::MIN <= v <= i64::MAX {
        Some(v)
    } else {
        None
    }
}

/// The characters of `s`, in order.
pub fn chars_of(s: &str) -> (v: Vec<char>)
    ensures
        v@ == s@,
{
    let mut v: Vec<char> = Vec::new();
    for c in it: s.chars()
        invariant
            v@ == it.seq().take(it.index() as int),
    {
        v.push(c);
    }
    v
}

/// Whether `a` and `b` hold the same characters.
pub fn str_equal(a: &str, b: &str) -> (r: bool)
    ensures
        r == (a@ == b@),
{
    let x = chars_of(a);
    let y = chars_of(b);
    if x.len() != y.len() {
        return false;
    }
    let mut i: usize = 0;
    while i < x.len()
        invariant
            x@ == a@,
            y@ == b@,
            x.len() == y.len(),
            i <= x.len(),
            forall|j: int| 0 <= j < i ==> x@[j] == y@[j],
        decreases x.len() - i,
    {
        if x[i] != y[i] {
            assert(x@[i as int] != y@[i as int]);
            return false;
        }
        i = i + 1;
    }
    assert(x@ =~= y@);
    true
}

/// Whether `c` is white space; see `is_ws`.
pub fn is_whitespace(c: char) -> (b: bool)
    ensures
        b == is_ws(c),
{
    let u = c as u32;
    (0x09 <= u && u <= 0x0D) || u == 0x20 || u == 0x85 || u == 0xA0 || u == 0x1680 || (0x2000
        <= u && u <= 0x200A) || u == 0x2028 || u == 0x2029 || u == 0x202F || u == 0x205F || u
        == 0x3000
}

pub fn is_separator(sep: Sep, c: char) -> (b: bool)
    ensures
        b == is_sep(sep, c),
{
    match sep {
        Sep::Char(d) => c == d,
        Sep::Whitespace => is_whitespace(c),
    }
}

/// The texts that the ranges `rs` cut out of `s`.
pub open spec fn range_views(s: Seq<char>, rs: Seq<(usize, usize)>) -> Seq<Seq<char>> {
    Seq::new(rs.len(), |k: int| s.subrange(rs[k].0 as int, rs[k].1 as int))
}

pub open spec fn ranges_within(rs: Seq<(usize, usize)>, lo: int, hi: int) -> bool {
    forall|k: int| 0 <= k < rs.len() ==> lo <= (#[trigger] rs[k]).0 <= rs[k].1 <= hi
}

proof fn lemma_pieces_step(s: Seq<char>, i: int, sep: Sep)
    requires
        0 <= i < s.len(),
    ensures
        pieces(s.take(i + 1), sep) == if is_sep(sep, s[i]) {
            pieces(s.take(i), sep).push(Seq::<char>::empty())
        } else {
            let prev = pieces(s.take(i), sep);
            prev.update(prev.len() - 1, prev.last().push(s[i]))
        },
{
    assert(s.take(i + 1).drop_last() =~= s.take(i));
}

/// There is always at least one piece.
pub proof fn lemma_pieces_nonempty(s: Seq<char>, sep: Sep)
    ensures
        pieces(s, sep).len() >= 1,
    decreases s.len(),
{
    if s.len() > 0 {
        lemma_pieces_nonempty(s.drop_last(), sep);
    }
}

/// Joining two texts with a separator joins their pieces.
pub proof fn lemma_pieces_join(a: Seq<char>, b: Seq<char>, c: char)
    ensures
        pieces(a + seq![c] + b, Sep::Char(c)) == pieces(a, Sep::Char(c)) + pieces(b, Sep::Char(c)),
    decreases b.len(),
{
    let sep = Sep::Char(c);
    let x = a + seq![c] + b;
    if b.len() == 0 {
        assert(x.drop_last() =~= a);
        assert(pieces(b, sep) =~= seq![Seq::<char>::empty()]);
        assert(pieces(x, sep) =~= pieces(a, sep) + pieces(b, sep));
    } else {
        lemma_pieces_join(a, b.drop_last(), c);
        lemma_pieces_nonempty(b.drop_last(), sep);
        assert(x.drop_last() =~= a + seq![c] + b.drop_last());
        assert(x.last() == b.last());
        let p = pieces(a, sep);
        let q = pieces(b.drop_last(), sep);
        if b.last() == c {
            assert(pieces(x, sep) =~= p + q.push(Seq::<char>::empty()));
        } else {
            assert((p + q).update((p + q).len() - 1, (p + q).last().push(b.last())) =~= p
                + q.update(q.len() - 1, q.last().push(b.last())));
        }
    }
}

/// The ranges of the pieces of `cs[lo..hi]` between separators.
pub fn split_ranges(cs: &Vec<char>, lo: usize, hi: usize, sep: Sep) -> (rs: Vec<(usize, usize)>)
    requires
        lo <= hi <= cs.len(),
    ensures
        ranges_within(rs@, lo as int, hi as int),
        range_views(cs@, rs@) == pieces(cs@.subrange(lo as int, hi as int), sep),
{
    let ghost s = cs@.subrange(lo as int, hi as int);
    let mut rs: Vec<(usize, usize)> = Vec::new();
    let mut start = lo;
    let mut i = lo;
    assert(s.take(0) =~= Seq::<char>::empty());
    assert(s.take(0).len() == 0);
    assert(cs@.subrange(lo as int, lo as int) =~= Seq::<char>::empty());
    assert(range_views(cs@, rs@.push((start, i))) =~= pieces(s.take(0), sep));
    while i < hi
        invariant
            lo <= start <= i <= hi <= cs.len(),
            s == cs@.subrange(lo as int, hi as int),
            ranges_within(rs@, lo as int, start as int),
            range_views(cs@, rs@.push((start, i))) == pieces(s.take(i - lo), sep),
        decreases hi - i,
    {
        let c = cs[i];
        proof {
            lemma_pieces_step(s, i - lo, sep);
            lemma_pieces_nonempty(s.take(i - lo), sep);
            assert(s[i - lo] == c);
        }
        if is_separator(sep, c) {
            let ghost prev = rs@.push((start, i));
            rs.push((start, i));
            start = i + 1;
            i = i + 1;
            proof {
                assert(cs@.subrange(start as int, i as int) =~= Seq::<char>::empty());
                assert(range_views(cs@, rs@.push((start, i))) =~= range_views(cs@, prev).push(
                    Seq::<char>::empty(),
                ));
            }
        } else {
            let ghost prev = rs@.push((start, i));
            i = i + 1;
            proof {
                assert(cs@.subrange(start as int, i as int) =~= cs@.subrange(
                    start as int,
                    i - 1,
                ).push(c));
                let pv = range_views(cs@, prev);
                assert(range_views(cs@, rs@.push((start, i))) =~= pv.update(
                    pv.len() - 1,
                    pv.last().push(c),
                ));
            }
        }
    }
    assert(s.take(hi - lo) =~= s);
    rs.push((start, i));
    rs
}

/// The range of `cs[a..b]` without its leading and trailing white space.
pub fn trim_range(cs: &Vec<char>, a: usize, b: usize) -> (r: (usize, usize))
    requires
        a <= b <= cs.len(),
    ensures
        a <= r.0 <= r.1 <= b,
        cs@.subrange(r.0 as int, r.1 as int) == trim(cs@.subrange(a as int, b as int)),
{
    let mut x = a;
    while x < b && is_whitespace(cs[x])
        invariant
            a <= x <= b <= cs.len(),
            trim_start(cs@.subrange(a as int, b as int)) == trim_start(
                cs@.subrange(x as int, b as int),
            ),
        decreases b - x,
    {
        assert(cs@.subrange(x as int, b as int).drop_first() =~= cs@.subrange(x + 1, b as int));
        x = x + 1;
    }
    assert(trim_start(cs@.subrange(x as int, b as int)) == cs@.subrange(x as int, b as int));
    let mut y = b;
    while y > x && is_whitespace(cs[y - 1])
        invariant
            a <= x <= y <= b <= cs.len(),
            trim_end(cs@.subrange(x as int, b as int)) == trim_end(
                cs@.subrange(x as int, y as int),
            ),
        decreases y - x,
    {
        assert(cs@.subrange(x as int, y as int).drop_last() =~= cs@.subrange(x as int, y - 1));
        y = y - 1;
    }
    (x, y)
}

/// Whether `cs[a..b]` begins with `p`.
pub fn range_has_prefix(cs: &Vec<char>, a: usize, b: usize, p: &Vec<char>) -> (r: bool)
    requires
        a <= b <= cs.len(),
    ensures
        r == has_prefix(cs@.subrange(a as int, b as int), p@),
{
    if p.len() > b - a {
        return false;
    }
    let mut k: usize = 0;
    while k < p.len()
        invariant
            p.len() <= b - a,
            a <= b <= cs.len(),
            k <= p.len(),
            forall|j: int| 0 <= j < k ==> cs@[a + j] == p@[j],
        decreases p.len() - k,
    {
        if cs[a + k] != p[k] {
            assert(cs@.subrange(a as int, b as int).subrange(0, p.len() as int)[k as int]
                != p@[k as int]);
            return false;
        }
        k = k + 1;
    }
    assert(cs@.subrange(a as int, b as int).subrange(0, p.len() as int) =~= p@);
    true
}

/// Whether `cs[a..b]` ends with `p`.
pub fn range_has_suffix(cs: &Vec<char>, a: usize, b: usize, p: &Vec<char>) -> (r: bool)
    requires
        a <= b <= cs.len(),
    ensures
        r == has_suffix(cs@.subrange(a as int, b as int), p@),
{
    if p.len() > b - a {
        return false;
    }
    let start = b - p.len();
    let mut k: usize = 0;
    while k < p.len()
        invariant
            p.len() <= b - a,
            start == b - p.len(),
            a <= b <= cs.len(),
            k <= p.len(),
            forall|j: int| 0 <= j < k ==> cs@[start + j] == p@[j],
        decreases p.len() - k,
    {
        if cs[start + k] != p[k] {
            let ghost s = cs@.subrange(a as int, b as int);
            assert(s.subrange(s.len() - p.len(), s.len() as int)[k as int] != p@[k as int]);
            return false;
        }
        k = k + 1;
    }
    let ghost s = cs@.subrange(a as int, b as int);
    assert(s.subrange(s.len() - p.len(), s.len() as int) =~= p@);
    true
}

proof fn lemma_drop_empty_step(xs: Seq<Seq<char>>, k: int)
    requires
        0 <= k < xs.len(),
    ensures
        drop_empty(xs.take(k + 1)) == if xs[k].len() == 0 {
            drop_empty(xs.take(k))
        } else {
            drop_empty(xs.take(k)).push(xs[k])
        },
{
    assert(xs.take(k + 1).drop_last() =~= xs.take(k));
}

/// The ranges of the words of `cs[a..b]`.
pub fn word_ranges(cs: &Vec<char>, a: usize, b: usize) -> (ws: Vec<(usize, usize)>)
    requires
        a <= b <= cs.len(),
    ensures
        ranges_within(ws@, a as int, b as int),
        range_views(cs@, ws@) == words(cs@.subrange(a as int, b as int)),
{
    let ps = split_ranges(cs, a, b, Sep::Whitespace);
    let ghost pv = range_views(cs@, ps@);
    let mut ws: Vec<(usize, usize)> = Vec::new();
    assert(pv.take(0) =~= Seq::<Seq<char>>::empty());
    assert(range_views(cs@, ws@) =~= drop_empty(pv.take(0)));
    for k in 0..ps.len()
        invariant
            a <= b <= cs.len(),
            pv == range_views(cs@, ps@),
            ranges_within(ps@, a as int, b as int),
            ranges_within(ws@, a as int, b as int),
            range_views(cs@, ws@) == drop_empty(pv.take(k as int)),
    {
        let (x, y) = ps[k];
        assert(ps@[k as int] == (x, y));
        proof {
            lemma_drop_empty_step(pv, k as int);
            assert(pv[k as int] == cs@.subrange(x as int, y as int));
        }
        if x < y {
            let ghost prev = ws@;
            ws.push((x, y));
            assert(range_views(cs@, ws@) =~= range_views(cs@, prev).push(
                cs@.subrange(x as int, y as int),
            ));
        } else {
            assert(cs@.subrange(x as int, y as int) =~= Seq::<char>::empty());
        }
    }
    assert(pv.take(ps.len() as int) =~= pv);
    ws
}

proof fn lemma_digits_value_grows(d: Seq<char>)
    requires
        d.len() > 0,
        all_digits(d),
    ensures
        digits_value(d) >= digits_value(d.drop_last()),
        digits_value(d.drop_last()) >= 0,
    decreases d.len(),
{
    if d.len() > 1 {
        assert(all_digits(d.drop_last()));
        lemma_digits_value_grows(d.drop_last());
    }
    assert(is_digit(d[d.len() - 1]));
}

/// The value of `cs[a..b]` read as an `i64`, as `<i64 as FromStr>::from_str`
/// gives it.
pub fn parse_i64_range(cs: &Vec<char>, a: usize, b: usize) -> (r: Option<i64>)
    requires
        a <= b <= cs.len(),
    ensures
        r matches Some(n) ==> parse_i64(cs@.subrange(a as int, b as int)) == Some(n as int),
        r is None ==> parse_i64(cs@.subrange(a as int, b as int)) is None,
{
    let ghost w = cs@.subrange(a as int, b as int);
    let mut neg = false;
    let mut x = a;
    if a < b && (cs[a] == '-' || cs[a] == '+') {
        neg = cs[a] == '-';
        x = a + 1;
    }
    let ghost d = cs@.subrange(x as int, b as int);
    assert(a < b ==> w[0] == cs@[a as int]);
    assert(a < b && (w[0] == '-' || w[0] == '+') ==> d =~= w.drop_first());
    assert(!(a < b && (w[0] == '-' || w[0] == '+')) ==> d =~= w);
    if x == b {
        assert(d.len() == 0);
        assert(w.len() > 0 && (w[0] == '-' || w[0] == '+') ==> w.drop_first().len() == 0);
        return None;
    }
    // One past the largest magnitude an `i64` can have.
    let cap: u128 = 9223372036854775808;
    let mut mag: u128 = 0;
    let mut over = false;
    let mut i = x;
    while i < b
        invariant
            a <= x < b <= cs.len(),
            x <= i <= b,
            d == cs@.subrange(x as int, b as int),
            w == cs@.subrange(a as int, b as int),
            neg == (w.len() > 0 && w[0] == '-'),
            d == (if w.len() > 0 && (w[0] == '-' || w[0] == '+') {
                w.drop_first()
            } else {
                w
            }),
            cap == 9223372036854775808,
            all_digits(cs@.subrange(x as int, i as int)),
            !over ==> mag == digits_value(cs@.subrange(x as int, i as int)) && mag <= cap,
            over ==> digits_value(cs@.subrange(x as int, i as int)) > cap,
        decreases b - i,
    {
        let c = cs[i];
        let ghost p = cs@.subrange(x as int, i as int);
        let ghost q = cs@.subrange(x as int, i + 1);
        assert(q =~= p.push(c));
        assert(q.drop_last() =~= p);
        if !('0' <= c && c <= '9') {
            assert(d[i - x] == c);
            return None;
        }
        assert(all_digits(q));
        proof {
            lemma_digits_value_grows(q);
        }
        if !over {
            let dv = (c as u32 - '0' as u32) as u128;
            mag = mag * 10 + dv;
            if mag > cap {
                over = true;
            }
        }
        i = i + 1;
    }
    assert(cs@.subrange(x as int, i as int) =~= d);
    if over {
        return None;
    }
    if neg {
        if mag == cap {
            Some(i64::MIN)
        } else {
            Some(0i64 - (mag as i64))
        }
    } else {
        if mag < cap {
            Some(mag as i64)
        } else {
            None
        }
    }
}

} // verus!
