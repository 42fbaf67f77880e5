//! Comma-separated option lists, such as the value of a bind-mount flag, and
//! the rewrite of their `source=` options.
use vstd::prelude::*;
use crate::command::texts;

verus! {

/// The comma-separated pieces of `s`, in order; there is always at least one.
pub open spec fn split_commas(s: Seq<char>) -> Seq<Seq<char>>
    decreases s.len(),
{
    if s.len() == 0 {
        seq![Seq::<char>::empty()]
    } else {
        let ps = split_commas(s.drop_last());
        if s.last() == ',' {
            ps.push(Seq::<char>::empty())
        } else {
            ps.update(ps.len() - 1, ps.last().push(s.last()))
        }
    }
}

/// The pieces `ps` joined by commas.
pub open spec fn join_commas(ps: Seq<Seq<char>>) -> Seq<char>
    decreases ps.len(),
{
    if ps.len() == 0 {
        Seq::<char>::empty()
    } else if ps.len() == 1 {
        ps[0]
    } else {
        join_commas(ps.drop_last()) + seq![','] + ps.last()
    }
}

/// Splitting at the commas always gives at least one piece.
pub proof fn lemma_split_nonempty(s: Seq<char>)
    ensures
        split_commas(s).len() >= 1,
    decreases s.len(),
{
    if s.len() > 0 {
        lemma_split_nonempty(s.drop_last());
    }
}

/// Splitting at the commas and joining with commas gives back the text.
pub proof fn lemma_join_split(s: Seq<char>)
    ensures
        join_commas(split_commas(s)) == s,
    decreases s.len(),
{
    if s.len() > 0 {
        let t = s.drop_last();
        lemma_join_split(t);
        lemma_split_nonempty(t);
        let ps = split_commas(t);
        if s.last() == ',' {
            assert(ps.push(Seq::<char>::empty()).drop_last() == ps);
            assert(s =~= t + seq![','] + Seq::<char>::empty());
        } else {
            let qs = ps.update(ps.len() - 1, ps.last().push(s.last()));
            if ps.len() == 1 {
                assert(s =~= t.push(s.last()));
            } else {
                assert(qs.drop_last() =~= ps.drop_last());
                assert(join_commas(ps) == join_commas(ps.drop_last()) + seq![','] + ps.last());
                assert(join_commas(qs) == join_commas(qs.drop_last()) + seq![','] + qs.last());
                assert(s =~= t.push(s.last()));
                assert(s =~= join_commas(ps.drop_last()) + seq![','] + ps.last().push(s.last()));
            }
        }
    }
}

/// The comma-separated pieces of `s`.
pub fn split_options(s: &str) -> (r: Vec<String>)
    ensures
        texts(r@) == split_commas(s@),
{
    let n = s.unicode_len();
    let mut r: Vec<String> = Vec::new();
    let mut start: usize = 0;
    let mut i: usize = 0;
    assert(s@.take(0) =~= Seq::<char>::empty());
    assert(texts(r@).push(s@.subrange(0, 0)) =~= seq![Seq::<char>::empty()]);
    while i < n
        invariant
            n == s@.len(),
            start <= i <= n,
            texts(r@).push(s@.subrange(start as int, i as int)) == split_commas(s@.take(i as int)),
        decreases n - i,
    {
        let c = s.get_char(i);
        proof {
            assert(s@.take(i + 1).drop_last() =~= s@.take(i as int));
            assert(s@.take(i + 1).last() == c);
            lemma_split_nonempty(s@.take(i as int));
        }
        if c == ',' {
            let piece = String::from_str(s.substring_char(start, i));
            let ghost old_r = r@;
            r.push(piece);
            proof {
                assert(texts(r@) == texts(old_r).push(s@.subrange(start as int, i as int))) by {
                    assert(texts(r@) =~= texts(old_r).push(s@.subrange(start as int, i as int)));
                }
                assert(s@.subrange(i + 1, i + 1) =~= Seq::<char>::empty());
            }
            start = i + 1;
        } else {
            proof {
                let ps = texts(r@).push(s@.subrange(start as int, i as int));
                assert(s@.subrange(start as int, i + 1) =~= s@.subrange(start as int, i as int).push(c));
                assert(texts(r@).push(s@.subrange(start as int, i + 1)) =~= ps.update(
                    ps.len() - 1,
                    ps.last().push(c),
                ));
            }
        }
        i = i + 1;
    }
    let last = String::from_str(s.substring_char(start, n));
    let ghost old_r = r@;
    r.push(last);
    assert(texts(r@) =~= texts(old_r).push(s@.subrange(start as int, n as int)));
    assert(s@.take(n as int) =~= s@);
    r
}

/// The pieces `ps` joined by commas.
pub fn join_options(ps: &Vec<String>) -> (r: String)
    ensures
        r@ == join_commas(texts(ps@)),
{
    let mut r = String::new();
    let mut k: usize = 0;
    while k < ps.len()
        invariant
            k <= ps@.len(),
            r@ == join_commas(texts(ps@).take(k as int)),
        decreases ps@.len() - k,
    {
        proof {
            assert(texts(ps@).take(k + 1).drop_last() =~= texts(ps@).take(k as int));
        }
        if k > 0 {
            r.append(",");
            proof { reveal_strlit(","); }
        } else {
            assert(r@ =~= Seq::<char>::empty());
        }
        r.append(ps[k].as_str());
        k = k + 1;
        assert(r@ =~= join_commas(texts(ps@).take(k as int)));
    }
    assert(texts(ps@).take(k as int) =~= texts(ps@));
    r
}

/// Whether the option `o` names the mount source.
pub open spec fn is_source(o: Seq<char>) -> bool {
    o.len() >= 7 && o.take(7) == "source="@
}

/// The paths of the `source=` options among `ps`, in order.
pub open spec fn option_sources(ps: Seq<Seq<char>>) -> Seq<Seq<char>>
    decreases ps.len(),
{
    if ps.len() == 0 {
        Seq::<Seq<char>>::empty()
    } else {
        let pre = option_sources(ps.drop_last());
        if is_source(ps.last()) {
            pre.push(ps.last().skip(7))
        } else {
            pre
        }
    }
}

/// The options `ps` with each `source=` option's path replaced by the next of
/// `ts`, taken in order from `ts[base]`; the other options are kept as they are.
pub open spec fn rewrite_options(ps: Seq<Seq<char>>, ts: Seq<Seq<char>>, base: int) -> Seq<
    Seq<char>,
> {
    Seq::new(
        ps.len(),
        |k: int|
            if is_source(ps[k]) {
                "source="@ + ts[base + option_sources(ps.take(k)).len()]
            } else {
                ps[k]
            },
    )
}

/// The source paths of the option list `s`, in order.
pub open spec fn sources_of(s: Seq<char>) -> Seq<Seq<char>> {
    option_sources(split_commas(s))
}

/// The option list `s` with its source paths replaced by those of `ts` from `ts[base]` on.
pub open spec fn fixed_options(s: Seq<char>, ts: Seq<Seq<char>>, base: int) -> Seq<char> {
    join_commas(rewrite_options(split_commas(s), ts, base))
}

/// Longer prefixes of an option list hold at least as many sources.
pub proof fn lemma_sources_grow(ps: Seq<Seq<char>>, j: int, k: int)
    requires
        0 <= j <= k <= ps.len(),
    ensures
        option_sources(ps.take(j)).len() <= option_sources(ps.take(k)).len(),
    decreases k - j,
{
    if j < k {
        assert(ps.take(k).drop_last() =~= ps.take(k - 1));
        lemma_sources_grow(ps, j, k - 1);
    }
}

/// A `source=` option at position `k` is counted among the list's sources.
pub proof fn lemma_source_within(ps: Seq<Seq<char>>, k: int)
    requires
        0 <= k < ps.len(),
        is_source(ps[k]),
    ensures
        option_sources(ps.take(k)).len() + 1 <= option_sources(ps).len(),
{
    assert(ps.take(k + 1).drop_last() =~= ps.take(k));
    assert(ps.take(k + 1).last() == ps[k]);
    lemma_sources_grow(ps, k + 1, ps.len() as int);
    assert(ps.take(ps.len() as int) =~= ps);
}

fn is_source_option(o: &str) -> (r: bool)
    ensures
        r == is_source(o@),
{
    let n = o.unicode_len();
    if n < 7 {
        return false;
    }
    let head = String::from_str(o.substring_char(0, 7));
    let key = String::from_str("source=");
    head == key
}

/// The source paths of the option list `s`, in order.
pub fn source_paths(s: &str) -> (r: Vec<String>)
    ensures
        texts(r@) == sources_of(s@),
{
    let ps = split_options(s);
    let mut r: Vec<String> = Vec::new();
    let mut k: usize = 0;
    assert(texts(ps@).take(0) =~= Seq::<Seq<char>>::empty());
    assert(texts(r@) =~= Seq::<Seq<char>>::empty());
    while k < ps.len()
        invariant
            k <= ps@.len(),
            texts(r@) == option_sources(texts(ps@).take(k as int)),
        decreases ps@.len() - k,
    {
        let ghost pt = texts(ps@);
        proof {
            assert(pt.take(k + 1).drop_last() =~= pt.take(k as int));
            assert(pt.take(k + 1).last() == pt[k as int]);
        }
        let o = ps[k].as_str();
        if is_source_option(o) {
            let n = o.unicode_len();
            let ghost old_r = r@;
            r.push(String::from_str(o.substring_char(7, n)));
            assert(o@.subrange(7, n as int) =~= o@.skip(7));
            assert(texts(r@) =~= texts(old_r).push(o@.skip(7)));
        }
        k = k + 1;
    }
    assert(texts(ps@).take(k as int) =~= texts(ps@));
    r
}

/// The option list `s` with its `source=` paths replaced, in order, by
/// `ts[base]`, `ts[base + 1]`, ...; everything else is kept as it was.
pub fn rewrite_sources(s: &str, ts: &Vec<String>, base: usize) -> (r: String)
    requires
        base + sources_of(s@).len() <= ts@.len(),
    ensures
        r@ == fixed_options(s@, texts(ts@), base as int),
{
    let ps = split_options(s);
    let ghost pt = texts(ps@);
    let ghost want = rewrite_options(pt, texts(ts@), base as int);
    let mut out: Vec<String> = Vec::new();
    let mut used: usize = base;
    let mut k: usize = 0;
    assert(pt.take(0) =~= Seq::<Seq<char>>::empty());
    while k < ps.len()
        invariant
            pt == texts(ps@),
            want == rewrite_options(pt, texts(ts@), base as int),
            base + option_sources(pt).len() <= ts@.len(),
            k <= ps@.len(),
            texts(out@) =~= want.take(k as int),
            used == base + option_sources(pt.take(k as int)).len(),
        decreases ps@.len() - k,
    {
        proof {
            assert(pt.take(k + 1).drop_last() =~= pt.take(k as int));
            assert(pt.take(k + 1).last() == pt[k as int]);
        }
        let o = ps[k].as_str();
        assert(o@ == pt[k as int]);
        let ghost old_out = out@;
        if is_source_option(o) {
            proof {
                lemma_source_within(pt, k as int);
            }
            let mut opt = String::from_str("source=");
            opt.append(ts[used].as_str());
            out.push(opt);
            assert(used < ts.len());
            used = used + 1;
        } else {
            out.push(String::from_str(o));
        }
        assert(texts(out@) =~= texts(old_out).push(want[k as int]));
        k = k + 1;
        assert(texts(out@) =~= want.take(k as int));
    }
    assert(want.take(k as int) =~= want);
    join_options(&out)
}

/// An option list with no `source=` option comes out of the rewrite exactly as
/// it went in, whatever paths are on offer.
pub proof fn lemma_no_source_unchanged(s: Seq<char>, ts: Seq<Seq<char>>, base: int)
    requires
        forall|k: int| 0 <= k < split_commas(s).len() ==> !is_source(#[trigger] split_commas(s)[k]),
    ensures
        fixed_options(s, ts, base) == s,
{
    let ps = split_commas(s);
    assert(rewrite_options(ps, ts, base) =~= ps);
    lemma_join_split(s);
}

/// Appending text without a comma extends the last piece.
pub proof fn lemma_split_append_plain(x: Seq<char>, y: Seq<char>)
    requires
        !y.contains(','),
    ensures
        split_commas(x + y) == split_commas(x).update(
            split_commas(x).len() - 1,
            split_commas(x).last() + y,
        ),
    decreases y.len(),
{
    lemma_split_nonempty(x);
    let ps = split_commas(x);
    if y.len() == 0 {
        assert(x + y =~= x);
        assert(ps.last() + y =~= ps.last());
        assert(ps.update(ps.len() - 1, ps.last()) =~= ps);
    } else {
        let z = y.drop_last();
        assert(!z.contains(',')) by {
            if z.contains(',') {
                let k = choose|k: int| 0 <= k < z.len() && z[k] == ',';
                assert(y[k] == ',');
            }
        }
        lemma_split_append_plain(x, z);
        assert((x + y).drop_last() =~= x + z);
        assert(y.last() != ',') by {
            assert(y[y.len() - 1] == y.last());
        }
        assert((ps.last() + z).push(y.last()) =~= ps.last() + y);
        let qs = split_commas(x + z);
        assert(qs.update(qs.len() - 1, qs.last().push(y.last())) =~= ps.update(
            ps.len() - 1,
            ps.last() + y,
        ));
    }
}

/// Three comma-free options joined by commas split back into those three.
pub proof fn lemma_split_three(a: Seq<char>, b: Seq<char>, c: Seq<char>)
    requires
        !a.contains(','),
        !b.contains(','),
        !c.contains(','),
    ensures
        split_commas(a + seq![','] + b + seq![','] + c) == seq![a, b, c],
{
    let e = Seq::<char>::empty();
    lemma_split_append_plain(e, a);
    assert(e + a =~= a);
    assert(seq![e].update(0, e + a) =~= seq![a]);
    let a1 = a + seq![','];
    assert(a1.drop_last() =~= a);
    assert(split_commas(a1) =~= seq![a, e]);
    lemma_split_append_plain(a1, b);
    assert(seq![a, e].update(1, e + b) =~= seq![a, b]);
    let b1 = a1 + b + seq![','];
    assert(b1.drop_last() =~= a1 + b);
    assert(split_commas(b1) =~= seq![a, b, e]);
    lemma_split_append_plain(b1, c);
    assert(seq![a, b, e].update(2, e + c) =~= seq![a, b, c]);
    assert(b1 + c =~= a + seq![','] + b + seq![','] + c);
}

/// A mount specification `a,source=p,c`, where neither `a` nor `c` is a
/// source option, comes out as `a,source=t,c` with `t` the conversion offered
/// at `base`: the other options and their order are kept.
pub proof fn lemma_source_between(
    a: Seq<char>,
    p: Seq<char>,
    c: Seq<char>,
    ts: Seq<Seq<char>>,
    base: int,
)
    requires
        !a.contains(','),
        !p.contains(','),
        !c.contains(','),
        !is_source(a),
        !is_source(c),
        0 <= base < ts.len(),
    ensures
        fixed_options(a + seq![','] + ("source="@ + p) + seq![','] + c, ts, base) == a + seq![',']
            + ("source="@ + ts[base]) + seq![','] + c,
{
    reveal_strlit("source=");
    let b = "source="@ + p;
    assert(!b.contains(',')) by {
        if b.contains(',') {
            let k = choose|k: int| 0 <= k < b.len() && b[k] == ',';
            if k >= 7 {
                assert(p[k - 7] == ',');
            }
        }
    }
    lemma_split_three(a, b, c);
    let ps = seq![a, b, c];
    assert(b.take(7) =~= "source="@);
    assert(ps.take(0) =~= Seq::<Seq<char>>::empty());
    assert(ps.take(1) =~= seq![a]);
    assert(seq![a].drop_last() =~= Seq::<Seq<char>>::empty());
    assert(seq![a].last() == a);
    assert(option_sources(Seq::<Seq<char>>::empty()) == Seq::<Seq<char>>::empty());
    assert(option_sources(seq![a]) == Seq::<Seq<char>>::empty());
    assert(option_sources(ps.take(1)) =~= Seq::<Seq<char>>::empty());
    let r = rewrite_options(ps, ts, base);
    let t = "source="@ + ts[base];
    assert(r[1] == t);
    assert(r =~= seq![a, t, c]);
    assert(r.drop_last() =~= seq![a, t]);
    assert(r.drop_last().drop_last() =~= seq![a]);
    assert(seq![a, t].drop_last() =~= seq![a]);
    assert(seq![a, t].last() == t);
    assert(join_commas(seq![a]) == a);
    assert(join_commas(seq![a, t]) == a + seq![','] + t);
    assert(join_commas(r.drop_last()) == a + seq![','] + t);
    assert(join_commas(r) == a + seq![','] + t + seq![','] + c);
    assert(a + seq![','] + t + seq![','] + c =~= a + seq![','] + ("source="@ + ts[base]) + seq![','] + c);
}

} // verus!
