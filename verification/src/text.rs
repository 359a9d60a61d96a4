//! Text replacement with a non-empty pattern, as `str::replace` does it for
//! such a pattern: every non-overlapping match, found from the left, is
//! replaced.
use vstd::prelude::*;

verus! {

/// `s` with every non-overlapping match of `from`, found from the left,
/// replaced by `to`.
pub open spec fn replaced(s: Seq<char>, from: Seq<char>, to: Seq<char>) -> Seq<char>
    decreases s.len(),
{
    if from.len() == 0 || s.len() < from.len() {
        s
    } else if s.take(from.len() as int) == from {
        to + replaced(s.skip(from.len() as int), from, to)
    } else {
        seq![s[0]] + replaced(s.skip(1), from, to)
    }
}

/// The characters of `s`.
fn chars_of(s: &str) -> (cs: Vec<char>)
    ensures
        cs@ == s@,
{
    let n = s.unicode_len();
    let mut cs: Vec<char> = Vec::new();
    let mut i: usize = 0;
    while i < n
        invariant
            i <= n,
            n == s@.len(),
            cs@ == s@.take(i as int),
        decreases n - i,
    {
        cs.push(s.get_char(i));
        i = i + 1;
        assert(cs@ =~= s@.take(i as int));
    }
    assert(s@.take(n as int) =~= s@);
    cs
}

/// Whether `pattern` occurs in `cs` at `at`.
fn matches_at(cs: &Vec<char>, pattern: &Vec<char>, at: usize) -> (found: bool)
    requires
        at + pattern@.len() <= cs@.len(),
    ensures
        found == (cs@.subrange(at as int, at + pattern@.len()) == pattern@),
{
    let n = cs.len();
    let mut j: usize = 0;
    while j < pattern.len()
        invariant
            n == cs@.len(),
            j <= pattern@.len(),
            at + pattern@.len() <= cs@.len(),
            forall|k: int| 0 <= k < j ==> cs@[at + k] == pattern@[k],
        decreases pattern@.len() - j,
    {
        if cs[at + j] != pattern[j] {
            assert(cs@.subrange(at as int, at + pattern@.len())[j as int] != pattern@[j as int]);
            return false;
        }
        j = j + 1;
    }
    assert(cs@.subrange(at as int, at + pattern@.len()) =~= pattern@);
    true
}

/// `s` with every non-overlapping match of `from`, found from the left,
/// replaced by `to`. The pattern must not be empty (where `str::replace`
/// would insert `to` between all characters).
pub fn replace_all(s: &str, from: &str, to: &str) -> (r: String)
    requires
        from@.len() > 0,
    ensures
        r@ == replaced(s@, from@, to@),
{
    let sc = chars_of(s);
    let fc = chars_of(from);
    let n = sc.len();
    let m = fc.len();
    let ghost sv = s@;
    let ghost fv = from@;
    let ghost tv = to@;
    let mut out = String::new();
    let mut seg: usize = 0;
    let mut i: usize = 0;
    assert(sv.skip(0) =~= sv);
    assert(out@ + sv.subrange(0, 0) =~= Seq::<char>::empty());
    while m <= n - i
        invariant
            sv == s@,
            fv == from@,
            tv == to@,
            sc@ == sv,
            fc@ == fv,
            n == sv.len(),
            m == fv.len(),
            m > 0,
            seg <= i <= n,
            out@ + sv.subrange(seg as int, i as int) + replaced(sv.skip(i as int), fv, tv) == replaced(sv, fv, tv),
        decreases n - i,
    {
        let ghost rest = sv.skip(i as int);
        assert(rest.take(m as int) =~= sv.subrange(i as int, i + m));
        if matches_at(&sc, &fc, i) {
            assert(rest.skip(m as int) =~= sv.skip(i + m));
            let piece = s.substring_char(seg, i);
            let ghost before = out@;
            out.append(piece);
            out.append(to);
            assert(out@ + sv.subrange((i + m) as int, (i + m) as int) + replaced(sv.skip(i + m), fv, tv)
                =~= before + sv.subrange(seg as int, i as int) + replaced(rest, fv, tv));
            i = i + m;
            seg = i;
        } else {
            assert(rest.skip(1) =~= sv.skip(i + 1));
            assert(sv.subrange(seg as int, i as int) + replaced(rest, fv, tv)
                =~= sv.subrange(seg as int, i + 1) + replaced(sv.skip(i + 1), fv, tv));
            i = i + 1;
        }
    }
    proof {
        assert(replaced(sv.skip(i as int), fv, tv) == sv.skip(i as int));
        assert(sv.subrange(seg as int, i as int) + sv.skip(i as int) =~= sv.subrange(seg as int, n as int));
    }
    let tail = s.substring_char(seg, n);
    out.append(tail);
    out
}

} // verus!
