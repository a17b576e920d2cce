use vstd::prelude::*;
use vstd::string::*;

verus! {

/// `s` with every non-overlapping occurrence of `pat`, scanned from the left,
/// replaced by `rep`.
pub open spec fn replace_all(s: Seq<char>, pat: Seq<char>, rep: Seq<char>) -> Seq<char>
    decreases s.len(),
{
    if pat.len() == 0 || s.len() < pat.len() {
        s
    } else if s.subrange(0, pat.len() as int) == pat {
        rep + replace_all(s.subrange(pat.len() as int, s.len() as int), pat, rep)
    } else {
        seq![s[0]] + replace_all(s.drop_first(), pat, rep)
    }
}

/// The part of a port key before its first `/` (the whole key when it has none).
pub open spec fn port_part(k: Seq<char>) -> Seq<char>
    decreases k.len(),
{
    if k.len() == 0 {
        k
    } else if k[0] == '/' {
        Seq::empty()
    } else {
        seq![k[0]] + port_part(k.drop_first())
    }
}

fn matches_at(s: &str, i: usize, pat: &str) -> (r: bool)
    requires
        i + pat@.len() <= s@.len(),
        s@.len() <= usize::MAX,
    ensures
        r == (s@.subrange(i as int, i + pat@.len()) == pat@),
{
    let m = pat.unicode_len();
    let mut j: usize = 0;
    while j < m
        invariant
            m == pat@.len(),
            j <= m,
            i + m <= s@.len(),
            s@.len() <= usize::MAX,
            forall|t: int| 0 <= t < j ==> s@[i + t] == pat@[t],
        decreases m - j,
    {
        if s.get_char(i + j) != pat.get_char(j) {
            assert(s@.subrange(i as int, i + m)[j as int] != pat@[j as int]);
            return false;
        }
        j = j + 1;
    }
    assert(s@.subrange(i as int, i + m) =~= pat@);
    true
}

/// Replaces every non-overlapping occurrence of `pat` in `s`, from the left, by `rep`.
pub fn replace_all_occurrences(s: &str, pat: &str, rep: &str) -> (r: String)
    requires
        pat@.len() > 0,
    ensures
        r@ == replace_all(s@, pat@, rep@),
{
    let n = s.unicode_len();
    let m = pat.unicode_len();
    let mut out = String::new();
    let mut start: usize = 0;
    let mut i: usize = 0;
    assert(s@.subrange(0, n as int) =~= s@);
    assert(out@ + s@.subrange(0, 0) =~= Seq::<char>::empty());
    while i < n
        invariant
            n == s@.len(),
            m == pat@.len(),
            m > 0,
            start <= i <= n,
            out@ + s@.subrange(start as int, i as int) + replace_all(
                s@.subrange(i as int, n as int),
                pat@,
                rep@,
            ) == replace_all(s@, pat@, rep@),
        decreases n - i,
    {
        let rest = Ghost(s@.subrange(i as int, n as int));
        if n - i >= m && matches_at(s, i, pat) {
            assert(rest@.subrange(0, m as int) =~= s@.subrange(i as int, i + m));
            assert(rest@.subrange(m as int, rest@.len() as int) =~= s@.subrange(
                i + m,
                n as int,
            ));
            let seg = s.substring_char(start, i);
            out.append(seg);
            out.append(rep);
            i = i + m;
            start = i;
            assert(s@.subrange(start as int, i as int) =~= Seq::<char>::empty());
            assert(out@ + s@.subrange(start as int, i as int) =~= out@);
        } else {
            if n - i >= m {
                assert(rest@.subrange(0, m as int) =~= s@.subrange(i as int, i + m));
            }
            assert(rest@.drop_first() =~= s@.subrange(i + 1, n as int));
            assert(s@.subrange(start as int, i + 1) =~= s@.subrange(start as int, i as int)
                + seq![s@[i as int]]);
            if n - i < m {
                assert(replace_all(rest@, pat@, rep@) == rest@);
                assert(replace_all(rest@.drop_first(), pat@, rep@) == rest@.drop_first());
                assert(rest@ =~= seq![rest@[0]] + rest@.drop_first());
            }
            i = i + 1;
        }
    }
    assert(s@.subrange(n as int, n as int) =~= Seq::<char>::empty());
    assert(replace_all(Seq::<char>::empty(), pat@, rep@) == Seq::<char>::empty());
    let seg = s.substring_char(start, n);
    out.append(seg);
    assert(out@ =~= replace_all(s@, pat@, rep@));
    out
}

/// The port number of a port key such as `8080/tcp`: the text before its first `/`.
pub fn port_number_of(key: &str) -> (r: String)
    ensures
        r@ == port_part(key@),
{
    let n = key.unicode_len();
    let mut i: usize = 0;
    assert(key@.subrange(0, n as int) =~= key@);
    assert(key@.subrange(0, 0) + port_part(key@) =~= port_part(key@));
    while i < n && key.get_char(i) != '/'
        invariant
            n == key@.len(),
            i <= n,
            port_part(key@) == key@.subrange(0, i as int) + port_part(
                key@.subrange(i as int, n as int),
            ),
        decreases n - i,
    {
        let ghost rest = key@.subrange(i as int, n as int);
        assert(rest.drop_first() =~= key@.subrange(i + 1, n as int));
        assert(key@.subrange(0, i + 1) =~= key@.subrange(0, i as int) + seq![key@[i as int]]);
        i = i + 1;
    }
    assert(port_part(key@.subrange(i as int, n as int)) =~= Seq::<char>::empty());
    assert(key@.subrange(0, i as int) + Seq::<char>::empty() =~= key@.subrange(0, i as int));
    key.substring_char(0, i).to_owned()
}

/// Substitution touches nothing but the pattern: text in which the pattern does not occur
/// comes back unchanged.
pub proof fn lemma_replace_all_without_pattern(s: Seq<char>, pat: Seq<char>, rep: Seq<char>)
    requires
        forall|i: int|
            0 <= i && i + pat.len() <= s.len() ==> #[trigger] s.subrange(i, i + pat.len()) != pat,
    ensures
        replace_all(s, pat, rep) == s,
    decreases s.len(),
{
    if pat.len() == 0 || s.len() < pat.len() {
    } else {
        let z: int = 0;
        assert(s.subrange(z, z + pat.len()) != pat);
        assert(s.subrange(z, z + pat.len()) == s.subrange(0, pat.len() as int));
        let t = s.drop_first();
        assert forall|i: int| 0 <= i && i + pat.len() <= t.len() implies #[trigger] t.subrange(
            i,
            i + pat.len(),
        ) != pat by {
            assert(t.subrange(i, i + pat.len()) =~= s.subrange(i + 1, i + 1 + pat.len()));
        }
        lemma_replace_all_without_pattern(t, pat, rep);
        assert(seq![s[0]] + t =~= s);
    }
}

} // verus!
