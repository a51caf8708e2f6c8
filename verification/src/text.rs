//! Character-level text operations: equality, search, placeholder
//! substitution, lower-casing, ordering and shortening of names.
use vstd::prelude::*;

verus! {

/// How two names are ordered, character by character.
#[derive(PartialEq, Eq, Structural, Clone, Copy, Debug)]
pub enum NameOrder {
    Less,
    Equal,
    Greater,
}

/// `pat` occurs in `s` starting at index `i`.
pub open spec fn occurs_at(s: Seq<char>, pat: Seq<char>, i: int) -> bool {
    0 <= i && i + pat.len() <= s.len() && s.subrange(i, i + pat.len()) == pat
}

/// `pat` occurs somewhere in `s` (the empty pattern occurs everywhere).
pub open spec fn contains_seq(s: Seq<char>, pat: Seq<char>) -> bool {
    exists|i: int| occurs_at(s, pat, i)
}

/// `s` with every non-overlapping occurrence of `pat`, scanned from the
/// left, replaced by `rep`. The empty pattern occurs before every character
/// and at the end, so `rep` is put there.
pub open spec fn replaced(s: Seq<char>, pat: Seq<char>, rep: Seq<char>) -> Seq<char>
    decreases s.len(),
{
    if pat.len() == 0 {
        if s.len() == 0 {
            rep
        } else {
            rep + seq![s[0]] + replaced(s.skip(1), pat, rep)
        }
    } else if s.len() < pat.len() {
        s
    } else if s.take(pat.len() as int) == pat {
        rep + replaced(s.skip(pat.len() as int), pat, rep)
    } else {
        seq![s[0]] + replaced(s.skip(1), pat, rep)
    }
}

/// Lexicographic order on characters by their code points: the order in
/// which Rust compares strings.
pub open spec fn lex_order(a: Seq<char>, b: Seq<char>) -> NameOrder
    decreases a.len(),
{
    if a.len() == 0 && b.len() == 0 {
        NameOrder::Equal
    } else if a.len() == 0 {
        NameOrder::Less
    } else if b.len() == 0 {
        NameOrder::Greater
    } else if (a[0] as int) < (b[0] as int) {
        NameOrder::Less
    } else if (a[0] as int) > (b[0] as int) {
        NameOrder::Greater
    } else {
        lex_order(a.skip(1), b.skip(1))
    }
}

/// `s` shortened to at most `max` characters followed by an ellipsis
/// when it is longer than `max` characters.
pub open spec fn ellipsed(s: Seq<char>, max: nat) -> Seq<char> {
    if s.len() <= max {
        s
    } else {
        s.take(max as int) + seq!['.', '.', '.']
    }
}

/// What `str::to_lowercase` makes of a string: the Unicode lower-case
/// mapping of its characters (which may change the length, and which maps
/// a capital sigma at the end of a word to the final small sigma).
pub uninterp spec fn lowercase(s: Seq<char>) -> Seq<char>;

/// Calls `str::to_lowercase`. Claimed: the result is `lowercase` of the
/// argument's characters, a function of those characters alone (Rust's
/// lower-casing does not depend on a locale).
#[verifier::external_body]
pub(crate) fn to_lowercase(s: &str) -> (r: String)
    ensures
        r@ == lowercase(s@),
{
    s.to_lowercase()
}

/// Collects characters into a `String` through `FromIterator<char>`.
/// Claimed: the string holds exactly these characters, in order.
#[verifier::external_body]
pub(crate) fn string_from_chars(v: &Vec<char>) -> (s: String)
    ensures
        s@ == v@,
{
    v.iter().collect()
}

/// The characters of `s`, in order.
pub fn chars_of(s: &str) -> (v: Vec<char>)
    ensures
        v@ == s@,
{
    let mut v: Vec<char> = Vec::new();
    for c in it: s.chars()
        invariant
            v@ == it.seq().take(it.index() as int),
            it.seq() == s@,
    {
        v.push(c);
    }
    v
}

/// Whether `pat` occurs in `s` at index `i`.
fn matches_at(s: &Vec<char>, pat: &Vec<char>, i: usize) -> (b: bool)
    ensures
        b == occurs_at(s@, pat@, i as int),
{
    if i > s.len() || pat.len() > s.len() - i {
        return false;
    }
    let mut j: usize = 0;
    while j < pat.len()
        invariant
            i + pat@.len() <= s.len(),
            j <= pat@.len(),
            forall|k: int| 0 <= k < j ==> s@[i + k] == pat@[k],
        decreases pat@.len() - j,
    {
        if s[i + j] != pat[j] {
            assert(s@.subrange(i as int, i + pat@.len())[j as int] != pat@[j as int]);
            return false;
        }
        j += 1;
    }
    assert(s@.subrange(i as int, i + pat@.len()) =~= pat@);
    true
}

/// Whether two character sequences are equal.
pub fn chars_equal(a: &Vec<char>, b: &Vec<char>) -> (eq: bool)
    ensures
        eq == (a@ == b@),
{
    if a.len() != b.len() {
        return false;
    }
    let mut i: usize = 0;
    while i < a.len()
        invariant
            a@.len() == b@.len(),
            i <= a@.len(),
            forall|k: int| 0 <= k < i ==> a@[k] == b@[k],
        decreases a@.len() - i,
    {
        if a[i] != b[i] {
            return false;
        }
        i += 1;
    }
    assert(a@ =~= b@);
    true
}

/// Whether two strings hold the same characters.
pub fn str_equal(a: &str, b: &str) -> (eq: bool)
    ensures
        eq == (a@ == b@),
{
    chars_equal(&chars_of(a), &chars_of(b))
}

/// Whether `needle` occurs in `haystack`, as `str::contains` answers it.
pub fn contains(haystack: &str, needle: &str) -> (found: bool)
    ensures
        found == contains_seq(haystack@, needle@),
{
    let h = chars_of(haystack);
    let p = chars_of(needle);
    if p.len() == 0 {
        assert(h@.subrange(0, 0) =~= p@);
        assert(occurs_at(h@, p@, 0));
        return true;
    }
    if p.len() > h.len() {
        assert forall|k: int| !occurs_at(h@, p@, k) by {}
        return false;
    }
    let last = h.len() - p.len();
    let mut i: usize = 0;
    while i <= last
        invariant
            h@ == haystack@,
            p@ == needle@,
            p@.len() > 0,
            last == h@.len() - p@.len(),
            last + p.len() == h.len(),
            i <= last + 1,
            forall|k: int| 0 <= k < i ==> !occurs_at(h@, p@, k),
        decreases last + 1 - i,
    {
        if matches_at(&h, &p, i) {
            assert(occurs_at(h@, p@, i as int));
            return true;
        }
        i += 1;
    }
    assert forall|k: int| !occurs_at(h@, p@, k) by {
        if 0 <= k < i {
        }
    }
    false
}

/// Appends every character of `src` to `out`.
fn push_all(out: &mut Vec<char>, src: &Vec<char>)
    ensures
        final(out)@ == old(out)@ + src@,
{
    let mut k: usize = 0;
    let ghost before = out@;
    while k < src.len()
        invariant
            k <= src@.len(),
            out@ == before + src@.take(k as int),
        decreases src@.len() - k,
    {
        out.push(src[k]);
        proof {
            assert(src@.take(k + 1) =~= src@.take(k as int).push(src@[k as int]));
        }
        k += 1;
    }
    assert(src@.take(src@.len() as int) =~= src@);
}

proof fn lemma_skip_skip(s: Seq<char>, i: int, n: int)
    requires
        0 <= i,
        0 <= n,
        i + n <= s.len(),
    ensures
        s.skip(i).skip(n) == s.skip(i + n),
        s.skip(i).take(n) == s.subrange(i, i + n),
{
    assert(s.skip(i).skip(n) =~= s.skip(i + n));
    assert(s.skip(i).take(n) =~= s.subrange(i, i + n));
}

/// `rep` put before every character of `s` and at its end: what
/// `str::replace` computes for the empty pattern.
fn replace_empty(sv: &Vec<char>, pat: Ghost<Seq<char>>, rv: &Vec<char>) -> (out: Vec<char>)
    requires
        pat@.len() == 0,
    ensures
        out@ == replaced(sv@, pat@, rv@),
{
    let n = sv.len();
    let mut out: Vec<char> = Vec::new();
    let mut i: usize = 0;
    assert(sv@.skip(0) =~= sv@);
    while i < n
        invariant
            n == sv@.len(),
            pat@.len() == 0,
            i <= n,
            replaced(sv@, pat@, rv@) == out@ + replaced(sv@.skip(i as int), pat@, rv@),
        decreases n - i,
    {
        let ghost before = out@;
        let ghost rest = sv@.skip(i as int);
        push_all(&mut out, rv);
        out.push(sv[i]);
        proof {
            lemma_skip_skip(sv@, i as int, 1);
            assert(rest[0] == sv@[i as int]);
            assert(replaced(rest, pat@, rv@) == rv@ + seq![sv@[i as int]] + replaced(
                sv@.skip(i + 1),
                pat@,
                rv@,
            ));
            assert(out@ =~= before + rv@ + seq![sv@[i as int]]);
            assert(out@ + replaced(sv@.skip(i + 1), pat@, rv@) =~= before + (rv@ + seq![
                sv@[i as int],
            ] + replaced(sv@.skip(i + 1), pat@, rv@)));
        }
        i = i + 1;
    }
    push_all(&mut out, rv);
    proof {
        assert(sv@.skip(n as int) =~= Seq::<char>::empty());
        assert(replaced(sv@.skip(n as int), pat@, rv@) == rv@);
    }
    out
}

/// Every non-overlapping occurrence of `pat` in `s`, scanned from the left,
/// replaced by `rep`: what `str::replace` computes (for the empty pattern,
/// `rep` before every character and at the end).
pub fn replace_all(s: &str, pat: &str, rep: &str) -> (r: String)
    ensures
        r@ == replaced(s@, pat@, rep@),
{
    let sv = chars_of(s);
    let pv = chars_of(pat);
    let rv = chars_of(rep);
    if pv.len() == 0 {
        let out = replace_empty(&sv, Ghost(pv@), &rv);
        return string_from_chars(&out);
    }
    let n = sv.len();
    let m = pv.len();
    let mut out: Vec<char> = Vec::new();
    let mut i: usize = 0;
    assert(sv@.skip(0) =~= sv@);
    while i < n
        invariant
            n == sv@.len(),
            m == pv@.len(),
            m > 0,
            i <= n,
            replaced(sv@, pv@, rv@) == out@ + replaced(sv@.skip(i as int), pv@, rv@),
        decreases n - i,
    {
        let ghost rest = sv@.skip(i as int);
        if m <= n - i && matches_at(&sv, &pv, i) {
            proof {
                lemma_skip_skip(sv@, i as int, m as int);
            }
            let ghost before = out@;
            push_all(&mut out, &rv);
            proof {
                assert(replaced(rest, pv@, rv@) == rv@ + replaced(rest.skip(m as int), pv@, rv@));
                assert((before + rv@) + replaced(sv@.skip(i + m), pv@, rv@) =~= before + (rv@
                    + replaced(sv@.skip(i + m), pv@, rv@)));
            }
            i = i + m;
        } else {
            proof {
                lemma_skip_skip(sv@, i as int, 1);
                if rest.len() >= m {
                    lemma_skip_skip(sv@, i as int, m as int);
                    assert(!occurs_at(sv@, pv@, i as int));
                    assert(rest.take(m as int) != pv@);
                } else {
                    assert(rest =~= seq![rest[0]] + rest.skip(1));
                    assert(rest.skip(1).len() < m);
                }
                assert(replaced(rest, pv@, rv@) == seq![sv@[i as int]] + replaced(
                    sv@.skip(i + 1),
                    pv@,
                    rv@,
                ));
                assert((out@.push(sv@[i as int])) + replaced(sv@.skip(i + 1), pv@, rv@) =~= out@
                    + (seq![sv@[i as int]] + replaced(sv@.skip(i + 1), pv@, rv@)));
            }
            out.push(sv[i]);
            i = i + 1;
        }
    }
    proof {
        assert(sv@.skip(n as int) =~= Seq::<char>::empty());
        assert(out@ + Seq::<char>::empty() =~= out@);
    }
    string_from_chars(&out)
}

/// The order of two names by their characters' code points.
pub fn compare_chars(a: &Vec<char>, b: &Vec<char>) -> (o: NameOrder)
    ensures
        o == lex_order(a@, b@),
{
    let mut i: usize = 0;
    assert(a@.skip(0) =~= a@);
    assert(b@.skip(0) =~= b@);
    while i < a.len() && i < b.len()
        invariant
            i <= a@.len(),
            i <= b@.len(),
            lex_order(a@, b@) == lex_order(a@.skip(i as int), b@.skip(i as int)),
        decreases a@.len() - i,
    {
        let x = a[i];
        let y = b[i];
        proof {
            assert(a@.skip(i as int)[0] == a@[i as int]);
            assert(b@.skip(i as int)[0] == b@[i as int]);
        }
        if x < y {
            return NameOrder::Less;
        }
        if x > y {
            return NameOrder::Greater;
        }
        proof {
            assert(a@.skip(i as int).skip(1) =~= a@.skip(i + 1));
            assert(b@.skip(i as int).skip(1) =~= b@.skip(i + 1));
        }
        i += 1;
    }
    if i == a.len() && i == b.len() {
        NameOrder::Equal
    } else if i == a.len() {
        NameOrder::Less
    } else {
        NameOrder::Greater
    }
}

/// `s` shortened to `max` characters and an ellipsis when it is longer.
pub fn ellipse_string(s: &str, max: usize) -> (r: String)
    ensures
        r@ == ellipsed(s@, max as nat),
{
    let v = chars_of(s);
    if v.len() <= max {
        return string_from_chars(&v);
    }
    let mut out: Vec<char> = Vec::new();
    let mut i: usize = 0;
    while i < max
        invariant
            i <= max,
            max < v@.len(),
            out@ == v@.take(i as int),
        decreases max - i,
    {
        out.push(v[i]);
        proof {
            assert(v@.take(i + 1) =~= v@.take(i as int).push(v@[i as int]));
        }
        i += 1;
    }
    out.push('.');
    out.push('.');
    out.push('.');
    assert(out@ =~= v@.take(max as int) + seq!['.', '.', '.']);
    string_from_chars(&out)
}

/// The order of names is consistent: swapping the two names swaps `Less`
/// and `Greater`, and two names are `Equal` exactly when they are the same.
pub proof fn lemma_lex_order_consistent(a: Seq<char>, b: Seq<char>)
    ensures
        (lex_order(a, b) == NameOrder::Less) <==> (lex_order(b, a) == NameOrder::Greater),
        (lex_order(a, b) == NameOrder::Equal) <==> (a == b),
    decreases a.len(),
{
    if a.len() > 0 && b.len() > 0 && a[0] == b[0] {
        lemma_lex_order_consistent(a.skip(1), b.skip(1));
        if a.skip(1) == b.skip(1) {
            assert(a =~= seq![a[0]] + a.skip(1));
            assert(b =~= seq![b[0]] + b.skip(1));
        }
    } else if a.len() > 0 && b.len() > 0 {
        assert((a[0] as int) != (b[0] as int));
    } else if a.len() == 0 && b.len() == 0 {
        assert(a =~= b);
    }
}

/// A shortened name is never longer than the limit and the ellipsis, and a
/// name within the limit is left as it is.
pub proof fn lemma_ellipsed_length(s: Seq<char>, max: nat)
    ensures
        ellipsed(s, max).len() <= max + 3,
        s.len() <= max ==> ellipsed(s, max) == s,
        s.len() > max ==> ellipsed(s, max).take(max as int) == s.take(max as int),
{
    if s.len() > max {
        let r = s.take(max as int) + seq!['.', '.', '.'];
        assert(r.take(max as int) =~= s.take(max as int));
    }
}

/// The order of names is the order in which Rust compares strings: at the
/// first position where two names differ, the name with the smaller
/// character comes first, whatever follows and whatever their lengths.
pub proof fn lemma_lex_order_first_difference(a: Seq<char>, b: Seq<char>, i: int)
    requires
        0 <= i < a.len(),
        i < b.len(),
        a.take(i) == b.take(i),
        (a[i] as int) < (b[i] as int),
    ensures
        lex_order(a, b) == NameOrder::Less,
        lex_order(b, a) == NameOrder::Greater,
    decreases i,
{
    if i > 0 {
        assert(a[0] == a.take(i)[0]);
        assert(b[0] == b.take(i)[0]);
        assert(a.skip(1).take(i - 1) =~= a.take(i).skip(1));
        assert(b.skip(1).take(i - 1) =~= b.take(i).skip(1));
        assert(a.skip(1)[i - 1] == a[i]);
        assert(b.skip(1)[i - 1] == b[i]);
        lemma_lex_order_first_difference(a.skip(1), b.skip(1), i - 1);
    }
}

/// A name that is a proper beginning of another comes before it.
pub proof fn lemma_lex_order_proper_prefix(a: Seq<char>, b: Seq<char>)
    requires
        a.len() < b.len(),
        b.take(a.len() as int) == a,
    ensures
        lex_order(a, b) == NameOrder::Less,
        lex_order(b, a) == NameOrder::Greater,
    decreases a.len(),
{
    if a.len() > 0 {
        assert(a[0] == b.take(a.len() as int)[0]);
        assert(b.skip(1).take(a.skip(1).len() as int) =~= a.skip(1));
        lemma_lex_order_proper_prefix(a.skip(1), b.skip(1));
    }
}

/// A pattern found at some position makes `contains_seq` hold, and
/// `contains_seq` holds only where the pattern is found at some position.
pub proof fn lemma_contains_seq_at(s: Seq<char>, pat: Seq<char>, i: int)
    requires
        0 <= i,
        i + pat.len() <= s.len(),
        s.subrange(i, i + pat.len()) == pat,
    ensures
        contains_seq(s, pat),
{
    assert(occurs_at(s, pat, i));
}

} // verus!
