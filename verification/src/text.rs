//! Small string utilities used to build file names and messages: character-level
//! access to `str`, substring replacement and decimal rendering of integers.
use vstd::prelude::*;
use vstd::string::*;

verus! {

/// `rep` before each character of `s` and at its end: what replacing the empty pattern does.
pub open spec fn interleave(s: Seq<char>, rep: Seq<char>) -> Seq<char>
    decreases s.len(),
{
    if s.len() == 0 {
        rep
    } else {
        rep + seq![s[0]] + interleave(s.skip(1), rep)
    }
}

/// `s` with every non-overlapping occurrence of `pat` replaced by `rep`, scanning from the
/// left, as `str::replace` does; the empty pattern occurs before each character and at the end.
pub open spec fn replace_all(s: Seq<char>, pat: Seq<char>, rep: Seq<char>) -> Seq<char>
    decreases s.len(),
{
    if pat.len() == 0 {
        interleave(s, rep)
    } else if s.len() < pat.len() {
        s
    } else if s.take(pat.len() as int) == pat {
        rep + replace_all(s.skip(pat.len() as int), pat, rep)
    } else {
        seq![s[0]] + replace_all(s.skip(1), pat, rep)
    }
}

/// Whether `pat` occurs in `s` starting at index `i`.
pub open spec fn occurs_at(s: Seq<char>, pat: Seq<char>, i: int) -> bool {
    0 <= i && i + pat.len() <= s.len() && s.subrange(i, i + pat.len()) == pat
}

/// Whether `pat` occurs anywhere in `s`.
pub open spec fn occurs_in(s: Seq<char>, pat: Seq<char>) -> bool {
    exists|i: int| #[trigger] occurs_at(s, pat, i)
}

/// The decimal digit character for `d` (`d < 10`).
pub open spec fn digit_char(d: nat) -> char {
    if d == 0 {
        '0'
    } else if d == 1 {
        '1'
    } else if d == 2 {
        '2'
    } else if d == 3 {
        '3'
    } else if d == 4 {
        '4'
    } else if d == 5 {
        '5'
    } else if d == 6 {
        '6'
    } else if d == 7 {
        '7'
    } else if d == 8 {
        '8'
    } else {
        '9'
    }
}

/// The decimal rendering of `n`, without sign or leading zeros.
pub open spec fn decimal(n: nat) -> Seq<char>
    decreases n,
{
    if n < 10 {
        seq![digit_char(n)]
    } else {
        decimal(n / 10).push(digit_char(n % 10))
    }
}

/// Appends one character to a string (`String::push`).
#[verifier::external_body]
pub fn push_char(s: &mut String, c: char)
    ensures
        final(s)@ == old(s)@.push(c),
{
    s.push(c);
}

/// The characters of `s`, in order.
pub fn chars_of(s: &str) -> (r: Vec<char>)
    ensures
        r@ == s@,
{
    let n = s.unicode_len();
    let mut r: Vec<char> = Vec::new();
    let mut i: usize = 0;
    while i < n
        invariant
            n == s@.len(),
            i <= n,
            r@ == s@.take(i as int),
        decreases n - i,
    {
        let c = s.get_char(i);
        r.push(c);
        i = i + 1;
        assert(r@ =~= s@.take(i as int));
    }
    assert(r@ =~= s@);
    r
}

/// Whether two strings hold the same characters.
pub fn str_eq(a: &str, b: &str) -> (r: bool)
    ensures
        r == (a@ == b@),
{
    let x = chars_of(a);
    let y = chars_of(b);
    if x.len() != y.len() {
        return false;
    }
    let mut i: usize = 0;
    while i < x.len()
        invariant
            x@ == a@,
            y@ == b@,
            x.len() == y.len(),
            i <= x.len(),
            forall|k: int| 0 <= k < i ==> x@[k] == y@[k],
        decreases x.len() - i,
    {
        if x[i] != y[i] {
            return false;
        }
        i = i + 1;
    }
    assert(x@ =~= y@);
    true
}

fn digit(d: u128) -> (c: char)
    requires
        d < 10,
    ensures
        c == digit_char(d as nat),
{
    if d == 0 {
        '0'
    } else if d == 1 {
        '1'
    } else if d == 2 {
        '2'
    } else if d == 3 {
        '3'
    } else if d == 4 {
        '4'
    } else if d == 5 {
        '5'
    } else if d == 6 {
        '6'
    } else if d == 7 {
        '7'
    } else if d == 8 {
        '8'
    } else {
        '9'
    }
}

/// Appends the decimal rendering of `n` to `out`.
pub fn push_decimal(out: &mut String, n: u128)
    ensures
        final(out)@ == old(out)@ + decimal(n as nat),
    decreases n,
{
    if n >= 10 {
        push_decimal(out, n / 10);
    }
    let c = digit(n % 10);
    push_char(out, c);
    assert(out@ =~= old(out)@ + decimal(n as nat));
}

/// `s` with every non-overlapping occurrence of `pat` replaced by `rep`, scanning from the
/// left (`str::replace`).
pub fn replace(s: &str, pat: &str, rep: &str) -> (r: String)
    ensures
        r@ == replace_all(s@, pat@, rep@),
{
    let cs = chars_of(s);
    let ps = chars_of(pat);
    let n = cs.len();
    let m = ps.len();
    let mut out = String::new();
    let mut i: usize = 0;
    if m == 0 {
        assert(s@.skip(0) =~= s@);
        assert(out@ + interleave(s@, rep@) =~= interleave(s@, rep@));
        while i < n
            invariant
                cs@ == s@,
                n == cs@.len(),
                i <= n,
                out@ + interleave(s@.skip(i as int), rep@) == interleave(s@, rep@),
            decreases n - i,
        {
            let ghost rest = s@.skip(i as int);
            assert(rest.skip(1) =~= s@.skip(i + 1));
            assert(rest[0] == cs@[i as int]);
            let ghost before = out@;
            out.append(rep);
            push_char(&mut out, cs[i]);
            assert(out@ =~= before + rep@ + seq![rest[0]]);
            assert(before + interleave(rest, rep@) =~= out@ + interleave(s@.skip(i + 1), rep@));
            i = i + 1;
        }
        assert(s@.skip(n as int) =~= Seq::<char>::empty());
        out.append(rep);
        return out;
    }
    assert(s@.skip(0) =~= s@);
    assert(out@ + replace_all(s@, pat@, rep@) =~= replace_all(s@, pat@, rep@));
    while i < n
        invariant
            cs@ == s@,
            ps@ == pat@,
            n == cs@.len(),
            m == ps@.len(),
            m > 0,
            i <= n,
            out@ + replace_all(s@.skip(i as int), pat@, rep@) == replace_all(s@, pat@, rep@),
        decreases n - i,
    {
        let ghost rest = s@.skip(i as int);
        let mut matches = m <= n - i;
        if matches {
            let mut j: usize = 0;
            while j < m
                invariant
                    cs@ == s@,
                    ps@ == pat@,
                    n == cs@.len(),
                    m == ps@.len(),
                    i + m <= n,
                    j <= m,
                    rest == s@.skip(i as int),
                    matches == (forall|k: int| 0 <= k < j ==> rest[k] == pat@[k]),
                decreases m - j,
            {
                assert(rest[j as int] == cs@[i + j]);
                if cs[i + j] != ps[j] {
                    matches = false;
                }
                j = j + 1;
            }
            assert(matches == (rest.take(m as int) =~= pat@));
        }
        if matches {
            assert(rest.skip(m as int) =~= s@.skip(i + m));
            out.append(rep);
            i = i + m;
        } else {
            assert(rest.len() < m || rest.take(m as int) != pat@);
            assert(rest.skip(1) =~= s@.skip(i + 1));
            assert(rest[0] == cs@[i as int]);
            push_char(&mut out, cs[i]);
            i = i + 1;
        }
    }
    assert(s@.skip(n as int) =~= Seq::<char>::empty());
    out
}

/// A text in which the pattern does not occur is left as it is by a replacement.
pub proof fn law_replace_without_occurrence(s: Seq<char>, pat: Seq<char>, rep: Seq<char>)
    requires
        pat.len() > 0,
        !occurs_in(s, pat),
    ensures
        replace_all(s, pat, rep) == s,
    decreases s.len(),
{
    if s.len() >= pat.len() {
        assert(!occurs_at(s, pat, 0));
        assert(s.subrange(0, pat.len() as int) =~= s.take(pat.len() as int));
        let tail = s.skip(1);
        assert(!occurs_in(tail, pat)) by {
            if occurs_in(tail, pat) {
                let i = choose|i: int| #[trigger] occurs_at(tail, pat, i);
                assert(s.subrange(i + 1, i + 1 + pat.len()) =~= tail.subrange(i, i + pat.len()));
                assert(occurs_at(s, pat, i + 1));
            }
        }
        law_replace_without_occurrence(tail, pat, rep);
        assert(seq![s[0]] + tail =~= s);
    }
}

} // verus!
