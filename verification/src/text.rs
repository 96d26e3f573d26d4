use vstd::prelude::*;

verus! {

/// Whether `pat` occurs as a contiguous run of characters inside `s`.
pub open spec fn occurs_in(pat: Seq<char>, s: Seq<char>) -> bool {
    exists|i: int| 0 <= i && i + pat.len() <= s.len() && #[trigger] s.subrange(i, i + pat.len()) == pat
}

/// The characters of `s`, in order.
pub fn chars_of(s: &str) -> (r: Vec<char>)
    ensures
        r@ == s@,
{
    let mut out: Vec<char> = Vec::new();
    for c in it: s.chars()
        invariant
            out@ == it.seq().take(it.index() as int),
    {
        out.push(c);
    }
    out
}

/// Whether the characters of `pat` occur contiguously in `s`.
pub fn contains_str(s: &str, pat: &str) -> (r: bool)
    ensures
        r == occurs_in(pat@, s@),
{
    let sc = chars_of(s);
    let pc = chars_of(pat);
    let n = sc.len();
    let m = pc.len();
    if m > n {
        return false;
    }
    let mut i: usize = 0;
    while i <= n - m
        invariant
            sc@ == s@,
            pc@ == pat@,
            n == sc@.len(),
            m == pc@.len(),
            m <= n,
            i <= n - m + 1,
            forall|k: int| 0 <= k < i ==> #[trigger] sc@.subrange(k, k + m) != pc@,
        decreases n - m + 1 - i,
    {
        let mut j: usize = 0;
        while j < m && sc[i + j] == pc[j]
            invariant
                n == sc@.len(),
                m == pc@.len(),
                i + m <= n,
                j <= m,
                forall|t: int| 0 <= t < j ==> sc@[i + t] == pc@[t],
            decreases m - j,
        {
            j += 1;
        }
        if j == m {
            assert(sc@.subrange(i as int, i + m) =~= pc@);
            return true;
        }
        assert(sc@.subrange(i as int, i + m)[j as int] != pc@[j as int]);
        i += 1;
    }
    proof {
        assert forall|k: int| 0 <= k && k + pat@.len() <= s@.len() implies #[trigger] s@.subrange(
            k,
            k + pat@.len(),
        ) != pat@ by {
            assert(sc@.subrange(k, k + m) != pc@);
        }
    }
    false
}

/// Whether two strings hold the same characters.
pub fn str_equal(a: &str, b: &str) -> (r: bool)
    ensures
        r == (a@ == b@),
{
    let ac = chars_of(a);
    let bc = chars_of(b);
    if ac.len() != bc.len() {
        return false;
    }
    let n = ac.len();
    let mut i: usize = 0;
    while i < n
        invariant
            ac@ == a@,
            bc@ == b@,
            n == ac@.len(),
            n == bc@.len(),
            i <= n,
            forall|k: int| 0 <= k < i ==> ac@[k] == bc@[k],
        decreases n - i,
    {
        if ac[i] != bc[i] {
            return false;
        }
        i += 1;
    }
    assert(ac@ =~= bc@);
    true
}

/// Calls `String::push`: appends `c` to `s`.
#[verifier::external_body]
pub(crate) fn push_char(s: &mut String, c: char)
    ensures
        final(s)@ == old(s)@.push(c),
{
    s.push(c);
}

/// Whether `s` begins with the characters of `p`.
pub open spec fn has_prefix(s: Seq<char>, p: Seq<char>) -> bool {
    p.len() <= s.len() && s.subrange(0, p.len() as int) == p
}

/// The rest of `s` after the prefix `p`, where `s` begins with `p`.
pub fn strip_prefix(s: &str, p: &str) -> (r: Option<String>)
    ensures
        has_prefix(s@, p@) ==> (r matches Some(t) && t@ == s@.subrange(p@.len() as int, s@.len() as int)),
        !has_prefix(s@, p@) ==> r is None,
{
    let sc = chars_of(s);
    let pc = chars_of(p);
    let n = sc.len();
    let m = pc.len();
    if m > n {
        return None;
    }
    let mut i: usize = 0;
    while i < m
        invariant
            sc@ == s@,
            pc@ == p@,
            n == sc@.len(),
            m == pc@.len(),
            m <= n,
            i <= m,
            forall|k: int| 0 <= k < i ==> sc@[k] == pc@[k],
        decreases m - i,
    {
        if sc[i] != pc[i] {
            assert(s@.subrange(0, m as int)[i as int] != p@[i as int]);
            return None;
        }
        i += 1;
    }
    assert(s@.subrange(0, m as int) =~= p@);
    let mut rest = String::new();
    let mut j: usize = m;
    while j < n
        invariant
            sc@ == s@,
            n == sc@.len(),
            m <= j <= n,
            rest@ == s@.subrange(m as int, j as int),
        decreases n - j,
    {
        push_char(&mut rest, sc[j]);
        assert(s@.subrange(m as int, j + 1) =~= s@.subrange(m as int, j as int).push(sc@[j as int]));
        j += 1;
    }
    Some(rest)
}

} // verus!
