use vstd::prelude::*;
use vstd::string::*;

verus! {

/// Whether `s` ends with `suffix`, over character sequences.
pub open spec fn ends_with_spec(s: Seq<char>, suffix: Seq<char>) -> bool {
    suffix.len() <= s.len() && s.subrange(s.len() - suffix.len(), s.len() as int) == suffix
}

/// Whether `pat` occurs in `s` as a contiguous subsequence.
pub open spec fn contains_spec(s: Seq<char>, pat: Seq<char>) -> bool {
    exists|i: int| 0 <= i <= s.len() - pat.len() && #[trigger] s.subrange(i, i + pat.len()) == pat
}

/// Character-for-character equality of two string slices.
pub fn str_eq(a: &str, b: &str) -> (r: bool)
    ensures
        r == (a@ == b@),
{
    let la: usize = a.unicode_len();
    let lb: usize = b.unicode_len();
    if la != lb {
        proof {
            assert(a@.len() != b@.len());
        }
        return false;
    }
    let mut i: usize = 0;
    while i < la
        invariant
            i <= la,
            la == a@.len(),
            la == b@.len(),
            forall|j: int| 0 <= j < i ==> a@[j] == b@[j],
        decreases la - i,
    {
        if a.get_char(i) != b.get_char(i) {
            return false;
        }
        i += 1;
    }
    proof {
        assert(a@ =~= b@);
    }
    true
}

/// Whether `s` ends with `suffix`.
pub fn ends_with(s: &str, suffix: &str) -> (r: bool)
    ensures
        r == ends_with_spec(s@, suffix@),
{
    let n: usize = s.unicode_len();
    let m: usize = suffix.unicode_len();
    if m > n {
        return false;
    }
    let off: usize = n - m;
    let mut i: usize = 0;
    while i < m
        invariant
            i <= m,
            m <= n,
            off == n - m,
            n == s@.len(),
            m == suffix@.len(),
            forall|j: int| 0 <= j < i ==> s@[off + j] == suffix@[j],
        decreases m - i,
    {
        if s.get_char(off + i) != suffix.get_char(i) {
            proof {
                assert(s@.subrange(n - m, n as int)[i as int] != suffix@[i as int]);
            }
            return false;
        }
        i += 1;
    }
    proof {
        assert(s@.subrange(n - m, n as int) =~= suffix@);
    }
    true
}

/// Whether `pat` occurs anywhere in `s`.
pub fn contains_str(s: &str, pat: &str) -> (r: bool)
    ensures
        r == contains_spec(s@, pat@),
{
    let n: usize = s.unicode_len();
    let m: usize = pat.unicode_len();
    if m > n {
        return false;
    }
    if m == 0 {
        proof {
            assert(s@.subrange(0int, 0int + pat@.len() as int) =~= pat@);
        }
        return true;
    }
    let mut i: usize = 0;
    while i <= n - m
        invariant
            1 <= m <= n,
            n == s@.len(),
            m == pat@.len(),
            0 <= i <= n - m + 1,
            forall|k: int| 0 <= k < i ==> #[trigger] s@.subrange(k, k + pat@.len()) != pat@,
        decreases n - m + 1 - i,
    {
        let mut j: usize = 0;
        let mut hit: bool = true;
        while j < m && hit
            invariant
                j <= m,
                i + m <= n,
                n == s@.len(),
                m == pat@.len(),
                hit ==> forall|l: int| 0 <= l < j ==> s@[i + l] == pat@[l],
                !hit ==> s@.subrange(i as int, i + pat@.len()) != pat@,
            decreases m - j + (if hit { 1int } else { 0int }),
        {
            if s.get_char(i + j) != pat.get_char(j) {
                proof {
                    assert(s@.subrange(i as int, i + pat@.len())[j as int] != pat@[j as int]);
                }
                hit = false;
            } else {
                j += 1;
            }
        }
        if hit {
            proof {
                assert(s@.subrange(i as int, i + pat@.len()) =~= pat@);
            }
            return true;
        }
        i += 1;
    }
    false
}

/// `s` with every occurrence of `pat` replaced by `rep`, scanning left to
/// right and never rescanning replaced text.
pub open spec fn replace_spec(s: Seq<char>, pat: Seq<char>, rep: Seq<char>) -> Seq<char>
    decreases s.len(),
    when pat.len() >= 1
{
    if s.len() < pat.len() {
        s
    } else if s.subrange(0, pat.len() as int) == pat {
        rep + replace_spec(s.skip(pat.len() as int), pat, rep)
    } else {
        seq![s[0]] + replace_spec(s.skip(1), pat, rep)
    }
}

/// Whether `pat` stands at position `i` of `s`.
fn matches_at(s: &str, pat: &str, i: usize) -> (r: bool)
    requires
        i + pat@.len() <= s@.len(),
    ensures
        r == (s@.subrange(i as int, i + pat@.len()) == pat@),
{
    let n: usize = s.unicode_len();
    let m: usize = pat.unicode_len();
    let mut j: usize = 0;
    let mut hit: bool = true;
    while j < m && hit
        invariant
            j <= m,
            i + m <= n,
            n == s@.len(),
            m == pat@.len(),
            hit ==> forall|l: int| 0 <= l < j ==> s@[i + l] == pat@[l],
            !hit ==> s@.subrange(i as int, i + pat@.len()) != pat@,
        decreases m - j + (if hit { 1int } else { 0int }),
    {
        if s.get_char(i + j) != pat.get_char(j) {
            proof {
                assert(s@.subrange(i as int, i + pat@.len())[j as int] != pat@[j as int]);
            }
            hit = false;
        } else {
            j += 1;
        }
    }
    proof {
        if hit && j == m {
            assert(s@.subrange(i as int, i + pat@.len()) =~= pat@);
        }
    }
    hit
}

/// Replaces every occurrence of `pat` in `s` by `rep`.
pub fn replace_all(s: &str, pat: &str, rep: &str) -> (r: String)
    requires
        1 <= pat@.len(),
    ensures
        r@ == replace_spec(s@, pat@, rep@),
{
    let n: usize = s.unicode_len();
    let m: usize = pat.unicode_len();
    let mut out = String::new();
    let mut i: usize = 0;
    proof {
        assert(s@.skip(0) =~= s@);
        assert(out@ + replace_spec(s@, pat@, rep@) =~= replace_spec(s@, pat@, rep@));
    }
    while i < n
        invariant
            1 <= m,
            i <= n,
            n == s@.len(),
            m == pat@.len(),
            replace_spec(s@, pat@, rep@) == out@ + replace_spec(s@.skip(i as int), pat@, rep@),
        decreases n - i,
    {
        let ghost tail = s@.skip(i as int);
        if m <= n - i && matches_at(s, pat, i) {
            out.append(rep);
            proof {
                assert(tail.len() >= pat@.len());
                assert(tail.subrange(0, pat@.len() as int) =~= s@.subrange(i as int, i + m));
                assert(tail.skip(pat@.len() as int) =~= s@.skip(i + m));
                assert(replace_spec(tail, pat@, rep@) == rep@ + replace_spec(
                    s@.skip(i + m),
                    pat@,
                    rep@,
                ));
            }
            i += m;
        } else {
            let piece: &str = s.substring_char(i, i + 1);
            out.append(piece);
            proof {
                if tail.len() < pat@.len() {
                    assert(i + m > n);
                    assert(tail =~= seq![s@[i as int]] + tail.skip(1));
                    assert(tail.skip(1) =~= s@.skip(i + 1));
                    if tail.skip(1).len() < pat@.len() {
                        assert(replace_spec(tail.skip(1), pat@, rep@) == tail.skip(1));
                    }
                } else {
                    assert(tail.subrange(0, pat@.len() as int) =~= s@.subrange(i as int, i + m));
                }
                assert(seq![tail[0]] =~= piece@);
                assert(tail.skip(1) =~= s@.skip(i + 1));
                assert(replace_spec(tail, pat@, rep@) == piece@ + replace_spec(
                    s@.skip(i + 1),
                    pat@,
                    rep@,
                ));
            }
            i += 1;
        }
        proof {
            assert(replace_spec(s@, pat@, rep@) == out@ + replace_spec(
                s@.skip(i as int),
                pat@,
                rep@,
            ));
        }
    }
    proof {
        assert(s@.skip(n as int) =~= Seq::<char>::empty());
        assert(replace_spec(Seq::<char>::empty(), pat@, rep@) =~= Seq::<char>::empty());
        assert(out@ =~= out@ + Seq::<char>::empty());
    }
    out
}

/// A path with environment references expanded: every `$HOME` and every
/// `~` replaced by the home directory, in that order.
pub open spec fn expand_path_spec(path: Seq<char>, home: Seq<char>) -> Seq<char> {
    replace_spec(replace_spec(path, "$HOME"@, home), "~"@, home)
}

/// Expands `$HOME` and `~` in a path string to the home directory the
/// caller read from the environment.
pub fn expand_path(path: &str, home: &str) -> (r: String)
    ensures
        r@ == expand_path_spec(path@, home@),
{
    proof {
        reveal_strlit("$HOME");
        reveal_strlit("~");
    }
    let step = replace_all(path, "$HOME", home);
    replace_all(step.as_str(), "~", home)
}

/// The decimal digit character for a value below ten.
pub open spec fn digit_char(d: nat) -> char {
    if d == 0 { '0' } else if d == 1 { '1' } else if d == 2 { '2' } else if d == 3 { '3' }
    else if d == 4 { '4' } else if d == 5 { '5' } else if d == 6 { '6' } else if d == 7 { '7' }
    else if d == 8 { '8' } else { '9' }
}

/// The decimal representation of a natural number, most significant digit first.
pub open spec fn dec_spec(n: nat) -> Seq<char>
    decreases n,
{
    if n < 10 {
        seq![digit_char(n)]
    } else {
        dec_spec(n / 10) + seq![digit_char(n % 10)]
    }
}

fn digit_of(d: u32) -> (c: &'static str)
    requires
        d < 10,
    ensures
        c@ == seq![digit_char(d as nat)],
{
    proof {
        reveal_strlit("0");
        reveal_strlit("1");
        reveal_strlit("2");
        reveal_strlit("3");
        reveal_strlit("4");
        reveal_strlit("5");
        reveal_strlit("6");
        reveal_strlit("7");
        reveal_strlit("8");
        reveal_strlit("9");
    }
    let r: &'static str = if d == 0 { "0" } else if d == 1 { "1" } else if d == 2 { "2" }
    else if d == 3 { "3" } else if d == 4 { "4" } else if d == 5 { "5" } else if d == 6 { "6" }
    else if d == 7 { "7" } else if d == 8 { "8" } else { "9" };
    proof {
        assert(r@ =~= seq![digit_char(d as nat)]);
    }
    r
}

/// Renders a number in decimal, for building diagnostic messages.
pub fn u32_dec(n: u32) -> (s: String)
    ensures
        s@ == dec_spec(n as nat),
    decreases n,
{
    if n < 10 {
        let s = digit_of(n).to_owned();
        proof {
            assert(s@ =~= dec_spec(n as nat));
        }
        s
    } else {
        proof {
            assert(n / 10 < n) by (nonlinear_arith)
                requires n >= 10;
            assert(n % 10 < 10) by (nonlinear_arith);
        }
        let mut s = u32_dec(n / 10);
        s.append(digit_of(n % 10));
        proof {
            assert(s@ =~= dec_spec(n as nat));
        }
        s
    }
}

} // verus!
