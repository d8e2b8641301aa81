//! Small verified text utilities used by the resolver, the linker and the
//! session: concatenation, prefix/suffix handling, whitespace trimming and
//! line splitting, each with an exact contract over `Seq<char>`.

use vstd::prelude::*;
use vstd::string::*;

verus! {

/// Relies on str's `PartialEq`: two string slices are equal exactly when
/// their character sequences are equal.
#[verifier::external_body]
pub fn str_eq(a: &str, b: &str) -> (r: bool)
    ensures
        r == (a@ == b@),
{
    a == b
}

/// Relies on `String::push`: appends exactly the one character.
#[verifier::external_body]
fn push_char(s: &mut String, c: char)
    ensures
        final(s)@ == old(s)@.push(c),
{
    s.push(c);
}

pub fn concat2(a: &str, b: &str) -> (r: String)
    ensures
        r@ == a@ + b@,
{
    let mut s = String::from_str(a);
    s.append(b);
    s
}

pub fn concat3(a: &str, b: &str, c: &str) -> (r: String)
    ensures
        r@ == a@ + b@ + c@,
{
    let mut s = String::from_str(a);
    s.append(b);
    s.append(c);
    s
}

pub fn concat5(a: &str, b: &str, c: &str, d: &str, e: &str) -> (r: String)
    ensures
        r@ == a@ + b@ + c@ + d@ + e@,
{
    let mut s = String::from_str(a);
    s.append(b);
    s.append(c);
    s.append(d);
    s.append(e);
    s
}

pub open spec fn starts_with_spec(s: Seq<char>, p: Seq<char>) -> bool {
    p.len() <= s.len() && s.subrange(0, p.len() as int) == p
}

pub open spec fn ends_with_spec(s: Seq<char>, p: Seq<char>) -> bool {
    p.len() <= s.len() && s.subrange(s.len() - p.len(), s.len() as int) == p
}

pub fn starts_with(s: &str, p: &str) -> (r: bool)
    ensures
        r == starts_with_spec(s@, p@),
{
    let n = s.unicode_len();
    let m = p.unicode_len();
    if m > n {
        false
    } else {
        str_eq(s.substring_char(0, m), p)
    }
}

pub fn ends_with(s: &str, p: &str) -> (r: bool)
    ensures
        r == ends_with_spec(s@, p@),
{
    let n = s.unicode_len();
    let m = p.unicode_len();
    if m > n {
        false
    } else {
        str_eq(s.substring_char(n - m, n), p)
    }
}

pub open spec fn trim_prefix_spec(s: Seq<char>, p: Seq<char>) -> Seq<char> {
    if starts_with_spec(s, p) {
        s.skip(p.len() as int)
    } else {
        s
    }
}

pub open spec fn trim_suffix_spec(s: Seq<char>, p: Seq<char>) -> Seq<char> {
    if ends_with_spec(s, p) {
        s.take(s.len() - p.len())
    } else {
        s
    }
}

pub fn trim_prefix(s: &str, p: &str) -> (r: String)
    ensures
        r@ == trim_prefix_spec(s@, p@),
{
    if starts_with(s, p) {
        let sub = s.substring_char(p.unicode_len(), s.unicode_len());
        proof {
            assert(sub@ =~= s@.skip(p@.len() as int));
        }
        String::from_str(sub)
    } else {
        String::from_str(s)
    }
}

pub fn trim_suffix(s: &str, p: &str) -> (r: String)
    ensures
        r@ == trim_suffix_spec(s@, p@),
{
    if ends_with(s, p) {
        let sub = s.substring_char(0, s.unicode_len() - p.unicode_len());
        proof {
            assert(sub@ =~= s@.take(s@.len() - p@.len()));
        }
        String::from_str(sub)
    } else {
        String::from_str(s)
    }
}

pub open spec fn is_space_char(c: char) -> bool {
    c == ' ' || c == '\t' || c == '\r' || c == '\n'
}

fn is_space(c: char) -> (b: bool)
    ensures
        b == is_space_char(c),
{
    c == ' ' || c == '\t' || c == '\r' || c == '\n'
}

pub open spec fn trim_start_spec(s: Seq<char>) -> Seq<char>
    decreases s.len(),
{
    if s.len() > 0 && is_space_char(s[0]) {
        trim_start_spec(s.drop_first())
    } else {
        s
    }
}

pub open spec fn trim_end_spec(s: Seq<char>) -> Seq<char>
    decreases s.len(),
{
    if s.len() > 0 && is_space_char(s.last()) {
        trim_end_spec(s.drop_last())
    } else {
        s
    }
}

/// What `trim` returns: the input without leading and trailing whitespace.
pub open spec fn trim_spec(s: Seq<char>) -> Seq<char> {
    trim_end_spec(trim_start_spec(s))
}

pub fn trim(s: &str) -> (r: String)
    ensures
        r@ == trim_spec(s@),
{
    let n = s.unicode_len();
    proof {
        assert(s@.subrange(0, n as int) =~= s@);
    }
    let mut lo: usize = 0;
    while lo < n && is_space(s.get_char(lo))
        invariant
            lo <= n,
            n == s@.len(),
            trim_start_spec(s@) == trim_start_spec(s@.subrange(lo as int, n as int)),
        decreases n - lo,
    {
        proof {
            assert(s@.subrange(lo as int, n as int).drop_first() =~= s@.subrange(
                lo as int + 1,
                n as int,
            ));
        }
        lo = lo + 1;
    }
    proof {
        assert(trim_start_spec(s@.subrange(lo as int, n as int)) == s@.subrange(
            lo as int,
            n as int,
        ));
    }
    let mut hi: usize = n;
    while hi > lo && is_space(s.get_char(hi - 1))
        invariant
            lo <= hi <= n,
            n == s@.len(),
            trim_start_spec(s@) == s@.subrange(lo as int, n as int),
            trim_end_spec(s@.subrange(lo as int, n as int)) == trim_end_spec(
                s@.subrange(lo as int, hi as int),
            ),
        decreases hi,
    {
        proof {
            assert(s@.subrange(lo as int, hi as int).drop_last() =~= s@.subrange(
                lo as int,
                hi as int - 1,
            ));
        }
        hi = hi - 1;
    }
    proof {
        assert(trim_end_spec(s@.subrange(lo as int, hi as int)) == s@.subrange(
            lo as int,
            hi as int,
        ));
    }
    let sub = s.substring_char(lo, hi);
    String::from_str(sub)
}

/// How the line splitter reads a text: lines separated by `'\n'`, with an
/// empty final line after a trailing separator.
pub open spec fn split_lines_spec(s: Seq<char>) -> Seq<Seq<char>>
    decreases s.len(),
{
    if s.len() == 0 {
        seq![Seq::<char>::empty()]
    } else if s[0] == '\n' {
        seq![Seq::<char>::empty()] + split_lines_spec(s.drop_first())
    } else {
        let rest = split_lines_spec(s.drop_first());
        seq![seq![s[0]] + rest[0]] + rest.drop_first()
    }
}

proof fn lemma_split_lines_nonempty(s: Seq<char>)
    ensures
        split_lines_spec(s).len() >= 1,
    decreases s.len(),
{
    if s.len() > 0 {
        lemma_split_lines_nonempty(s.drop_first());
    }
}

spec fn views_of(v: Seq<String>) -> Seq<Seq<char>> {
    v.map_values(|l: String| l@)
}

/// The still-unsplit suffix, with the partial current line prefixed to its
/// first line.
spec fn prepend_first(p: Seq<char>, ss: Seq<Seq<char>>) -> Seq<Seq<char>>
    recommends
        ss.len() >= 1,
{
    seq![p + ss[0]] + ss.drop_first()
}

pub fn split_lines(s: &str) -> (r: Vec<String>)
    ensures
        r@.len() == split_lines_spec(s@).len(),
        forall|i: int| 0 <= i < r@.len() ==> r@[i]@ == split_lines_spec(s@)[i],
{
    let n = s.unicode_len();
    let mut lines: Vec<String> = Vec::new();
    let mut cur: String = String::new();
    let mut i: usize = 0;
    proof {
        assert(s@.skip(0) =~= s@);
        let ss = split_lines_spec(s@);
        lemma_split_lines_nonempty(s@);
        assert(prepend_first(Seq::<char>::empty(), ss) =~~= ss);
    }
    while i < n
        invariant
            i <= n,
            n == s@.len(),
            split_lines_spec(s@.skip(i as int)).len() >= 1,
            split_lines_spec(s@) == views_of(lines@) + prepend_first(
                cur@,
                split_lines_spec(s@.skip(i as int)),
            ),
        decreases n - i,
    {
        let c = s.get_char(i);
        let ghost suf = s@.skip(i as int);
        let ghost suf1 = s@.skip(i as int + 1);
        proof {
            assert(suf[0] == s@[i as int]);
            assert(suf.drop_first() =~= suf1);
            lemma_split_lines_nonempty(suf1);
        }
        if c == '\n' {
            proof {
                let ss1 = split_lines_spec(suf1);
                assert(split_lines_spec(suf) == seq![Seq::<char>::empty()] + ss1);
                assert(prepend_first(cur@, split_lines_spec(suf)) =~~= seq![cur@] + ss1);
                assert(views_of(lines@.push(cur)) =~~= views_of(lines@) + seq![cur@]);
                assert(prepend_first(Seq::<char>::empty(), ss1) =~~= ss1);
                assert(views_of(lines@.push(cur)) + prepend_first(Seq::<char>::empty(), ss1)
                    =~~= views_of(lines@) + prepend_first(cur@, split_lines_spec(suf)));
            }
            lines.push(cur);
            cur = String::new();
        } else {
            proof {
                let rest = split_lines_spec(suf1);
                assert(split_lines_spec(suf) == seq![seq![suf[0]] + rest[0]] + rest.drop_first());
                assert(cur@ + (seq![c] + rest[0]) =~= cur@.push(c) + rest[0]);
                assert(prepend_first(cur@, split_lines_spec(suf)) =~~= prepend_first(
                    cur@.push(c),
                    rest,
                ));
            }
            push_char(&mut cur, c);
        }
        i = i + 1;
    }
    proof {
        assert(s@.skip(n as int) =~= Seq::<char>::empty());
        let ss = split_lines_spec(s@.skip(n as int));
        assert(ss == seq![Seq::<char>::empty()]);
        assert(prepend_first(cur@, ss) =~~= seq![cur@]);
        assert(views_of(lines@.push(cur)) =~~= views_of(lines@) + seq![cur@]);
        assert(split_lines_spec(s@) =~~= views_of(lines@.push(cur)));
    }
    lines.push(cur);
    proof {
        assert(forall|i: int|
            0 <= i < lines@.len() ==> lines@[i]@ == #[trigger] views_of(lines@)[i]);
    }
    lines
}

} // verus!
