//! Character-level text utilities shared by the page parsers: whitespace
//! trimming, prefix/suffix/substring tests, character and token removal,
//! and decimal rendering of small integers.

use vstd::prelude::*;
use vstd::std_specs::iter::IteratorSpec;

verus! {

broadcast use vstd::string::group_string_axioms;

/// The view of an optional piece of text.
pub open spec fn opt_text(o: Option<String>) -> Option<Seq<char>> {
    match o {
        Some(s) => Some(s@),
        None => None,
    }
}

/// The characters that count as whitespace for trimming, by code point:
/// the Unicode `White_Space` set.
pub open spec fn is_space_char(c: char) -> bool {
    let u = c as u32;
    u == 0x09 || u == 0x0A || u == 0x0B || u == 0x0C || u == 0x0D || u == 0x20
        || u == 0x85 || u == 0xA0 || u == 0x1680
        || (0x2000 <= u && u <= 0x200A)
        || u == 0x2028 || u == 0x2029 || u == 0x202F || u == 0x205F || u == 0x3000
}

pub fn is_space(c: char) -> (r: bool)
    ensures
        r == is_space_char(c),
{
    let u: u32 = c as u32;
    u == 0x09 || u == 0x0A || u == 0x0B || u == 0x0C || u == 0x0D || u == 0x20
        || u == 0x85 || u == 0xA0 || u == 0x1680
        || (0x2000 <= u && u <= 0x200A)
        || u == 0x2028 || u == 0x2029 || u == 0x202F || u == 0x205F || u == 0x3000
}

pub open spec fn trim_start_spec(s: Seq<char>) -> Seq<char>
    decreases s.len(),
{
    if s.len() > 0 && is_space_char(s[0]) {
        trim_start_spec(s.drop_first())
    } else {
        s
    }
}

pub open spec fn trim_end_spec(s: Seq<char>) -> Seq<char>
    decreases s.len(),
{
    if s.len() > 0 && is_space_char(s.last()) {
        trim_end_spec(s.drop_last())
    } else {
        s
    }
}

/// Leading and trailing whitespace removed.
pub open spec fn trim_spec(s: Seq<char>) -> Seq<char> {
    trim_end_spec(trim_start_spec(s))
}

/// A copy of `v` with leading and trailing whitespace removed.
pub fn trim(v: &Vec<char>) -> (r: Vec<char>)
    ensures
        r@ == trim_spec(v@),
{
    let mut lo: usize = 0;
    proof {
        assert(v@.skip(0) =~= v@);
    }
    while lo < v.len() && is_space(v[lo])
        invariant
            lo <= v@.len(),
            trim_start_spec(v@) == trim_start_spec(v@.skip(lo as int)),
        decreases v@.len() - lo,
    {
        proof {
            assert(v@.skip(lo as int).drop_first() =~= v@.skip(lo as int + 1));
        }
        lo = lo + 1;
    }
    proof {
        assert(trim_start_spec(v@.skip(lo as int)) == v@.skip(lo as int));
    }
    let mut hi: usize = v.len();
    while hi > lo && is_space(v[hi - 1])
        invariant
            lo <= hi <= v@.len(),
            trim_start_spec(v@) == v@.skip(lo as int),
            trim_end_spec(v@.skip(lo as int)) == trim_end_spec(v@.subrange(lo as int, hi as int)),
        decreases hi,
    {
        proof {
            assert(v@.subrange(lo as int, hi as int).drop_last() =~= v@.subrange(
                lo as int,
                hi as int - 1,
            ));
        }
        hi = hi - 1;
    }
    proof {
        assert(trim_end_spec(v@.subrange(lo as int, hi as int)) == v@.subrange(
            lo as int,
            hi as int,
        ));
    }
    let mut r: Vec<char> = Vec::new();
    let mut i: usize = lo;
    while i < hi
        invariant
            lo <= i <= hi <= v@.len(),
            r@ == v@.subrange(lo as int, i as int),
        decreases hi - i,
    {
        r.push(v[i]);
        proof {
            assert(v@.subrange(lo as int, i as int).push(v@[i as int]) =~= v@.subrange(
                lo as int,
                i as int + 1,
            ));
        }
        i = i + 1;
    }
    r
}

pub open spec fn starts_with_spec(s: Seq<char>, p: Seq<char>) -> bool {
    p.len() <= s.len() && s.take(p.len() as int) == p
}

pub open spec fn ends_with_spec(s: Seq<char>, p: Seq<char>) -> bool {
    p.len() <= s.len() && s.skip(s.len() - p.len()) == p
}

pub fn starts_with(v: &Vec<char>, p: &Vec<char>) -> (r: bool)
    ensures
        r == starts_with_spec(v@, p@),
{
    if p.len() > v.len() {
        return false;
    }
    let mut i: usize = 0;
    while i < p.len()
        invariant
            i <= p@.len() <= v@.len(),
            forall|j: int| 0 <= j < i ==> v@[j] == p@[j],
        decreases p@.len() - i,
    {
        if v[i] != p[i] {
            proof {
                assert(v@.take(p@.len() as int)[i as int] != p@[i as int]);
            }
            return false;
        }
        i = i + 1;
    }
    proof {
        assert(v@.take(p@.len() as int) =~= p@);
    }
    true
}

pub fn ends_with(v: &Vec<char>, p: &Vec<char>) -> (r: bool)
    ensures
        r == ends_with_spec(v@, p@),
{
    if p.len() > v.len() {
        return false;
    }
    let off: usize = v.len() - p.len();
    let mut i: usize = 0;
    while i < p.len()
        invariant
            i <= p@.len() <= v@.len(),
            v@.len() <= usize::MAX,
            off == v@.len() - p@.len(),
            forall|j: int| 0 <= j < i ==> v@[off + j] == p@[j],
        decreases p@.len() - i,
    {
        if v[off + i] != p[i] {
            proof {
                assert(v@.skip(off as int)[i as int] != p@[i as int]);
            }
            return false;
        }
        i = i + 1;
    }
    proof {
        assert(v@.skip(off as int) =~= p@);
    }
    true
}

pub open spec fn contains_sub_spec(s: Seq<char>, p: Seq<char>) -> bool {
    exists|i: int| 0 <= i && i + p.len() <= s.len() && #[trigger] s.subrange(i, i + p.len()) == p
}

pub fn contains_sub(v: &Vec<char>, p: &Vec<char>) -> (r: bool)
    ensures
        r == contains_sub_spec(v@, p@),
{
    if p.len() > v.len() {
        return false;
    }
    if p.len() == 0 {
        proof {
            assert(v@.subrange(0, 0 + p@.len() as int) =~= p@);
            assert(contains_sub_spec(v@, p@));
        }
        return true;
    }
    let last: usize = v.len() - p.len();
    let mut start: usize = 0;
    while start <= last
        invariant
            1 <= p@.len() <= v@.len(),
            v@.len() <= usize::MAX,
            last == v@.len() - p@.len(),
            start <= last + 1,
            forall|k: int|
                0 <= k < start ==> #[trigger] v@.subrange(k, k + p@.len()) != p@,
        decreases last + 1 - start,
    {
        let mut i: usize = 0;
        let mut matched: bool = true;
        while i < p.len()
            invariant
                start <= v@.len() - p@.len(),
                v@.len() <= usize::MAX,
                i <= p@.len(),
                matched ==> forall|j: int| 0 <= j < i ==> v@[start + j] == p@[j],
                !matched ==> v@.subrange(start as int, start as int + p@.len()) != p@,
            decreases p@.len() - i,
        {
            if v[start + i] != p[i] {
                proof {
                    assert(v@.subrange(start as int, start as int + p@.len())[i as int]
                        != p@[i as int]);
                }
                matched = false;
                i = p.len();
            } else {
                i = i + 1;
            }
        }
        if matched {
            proof {
                assert(v@.subrange(start as int, start as int + p@.len()) =~= p@);
            }
            return true;
        }
        start = start + 1;
    }
    proof {
        assert(forall|i: int|
            0 <= i && i + p@.len() <= v@.len() ==> #[trigger] v@.subrange(i, i + p@.len())
                != p@);
    }
    false
}

/// Everything before the first occurrence of `c`; the whole sequence when
/// `c` does not occur.
pub open spec fn prefix_before_spec(s: Seq<char>, c: char) -> Seq<char>
    decreases s.len(),
{
    if s.len() == 0 {
        s
    } else if s[0] == c {
        Seq::empty()
    } else {
        seq![s[0]] + prefix_before_spec(s.drop_first(), c)
    }
}

pub fn prefix_before(v: &Vec<char>, c: char) -> (r: Vec<char>)
    ensures
        r@ == prefix_before_spec(v@, c),
{
    let mut r: Vec<char> = Vec::new();
    let mut i: usize = 0;
    proof {
        assert(v@.skip(0) =~= v@);
        assert(Seq::<char>::empty() + prefix_before_spec(v@, c) =~= prefix_before_spec(v@, c));
    }
    while i < v.len()
        invariant
            i <= v@.len(),
            r@ == v@.take(i as int),
            prefix_before_spec(v@, c) == r@ + prefix_before_spec(v@.skip(i as int), c),
            forall|j: int| 0 <= j < i ==> v@[j] != c,
        decreases v@.len() - i,
    {
        if v[i] == c {
            proof {
                assert(prefix_before_spec(v@.skip(i as int), c) =~= Seq::<char>::empty());
                assert(prefix_before_spec(v@, c) =~= r@);
            }
            return r;
        }
        proof {
            let t = v@.skip(i as int);
            assert(t.drop_first() =~= v@.skip(i as int + 1));
            assert(prefix_before_spec(t, c) == seq![v@[i as int]] + prefix_before_spec(
                v@.skip(i as int + 1),
                c,
            ));
            assert(v@.take(i as int).push(v@[i as int]) =~= v@.take(i as int + 1));
            assert(r@.push(v@[i as int]) + prefix_before_spec(v@.skip(i as int + 1), c) =~= r@
                + prefix_before_spec(t, c));
        }
        r.push(v[i]);
        i = i + 1;
    }
    proof {
        assert(prefix_before_spec(v@.skip(v@.len() as int), c) =~= Seq::<char>::empty());
        assert(prefix_before_spec(v@, c) =~= r@);
    }
    r
}

proof fn lemma_filter_push(s: Seq<char>, pred: spec_fn(char) -> bool, x: char)
    ensures
        s.push(x).filter(pred) == if pred(x) {
            s.filter(pred).push(x)
        } else {
            s.filter(pred)
        },
{
    reveal(Seq::filter);
    assert(s.push(x).drop_last() =~= s);
    assert(s.push(x).last() == x);
}

/// All commas removed, as in a thousands-separated numeral.
pub open spec fn strip_commas_spec(s: Seq<char>) -> Seq<char> {
    s.filter(|c: char| c != ',')
}

pub fn strip_commas(v: &Vec<char>) -> (r: Vec<char>)
    ensures
        r@ == strip_commas_spec(v@),
{
    let ghost pred = |c: char| c != ',';
    let mut r: Vec<char> = Vec::new();
    let mut i: usize = 0;
    proof {
        reveal(Seq::filter);
        assert(v@.take(0).filter(pred) =~= Seq::<char>::empty());
    }
    while i < v.len()
        invariant
            i <= v@.len(),
            pred == (|c: char| c != ','),
            r@ == v@.take(i as int).filter(pred),
        decreases v@.len() - i,
    {
        proof {
            lemma_filter_push(v@.take(i as int), pred, v@[i as int]);
            assert(v@.take(i as int).push(v@[i as int]) =~= v@.take(i as int + 1));
        }
        if v[i] != ',' {
            r.push(v[i]);
        }
        i = i + 1;
    }
    proof {
        assert(v@.take(v@.len() as int) =~= v@);
    }
    r
}

/// Parentheses and percent signs removed, as around a change rate like
/// `(1.23%)`.
pub open spec fn strip_rate_marks_spec(s: Seq<char>) -> Seq<char> {
    s.filter(|c: char| c != '(' && c != ')' && c != '%')
}

pub fn strip_rate_marks(v: &Vec<char>) -> (r: Vec<char>)
    ensures
        r@ == strip_rate_marks_spec(v@),
{
    let ghost pred = |c: char| c != '(' && c != ')' && c != '%';
    let mut r: Vec<char> = Vec::new();
    let mut i: usize = 0;
    proof {
        reveal(Seq::filter);
        assert(v@.take(0).filter(pred) =~= Seq::<char>::empty());
    }
    while i < v.len()
        invariant
            i <= v@.len(),
            pred == (|c: char| c != '(' && c != ')' && c != '%'),
            r@ == v@.take(i as int).filter(pred),
        decreases v@.len() - i,
    {
        proof {
            lemma_filter_push(v@.take(i as int), pred, v@[i as int]);
            assert(v@.take(i as int).push(v@[i as int]) =~= v@.take(i as int + 1));
        }
        let c = v[i];
        if c != '(' && c != ')' && c != '%' {
            r.push(c);
        }
        i = i + 1;
    }
    proof {
        assert(v@.take(v@.len() as int) =~= v@);
    }
    r
}

/// Every left-to-right, non-overlapping occurrence of `tok` removed, as
/// `str::replace(tok, "")` does.
pub open spec fn remove_token_spec(s: Seq<char>, tok: Seq<char>) -> Seq<char>
    decreases s.len(),
    when tok.len() >= 1
{
    if s.len() < tok.len() {
        s
    } else if s.take(tok.len() as int) == tok {
        remove_token_spec(s.skip(tok.len() as int), tok)
    } else {
        seq![s[0]] + remove_token_spec(s.drop_first(), tok)
    }
}

pub fn remove_token(v: &Vec<char>, tok: &Vec<char>) -> (r: Vec<char>)
    requires
        tok@.len() >= 1,
    ensures
        r@ == remove_token_spec(v@, tok@),
{
    let mut r: Vec<char> = Vec::new();
    let mut i: usize = 0;
    let n: usize = v.len();
    proof {
        assert(v@.skip(0) =~= v@);
        assert(Seq::<char>::empty() + remove_token_spec(v@, tok@) =~= remove_token_spec(
            v@,
            tok@,
        ));
    }
    while i < n
        invariant
            tok@.len() >= 1,
            i <= v@.len(),
            n == v@.len(),
            remove_token_spec(v@, tok@) == r@ + remove_token_spec(v@.skip(i as int), tok@),
        decreases v@.len() - i,
    {
        let rest_len: usize = v.len() - i;
        let mut matched: bool = false;
        if tok.len() <= rest_len {
            let mut j: usize = 0;
            matched = true;
            while j < tok.len()
                invariant
                    tok@.len() <= v@.len() - i,
                    v@.len() <= usize::MAX,
                    i <= v@.len(),
                    j <= tok@.len(),
                    matched ==> forall|k: int| 0 <= k < j ==> v@[i + k] == tok@[k],
                    !matched ==> v@.skip(i as int).take(tok@.len() as int) != tok@,
                decreases tok@.len() - j,
            {
                if v[i + j] != tok[j] {
                    proof {
                        assert(v@.skip(i as int).take(tok@.len() as int)[j as int]
                            != tok@[j as int]);
                    }
                    matched = false;
                    j = tok.len();
                } else {
                    j = j + 1;
                }
            }
            if matched {
                proof {
                    assert(v@.skip(i as int).take(tok@.len() as int) =~= tok@);
                    assert(v@.skip(i as int).skip(tok@.len() as int) =~= v@.skip(
                        i as int + tok@.len() as int,
                    ));
                }
                i = i + tok.len();
            }
        }
        if !matched {
            proof {
                let t = v@.skip(i as int);
                if t.len() >= tok@.len() {
                    assert(t.take(tok@.len() as int) != tok@);
                }
                assert(t.drop_first() =~= v@.skip(i as int + 1));
                if t.len() < tok@.len() {
                    assert(t.len() >= 1 && tok@.len() >= 1);
                    assert(remove_token_spec(t, tok@) == t);
                    assert(t =~= seq![v@[i as int]] + v@.skip(i as int + 1));
                    assert(remove_token_spec(v@.skip(i as int + 1), tok@) == v@.skip(
                        i as int + 1,
                    ));
                } else {
                    assert(remove_token_spec(t, tok@) == seq![v@[i as int]]
                        + remove_token_spec(v@.skip(i as int + 1), tok@));
                }
                assert(r@.push(v@[i as int]) + remove_token_spec(v@.skip(i as int + 1), tok@)
                    =~= r@ + (seq![v@[i as int]] + remove_token_spec(
                    v@.skip(i as int + 1),
                    tok@,
                )));
            }
            r.push(v[i]);
            i = i + 1;
        }
    }
    proof {
        assert(v@.skip(v@.len() as int) =~= Seq::<char>::empty());
        assert(remove_token_spec(v@.skip(v@.len() as int), tok@) =~= Seq::<char>::empty());
    }
    r
}

/// The characters of `s`, collected into a vector.
pub fn chars_of(s: &str) -> (r: Vec<char>)
    ensures
        r@ == s@,
{
    let mut it = s.chars();
    let mut r: Vec<char> = Vec::new();
    loop
        invariant
            it.obeys_prophetic_iter_laws(),
            IteratorSpec::decrease(&it) is Some,
            r@ + IteratorSpec::remaining(&it) == s@,
        decreases IteratorSpec::decrease(&it)->0,
    {
        match it.next() {
            Some(c) => {
                r.push(c);
            },
            None => {
                proof {
                    assert(r@ + vstd::std_specs::iter::IteratorSpec::remaining(&it) =~= r@);
                }
                return r;
            },
        }
    }
}

/// Relies on `String::push`: appends exactly the given character.
#[verifier::external_body]
fn push_char(s: &mut String, c: char)
    ensures
        final(s)@ == old(s)@.push(c),
{
    s.push(c);
}

/// A string holding exactly the characters of `v`, in order.
pub fn string_of_chars(v: &Vec<char>) -> (r: String)
    ensures
        r@ == v@,
{
    let mut r = String::new();
    let mut i: usize = 0;
    while i < v.len()
        invariant
            i <= v@.len(),
            r@ == v@.take(i as int),
        decreases v@.len() - i,
    {
        push_char(&mut r, v[i]);
        proof {
            assert(v@.take(i as int).push(v@[i as int]) =~= v@.take(i as int + 1));
        }
        i = i + 1;
    }
    proof {
        assert(v@.take(v@.len() as int) =~= v@);
    }
    r
}

/// The decimal digit character for a value below ten.
pub open spec fn digit_char(d: int) -> char {
    if d == 0 {
        '0'
    } else if d == 1 {
        '1'
    } else if d == 2 {
        '2'
    } else if d == 3 {
        '3'
    } else if d == 4 {
        '4'
    } else if d == 5 {
        '5'
    } else if d == 6 {
        '6'
    } else if d == 7 {
        '7'
    } else if d == 8 {
        '8'
    } else {
        '9'
    }
}

/// The decimal numeral of a non-negative number, most significant digit
/// first, without leading zeros (a single `'0'` for zero).
pub open spec fn dec_chars(n: int) -> Seq<char>
    decreases n,
{
    if n < 10 {
        seq![digit_char(n)]
    } else {
        dec_chars(n / 10).push(digit_char(n % 10))
    }
}

fn digit_char_exec(d: u16) -> (r: char)
    requires
        d < 10,
    ensures
        r == digit_char(d as int),
{
    if d == 0 {
        '0'
    } else if d == 1 {
        '1'
    } else if d == 2 {
        '2'
    } else if d == 3 {
        '3'
    } else if d == 4 {
        '4'
    } else if d == 5 {
        '5'
    } else if d == 6 {
        '6'
    } else if d == 7 {
        '7'
    } else if d == 8 {
        '8'
    } else {
        '9'
    }
}

/// The decimal numeral of `n` as characters.
pub fn u16_chars(n: u16) -> (r: Vec<char>)
    ensures
        r@ == dec_chars(n as int),
    decreases n,
{
    if n < 10 {
        let mut r: Vec<char> = Vec::new();
        r.push(digit_char_exec(n));
        proof {
            assert(r@ =~= seq![digit_char(n as int)]);
        }
        r
    } else {
        let mut r = u16_chars(n / 10);
        r.push(digit_char_exec(n % 10));
        r
    }
}

} // verus!
