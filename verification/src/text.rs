//! Text primitives over `&str`, specified on the sequence of characters.

use vstd::prelude::*;
use vstd::std_specs::iter::IteratorSpec;

verus! {

/// Whether `s` begins with `p`, read character by character.
pub fn starts_with(s: &str, p: &str) -> (r: bool)
    ensures
        r == p@.is_prefix_of(s@),
{
    let mut rest_s = s.chars();
    let mut rest_p = p.chars();
    let ghost mut i: int = 0;
    loop
        invariant
            0 <= i <= p@.len(),
            i <= s@.len(),
            rest_s.remaining() == s@.skip(i),
            rest_p.remaining() == p@.skip(i),
            s@.take(i) =~= p@.take(i),
        decreases p@.len() - i,
    {
        match rest_p.next() {
            None => {
                assert(p@.take(i) =~= p@);
                return true;
            },
            Some(want) => {
                match rest_s.next() {
                    None => {
                        return false;
                    },
                    Some(got) => {
                        if got != want {
                            assert(s@[i] != p@[i]);
                            return false;
                        }
                        proof {
                            assert(s@.take(i + 1) =~= s@.take(i).push(s@[i]));
                            assert(p@.take(i + 1) =~= p@.take(i).push(p@[i]));
                            assert(s@.skip(i).drop_first() =~= s@.skip(i + 1));
                            assert(p@.skip(i).drop_first() =~= p@.skip(i + 1));
                            i = i + 1;
                        }
                    },
                }
            },
        }
    }
}

/// `s` without every leading repetition of `p`. An empty `p` removes nothing.
pub open spec fn trimmed_start(s: Seq<char>, p: Seq<char>) -> Seq<char>
    decreases s.len(),
{
    if p.len() > 0 && p.is_prefix_of(s) {
        trimmed_start(s.skip(p.len() as int), p)
    } else {
        s
    }
}

/// Removes every leading repetition of `p` from `s`.
pub fn trim_start_matches<'a>(s: &'a str, p: &str) -> (r: &'a str)
    ensures
        r@ == trimmed_start(s@, p@),
{
    if !starts_with(s, p) {
        return s;
    }
    let m = p.unicode_len();
    if m == 0 {
        return s;
    }
    let n = s.unicode_len();
    let mut rest = s.chars();
    let mut k: usize = 0;
    loop
        invariant
            m == p@.len(),
            m > 0,
            n == s@.len(),
            k <= n,
            rest.remaining() == s@.skip(k as int),
            trimmed_start(s@, p@) == trimmed_start(s@.skip(k as int), p@),
        decreases n - k,
    {
        let mut pattern = p.chars();
        let mut j: usize = 0;
        let mut whole = false;
        let mut failed = false;
        while !whole && !failed
            invariant
                m == p@.len(),
                n == s@.len(),
                j <= m,
                k + j <= n,
                !failed ==> rest.remaining() == s@.skip(k + j),
                !failed ==> pattern.remaining() == p@.skip(j as int),
                s@.skip(k as int).take(j as int) =~= p@.take(j as int),
                whole ==> j == m,
                failed ==> !p@.is_prefix_of(s@.skip(k as int)),
                !(whole && failed),
            decreases m - j + (if whole || failed { 0int } else { 1int }),
        {
            match pattern.next() {
                None => {
                    whole = true;
                },
                Some(want) => {
                    match rest.next() {
                        None => {
                            failed = true;
                        },
                        Some(got) => {
                            assert(got == s@.skip(k as int)[j as int]);
                            assert(want == p@[j as int]);
                            if got != want {
                                failed = true;
                            } else {
                                proof {
                                    let t = s@.skip(k as int);
                                    assert(t.take(j + 1) =~= t.take(j as int).push(t[j as int]));
                                    assert(p@.take(j + 1) =~= p@.take(j as int).push(p@[j as int]));
                                    assert(s@.skip(k + j).drop_first() =~= s@.skip(k + j + 1));
                                    assert(p@.skip(j as int).drop_first() =~= p@.skip(j + 1));
                                }
                                j = j + 1;
                            }
                        },
                    }
                },
            }
        }
        if failed {
            return s.substring_char(k, n);
        }
        proof {
            let t = s@.skip(k as int);
            assert(p@.take(m as int) =~= p@);
            assert(t.take(m as int) =~= t.subrange(0, m as int));
            assert(p@.is_prefix_of(t));
            assert(t.skip(m as int) =~= s@.skip(k + m));
        }
        k = k + m;
    }
}

/// The characters of `s`, in order.
pub fn chars_of(s: &str) -> (v: Vec<char>)
    ensures
        v@ == s@,
{
    let mut rest = s.chars();
    let mut v: Vec<char> = Vec::new();
    loop
        invariant
            v@.len() <= s@.len(),
            v@ =~= s@.take(v@.len() as int),
            rest.remaining() == s@.skip(v@.len() as int),
        decreases s@.len() - v@.len(),
    {
        match rest.next() {
            None => {
                assert(s@.take(v@.len() as int) =~= s@);
                return v;
            },
            Some(c) => {
                proof {
                    let i = v@.len() as int;
                    assert(s@.take(i + 1) =~= s@.take(i).push(s@[i]));
                    assert(s@.skip(i).drop_first() =~= s@.skip(i + 1));
                }
                v.push(c);
            },
        }
    }
}

/// `String::push`: appends the one character `c` to `s`.
#[verifier::external_body]
pub(crate) fn push_char(s: &mut String, c: char)
    ensures
        final(s)@ == old(s)@.push(c),
{
    s.push(c);
}

/// Whether `p` stands in `text` at position `at`.
fn matches_at(text: &Vec<char>, at: usize, p: &Vec<char>) -> (r: bool)
    requires
        at <= text@.len(),
    ensures
        r == p@.is_prefix_of(text@.skip(at as int)),
{
    if p.len() > text.len() - at {
        return false;
    }
    let ghost t = text@.skip(at as int);
    let mut j: usize = 0;
    while j < p.len()
        invariant
            at <= text@.len() <= usize::MAX,
            p@.len() <= text@.len() - at,
            j <= p@.len(),
            t == text@.skip(at as int),
            t.take(j as int) =~= p@.take(j as int),
        decreases p@.len() - j,
    {
        if text[at + j] != p[j] {
            assert(t[j as int] != p@[j as int]);
            assert(t.subrange(0, p@.len() as int)[j as int] == t[j as int]);
            return false;
        }
        assert(t.take(j + 1) =~= t.take(j as int).push(t[j as int]));
        assert(p@.take(j + 1) =~= p@.take(j as int).push(p@[j as int]));
        j = j + 1;
    }
    assert(p@.take(j as int) =~= p@);
    assert(t.take(j as int) =~= t.subrange(0, p@.len() as int));
    true
}

/// `s` without the occurrences of `p`, found from the left and not
/// overlapping. An empty `p` removes nothing.
pub open spec fn without_all(s: Seq<char>, p: Seq<char>) -> Seq<char>
    decreases s.len(),
{
    if s.len() == 0 {
        s
    } else if p.len() > 0 && p.is_prefix_of(s) {
        without_all(s.skip(p.len() as int), p)
    } else {
        seq![s[0]] + without_all(s.skip(1), p)
    }
}

/// Whether `p` stands somewhere in `s`.
pub open spec fn occurs_in(p: Seq<char>, s: Seq<char>) -> bool {
    exists|i: int| 0 <= i <= s.len() && p.is_prefix_of(#[trigger] s.skip(i))
}

/// A text in which `p` stands nowhere loses nothing.
pub proof fn lemma_without_all_keeps(s: Seq<char>, p: Seq<char>)
    requires
        !occurs_in(p, s),
    ensures
        without_all(s, p) == s,
    decreases s.len(),
{
    if s.len() > 0 {
        assert(s.skip(0) =~= s);
        let rest = s.skip(1);
        assert forall|i: int| 0 <= i <= rest.len() implies !p.is_prefix_of(
            #[trigger] rest.skip(i),
        ) by {
            assert(rest.skip(i) =~= s.skip(i + 1));
        }
        lemma_without_all_keeps(rest, p);
        assert(seq![s[0]] + rest =~= s);
    }
}

/// Where `p` stands between `a` and `b`, and nowhere else from the start of
/// `a` up to and into that place, nor in `b`, removing it leaves `a + b`.
pub proof fn lemma_without_all_removes_one(a: Seq<char>, p: Seq<char>, b: Seq<char>)
    requires
        p.len() > 0,
        forall|i: int| 0 <= i < a.len() ==> !p.is_prefix_of(#[trigger] (a + p + b).skip(i)),
        !occurs_in(p, b),
    ensures
        without_all(a + p + b, p) == a + b,
    decreases a.len(),
{
    let s = a + p + b;
    if a.len() == 0 {
        assert(s.subrange(0, p.len() as int) =~= p);
        assert(s.skip(p.len() as int) =~= b);
        lemma_without_all_keeps(b, p);
        assert(a + b =~= b);
    } else {
        assert(s.skip(0) =~= s);
        let shorter = a.skip(1);
        assert(s.skip(1) =~= shorter + p + b);
        assert forall|i: int| 0 <= i < shorter.len() implies !p.is_prefix_of(
            #[trigger] (shorter + p + b).skip(i),
        ) by {
            assert((shorter + p + b).skip(i) =~= s.skip(i + 1));
        }
        lemma_without_all_removes_one(shorter, p, b);
        assert(seq![s[0]] + (shorter + b) =~= a + b);
    }
}

/// Removes from `s` every occurrence of `p`, found from the left.
pub fn remove_all(s: &str, p: &str) -> (r: String)
    ensures
        r@ == without_all(s@, p@),
{
    let text = chars_of(s);
    let pattern = chars_of(p);
    let mut out = String::new();
    let mut i: usize = 0;
    assert(s@.skip(0) =~= s@);
    while i < text.len()
        invariant
            text@ == s@,
            pattern@ == p@,
            i <= text@.len(),
            out@ + without_all(s@.skip(i as int), p@) =~= without_all(s@, p@),
        decreases text@.len() - i,
    {
        let ghost t = s@.skip(i as int);
        if pattern.len() > 0 && matches_at(&text, i, &pattern) {
            assert(t.skip(p@.len() as int) =~= s@.skip(i + p@.len()));
            i = i + pattern.len();
        } else {
            assert(t.skip(1) =~= s@.skip(i + 1));
            assert(t[0] == text@[i as int]);
            push_char(&mut out, text[i]);
            i = i + 1;
        }
    }
    assert(s@.skip(i as int).len() == 0);
    out
}

/// Whether the two texts hold the same characters.
pub fn same_text(a: &str, b: &str) -> (r: bool)
    ensures
        r == (a@ == b@),
{
    let r = starts_with(a, b) && starts_with(b, a);
    proof {
        if r {
            assert(a@ =~= b@);
        }
        if a@ == b@ {
            assert(a@.subrange(0, a@.len() as int) =~= a@);
        }
    }
    r
}

/// The decimal digit that stands for `d`.
pub open spec fn digit_char(d: nat) -> char {
    if d == 0 {
        '0'
    } else if d == 1 {
        '1'
    } else if d == 2 {
        '2'
    } else if d == 3 {
        '3'
    } else if d == 4 {
        '4'
    } else if d == 5 {
        '5'
    } else if d == 6 {
        '6'
    } else if d == 7 {
        '7'
    } else if d == 8 {
        '8'
    } else {
        '9'
    }
}

/// `n` written in decimal, without leading zeros.
pub open spec fn decimal_text(n: nat) -> Seq<char>
    decreases n,
{
    if n < 10 {
        seq![digit_char(n)]
    } else {
        decimal_text(n / 10).push(digit_char(n % 10))
    }
}

fn digit(d: usize) -> (c: char)
    requires
        d < 10,
    ensures
        c == digit_char(d as nat),
{
    match d {
        0 => '0',
        1 => '1',
        2 => '2',
        3 => '3',
        4 => '4',
        5 => '5',
        6 => '6',
        7 => '7',
        8 => '8',
        _ => '9',
    }
}

/// Appends `n`, written in decimal, to `out`.
pub fn push_decimal(out: &mut String, n: usize)
    ensures
        final(out)@ == old(out)@ + decimal_text(n as nat),
    decreases n,
{
    if n >= 10 {
        push_decimal(out, n / 10);
    }
    push_char(out, digit(n % 10));
}

} // verus!
