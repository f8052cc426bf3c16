//! Character-level text utilities shared by the schema compiler, the row
//! generator and the bulk loader: truncation to a character budget, SQL
//! quote escaping, decimal rendering of integers, and joining with a
//! separator.

use vstd::prelude::*;

verus! {

/// `s` cut down to at most `n` characters.
pub open spec fn spec_truncate(s: Seq<char>, n: nat) -> Seq<char> {
    if s.len() <= n {
        s
    } else {
        s.take(n as int)
    }
}

/// `s` with every single quote doubled, so the result is safe between
/// single quotes in a SQL literal.
pub open spec fn spec_escape(s: Seq<char>) -> Seq<char>
    decreases s.len(),
{
    if s.len() == 0 {
        Seq::empty()
    } else if s[0] == '\'' {
        seq!['\'', '\''] + spec_escape(s.skip(1))
    } else {
        seq![s[0]] + spec_escape(s.skip(1))
    }
}

/// Every single quote in `s` is immediately followed by a second one that
/// closes the pair: no quote is left open.
pub open spec fn quotes_escaped(s: Seq<char>) -> bool
    decreases s.len(),
{
    if s.len() == 0 {
        true
    } else if s[0] != '\'' {
        quotes_escaped(s.skip(1))
    } else {
        s.len() >= 2 && s[1] == '\'' && quotes_escaped(s.skip(2))
    }
}

/// Escaping distributes over concatenation.
pub proof fn lemma_escape_concat(a: Seq<char>, b: Seq<char>)
    ensures
        spec_escape(a + b) == spec_escape(a) + spec_escape(b),
    decreases a.len(),
{
    if a.len() == 0 {
        assert(a + b =~= b);
        assert(spec_escape(a) + spec_escape(b) =~= spec_escape(b));
    } else {
        assert((a + b).skip(1) =~= a.skip(1) + b);
        lemma_escape_concat(a.skip(1), b);
        assert(spec_escape(a + b) =~= spec_escape(a) + spec_escape(b));
    }
}

/// An escaped text contains no unescaped quote.
pub proof fn lemma_escape_escaped(s: Seq<char>)
    ensures
        quotes_escaped(spec_escape(s)),
    decreases s.len(),
{
    if s.len() == 0 {
    } else {
        lemma_escape_escaped(s.skip(1));
        if s[0] == '\'' {
            assert(spec_escape(s).skip(2) =~= spec_escape(s.skip(1)));
        } else {
            assert(spec_escape(s).skip(1) =~= spec_escape(s.skip(1)));
        }
    }
}

/// The characters of `s`, in order.
pub fn str_chars(s: &str) -> (r: Vec<char>)
    ensures
        r@ == s@,
{
    let n = s.unicode_len();
    let mut r: Vec<char> = Vec::new();
    let mut i: usize = 0;
    while i < n
        invariant
            i <= n,
            n == s@.len(),
            r@ == s@.take(i as int),
        decreases n - i,
    {
        let c = s.get_char(i);
        r.push(c);
        assert(s@.take(i + 1 as int) =~= s@.take(i as int) + seq![s@[i as int]]);
        i += 1;
    }
    assert(s@.take(n as int) =~= s@);
    r
}

/// The first `n` characters of `s`, or all of them when `s` is shorter.
pub fn truncate_chars(s: &Vec<char>, n: usize) -> (r: Vec<char>)
    ensures
        r@ == spec_truncate(s@, n as nat),
        r@.len() <= n,
{
    let end = if s.len() <= n {
        s.len()
    } else {
        n
    };
    let mut r: Vec<char> = Vec::new();
    let mut i: usize = 0;
    while i < end
        invariant
            i <= end,
            end <= s@.len(),
            r@ == s@.take(i as int),
        decreases end - i,
    {
        r.push(s[i]);
        assert(s@.take(i + 1 as int) =~= s@.take(i as int) + seq![s@[i as int]]);
        i += 1;
    }
    if s.len() <= n {
        assert(s@.take(end as int) =~= s@);
    }
    r
}

/// `s` with every single quote doubled.
pub fn escape_quotes(s: &Vec<char>) -> (r: Vec<char>)
    ensures
        r@ == spec_escape(s@),
        quotes_escaped(r@),
{
    let mut r: Vec<char> = Vec::new();
    let mut i: usize = 0;
    while i < s.len()
        invariant
            i <= s@.len(),
            r@ == spec_escape(s@.take(i as int)),
        decreases s@.len() - i,
    {
        let c = s[i];
        if c == '\'' {
            r.push('\'');
            r.push('\'');
        } else {
            r.push(c);
        }
        proof {
            let pre = s@.take(i as int);
            let one = seq![s@[i as int]];
            lemma_escape_concat(pre, one);
            assert(one.skip(1) =~= Seq::<char>::empty());
            assert(spec_escape(Seq::<char>::empty()) =~= Seq::<char>::empty());
            if s@[i as int] == '\'' {
                assert(spec_escape(one) =~= seq!['\'', '\'']);
            } else {
                assert(spec_escape(one) =~= one);
            }
            assert(s@.take(i + 1 as int) =~= pre + one);
            assert(r@ =~= spec_escape(s@.take(i + 1 as int)));
        }
        i += 1;
    }
    proof {
        assert(s@.take(s@.len() as int) =~= s@);
        lemma_escape_escaped(s@);
    }
    r
}

/// The character for a decimal digit.
pub open spec fn digit_char(d: int) -> char {
    ((48 + d) as u8) as char
}

/// The decimal rendering of a non-negative integer, most significant digit
/// first, with no leading zero except for zero itself.
pub open spec fn spec_nat_chars(n: nat) -> Seq<char>
    decreases n,
{
    if n < 10 {
        seq![digit_char(n as int)]
    } else {
        spec_nat_chars(n / 10) + seq![digit_char((n % 10) as int)]
    }
}

/// The decimal rendering of an integer, with a leading minus sign when
/// negative.
pub open spec fn spec_int_chars(n: int) -> Seq<char> {
    if n < 0 {
        seq!['-'] + spec_nat_chars((-n) as nat)
    } else {
        spec_nat_chars(n as nat)
    }
}

fn push_u64_chars(n: u64, out: &mut Vec<char>)
    ensures
        final(out)@ == old(out)@ + spec_nat_chars(n as nat),
    decreases n,
{
    if n < 10 {
        out.push((48 + n as u8) as char);
    } else {
        push_u64_chars(n / 10, out);
        out.push((48 + (n % 10) as u8) as char);
        assert(out@ =~= old(out)@ + spec_nat_chars(n as nat));
    }
}

/// The decimal rendering of `n`.
pub fn u64_chars(n: u64) -> (r: Vec<char>)
    ensures
        r@ == spec_nat_chars(n as nat),
{
    let mut r: Vec<char> = Vec::new();
    push_u64_chars(n, &mut r);
    assert(r@ =~= spec_nat_chars(n as nat));
    r
}

/// The decimal rendering of `n`, signed.
pub fn i64_chars(n: i64) -> (r: Vec<char>)
    requires
        n != i64::MIN,
    ensures
        r@ == spec_int_chars(n as int),
{
    if n < 0 {
        let mut r: Vec<char> = Vec::new();
        r.push('-');
        push_u64_chars((-n) as u64, &mut r);
        assert(r@ =~= spec_int_chars(n as int));
        r
    } else {
        let r = u64_chars(n as u64);
        r
    }
}

/// Relies on `String`'s `FromIterator<char>`: collecting characters yields
/// the string of exactly those characters in order.
#[verifier::external_body]
pub fn chars_to_string(v: &Vec<char>) -> (r: String)
    ensures
        r@ == v@,
{
    v.iter().collect()
}

/// The elements of `parts` laid end to end with `sep` between neighbours.
pub open spec fn spec_join(parts: Seq<Seq<char>>, sep: Seq<char>) -> Seq<char>
    decreases parts.len(),
{
    if parts.len() == 0 {
        Seq::empty()
    } else if parts.len() == 1 {
        parts[0]
    } else {
        spec_join(parts.drop_last(), sep) + sep + parts.last()
    }
}

/// Joins `parts` with `sep` between neighbours.
pub fn join_strings(parts: &Vec<String>, sep: &str) -> (r: String)
    ensures
        r@ == spec_join(parts.deep_view(), sep@),
{
    let mut r = String::new();
    let mut i: usize = 0;
    while i < parts.len()
        invariant
            i <= parts@.len(),
            parts.deep_view().len() == parts@.len(),
            r@ == spec_join(parts.deep_view().take(i as int), sep@),
        decreases parts@.len() - i,
    {
        if i > 0 {
            r.append(sep);
        }
        r.append(parts[i].as_str());
        proof {
            let dv = parts.deep_view();
            assert(dv[i as int] == parts@[i as int]@);
            assert(dv.take(i + 1 as int).drop_last() =~= dv.take(i as int));
            assert(dv.take(i + 1 as int).last() == dv[i as int]);
            if i == 0 {
                assert(r@ =~= spec_join(dv.take(i + 1 as int), sep@));
            } else {
                assert(r@ =~= spec_join(dv.take(i + 1 as int), sep@));
            }
        }
        i += 1;
    }
    proof {
        assert(parts.deep_view().take(parts@.len() as int) =~= parts.deep_view());
    }
    r
}

} // verus!
