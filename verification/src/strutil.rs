//! Small verified building blocks for route construction: character-level
//! string equality, appending single characters and decimal numbers to a
//! `String`, joining fragments with a separator, and whitespace
//! normalisation of free-text query terms.

use vstd::prelude::*;

verus! {

/// Character-by-character equality of two string slices.
pub fn str_equal(a: &str, b: &str) -> (r: bool)
    ensures
        r == (a@ == b@),
{
    let alen = a.unicode_len();
    let blen = b.unicode_len();
    if alen != blen {
        return false;
    }
    let mut i: usize = 0;
    while i < alen
        invariant
            alen == a@.len(),
            alen == b@.len(),
            i <= alen,
            forall|j: int| 0 <= j < i ==> a@[j] == b@[j],
        decreases alen - i,
    {
        if a.get_char(i) != b.get_char(i) {
            return false;
        }
        i = i + 1;
    }
    proof {
        assert(a@ =~= b@);
    }
    true
}

/// Whether `s` opens with the characters of `prefix`.
pub open spec fn spec_starts_with(s: Seq<char>, prefix: Seq<char>) -> bool {
    s.len() >= prefix.len() && s.subrange(0, prefix.len() as int) == prefix
}

/// Tests whether `s` opens with the characters of `prefix`.
pub fn str_starts_with(s: &str, prefix: &str) -> (r: bool)
    ensures
        r == spec_starts_with(s@, prefix@),
{
    let n = prefix.unicode_len();
    if s.unicode_len() < n {
        return false;
    }
    let mut i: usize = 0;
    while i < n
        invariant
            n == prefix@.len(),
            n <= s@.len(),
            i <= n,
            forall|j: int| 0 <= j < i ==> s@[j] == prefix@[j],
        decreases n - i,
    {
        if s.get_char(i) != prefix.get_char(i) {
            proof {
                assert(s@.subrange(0, n as int)[i as int] == s@[i as int]);
            }
            return false;
        }
        i = i + 1;
    }
    proof {
        assert(s@.subrange(0, n as int) =~= prefix@);
    }
    true
}

/// Relies on `String::push` of std: appends exactly one character.
#[verifier::external_body]
pub fn push_char(s: &mut String, c: char)
    ensures
        final(s)@ == old(s)@.push(c),
{
    s.push(c);
}

/// The decimal digit `d` as a character, for `0 <= d <= 9`.
pub open spec fn digit_char(d: int) -> char {
    if d == 0 {
        '0'
    } else if d == 1 {
        '1'
    } else if d == 2 {
        '2'
    } else if d == 3 {
        '3'
    } else if d == 4 {
        '4'
    } else if d == 5 {
        '5'
    } else if d == 6 {
        '6'
    } else if d == 7 {
        '7'
    } else if d == 8 {
        '8'
    } else {
        '9'
    }
}

/// The decimal representation of a non-negative number, without sign and
/// without leading zeros (except for the number 0 itself).
pub open spec fn spec_dec(n: int) -> Seq<char>
    decreases n,
{
    if n < 10 {
        seq![digit_char(n)]
    } else {
        spec_dec(n / 10).push(digit_char(n % 10))
    }
}

fn push_digit(s: &mut String, d: u64)
    requires
        d < 10,
    ensures
        final(s)@ == old(s)@.push(digit_char(d as int)),
{
    let c: char = match d {
        0 => '0',
        1 => '1',
        2 => '2',
        3 => '3',
        4 => '4',
        5 => '5',
        6 => '6',
        7 => '7',
        8 => '8',
        _ => '9',
    };
    push_char(s, c);
}

/// Appends the decimal representation of `n` to `s`.
pub fn append_dec(s: &mut String, n: u64)
    ensures
        final(s)@ == old(s)@ + spec_dec(n as int),
    decreases n,
{
    if n < 10 {
        push_digit(s, n);
        proof {
            assert(s@ =~= old(s)@ + spec_dec(n as int));
        }
    } else {
        append_dec(s, n / 10);
        push_digit(s, n % 10);
        proof {
            assert(s@ =~= old(s)@ + spec_dec(n as int));
        }
    }
}

/// The decimal representation of `n` as a fresh string.
pub fn dec_string(n: u64) -> (r: String)
    ensures
        r@ == spec_dec(n as int),
{
    let mut s = String::new();
    append_dec(&mut s, n);
    proof {
        assert(s@ =~= spec_dec(n as int));
    }
    s
}

/// `n` in decimal, left-padded with zeros to at least two digits.
pub open spec fn spec_dec2(n: int) -> Seq<char> {
    if n < 10 {
        seq![digit_char(0)] + spec_dec(n)
    } else {
        spec_dec(n)
    }
}

/// Appends `n` zero-padded to at least two digits, as in the day and month
/// fields of a `YYYY-MM-DD` date.
pub fn append_dec2(s: &mut String, n: u64)
    ensures
        final(s)@ == old(s)@ + spec_dec2(n as int),
{
    if n < 10 {
        push_digit(s, 0);
        push_digit(s, n);
        proof {
            assert(s@ =~= old(s)@ + spec_dec2(n as int));
        }
    } else {
        append_dec(s, n);
    }
}

/// `n` in decimal, left-padded with zeros to at least four digits.
pub open spec fn spec_dec4(n: int) -> Seq<char> {
    if n < 10 {
        seq![digit_char(0), digit_char(0), digit_char(0)] + spec_dec(n)
    } else if n < 100 {
        seq![digit_char(0), digit_char(0)] + spec_dec(n)
    } else if n < 1000 {
        seq![digit_char(0)] + spec_dec(n)
    } else {
        spec_dec(n)
    }
}

/// Appends `n` zero-padded to at least four digits, as in the year field of
/// a `YYYY-MM-DD` date.
pub fn append_dec4(s: &mut String, n: u64)
    ensures
        final(s)@ == old(s)@ + spec_dec4(n as int),
{
    if n < 10 {
        push_digit(s, 0);
        push_digit(s, 0);
        push_digit(s, 0);
    } else if n < 100 {
        push_digit(s, 0);
        push_digit(s, 0);
    } else if n < 1000 {
        push_digit(s, 0);
    }
    append_dec(s, n);
    proof {
        assert(s@ =~= old(s)@ + spec_dec4(n as int));
    }
}

/// The decimal representation of a possibly negative number.
pub open spec fn spec_dec_signed(n: int) -> Seq<char> {
    if n < 0 {
        seq!['-'] + spec_dec(-n)
    } else {
        spec_dec(n)
    }
}

/// Appends the decimal representation of `n`, with a leading `-` when `n`
/// is negative.
pub fn append_dec_signed(s: &mut String, n: i32)
    ensures
        final(s)@ == old(s)@ + spec_dec_signed(n as int),
{
    let wide: i64 = n as i64;
    if wide < 0 {
        push_char(s, '-');
        append_dec(s, (-wide) as u64);
        proof {
            assert(s@ =~= old(s)@ + spec_dec_signed(n as int));
        }
    } else {
        append_dec(s, wide as u64);
    }
}

/// The elements of `parts` concatenated, with `sep` between neighbours.
pub open spec fn seq_join(parts: Seq<Seq<char>>, sep: Seq<char>) -> Seq<char>
    decreases parts.len(),
{
    if parts.len() == 0 {
        Seq::empty()
    } else if parts.len() == 1 {
        parts[0]
    } else {
        seq_join(parts.drop_last(), sep) + sep + parts.last()
    }
}

/// Joins the strings of `parts` with the single character `sep`.
pub fn join_with(parts: &Vec<String>, sep: char) -> (r: String)
    ensures
        r@ == seq_join(parts.deep_view(), seq![sep]),
{
    let ghost target = parts.deep_view();
    let mut out = String::new();
    let mut i: usize = 0;
    while i < parts.len()
        invariant
            target == parts.deep_view(),
            target.len() == parts.len(),
            i <= parts.len(),
            out@ =~= seq_join(target.take(i as int), seq![sep]),
        decreases parts.len() - i,
    {
        proof {
            assert(parts.deep_view()[i as int] == parts@[i as int]@);
            assert(target.take(i as int + 1).drop_last() =~= target.take(i as int));
        }
        if i != 0 {
            push_char(&mut out, sep);
        }
        out.append(parts[i].as_str());
        proof {
            if i == 0 {
                assert(out@ =~= seq_join(target.take(1), seq![sep]));
            } else {
                assert(out@ =~= seq_join(target.take(i as int + 1), seq![sep]));
            }
        }
        i = i + 1;
    }
    proof {
        assert(target.take(parts.len() as int) =~= target);
    }
    out
}

// --- whitespace normalisation of free-text query terms ---

/// The characters treated as blank when a free-text term is normalised:
/// the Unicode White_Space set.
pub open spec fn is_query_space(c: char) -> bool {
    ||| '\u{9}' <= c <= '\u{d}'
    ||| c == ' '
    ||| c == '\u{85}'
    ||| c == '\u{a0}'
    ||| c == '\u{1680}'
    ||| '\u{2000}' <= c <= '\u{200a}'
    ||| c == '\u{2028}'
    ||| c == '\u{2029}'
    ||| c == '\u{202f}'
    ||| c == '\u{205f}'
    ||| c == '\u{3000}'
}

/// Normalisation before the first word: leading blanks are dropped.
pub open spec fn fq_lead(s: Seq<char>) -> Seq<char>
    decreases s.len(),
{
    if s.len() == 0 {
        Seq::empty()
    } else if is_query_space(s[0]) {
        fq_lead(s.drop_first())
    } else {
        seq![s[0]] + fq_word(s.drop_first())
    }
}

/// Normalisation inside a word: characters are kept as they are.
pub open spec fn fq_word(s: Seq<char>) -> Seq<char>
    decreases s.len(),
{
    if s.len() == 0 {
        Seq::empty()
    } else if is_query_space(s[0]) {
        fq_gap(s.drop_first())
    } else {
        seq![s[0]] + fq_word(s.drop_first())
    }
}

/// Normalisation in a blank run after a word: the run collapses to one `+`
/// when another word follows, and to nothing at the end.
pub open spec fn fq_gap(s: Seq<char>) -> Seq<char>
    decreases s.len(),
{
    if s.len() == 0 {
        Seq::empty()
    } else if is_query_space(s[0]) {
        fq_gap(s.drop_first())
    } else {
        seq!['+', s[0]] + fq_word(s.drop_first())
    }
}

/// A free-text term with blank runs collapsed: its words joined by `+`.
pub open spec fn spec_format_query(s: Seq<char>) -> Seq<char> {
    fq_lead(s)
}

fn is_space_char(c: char) -> (r: bool)
    ensures
        r == is_query_space(c),
{
    ('\u{9}' <= c && c <= '\u{d}') || c == ' ' || c == '\u{85}' || c == '\u{a0}' || c == '\u{1680}'
        || ('\u{2000}' <= c && c <= '\u{200a}') || c == '\u{2028}' || c == '\u{2029}' || c
        == '\u{202f}' || c == '\u{205f}' || c == '\u{3000}'
}

/// Collapses every run of blanks in `topic` to a single `+` and drops
/// leading and trailing blanks, the form Crossref expects of a free-text
/// query term.
pub fn format_query(topic: &str) -> (r: String)
    ensures
        r@ == spec_format_query(topic@),
{
    let n = topic.unicode_len();
    let mut out = String::new();
    // 0: before the first word, 1: inside a word, 2: in a blank run
    let mut state: u8 = 0;
    let mut i: usize = 0;
    proof {
        assert(topic@.skip(0) =~= topic@);
        assert(out@ + fq_lead(topic@) =~= fq_lead(topic@));
    }
    while i < n
        invariant
            n == topic@.len(),
            i <= n,
            state == 0 || state == 1 || state == 2,
            spec_format_query(topic@) == out@ + (if state == 0 {
                fq_lead(topic@.skip(i as int))
            } else if state == 1 {
                fq_word(topic@.skip(i as int))
            } else {
                fq_gap(topic@.skip(i as int))
            }),
        decreases n - i,
    {
        let ghost rest = topic@.skip(i as int);
        let c = topic.get_char(i);
        proof {
            assert(rest[0] == topic@[i as int]);
            assert(rest.drop_first() =~= topic@.skip(i as int + 1));
        }
        if is_space_char(c) {
            if state == 1 {
                state = 2;
            }
        } else {
            let ghost out0 = out@;
            if state == 2 {
                push_char(&mut out, '+');
            }
            push_char(&mut out, c);
            proof {
                if state == 2 {
                    assert(out@ + fq_word(rest.drop_first()) =~= out0 + (seq!['+', c] + fq_word(
                        rest.drop_first(),
                    )));
                }
            }
            state = 1;
        }
        i = i + 1;
    }
    proof {
        assert(topic@.skip(n as int) =~= Seq::<char>::empty());
        assert(out@ =~= spec_format_query(topic@));
    }
    out
}

/// Every term of `topics` normalised by [`format_query`] and the results
/// joined by `+`.
pub open spec fn spec_format_queries(topics: Seq<Seq<char>>) -> Seq<char> {
    seq_join(topics.map_values(|t: Seq<char>| spec_format_query(t)), seq!['+'])
}

/// Formats a list of free-text terms: each is normalised and the terms are
/// joined by `+`.
pub fn format_queries(topics: &Vec<String>) -> (r: String)
    ensures
        r@ == spec_format_queries(topics.deep_view()),
{
    let ghost target = topics.deep_view().map_values(|t: Seq<char>| spec_format_query(t));
    let mut out = String::new();
    let mut i: usize = 0;
    while i < topics.len()
        invariant
            target == topics.deep_view().map_values(|t: Seq<char>| spec_format_query(t)),
            topics.deep_view().len() == topics.len(),
            i <= topics.len(),
            out@ =~= seq_join(target.take(i as int), seq!['+']),
        decreases topics.len() - i,
    {
        let part = format_query(topics[i].as_str());
        proof {
            assert(topics.deep_view()[i as int] == topics@[i as int]@);
            assert(target.take(i as int + 1).drop_last() =~= target.take(i as int));
        }
        if i != 0 {
            push_char(&mut out, '+');
        }
        out.append(part.as_str());
        proof {
            if i == 0 {
                assert(out@ =~= seq_join(target.take(1), seq!['+']));
            } else {
                assert(out@ =~= seq_join(target.take(i as int + 1), seq!['+']));
            }
        }
        i = i + 1;
    }
    proof {
        assert(target.take(topics.len() as int) =~= target);
    }
    out
}

} // verus!
