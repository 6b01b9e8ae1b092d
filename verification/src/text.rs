//! Character-level text utilities: equality and lexicographic order on
//! strings, splitting a path into its non-empty segments, trimming, and
//! rendering a number in decimal. Everything here is executable and proved
//! against sequence-level specifications.

use vstd::prelude::*;

verus! {

/// Relies on `String::push` of std: appends exactly one character at the
/// end of the string.
#[verifier::external_body]
pub fn push_char(s: &mut String, c: char)
    ensures
        final(s)@ == old(s)@.push(c),
{
    s.push(c);
}

/// Equality of two string slices, decided character by character.
pub fn str_eq(a: &str, b: &str) -> (r: bool)
    ensures
        r == (a@ == b@),
{
    let alen = a.unicode_len();
    let blen = b.unicode_len();
    if alen != blen {
        return false;
    }
    let mut i: usize = 0;
    while i < alen
        invariant
            i <= alen,
            alen == a@.len(),
            alen == b@.len(),
            forall|j: int| 0 <= j < i ==> a@[j] == b@[j],
        decreases alen - i,
    {
        if a.get_char(i) != b.get_char(i) {
            return false;
        }
        i += 1;
    }
    proof {
        assert(a@ =~= b@);
    }
    true
}

/// Lexicographic "less than or equal" on character sequences, ordering
/// characters by their scalar value.
pub open spec fn lex_leq(a: Seq<char>, b: Seq<char>) -> bool
    decreases a.len(),
{
    if a.len() == 0 {
        true
    } else if b.len() == 0 {
        false
    } else if a[0] == b[0] {
        lex_leq(a.drop_first(), b.drop_first())
    } else {
        (a[0] as int) < (b[0] as int)
    }
}

pub proof fn lemma_lex_refl(a: Seq<char>)
    ensures
        lex_leq(a, a),
    decreases a.len(),
{
    if a.len() > 0 {
        lemma_lex_refl(a.drop_first());
    }
}

pub proof fn lemma_lex_antisym(a: Seq<char>, b: Seq<char>)
    requires
        lex_leq(a, b),
        lex_leq(b, a),
    ensures
        a == b,
    decreases a.len(),
{
    if a.len() == 0 {
        assert(b.len() == 0);
        assert(a =~= b);
    } else {
        assert(a[0] == b[0]) by {
            if a[0] != b[0] {
                assert((a[0] as int) < (b[0] as int));
                assert((b[0] as int) < (a[0] as int));
            }
        }
        lemma_lex_antisym(a.drop_first(), b.drop_first());
        assert(a =~= b) by {
            assert(a.len() == b.len());
            assert forall|i: int| 0 <= i < a.len() implies a[i] == b[i] by {
                if i > 0 {
                    assert(a[i] == a.drop_first()[i - 1]);
                    assert(b[i] == b.drop_first()[i - 1]);
                }
            }
        }
    }
}

pub proof fn lemma_lex_trans(a: Seq<char>, b: Seq<char>, c: Seq<char>)
    requires
        lex_leq(a, b),
        lex_leq(b, c),
    ensures
        lex_leq(a, c),
    decreases a.len(),
{
    if a.len() == 0 {
    } else {
        assert(b.len() > 0);
        assert(c.len() > 0);
        if a[0] == b[0] && b[0] == c[0] {
            lemma_lex_trans(a.drop_first(), b.drop_first(), c.drop_first());
        }
    }
}

pub proof fn lemma_lex_connected(a: Seq<char>, b: Seq<char>)
    ensures
        lex_leq(a, b) || lex_leq(b, a),
    decreases a.len(),
{
    if a.len() > 0 && b.len() > 0 {
        if a[0] == b[0] {
            lemma_lex_connected(a.drop_first(), b.drop_first());
        }
    }
}

/// Lexicographic comparison of two string slices, decided character by
/// character.
pub fn str_lex_leq(a: &str, b: &str) -> (r: bool)
    ensures
        r == lex_leq(a@, b@),
{
    let alen = a.unicode_len();
    let blen = b.unicode_len();
    let mut i: usize = 0;
    proof {
        assert(a@.skip(0) =~= a@);
        assert(b@.skip(0) =~= b@);
    }
    loop
        invariant
            i <= alen,
            i <= blen,
            alen == a@.len(),
            blen == b@.len(),
            lex_leq(a@, b@) == lex_leq(a@.skip(i as int), b@.skip(i as int)),
        decreases alen - i,
    {
        if i == alen {
            return true;
        }
        if i == blen {
            return false;
        }
        let ca = a.get_char(i);
        let cb = b.get_char(i);
        proof {
            assert(a@.skip(i as int)[0] == ca);
            assert(b@.skip(i as int)[0] == cb);
        }
        if ca != cb {
            return (ca as u32) < (cb as u32);
        }
        proof {
            assert(a@.skip(i as int).drop_first() =~= a@.skip(i + 1));
            assert(b@.skip(i as int).drop_first() =~= b@.skip(i + 1));
        }
        i += 1;
    }
}

/// Splits a sequence on a separator and keeps only the non-empty chunks.
/// `cur` is the chunk read so far and `acc` the chunks already complete.
pub open spec fn split_drop_empty_from(
    s: Seq<char>,
    sep: char,
    cur: Seq<char>,
    acc: Seq<Seq<char>>,
) -> Seq<Seq<char>>
    decreases s.len(),
{
    if s.len() == 0 {
        if cur.len() == 0 {
            acc
        } else {
            acc.push(cur)
        }
    } else if s[0] == sep {
        split_drop_empty_from(
            s.drop_first(),
            sep,
            Seq::empty(),
            if cur.len() == 0 {
                acc
            } else {
                acc.push(cur)
            },
        )
    } else {
        split_drop_empty_from(s.drop_first(), sep, cur.push(s[0]), acc)
    }
}

/// The non-empty chunks of `s` between occurrences of `sep`.
pub open spec fn split_drop_empty(s: Seq<char>, sep: char) -> Seq<Seq<char>> {
    split_drop_empty_from(s, sep, Seq::empty(), Seq::empty())
}

/// The views of a vector of strings.
pub open spec fn strings_view(v: Seq<String>) -> Seq<Seq<char>> {
    v.map_values(|s: String| s@)
}

/// Splits `s` on `sep`, dropping the empty parts.
pub fn split_nonempty(s: &str, sep: char) -> (r: Vec<String>)
    ensures
        strings_view(r@) == split_drop_empty(s@, sep),
{
    let len = s.unicode_len();
    let mut acc: Vec<String> = Vec::new();
    let mut cur = String::new();
    let mut i: usize = 0;
    proof {
        assert(s@.skip(0) =~= s@);
        assert(strings_view(Seq::<String>::empty()) =~= Seq::<Seq<char>>::empty());
    }
    while i < len
        invariant
            i <= len,
            len == s@.len(),
            split_drop_empty(s@, sep) == split_drop_empty_from(
                s@.skip(i as int),
                sep,
                cur@,
                strings_view(acc@),
            ),
        decreases len - i,
    {
        let ghost rest = s@.skip(i as int);
        let ghost cv0 = cur@;
        let ghost accv0 = strings_view(acc@);
        let c = s.get_char(i);
        proof {
            assert(rest.len() > 0);
            assert(rest[0] == c);
            assert(rest.drop_first() =~= s@.skip(i + 1));
        }
        if c == sep {
            if cur.unicode_len() != 0 {
                let ghost cv = cur@;
                acc.push(cur);
                cur = String::new();
                proof {
                    assert(strings_view(acc@) =~= accv0.push(cv));
                    assert(cur@ =~= Seq::<char>::empty());
                    assert(split_drop_empty_from(rest, sep, cv0, accv0)
                        == split_drop_empty_from(s@.skip(i + 1), sep, cur@, strings_view(acc@)));
                }
            } else {
                proof {
                    assert(cv0 =~= Seq::<char>::empty());
                    assert(split_drop_empty_from(rest, sep, cv0, accv0)
                        == split_drop_empty_from(s@.skip(i + 1), sep, cv0, accv0));
                }
            }
        } else {
            push_char(&mut cur, c);
            proof {
                assert(cur@ == cv0.push(c));
                assert(split_drop_empty_from(rest, sep, cv0, accv0)
                    == split_drop_empty_from(s@.skip(i + 1), sep, cur@, accv0));
            }
        }
        i += 1;
    }
    proof {
        assert(s@.skip(len as int) =~= Seq::<char>::empty());
    }
    if cur.unicode_len() != 0 {
        let ghost cv = cur@;
        let ghost prev = strings_view(acc@);
        acc.push(cur);
        proof {
            assert(strings_view(acc@) =~= prev.push(cv));
        }
    }
    acc
}

/// `s` with every trailing `c` removed.
pub open spec fn trim_trailing(s: Seq<char>, c: char) -> Seq<char>
    decreases s.len(),
{
    if s.len() > 0 && s.last() == c {
        trim_trailing(s.drop_last(), c)
    } else {
        s
    }
}

/// Removes every trailing `c` from `s`.
pub fn trim_trailing_char(s: &str, c: char) -> (r: &str)
    ensures
        r@ == trim_trailing(s@, c),
{
    let len = s.unicode_len();
    let mut end = len;
    proof {
        assert(s@.subrange(0, len as int) =~= s@);
    }
    loop
        invariant
            end <= len,
            len == s@.len(),
            trim_trailing(s@, c) == trim_trailing(s@.subrange(0, end as int), c),
        ensures
            end <= len,
            len == s@.len(),
            trim_trailing(s@, c) == trim_trailing(s@.subrange(0, end as int), c),
            end > 0 ==> s@[end - 1] != c,
        decreases end,
    {
        if end == 0 {
            break;
        }
        if s.get_char(end - 1) != c {
            break;
        }
        proof {
            let sub = s@.subrange(0, end as int);
            assert(sub.last() == s@[end - 1]);
            assert(sub.drop_last() =~= s@.subrange(0, end - 1));
        }
        end -= 1;
    }
    proof {
        let sub = s@.subrange(0, end as int);
        if end > 0 {
            assert(sub.last() == s@[end - 1]);
        }
        assert(trim_trailing(sub, c) == sub);
    }
    s.substring_char(0, end)
}

/// The decimal digit for a value below ten.
pub open spec fn dec_digit(n: nat) -> char {
    if n == 0 {
        '0'
    } else if n == 1 {
        '1'
    } else if n == 2 {
        '2'
    } else if n == 3 {
        '3'
    } else if n == 4 {
        '4'
    } else if n == 5 {
        '5'
    } else if n == 6 {
        '6'
    } else if n == 7 {
        '7'
    } else if n == 8 {
        '8'
    } else {
        '9'
    }
}

/// The decimal rendering of `n`, without leading zeros.
pub open spec fn dec_str(n: nat) -> Seq<char>
    decreases n,
{
    if n < 10 {
        seq![dec_digit(n)]
    } else {
        dec_str(n / 10) + seq![dec_digit(n % 10)]
    }
}

fn dec_digit_char(n: u64) -> (r: char)
    requires
        n < 10,
    ensures
        r == dec_digit(n as nat),
{
    match n {
        0 => '0',
        1 => '1',
        2 => '2',
        3 => '3',
        4 => '4',
        5 => '5',
        6 => '6',
        7 => '7',
        8 => '8',
        _ => '9',
    }
}

/// Renders `n` in decimal.
pub fn u64_to_dec(n: u64) -> (r: String)
    ensures
        r@ == dec_str(n as nat),
    decreases n,
{
    if n < 10 {
        let c = dec_digit_char(n);
        let mut s = String::new();
        push_char(&mut s, c);
        proof {
            assert(s@ =~= dec_str(n as nat));
        }
        s
    } else {
        let mut head = u64_to_dec(n / 10);
        let c = dec_digit_char(n % 10);
        push_char(&mut head, c);
        proof {
            assert(dec_str(n as nat) =~= dec_str((n / 10) as nat).push(dec_digit((n % 10) as nat)));
        }
        head
    }
}

} // verus!
