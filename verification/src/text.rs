//! Text utilities shared by the FEN handling and the engine-protocol parsing:
//! splitting on single spaces (the shape the FEN fields come in), joining the
//! fields back, whitespace tokenizing, and decimal conversions.

use vstd::prelude::*;

verus! {

/// Splitting a string at every single space, keeping empty fields, as
/// `str::split(' ')` does.
pub open spec fn split_spaces(s: Seq<char>) -> Seq<Seq<char>>
    decreases s.len(),
{
    if s.len() == 0 {
        seq![Seq::<char>::empty()]
    } else if s[0] == ' ' {
        seq![Seq::<char>::empty()] + split_spaces(s.drop_first())
    } else {
        let r = split_spaces(s.drop_first());
        seq![seq![s[0]] + r[0]] + r.drop_first()
    }
}

/// Joining fields with one space between each pair.
pub open spec fn join_spaces(parts: Seq<Seq<char>>) -> Seq<char>
    decreases parts.len(),
{
    if parts.len() == 0 {
        Seq::<char>::empty()
    } else if parts.len() == 1 {
        parts[0]
    } else {
        parts[0] + seq![' '] + join_spaces(parts.drop_first())
    }
}

pub proof fn lemma_split_spaces_len(s: Seq<char>)
    ensures
        split_spaces(s).len() >= 1,
    decreases s.len(),
{
    if s.len() != 0 {
        lemma_split_spaces_len(s.drop_first());
    }
}

/// No field produced by the split contains a space.
pub proof fn lemma_split_spaces_space_free(s: Seq<char>)
    ensures
        forall|i: int|
            0 <= i < split_spaces(s).len() ==> !(#[trigger] split_spaces(s)[i]).contains(' '),
    decreases s.len(),
{
    if s.len() == 0 {
        assert forall|i: int|
            0 <= i < split_spaces(s).len() implies !(#[trigger] split_spaces(s)[i]).contains(
            ' ',
        ) by {
            assert(split_spaces(s)[i] =~= Seq::<char>::empty());
        }
    } else if s[0] == ' ' {
        lemma_split_spaces_space_free(s.drop_first());
        let r = split_spaces(s.drop_first());
        let out = split_spaces(s);
        assert forall|i: int| 0 <= i < out.len() implies !(#[trigger] out[i]).contains(' ') by {
            if i == 0 {
                assert(out[0] =~= Seq::<char>::empty());
            } else {
                assert(out[i] == r[i - 1]);
            }
        }
    } else {
        lemma_split_spaces_space_free(s.drop_first());
        lemma_split_spaces_len(s.drop_first());
        let r = split_spaces(s.drop_first());
        let out = split_spaces(s);
        assert forall|i: int| 0 <= i < out.len() implies !(#[trigger] out[i]).contains(' ') by {
            if i == 0 {
                assert(!r[0].contains(' '));
                assert(out[0] == seq![s[0]] + r[0]);
                assert forall|j: int| 0 <= j < out[0].len() implies out[0][j] != ' ' by {
                    if j > 0 {
                        assert(out[0][j] == r[0][j - 1]);
                        assert(r[0].contains(' ') <==> exists|k: int|
                            0 <= k < r[0].len() && r[0][k] == ' ');
                    }
                }
                assert(out[0].contains(' ') <==> exists|k: int|
                    0 <= k < out[0].len() && out[0][k] == ' ');
            } else {
                assert(out[i] == r[i]);
            }
        }
    }
}

/// Splitting a join restores the fields exactly, as long as none of them
/// contains a space.
pub proof fn lemma_split_join_spaces(parts: Seq<Seq<char>>)
    requires
        parts.len() >= 1,
        forall|i: int| 0 <= i < parts.len() ==> !(#[trigger] parts[i]).contains(' '),
    ensures
        split_spaces(join_spaces(parts)) == parts,
    decreases parts.len(), parts[0].len(),
{
    if parts.len() == 1 {
        lemma_split_space_free(parts[0]);
    } else if parts[0].len() == 0 {
        lemma_split_join_spaces(parts.drop_first());
        let j = join_spaces(parts);
        assert(j =~= seq![' '] + join_spaces(parts.drop_first()));
        assert(j[0] == ' ');
        assert(j.drop_first() =~= join_spaces(parts.drop_first()));
        assert(split_spaces(j) =~~= parts);
    } else {
        let tail_parts = parts.update(0, parts[0].drop_first());
        assert(forall|i: int|
            0 <= i < tail_parts.len() ==> !(#[trigger] tail_parts[i]).contains(' '));
        lemma_split_join_spaces(tail_parts);
        let j = join_spaces(parts);
        assert(parts[0].contains(' ') <==> exists|k: int|
            0 <= k < parts[0].len() && parts[0][k] == ' ');
        assert(j[0] == parts[0][0]);
        assert(j[0] != ' ');
        lemma_join_spaces_first_drop(parts);
        assert(j.drop_first() == join_spaces(tail_parts));
        let r = split_spaces(j.drop_first());
        assert(r == tail_parts);
        assert(split_spaces(j) =~~= seq![seq![j[0]] + r[0]] + r.drop_first());
        assert(seq![j[0]] + tail_parts[0] =~= parts[0]);
        assert(r.drop_first() =~~= parts.drop_first());
        assert(split_spaces(j) =~~= parts);
    }
}

/// A string without spaces splits into itself alone.
pub proof fn lemma_split_space_free(s: Seq<char>)
    requires
        !s.contains(' '),
    ensures
        split_spaces(s) == seq![s],
    decreases s.len(),
{
    if s.len() == 0 {
        assert(split_spaces(s) =~~= seq![s]);
    } else {
        assert(s.contains(' ') <==> exists|k: int| 0 <= k < s.len() && s[k] == ' ');
        assert(s[0] != ' ');
        assert(!s.drop_first().contains(' ')) by {
            if s.drop_first().contains(' ') {
                let k = choose|k: int|
                    0 <= k < s.drop_first().len() && s.drop_first()[k] == ' ';
                assert(s[k + 1] == ' ');
            }
        }
        lemma_split_space_free(s.drop_first());
        assert(split_spaces(s) =~~= seq![seq![s[0]] + s.drop_first()]);
        assert(seq![s[0]] + s.drop_first() =~= s);
        assert(split_spaces(s) =~~= seq![s]);
    }
}

/// How the split grows when one character is appended: a space opens a new
/// empty field, anything else extends the last field.
pub proof fn lemma_split_spaces_push(s: Seq<char>, c: char)
    ensures
        split_spaces(s.push(c)) == if c == ' ' {
            split_spaces(s).push(Seq::<char>::empty())
        } else {
            split_spaces(s).update(
                split_spaces(s).len() - 1,
                split_spaces(s).last().push(c),
            )
        },
    decreases s.len(),
{
    lemma_split_spaces_len(s);
    if s.len() == 0 {
        reveal_with_fuel(split_spaces, 3);
        assert(s.push(c)[0] == c);
        assert(s.push(c).drop_first() =~= Seq::<char>::empty());
        if c == ' ' {
            assert(split_spaces(s.push(c)) =~~= split_spaces(s).push(Seq::<char>::empty()));
        } else {
            assert(split_spaces(s.push(c)) =~~= seq![seq![c]]);
            assert(split_spaces(s).update(0, split_spaces(s).last().push(c)) =~~= seq![seq![c]]);
        }
    } else {
        lemma_split_spaces_push(s.drop_first(), c);
        lemma_split_spaces_len(s.drop_first());
        assert(s.push(c)[0] == s[0]);
        assert(s.push(c).drop_first() =~= s.drop_first().push(c));
        let r = split_spaces(s.drop_first());
        let rp = split_spaces(s.drop_first().push(c));
        if s[0] == ' ' {
            assert(split_spaces(s.push(c)) =~~= seq![Seq::<char>::empty()] + rp);
            if c == ' ' {
                assert(seq![Seq::<char>::empty()] + r.push(Seq::<char>::empty())
                    =~~= (seq![Seq::<char>::empty()] + r).push(Seq::<char>::empty()));
            } else {
                assert(seq![Seq::<char>::empty()] + r.update(r.len() - 1, r.last().push(c))
                    =~~= (seq![Seq::<char>::empty()] + r).update(r.len() as int, r.last().push(c)));
                assert((seq![Seq::<char>::empty()] + r).last() == r.last());
            }
        } else {
            assert(split_spaces(s.push(c)) =~~= seq![seq![s[0]] + rp[0]] + rp.drop_first());
            let whole = split_spaces(s);
            assert(whole =~~= seq![seq![s[0]] + r[0]] + r.drop_first());
            if c == ' ' {
                assert(rp == r.push(Seq::<char>::empty()));
                if r.len() == 1 {
                    assert(split_spaces(s.push(c)) =~~= whole.push(Seq::<char>::empty()));
                } else {
                    assert(rp[0] == r[0]);
                    assert(rp.drop_first() =~~= r.drop_first().push(Seq::<char>::empty()));
                    assert(split_spaces(s.push(c)) =~~= whole.push(Seq::<char>::empty()));
                }
            } else {
                assert(rp == r.update(r.len() - 1, r.last().push(c)));
                if r.len() == 1 {
                    assert(rp[0] == r[0].push(c));
                    assert(whole.len() == 1);
                    assert(whole.last() =~= seq![s[0]] + r[0]);
                    assert(seq![s[0]] + r[0].push(c) =~= (seq![s[0]] + r[0]).push(c));
                    assert(split_spaces(s.push(c)) =~~= whole.update(
                        whole.len() - 1,
                        whole.last().push(c),
                    ));
                } else {
                    assert(rp[0] == r[0]);
                    assert(rp.drop_first() =~~= r.drop_first().update(
                        r.len() - 2,
                        r.last().push(c),
                    ));
                    assert(whole.last() == r.last());
                    assert(split_spaces(s.push(c)) =~~= whole.update(
                        whole.len() - 1,
                        whole.last().push(c),
                    ));
                }
            }
        }
    }
}

/// The views of a vector of strings.
pub open spec fn views_of(v: Seq<String>) -> Seq<Seq<char>> {
    v.map_values(|x: String| x@)
}

/// Relies on String::push: appends one character at the end of the string.
#[verifier::external_body]
pub fn push_char(s: &mut String, c: char)
    ensures
        final(s)@ == old(s)@.push(c),
{
    s.push(c);
}

/// Split at every single space, keeping empty fields, as the FEN format and
/// its parser do.
pub fn split_fields(s: &str) -> (r: Vec<String>)
    ensures
        views_of(r@) == split_spaces(s@),
{
    let n = s.unicode_len();
    let mut done: Vec<String> = Vec::new();
    let mut cur: String = String::new();
    let mut i: usize = 0;
    while i < n
        invariant
            i <= n,
            n == s@.len(),
            views_of(done@).push(cur@) =~~= split_spaces(s@.take(i as int)),
        decreases n - i,
    {
        let c = s.get_char(i);
        proof {
            lemma_split_spaces_push(s@.take(i as int), c);
            assert(s@.take(i + 1 as int) =~= s@.take(i as int).push(c));
            lemma_split_spaces_len(s@.take(i as int));
        }
        if c == ' ' {
            done.push(cur);
            cur = String::new();
        } else {
            push_char(&mut cur, c);
            proof {
                let prev = split_spaces(s@.take(i as int));
                assert(views_of(done@).push(cur@) =~~= prev.update(
                    prev.len() - 1,
                    prev.last().push(c),
                ));
            }
        }
        i += 1;
    }
    proof {
        assert(s@.take(n as int) =~= s@);
    }
    done.push(cur);
    proof {
        assert(views_of(done@) =~~= split_spaces(s@));
    }
    done
}

/// Join fields with one space between each pair.
pub fn join_fields(v: &Vec<String>) -> (r: String)
    requires
        v@.len() >= 1,
    ensures
        r@ == join_spaces(views_of(v@)),
{
    let mut r = String::new();
    let mut i: usize = 0;
    while i < v.len()
        invariant
            i <= v@.len(),
            v@.len() >= 1,
            r@ == if i == 0 {
                Seq::<char>::empty()
            } else {
                join_spaces(views_of(v@.take(i as int)))
            },
        decreases v@.len() - i,
    {
        if i > 0 {
            push_char(&mut r, ' ');
        }
        r.append(v[i].as_str());
        proof {
            lemma_join_spaces_snoc(views_of(v@.take(i as int)), v@[i as int]@);
            assert(views_of(v@.take(i + 1 as int)) =~~= views_of(v@.take(i as int)).push(
                v@[i as int]@,
            ));
        }
        i += 1;
    }
    proof {
        assert(v@.take(v@.len() as int) =~= v@);
    }
    r
}

/// How a join grows when one field is appended at the end.
pub proof fn lemma_join_spaces_snoc(parts: Seq<Seq<char>>, f: Seq<char>)
    ensures
        join_spaces(parts.push(f)) == if parts.len() == 0 {
            f
        } else {
            join_spaces(parts) + seq![' '] + f
        },
    decreases parts.len(),
{
    if parts.len() == 0 {
        assert(parts.push(f) =~~= seq![f]);
    } else if parts.len() == 1 {
        assert(parts.push(f)[0] == parts[0]);
        assert(parts.push(f).drop_first() =~~= seq![f]);
        assert(join_spaces(seq![f]) == f);
        assert(join_spaces(parts.push(f)) == parts[0] + seq![' '] + f);
        assert(join_spaces(parts) == parts[0]);
    } else {
        lemma_join_spaces_snoc(parts.drop_first(), f);
        assert(parts.push(f).drop_first() =~~= parts.drop_first().push(f));
        assert(join_spaces(parts.push(f)) == parts[0] + seq![' ']
            + join_spaces(parts.drop_first().push(f)));
        assert(parts[0] + seq![' '] + (join_spaces(parts.drop_first()) + seq![' '] + f) =~= (
        parts[0] + seq![' '] + join_spaces(parts.drop_first())) + seq![' '] + f);
    }
}

/// The characters `str::split_whitespace` breaks on in the engine's output.
pub open spec fn is_space_char(c: char) -> bool {
    c == ' ' || c == '\n' || c == '\r' || c == '\t'
}

/// The whitespace-separated words of a string, empty words dropped, as
/// `str::split_whitespace` produces them.
pub open spec fn spec_tokens(s: Seq<char>) -> Seq<Seq<char>>
    decreases s.len(),
{
    if s.len() == 0 {
        Seq::<Seq<char>>::empty()
    } else {
        let r = spec_tokens(s.drop_last());
        let c = s.last();
        if is_space_char(c) {
            r
        } else if s.len() >= 2 && !is_space_char(s[s.len() - 2]) {
            r.update(r.len() - 1, r.last().push(c))
        } else {
            r.push(seq![c])
        }
    }
}

/// A word is open at the end of `s` exactly when `s` ends in a non-space
/// character; then the token list is non-empty.
pub proof fn lemma_spec_tokens_open_word(s: Seq<char>)
    ensures
        s.len() >= 1 && !is_space_char(s.last()) ==> spec_tokens(s).len() >= 1,
    decreases s.len(),
{
    if s.len() >= 1 {
        lemma_spec_tokens_open_word(s.drop_last());
    }
}

/// Split into whitespace-separated words.
pub fn tokenize(s: &str) -> (r: Vec<String>)
    ensures
        views_of(r@) == spec_tokens(s@),
{
    let n = s.unicode_len();
    let mut done: Vec<String> = Vec::new();
    let mut cur: String = String::new();
    let mut i: usize = 0;
    while i < n
        invariant
            i <= n,
            n == s@.len(),
            cur@.len() == 0 ==> views_of(done@) =~~= spec_tokens(s@.take(i as int)),
            cur@.len() > 0 ==> i >= 1 && !is_space_char(s@[i - 1]) && views_of(done@).push(cur@)
                =~~= spec_tokens(s@.take(i as int)),
            cur@.len() == 0 ==> i == 0 || is_space_char(s@[i - 1]),
        decreases n - i,
    {
        let c = s.get_char(i);
        proof {
            assert(s@.take(i + 1 as int).drop_last() =~= s@.take(i as int));
            assert(s@.take(i + 1 as int).last() == s@[i as int]);
            lemma_spec_tokens_open_word(s@.take(i as int));
        }
        if c == ' ' || c == '\n' || c == '\r' || c == '\t' {
            if !cur.as_str().is_empty() {
                done.push(cur);
                cur = String::new();
            }
        } else {
            push_char(&mut cur, c);
            proof {
                let prev = spec_tokens(s@.take(i as int));
                if i >= 1 && !is_space_char(s@[i - 1]) {
                    assert(views_of(done@).push(cur@) =~~= prev.update(
                        prev.len() - 1,
                        prev.last().push(c),
                    ));
                } else {
                    assert(cur@ =~= seq![c]);
                    assert(views_of(done@).push(cur@) =~~= prev.push(seq![c]));
                }
            }
        }
        i += 1;
    }
    proof {
        assert(s@.take(n as int) =~= s@);
    }
    if !cur.as_str().is_empty() {
        done.push(cur);
    }
    proof {
        assert(views_of(done@) =~~= spec_tokens(s@));
    }
    done
}

/// Character-by-character string comparison.
pub fn str_eq_str(a: &str, b: &str) -> (r: bool)
    ensures
        r == (a@ == b@),
{
    let n = a.unicode_len();
    if n != b.unicode_len() {
        return false;
    }
    let mut i: usize = 0;
    while i < n
        invariant
            i <= n,
            n == a@.len(),
            n == b@.len(),
            forall|j: int| 0 <= j < i ==> a@[j] == b@[j],
        decreases n - i,
    {
        if a.get_char(i) != b.get_char(i) {
            return false;
        }
        i += 1;
    }
    proof {
        assert(a@ =~= b@);
    }
    true
}

/// A decimal digit.
pub open spec fn is_digit_char(c: char) -> bool {
    '0' <= c && c <= '9'
}

pub open spec fn all_digit_chars(s: Seq<char>) -> bool {
    forall|i: int| 0 <= i < s.len() ==> is_digit_char(#[trigger] s[i])
}

/// The value of a string of decimal digits.
pub open spec fn digits_value(s: Seq<char>) -> int
    decreases s.len(),
{
    if s.len() == 0 {
        0
    } else {
        digits_value(s.drop_last()) * 10 + (s.last() as int - '0' as int)
    }
}

/// What a decimal integer token means: an optional minus sign followed by at
/// least one digit, and nothing else.
pub open spec fn spec_parse_int(s: Seq<char>) -> Option<int> {
    if s.len() >= 1 && all_digit_chars(s) {
        Some(digits_value(s))
    } else if s.len() >= 2 && s[0] == '-' && all_digit_chars(s.drop_first()) {
        Some(-digits_value(s.drop_first()))
    } else {
        None
    }
}

pub proof fn lemma_digits_value_nonneg(s: Seq<char>)
    requires
        all_digit_chars(s),
    ensures
        digits_value(s) >= 0,
    decreases s.len(),
{
    if s.len() > 0 {
        assert(all_digit_chars(s.drop_last())) by {
            assert(forall|i: int| 0 <= i < s.len() - 1 ==> s.drop_last()[i] == s[i]);
        }
        lemma_digits_value_nonneg(s.drop_last());
    }
}

/// Appending digits never shrinks the value.
pub proof fn lemma_digits_value_prefix(s: Seq<char>, i: int)
    requires
        all_digit_chars(s),
        0 <= i <= s.len(),
    ensures
        digits_value(s) >= digits_value(s.take(i)),
    decreases s.len() - i,
{
    if i < s.len() {
        lemma_digits_value_prefix(s, i + 1);
        assert(s.take(i + 1).drop_last() =~= s.take(i));
        assert(all_digit_chars(s.take(i))) by {
            assert(forall|j: int| 0 <= j < i ==> s.take(i)[j] == s[j]);
        }
        lemma_digits_value_nonneg(s.take(i));
        assert(is_digit_char(s[i]));
        assert(s.take(i + 1).last() == s[i]);
        assert(digits_value(s.take(i + 1)) == digits_value(s.take(i)) * 10 + (s[i] as int
            - '0' as int));
        assert(s[i] as int - '0' as int >= 0);
        assert(digits_value(s.take(i)) * 10 >= digits_value(s.take(i)));
        assert(digits_value(s.take(i + 1)) >= digits_value(s.take(i)));
    } else {
        assert(s.take(i) =~= s);
    }
}

/// Parse a decimal integer, with an optional leading minus sign; values out
/// of the `i32` range are rejected.
pub fn parse_i32(s: &str) -> (r: Option<i32>)
    ensures
        r == (match spec_parse_int(s@) {
            Some(v) => if i32::MIN <= v <= i32::MAX {
                Some(v as i32)
            } else {
                None
            },
            None => None,
        }),
{
    let n = s.unicode_len();
    if n == 0 {
        return None;
    }
    let neg = s.get_char(0) == '-';
    let start: usize = if neg {
        1
    } else {
        0
    };
    if start >= n {
        return None;
    }
    let ghost digits = if neg {
        s@.drop_first()
    } else {
        s@
    };
    let mut acc: u64 = 0;
    let mut i: usize = start;
    while i < n
        invariant
            start <= i <= n,
            n == s@.len(),
            start == if neg {
                1int
            } else {
                0int
            },
            neg ==> s@[0] == '-',
            !neg ==> !(s@[0] == '-'),
            n > start,
            digits == if neg {
                s@.drop_first()
            } else {
                s@
            },
            all_digit_chars(digits.take(i - start)),
            acc == digits_value(digits.take(i - start)),
            acc <= 0x8000_0000,
        decreases n - i,
    {
        let c = s.get_char(i);
        proof {
            assert(digits[i - start] == s@[i as int]);
            assert(digits.take(i + 1 - start).drop_last() =~= digits.take(i - start));
        }
        if !('0' <= c && c <= '9') {
            proof {
                if all_digit_chars(digits) {
                    assert(is_digit_char(digits[i - start]));
                }
            }
            return None;
        }
        let d: u64 = (c as u32 as u64) - 48;
        if acc > 0x0CCC_CCCC || acc * 10 + d > 0x8000_0000 {
            proof {
                assert(all_digit_chars(digits.take(i + 1 - start)));
                assert(digits_value(digits.take(i + 1 - start)) > 0x7FFF_FFFF + 1 || (neg
                    && digits_value(digits.take(i + 1 - start)) > 0x8000_0000 - 1)) by {
                    assert(digits_value(digits.take(i + 1 - start)) == acc * 10 + d);
                }
                if spec_parse_int(s@) is Some {
                    assert(all_digit_chars(digits));
                    lemma_digits_value_prefix(digits, i + 1 - start);
                    lemma_digits_value_nonneg(digits);
                }
            }
            return None;
        }
        acc = acc * 10 + d;
        i += 1;
    }
    proof {
        assert(digits.take(n - start) =~= digits);
        lemma_digits_value_nonneg(digits);
    }
    if neg {
        if acc > 0x8000_0000 {
            return None;
        }
        proof {
            assert(spec_parse_int(s@) == Some(-digits_value(digits)));
        }
        if acc == 0x8000_0000 {
            Some(i32::MIN)
        } else {
            Some(-(acc as i32))
        }
    } else {
        if acc > 0x7FFF_FFFF {
            return None;
        }
        Some(acc as i32)
    }
}

/// The digit character for one decimal digit.
pub open spec fn digit_char(d: int) -> char {
    if d == 0 {
        '0'
    } else if d == 1 {
        '1'
    } else if d == 2 {
        '2'
    } else if d == 3 {
        '3'
    } else if d == 4 {
        '4'
    } else if d == 5 {
        '5'
    } else if d == 6 {
        '6'
    } else if d == 7 {
        '7'
    } else if d == 8 {
        '8'
    } else {
        '9'
    }
}

/// The decimal writing of a non-negative integer.
pub open spec fn spec_dec(n: int) -> Seq<char>
    decreases n,
{
    if n < 10 {
        seq![digit_char(n)]
    } else {
        spec_dec(n / 10).push(digit_char(n % 10))
    }
}

/// The decimal writing of a signed integer.
pub open spec fn spec_dec_signed(n: int) -> Seq<char> {
    if n >= 0 {
        spec_dec(n)
    } else {
        seq!['-'] + spec_dec(-n)
    }
}

pub fn digit_char_exec(d: u64) -> (c: char)
    requires
        d < 10,
    ensures
        c == digit_char(d as int),
{
    match d {
        0 => '0',
        1 => '1',
        2 => '2',
        3 => '3',
        4 => '4',
        5 => '5',
        6 => '6',
        7 => '7',
        8 => '8',
        _ => '9',
    }
}

/// Write a non-negative integer in decimal.
pub fn u64_dec_string(n: u64) -> (r: String)
    ensures
        r@ == spec_dec(n as int),
    decreases n,
{
    if n < 10 {
        let mut s = String::new();
        push_char(&mut s, digit_char_exec(n));
        s
    } else {
        let mut s = u64_dec_string(n / 10);
        push_char(&mut s, digit_char_exec(n % 10));
        s
    }
}

/// Write a signed integer in decimal.
pub fn i64_dec_string(n: i64) -> (r: String)
    ensures
        r@ == spec_dec_signed(n as int),
{
    if n >= 0 {
        u64_dec_string(n as u64)
    } else {
        let m: u64 = ((-(n as i128)) as u64);
        let mut s = String::new();
        push_char(&mut s, '-');
        let digits = u64_dec_string(m);
        s.append(digits.as_str());
        proof {
            assert(s@ =~= seq!['-'] + spec_dec(m as int));
        }
        s
    }
}

proof fn lemma_join_spaces_first_drop(parts: Seq<Seq<char>>)
    requires
        parts.len() >= 2 || (parts.len() == 1 && parts[0].len() >= 1),
        parts[0].len() >= 1,
    ensures
        join_spaces(parts).len() >= 1,
        join_spaces(parts)[0] == parts[0][0],
        join_spaces(parts).drop_first() == join_spaces(parts.update(0, parts[0].drop_first())),
    decreases parts.len(),
{
    if parts.len() == 1 {
        assert(join_spaces(parts) == parts[0]);
        assert(join_spaces(parts.update(0, parts[0].drop_first())) == parts[0].drop_first());
    } else {
        let rest = join_spaces(parts.drop_first());
        assert(join_spaces(parts) =~= parts[0] + seq![' '] + rest);
        let upd = parts.update(0, parts[0].drop_first());
        assert(upd.drop_first() =~= parts.drop_first());
        assert(join_spaces(upd) =~= parts[0].drop_first() + seq![' '] + rest);
        assert(join_spaces(parts).drop_first() =~= parts[0].drop_first() + seq![' '] + rest);
    }
}

} // verus!
