use vstd::prelude::*;

verus! {

/// The pieces of `s` between occurrences of `sep`, in order and with empty
/// pieces kept: n separators yield n + 1 pieces, so a split never has fewer
/// than one piece.
pub open spec fn split_at_sep(s: Seq<char>, sep: char) -> Seq<Seq<char>>
    decreases s.len(),
{
    if s.len() == 0 {
        seq![Seq::<char>::empty()]
    } else if s[0] == sep {
        seq![Seq::<char>::empty()] + split_at_sep(s.drop_first(), sep)
    } else {
        let rest = split_at_sep(s.drop_first(), sep);
        seq![seq![s[0]] + rest[0]] + rest.drop_first()
    }
}

/// A split always has its first piece.
pub proof fn lemma_split_has_a_piece(s: Seq<char>, sep: char)
    ensures
        split_at_sep(s, sep).len() >= 1,
    decreases s.len(),
{
    if s.len() == 0 {
    } else if s[0] == sep {
    } else {
        lemma_split_has_a_piece(s.drop_first(), sep);
    }
}

/// The non-empty pieces of a split, in order.
pub open spec fn drop_empty_pieces(ps: Seq<Seq<char>>) -> Seq<Seq<char>>
    decreases ps.len(),
{
    if ps.len() == 0 {
        Seq::<Seq<char>>::empty()
    } else if ps.last().len() > 0 {
        drop_empty_pieces(ps.drop_last()).push(ps.last())
    } else {
        drop_empty_pieces(ps.drop_last())
    }
}

/// The whitespace-separated fields of a line: its maximal runs of
/// non-space characters, in order.
pub open spec fn fields_of(s: Seq<char>) -> Seq<Seq<char>> {
    drop_empty_pieces(split_at_sep(s, ' '))
}

/// Whether `c` is a decimal digit, `'0'` through `'9'`.
pub open spec fn is_digit(c: char) -> bool {
    48 <= c as u32 && c as u32 <= 57
}

/// The value of one decimal digit; other characters count zero, which no
/// caller relies on.
pub open spec fn digit_val(c: char) -> nat {
    if is_digit(c) {
        (c as u32 - 48) as nat
    } else {
        0
    }
}

/// Whether every character of `s` is a decimal digit.
pub open spec fn all_digits(s: Seq<char>) -> bool {
    forall|i: int| 0 <= i < s.len() ==> is_digit(#[trigger] s[i])
}

/// The value of `s` read as a decimal numeral, most significant digit
/// first.
pub open spec fn dec_val(s: Seq<char>) -> nat
    decreases s.len(),
{
    if s.len() == 0 {
        0
    } else {
        dec_val(s.drop_last()) * 10 + digit_val(s.last())
    }
}

/// A numeral's value only grows as digits are appended: every prefix of
/// `s` reads at most what all of `s` reads.
pub proof fn lemma_dec_val_prefix_le(s: Seq<char>, i: int)
    requires
        0 <= i <= s.len(),
    ensures
        dec_val(s.subrange(0, i)) <= dec_val(s),
    decreases s.len() - i,
{
    if i == s.len() {
        assert(s.subrange(0, i) =~= s);
    } else {
        lemma_dec_val_prefix_le(s, i + 1);
        assert(s.subrange(0, i + 1).drop_last() =~= s.subrange(0, i));
    }
}

/// Collects the characters of `s` into a vector.
pub fn chars_of(s: &str) -> (v: Vec<char>)
    ensures
        v@ == s@,
{
    let n = s.unicode_len();
    let mut v: Vec<char> = Vec::new();
    let mut i: usize = 0;
    while i < n
        invariant
            n == s@.len(),
            0 <= i <= n,
            v@ == s@.subrange(0, i as int),
        decreases n - i,
    {
        v.push(s.get_char(i));
        proof {
            assert(v@ =~= s@.subrange(0, i + 1 as int));
        }
        i = i + 1;
    }
    proof {
        assert(s@.subrange(0, n as int) =~= s@);
    }
    v
}

/// Splits `s` at every occurrence of `sep`, keeping empty pieces.
pub fn split_chars(s: &Vec<char>, sep: char) -> (pieces: Vec<Vec<char>>)
    ensures
        pieces@.map_values(|p: Vec<char>| p@) == split_at_sep(s@, sep),
{
    let ghost whole = split_at_sep(s@, sep);
    let mut done: Vec<Vec<char>> = Vec::new();
    let mut cur: Vec<char> = Vec::new();
    let mut i: usize = 0;
    proof {
        lemma_split_has_a_piece(s@, sep);
        assert(s@.skip(0) =~= s@);
        assert(seq![whole[0]] + whole.drop_first() =~~= whole);
    }
    while i < s.len()
        invariant
            0 <= i <= s@.len(),
            split_at_sep(s@.skip(i as int), sep).len() >= 1,
            whole == split_at_sep(s@, sep),
            whole =~~= done@.map_values(|p: Vec<char>| p@) + seq![
                cur@ + split_at_sep(s@.skip(i as int), sep)[0],
            ] + split_at_sep(s@.skip(i as int), sep).drop_first(),
        decreases s@.len() - i,
    {
        let ghost before = split_at_sep(s@.skip(i as int), sep);
        let ghost after = split_at_sep(s@.skip(i + 1 as int), sep);
        proof {
            lemma_split_has_a_piece(s@.skip(i + 1 as int), sep);
            assert(s@.skip(i as int).drop_first() =~= s@.skip(i + 1 as int));
            assert(s@.skip(i as int)[0] == s@[i as int]);
        }
        let c = s[i];
        if c == sep {
            proof {
                assert(before =~~= seq![Seq::<char>::empty()] + after);
                assert(before[0] =~= Seq::<char>::empty());
                assert(before.drop_first() =~~= after);
                assert(seq![after[0]] + after.drop_first() =~~= after);
            }
            done.push(cur);
            cur = Vec::new();
            proof {
                assert(whole =~~= done@.map_values(|p: Vec<char>| p@) + seq![
                    cur@ + after[0],
                ] + after.drop_first());
            }
        } else {
            proof {
                assert(before =~~= seq![seq![s@[i as int]] + after[0]] + after.drop_first());
            }
            cur.push(c);
            proof {
                assert(whole =~~= done@.map_values(|p: Vec<char>| p@) + seq![
                    cur@ + after[0],
                ] + after.drop_first());
            }
        }
        i = i + 1;
    }
    proof {
        assert(s@.skip(i as int) =~= Seq::<char>::empty());
        assert(split_at_sep(Seq::<char>::empty(), sep) =~= seq![Seq::<char>::empty()]);
    }
    done.push(cur);
    proof {
        assert(done@.map_values(|p: Vec<char>| p@) =~~= whole);
    }
    done
}

/// Keeps the non-empty pieces of a split, in order.
pub fn keep_nonempty(pieces: Vec<Vec<char>>) -> (fields: Vec<Vec<char>>)
    ensures
        fields@.map_values(|p: Vec<char>| p@) == drop_empty_pieces(
            pieces@.map_values(|p: Vec<char>| p@),
        ),
{
    let mut fields: Vec<Vec<char>> = Vec::new();
    let mut i: usize = 0;
    while i < pieces.len()
        invariant
            0 <= i <= pieces@.len(),
            fields@.map_values(|p: Vec<char>| p@) == drop_empty_pieces(
                pieces@.map_values(|p: Vec<char>| p@).subrange(0, i as int),
            ),
        decreases pieces@.len() - i,
    {
        let ghost views = pieces@.map_values(|p: Vec<char>| p@);
        proof {
            assert(views.subrange(0, i + 1 as int).drop_last() =~= views.subrange(0, i as int));
            assert(views.subrange(0, i + 1 as int).last() == views[i as int]);
        }
        if pieces[i].len() > 0 {
            let piece = pieces[i].clone();
            proof {
                assert(piece@ == views[i as int]);
            }
            fields.push(piece);
            proof {
                assert(fields@.map_values(|p: Vec<char>| p@) =~= drop_empty_pieces(
                    views.subrange(0, i + 1 as int),
                ));
            }
        } else {
            proof {
                assert(fields@.map_values(|p: Vec<char>| p@) =~= drop_empty_pieces(
                    views.subrange(0, i + 1 as int),
                ));
            }
        }
        i = i + 1;
    }
    proof {
        let views = pieces@.map_values(|p: Vec<char>| p@);
        assert(views.subrange(0, views.len() as int) =~= views);
    }
    fields
}

/// Reads `t` as a decimal numeral of value at most `max`: every character
/// must be a digit, at least one must be present, and the value must fit.
pub fn parse_dec_le(t: &Vec<char>, max: u16) -> (r: Option<u16>)
    ensures
        r is Some <==> t@.len() >= 1 && all_digits(t@) && dec_val(t@) <= max,
        r matches Some(v) ==> v == dec_val(t@),
{
    if t.len() == 0 {
        return None;
    }
    let mut acc: u32 = 0;
    let mut i: usize = 0;
    while i < t.len()
        invariant
            0 <= i <= t@.len(),
            all_digits(t@.subrange(0, i as int)),
            acc == dec_val(t@.subrange(0, i as int)),
            acc <= max,
            max <= 65535,
        decreases t@.len() - i,
    {
        let c = t[i];
        let u = c as u32;
        if u < 48 || u > 57 {
            return None;
        }
        proof {
            assert(t@.subrange(0, i + 1 as int).drop_last() =~= t@.subrange(0, i as int));
            assert(t@.subrange(0, i + 1 as int).last() == t@[i as int]);
        }
        acc = acc * 10 + (u - 48);
        if acc > max as u32 {
            proof {
                lemma_dec_val_prefix_le(t@, i + 1);
            }
            return None;
        }
        i = i + 1;
    }
    proof {
        assert(t@.subrange(0, t@.len() as int) =~= t@);
    }
    Some(acc as u16)
}

} // verus!
