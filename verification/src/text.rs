//! Verified text helpers shared by the request builders and the response
//! decoders: decimal rendering of counters, the platform's ampersand
//! unescaping quirk, and joining id chunks for batched queries.

use vstd::prelude::*;

verus! {

/// The character standing for one decimal digit.
pub open spec fn dec_digit_char(d: nat) -> char {
    if d == 0 {
        '0'
    } else if d == 1 {
        '1'
    } else if d == 2 {
        '2'
    } else if d == 3 {
        '3'
    } else if d == 4 {
        '4'
    } else if d == 5 {
        '5'
    } else if d == 6 {
        '6'
    } else if d == 7 {
        '7'
    } else if d == 8 {
        '8'
    } else {
        '9'
    }
}

/// The usual decimal rendering of a number, without leading zeroes
/// (except for the number zero itself).
pub open spec fn dec_rep(n: nat) -> Seq<char>
    decreases n,
{
    if n < 10 {
        seq![dec_digit_char(n)]
    } else {
        dec_rep(n / 10).push(dec_digit_char(n % 10))
    }
}

/// Append the single decimal digit `d` to `s`.
fn push_dec_digit(s: &mut String, d: u64)
    requires
        d < 10,
    ensures
        final(s)@ == old(s)@.push(dec_digit_char(d as nat)),
{
    if d == 0 {
        s.append("0");
        proof {
            reveal_strlit("0");
            assert(final(s)@ =~= old(s)@.push('0'));
        }
    } else if d == 1 {
        s.append("1");
        proof {
            reveal_strlit("1");
            assert(final(s)@ =~= old(s)@.push('1'));
        }
    } else if d == 2 {
        s.append("2");
        proof {
            reveal_strlit("2");
            assert(final(s)@ =~= old(s)@.push('2'));
        }
    } else if d == 3 {
        s.append("3");
        proof {
            reveal_strlit("3");
            assert(final(s)@ =~= old(s)@.push('3'));
        }
    } else if d == 4 {
        s.append("4");
        proof {
            reveal_strlit("4");
            assert(final(s)@ =~= old(s)@.push('4'));
        }
    } else if d == 5 {
        s.append("5");
        proof {
            reveal_strlit("5");
            assert(final(s)@ =~= old(s)@.push('5'));
        }
    } else if d == 6 {
        s.append("6");
        proof {
            reveal_strlit("6");
            assert(final(s)@ =~= old(s)@.push('6'));
        }
    } else if d == 7 {
        s.append("7");
        proof {
            reveal_strlit("7");
            assert(final(s)@ =~= old(s)@.push('7'));
        }
    } else if d == 8 {
        s.append("8");
        proof {
            reveal_strlit("8");
            assert(final(s)@ =~= old(s)@.push('8'));
        }
    } else {
        s.append("9");
        proof {
            reveal_strlit("9");
            assert(final(s)@ =~= old(s)@.push('9'));
        }
    }
}

/// Render `n` in decimal.
pub fn u64_to_dec(n: u64) -> (s: String)
    ensures
        s@ == dec_rep(n as nat),
    decreases n,
{
    if n < 10 {
        let mut s = String::new();
        push_dec_digit(&mut s, n);
        proof {
            assert(s@ =~= dec_rep(n as nat));
        }
        s
    } else {
        let mut s = u64_to_dec(n / 10);
        push_dec_digit(&mut s, n % 10);
        s
    }
}

/// Render a collection size in decimal.
pub fn usize_to_dec(n: usize) -> (s: String)
    ensures
        s@ == dec_rep(n as nat),
{
    u64_to_dec(n as u64)
}

/// The six-character escape the platform leaves inside JSON string
/// payloads where an ampersand is meant.
pub open spec fn escape_pattern() -> Seq<char> {
    seq!['\\', 'u', '0', '0', '2', '6']
}

/// Replace every occurrence of the escape pattern by a literal
/// ampersand, scanning left to right over non-overlapping matches.
pub open spec fn unescape_ampersands(s: Seq<char>) -> Seq<char>
    decreases s.len(),
{
    if s.len() == 0 {
        s
    } else if s.len() >= 6 && s.subrange(0, 6) == escape_pattern() {
        seq!['&'] + unescape_ampersands(s.subrange(6, s.len() as int))
    } else {
        seq![s[0]] + unescape_ampersands(s.subrange(1, s.len() as int))
    }
}

/// Decode a platform-returned URL: the literal `&` escapes become
/// ampersands, everything else is kept as it came.
pub fn unescape_url(s: &str) -> (r: String)
    ensures
        r@ == unescape_ampersands(s@),
{
    let n = s.unicode_len();
    let mut r = String::new();
    let mut i: usize = 0;
    proof {
        assert(s@.subrange(0, n as int) =~= s@);
        assert(r@ + unescape_ampersands(s@) =~= unescape_ampersands(s@));
    }
    while i < n
        invariant
            n == s@.len(),
            i <= n,
            unescape_ampersands(s@) == r@ + unescape_ampersands(
                s@.subrange(i as int, n as int),
            ),
        decreases n - i,
    {
        let ghost t = s@.subrange(i as int, n as int);
        let pat = n - i >= 6 && s.get_char(i) == '\\' && s.get_char(i + 1) == 'u' && s.get_char(
            i + 2,
        ) == '0' && s.get_char(i + 3) == '0' && s.get_char(i + 4) == '2' && s.get_char(i + 5)
            == '6';
        if pat {
            let ghost r0 = r@;
            r.append("&");
            proof {
                reveal_strlit("&");
                assert(t.subrange(0, 6) =~= escape_pattern());
                assert(t.subrange(6, t.len() as int) =~= s@.subrange(i + 6, n as int));
                assert(unescape_ampersands(t) == seq!['&'] + unescape_ampersands(
                    s@.subrange(i + 6, n as int),
                ));
                assert("&"@ =~= seq!['&']);
                assert(r@ =~= r0 + seq!['&']);
                assert(r0 + (seq!['&'] + unescape_ampersands(s@.subrange(i + 6, n as int))) =~= (r0
                    + seq!['&']) + unescape_ampersands(s@.subrange(i + 6, n as int)));
            }
            i = i + 6;
        } else {
            let piece = s.substring_char(i, i + 1);
            let ghost r0 = r@;
            r.append(piece);
            proof {
                if i + 6 <= n && t.subrange(0, 6) == escape_pattern() {
                    assert(t.subrange(0, 6) =~= s@.subrange(i as int, i + 6));
                    assert(s@.subrange(i as int, i + 6)[0] == s@[i as int]);
                    assert(s@.subrange(i as int, i + 6)[1] == s@[i + 1]);
                    assert(s@.subrange(i as int, i + 6)[2] == s@[i + 2]);
                    assert(s@.subrange(i as int, i + 6)[3] == s@[i + 3]);
                    assert(s@.subrange(i as int, i + 6)[4] == s@[i + 4]);
                    assert(s@.subrange(i as int, i + 6)[5] == s@[i + 5]);
                    assert(false);
                }
                assert(t.len() < 6 || t.subrange(0, 6) != escape_pattern());
                assert(unescape_ampersands(t) == seq![t[0]] + unescape_ampersands(
                    t.subrange(1, t.len() as int),
                ));
                assert(piece@ =~= seq![t[0]]);
                assert(t.subrange(1, t.len() as int) =~= s@.subrange(i + 1, n as int));
                assert(r@ =~= r0 + piece@);
                assert(r0 + (piece@ + unescape_ampersands(s@.subrange(i + 1, n as int))) =~= (r0
                    + piece@) + unescape_ampersands(s@.subrange(i + 1, n as int)));
            }
            i = i + 1;
        }
    }
    proof {
        assert(s@.subrange(n as int, n as int) =~= Seq::<char>::empty());
        assert(r@ + unescape_ampersands(Seq::<char>::empty()) =~= r@);
    }
    r
}

/// The parts, in order, separated by `sep`.
pub open spec fn join_with(parts: Seq<Seq<char>>, sep: Seq<char>) -> Seq<char>
    decreases parts.len(),
{
    if parts.len() == 0 {
        Seq::empty()
    } else if parts.len() == 1 {
        parts[0]
    } else {
        parts[0] + sep + join_with(parts.drop_first(), sep)
    }
}

proof fn lemma_join_push(parts: Seq<Seq<char>>, sep: Seq<char>, x: Seq<char>)
    requires
        parts.len() >= 1,
    ensures
        join_with(parts.push(x), sep) == join_with(parts, sep) + sep + x,
    decreases parts.len(),
{
    if parts.len() == 1 {
        assert(parts.push(x).drop_first() =~= seq![x]);
        assert(join_with(seq![x], sep) == x);
        assert(join_with(parts.push(x), sep) =~= parts[0] + sep + x);
    } else {
        lemma_join_push(parts.drop_first(), sep, x);
        assert(parts.push(x).drop_first() =~= parts.drop_first().push(x));
        assert(join_with(parts.push(x), sep) =~= join_with(parts, sep) + sep + x);
    }
}

/// The views of a range of strings.
pub open spec fn views_of(ids: Seq<String>, from: int, to: int) -> Seq<Seq<char>> {
    ids.subrange(from, to).map_values(|s: String| s@)
}

/// Join `ids[from..to]` with the separator `sep`, in order.
pub fn join_ids(ids: &Vec<String>, from: usize, to: usize, sep: &str) -> (r: String)
    requires
        from <= to <= ids@.len(),
    ensures
        r@ == join_with(views_of(ids@, from as int, to as int), sep@),
{
    let mut r = String::new();
    let mut j: usize = from;
    while j < to
        invariant
            from <= j <= to <= ids@.len(),
            j == from ==> r@ =~= Seq::<char>::empty(),
            j > from ==> r@ == join_with(views_of(ids@, from as int, j as int), sep@),
        decreases to - j,
    {
        if j > from {
            r.append(sep);
        }
        r.append(ids[j].as_str());
        proof {
            if j == from {
                assert(views_of(ids@, from as int, j + 1) =~= seq![ids@[from as int]@]);
                assert(r@ =~= ids@[from as int]@);
            } else {
                lemma_join_push(views_of(ids@, from as int, j as int), sep@, ids@[j as int]@);
                assert(views_of(ids@, from as int, j + 1) =~= views_of(
                    ids@,
                    from as int,
                    j as int,
                ).push(ids@[j as int]@));
            }
        }
        j = j + 1;
    }
    proof {
        if from == to {
            assert(views_of(ids@, from as int, to as int) =~= Seq::<Seq<char>>::empty());
        }
    }
    r
}

} // verus!
