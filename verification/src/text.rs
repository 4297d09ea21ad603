use vstd::prelude::*;
use vstd::string::{StrSliceExecFns, StringExecFns};

verus! {

/// The decimal digit `d` as a character, for `0 <= d <= 9`.
pub open spec fn digit_char(d: int) -> char {
    if d == 0 {
        '0'
    } else if d == 1 {
        '1'
    } else if d == 2 {
        '2'
    } else if d == 3 {
        '3'
    } else if d == 4 {
        '4'
    } else if d == 5 {
        '5'
    } else if d == 6 {
        '6'
    } else if d == 7 {
        '7'
    } else if d == 8 {
        '8'
    } else {
        '9'
    }
}

/// The decimal digit `d` as a one-character string slice.
pub fn digit_str(d: u64) -> (r: &'static str)
    requires
        d < 10,
    ensures
        r@ == seq![digit_char(d as int)],
{
    if d == 0 {
        proof {
            reveal_strlit("0");
            assert("0"@ =~= seq![digit_char(0)]);
        }
        "0"
    } else if d == 1 {
        proof {
            reveal_strlit("1");
            assert("1"@ =~= seq![digit_char(1)]);
        }
        "1"
    } else if d == 2 {
        proof {
            reveal_strlit("2");
            assert("2"@ =~= seq![digit_char(2)]);
        }
        "2"
    } else if d == 3 {
        proof {
            reveal_strlit("3");
            assert("3"@ =~= seq![digit_char(3)]);
        }
        "3"
    } else if d == 4 {
        proof {
            reveal_strlit("4");
            assert("4"@ =~= seq![digit_char(4)]);
        }
        "4"
    } else if d == 5 {
        proof {
            reveal_strlit("5");
            assert("5"@ =~= seq![digit_char(5)]);
        }
        "5"
    } else if d == 6 {
        proof {
            reveal_strlit("6");
            assert("6"@ =~= seq![digit_char(6)]);
        }
        "6"
    } else if d == 7 {
        proof {
            reveal_strlit("7");
            assert("7"@ =~= seq![digit_char(7)]);
        }
        "7"
    } else if d == 8 {
        proof {
            reveal_strlit("8");
            assert("8"@ =~= seq![digit_char(8)]);
        }
        "8"
    } else {
        proof {
            reveal_strlit("9");
            assert("9"@ =~= seq![digit_char(9)]);
        }
        "9"
    }
}

/// The decimal numeral of a non-negative integer, most significant digit
/// first, with no leading zeroes.
pub open spec fn spec_decimal(n: int) -> Seq<char>
    decreases n,
{
    if n < 10 {
        seq![digit_char(n)]
    } else {
        spec_decimal(n / 10).push(digit_char(n % 10))
    }
}

/// Renders a number in decimal.
pub fn to_decimal(n: u64) -> (s: String)
    ensures
        s@ == spec_decimal(n as int),
    decreases n,
{
    if n < 10 {
        digit_str(n).to_owned()
    } else {
        let mut s: String = to_decimal(n / 10);
        s.append(digit_str(n % 10));
        proof {
            assert(s@ =~= spec_decimal(n as int));
        }
        s
    }
}

/// Splitting on a separator, with the piece read so far as accumulator.
/// Empty pieces are kept, as `str::split` keeps them.
pub open spec fn spec_split_rec(s: Seq<char>, sep: char, cur: Seq<char>) -> Seq<Seq<char>>
    decreases s.len(),
{
    if s.len() == 0 {
        seq![cur]
    } else if s[0] == sep {
        seq![cur] + spec_split_rec(s.skip(1), sep, Seq::empty())
    } else {
        spec_split_rec(s.skip(1), sep, cur.push(s[0]))
    }
}

/// The pieces of `s` between occurrences of `sep`: one piece more than there
/// are separators, empty pieces kept.
pub open spec fn spec_split(s: Seq<char>, sep: char) -> Seq<Seq<char>> {
    spec_split_rec(s, sep, Seq::empty())
}

pub proof fn lemma_split_rec_len(s: Seq<char>, sep: char, cur: Seq<char>)
    ensures
        1 <= spec_split_rec(s, sep, cur).len() <= s.len() + 1,
    decreases s.len(),
{
    if s.len() == 0 {
    } else if s[0] == sep {
        lemma_split_rec_len(s.skip(1), sep, Seq::empty());
    } else {
        lemma_split_rec_len(s.skip(1), sep, cur.push(s[0]));
    }
}

/// A split yields at least one piece and at most one more piece than the
/// string has characters.
pub proof fn lemma_split_len(s: Seq<char>, sep: char)
    ensures
        1 <= spec_split(s, sep).len() <= s.len() + 1,
{
    lemma_split_rec_len(s, sep, Seq::empty());
}

/// The views of a sequence of strings.
pub open spec fn views_of(parts: Seq<String>) -> Seq<Seq<char>> {
    parts.map_values(|p: String| p@)
}

/// Splits a string on every occurrence of `sep`, keeping empty pieces.
pub fn split_char(s: &str, sep: char) -> (parts: Vec<String>)
    ensures
        views_of(parts@) == spec_split(s@, sep),
{
    let len: usize = s.unicode_len();
    let mut parts: Vec<String> = Vec::new();
    let mut start: usize = 0;
    let mut i: usize = 0;
    proof {
        assert(views_of(parts@) =~= Seq::<Seq<char>>::empty());
        assert(s@.skip(0) =~= s@);
        assert(s@.subrange(0, 0) =~= Seq::<char>::empty());
    }
    while i < len
        invariant
            start <= i <= len,
            len == s@.len(),
            spec_split(s@, sep) == views_of(parts@) + spec_split_rec(
                s@.skip(i as int),
                sep,
                s@.subrange(start as int, i as int),
            ),
        decreases len - i,
    {
        let ghost front = views_of(parts@);
        let ghost cur = s@.subrange(start as int, i as int);
        let c: char = s.get_char(i);
        proof {
            assert(s@.skip(i as int)[0] == s@[i as int]);
            assert(s@.skip(i as int).skip(1) =~= s@.skip(i as int + 1));
        }
        if c == sep {
            let piece: String = s.substring_char(start, i).to_owned();
            parts.push(piece);
            start = i + 1;
            proof {
                assert(views_of(parts@) =~= front.push(cur));
                assert(front.push(cur) + spec_split_rec(s@.skip(i as int + 1), sep,
                    Seq::<char>::empty()) =~= front + (seq![cur] + spec_split_rec(
                    s@.skip(i as int + 1), sep, Seq::<char>::empty())));
                assert(s@.subrange(i as int + 1, i as int + 1) =~= Seq::<char>::empty());
            }
        } else {
            proof {
                assert(s@.subrange(start as int, i as int + 1) =~= cur.push(s@[i as int]));
            }
        }
        i = i + 1;
    }
    let piece: String = s.substring_char(start, len).to_owned();
    parts.push(piece);
    proof {
        assert(s@.skip(len as int) =~= Seq::<char>::empty());
        assert(views_of(parts@) =~= views_of(parts@.drop_last()).push(piece@));
        assert(views_of(parts@) =~= views_of(parts@).drop_last() + seq![piece@]);
        assert(views_of(parts@) == spec_split(s@, sep));
    }
    parts
}

/// The string with every occurrence of the placeholder `{}` replaced by
/// `name`, scanning left to right without overlap.
pub open spec fn spec_substitute(s: Seq<char>, name: Seq<char>) -> Seq<char>
    decreases s.len(),
{
    if s.len() >= 2 && s[0] == '{' && s[1] == '}' {
        name + spec_substitute(s.skip(2), name)
    } else if s.len() == 0 {
        Seq::<char>::empty()
    } else {
        seq![s[0]] + spec_substitute(s.skip(1), name)
    }
}

/// Replaces every `{}` in `part` by `name`.
pub fn substitute(part: &str, name: &str) -> (r: String)
    ensures
        r@ == spec_substitute(part@, name@),
{
    let len: usize = part.unicode_len();
    let mut out: String = String::new();
    let mut i: usize = 0;
    proof {
        assert(part@.skip(0) =~= part@);
    }
    while i < len
        invariant
            i <= len,
            len == part@.len(),
            out@ + spec_substitute(part@.skip(i as int), name@) == spec_substitute(part@, name@),
        decreases len - i,
    {
        let c: char = part.get_char(i);
        proof {
            assert(part@.skip(i as int)[0] == part@[i as int]);
        }
        if c == '{' && i + 1 < len && part.get_char(i + 1) == '}' {
            out.append(name);
            proof {
                assert(part@.skip(i as int)[1] == part@[i as int + 1]);
                assert(part@.skip(i as int).skip(2) =~= part@.skip(i as int + 2));
            }
            i = i + 2;
        } else {
            let piece: &str = part.substring_char(i, i + 1);
            out.append(piece);
            proof {
                assert(piece@ =~= seq![part@[i as int]]);
                assert(part@.skip(i as int).skip(1) =~= part@.skip(i as int + 1));
            }
            i = i + 1;
        }
    }
    proof {
        assert(part@.skip(len as int) =~= Seq::<char>::empty());
        assert(out@ + Seq::<char>::empty() =~= out@);
    }
    out
}

/// The pieces joined with `sep` between consecutive pieces.
pub open spec fn spec_join(parts: Seq<Seq<char>>, sep: Seq<char>) -> Seq<char>
    decreases parts.len(),
{
    if parts.len() == 0 {
        Seq::<char>::empty()
    } else if parts.len() == 1 {
        parts[0]
    } else {
        parts[0] + sep + spec_join(parts.skip(1), sep)
    }
}

pub proof fn lemma_join_push(parts: Seq<Seq<char>>, p: Seq<char>, sep: Seq<char>)
    ensures
        parts.len() == 0 ==> spec_join(parts.push(p), sep) == p,
        parts.len() > 0 ==> spec_join(parts.push(p), sep) == spec_join(parts, sep) + sep + p,
    decreases parts.len(),
{
    if parts.len() == 0 {
        assert(parts.push(p) =~= seq![p]);
    } else {
        assert(parts.push(p).skip(1) =~= parts.skip(1).push(p));
        lemma_join_push(parts.skip(1), p, sep);
        assert(parts.push(p)[0] == parts[0]);
        if parts.len() == 1 {
            assert(spec_join(parts.push(p), sep) == parts[0] + sep + p);
        } else {
            assert(spec_join(parts.push(p), sep) =~= spec_join(parts, sep) + sep + p);
        }
    }
}

/// The first `n` pieces, each with the placeholder replaced by `name`,
/// joined with single spaces.
pub open spec fn spec_greeting(parts: Seq<Seq<char>>, n: int, name: Seq<char>) -> Seq<char> {
    spec_join(parts.take(n).map_values(|p: Seq<char>| spec_substitute(p, name)), " "@)
}

/// Builds the greeting shown for a run: the first `n` template parts with
/// the player's name substituted, joined with spaces.
pub fn greeting_parts(parts: &Vec<String>, n: usize, name: &str) -> (r: String)
    requires
        n <= parts@.len(),
    ensures
        r@ == spec_greeting(views_of(parts@), n as int, name@),
{
    let ghost mapped = views_of(parts@).take(n as int).map_values(
        |p: Seq<char>| spec_substitute(p, name@),
    );
    let mut out: String = String::new();
    let mut k: usize = 0;
    proof {
        assert(mapped.take(0) =~= Seq::<Seq<char>>::empty());
    }
    while k < n
        invariant
            k <= n <= parts@.len(),
            mapped == views_of(parts@).take(n as int).map_values(
                |p: Seq<char>| spec_substitute(p, name@),
            ),
            out@ == spec_join(mapped.take(k as int), " "@),
        decreases n - k,
    {
        if k > 0 {
            out.append(" ");
        }
        let piece: String = substitute(parts[k].as_str(), name);
        out.append(piece.as_str());
        proof {
            assert(views_of(parts@).take(n as int)[k as int] == parts@[k as int]@);
            assert(mapped[k as int] == spec_substitute(parts@[k as int]@, name@));
            lemma_join_push(mapped.take(k as int), mapped[k as int], " "@);
            assert(mapped.take(k as int).push(mapped[k as int]) =~= mapped.take(k as int + 1));
        }
        k = k + 1;
    }
    proof {
        assert(mapped.take(n as int) =~= mapped);
    }
    out
}

} // verus!
