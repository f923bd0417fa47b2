//! Verified string helpers: character-exact equality, prefix tests,
//! joining and splitting of token lists, and decimal rendering of counts.

use vstd::prelude::*;
use vstd::string::StrSliceExecFns;

verus! {

/// Character-by-character equality of two string slices.
pub fn str_eq(a: &str, b: &str) -> (r: bool)
    ensures
        r == (a@ == b@),
{
    let alen = a.unicode_len();
    let blen = b.unicode_len();
    if alen != blen {
        return false;
    }
    let mut i: usize = 0;
    while i < alen
        invariant
            alen == a@.len(),
            blen == b@.len(),
            alen == blen,
            i <= alen,
            forall|j: int| 0 <= j < i ==> a@[j] == b@[j],
        decreases alen - i,
    {
        if a.get_char(i) != b.get_char(i) {
            return false;
        }
        i = i + 1;
    }
    proof {
        assert(a@ =~= b@);
    }
    true
}

/// The characters of `parts` in order with `sep` between neighbours.
pub open spec fn spec_join(parts: Seq<Seq<char>>, sep: Seq<char>) -> Seq<char>
    decreases parts.len(),
{
    if parts.len() == 0 {
        Seq::empty()
    } else if parts.len() == 1 {
        parts.last()
    } else {
        spec_join(parts.drop_last(), sep) + sep + parts.last()
    }
}

/// Concatenates `parts` with `sep` between neighbours.
pub fn join(parts: &Vec<String>, sep: &str) -> (r: String)
    ensures
        r@ == spec_join(parts.deep_view(), sep@),
{
    let ghost all = parts.deep_view();
    let mut r = String::new();
    let mut i: usize = 0;
    while i < parts.len()
        invariant
            all == parts.deep_view(),
            all.len() == parts.len(),
            i <= parts.len(),
            r@ == spec_join(all.take(i as int), sep@),
        decreases parts.len() - i,
    {
        if i != 0 {
            r.append(sep);
        }
        r.append(parts[i].as_str());
        proof {
            assert(all.take(i + 1 as int).drop_last() =~= all.take(i as int));
            assert(all.take(i + 1 as int).last() == all[i as int]);
        }
        i = i + 1;
    }
    proof {
        assert(all.take(parts.len() as int) =~= all);
    }
    r
}

/// Does `s` begin with the characters of `p`?
pub open spec fn spec_starts_with(s: Seq<char>, p: Seq<char>) -> bool {
    p.len() <= s.len() && s.take(p.len() as int) == p
}

/// Character-by-character prefix test.
pub fn starts_with(s: &str, p: &str) -> (r: bool)
    ensures
        r == spec_starts_with(s@, p@),
{
    let slen = s.unicode_len();
    let plen = p.unicode_len();
    if plen > slen {
        return false;
    }
    let mut i: usize = 0;
    while i < plen
        invariant
            slen == s@.len(),
            plen == p@.len(),
            plen <= slen,
            i <= plen,
            forall|j: int| 0 <= j < i ==> s@[j] == p@[j],
        decreases plen - i,
    {
        if s.get_char(i) != p.get_char(i) {
            proof {
                assert(s@.take(p@.len() as int)[i as int] != p@[i as int]);
            }
            return false;
        }
        i = i + 1;
    }
    proof {
        assert(s@.take(p@.len() as int) =~= p@);
    }
    true
}

/// `s` cut at every occurrence of `sep`; a cut at each end or at two
/// neighbouring separators leaves an empty piece, as `str::split` does.
pub open spec fn spec_split_char(s: Seq<char>, sep: char) -> Seq<Seq<char>>
    decreases s.len(),
{
    if s.len() == 0 {
        seq![Seq::<char>::empty()]
    } else if s[0] == sep {
        seq![Seq::<char>::empty()] + spec_split_char(s.drop_first(), sep)
    } else {
        let rest = spec_split_char(s.drop_first(), sep);
        seq![seq![s[0]] + rest[0]] + rest.drop_first()
    }
}

pub proof fn lemma_split_char_nonempty(s: Seq<char>, sep: char)
    ensures
        spec_split_char(s, sep).len() >= 1,
    decreases s.len(),
{
    if s.len() != 0 {
        lemma_split_char_nonempty(s.drop_first(), sep);
    }
}

/// A string without the separator is a single piece.
pub proof fn lemma_split_char_whole(s: Seq<char>, sep: char)
    requires
        forall|j: int| 0 <= j < s.len() ==> s[j] != sep,
    ensures
        spec_split_char(s, sep) == seq![s],
    decreases s.len(),
{
    if s.len() == 0 {
        assert(s =~= Seq::<char>::empty());
        assert(seq![Seq::<char>::empty()] =~= seq![s]);
    } else {
        assert(forall|j: int| 0 <= j < s.drop_first().len() ==> s.drop_first()[j] == s[j + 1]);
        lemma_split_char_whole(s.drop_first(), sep);
        let rest = spec_split_char(s.drop_first(), sep);
        assert(rest == seq![s.drop_first()]);
        assert(seq![s[0]] + rest[0] =~= s);
        assert(rest.drop_first() =~= Seq::<Seq<char>>::empty());
        assert(seq![seq![s[0]] + rest[0]] + rest.drop_first() =~= seq![s]);
    }
}

/// Splitting at the first separator: the piece before it, then the split of
/// what follows it.
pub proof fn lemma_split_char_at_first(s: Seq<char>, sep: char, i: int)
    requires
        0 <= i < s.len(),
        s[i] == sep,
        forall|j: int| 0 <= j < i ==> s[j] != sep,
    ensures
        spec_split_char(s, sep) == seq![s.take(i)] + spec_split_char(s.skip(i + 1), sep),
    decreases i,
{
    if i == 0 {
        assert(s.take(0) =~= Seq::<char>::empty());
        assert(s.skip(1) =~= s.drop_first());
        assert(seq![Seq::<char>::empty()] + spec_split_char(s.drop_first(), sep) == seq![s.take(0)]
            + spec_split_char(s.skip(1), sep));
    } else {
        let t = s.drop_first();
        assert(t[i - 1] == s[i]);
        assert(forall|j: int| 0 <= j < i - 1 ==> t[j] == s[j + 1] && t[j] != sep);
        lemma_split_char_at_first(t, sep, i - 1);
        let rest = spec_split_char(t, sep);
        let after = spec_split_char(t.skip(i), sep);
        assert(rest == seq![t.take(i - 1)] + after);
        lemma_split_char_nonempty(t.skip(i), sep);
        assert(rest[0] == t.take(i - 1));
        assert(rest.drop_first() =~= after);
        assert(seq![s[0]] + t.take(i - 1) =~= s.take(i));
        assert(t.skip(i) =~= s.skip(i + 1));
        assert(seq![seq![s[0]] + rest[0]] + rest.drop_first() =~= seq![s.take(i)]
            + spec_split_char(s.skip(i + 1), sep));
    }
}

/// Splits `s` at every occurrence of `sep`, keeping empty pieces.
pub fn split_char(s: &str, sep: char) -> (r: Vec<String>)
    ensures
        r.deep_view() == spec_split_char(s@, sep),
{
    let n = s.unicode_len();
    let mut out: Vec<String> = Vec::new();
    let mut start: usize = 0;
    let mut i: usize = 0;
    proof {
        assert(s@.skip(0) =~= s@);
        assert(out.deep_view() =~= Seq::<Seq<char>>::empty());
        assert(out.deep_view() + spec_split_char(s@, sep) =~= spec_split_char(s@, sep));
    }
    while i < n
        invariant
            n == s@.len(),
            start <= i <= n,
            forall|j: int| start <= j < i ==> s@[j] != sep,
            spec_split_char(s@, sep) == out.deep_view() + spec_split_char(
                s@.skip(start as int),
                sep,
            ),
        decreases n - i,
    {
        let c = s.get_char(i);
        if c == sep {
            let ghost pre = out.deep_view();
            let tok = s.substring_char(start, i).to_owned();
            out.push(tok);
            proof {
                let tail = s@.skip(start as int);
                assert(tail[i - start] == s@[i as int]);
                assert(forall|j: int| 0 <= j < i - start ==> tail[j] == s@[j + start] && tail[j]
                    != sep);
                lemma_split_char_at_first(tail, sep, i - start);
                assert(tail.take(i - start) =~= s@.subrange(start as int, i as int));
                assert(tail.skip(i - start + 1) =~= s@.skip(i as int + 1));
                assert(out.deep_view() =~= pre.push(tok@));
                assert(pre + (seq![tok@] + spec_split_char(s@.skip(i as int + 1), sep)) =~= pre.push(
                    tok@,
                ) + spec_split_char(s@.skip(i as int + 1), sep));
            }
            start = i + 1;
        }
        i = i + 1;
    }
    let ghost pre = out.deep_view();
    let tok = s.substring_char(start, n).to_owned();
    out.push(tok);
    proof {
        let tail = s@.skip(start as int);
        lemma_split_char_whole(tail, sep);
        assert(tok@ =~= tail);
        assert(out.deep_view() =~= pre.push(tok@));
        assert(pre + spec_split_char(tail, sep) =~= pre.push(tok@));
    }
    out
}

/// The decimal digit character for `d`.
pub open spec fn spec_digit_char(d: int) -> char {
    if d == 0 {
        '0'
    } else if d == 1 {
        '1'
    } else if d == 2 {
        '2'
    } else if d == 3 {
        '3'
    } else if d == 4 {
        '4'
    } else if d == 5 {
        '5'
    } else if d == 6 {
        '6'
    } else if d == 7 {
        '7'
    } else if d == 8 {
        '8'
    } else {
        '9'
    }
}

/// The decimal rendering of `n`, most significant digit first, without
/// leading zeroes (`0` alone for zero).
pub open spec fn spec_u64_string(n: int) -> Seq<char>
    decreases n,
{
    if n < 10 {
        seq![spec_digit_char(n)]
    } else {
        spec_u64_string(n / 10) + seq![spec_digit_char(n % 10)]
    }
}

/// One decimal digit as a string slice.
fn digit_str(d: u64) -> (r: &'static str)
    requires
        d < 10,
    ensures
        r@ == seq![spec_digit_char(d as int)],
{
    let s: &'static str = if d == 0 {
        "0"
    } else if d == 1 {
        "1"
    } else if d == 2 {
        "2"
    } else if d == 3 {
        "3"
    } else if d == 4 {
        "4"
    } else if d == 5 {
        "5"
    } else if d == 6 {
        "6"
    } else if d == 7 {
        "7"
    } else if d == 8 {
        "8"
    } else {
        "9"
    };
    proof {
        reveal_strlit("0");
        reveal_strlit("1");
        reveal_strlit("2");
        reveal_strlit("3");
        reveal_strlit("4");
        reveal_strlit("5");
        reveal_strlit("6");
        reveal_strlit("7");
        reveal_strlit("8");
        reveal_strlit("9");
        assert(s@ =~= seq![spec_digit_char(d as int)]);
    }
    s
}

/// Renders `n` in decimal.
pub fn u64_to_string(n: u64) -> (r: String)
    ensures
        r@ == spec_u64_string(n as int),
    decreases n,
{
    if n < 10 {
        digit_str(n).to_owned()
    } else {
        let mut s = u64_to_string(n / 10);
        s.append(digit_str(n % 10));
        s
    }
}

/// Appends a copy of every string of `src` to `dst`, in order.
pub fn push_all(dst: &mut Vec<String>, src: &Vec<String>)
    ensures
        final(dst).deep_view() == old(dst).deep_view() + src.deep_view(),
{
    let ghost base = dst.deep_view();
    let ghost add = src.deep_view();
    let mut i: usize = 0;
    proof {
        assert(dst.deep_view() =~= base + add.take(0));
    }
    while i < src.len()
        invariant
            add == src.deep_view(),
            add.len() == src.len(),
            i <= src.len(),
            dst.deep_view() == base + add.take(i as int),
        decreases src.len() - i,
    {
        let ghost pre = dst.deep_view();
        dst.push(src[i].clone());
        proof {
            assert(dst.deep_view() =~= pre.push(add[i as int]));
            assert(pre.push(add[i as int]) =~= base + add.take(i + 1 as int));
        }
        i = i + 1;
    }
    proof {
        assert(add.take(src.len() as int) =~= add);
    }
}

/// Appends one literal to a token list.
pub fn push_lit(dst: &mut Vec<String>, s: &str)
    ensures
        final(dst).deep_view() == old(dst).deep_view() + seq![s@],
{
    let ghost base = dst.deep_view();
    dst.push(s.to_owned());
    proof {
        assert(dst.deep_view() =~= base.push(s@));
        assert(base.push(s@) =~= base + seq![s@]);
    }
}

/// The characters Rust's `char::is_whitespace` accepts.
pub open spec fn is_ws_char(c: char) -> bool {
    let u = c as u32;
    u == 0x9 || u == 0xA || u == 0xB || u == 0xC || u == 0xD || u == 0x20 || u == 0x85 || u == 0xA0
        || u == 0x1680 || (0x2000 <= u && u <= 0x200A) || u == 0x2028 || u == 0x2029 || u == 0x202F
        || u == 0x205F || u == 0x3000
}

/// Unicode white space, as `char::is_whitespace` decides it.
pub fn is_ws(c: char) -> (r: bool)
    ensures
        r == is_ws_char(c),
{
    let u = c as u32;
    u == 0x9 || u == 0xA || u == 0xB || u == 0xC || u == 0xD || u == 0x20 || u == 0x85 || u == 0xA0
        || u == 0x1680 || (0x2000 <= u && u <= 0x200A) || u == 0x2028 || u == 0x2029 || u == 0x202F
        || u == 0x205F || u == 0x3000
}

/// `s` cut at every white-space character, empty pieces kept.
pub open spec fn spec_split_ws_raw(s: Seq<char>) -> Seq<Seq<char>>
    decreases s.len(),
{
    if s.len() == 0 {
        seq![Seq::<char>::empty()]
    } else if is_ws_char(s[0]) {
        seq![Seq::<char>::empty()] + spec_split_ws_raw(s.drop_first())
    } else {
        let rest = spec_split_ws_raw(s.drop_first());
        seq![seq![s[0]] + rest[0]] + rest.drop_first()
    }
}

pub proof fn lemma_split_ws_raw_nonempty(s: Seq<char>)
    ensures
        spec_split_ws_raw(s).len() >= 1,
    decreases s.len(),
{
    if s.len() != 0 {
        lemma_split_ws_raw_nonempty(s.drop_first());
    }
}

/// A string without white space is a single piece.
pub proof fn lemma_split_ws_raw_whole(s: Seq<char>)
    requires
        forall|j: int| 0 <= j < s.len() ==> !is_ws_char(s[j]),
    ensures
        spec_split_ws_raw(s) == seq![s],
    decreases s.len(),
{
    if s.len() == 0 {
        assert(s =~= Seq::<char>::empty());
        assert(seq![Seq::<char>::empty()] =~= seq![s]);
    } else {
        assert(forall|j: int| 0 <= j < s.drop_first().len() ==> s.drop_first()[j] == s[j + 1]);
        lemma_split_ws_raw_whole(s.drop_first());
        let rest = spec_split_ws_raw(s.drop_first());
        assert(rest == seq![s.drop_first()]);
        assert(seq![s[0]] + rest[0] =~= s);
        assert(rest.drop_first() =~= Seq::<Seq<char>>::empty());
        assert(seq![seq![s[0]] + rest[0]] + rest.drop_first() =~= seq![s]);
    }
}

/// Splitting at the first white-space character.
pub proof fn lemma_split_ws_raw_at_first(s: Seq<char>, i: int)
    requires
        0 <= i < s.len(),
        is_ws_char(s[i]),
        forall|j: int| 0 <= j < i ==> !is_ws_char(s[j]),
    ensures
        spec_split_ws_raw(s) == seq![s.take(i)] + spec_split_ws_raw(s.skip(i + 1)),
    decreases i,
{
    if i == 0 {
        assert(s.take(0) =~= Seq::<char>::empty());
        assert(s.skip(1) =~= s.drop_first());
        assert(seq![Seq::<char>::empty()] + spec_split_ws_raw(s.drop_first()) == seq![s.take(0)]
            + spec_split_ws_raw(s.skip(1)));
    } else {
        let t = s.drop_first();
        assert(t[i - 1] == s[i]);
        assert(forall|j: int| 0 <= j < i - 1 ==> t[j] == s[j + 1] && !is_ws_char(t[j]));
        lemma_split_ws_raw_at_first(t, i - 1);
        let rest = spec_split_ws_raw(t);
        let after = spec_split_ws_raw(t.skip(i));
        assert(rest == seq![t.take(i - 1)] + after);
        lemma_split_ws_raw_nonempty(t.skip(i));
        assert(rest[0] == t.take(i - 1));
        assert(rest.drop_first() =~= after);
        assert(seq![s[0]] + t.take(i - 1) =~= s.take(i));
        assert(t.skip(i) =~= s.skip(i + 1));
        assert(seq![seq![s[0]] + rest[0]] + rest.drop_first() =~= seq![s.take(i)]
            + spec_split_ws_raw(s.skip(i + 1)));
    }
}

/// The maximal white-space-free runs of `s`, in order: cutting at every
/// white-space character and dropping the empty pieces.
pub open spec fn spec_split_ws(s: Seq<char>) -> Seq<Seq<char>> {
    spec_split_ws_raw(s).filter(|t: Seq<char>| t.len() != 0)
}

/// Splits `s` on runs of white space, as `str::split_whitespace` does.
pub fn split_ws(s: &str) -> (r: Vec<String>)
    ensures
        r.deep_view() == spec_split_ws(s@),
{
    let ghost keep = |t: Seq<char>| t.len() != 0;
    let n = s.unicode_len();
    let mut out: Vec<String> = Vec::new();
    let ghost raw = Seq::<Seq<char>>::empty();
    let mut start: usize = 0;
    let mut i: usize = 0;
    proof {
        reveal(Seq::filter);
        assert(s@.skip(0) =~= s@);
        assert(raw + spec_split_ws_raw(s@) =~= spec_split_ws_raw(s@));
        assert(out.deep_view() =~= Seq::<Seq<char>>::empty());
        assert(Seq::<Seq<char>>::empty().filter(keep) =~= Seq::<Seq<char>>::empty());
    }
    while i < n
        invariant
            n == s@.len(),
            start <= i <= n,
            keep == (|t: Seq<char>| t.len() != 0),
            forall|j: int| start <= j < i ==> !is_ws_char(s@[j]),
            spec_split_ws_raw(s@) == raw + spec_split_ws_raw(s@.skip(start as int)),
            out.deep_view() == raw.filter(keep),
        decreases n - i,
    {
        let c = s.get_char(i);
        if is_ws(c) {
            let ghost pre = out.deep_view();
            let tok = s.substring_char(start, i).to_owned();
            proof {
                let tail = s@.skip(start as int);
                assert(tail[i - start] == s@[i as int]);
                assert(forall|j: int| 0 <= j < i - start ==> tail[j] == s@[j + start]
                    && !is_ws_char(tail[j]));
                lemma_split_ws_raw_at_first(tail, i - start);
                assert(tail.take(i - start) =~= s@.subrange(start as int, i as int));
                assert(tail.skip(i - start + 1) =~= s@.skip(i as int + 1));
                assert(raw + (seq![tok@] + spec_split_ws_raw(s@.skip(i as int + 1))) =~= raw.push(
                    tok@,
                ) + spec_split_ws_raw(s@.skip(i as int + 1)));
                reveal(Seq::filter);
                assert(raw.push(tok@).drop_last() =~= raw);
                assert(raw.push(tok@).last() == tok@);
            }
            if !tok.as_str().is_empty() {
                out.push(tok);
                proof {
                    assert(out.deep_view() =~= pre.push(tok@));
                }
            }
            proof {
                raw = raw.push(tok@);
            }
            start = i + 1;
        }
        i = i + 1;
    }
    let ghost pre = out.deep_view();
    let tok = s.substring_char(start, n).to_owned();
    proof {
        let tail = s@.skip(start as int);
        lemma_split_ws_raw_whole(tail);
        assert(tok@ =~= tail);
        assert(raw + spec_split_ws_raw(tail) =~= raw.push(tok@));
        reveal(Seq::filter);
        assert(raw.push(tok@).drop_last() =~= raw);
        assert(raw.push(tok@).last() == tok@);
    }
    if !tok.as_str().is_empty() {
        out.push(tok);
        proof {
            assert(out.deep_view() =~= pre.push(tok@));
        }
    }
    out
}

} // verus!
