use vstd::prelude::*;

verus! {

/// The pieces of `parts` with `sep` between each two neighbours.
pub open spec fn join_seqs(parts: Seq<Seq<char>>, sep: Seq<char>) -> Seq<char>
    decreases parts.len(),
{
    if parts.len() == 0 {
        Seq::empty()
    } else if parts.len() == 1 {
        parts[0]
    } else {
        join_seqs(parts.drop_last(), sep) + sep + parts.last()
    }
}

/// The character views of a sequence of strings.
pub open spec fn string_views(v: Seq<String>) -> Seq<Seq<char>> {
    v.map_values(|s: String| s@)
}

/// Joins `parts` with `sep` between each two neighbours.
pub fn join_strings(parts: &Vec<String>, sep: &str) -> (res: String)
    ensures
        res@ == join_seqs(string_views(parts@), sep@),
{
    let mut res = String::new();
    let ghost views = string_views(parts@);
    let n = parts.len();
    let mut i: usize = 0;
    while i < n
        invariant
            n == parts@.len(),
            views == string_views(parts@),
            i <= n,
            res@ == join_seqs(views.take(i as int), sep@),
        decreases n - i,
    {
        assert(views.take(i + 1).drop_last() =~= views.take(i as int));
        if i != 0 {
            res.append(sep);
        }
        res.append(parts[i].as_str());
        i = i + 1;
    }
    assert(views.take(n as int) =~= views);
    res
}

} // verus!

verus! {

/// The character of a decimal digit.
pub open spec fn digit_char(d: int) -> char
    recommends
        0 <= d < 10,
{
    if d == 0 { '0' } else if d == 1 { '1' } else if d == 2 { '2' } else if d == 3 { '3' }
    else if d == 4 { '4' } else if d == 5 { '5' } else if d == 6 { '6' } else if d == 7 { '7' }
    else if d == 8 { '8' } else { '9' }
}

/// The decimal digits of a natural number, most significant first, with no leading zero.
pub open spec fn nat_decimal(n: nat) -> Seq<char>
    decreases n,
{
    if n < 10 {
        seq![digit_char(n as int)]
    } else {
        nat_decimal(n / 10).push(digit_char((n % 10) as int))
    }
}

/// The decimal form of an integer, with a leading `-` when it is negative.
pub open spec fn int_decimal(n: int) -> Seq<char> {
    if n < 0 {
        seq!['-'] + nat_decimal((-n) as nat)
    } else {
        nat_decimal(n as nat)
    }
}

fn digit_str(d: u64) -> (res: &'static str)
    requires
        d < 10,
    ensures
        res@ == seq![digit_char(d as int)],
{
    proof {
        reveal_strlit("0");
        reveal_strlit("1");
        reveal_strlit("2");
        reveal_strlit("3");
        reveal_strlit("4");
        reveal_strlit("5");
        reveal_strlit("6");
        reveal_strlit("7");
        reveal_strlit("8");
        reveal_strlit("9");
    }
    if d == 0 { "0" } else if d == 1 { "1" } else if d == 2 { "2" } else if d == 3 { "3" }
    else if d == 4 { "4" } else if d == 5 { "5" } else if d == 6 { "6" } else if d == 7 { "7" }
    else if d == 8 { "8" } else { "9" }
}

fn u64_decimal(n: u64) -> (res: String)
    ensures
        res@ == nat_decimal(n as nat),
    decreases n,
{
    if n < 10 {
        let mut s = String::new();
        s.append(digit_str(n));
        s
    } else {
        let mut s = u64_decimal(n / 10);
        s.append(digit_str(n % 10));
        s
    }
}

/// The decimal form of `n`, as `i32::to_string` writes it.
pub fn i32_decimal(n: i32) -> (res: String)
    ensures
        res@ == int_decimal(n as int),
{
    if n < 0 {
        let m: i64 = -(n as i64);
        let mut s = String::new();
        proof { reveal_strlit("-"); }
        s.append("-");
        s.append(u64_decimal(m as u64).as_str());
        s
    } else {
        u64_decimal(n as u64)
    }
}

} // verus!

verus! {

/// `s` with every occurrence of `from` replaced by `to`, taking occurrences
/// from the left without overlap; an empty `from` matches before every
/// character and at the end, as `str::replace` does.
pub open spec fn replace_seq(s: Seq<char>, from: Seq<char>, to: Seq<char>) -> Seq<char>
    decreases s.len(),
{
    if from.len() == 0 {
        if s.len() == 0 {
            to
        } else {
            to + seq![s[0]] + replace_seq(s.drop_first(), from, to)
        }
    } else if s.len() == 0 {
        Seq::empty()
    } else if from.len() <= s.len() && s.take(from.len() as int) == from {
        to + replace_seq(s.skip(from.len() as int), from, to)
    } else {
        seq![s[0]] + replace_seq(s.drop_first(), from, to)
    }
}

fn matches_at(text: &str, from: &str, i: usize, m: usize) -> (res: bool)
    requires
        m == from@.len(),
        i + m <= text@.len(),
        i + m <= usize::MAX,
    ensures
        res == (text@.subrange(i as int, i + m) == from@),
{
    let mut j: usize = 0;
    while j < m
        invariant
            m == from@.len(),
            i + m <= text@.len(),
            i + m <= usize::MAX,
            j <= m,
            forall|k: int| 0 <= k < j ==> text@[i + k] == from@[k],
        decreases m - j,
    {
        if text.get_char(i + j) != from.get_char(j) {
            assert(text@.subrange(i as int, i + m)[j as int] != from@[j as int]);
            return false;
        }
        j = j + 1;
    }
    assert(text@.subrange(i as int, i + m) =~= from@);
    true
}

/// `text` with every occurrence of `from` replaced by `to`, as `str::replace` gives it.
pub fn replace_all(text: &str, from: &str, to: &str) -> (res: String)
    ensures
        res@ == replace_seq(text@, from@, to@),
{
    let n = text.unicode_len();
    let m = from.unicode_len();
    let mut res = String::new();
    let mut i: usize = 0;
    assert(text@.skip(0) =~= text@);
    while i < n
        invariant
            n == text@.len(),
            m == from@.len(),
            i <= n,
            replace_seq(text@, from@, to@) == res@ + replace_seq(text@.skip(i as int), from@, to@),
        decreases n - i,
    {
        let ghost rest = text@.skip(i as int);
        if m > 0 && m <= n - i && matches_at(text, from, i, m) {
            assert(rest.take(m as int) =~= text@.subrange(i as int, i + m));
            assert(rest.skip(m as int) =~= text@.skip(i + m));
            res.append(to);
            i = i + m;
        } else {
            if m == 0 {
                res.append(to);
            }
            let c = text.substring_char(i, i + 1);
            assert(c@ =~= seq![rest[0]]);
            assert(rest.drop_first() =~= text@.skip(i + 1));
            if m > 0 && m <= n - i {
                assert(rest.take(m as int) =~= text@.subrange(i as int, i + m));
            }
            res.append(c);
            i = i + 1;
        }
    }
    assert(text@.skip(n as int) =~= Seq::<char>::empty());
    if m == 0 {
        res.append(to);
    }
    res
}

} // verus!
