//! Text helpers shared by the other modules: characters of a string slice,
//! comparison against a word, and decimal rendering of identifiers.

use vstd::prelude::*;
use vstd::string::*;

verus! {

/// The characters of `s`, in order.
pub fn chars_of(s: &str) -> (v: Vec<char>)
    ensures
        v@ == s@,
{
    let mut v: Vec<char> = Vec::new();
    for c in it: s.chars()
        invariant
            v@ == it.seq().take(it.index() as int),
            it.seq() == s@,
    {
        v.push(c);
    }
    v
}

/// Whether the characters of `chars` from `from` up to `to` spell `word`.
pub fn spells(chars: &Vec<char>, from: usize, to: usize, word: &str) -> (r: bool)
    requires
        from <= to <= chars@.len(),
    ensures
        r == (chars@.subrange(from as int, to as int) == word@),
{
    let letters = chars_of(word);
    letters.len() == to - from && stands_at(chars, &letters, from)
}

/// Whether two string slices hold the same characters.
pub fn same_text(a: &str, b: &str) -> (r: bool)
    ensures
        r == (a@ == b@),
{
    let left = chars_of(a);
    assert(left@.subrange(0, left@.len() as int) =~= left@);
    spells(&left, 0, left.len(), b)
}

/// The decimal digit that stands for `d`, for `d` below ten.
pub open spec fn digit(d: nat) -> char {
    if d == 0 {
        '0'
    } else if d == 1 {
        '1'
    } else if d == 2 {
        '2'
    } else if d == 3 {
        '3'
    } else if d == 4 {
        '4'
    } else if d == 5 {
        '5'
    } else if d == 6 {
        '6'
    } else if d == 7 {
        '7'
    } else if d == 8 {
        '8'
    } else {
        '9'
    }
}

/// `n` written in base ten, most significant digit first, without leading
/// zeros.
pub open spec fn decimal(n: nat) -> Seq<char>
    decreases n,
{
    if n < 10 {
        seq![digit(n)]
    } else {
        decimal(n / 10).push(digit(n % 10))
    }
}

/// The one-character string of a decimal digit.
fn digit_text(d: u64) -> (s: &'static str)
    requires
        d < 10,
    ensures
        s@ == seq![digit(d as nat)],
{
    proof {
        reveal_strlit("0");
        reveal_strlit("1");
        reveal_strlit("2");
        reveal_strlit("3");
        reveal_strlit("4");
        reveal_strlit("5");
        reveal_strlit("6");
        reveal_strlit("7");
        reveal_strlit("8");
        reveal_strlit("9");
    }
    let s = if d == 0 {
        "0"
    } else if d == 1 {
        "1"
    } else if d == 2 {
        "2"
    } else if d == 3 {
        "3"
    } else if d == 4 {
        "4"
    } else if d == 5 {
        "5"
    } else if d == 6 {
        "6"
    } else if d == 7 {
        "7"
    } else if d == 8 {
        "8"
    } else {
        "9"
    };
    assert(s@ =~= seq![digit(d as nat)]);
    s
}

/// Renders `n` in base ten.
pub fn to_decimal(n: u64) -> (s: String)
    ensures
        s@ == decimal(n as nat),
    decreases n,
{
    if n < 10 {
        String::from_str(digit_text(n))
    } else {
        let mut s = to_decimal(n / 10);
        s.append(digit_text(n % 10));
        assert(s@ =~= decimal((n / 10) as nat).push(digit((n % 10) as nat)));
        s
    }
}

/// A decimal rendering is never empty, and has two digits or more from ten
/// on.
pub proof fn lemma_decimal_len(n: nat)
    ensures
        decimal(n).len() >= 1,
        n >= 10 ==> decimal(n).len() >= 2,
    decreases n,
{
    if n >= 10 {
        lemma_decimal_len(n / 10);
    }
}

/// Two numbers with the same decimal rendering are the same number.
pub proof fn lemma_decimal_injective(a: nat, b: nat)
    requires
        decimal(a) == decimal(b),
    ensures
        a == b,
    decreases a,
{
    lemma_decimal_len(a);
    lemma_decimal_len(b);
    if a < 10 || b < 10 {
        assert(a < 10 && b < 10);
        assert(decimal(a)[0] == digit(a));
        assert(decimal(b)[0] == digit(b));
    } else {
        let x = decimal(a / 10);
        let y = decimal(b / 10);
        assert(decimal(a).drop_last() =~= x);
        assert(decimal(b).drop_last() =~= y);
        assert(decimal(a).last() == digit(a % 10));
        assert(decimal(b).last() == digit(b % 10));
        lemma_decimal_injective(a / 10, b / 10);
    }
}

/// The least position from `from` on at which `sep` stands in `s`, or the
/// length of `s` where it stands nowhere from there on.
pub open spec fn find_from(s: Seq<char>, sep: Seq<char>, from: int) -> int
    decreases s.len() - from,
{
    if from < 0 || from >= s.len() || from + sep.len() > s.len() {
        s.len() as int
    } else if s.subrange(from, from + sep.len()) == sep {
        from
    } else {
        find_from(s, sep, from + 1)
    }
}

/// The pieces of `s` from `from` on that the separator `sep` parts, in
/// their order. Separators are taken from the left and do not overlap. A
/// separator at the very end leaves an empty last piece.
pub open spec fn split_from(s: Seq<char>, sep: Seq<char>, from: int) -> Seq<Seq<char>>
    decreases s.len() - from,
{
    let at = find_from(s, sep, from);
    if 0 <= from <= at && at < s.len() && 0 < sep.len() && at + sep.len() <= s.len() {
        seq![s.subrange(from, at)] + split_from(s, sep, at + sep.len())
    } else {
        seq![s.subrange(from, s.len() as int)]
    }
}

/// The pieces of `s` that the separator `sep` parts.
pub open spec fn split(s: Seq<char>, sep: Seq<char>) -> Seq<Seq<char>> {
    split_from(s, sep, 0)
}

/// The texts that `ranges` cut out of `s`.
pub open spec fn pieces(s: Seq<char>, ranges: Seq<(usize, usize)>) -> Seq<Seq<char>> {
    Seq::new(ranges.len(), |k: int| s.subrange(ranges[k].0 as int, ranges[k].1 as int))
}

/// Where a search from `from` ends: not before `from`, not after the end,
/// and, short of the end, on an occurrence.
pub proof fn lemma_find_from(s: Seq<char>, sep: Seq<char>, from: int)
    requires
        0 <= from <= s.len(),
    ensures
        from <= find_from(s, sep, from) <= s.len(),
        find_from(s, sep, from) < s.len() ==> find_from(s, sep, from) + sep.len() <= s.len()
            && s.subrange(find_from(s, sep, from), find_from(s, sep, from) + sep.len()) == sep,
    decreases s.len() - from,
{
    if from < s.len() && from + sep.len() <= s.len() && s.subrange(from, from + sep.len())
        != sep {
        lemma_find_from(s, sep, from + 1);
    }
}

/// Whether `word` stands in `chars` at position `at`.
pub fn stands_at(chars: &Vec<char>, word: &Vec<char>, at: usize) -> (r: bool)
    requires
        at + word@.len() <= chars@.len(),
    ensures
        r == (chars@.subrange(at as int, at + word@.len()) == word@),
{
    let ghost piece = chars@.subrange(at as int, at + word@.len());
    let mut i: usize = 0;
    while i < word.len()
        invariant
            at + word.len() <= chars.len(),
            piece == chars@.subrange(at as int, at + word@.len()),
            i <= word@.len(),
            forall|k: int| 0 <= k < i ==> piece[k] == word@[k],
        decreases word@.len() - i,
    {
        if chars[at + i] != word[i] {
            assert(piece[i as int] != word@[i as int]);
            return false;
        }
        i += 1;
    }
    assert(piece =~= word@);
    true
}

/// The least position from `from` on at which `sep` stands in `chars`, or
/// the length of `chars`.
pub fn find(chars: &Vec<char>, sep: &Vec<char>, from: usize) -> (at: usize)
    requires
        from <= chars@.len(),
    ensures
        at == find_from(chars@, sep@, from as int),
        from <= at <= chars@.len(),
{
    let mut i: usize = from;
    while sep.len() <= chars.len() - i
        invariant
            from <= i <= chars@.len(),
            find_from(chars@, sep@, from as int) == find_from(chars@, sep@, i as int),
        decreases chars@.len() - i,
    {
        if stands_at(chars, sep, i) {
            return i;
        }
        if i == chars.len() {
            return i;
        }
        i += 1;
    }
    chars.len()
}

/// The ranges of the pieces of `chars` that the separator `sep` parts.
pub fn split_ranges(chars: &Vec<char>, sep: &Vec<char>) -> (ranges: Vec<(usize, usize)>)
    requires
        sep@.len() > 0,
    ensures
        pieces(chars@, ranges@) == split(chars@, sep@),
        forall|k: int|
            0 <= k < ranges@.len() ==> (#[trigger] ranges@[k]).0 <= ranges@[k].1 <= chars@.len(),
{
    let mut ranges: Vec<(usize, usize)> = Vec::new();
    let mut from: usize = 0;
    loop
        invariant_except_break
            split(chars@, sep@) == pieces(chars@, ranges@) + split_from(chars@, sep@, from as int),
        invariant
            sep@.len() > 0,
            from <= chars@.len(),
            forall|k: int|
                0 <= k < ranges@.len() ==> (#[trigger] ranges@[k]).0 <= ranges@[k].1
                    <= chars@.len(),
        ensures
            pieces(chars@, ranges@) == split(chars@, sep@),
            forall|k: int|
                0 <= k < ranges@.len() ==> (#[trigger] ranges@[k]).0 <= ranges@[k].1
                    <= chars@.len(),
        decreases chars@.len() - from,
    {
        let at = find(chars, sep, from);
        proof {
            lemma_find_from(chars@, sep@, from as int);
        }
        let ghost before = pieces(chars@, ranges@);
        if at < chars.len() {
            ranges.push((from, at));
            assert(pieces(chars@, ranges@) =~= before + seq![
                chars@.subrange(from as int, at as int),
            ]);
            assert(split(chars@, sep@) =~= pieces(chars@, ranges@) + split_from(
                chars@,
                sep@,
                at + sep@.len(),
            ));
            from = at + sep.len();
        } else {
            ranges.push((from, chars.len()));
            assert(pieces(chars@, ranges@) =~= before + seq![
                chars@.subrange(from as int, chars@.len() as int),
            ]);
            break ;
        }
    }
    ranges
}

/// The position of the first `c` in `chars` from `from` up to `to`, or `to`
/// where there is none.
pub fn find_char(chars: &Vec<char>, c: char, from: usize, to: usize) -> (at: usize)
    requires
        from <= to <= chars@.len(),
    ensures
        from <= at <= to,
        forall|j: int| from <= j < at ==> chars@[j] != c,
        at < to ==> chars@[at as int] == c,
{
    let mut i: usize = from;
    while i < to
        invariant
            from <= i <= to <= chars@.len(),
            forall|j: int| from <= j < i ==> chars@[j] != c,
        decreases to - i,
    {
        if chars[i] == c {
            return i;
        }
        i += 1;
    }
    to
}

/// A search for one character ends on its first occurrence.
pub proof fn lemma_find_first(s: Seq<char>, c: char, from: int, at: int)
    requires
        0 <= from <= at <= s.len(),
        forall|j: int| from <= j < at ==> s[j] != c,
        at < s.len() ==> s[at] == c,
    ensures
        find_from(s, seq![c], from) == at,
    decreases at - from,
{
    if from < at {
        assert(s.subrange(from, from + 1)[0] == s[from]);
        lemma_find_first(s, c, from + 1, at);
    } else if at < s.len() {
        assert(s.subrange(at, at + 1) =~= seq![c]);
    }
}

} // verus!
