//! Character-level string helpers with exact specifications.

use vstd::prelude::*;

verus! {

/// `String::push` appends one character at the end, as std documents it.
pub assume_specification[ String::push ](s: &mut String, ch: char)
    ensures
        final(s)@ == old(s)@.push(ch),
;

/// `needle` stands in `haystack` starting at character position `i`.
pub open spec fn occurs_at(haystack: Seq<char>, needle: Seq<char>, i: int) -> bool {
    &&& 0 <= i
    &&& i + needle.len() <= haystack.len()
    &&& haystack.subrange(i, i + needle.len()) == needle
}

/// `prefix` is a prefix of `s`.
pub open spec fn is_prefix(prefix: Seq<char>, s: Seq<char>) -> bool {
    occurs_at(s, prefix, 0)
}

/// The first position, at `from` or later, at which `needle` occurs in
/// `haystack`, if any.
pub open spec fn first_occurrence_from(haystack: Seq<char>, needle: Seq<char>, from: int) -> Option<int>
    decreases haystack.len() + 1 - from,
{
    if from < 0 || from + needle.len() > haystack.len() {
        None
    } else if occurs_at(haystack, needle, from) {
        Some(from)
    } else {
        first_occurrence_from(haystack, needle, from + 1)
    }
}

/// The first position at which `needle` occurs in `haystack`, if any.
pub open spec fn first_occurrence(haystack: Seq<char>, needle: Seq<char>) -> Option<int> {
    first_occurrence_from(haystack, needle, 0)
}

/// The characters of `s`, in order.
pub fn chars_of(s: &str) -> (res: Vec<char>)
    ensures
        res@ == s@,
{
    let mut res: Vec<char> = Vec::new();
    for c in it: s.chars()
        invariant
            res@ == it.seq().take(it.index() as int),
            it.seq() == s@,
    {
        res.push(c);
    }
    res
}

/// Whether `needle` occurs in `haystack` at position `i`.
fn matches_at(haystack: &Vec<char>, needle: &Vec<char>, i: usize) -> (res: bool)
    requires
        i + needle@.len() <= haystack@.len(),
    ensures
        res == occurs_at(haystack@, needle@, i as int),
{
    let hl = haystack.len();
    let mut k: usize = 0;
    while k < needle.len()
        invariant
            k <= needle@.len(),
            hl == haystack@.len(),
            i + needle@.len() <= hl,
            forall|t: int| 0 <= t < k ==> haystack@[i + t] == needle@[t],
        decreases needle@.len() - k,
    {
        if haystack[i + k] != needle[k] {
            assert(haystack@.subrange(i as int, i + needle@.len())[k as int] != needle@[k as int]);
            return false;
        }
        k = k + 1;
    }
    assert(haystack@.subrange(i as int, i + needle@.len()) =~= needle@);
    true
}

/// Position, counted in characters, of the first occurrence of `needle` in
/// `haystack`; an empty needle occurs at position 0.
pub fn find(haystack: &str, needle: &str) -> (res: Option<usize>)
    ensures
        match res {
            Some(i) => first_occurrence(haystack@, needle@) == Some(i as int),
            None => first_occurrence(haystack@, needle@) is None,
        },
        match res {
            Some(i) => occurs_at(haystack@, needle@, i as int) && forall|j: int|
                0 <= j < i ==> !occurs_at(haystack@, needle@, j),
            None => forall|j: int| !occurs_at(haystack@, needle@, j),
        },
{
    let h = chars_of(haystack);
    let n = chars_of(needle);
    if n.len() > h.len() {
        return None;
    }
    let last = h.len() - n.len();
    let mut i: usize = 0;
    loop
        invariant
            i <= last,
            last == h@.len() - n@.len(),
            h@ == haystack@,
            n@ == needle@,
            forall|j: int| 0 <= j < i ==> !occurs_at(haystack@, needle@, j),
            first_occurrence(haystack@, needle@) == first_occurrence_from(haystack@, needle@, i as int),
        decreases last - i,
    {
        if matches_at(&h, &n, i) {
            return Some(i);
        }
        if i == last {
            assert(first_occurrence_from(haystack@, needle@, i + 1) is None);
            return None;
        }
        i = i + 1;
    }
}

/// `find` of a needle gives position 0 exactly when the needle is a prefix.
pub proof fn lemma_find_zero_iff_prefix(haystack: Seq<char>, needle: Seq<char>)
    ensures
        first_occurrence(haystack, needle) == Some(0int) <==> is_prefix(needle, haystack),
{
    lemma_first_occurrence_from_at_least(haystack, needle, 1);
}

/// A search that starts at `from` finds nothing before `from`.
proof fn lemma_first_occurrence_from_at_least(haystack: Seq<char>, needle: Seq<char>, from: int)
    ensures
        first_occurrence_from(haystack, needle, from) matches Some(k) ==> from <= k,
    decreases haystack.len() + 1 - from,
{
    if from < 0 || from + needle.len() > haystack.len() {
    } else if occurs_at(haystack, needle, from) {
    } else {
        lemma_first_occurrence_from_at_least(haystack, needle, from + 1);
    }
}

/// Appends `cs` to `s`.
pub fn push_chars(s: &mut String, cs: &Vec<char>)
    ensures
        final(s)@ == old(s)@ + cs@,
{
    let mut i: usize = 0;
    while i < cs.len()
        invariant
            i <= cs@.len(),
            s@ == old(s)@ + cs@.take(i as int),
        decreases cs@.len() - i,
    {
        s.push(cs[i]);
        assert(cs@.take(i + 1) =~= cs@.take(i as int).push(cs@[i as int]));
        i = i + 1;
    }
    assert(cs@.take(cs@.len() as int) =~= cs@);
}

/// The decimal digit character for `d < 10`.
pub open spec fn digit_char(d: nat) -> char {
    ((48 + d) as u8) as char
}

/// Decimal representation of `n`, without sign or leading zeros.
pub open spec fn decimal(n: nat) -> Seq<char>
    decreases n,
{
    if n < 10 {
        seq![digit_char(n)]
    } else {
        decimal(n / 10).push(digit_char(n % 10))
    }
}

fn digit_of(d: u128) -> (c: char)
    requires
        d < 10,
    ensures
        c == digit_char(d as nat),
{
    let v: u8 = 48 + d as u8;
    v as char
}

/// Decimal text of `n`.
pub fn u128_to_decimal(n: u128) -> (res: String)
    ensures
        res@ == decimal(n as nat),
{
    let mut digits: Vec<char> = Vec::new();
    let mut m: u128 = n;
    while m >= 10
        invariant
            decimal(n as nat) == decimal(m as nat) + digits@,
        decreases m,
    {
        let d = digit_of(m % 10);
        let ghost before = digits@;
        proof {
            assert(decimal(m as nat) == decimal((m / 10) as nat).push(digit_char((m % 10) as nat)));
            assert(decimal((m / 10) as nat) + seq![d] + digits@ =~= decimal((m / 10) as nat) + (seq![d] + digits@));
        }
        digits.insert(0, d);
        assert(digits@ =~= seq![d] + before);
        m = m / 10;
    }
    let first = digit_of(m);
    let mut res = String::new();
    res.push(first);
    push_chars(&mut res, &digits);
    res
}

/// Decimal text of `n`.
pub fn u64_to_decimal(n: u64) -> (res: String)
    ensures
        res@ == decimal(n as nat),
{
    u128_to_decimal(n as u128)
}

} // verus!

verus! {

/// Whether two strings hold the same characters.
pub fn same_text(a: &str, b: &str) -> (res: bool)
    ensures
        res == (a@ == b@),
{
    let x = chars_of(a);
    let y = chars_of(b);
    if x.len() != y.len() {
        return false;
    }
    let mut i: usize = 0;
    while i < x.len()
        invariant
            i <= x@.len(),
            x@.len() == y@.len(),
            x@ == a@,
            y@ == b@,
            forall|j: int| 0 <= j < i ==> x@[j] == y@[j],
        decreases x@.len() - i,
    {
        if x[i] != y[i] {
            return false;
        }
        i = i + 1;
    }
    assert(x@ =~= y@);
    true
}

} // verus!

verus! {

/// The number that a string of decimal digits denotes.
pub open spec fn digits_value(s: Seq<char>) -> int
    decreases s.len(),
{
    if s.len() == 0 {
        0
    } else {
        digits_value(s.drop_last()) * 10 + (s.last() as int - 48)
    }
}

proof fn lemma_digit_char_value(d: nat)
    requires
        d < 10,
    ensures
        digit_char(d) as int == 48 + d,
{
    let b = (48 + d) as u8;
    assert(b as int == 48 + d);
    assert((b as char) as int == b as int);
}

/// The decimal text of `n` is made of digits only, starts with a nonzero
/// digit unless `n` is zero, and denotes `n`.
pub proof fn lemma_decimal_denotes(n: nat)
    ensures
        digits_value(decimal(n)) == n,
        decimal(n).len() > 0,
        forall|i: int| 0 <= i < decimal(n).len() ==> '0' <= #[trigger] decimal(n)[i] <= '9',
        decimal(n)[0] == '0' ==> n == 0,
    decreases n,
{
    if n < 10 {
        assert(decimal(n) == seq![digit_char(n)]);
        assert(decimal(n).drop_last() =~= Seq::<char>::empty());
        lemma_digit_char_value(n);
        assert(digits_value(decimal(n)) == digits_value(Seq::<char>::empty()) * 10 + (digit_char(n) as int - 48));
    } else {
        lemma_decimal_denotes(n / 10);
        let d = (n % 10) as nat;
        lemma_digit_char_value(d);
        assert(decimal(n).drop_last() =~= decimal(n / 10));
        assert(decimal(n).last() == digit_char(d));
        assert(digits_value(decimal(n)) == digits_value(decimal(n / 10)) * 10 + (digit_char(d) as int - 48));
        assert((n / 10) * 10 + d == n);
        assert(decimal(n)[0] == decimal(n / 10)[0]);
        assert forall|i: int| 0 <= i < decimal(n).len() implies '0' <= #[trigger] decimal(n)[i] <= '9' by {
            if i < decimal(n / 10).len() {
                assert(decimal(n)[i] == decimal(n / 10)[i]);
            }
        }
    }
}

} // verus!

verus! {

/// `suffix` is a suffix of `s`.
pub open spec fn is_suffix(suffix: Seq<char>, s: Seq<char>) -> bool {
    suffix.len() <= s.len() && s.subrange(s.len() - suffix.len(), s.len() as int) == suffix
}

/// Whether `prefix` is a prefix of `s`.
pub fn starts_with(s: &str, prefix: &str) -> (res: bool)
    ensures
        res == is_prefix(prefix@, s@),
{
    let idx = find(s, prefix);
    proof {
        lemma_find_zero_iff_prefix(s@, prefix@);
    }
    match idx {
        Some(i) => i == 0,
        None => false,
    }
}

/// Whether `suffix` is a suffix of `s`.
pub fn ends_with(s: &str, suffix: &str) -> (res: bool)
    ensures
        res == is_suffix(suffix@, s@),
{
    let x = chars_of(s);
    let y = chars_of(suffix);
    if y.len() > x.len() {
        return false;
    }
    let xl = x.len();
    let start = xl - y.len();
    let mut i: usize = 0;
    while i < y.len()
        invariant
            i <= y@.len(),
            xl == x@.len(),
            start + y@.len() == xl,
            x@ == s@,
            y@ == suffix@,
            forall|j: int| 0 <= j < i ==> x@[start + j] == y@[j],
        decreases y@.len() - i,
    {
        if x[start + i] != y[i] {
            assert(x@.subrange(start as int, x@.len() as int)[i as int] != y@[i as int]);
            return false;
        }
        i = i + 1;
    }
    assert(x@.subrange(start as int, x@.len() as int) =~= y@);
    true
}

} // verus!
