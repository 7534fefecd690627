//! Small tools on text that the rest of the library shares. Text is taken as
//! its sequence of characters.

use vstd::prelude::*;
use vstd::std_specs::iter::IteratorSpec;

verus! {

/// `String::push` appends one character and changes nothing else.
pub assume_specification[ String::push ](s: &mut String, c: char)
    ensures
        final(s)@ == old(s)@.push(c),
;

/// The view of an optional text.
pub open spec fn opt_view(text: Option<&str>) -> Option<Seq<char>> {
    match text {
        Some(t) => Some(t@),
        None => None,
    }
}

/// The least index at or after `from` at which `c` stands in `s`, or the
/// length of `s` where there is none.
pub open spec fn index_from<T>(s: Seq<T>, c: T, from: int) -> int
    decreases s.len() - from,
{
    if from < 0 || from >= s.len() {
        s.len() as int
    } else if s[from] == c {
        from
    } else {
        index_from(s, c, from + 1)
    }
}

/// The index of the first `c` in `s`, if there is one.
pub open spec fn first_index<T>(s: Seq<T>, c: T) -> Option<int> {
    if index_from(s, c, 0) < s.len() {
        Some(index_from(s, c, 0))
    } else {
        None
    }
}

/// What `index_from` finds is the first occurrence at or after `from`.
pub proof fn lemma_index_from<T>(s: Seq<T>, c: T, from: int)
    requires
        0 <= from <= s.len(),
    ensures
        from <= index_from(s, c, from) <= s.len(),
        index_from(s, c, from) < s.len() ==> s[index_from(s, c, from)] == c,
        forall|j: int| from <= j < index_from(s, c, from) ==> s[j] != c,
    decreases s.len() - from,
{
    if from < s.len() && s[from] != c {
        lemma_index_from(s, c, from + 1);
    }
}

/// `first_index` is `None` exactly where `c` does not occur.
pub proof fn lemma_first_index<T>(s: Seq<T>, c: T)
    ensures
        first_index(s, c) is None <==> !s.contains(c),
        first_index(s, c) matches Some(i) ==> 0 <= i < s.len() && s[i] == c && forall|j: int|
            0 <= j < i ==> s[j] != c,
{
    lemma_index_from(s, c, 0);
    if first_index(s, c) is None {
        assert forall|j: int| 0 <= j < s.len() implies s[j] != c by {}
    } else {
        assert(s[index_from(s, c, 0)] == c);
    }
}

/// The characters of `s`, in order.
pub fn chars_of(s: &str) -> (v: Vec<char>)
    ensures
        v@ == s@,
{
    let mut v: Vec<char> = Vec::new();
    let mut it = s.chars();
    loop
        invariant
            v@ + it.remaining() == s@,
            it.decrease() is Some,
        ensures
            v@ == s@,
        decreases it.decrease()->0,
    {
        match it.next() {
            Some(c) => {
                v.push(c);
            },
            None => {
                break ;
            },
        }
    }
    v
}

/// Whether two texts hold the same characters.
pub fn same_text(a: &str, b: &str) -> (same: bool)
    ensures
        same == (a@ == b@),
{
    let x = chars_of(a);
    let y = chars_of(b);
    if x.len() != y.len() {
        return false;
    }
    let mut i: usize = 0;
    while i < x.len()
        invariant
            i <= x.len(),
            x.len() == y.len(),
            x@ == a@,
            y@ == b@,
            forall|j: int| 0 <= j < i ==> x@[j] == y@[j],
        decreases x.len() - i,
    {
        if x[i] != y[i] {
            return false;
        }
        i = i + 1;
    }
    assert(a@ =~= b@);
    true
}

/// The index, counted in characters, of the first `c` in `s`.
pub fn find_char(s: &Vec<char>, c: char) -> (found: Option<usize>)
    ensures
        found is None <==> first_index(s@, c) is None,
        found matches Some(i) ==> first_index(s@, c) == Some(i as int),
{
    let mut i: usize = 0;
    while i < s.len()
        invariant
            i <= s.len(),
            index_from(s@, c, 0) == index_from(s@, c, i as int),
        decreases s.len() - i,
    {
        if s[i] == c {
            return Some(i);
        }
        i = i + 1;
    }
    None
}

/// The index of the first byte `b` in `s`.
pub fn find_byte(s: &[u8], b: u8) -> (found: Option<usize>)
    ensures
        found is None <==> first_index(s@, b) is None,
        found matches Some(i) ==> first_index(s@, b) == Some(i as int),
{
    let mut i: usize = 0;
    while i < s.len()
        invariant
            i <= s.len(),
            index_from(s@, b, 0) == index_from(s@, b, i as int),
        decreases s.len() - i,
    {
        if s[i] == b {
            return Some(i);
        }
        i = i + 1;
    }
    None
}

/// The text made of the characters `v[from..to]`.
pub fn text_of(v: &Vec<char>, from: usize, to: usize) -> (s: String)
    requires
        from <= to <= v.len(),
    ensures
        s@ == v@.subrange(from as int, to as int),
{
    let mut s = String::new();
    let mut i: usize = from;
    while i < to
        invariant
            from <= i <= to <= v.len(),
            s@ == v@.subrange(from as int, i as int),
        decreases to - i,
    {
        s.push(v[i]);
        assert(v@.subrange(from as int, i + 1) == v@.subrange(from as int, i as int).push(
            v@[i as int],
        ));
        i = i + 1;
    }
    s
}

/// The decimal digit for `d`, for `d < 10`.
pub open spec fn digit_char(d: nat) -> char {
    ((d + 48) as u8) as char
}

/// The decimal numeral of `n`, without leading zeros; `"0"` for zero.
pub open spec fn decimal(n: nat) -> Seq<char>
    decreases n,
{
    if n < 10 {
        seq![digit_char(n)]
    } else {
        decimal(n / 10).push(digit_char(n % 10))
    }
}

/// Writes `n` as a decimal numeral.
pub fn decimal_text(n: u64) -> (s: String)
    ensures
        s@ == decimal(n as nat),
{
    let mut digits: Vec<char> = Vec::new();
    let mut rest: u64 = n;
    // `digits` holds the low digits of `n`, least significant first.
    loop
        invariant
            rest <= n,
            decimal(n as nat) == decimal(rest as nat) + digits@.reverse(),
        ensures
            rest < 10,
            decimal(n as nat) == decimal(rest as nat) + digits@.reverse(),
        decreases rest,
    {
        if rest < 10 {
            break ;
        }
        let d: u8 = (rest % 10) as u8;
        let ghost before = digits@;
        digits.push((d + 48) as char);
        proof {
            assert(digits@.reverse() =~= seq![digit_char((rest % 10) as nat)] + before.reverse());
            assert(decimal(rest as nat) == decimal((rest / 10) as nat).push(
                digit_char((rest % 10) as nat),
            ));
            assert(decimal(rest as nat) + before.reverse() =~= decimal((rest / 10) as nat)
                + digits@.reverse());
        }
        rest = rest / 10;
    }
    let mut s = String::new();
    s.push(((rest as u8) + 48) as char);
    let mut i: usize = digits.len();
    while i > 0
        invariant
            i <= digits.len(),
            rest < 10,
            s@ == seq![digit_char(rest as nat)] + digits@.reverse().subrange(
                0,
                digits.len() - i,
            ),
        decreases i,
    {
        i = i - 1;
        s.push(digits[i]);
        proof {
            let r = digits@.reverse();
            let k = digits.len() - i - 1;
            assert(r[k] == digits@[i as int]);
            assert(r.subrange(0, k + 1) =~= r.subrange(0, k).push(r[k]));
        }
    }
    proof {
        assert(digits@.reverse().subrange(0, digits.len() as int) =~= digits@.reverse());
    }
    s
}

/// Whether `c` is among the characters `v`.
pub fn has_char(v: &Vec<char>, c: char) -> (found: bool)
    ensures
        found == v@.contains(c),
{
    let mut i: usize = 0;
    while i < v.len()
        invariant
            i <= v.len(),
            forall|j: int| 0 <= j < i ==> v@[j] != c,
        decreases v.len() - i,
    {
        if v[i] == c {
            return true;
        }
        i = i + 1;
    }
    false
}

} // verus!
