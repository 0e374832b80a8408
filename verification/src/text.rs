//! Text primitives shared by the parsers of the library: comparison of
//! string slices, the Unicode lower-case mapping of `str`, and helpers that
//! build owned strings.

use vstd::prelude::*;

verus! {

/// What `str::to_lowercase` returns for a string, taken by its characters.
pub uninterp spec fn lowercase_of(s: Seq<char>) -> Seq<char>;

/// The ASCII lower case of a character: `A` to `Z` become `a` to `z`.
pub open spec fn ascii_lower(c: char) -> char {
    if 'A' <= c && c <= 'Z' {
        ((c as u32) + 32) as char
    } else {
        c
    }
}

/// Whether every character of a text is ASCII.
pub open spec fn is_ascii_text(s: Seq<char>) -> bool {
    forall|i: int| 0 <= i < s.len() ==> (s[i] as u32) < 128
}

/// Calls `str::to_lowercase`, the Unicode lower-case mapping of std.
/// The contract claims that the result is a function of the input's
/// characters (named `lowercase_of`), and, as std documents for ASCII text,
/// that ASCII text maps character by character to its ASCII lower case.
/// The mapping of other characters is not stated.
#[verifier::external_body]
pub(crate) fn to_lowercase(s: &str) -> (r: String)
    ensures
        r@ == lowercase_of(s@),
        is_ascii_text(s@) ==> r@ == s@.map_values(|c: char| ascii_lower(c)),
{
    s.to_lowercase()
}

/// A text of lower-case ASCII letters and underscores is ASCII and is its
/// own ASCII lower case.
pub proof fn lemma_lower_text_is_its_lower_case(t: Seq<char>)
    requires
        forall|i: int| 0 <= i < t.len() ==> ('a' <= #[trigger] t[i] <= 'z') || t[i] == '_',
    ensures
        is_ascii_text(t),
        t.map_values(|c: char| ascii_lower(c)) == t,
{
    assert(t.map_values(|c: char| ascii_lower(c)) =~= t);
}

/// Whether two string slices hold the same characters.
pub fn str_eq(a: &str, b: &str) -> (r: bool)
    ensures
        r == (a@ == b@),
{
    let la = a.unicode_len();
    let lb = b.unicode_len();
    if la != lb {
        return false;
    }
    let mut i: usize = 0;
    while i < la
        invariant
            la == a@.len(),
            lb == b@.len(),
            la == lb,
            i <= la,
            forall|j: int| 0 <= j < i ==> a@[j] == b@[j],
        decreases la - i,
    {
        if a.get_char(i) != b.get_char(i) {
            return false;
        }
        i = i + 1;
    }
    assert(a@ =~= b@);
    true
}

} // verus!

verus! {

/// Appends one character to a string; calls `String::push`.
/// The contract claims what std documents: the character is added at the end.
#[verifier::external_body]
pub(crate) fn push_char(s: &mut String, c: char)
    ensures
        final(s)@ == old(s)@.push(c),
{
    s.push(c);
}

/// Appends a string slice to a string; calls `String::push_str`.
/// The contract claims what std documents: the slice is added at the end.
#[verifier::external_body]
pub(crate) fn push_str(s: &mut String, t: &str)
    ensures
        final(s)@ == old(s)@ + t@,
{
    s.push_str(t);
}

/// An owned copy of a string slice.
pub fn owned(s: &str) -> (r: String)
    ensures
        r@ == s@,
{
    s.to_owned()
}

/// The character of a decimal digit.
pub open spec fn digit_char(d: nat) -> char
    recommends
        d < 10,
{
    if d == 0 { '0' }
    else if d == 1 { '1' }
    else if d == 2 { '2' }
    else if d == 3 { '3' }
    else if d == 4 { '4' }
    else if d == 5 { '5' }
    else if d == 6 { '6' }
    else if d == 7 { '7' }
    else if d == 8 { '8' }
    else { '9' }
}

/// The decimal text of a natural number, without leading zeros.
pub open spec fn decimal_text(n: nat) -> Seq<char>
    decreases n,
{
    if n < 10 {
        seq![digit_char(n)]
    } else {
        decimal_text(n / 10).push(digit_char(n % 10))
    }
}

/// The decimal text of an integer, with a leading minus sign when negative.
pub open spec fn signed_decimal_text(n: int) -> Seq<char> {
    if n < 0 {
        seq!['-'] + decimal_text((-n) as nat)
    } else {
        decimal_text(n as nat)
    }
}

fn digit(d: u8) -> (c: char)
    requires
        d < 10,
    ensures
        c == digit_char(d as nat),
{
    if d == 0 { '0' }
    else if d == 1 { '1' }
    else if d == 2 { '2' }
    else if d == 3 { '3' }
    else if d == 4 { '4' }
    else if d == 5 { '5' }
    else if d == 6 { '6' }
    else if d == 7 { '7' }
    else if d == 8 { '8' }
    else { '9' }
}

/// Appends the decimal text of `n` to `s`.
pub fn push_decimal(s: &mut String, n: u128)
    ensures
        final(s)@ == old(s)@ + decimal_text(n as nat),
    decreases n,
{
    if n < 10 {
        push_char(s, digit(n as u8));
        assert(decimal_text(n as nat) == seq![digit_char(n as nat)]);
        assert(old(s)@.push(digit_char(n as nat)) =~= old(s)@ + seq![digit_char(n as nat)]);
    } else {
        push_decimal(s, n / 10);
        push_char(s, digit((n % 10) as u8));
        assert(old(s)@ + decimal_text(n as nat) =~= old(s)@ + decimal_text((n / 10) as nat) + seq![digit_char((n % 10) as nat)]);
    }
}

/// Appends the decimal text of a signed integer to `s`.
pub fn push_signed_decimal(s: &mut String, n: i128)
    ensures
        final(s)@ == old(s)@ + signed_decimal_text(n as int),
{
    if n < 0 {
        push_char(s, '-');
        let magnitude: u128 = if n == i128::MIN {
            (i128::MAX as u128) + 1
        } else {
            (-n) as u128
        };
        push_decimal(s, magnitude);
        assert(old(s)@ + signed_decimal_text(n as int) =~= old(s)@.push('-') + decimal_text(magnitude as nat));
    } else {
        push_decimal(s, n as u128);
    }
}

/// The decimal text of a natural number as a new string.
pub fn decimal(n: u128) -> (r: String)
    ensures
        r@ == decimal_text(n as nat),
{
    let mut s = String::new();
    push_decimal(&mut s, n);
    assert(s@ =~= decimal_text(n as nat));
    s
}

} // verus!

verus! {

/// The characters of each string.
pub open spec fn views(v: Seq<String>) -> Seq<Seq<char>> {
    v.map_values(|s: String| s@)
}

/// Texts joined with a separator between consecutive ones.
pub open spec fn join_with(parts: Seq<Seq<char>>, sep: Seq<char>) -> Seq<char>
    decreases parts.len(),
{
    if parts.len() == 0 {
        Seq::empty()
    } else if parts.len() == 1 {
        parts[0]
    } else {
        join_with(parts.drop_last(), sep) + sep + parts.last()
    }
}

/// Join strings with a separator, as `slice::join` does.
pub fn join(parts: &Vec<String>, sep: &str) -> (r: String)
    ensures
        r@ == join_with(views(parts@), sep@),
{
    let mut s = String::new();
    let mut i: usize = 0;
    while i < parts.len()
        invariant
            i <= parts@.len(),
            s@ == join_with(views(parts@.take(i as int)), sep@),
        decreases parts@.len() - i,
    {
        let ghost prev = views(parts@.take(i as int));
        if i > 0 {
            push_str(&mut s, sep);
        }
        push_str(&mut s, parts[i].as_str());
        proof {
            let next = views(parts@.take(i + 1));
            assert(next.drop_last() =~= prev);
            assert(next.last() == parts@[i as int]@);
            if i == 0 {
                assert(next.len() == 1);
                assert(s@ =~= next[0]);
            }
        }
        i = i + 1;
    }
    assert(parts@.take(parts@.len() as int) =~= parts@);
    s
}

} // verus!

verus! {

/// Whether a character is an ASCII decimal digit.
pub open spec fn is_digit(c: char) -> bool {
    '0' <= c && c <= '9'
}

/// The value of a decimal digit character.
pub open spec fn digit_value(c: char) -> nat {
    (c as int - '0' as int) as nat
}

/// The value of a sequence of decimal digits.
pub open spec fn digits_value(s: Seq<char>) -> nat
    decreases s.len(),
{
    if s.len() == 0 {
        0
    } else {
        digits_value(s.drop_last()) * 10 + digit_value(s.last())
    }
}

/// Whether every character is a decimal digit.
pub open spec fn all_digits(s: Seq<char>) -> bool {
    forall|i: int| 0 <= i < s.len() ==> is_digit(#[trigger] s[i])
}

/// What `u32::from_str` accepts: an optional `+`, then one or more decimal
/// digits whose value fits in a `u32`.
pub open spec fn parse_u32_text(s: Seq<char>) -> Option<u32> {
    let digits = if s.len() > 0 && s[0] == '+' { s.drop_first() } else { s };
    if digits.len() > 0 && all_digits(digits) && digits_value(digits) <= u32::MAX {
        Some(digits_value(digits) as u32)
    } else {
        None
    }
}

/// The characters of a string slice, in a vector.
pub fn chars_of(s: &str) -> (r: Vec<char>)
    ensures
        r@ == s@,
{
    let n = s.unicode_len();
    let mut v: Vec<char> = Vec::new();
    let mut i: usize = 0;
    while i < n
        invariant
            n == s@.len(),
            i <= n,
            v@ == s@.take(i as int),
        decreases n - i,
    {
        v.push(s.get_char(i));
        assert(v@ =~= s@.take(i + 1));
        i = i + 1;
    }
    assert(s@.take(n as int) =~= s@);
    v
}

/// Parse decimal digits `s[from..to)` as a `u32`; `None` on a non-digit or overflow.
fn parse_digits_u32(s: &Vec<char>, from: usize, to: usize) -> (r: Option<u32>)
    requires
        from <= to <= s@.len(),
    ensures
        r == (if all_digits(s@.subrange(from as int, to as int)) && digits_value(
            s@.subrange(from as int, to as int),
        ) <= u32::MAX {
            Some(digits_value(s@.subrange(from as int, to as int)) as u32)
        } else {
            None::<u32>
        }),
{
    let mut acc: u64 = 0;
    let mut i: usize = from;
    while i < to
        invariant
            from <= i <= to <= s@.len(),
            all_digits(s@.subrange(from as int, i as int)),
            acc == digits_value(s@.subrange(from as int, i as int)),
            acc <= u32::MAX,
        decreases to - i,
    {
        let c = s[i];
        let ghost prefix = s@.subrange(from as int, i as int);
        let ghost next = s@.subrange(from as int, i + 1);
        assert(next.drop_last() =~= prefix);
        assert(next.last() == c);
        if !('0' <= c && c <= '9') {
            assert(!all_digits(s@.subrange(from as int, to as int))) by {
                assert(s@.subrange(from as int, to as int)[i - from] == c);
            }
            return None;
        }
        let d = (c as u32 - '0' as u32) as u64;
        acc = acc * 10 + d;
        if acc > 0xFFFF_FFFF {
            proof {
                let whole = s@.subrange(from as int, to as int);
                if all_digits(whole) {
                    lemma_digits_value_prefix_monotone(whole, (i + 1 - from) as int);
                    assert(whole.take((i + 1 - from) as int) =~= next);
                }
            }
            return None;
        }
        i = i + 1;
    }
    Some(acc as u32)
}

/// The value of the digit character of a digit.
pub proof fn lemma_digit_char_value(d: nat)
    requires
        d < 10,
    ensures
        is_digit(digit_char(d)),
        digit_value(digit_char(d)) == d,
{
}

/// The decimal text of a number is a non-empty run of digits whose value
/// is the number.
pub proof fn lemma_decimal_text_digits(n: nat)
    ensures
        decimal_text(n).len() >= 1,
        all_digits(decimal_text(n)),
        digits_value(decimal_text(n)) == n,
    decreases n,
{
    if n < 10 {
        lemma_digit_char_value(n);
        assert(decimal_text(n).drop_last() =~= Seq::<char>::empty());
        assert(digits_value(decimal_text(n)) == digits_value(Seq::<char>::empty()) * 10 + digit_value(
            digit_char(n),
        ));
    } else {
        lemma_decimal_text_digits(n / 10);
        lemma_digit_char_value(n % 10);
        let t = decimal_text(n);
        assert(t.drop_last() =~= decimal_text(n / 10));
        assert(t.last() == digit_char(n % 10));
        assert(digits_value(t) == (n / 10) * 10 + n % 10);
        assert((n / 10) * 10 + n % 10 == n);
        assert forall|i: int| 0 <= i < t.len() implies is_digit(#[trigger] t[i]) by {
            if i < t.len() - 1 {
                assert(t[i] == decimal_text(n / 10)[i]);
            }
        }
    }
}

/// The value of a prefix of digits is at most the value of the whole.
pub proof fn lemma_digits_value_prefix_monotone(s: Seq<char>, k: int)
    requires
        0 <= k <= s.len(),
        all_digits(s),
    ensures
        digits_value(s.take(k)) <= digits_value(s),
    decreases s.len(),
{
    if k < s.len() {
        assert(s.drop_last().take(k) =~= s.take(k));
        assert forall|i: int| 0 <= i < s.drop_last().len() implies is_digit(#[trigger] s.drop_last()[i]) by {
            assert(is_digit(s[i]));
        }
        lemma_digits_value_prefix_monotone(s.drop_last(), k);
    } else {
        assert(s.take(k) =~= s);
    }
}

/// Parse a `u32` as `u32::from_str` does.
pub fn parse_u32(s: &Vec<char>, from: usize, to: usize) -> (r: Option<u32>)
    requires
        from <= to <= s@.len(),
    ensures
        r == parse_u32_text(s@.subrange(from as int, to as int)),
{
    let ghost t = s@.subrange(from as int, to as int);
    if from < to && s[from] == '+' {
        assert(t.drop_first() =~= s@.subrange(from + 1, to as int));
        if from + 1 == to {
            return None;
        }
        parse_digits_u32(s, from + 1, to)
    } else {
        if from == to {
            return None;
        }
        parse_digits_u32(s, from, to)
    }
}

} // verus!

verus! {

/// `needle` occurs in `hay` at position `i`.
pub open spec fn occurs_at(hay: Seq<char>, needle: Seq<char>, i: int) -> bool {
    0 <= i && i + needle.len() <= hay.len() && hay.subrange(i, i + needle.len()) == needle
}

/// `needle` occurs somewhere in `hay`.
pub open spec fn contains_text(hay: Seq<char>, needle: Seq<char>) -> bool {
    exists|i: int| occurs_at(hay, needle, i)
}

/// Whether `needle` occurs at position `i` of `hay`.
fn occurs_at_exec(hay: &Vec<char>, needle: &Vec<char>, i: usize) -> (r: bool)
    requires
        i + needle@.len() <= hay@.len(),
    ensures
        r == occurs_at(hay@, needle@, i as int),
{
    let mut j: usize = 0;
    let hl = hay.len();
    while j < needle.len()
        invariant
            hl == hay@.len(),
            i + needle@.len() <= hay@.len(),
            j <= needle@.len(),
            forall|k: int| 0 <= k < j ==> hay@[i + k] == needle@[k],
        decreases needle@.len() - j,
    {
        if hay[i + j] != needle[j] {
            assert(hay@.subrange(i as int, i + needle@.len())[j as int] != needle@[j as int]);
            return false;
        }
        j = j + 1;
    }
    assert(hay@.subrange(i as int, i + needle@.len()) =~= needle@);
    true
}

/// The first position at which `needle` occurs in `hay` at or after `from`.
pub fn find_from(hay: &Vec<char>, needle: &Vec<char>, from: usize) -> (r: Option<usize>)
    requires
        from <= hay@.len(),
    ensures
        match r {
            Some(i) => from <= i && occurs_at(hay@, needle@, i as int) && forall|k: int|
                from <= k < i ==> !occurs_at(hay@, needle@, k),
            None => forall|k: int| from <= k ==> !occurs_at(hay@, needle@, k),
        },
{
    if needle.len() > hay.len() {
        return None;
    }
    let last = hay.len() - needle.len();
    let mut i: usize = from;
    while i <= last
        invariant
            last + needle@.len() == hay@.len(),
            from <= i,
            forall|k: int| from <= k < i ==> !occurs_at(hay@, needle@, k),
        decreases last + 1 - i,
    {
        if occurs_at_exec(hay, needle, i) {
            return Some(i);
        }
        if i == last {
            return None;
        }
        i = i + 1;
    }
    None
}

/// The first position at or after `from` at which `needle` occurs in `hay`.
#[verifier::opaque]
pub open spec fn first_occurrence(hay: Seq<char>, needle: Seq<char>, from: int) -> Option<int> {
    if exists|k: int| from <= k && occurs_at(hay, needle, k) {
        Some(
            choose|k: int|
                from <= k && occurs_at(hay, needle, k) && forall|j: int| from <= j < k ==> !occurs_at(hay, needle, j),
        )
    } else {
        None
    }
}

proof fn lemma_first_occurrence_is(hay: Seq<char>, needle: Seq<char>, from: int, i: int)
    requires
        from <= i,
        occurs_at(hay, needle, i),
        forall|j: int| from <= j < i ==> !occurs_at(hay, needle, j),
    ensures
        first_occurrence(hay, needle, from) == Some(i),
{
    reveal(first_occurrence);
    let k = choose|k: int|
        from <= k && occurs_at(hay, needle, k) && forall|j: int| from <= j < k ==> !occurs_at(hay, needle, j);
    assert(from <= i && occurs_at(hay, needle, i) && forall|j: int| from <= j < i ==> !occurs_at(hay, needle, j));
    if k < i {
        assert(!occurs_at(hay, needle, k));
    } else if k > i {
        assert(!occurs_at(hay, needle, i));
    }
}

/// The first position at or after `from` at which `needle` occurs in `hay`,
/// as `str::find` on the text from `from` gives it.
pub fn find_first(hay: &Vec<char>, needle: &Vec<char>, from: usize) -> (r: Option<usize>)
    requires
        from <= hay@.len(),
    ensures
        match r {
            Some(i) => first_occurrence(hay@, needle@, from as int) == Some(i as int),
            None => first_occurrence(hay@, needle@, from as int).is_none(),
        },
{
    match find_from(hay, needle, from) {
        Some(i) => {
            proof {
                lemma_first_occurrence_is(hay@, needle@, from as int, i as int);
            }
            Some(i)
        },
        None => {
            proof {
                reveal(first_occurrence);
            }
            None
        },
    }
}

/// Where the first occurrence lies: at or after `from`, and inside `hay`.
pub proof fn lemma_first_occurrence_bounds(hay: Seq<char>, needle: Seq<char>, from: int, i: int)
    requires
        first_occurrence(hay, needle, from) == Some(i),
    ensures
        from <= i,
        i + needle.len() <= hay.len(),
        occurs_at(hay, needle, i),
{
    reveal(first_occurrence);
    let w = choose|k: int| from <= k && occurs_at(hay, needle, k);
    lemma_least_occurrence(hay, needle, from, w);
}

proof fn lemma_least_occurrence(hay: Seq<char>, needle: Seq<char>, from: int, w: int)
    requires
        from <= w,
        occurs_at(hay, needle, w),
    ensures
        exists|k: int|
            from <= k && occurs_at(hay, needle, k) && forall|j: int| from <= j < k ==> !occurs_at(hay, needle, j),
    decreases w - from,
{
    if exists|j: int| from <= j < w && occurs_at(hay, needle, j) {
        let j = choose|j: int| from <= j < w && occurs_at(hay, needle, j);
        lemma_least_occurrence(hay, needle, from, j);
    } else {
        assert(from <= w && occurs_at(hay, needle, w) && forall|j: int| from <= j < w ==> !occurs_at(hay, needle, j));
    }
}

/// The last position of a character in a text.
#[verifier::opaque]
pub open spec fn last_position(s: Seq<char>, c: char) -> Option<int> {
    if exists|k: int| 0 <= k < s.len() && s[k] == c {
        Some(choose|k: int| 0 <= k < s.len() && s[k] == c && forall|j: int| k < j < s.len() ==> s[j] != c)
    } else {
        None
    }
}

/// The last position of a character, as `str::rfind` with a character gives it.
pub fn rfind_char(s: &Vec<char>, c: char) -> (r: Option<usize>)
    ensures
        match r {
            Some(i) => last_position(s@, c) == Some(i as int),
            None => last_position(s@, c).is_none(),
        },
{
    let mut i: usize = s.len();
    while i > 0
        invariant
            i <= s@.len(),
            forall|j: int| i <= j < s@.len() ==> s@[j] != c,
        decreases i,
    {
        if s[i - 1] == c {
            proof {
                reveal(last_position);
                let w = (i - 1) as int;
                assert(0 <= w < s@.len() && s@[w] == c && forall|j: int| w < j < s@.len() ==> s@[j] != c);
                let k = choose|k: int| 0 <= k < s@.len() && s@[k] == c && forall|j: int| k < j < s@.len() ==> s@[j] != c;
                if k < w {
                    assert(s@[w] != c);
                } else if k > w {
                    assert(s@[k] != c);
                }
            }
            return Some(i - 1);
        }
        i = i - 1;
    }
    proof {
        reveal(last_position);
    }
    None
}

/// The last position of a character lies inside the text and holds it.
pub proof fn lemma_last_position_bounds(s: Seq<char>, c: char, i: int)
    requires
        last_position(s, c) == Some(i),
    ensures
        0 <= i < s.len(),
        s[i] == c,
{
    reveal(last_position);
    let w = choose|k: int| 0 <= k < s.len() && s[k] == c;
    lemma_last_witness(s, c, w);
}

proof fn lemma_last_witness(s: Seq<char>, c: char, w: int)
    requires
        0 <= w < s.len(),
        s[w] == c,
    ensures
        exists|k: int| 0 <= k < s.len() && s[k] == c && forall|j: int| k < j < s.len() ==> s[j] != c,
    decreases s.len() - w,
{
    if exists|j: int| w < j < s.len() && s[j] == c {
        let j = choose|j: int| w < j < s.len() && s[j] == c;
        lemma_last_witness(s, c, j);
    } else {
        assert(0 <= w < s.len() && s[w] == c && forall|j: int| w < j < s.len() ==> s[j] != c);
    }
}

/// The number of bytes UTF-8 takes for a character.
pub open spec fn utf8_width(c: char) -> nat {
    if (c as u32) < 0x80 {
        1
    } else if (c as u32) < 0x800 {
        2
    } else if (c as u32) < 0x10000 {
        3
    } else {
        4
    }
}

/// The number of bytes UTF-8 takes for a text: what `str::len` gives.
pub open spec fn utf8_len(s: Seq<char>) -> nat
    decreases s.len(),
{
    if s.len() == 0 {
        0
    } else {
        utf8_len(s.drop_last()) + utf8_width(s.last())
    }
}

/// A text takes at most four bytes per character.
pub proof fn lemma_utf8_len_bound(s: Seq<char>)
    ensures
        s.len() <= utf8_len(s) <= 4 * s.len(),
    decreases s.len(),
{
    if s.len() > 0 {
        lemma_utf8_len_bound(s.drop_last());
    }
}

/// A longer prefix takes more bytes.
pub proof fn lemma_utf8_len_prefix(s: Seq<char>, i: int, j: int)
    requires
        0 <= i <= j <= s.len(),
    ensures
        utf8_len(s.take(i)) <= utf8_len(s.take(j)),
        i < j ==> utf8_len(s.take(i)) < utf8_len(s.take(j)),
    decreases j - i,
{
    if i < j {
        lemma_utf8_len_prefix(s, i, j - 1);
        assert(s.take(j).drop_last() =~= s.take(j - 1));
    }
}

/// The byte width of a character, as `char::len_utf8` gives it.
pub fn char_width(c: char) -> (r: usize)
    ensures
        r == utf8_width(c),
{
    let cp = c as u32;
    if cp < 0x80 {
        1
    } else if cp < 0x800 {
        2
    } else if cp < 0x10000 {
        3
    } else {
        4
    }
}

/// The length in bytes of a text, counted from its characters.
pub fn byte_len(s: &str) -> (r: usize)
    requires
        4 * s@.len() <= usize::MAX,
    ensures
        r == utf8_len(s@),
{
    let v = chars_of(s);
    let mut n: usize = 0;
    let mut i: usize = 0;
    while i < v.len()
        invariant
            i <= v@.len(),
            v@ == s@,
            4 * v@.len() <= usize::MAX,
            n == utf8_len(v@.take(i as int)),
        decreases v@.len() - i,
    {
        let c = v[i];
        proof {
            assert(v@.take(i + 1).drop_last() =~= v@.take(i as int));
            lemma_utf8_len_bound(v@.take(i as int));
        }
        n = n + char_width(c);
        i = i + 1;
    }
    assert(v@.take(v@.len() as int) =~= v@);
    n
}

/// The number of non-white-space characters at the start of `s`.
pub open spec fn word_len(s: Seq<char>) -> nat
    decreases s.len(),
{
    if s.len() > 0 && !is_white_space(s[0]) {
        1 + word_len(s.drop_first())
    } else {
        0
    }
}

pub proof fn lemma_leading_ws_bound(s: Seq<char>)
    ensures
        leading_ws(s) <= s.len(),
        leading_ws(s) < s.len() ==> !is_white_space(s[leading_ws(s) as int]),
        forall|k: int| 0 <= k < leading_ws(s) ==> is_white_space(#[trigger] s[k]),
    decreases s.len(),
{
    if s.len() > 0 && is_white_space(s[0]) {
        lemma_leading_ws_bound(s.drop_first());
        assert forall|k: int| 0 <= k < leading_ws(s) implies is_white_space(#[trigger] s[k]) by {
            if k > 0 {
                assert(s[k] == s.drop_first()[k - 1]);
            }
        }
    }
}

pub proof fn lemma_word_len_bound(s: Seq<char>)
    ensures
        word_len(s) <= s.len(),
        s.len() > 0 && !is_white_space(s[0]) ==> word_len(s) >= 1,
        word_len(s) < s.len() ==> is_white_space(s[word_len(s) as int]),
        forall|k: int| 0 <= k < word_len(s) ==> !is_white_space(#[trigger] s[k]),
    decreases s.len(),
{
    if s.len() > 0 && !is_white_space(s[0]) {
        lemma_word_len_bound(s.drop_first());
        assert forall|k: int| 0 <= k < word_len(s) implies !is_white_space(#[trigger] s[k]) by {
            if k > 0 {
                assert(s[k] == s.drop_first()[k - 1]);
            }
        }
    }
}

proof fn lemma_word_len(s: Seq<char>, i: int)
    requires
        0 <= i <= s.len(),
        forall|k: int| 0 <= k < i ==> !is_white_space(#[trigger] s[k]),
        i == s.len() || is_white_space(s[i]),
    ensures
        word_len(s) == i,
    decreases i,
{
    if i > 0 {
        lemma_word_len(s.drop_first(), i - 1);
    }
}

/// The words of a text: its maximal runs of non-white-space characters, in
/// order, as `str::split_whitespace` gives them.
pub open spec fn words(s: Seq<char>) -> Seq<Seq<char>>
    decreases s.len(),
{
    let t = s.skip(leading_ws(s) as int);
    if leading_ws(s) >= s.len() {
        Seq::empty()
    } else {
        let w = word_len(t);
        if w == 0 {
            Seq::empty()
        } else {
            proof {
                lemma_word_len_bound(t);
                lemma_leading_ws_bound(s);
            }
            seq![t.take(w as int)] + words(t.skip(w as int))
        }
    }
}

/// The words of a text joined by single spaces.
pub open spec fn collapse_white_space(s: Seq<char>) -> Seq<char> {
    join_with(words(s), " "@)
}

proof fn lemma_join_push(parts: Seq<Seq<char>>, p: Seq<char>, sep: Seq<char>)
    ensures
        join_with(parts.push(p), sep) == if parts.len() == 0 {
            p
        } else {
            join_with(parts, sep) + sep + p
        },
{
    assert(parts.push(p).drop_last() =~= parts);
    if parts.len() == 0 {
        assert(parts.push(p).len() == 1);
    }
}

proof fn lemma_words_step(s: Seq<char>, i: int, j: int, k: int)
    requires
        0 <= i <= j < k <= s.len(),
        forall|x: int| i <= x < j ==> is_white_space(#[trigger] s[x]),
        forall|x: int| j <= x < k ==> !is_white_space(#[trigger] s[x]),
        k == s.len() || is_white_space(s[k]),
    ensures
        words(s.skip(i)) == seq![s.subrange(j, k)] + words(s.skip(k)),
{
    let a = s.skip(i);
    lemma_leading_ws(a, j - i);
    let t = a.skip(j - i);
    assert(t =~= s.skip(j));
    lemma_word_len(t, k - j);
    assert(t.take(k - j) =~= s.subrange(j, k));
    assert(t.skip(k - j) =~= s.skip(k));
}

proof fn lemma_words_end(s: Seq<char>, i: int)
    requires
        0 <= i <= s.len(),
        forall|x: int| i <= x < s.len() ==> is_white_space(#[trigger] s[x]),
    ensures
        words(s.skip(i)) == Seq::<Seq<char>>::empty(),
{
    let a = s.skip(i);
    lemma_leading_ws(a, s.len() - i);
}

/// Collapse white space: the words of a text joined by single spaces, as
/// `split_whitespace` followed by a join with `" "` gives it.
pub fn collapse_ws(s: &Vec<char>) -> (r: String)
    ensures
        r@ == collapse_white_space(s@),
{
    let n = s.len();
    let mut out = String::new();
    let mut count: usize = 0;
    let ghost mut done: Seq<Seq<char>> = Seq::empty();
    let mut i: usize = 0;
    proof {
        assert(s@.skip(0) =~= s@);
    }
    while i < n
        invariant
            n == s@.len(),
            i <= n,
            i == 0 || i == n || is_white_space(s@[i as int]) || is_white_space(s@[i - 1]),
            words(s@) == done + words(s@.skip(i as int)),
            out@ == join_with(done, " "@),
            count == done.len(),
            count <= i,
        decreases n - i,
    {
        let mut j = i;
        while j < n && char_is_white_space(s[j])
            invariant
                n == s@.len(),
                i <= j <= n,
                forall|x: int| i <= x < j ==> is_white_space(#[trigger] s@[x]),
            decreases n - j,
        {
            j = j + 1;
        }
        if j == n {
            proof {
                lemma_words_end(s@, i as int);
                assert(done + Seq::<Seq<char>>::empty() =~= done);
            }
            i = n;
        } else {
            let mut k = j;
            while k < n && !char_is_white_space(s[k])
                invariant
                    n == s@.len(),
                    j <= k <= n,
                    forall|x: int| j <= x < k ==> !is_white_space(#[trigger] s@[x]),
                decreases n - k,
            {
                k = k + 1;
            }
            let word = string_of_range(s, j, k);
            proof {
                lemma_words_step(s@, i as int, j as int, k as int);
                lemma_join_push(done, word@, " "@);
                assert(done + (seq![word@] + words(s@.skip(k as int))) =~= done.push(word@) + words(
                    s@.skip(k as int),
                ));
            }
            if count > 0 {
                push_str(&mut out, " ");
            }
            push_str(&mut out, word.as_str());
            proof {
                done = done.push(word@);
            }
            count = count + 1;
            i = k;
        }
    }
    proof {
        assert(s@.skip(n as int) =~= Seq::<char>::empty());
        assert(leading_ws(Seq::<char>::empty()) == 0);
        assert(words(Seq::<char>::empty()) =~= Seq::<Seq<char>>::empty());
        assert(done + Seq::<Seq<char>>::empty() =~= done);
    }
    out
}

/// Whether `needle` occurs in `hay`.
pub fn contains_chars(hay: &Vec<char>, needle: &Vec<char>) -> (r: bool)
    ensures
        r == contains_text(hay@, needle@),
{
    match find_from(hay, needle, 0) {
        Some(i) => true,
        None => {
            assert forall|k: int| !occurs_at(hay@, needle@, k) by {
                if k >= 0 {
                }
            }
            false
        },
    }
}

/// Whether `needle` occurs in `hay`, as `str::contains` with a string pattern.
pub fn str_contains(hay: &str, needle: &str) -> (r: bool)
    ensures
        r == contains_text(hay@, needle@),
{
    let h = chars_of(hay);
    let n = chars_of(needle);
    contains_chars(&h, &n)
}

} // verus!

verus! {

/// Whether a character has the Unicode `White_Space` property, which is what
/// `char::is_whitespace` tests.
pub open spec fn is_white_space(c: char) -> bool {
    let u = c as u32;
    (0x09 <= u && u <= 0x0D) || u == 0x20 || u == 0x85 || u == 0xA0 || u == 0x1680 || (0x2000 <= u
        && u <= 0x200A) || u == 0x2028 || u == 0x2029 || u == 0x202F || u == 0x205F || u == 0x3000
}

/// Whether a character has the Unicode `White_Space` property.
pub fn char_is_white_space(c: char) -> (r: bool)
    ensures
        r == is_white_space(c),
{
    let u = c as u32;
    (0x09 <= u && u <= 0x0D) || u == 0x20 || u == 0x85 || u == 0xA0 || u == 0x1680 || (0x2000 <= u
        && u <= 0x200A) || u == 0x2028 || u == 0x2029 || u == 0x202F || u == 0x205F || u == 0x3000
}

/// The number of white-space characters at the start of `s`.
pub open spec fn leading_ws(s: Seq<char>) -> nat
    decreases s.len(),
{
    if s.len() > 0 && is_white_space(s[0]) {
        1 + leading_ws(s.drop_first())
    } else {
        0
    }
}

/// The number of white-space characters at the end of `s`.
pub open spec fn trailing_ws(s: Seq<char>) -> nat
    decreases s.len(),
{
    if s.len() > 0 && is_white_space(s.last()) {
        1 + trailing_ws(s.drop_last())
    } else {
        0
    }
}

/// `s` without leading and trailing white space, as `str::trim` gives it.
pub open spec fn trim_text(s: Seq<char>) -> Seq<char> {
    let a = leading_ws(s);
    if a == s.len() {
        Seq::empty()
    } else {
        s.subrange(a as int, s.len() - trailing_ws(s))
    }
}

proof fn lemma_leading_ws(s: Seq<char>, i: int)
    requires
        0 <= i <= s.len(),
        forall|k: int| 0 <= k < i ==> is_white_space(#[trigger] s[k]),
        i == s.len() || !is_white_space(s[i]),
    ensures
        leading_ws(s) == i,
    decreases i,
{
    if i > 0 {
        lemma_leading_ws(s.drop_first(), i - 1);
    }
}

proof fn lemma_trailing_ws(s: Seq<char>, j: int)
    requires
        0 <= j <= s.len(),
        forall|k: int| j <= k < s.len() ==> is_white_space(#[trigger] s[k]),
        j == 0 || !is_white_space(s[j - 1]),
    ensures
        trailing_ws(s) == s.len() - j,
    decreases s.len() - j,
{
    if j < s.len() {
        lemma_trailing_ws(s.drop_last(), j);
    }
}

/// The characters of `s` without leading and trailing white space.
pub fn trim_chars(s: &Vec<char>) -> (r: Vec<char>)
    ensures
        r@ == trim_text(s@),
{
    let n = s.len();
    let mut a: usize = 0;
    while a < n && char_is_white_space(s[a])
        invariant
            n == s@.len(),
            a <= n,
            forall|k: int| 0 <= k < a ==> is_white_space(#[trigger] s@[k]),
        decreases n - a,
    {
        a = a + 1;
    }
    proof { lemma_leading_ws(s@, a as int); }
    if a == n {
        return Vec::new();
    }
    let mut b: usize = n;
    while b > a && char_is_white_space(s[b - 1])
        invariant
            n == s@.len(),
            a < n,
            a <= b <= n,
            !is_white_space(s@[a as int]),
            forall|k: int| b <= k < n ==> is_white_space(#[trigger] s@[k]),
        decreases b,
    {
        b = b - 1;
    }
    proof { lemma_trailing_ws(s@, b as int); }
    let mut r: Vec<char> = Vec::new();
    let mut i: usize = a;
    while i < b
        invariant
            a <= i <= b <= n,
            n == s@.len(),
            r@ == s@.subrange(a as int, i as int),
        decreases b - i,
    {
        r.push(s[i]);
        assert(r@ =~= s@.subrange(a as int, i + 1));
        i = i + 1;
    }
    r
}

/// A string of the given characters.
pub fn string_of(chars: &Vec<char>) -> (r: String)
    ensures
        r@ == chars@,
{
    let mut s = String::new();
    let mut i: usize = 0;
    while i < chars.len()
        invariant
            i <= chars@.len(),
            s@ == chars@.take(i as int),
        decreases chars@.len() - i,
    {
        push_char(&mut s, chars[i]);
        assert(s@ =~= chars@.take(i + 1));
        i = i + 1;
    }
    assert(chars@.take(chars@.len() as int) =~= chars@);
    s
}

/// A string of the characters `chars[from..to)`.
pub fn string_of_range(chars: &Vec<char>, from: usize, to: usize) -> (r: String)
    requires
        from <= to <= chars@.len(),
    ensures
        r@ == chars@.subrange(from as int, to as int),
{
    let mut s = String::new();
    let mut i: usize = from;
    while i < to
        invariant
            from <= i <= to <= chars@.len(),
            s@ == chars@.subrange(from as int, i as int),
        decreases to - i,
    {
        push_char(&mut s, chars[i]);
        assert(s@ =~= chars@.subrange(from as int, i + 1));
        i = i + 1;
    }
    s
}

/// `str::trim`: the string without leading and trailing white space.
pub fn trim(s: &str) -> (r: String)
    ensures
        r@ == trim_text(s@),
{
    let v = chars_of(s);
    let t = trim_chars(&v);
    string_of(&t)
}

/// Whether `s` starts with `prefix`.
pub open spec fn starts_with_text(s: Seq<char>, prefix: Seq<char>) -> bool {
    prefix.len() <= s.len() && s.take(prefix.len() as int) == prefix
}

/// Whether the characters start with the given prefix.
pub fn starts_with_chars(s: &Vec<char>, prefix: &str) -> (r: bool)
    ensures
        r == starts_with_text(s@, prefix@),
{
    let p = chars_of(prefix);
    if p.len() > s.len() {
        return false;
    }
    let mut i: usize = 0;
    while i < p.len()
        invariant
            p@ == prefix@,
            p@.len() <= s@.len(),
            i <= p@.len(),
            forall|k: int| 0 <= k < i ==> s@[k] == p@[k],
        decreases p@.len() - i,
    {
        if s[i] != p[i] {
            assert(s@.take(p@.len() as int)[i as int] != p@[i as int]);
            return false;
        }
        i = i + 1;
    }
    assert(s@.take(p@.len() as int) =~= p@);
    true
}

} // verus!
