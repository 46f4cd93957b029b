//! Character-level text handling shared by the parsers and formatters.
use vstd::prelude::*;

verus! {

/// The Unicode `White_Space` property, which `char::is_whitespace` tests.
pub open spec fn is_white_space(c: char) -> bool {
    let v = c as u32;
    (0x9 <= v && v <= 0xd) || v == 0x20 || v == 0x85 || v == 0xa0 || v == 0x1680
        || (0x2000 <= v && v <= 0x200a) || v == 0x2028 || v == 0x2029 || v == 0x202f
        || v == 0x205f || v == 0x3000
}

pub fn is_white_space_char(c: char) -> (r: bool)
    ensures
        r == is_white_space(c),
{
    let v = c as u32;
    (0x9 <= v && v <= 0xd) || v == 0x20 || v == 0x85 || v == 0xa0 || v == 0x1680 || (0x2000 <= v
        && v <= 0x200a) || v == 0x2028 || v == 0x2029 || v == 0x202f || v == 0x205f || v == 0x3000
}

/// Appends one character to a string (`String::push`).
#[verifier::external_body]
pub(crate) fn push_char(s: &mut String, c: char)
    ensures
        final(s)@ == old(s)@.push(c),
{
    s.push(c);
}

/// The characters of a string slice, in order.
pub fn chars_of(s: &str) -> (v: Vec<char>)
    ensures
        v@ == s@,
{
    let mut v: Vec<char> = Vec::new();
    for c in it: s.chars()
        invariant
            v@ == it.seq().take(it.index() as int),
            it.seq() == s@,
    {
        v.push(c);
    }
    v
}

/// A string holding the given characters.
pub fn string_of(v: &[char]) -> (s: String)
    ensures
        s@ == v@,
{
    let mut s = String::new();
    let mut i: usize = 0;
    while i < v.len()
        invariant
            i <= v@.len(),
            s@ == v@.take(i as int),
        decreases v@.len() - i,
    {
        push_char(&mut s, v[i]);
        assert(v@.take(i + 1) == v@.take(i as int).push(v@[i as int]));
        i += 1;
    }
    assert(v@.take(v@.len() as int) == v@);
    s
}

/// Appends the characters of `extra` to `v`.
pub fn extend_chars(v: &mut Vec<char>, extra: &[char])
    ensures
        final(v)@ == old(v)@ + extra@,
{
    let mut i: usize = 0;
    while i < extra.len()
        invariant
            i <= extra@.len(),
            v@ == old(v)@ + extra@.take(i as int),
        decreases extra@.len() - i,
    {
        v.push(extra[i]);
        assert(extra@.take(i + 1) == extra@.take(i as int).push(extra@[i as int]));
        i += 1;
    }
    assert(extra@.take(extra@.len() as int) == extra@);
}

/// Appends the characters of a string slice to `v`.
pub fn extend_str(v: &mut Vec<char>, extra: &str)
    ensures
        final(v)@ == old(v)@ + extra@,
{
    let chars = chars_of(extra);
    extend_chars(v, chars.as_slice());
}

/// Whether two character sequences are equal.
pub fn chars_equal(a: &[char], b: &[char]) -> (r: bool)
    ensures
        r == (a@ == b@),
{
    if a.len() != b.len() {
        return false;
    }
    let mut i: usize = 0;
    while i < a.len()
        invariant
            a@.len() == b@.len(),
            i <= a@.len(),
            forall|k: int| 0 <= k < i ==> a@[k] == b@[k],
        decreases a@.len() - i,
    {
        if a[i] != b[i] {
            return false;
        }
        i += 1;
    }
    assert(a@ =~= b@);
    true
}

/// Whether two string slices hold the same characters.
pub fn str_equal(a: &str, b: &str) -> (r: bool)
    ensures
        r == (a@ == b@),
{
    let x = chars_of(a);
    let y = chars_of(b);
    chars_equal(x.as_slice(), y.as_slice())
}

// ---------------------------------------------------------------- trimming

pub open spec fn trim_start_spec(s: Seq<char>) -> Seq<char>
    decreases s.len(),
{
    if s.len() > 0 && is_white_space(s[0]) {
        trim_start_spec(s.drop_first())
    } else {
        s
    }
}

pub open spec fn trim_end_spec(s: Seq<char>) -> Seq<char>
    decreases s.len(),
{
    if s.len() > 0 && is_white_space(s.last()) {
        trim_end_spec(s.drop_last())
    } else {
        s
    }
}

/// `str::trim`: white space removed from both ends.
pub open spec fn trim_spec(s: Seq<char>) -> Seq<char> {
    trim_end_spec(trim_start_spec(s))
}

/// `str::trim_start`.
pub fn trim_start(s: &[char]) -> (r: Vec<char>)
    ensures
        r@ == trim_start_spec(s@),
{
    let mut i: usize = 0;
    assert(s@.skip(0) == s@);
    while i < s.len() && is_white_space_char(s[i])
        invariant
            i <= s@.len(),
            trim_start_spec(s@.skip(i as int)) == trim_start_spec(s@),
        decreases s@.len() - i,
    {
        assert(s@.skip(i as int).drop_first() == s@.skip(i + 1));
        i += 1;
    }
    let mut r: Vec<char> = Vec::new();
    let mut j: usize = i;
    while j < s.len()
        invariant
            i <= j <= s@.len(),
            r@ == s@.subrange(i as int, j as int),
        decreases s@.len() - j,
    {
        r.push(s[j]);
        assert(s@.subrange(i as int, j + 1) == s@.subrange(i as int, j as int).push(s@[j as int]));
        j += 1;
    }
    assert(s@.skip(i as int) == s@.subrange(i as int, s@.len() as int));
    r
}

/// `str::trim_end`.
pub fn trim_end(s: &[char]) -> (r: Vec<char>)
    ensures
        r@ == trim_end_spec(s@),
{
    let mut j: usize = s.len();
    assert(s@.take(s@.len() as int) == s@);
    while j > 0 && is_white_space_char(s[j - 1])
        invariant
            j <= s@.len(),
            trim_end_spec(s@.take(j as int)) == trim_end_spec(s@),
        decreases j,
    {
        assert(s@.take(j as int).drop_last() == s@.take(j - 1));
        j -= 1;
    }
    let mut r: Vec<char> = Vec::new();
    let mut k: usize = 0;
    while k < j
        invariant
            k <= j <= s@.len(),
            r@ == s@.take(k as int),
        decreases j - k,
    {
        r.push(s[k]);
        assert(s@.take(k + 1) == s@.take(k as int).push(s@[k as int]));
        k += 1;
    }
    assert(s@.take(s@.len() as int) == s@);
    r
}

/// `str::trim`.
pub fn trim(s: &[char]) -> (r: Vec<char>)
    ensures
        r@ == trim_spec(s@),
{
    let front = trim_start(s);
    trim_end(front.as_slice())
}

// ---------------------------------------------------------------- digits

pub open spec fn is_ascii_digit(c: char) -> bool {
    48 <= (c as u32) && (c as u32) <= 57
}

pub open spec fn digit_of(c: char) -> nat {
    ((c as u32) - 48) as nat
}

pub open spec fn all_digits(s: Seq<char>) -> bool {
    forall|i: int| 0 <= i < s.len() ==> #[trigger] is_ascii_digit(s[i])
}

/// The value of a string of decimal digits.
pub open spec fn digits_value(s: Seq<char>) -> nat
    decreases s.len(),
{
    if s.len() == 0 {
        0
    } else {
        digits_value(s.drop_last()) * 10 + digit_of(s.last())
    }
}

/// `u64::from_str`: an optional `+` followed by at least one decimal digit, in range.
pub open spec fn parse_u64_spec(s: Seq<char>) -> Option<u64> {
    let d = if s.len() > 0 && s[0] == '+' {
        s.drop_first()
    } else {
        s
    };
    if d.len() > 0 && all_digits(d) && digits_value(d) <= u64::MAX {
        Some(digits_value(d) as u64)
    } else {
        None
    }
}

/// A prefix of a digit string is worth no more than the whole string.
proof fn lemma_digits_value_prefix(s: Seq<char>, k: int)
    requires
        0 <= k <= s.len(),
    ensures
        digits_value(s.take(k)) <= digits_value(s),
    decreases s.len(),
{
    if k < s.len() {
        lemma_digits_value_prefix(s.drop_last(), k);
        assert(s.drop_last().take(k) == s.take(k));
    } else {
        assert(s.take(k) == s);
    }
}

/// `str::parse::<u64>`, returning `None` where the standard parser returns an error.
pub fn parse_u64(s: &[char]) -> (r: Option<u64>)
    ensures
        r == parse_u64_spec(s@),
{
    let start: usize = if s.len() > 0 && s[0] == '+' {
        1
    } else {
        0
    };
    let ghost d = if s@.len() > 0 && s@[0] == '+' {
        s@.drop_first()
    } else {
        s@
    };
    assert(d == s@.skip(start as int));
    if start >= s.len() {
        return None;
    }
    let mut acc: u64 = 0;
    let mut i: usize = start;
    while i < s.len()
        invariant
            start <= i <= s@.len(),
            d == s@.skip(start as int),
            d == (if s@.len() > 0 && s@[0] == '+' {
                s@.drop_first()
            } else {
                s@
            }),
            d.len() > 0,
            acc == digits_value(d.take(i - start)),
            all_digits(d.take(i - start)),
        decreases s@.len() - i,
    {
        let c = s[i];
        let ghost k = i - start;
        assert(d[k] == c);
        let cv = c as u32;
        if !(48 <= cv && cv <= 57) {
            assert(!all_digits(d)) by {
                assert(!is_ascii_digit(d[k]));
            }
            return None;
        }
        let digit = (cv - 48) as u64;
        assert(d.take(k + 1).drop_last() == d.take(k));
        assert(d.take(k + 1).last() == c);
        if acc > (u64::MAX - digit) / 10 {
            proof {
                assert(digits_value(d.take(k + 1)) == acc * 10 + digit);
                assert(acc * 10 + digit > u64::MAX) by (nonlinear_arith)
                    requires
                        acc > (u64::MAX - digit) / 10,
                        digit <= 9,
                ;
                lemma_digits_value_prefix(d, k + 1);
            }
            return None;
        }
        assert(acc * 10 + digit <= u64::MAX) by (nonlinear_arith)
            requires
                acc <= (u64::MAX - digit) / 10,
                digit <= 9,
        ;
        acc = acc * 10 + digit;
        assert(all_digits(d.take(k + 1))) by {
            assert forall|j: int| 0 <= j < k + 1 implies #[trigger] is_ascii_digit(
                d.take(k + 1)[j],
            ) by {
                if j < k {
                    assert(d.take(k + 1)[j] == d.take(k)[j]);
                }
            }
        }
        i += 1;
    }
    assert(d.take(i - start) == d);
    Some(acc)
}

pub open spec fn digit_char(d: nat) -> char {
    (d + 48) as char
}

/// The decimal text of a number, as `u64`'s `Display` writes it.
pub open spec fn decimal_spec(n: nat) -> Seq<char>
    decreases n,
{
    if n < 10 {
        seq![digit_char(n)]
    } else {
        decimal_spec(n / 10).push(digit_char(n % 10))
    }
}

/// Appends the decimal text of `n` to `v`.
pub fn push_decimal(v: &mut Vec<char>, n: u64)
    ensures
        final(v)@ == old(v)@ + decimal_spec(n as nat),
    decreases n,
{
    if n >= 10 {
        push_decimal(v, n / 10);
    }
    let c = char_from_digit((n % 10) as u8);
    v.push(c);
    assert(old(v)@ + decimal_spec(n as nat) =~= (if n >= 10 {
        old(v)@ + decimal_spec((n / 10) as nat)
    } else {
        old(v)@
    }).push(c));
}

/// The ASCII digit for a value below ten.
pub fn char_from_digit(d: u8) -> (c: char)
    requires
        d < 10,
    ensures
        c == digit_char(d as nat),
{
    match d {
        0 => '0',
        1 => '1',
        2 => '2',
        3 => '3',
        4 => '4',
        5 => '5',
        6 => '6',
        7 => '7',
        8 => '8',
        _ => '9',
    }
}

/// The decimal text of a number is a non-empty string of digits worth that number.
proof fn lemma_decimal_digits(n: nat)
    ensures
        all_digits(decimal_spec(n)),
        digits_value(decimal_spec(n)) == n,
        decimal_spec(n).len() > 0,
        decimal_spec(n)[0] != '+',
    decreases n,
{
    let d = digit_char(n % 10);
    assert((n % 10 + 48) as char as u32 == n % 10 + 48);
    assert(decimal_spec(n).last() == d);
    assert(digit_of(d) == n % 10);
    assert(n == (n / 10) * 10 + n % 10);
    if n < 10 {
        assert(decimal_spec(n).drop_last() =~= Seq::<char>::empty());
        assert(digits_value(Seq::<char>::empty()) == 0);
        assert(digits_value(decimal_spec(n)) == digits_value(decimal_spec(n).drop_last()) * 10
            + digit_of(d));
    } else {
        lemma_decimal_digits(n / 10);
        let front = decimal_spec(n / 10);
        assert(decimal_spec(n).drop_last() == front);
        assert forall|i: int| 0 <= i < decimal_spec(n).len() implies #[trigger] is_ascii_digit(
            decimal_spec(n)[i],
        ) by {
            if i < front.len() {
                assert(decimal_spec(n)[i] == front[i]);
                assert(is_ascii_digit(front[i]));
            }
        }
        assert(decimal_spec(n)[0] == front[0]);
        assert(digits_value(decimal_spec(n)) == digits_value(front) * 10 + digit_of(d));
    }
}

/// Reading back the decimal text of a number gives the number.
pub proof fn law_decimal_round_trip(n: u64)
    ensures
        parse_u64_spec(decimal_spec(n as nat)) == Some(n),
{
    lemma_decimal_digits(n as nat);
}

// ---------------------------------------------------------------- splitting

/// The character sequences held by a list of character vectors.
pub open spec fn rows(v: Seq<Vec<char>>) -> Seq<Seq<char>> {
    Seq::new(v.len(), |i: int| v[i]@)
}

/// `str::split` on a single character: the pieces between separators, empty ones kept.
pub open spec fn split_spec(s: Seq<char>, sep: char) -> Seq<Seq<char>>
    decreases s.len(),
{
    if s.len() == 0 {
        seq![Seq::<char>::empty()]
    } else {
        let front = split_spec(s.drop_last(), sep);
        if s.last() == sep {
            front.push(Seq::<char>::empty())
        } else {
            front.update(front.len() - 1, front.last().push(s.last()))
        }
    }
}

/// Splitting always gives at least one piece.
proof fn lemma_split_nonempty(s: Seq<char>, sep: char)
    ensures
        split_spec(s, sep).len() >= 1,
    decreases s.len(),
{
    if s.len() > 0 {
        lemma_split_nonempty(s.drop_last(), sep);
    }
}

/// Splits at each occurrence of `sep`.
pub fn split_chars(s: &[char], sep: char) -> (r: Vec<Vec<char>>)
    ensures
        rows(r@) == split_spec(s@, sep),
{
    let mut done: Vec<Vec<char>> = Vec::new();
    let mut current: Vec<char> = Vec::new();
    let mut i: usize = 0;
    while i < s.len()
        invariant
            i <= s@.len(),
            rows(done@).push(current@) == split_spec(s@.take(i as int), sep),
        decreases s@.len() - i,
    {
        let c = s[i];
        proof {
            lemma_split_nonempty(s@.take(i as int), sep);
            assert(s@.take(i + 1).drop_last() == s@.take(i as int));
            assert(s@.take(i + 1).last() == c);
        }
        if c == sep {
            let finished = current;
            done.push(finished);
            current = Vec::new();
            assert(rows(done@).push(current@) =~= split_spec(s@.take(i + 1), sep));
        } else {
            let ghost before = rows(done@).push(current@);
            current.push(c);
            assert(rows(done@).push(current@) =~= before.update(
                before.len() - 1,
                before.last().push(c),
            ));
        }
        i += 1;
    }
    assert(s@.take(s@.len() as int) == s@);
    let ghost before = rows(done@);
    done.push(current);
    assert(rows(done@) =~= before.push(current@));
    done
}

// ---------------------------------------------------------------- joining

/// `[String]::join`: the pieces with `sep` between neighbours.
pub open spec fn join_spec(parts: Seq<Seq<char>>, sep: Seq<char>) -> Seq<char>
    decreases parts.len(),
{
    if parts.len() == 0 {
        Seq::empty()
    } else if parts.len() == 1 {
        parts[0]
    } else {
        join_spec(parts.drop_last(), sep) + sep + parts.last()
    }
}

/// Joins the pieces with `sep` between neighbours.
pub fn join_chars(parts: &Vec<Vec<char>>, sep: &[char]) -> (r: Vec<char>)
    ensures
        r@ == join_spec(rows(parts@), sep@),
{
    let mut r: Vec<char> = Vec::new();
    let mut i: usize = 0;
    while i < parts.len()
        invariant
            i <= parts@.len(),
            r@ == join_spec(rows(parts@).take(i as int), sep@),
        decreases parts@.len() - i,
    {
        let ghost pv = rows(parts@);
        assert(pv.take(i + 1).drop_last() == pv.take(i as int));
        assert(pv.take(i + 1).last() == parts@[i as int]@);
        if i > 0 {
            extend_chars(&mut r, sep);
        } else {
            assert(pv.take(1).len() == 1);
        }
        extend_chars(&mut r, parts[i].as_slice());
        i += 1;
    }
    assert(rows(parts@).take(parts@.len() as int) == rows(parts@));
    r
}

// ---------------------------------------------------------------- prefixes

pub open spec fn starts_with_spec(s: Seq<char>, prefix: Seq<char>) -> bool {
    s.len() >= prefix.len() && s.take(prefix.len() as int) == prefix
}

/// `str::strip_prefix`.
pub fn strip_prefix(s: &[char], prefix: &[char]) -> (r: Option<Vec<char>>)
    ensures
        r is Some <==> starts_with_spec(s@, prefix@),
        r matches Some(rest) ==> rest@ == s@.skip(prefix@.len() as int),
{
    if s.len() < prefix.len() {
        return None;
    }
    let mut i: usize = 0;
    while i < prefix.len()
        invariant
            prefix@.len() <= s@.len(),
            i <= prefix@.len(),
            forall|k: int| 0 <= k < i ==> s@[k] == prefix@[k],
        decreases prefix@.len() - i,
    {
        if s[i] != prefix[i] {
            assert(s@.take(prefix@.len() as int)[i as int] != prefix@[i as int]);
            return None;
        }
        i += 1;
    }
    assert(s@.take(prefix@.len() as int) =~= prefix@);
    let mut rest: Vec<char> = Vec::new();
    let mut j: usize = prefix.len();
    while j < s.len()
        invariant
            prefix@.len() <= j <= s@.len(),
            rest@ == s@.subrange(prefix@.len() as int, j as int),
        decreases s@.len() - j,
    {
        rest.push(s[j]);
        assert(s@.subrange(prefix@.len() as int, j + 1) == s@.subrange(
            prefix@.len() as int,
            j as int,
        ).push(s@[j as int]));
        j += 1;
    }
    assert(s@.skip(prefix@.len() as int) == s@.subrange(prefix@.len() as int, s@.len() as int));
    Some(rest)
}

// ---------------------------------------------------------------- ASCII case

pub open spec fn ascii_lower(c: char) -> char {
    if 65 <= (c as u32) && (c as u32) <= 90 {
        ((c as u32) + 32) as char
    } else {
        c
    }
}

pub open spec fn ascii_lower_seq(s: Seq<char>) -> Seq<char> {
    Seq::new(s.len(), |i: int| ascii_lower(s[i]))
}

/// `str::eq_ignore_ascii_case`.
pub open spec fn eq_ignore_ascii_case_spec(a: Seq<char>, b: Seq<char>) -> bool {
    ascii_lower_seq(a) == ascii_lower_seq(b)
}

/// `char::to_ascii_lowercase`.
pub fn to_ascii_lower(c: char) -> (r: char)
    ensures
        r == ascii_lower(c),
{
    let v = c as u32;
    if 65 <= v && v <= 90 {
        char_from_ascii_upper(c)
    } else {
        c
    }
}

fn char_from_ascii_upper(c: char) -> (r: char)
    requires
        65 <= (c as u32) <= 90,
    ensures
        r == ((c as u32) + 32) as char,
{
    let v = c as u32;
    let b = (v + 32) as u8;
    let r = b as char;
    assert(r as u32 == v + 32);
    r
}

/// `str::to_ascii_lowercase`.
pub fn to_ascii_lowercase(s: &[char]) -> (r: Vec<char>)
    ensures
        r@ == ascii_lower_seq(s@),
{
    let mut r: Vec<char> = Vec::new();
    let mut i: usize = 0;
    while i < s.len()
        invariant
            i <= s@.len(),
            r@ == ascii_lower_seq(s@.take(i as int)),
        decreases s@.len() - i,
    {
        r.push(to_ascii_lower(s[i]));
        assert(ascii_lower_seq(s@.take(i + 1)) =~= ascii_lower_seq(s@.take(i as int)).push(
            ascii_lower(s@[i as int]),
        ));
        i += 1;
    }
    assert(s@.take(s@.len() as int) == s@);
    r
}

/// `str::eq_ignore_ascii_case`.
pub fn eq_ignore_ascii_case(a: &[char], b: &[char]) -> (r: bool)
    ensures
        r == eq_ignore_ascii_case_spec(a@, b@),
{
    let x = to_ascii_lowercase(a);
    let y = to_ascii_lowercase(b);
    let r = chars_equal(x.as_slice(), y.as_slice());
    r
}


// ---------------------------------------------------------------- argument lists

/// The character sequences held by a list of strings.
pub open spec fn string_rows(v: Seq<String>) -> Seq<Seq<char>> {
    Seq::new(v.len(), |i: int| v[i]@)
}

/// Appends a copy of a string slice to a list of strings.
pub fn push_str_to(v: &mut Vec<String>, s: &str)
    ensures
        string_rows(final(v)@) == string_rows(old(v)@).push(s@),
{
    v.push(s.to_owned());
    assert(string_rows(v@) =~= string_rows(old(v)@).push(s@));
}

/// Appends the given characters, as a string, to a list of strings.
pub fn push_chars_to(v: &mut Vec<String>, s: &[char])
    ensures
        string_rows(final(v)@) == string_rows(old(v)@).push(s@),
{
    v.push(string_of(s));
    assert(string_rows(v@) =~= string_rows(old(v)@).push(s@));
}

// ---------------------------------------------------------------- replacing

/// `str::replace` with an empty pattern: the replacement before every character and at the end.
pub open spec fn replace_empty_spec(s: Seq<char>, to: Seq<char>) -> Seq<char>
    decreases s.len(),
{
    if s.len() == 0 {
        to
    } else {
        to + seq![s[0]] + replace_empty_spec(s.drop_first(), to)
    }
}

/// `str::replace`: every non-overlapping occurrence of `from`, left to right, replaced by `to`.
pub open spec fn replace_spec(s: Seq<char>, from: Seq<char>, to: Seq<char>) -> Seq<char>
    decreases s.len(),
{
    if from.len() == 0 {
        replace_empty_spec(s, to)
    } else if s.len() < from.len() {
        s
    } else if s.take(from.len() as int) == from {
        to + replace_spec(s.skip(from.len() as int), from, to)
    } else {
        seq![s[0]] + replace_spec(s.drop_first(), from, to)
    }
}

/// Whether `from` occurs in `s` at position `i`.
fn occurs_at(s: &[char], from: &[char], i: usize) -> (r: bool)
    requires
        i <= s@.len(),
    ensures
        r == (s@.len() - i >= from@.len() && s@.skip(i as int).take(from@.len() as int) == from@),
{
    if s.len() - i < from.len() {
        return false;
    }
    let limit = s.len();
    let mut k: usize = 0;
    while k < from.len()
        invariant
            limit == s@.len(),
            i <= s@.len(),
            i + from@.len() <= s@.len(),
            k <= from@.len(),
            forall|j: int| 0 <= j < k ==> s@[i + j] == from@[j],
        decreases from@.len() - k,
    {
        if s[i + k] != from[k] {
            assert(s@.skip(i as int).take(from@.len() as int)[k as int] != from@[k as int]);
            return false;
        }
        k += 1;
    }
    assert(s@.skip(i as int).take(from@.len() as int) =~= from@);
    true
}

/// `str::replace`.
pub fn replace_chars(s: &[char], from: &[char], to: &[char]) -> (r: Vec<char>)
    ensures
        r@ == replace_spec(s@, from@, to@),
{
    let mut out: Vec<char> = Vec::new();
    let mut i: usize = 0;
    assert(s@.skip(0) == s@);
    if from.len() == 0 {
        while i < s.len()
            invariant
                from@.len() == 0,
                i <= s@.len(),
                out@ + replace_empty_spec(s@.skip(i as int), to@) == replace_spec(s@, from@, to@),
            decreases s@.len() - i,
        {
            let ghost rest = s@.skip(i as int);
            assert(rest.drop_first() == s@.skip(i + 1));
            assert(rest[0] == s@[i as int]);
            let ghost before = out@;
            extend_chars(&mut out, to);
            out.push(s[i]);
            assert(out@ + replace_empty_spec(s@.skip(i + 1), to@) =~= before + (to@ + seq![rest[0]]
                + replace_empty_spec(rest.drop_first(), to@)));
            i += 1;
        }
        extend_chars(&mut out, to);
        return out;
    }
    while i < s.len()
        invariant
            from@.len() > 0,
            i <= s@.len(),
            out@ + replace_spec(s@.skip(i as int), from@, to@) == replace_spec(s@, from@, to@),
        decreases s@.len() - i,
    {
        let ghost rest = s@.skip(i as int);
        if occurs_at(s, from, i) {
            assert(rest.skip(from@.len() as int) == s@.skip(i + from@.len()));
            let ghost before = out@;
            extend_chars(&mut out, to);
            assert(out@ + replace_spec(s@.skip(i + from@.len()), from@, to@) =~= before + (to@
                + replace_spec(rest.skip(from@.len() as int), from@, to@)));
            i += from.len();
        } else {
            assert(rest.drop_first() == s@.skip(i + 1));
            assert(rest[0] == s@[i as int]);
            let ghost before = out@;
            out.push(s[i]);
            assert(out@ + replace_spec(s@.skip(i + 1), from@, to@) =~= before + (seq![rest[0]]
                + replace_spec(rest.drop_first(), from@, to@)));
            i += 1;
        }
    }
    assert(s@.skip(i as int) =~= Seq::<char>::empty());
    assert(out@ + Seq::<char>::empty() =~= out@);
    out
}

/// The `n` characters of `s` from position `i`.
pub open spec fn window(s: Seq<char>, i: int, n: nat) -> Seq<char> {
    s.subrange(i, i + n)
}

/// Whether `u` occurs in `s`.
pub open spec fn occurs_in(s: Seq<char>, u: Seq<char>) -> bool {
    exists|i: int| 0 <= i && i + u.len() <= s.len() && #[trigger] window(s, i, u.len()) == u
}

/// The first `k` characters of a replacement are those of the input, unless the first
/// character of the replacement text stands among them.
proof fn lemma_replace_prefix(s: Seq<char>, from: Seq<char>, to: Seq<char>, k: int)
    requires
        from.len() > 0,
        to.len() > 0,
        0 <= k <= s.len(),
        k <= replace_spec(s, from, to).len(),
    ensures
        replace_spec(s, from, to).take(k) == s.take(k) || exists|j: int|
            0 <= j < k && #[trigger] replace_spec(s, from, to)[j] == to[0],
    decreases s.len(),
{
    let out = replace_spec(s, from, to);
    if s.len() < from.len() || k == 0 {
        assert(out.take(k) =~= s.take(k));
    } else if s.take(from.len() as int) == from {
        assert(out[0] == to[0]);
    } else {
        let rest = replace_spec(s.drop_first(), from, to);
        lemma_replace_prefix(s.drop_first(), from, to, k - 1);
        assert(out =~= seq![s[0]] + rest);
        if rest.take(k - 1) == s.drop_first().take(k - 1) {
            assert forall|j: int| 0 <= j < k implies out.take(k)[j] == s.take(k)[j] by {
                if j > 0 {
                    assert(rest.take(k - 1)[j - 1] == s.drop_first().take(k - 1)[j - 1]);
                }
            }
            assert(out.take(k) =~= s.take(k));
        } else {
            let j = choose|j: int| 0 <= j < k - 1 && #[trigger] rest[j] == to[0];
            assert(out[j + 1] == to[0]);
        }
    }
}

/// After every occurrence of `from` is replaced by `to`, `from` occurs nowhere, provided it
/// contains neither the first nor the last character of `to` and does not occur in `to`.
pub proof fn lemma_replace_leaves_no_occurrence(s: Seq<char>, from: Seq<char>, to: Seq<char>)
    requires
        from.len() > 0,
        to.len() > 0,
        forall|j: int| 0 <= j < from.len() ==> #[trigger] from[j] != to[0] && from[j] != to.last(),
        !occurs_in(to, from),
    ensures
        !occurs_in(replace_spec(s, from, to), from),
    decreases s.len(),
{
    let n = from.len();
    let out = replace_spec(s, from, to);
    if s.len() < n {
    } else if s.take(n as int) == from {
        let rest = replace_spec(s.skip(n as int), from, to);
        lemma_replace_leaves_no_occurrence(s.skip(n as int), from, to);
        assert(out =~= to + rest);
        if occurs_in(out, from) {
            let i = choose|i: int|
                0 <= i && i + from.len() <= out.len() && #[trigger] window(out, i, from.len())
                    == from;
            if i + n <= to.len() {
                assert(window(to, i, n) =~= window(out, i, n));
            } else if i < to.len() {
                let j = to.len() - 1 - i;
                assert(window(out, i, n)[j] == out[to.len() - 1]);
                assert(from[j] == to.last());
            } else {
                assert(window(rest, i - to.len(), n) =~= window(out, i, n));
            }
        }
    } else {
        let rest = replace_spec(s.drop_first(), from, to);
        lemma_replace_leaves_no_occurrence(s.drop_first(), from, to);
        assert(out =~= seq![s[0]] + rest);
        if occurs_in(out, from) {
            let i = choose|i: int|
                0 <= i && i + from.len() <= out.len() && #[trigger] window(out, i, from.len())
                    == from;
            if i == 0 {
                lemma_replace_prefix(s, from, to, n as int);
                assert(window(out, 0, n) =~= out.take(n as int));
                if out.take(n as int) != s.take(n as int) {
                    let j = choose|j: int| 0 <= j < n && #[trigger] out[j] == to[0];
                    assert(window(out, 0, n)[j] == out[j]);
                    assert(from[j] == to[0]);
                }
            } else {
                assert(window(rest, i - 1, n) =~= window(out, i, n));
            }
        }
    }
}

/// Pieces joined by line breaks hold `u` only where a piece holds it, when `u` has no line
/// break of its own.
pub proof fn lemma_join_lines_no_occurrence(parts: Seq<Seq<char>>, u: Seq<char>)
    requires
        u.len() > 0,
        forall|j: int| 0 <= j < u.len() ==> #[trigger] u[j] != '\n',
        forall|k: int| 0 <= k < parts.len() ==> !occurs_in(#[trigger] parts[k], u),
    ensures
        !occurs_in(join_spec(parts, "\n"@), u),
    decreases parts.len(),
{
    reveal_strlit("\n");
    let n = u.len();
    if parts.len() == 0 {
    } else if parts.len() == 1 {
        assert(!occurs_in(parts[0], u));
    } else {
        let front = join_spec(parts.drop_last(), "\n"@);
        let last = parts.last();
        assert forall|k: int| 0 <= k < parts.drop_last().len() implies !occurs_in(
            #[trigger] parts.drop_last()[k],
            u,
        ) by {
            assert(parts.drop_last()[k] == parts[k]);
        }
        lemma_join_lines_no_occurrence(parts.drop_last(), u);
        assert(!occurs_in(parts[parts.len() - 1], u));
        let out = join_spec(parts, "\n"@);
        assert(out == front + "\n"@ + last);
        if occurs_in(out, u) {
            let i = choose|i: int|
                0 <= i && i + u.len() <= out.len() && #[trigger] window(out, i, u.len()) == u;
            if i + n <= front.len() {
                assert(window(front, i, n) =~= window(out, i, n));
            } else if i > front.len() {
                assert(window(last, i - front.len() - 1, n) =~= window(out, i, n));
            } else {
                let j = front.len() - i;
                assert(window(out, i, n)[j] == out[front.len() as int]);
                assert(u[j] == '\n');
            }
        }
    }
}

// ---------------------------------------------------------------- trailing characters

/// `str::trim_end_matches` with a single character.
pub open spec fn trim_end_char_spec(s: Seq<char>, c: char) -> Seq<char>
    decreases s.len(),
{
    if s.len() > 0 && s.last() == c {
        trim_end_char_spec(s.drop_last(), c)
    } else {
        s
    }
}

/// `str::trim_start_matches` with a single character.
pub open spec fn trim_start_char_spec(s: Seq<char>, c: char) -> Seq<char>
    decreases s.len(),
{
    if s.len() > 0 && s[0] == c {
        trim_start_char_spec(s.drop_first(), c)
    } else {
        s
    }
}

/// `str::trim_end_matches(c)`.
pub fn trim_end_char(s: &[char], c: char) -> (r: Vec<char>)
    ensures
        r@ == trim_end_char_spec(s@, c),
{
    let mut j: usize = s.len();
    assert(s@.take(s@.len() as int) == s@);
    while j > 0 && s[j - 1] == c
        invariant
            j <= s@.len(),
            trim_end_char_spec(s@.take(j as int), c) == trim_end_char_spec(s@, c),
        decreases j,
    {
        assert(s@.take(j as int).drop_last() == s@.take(j - 1));
        j -= 1;
    }
    let mut r: Vec<char> = Vec::new();
    let mut k: usize = 0;
    while k < j
        invariant
            k <= j <= s@.len(),
            r@ == s@.take(k as int),
        decreases j - k,
    {
        r.push(s[k]);
        assert(s@.take(k + 1) == s@.take(k as int).push(s@[k as int]));
        k += 1;
    }
    r
}

/// `str::trim_start_matches(c)`.
pub fn trim_start_char(s: &[char], c: char) -> (r: Vec<char>)
    ensures
        r@ == trim_start_char_spec(s@, c),
{
    let mut i: usize = 0;
    assert(s@.skip(0) == s@);
    while i < s.len() && s[i] == c
        invariant
            i <= s@.len(),
            trim_start_char_spec(s@.skip(i as int), c) == trim_start_char_spec(s@, c),
        decreases s@.len() - i,
    {
        assert(s@.skip(i as int).drop_first() == s@.skip(i + 1));
        i += 1;
    }
    let mut r: Vec<char> = Vec::new();
    let mut j: usize = i;
    while j < s.len()
        invariant
            i <= j <= s@.len(),
            r@ == s@.subrange(i as int, j as int),
        decreases s@.len() - j,
    {
        r.push(s[j]);
        assert(s@.subrange(i as int, j + 1) == s@.subrange(i as int, j as int).push(s@[j as int]));
        j += 1;
    }
    assert(s@.skip(i as int) == s@.subrange(i as int, s@.len() as int));
    r
}


// ---------------------------------------------------------------- debug quoting

/// What `format!("{:?}", text)` writes for a string: the text quoted, with escapes.
pub uninterp spec fn debug_text(text: Seq<char>) -> Seq<char>;

/// A character that `Debug` writes as it is inside a quoted string: printable ASCII other
/// than `"` and `\\`.
pub open spec fn is_plain_debug_char(c: char) -> bool {
    0x20 <= c as u32 && c as u32 <= 0x7e && c != '"' && c != '\\'
}

/// Whether every character of a text is one that `Debug` writes as it is.
pub open spec fn is_plain_debug_text(text: Seq<char>) -> bool {
    forall|i: int| 0 <= i < text.len() ==> #[trigger] is_plain_debug_char(text[i])
}

/// A text between double quotes.
pub open spec fn quoted(text: Seq<char>) -> Seq<char> {
    seq!['"'] + text + seq!['"']
}

/// A string in its `Debug` form (`format!("{:?}", text)`).
///
/// The result is named by [`debug_text`]; the contract also states that it is quoted, and
/// that a text of printable ASCII without `"` or `\\` is written between the quotes as it is
/// (escapes, which take Unicode tables to describe, are left to the name).
#[verifier::external_body]
pub(crate) fn debug_quoted(text: &str) -> (r: String)
    ensures
        r@ == debug_text(text@),
        r@.len() >= 2 && r@[0] == '"' && r@.last() == '"',
        is_plain_debug_text(text@) ==> r@ == quoted(text@),
{
    format!("{:?}", text)
}

} // verus!
