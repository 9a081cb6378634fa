//! Text primitives: trimming, ASCII case, searching, splitting, and decimal
//! integers. A text is modelled by its sequence of characters.

use vstd::prelude::*;

verus! {

// ── characters ──

/// The characters with the Unicode property `White_Space`.
pub open spec fn is_space(c: char) -> bool {
    let n = c as u32;
    ||| 0x09 <= n <= 0x0d
    ||| n == 0x20
    ||| n == 0x85
    ||| n == 0xa0
    ||| n == 0x1680
    ||| 0x2000 <= n <= 0x200a
    ||| n == 0x2028
    ||| n == 0x2029
    ||| n == 0x202f
    ||| n == 0x205f
    ||| n == 0x3000
}

pub open spec fn is_digit(c: char) -> bool {
    48 <= c as u32 <= 57
}

pub open spec fn lower_char(c: char) -> char {
    if 65 <= c as u32 <= 90 {
        (c as u32 + 32) as char
    } else {
        c
    }
}

pub open spec fn upper_char(c: char) -> char {
    if 97 <= c as u32 <= 122 {
        (c as u32 - 32) as char
    } else {
        c
    }
}

pub fn char_is_space(c: char) -> (r: bool)
    ensures
        r == is_space(c),
{
    let n: u32 = c as u32;
    (0x09 <= n && n <= 0x0d) || n == 0x20 || n == 0x85 || n == 0xa0 || n == 0x1680 || (0x2000 <= n
        && n <= 0x200a) || n == 0x2028 || n == 0x2029 || n == 0x202f || n == 0x205f || n == 0x3000
}

fn char_to_lower(c: char) -> (r: char)
    ensures
        r == lower_char(c),
{
    let n: u32 = c as u32;
    if 65 <= n && n <= 90 {
        ((n + 32) as u8) as char
    } else {
        c
    }
}

fn char_to_upper(c: char) -> (r: char)
    ensures
        r == upper_char(c),
{
    let n: u32 = c as u32;
    if 97 <= n && n <= 122 {
        ((n - 32) as u8) as char
    } else {
        c
    }
}

// ── whole texts ──

/// `s` with its ASCII letters in lower case.
pub open spec fn lower_text(s: Seq<char>) -> Seq<char> {
    s.map_values(|c: char| lower_char(c))
}

/// `s` with its ASCII letters in upper case.
pub open spec fn upper_text(s: Seq<char>) -> Seq<char> {
    s.map_values(|c: char| upper_char(c))
}

pub open spec fn all_ascii(s: Seq<char>) -> bool {
    forall|i: int| 0 <= i < s.len() ==> (#[trigger] s[i]) as u32 <= 127
}

/// `needle` stands somewhere in `s`.
pub open spec fn contains_text(s: Seq<char>, needle: Seq<char>) -> bool {
    exists|i: int|
        0 <= i <= s.len() - needle.len() && #[trigger] s.subrange(i, i + needle.len()) == needle
}

pub open spec fn trim_start(s: Seq<char>) -> Seq<char>
    decreases s.len(),
{
    if s.len() > 0 && is_space(s.first()) {
        trim_start(s.drop_first())
    } else {
        s
    }
}

pub open spec fn trim_end(s: Seq<char>) -> Seq<char>
    decreases s.len(),
{
    if s.len() > 0 && is_space(s.last()) {
        trim_end(s.drop_last())
    } else {
        s
    }
}

/// `s` without white space at either end.
pub open spec fn trimmed(s: Seq<char>) -> Seq<char> {
    trim_end(trim_start(s))
}

pub fn chars_of(s: &str) -> (r: Vec<char>)
    ensures
        r@ == s@,
{
    let mut out: Vec<char> = Vec::new();
    for c in it: s.chars()
        invariant
            out@ == it.seq().take(it.index()),
            it.seq() == s@,
    {
        out.push(c);
    }
    out
}

pub fn text_eq(a: &str, b: &str) -> (r: bool)
    ensures
        r == (a@ == b@),
{
    let x: Vec<char> = chars_of(a);
    let y: Vec<char> = chars_of(b);
    chars_eq(&x, &y)
}

fn chars_eq(x: &Vec<char>, y: &Vec<char>) -> (r: bool)
    ensures
        r == (x@ == y@),
{
    if x.len() != y.len() {
        return false;
    }
    let mut i: usize = 0;
    while i < x.len()
        invariant
            x.len() == y.len(),
            i <= x.len(),
            forall|j: int| 0 <= j < i ==> x[j] == y[j],
        decreases x.len() - i,
    {
        if x[i] != y[i] {
            return false;
        }
        i = i + 1;
    }
    assert(x@ =~= y@);
    true
}

/// `str::trim`, on the white space of [`is_space`].
pub fn trim(s: &str) -> (r: &str)
    ensures
        r@ == trimmed(s@),
{
    let chars: Vec<char> = chars_of(s);
    let n: usize = chars.len();
    let mut start: usize = 0;
    assert(s@.subrange(0, n as int) =~= s@);
    while start < n && char_is_space(chars[start])
        invariant
            chars@ == s@,
            n == s@.len(),
            start <= n,
            trim_start(s@) == trim_start(s@.subrange(start as int, n as int)),
        decreases n - start,
    {
        assert(s@.subrange(start as int, n as int).drop_first() =~= s@.subrange(
            start + 1,
            n as int,
        ));
        start = start + 1;
    }
    let ghost rest = s@.subrange(start as int, n as int);
    assert(trim_start(s@) == rest);
    let mut stop: usize = n;
    while stop > start && char_is_space(chars[stop - 1])
        invariant
            chars@ == s@,
            start <= stop <= n,
            n == s@.len(),
            trim_end(rest) == trim_end(s@.subrange(start as int, stop as int)),
        decreases stop,
    {
        assert(s@.subrange(start as int, stop as int).drop_last() =~= s@.subrange(
            start as int,
            stop - 1,
        ));
        stop = stop - 1;
    }
    assert(trim_end(rest) == s@.subrange(start as int, stop as int));
    s.substring_char(start, stop)
}

/// Whether `needle` stands in `chars` from position `at` on.
fn stands_at(chars: &Vec<char>, at: usize, needle: &Vec<char>) -> (r: bool)
    requires
        at + needle.len() <= chars.len(),
    ensures
        r == (chars@.subrange(at as int, at + needle@.len()) == needle@),
{
    let ghost window = chars@.subrange(at as int, at + needle@.len());
    let mut i: usize = 0;
    while i < needle.len()
        invariant
            at + needle.len() <= chars.len(),
            window == chars@.subrange(at as int, at + needle@.len()),
            i <= needle.len(),
            forall|j: int| 0 <= j < i ==> window[j] == needle[j],
        decreases needle.len() - i,
    {
        if chars[at + i] != needle[i] {
            assert(window[i as int] != needle@[i as int]);
            return false;
        }
        i = i + 1;
    }
    assert(window =~= needle@);
    true
}

fn chars_contain(chars: &Vec<char>, needle: &Vec<char>) -> (r: bool)
    ensures
        r == contains_text(chars@, needle@),
{
    if needle.len() > chars.len() {
        return false;
    }
    let last: usize = chars.len() - needle.len();
    let mut i: usize = 0;
    while i <= last
        invariant
            last == chars.len() - needle.len(),
            i <= last + 1,
            forall|j: int|
                0 <= j < i ==> #[trigger] chars@.subrange(j, j + needle@.len()) != needle@,
        decreases last + 1 - i,
    {
        if stands_at(chars, i, needle) {
            return true;
        }
        if i == last {
            return false;
        }
        i = i + 1;
    }
    false
}

/// `str::contains` with a text as the pattern.
pub fn contains(s: &str, needle: &str) -> (r: bool)
    ensures
        r == contains_text(s@, needle@),
{
    chars_contain(&chars_of(s), &chars_of(needle))
}

fn lower_chars(s: &str) -> (r: Vec<char>)
    ensures
        r@ == lower_text(s@),
{
    let chars: Vec<char> = chars_of(s);
    let mut out: Vec<char> = Vec::new();
    let mut i: usize = 0;
    while i < chars.len()
        invariant
            chars@ == s@,
            i <= chars.len(),
            out@ == lower_text(s@).take(i as int),
        decreases chars.len() - i,
    {
        out.push(char_to_lower(chars[i]));
        i = i + 1;
        assert(out@ =~= lower_text(s@).take(i as int));
    }
    assert(out@ =~= lower_text(s@));
    out
}

fn upper_chars(s: &str) -> (r: Vec<char>)
    ensures
        r@ == upper_text(s@),
{
    let chars: Vec<char> = chars_of(s);
    let mut out: Vec<char> = Vec::new();
    let mut i: usize = 0;
    while i < chars.len()
        invariant
            chars@ == s@,
            i <= chars.len(),
            out@ == upper_text(s@).take(i as int),
        decreases chars.len() - i,
    {
        out.push(char_to_upper(chars[i]));
        i = i + 1;
        assert(out@ =~= upper_text(s@).take(i as int));
    }
    assert(out@ =~= upper_text(s@));
    out
}

/// `needle` stands in `s` once the ASCII letters of `s` are in lower case.
pub fn contains_ascii_lower(s: &str, needle: &str) -> (r: bool)
    ensures
        r == contains_text(lower_text(s@), needle@),
{
    chars_contain(&lower_chars(s), &chars_of(needle))
}

/// `s`, with its ASCII letters in upper case, is `word`.
pub fn eq_ascii_upper(s: &str, word: &str) -> (r: bool)
    ensures
        r == (upper_text(s@) == word@),
{
    chars_eq(&upper_chars(s), &chars_of(word))
}

/// `str::eq_ignore_ascii_case`.
pub fn eq_ignore_ascii_case(a: &str, b: &str) -> (r: bool)
    ensures
        r == (lower_text(a@) == lower_text(b@)),
{
    chars_eq(&lower_chars(a), &lower_chars(b))
}

/// The text in lower case, by the case mapping of all of Unicode.
pub uninterp spec fn unicode_lower(s: Seq<char>) -> Seq<char>;

/// `str::to_lowercase`. The result is a function of the text alone, and on a
/// text of ASCII characters it is the ASCII mapping. What the mapping is on
/// other characters is not said.
pub assume_specification[ str::to_lowercase ](s: &str) -> (r: String)
    ensures
        r@ == unicode_lower(s@),
        all_ascii(s@) ==> r@ == lower_text(s@),
;

// ── splitting ──

/// The pieces of `s` between the elements that `is_separator` marks.
pub open spec fn pieces<T>(s: Seq<T>, is_separator: spec_fn(T) -> bool) -> Seq<Seq<T>>
    decreases s.len(),
{
    if s.len() == 0 {
        seq![Seq::empty()]
    } else {
        let before = pieces(s.drop_last(), is_separator);
        if is_separator(s.last()) {
            before.push(Seq::empty())
        } else {
            before.drop_last().push(before.last().push(s.last()))
        }
    }
}

/// The views of a list of texts.
pub open spec fn views(texts: Seq<&str>) -> Seq<Seq<char>> {
    texts.map_values(|t: &str| t@)
}

/// What a text is split at.
#[derive(Clone, Copy, PartialEq, Eq, Structural, Debug)]
pub enum Separator {
    /// One character.
    Char(char),
    /// Every character that no integer is written with.
    NonInteger,
}

impl Separator {
    pub open spec fn splits_at(self, c: char) -> bool {
        match self {
            Separator::Char(sep) => c == sep,
            Separator::NonInteger => !is_digit(c) && c != '-',
        }
    }

    fn at(self, c: char) -> (r: bool)
        ensures
            r == self.splits_at(c),
    {
        match self {
            Separator::Char(sep) => c == sep,
            Separator::NonInteger => !(48 <= c as u32 && c as u32 <= 57) && c != '-',
        }
    }
}

/// The pieces of a text at a separator.
pub open spec fn text_pieces(s: Seq<char>, sep: Separator) -> Seq<Seq<char>> {
    pieces(s, |c: char| sep.splits_at(c))
}

/// `str::split`.
pub fn split(s: &str, sep: Separator) -> (r: Vec<&str>)
    ensures
        views(r@) == text_pieces(s@, sep),
{
    let chars: Vec<char> = chars_of(s);
    let n: usize = chars.len();
    let ghost cut = |c: char| sep.splits_at(c);
    let mut out: Vec<&str> = Vec::new();
    let mut start: usize = 0;
    let mut i: usize = 0;
    assert(s@.subrange(0, 0) =~= Seq::<char>::empty());
    assert(views(out@).push(s@.subrange(0, 0)) =~= pieces(s@.take(0), cut));
    while i < n
        invariant
            chars@ == s@,
            n == s@.len(),
            start <= i <= n,
            cut == |c: char| sep.splits_at(c),
            views(out@).push(s@.subrange(start as int, i as int)) == pieces(s@.take(i as int), cut),
        decreases n - i,
    {
        let ghost before = pieces(s@.take(i as int), cut);
        assert(s@.take(i + 1).drop_last() =~= s@.take(i as int));
        if sep.at(chars[i]) {
            let ghost earlier = out@;
            out.push(s.substring_char(start, i));
            assert(views(out@) =~= views(earlier).push(s@.subrange(start as int, i as int)));
            start = i + 1;
            assert(s@.subrange(start as int, i + 1) =~= Seq::<char>::empty());
        } else {
            assert(before.drop_last() =~= views(out@));
            assert(before.last() == s@.subrange(start as int, i as int));
            assert(s@.subrange(start as int, i + 1) =~= before.last().push(s@[i as int]));
        }
        i = i + 1;
    }
    assert(s@.take(n as int) =~= s@);
    let ghost earlier = out@;
    out.push(s.substring_char(start, n));
    assert(views(out@) =~= views(earlier).push(s@.subrange(start as int, n as int)));
    out
}

// ── decimal integers ──

/// The number that a run of digits writes; `None` where another character occurs.
pub open spec fn digits_value(s: Seq<char>) -> Option<nat>
    decreases s.len(),
{
    if s.len() == 0 {
        Some(0)
    } else {
        match digits_value(s.drop_last()) {
            Some(v) => if is_digit(s.last()) {
                Some(10 * v + (s.last() as u32 - 48) as nat)
            } else {
                None
            },
            None => None,
        }
    }
}

/// The integer that `s` writes: an optional sign, and one digit or more.
pub open spec fn decimal_value(s: Seq<char>) -> Option<int> {
    let signed = s.len() > 0 && (s[0] == '-' || s[0] == '+');
    let digits = if signed {
        s.drop_first()
    } else {
        s
    };
    match digits_value(digits) {
        Some(v) => if digits.len() == 0 {
            None
        } else if signed && s[0] == '-' {
            Some(-v)
        } else {
            Some(v as int)
        },
        None => None,
    }
}

/// What reading `s` as an `i64` gives.
pub open spec fn as_i64(s: Seq<char>) -> Option<i64> {
    match decimal_value(s) {
        Some(v) => if i64::MIN <= v <= i64::MAX {
            Some(v as i64)
        } else {
            None
        },
        None => None,
    }
}

/// What reading `s` as an `i32` gives.
pub open spec fn as_i32(s: Seq<char>) -> Option<i32> {
    match decimal_value(s) {
        Some(v) => if i32::MIN <= v <= i32::MAX {
            Some(v as i32)
        } else {
            None
        },
        None => None,
    }
}

/// A prefix that no digits write makes the whole one that no digits write, and
/// the value of a prefix is at most that of the whole.
proof fn lemma_digits_prefix(s: Seq<char>, i: int)
    requires
        0 <= i <= s.len(),
    ensures
        digits_value(s.take(i)) is None ==> digits_value(s) is None,
        digits_value(s) matches Some(v) ==> digits_value(s.take(i))->0 <= v,
    decreases s.len() - i,
{
    if i < s.len() {
        lemma_digits_prefix(s, i + 1);
        assert(s.take(i + 1).drop_last() =~= s.take(i));
    } else {
        assert(s.take(i) =~= s);
    }
}

/// The value of `chars` from `start` on, where it is at most 2^63.
fn parse_digits(chars: &Vec<char>, start: usize) -> (r: Option<u64>)
    requires
        start <= chars.len(),
    ensures
        r == match digits_value(chars@.skip(start as int)) {
            Some(v) => if v <= 0x8000_0000_0000_0000 {
                Some(v as u64)
            } else {
                None
            },
            None => None,
        },
{
    let ghost digits = chars@.skip(start as int);
    let mut value: u64 = 0;
    let mut i: usize = start;
    assert(digits.take(0) =~= Seq::<char>::empty());
    while i < chars.len()
        invariant
            start <= i <= chars.len(),
            digits == chars@.skip(start as int),
            value <= 0x8000_0000_0000_0000,
            digits_value(digits.take(i - start)) == Some(value as nat),
        decreases chars.len() - i,
    {
        let n: u32 = chars[i] as u32;
        proof {
            assert(digits.take(i - start + 1).drop_last() =~= digits.take(i - start));
            lemma_digits_prefix(digits, i - start + 1);
        }
        if n < 48 || n > 57 {
            return None;
        }
        let d: u64 = (n - 48) as u64;
        if value > 0x0ccc_cccc_cccc_cccc {
            return None;
        }
        let next: u64 = 10 * value + d;
        if next > 0x8000_0000_0000_0000 {
            return None;
        }
        value = next;
        i = i + 1;
    }
    assert(digits.take(i - start) =~= digits);
    Some(value)
}

/// `str::parse::<i64>`, without the error.
pub fn parse_i64(s: &str) -> (r: Option<i64>)
    ensures
        r == as_i64(s@),
{
    let chars: Vec<char> = chars_of(s);
    let negative: bool = chars.len() > 0 && chars[0] == '-';
    let signed: bool = negative || (chars.len() > 0 && chars[0] == '+');
    let start: usize = if signed {
        1
    } else {
        0
    };
    proof {
        assert(s@.skip(0) =~= s@);
        if s@.len() > 0 {
            assert(s@.skip(1) =~= s@.drop_first());
        }
    }
    if start == chars.len() {
        return None;
    }
    match parse_digits(&chars, start) {
        Some(v) => if negative {
            if v == 0x8000_0000_0000_0000 {
                Some(i64::MIN)
            } else {
                Some(-(v as i64))
            }
        } else if v <= 0x7fff_ffff_ffff_ffff {
            Some(v as i64)
        } else {
            None
        },
        None => None,
    }
}

/// `str::parse::<i32>`, without the error.
pub fn parse_i32(s: &str) -> (r: Option<i32>)
    ensures
        r == as_i32(s@),
{
    match parse_i64(s) {
        Some(v) => if -0x8000_0000 <= v && v <= 0x7fff_ffff {
            Some(v as i32)
        } else {
            None
        },
        None => None,
    }
}

pub open spec fn digit_char(d: nat) -> char {
    (48 + d) as char
}

pub open spec fn nat_text(n: nat) -> Seq<char>
    decreases n,
{
    if n < 10 {
        seq![digit_char(n)]
    } else {
        nat_text(n / 10).push(digit_char(n % 10))
    }
}

/// `n` in decimal, with a minus sign before a negative number.
pub open spec fn int_text(n: int) -> Seq<char> {
    if n < 0 {
        seq!['-'] + nat_text((-n) as nat)
    } else {
        nat_text(n as nat)
    }
}

fn digit_str(d: u32) -> (r: &'static str)
    requires
        d < 10,
    ensures
        r@ == seq![digit_char(d as nat)],
{
    proof {
        reveal_strlit("0");
        reveal_strlit("1");
        reveal_strlit("2");
        reveal_strlit("3");
        reveal_strlit("4");
        reveal_strlit("5");
        reveal_strlit("6");
        reveal_strlit("7");
        reveal_strlit("8");
        reveal_strlit("9");
    }
    if d == 0 {
        "0"
    } else if d == 1 {
        "1"
    } else if d == 2 {
        "2"
    } else if d == 3 {
        "3"
    } else if d == 4 {
        "4"
    } else if d == 5 {
        "5"
    } else if d == 6 {
        "6"
    } else if d == 7 {
        "7"
    } else if d == 8 {
        "8"
    } else {
        "9"
    }
}

fn append_nat(out: &mut String, n: u32)
    ensures
        final(out)@ == old(out)@ + nat_text(n as nat),
    decreases n,
{
    if n >= 10 {
        append_nat(out, n / 10);
    }
    out.append(digit_str(n % 10));
    assert(out@ =~= old(out)@ + nat_text(n as nat));
}

/// `i32::to_string`.
pub fn decimal(n: i32) -> (r: String)
    ensures
        r@ == int_text(n as int),
{
    let mut out: String = String::new();
    if n < 0 {
        proof {
            reveal_strlit("-");
        }
        out.append("-");
        let magnitude: u32 = (-(n as i64)) as u32;
        append_nat(&mut out, magnitude);
        assert(out@ =~= seq!['-'] + nat_text((-n) as nat));
    } else {
        append_nat(&mut out, n as u32);
        assert(out@ =~= nat_text(n as nat));
    }
    out
}

proof fn lemma_nat_text(n: nat)
    ensures
        nat_text(n).len() > 0,
        digits_value(nat_text(n)) == Some(n),
        forall|i: int| 0 <= i < nat_text(n).len() ==> is_digit(#[trigger] nat_text(n)[i]),
    decreases n,
{
    if n < 10 {
        let t = nat_text(n);
        assert(t.drop_last() =~= Seq::<char>::empty());
        assert(digits_value(t.drop_last()) == Some(0nat));
    } else {
        lemma_nat_text(n / 10);
        assert(nat_text(n).drop_last() =~= nat_text(n / 10));
    }
}

/// Reading back the decimal text of a number gives the number.
pub proof fn decimal_text_reads_back(n: int)
    ensures
        decimal_value(int_text(n)) == Some(n),
{
    if n < 0 {
        lemma_nat_text((-n) as nat);
        assert(int_text(n).drop_first() =~= nat_text((-n) as nat));
    } else {
        lemma_nat_text(n as nat);
        assert(is_digit(int_text(n)[0]));
    }
}

/// A decimal text is written with digits and a minus sign, and is no lone minus
/// sign.
pub proof fn lemma_int_text_chars(n: int)
    ensures
        int_text(n).len() > 0,
        int_text(n) != seq!['-'],
        forall|i: int|
            0 <= i < int_text(n).len() ==> is_digit(#[trigger] int_text(n)[i]) || int_text(n)[i]
                == '-',
{
    if n < 0 {
        lemma_nat_text((-n) as nat);
        let t = nat_text((-n) as nat);
        assert forall|i: int| 0 <= i < int_text(n).len() implies is_digit(#[trigger] int_text(n)[i])
            || int_text(n)[i] == '-' by {
            if i > 0 {
                assert(int_text(n)[i] == t[i - 1]);
            }
        }
        assert(int_text(n).len() > 1);
    } else {
        lemma_nat_text(n as nat);
        assert(is_digit(int_text(n)[0]));
    }
}

proof fn lemma_no_space_trim(s: Seq<char>)
    requires
        s.len() > 0,
        !is_space(s.first()),
        !is_space(s.last()),
    ensures
        trimmed(s) == s,
{
}

/// A decimal text has no white space at either end.
pub proof fn decimal_text_is_trimmed(n: int)
    ensures
        trimmed(int_text(n)) == int_text(n),
{
    lemma_nat_text(if n < 0 {
        (-n) as nat
    } else {
        n as nat
    });
    let t = int_text(n);
    if n >= 0 {
        assert(is_digit(t[0]));
    }
    assert(is_digit(t[t.len() - 1]));
    lemma_no_space_trim(t);
}

// ── integers inside a text ──

/// What the first piece that can write an integer writes.
pub open spec fn first_int_of(parts: Seq<Seq<char>>) -> Option<i32>
    decreases parts.len(),
{
    if parts.len() == 0 {
        None
    } else if parts[0].len() > 0 && parts[0] != seq!['-'] {
        as_i32(parts[0])
    } else {
        first_int_of(parts.drop_first())
    }
}

/// The first run of digits and minus signs in `s`, other than a lone minus
/// sign, read as an `i32`.
pub open spec fn first_int(s: Seq<char>) -> Option<i32> {
    first_int_of(text_pieces(s, Separator::NonInteger))
}

pub fn parse_first_int(value: &str) -> (r: Option<i32>)
    ensures
        r == first_int(value@),
{
    let parts: Vec<&str> = split(value, Separator::NonInteger);
    let ghost all = views(parts@);
    let mut i: usize = 0;
    assert(all.skip(0) =~= all);
    proof {
        reveal_strlit("-");
        assert("-"@ =~= seq!['-']);
    }
    while i < parts.len()
        invariant
            all == views(parts@),
            all == text_pieces(value@, Separator::NonInteger),
            i <= parts.len(),
            "-"@ == seq!['-'],
            first_int_of(all) == first_int_of(all.skip(i as int)),
        decreases parts.len() - i,
    {
        let part: &str = parts[i];
        assert(all.skip(i as int)[0] == part@);
        if !part.is_empty() && !text_eq(part, "-") {
            return parse_i32(part);
        }
        assert(all.skip(i as int).drop_first() =~= all.skip(i + 1));
        i = i + 1;
    }
    None
}

/// The part of `s` before its first `=`, and the part after it.
pub open spec fn key_and_value(s: Seq<char>) -> Option<(Seq<char>, Seq<char>)>
    decreases s.len(),
{
    if s.len() == 0 {
        None
    } else if s[0] == '=' {
        Some((Seq::empty(), s.drop_first()))
    } else {
        match key_and_value(s.drop_first()) {
            Some((key, value)) => Some((seq![s[0]] + key, value)),
            None => None,
        }
    }
}

/// The integer that `part` gives to `key`.
pub open spec fn keyed_part(part: Seq<char>, key: Seq<char>) -> Option<i32> {
    match key_and_value(part) {
        Some((name, raw)) => if name == key {
            as_i32(trimmed(raw))
        } else {
            None
        },
        None => None,
    }
}

pub open spec fn first_keyed(parts: Seq<Seq<char>>, key: Seq<char>) -> Option<i32>
    decreases parts.len(),
{
    if parts.len() == 0 {
        None
    } else {
        match keyed_part(parts[0], key) {
            Some(v) => Some(v),
            None => first_keyed(parts.drop_first(), key),
        }
    }
}

/// The integer of the first part `key=integer` among the parts of `s`, which
/// plus signs separate.
pub open spec fn keyed_int(s: Seq<char>, key: Seq<char>) -> Option<i32> {
    first_keyed(text_pieces(s, Separator::Char('+')), key)
}

pub proof fn lemma_key_and_value(s: Seq<char>, i: int)
    requires
        0 <= i <= s.len(),
        forall|j: int| 0 <= j < i ==> s[j] != '=',
    ensures
        i < s.len() && s[i] == '=' ==> key_and_value(s) == Some((s.take(i), s.skip(i + 1))),
        i == s.len() ==> key_and_value(s) is None,
    decreases i,
{
    if i == 0 {
        if s.len() > 0 && s[0] == '=' {
            assert(s.take(0) =~= Seq::<char>::empty());
            assert(s.skip(1) =~= s.drop_first());
        }
    } else {
        let rest = s.drop_first();
        lemma_key_and_value(rest, i - 1);
        if i < s.len() && s[i] == '=' {
            assert(seq![s[0]] + rest.take(i - 1) =~= s.take(i));
            assert(rest.skip(i) =~= s.skip(i + 1));
        }
    }
}

/// `str::split_once` at `=`.
fn split_key_value(part: &str) -> (r: Option<(&str, &str)>)
    ensures
        (match r {
            Some((name, raw)) => Some((name@, raw@)),
            None => None,
        }) == key_and_value(part@),
{
    let chars: Vec<char> = chars_of(part);
    let n: usize = chars.len();
    let mut i: usize = 0;
    while i < n
        invariant
            chars@ == part@,
            n == part@.len(),
            i <= n,
            forall|j: int| 0 <= j < i ==> part@[j] != '=',
        decreases n - i,
    {
        if chars[i] == '=' {
            proof {
                lemma_key_and_value(part@, i as int);
                assert(part@.skip(i + 1) =~= part@.subrange(i + 1, n as int));
            }
            return Some((part.substring_char(0, i), part.substring_char(i + 1, n)));
        }
        i = i + 1;
    }
    proof {
        lemma_key_and_value(part@, n as int);
    }
    None
}

pub fn parse_keyed_int(value: &str, key: &str) -> (r: Option<i32>)
    ensures
        r == keyed_int(value@, key@),
{
    let parts: Vec<&str> = split(value, Separator::Char('+'));
    let ghost all = views(parts@);
    let mut i: usize = 0;
    assert(all.skip(0) =~= all);
    while i < parts.len()
        invariant
            all == views(parts@),
            all == text_pieces(value@, Separator::Char('+')),
            i <= parts.len(),
            first_keyed(all, key@) == first_keyed(all.skip(i as int), key@),
        decreases parts.len() - i,
    {
        let part: &str = parts[i];
        assert(all.skip(i as int)[0] == part@);
        assert(all.skip(i as int).drop_first() =~= all.skip(i + 1));
        if let Some((name, raw)) = split_key_value(part) {
            if text_eq(name, key) {
                if let Some(v) = parse_i32(trim(raw)) {
                    return Some(v);
                }
            }
        }
        i = i + 1;
    }
    None
}

/// The integers among `parts`, in order.
pub open spec fn ints_of(parts: Seq<Seq<char>>) -> Seq<i32>
    decreases parts.len(),
{
    if parts.len() == 0 {
        Seq::empty()
    } else {
        match as_i32(trimmed(parts.last())) {
            Some(v) => ints_of(parts.drop_last()).push(v),
            None => ints_of(parts.drop_last()),
        }
    }
}

/// The integers that plus signs separate in `s`; what is no integer is left out.
pub open spec fn plus_ints(s: Seq<char>) -> Seq<i32> {
    ints_of(text_pieces(s, Separator::Char('+')))
}

pub fn parse_plus_ints(value: &str) -> (r: Vec<i32>)
    ensures
        r@ == plus_ints(value@),
{
    let parts: Vec<&str> = split(value, Separator::Char('+'));
    let ghost all = views(parts@);
    let mut out: Vec<i32> = Vec::new();
    let mut i: usize = 0;
    while i < parts.len()
        invariant
            all == views(parts@),
            i <= parts.len(),
            out@ == ints_of(all.take(i as int)),
        decreases parts.len() - i,
    {
        assert(all.take(i + 1).drop_last() =~= all.take(i as int));
        assert(all.take(i + 1).last() == parts[i as int]@);
        if let Some(v) = parse_i32(trim(parts[i])) {
            out.push(v);
        }
        i = i + 1;
    }
    assert(all.take(i as int) =~= all);
    out
}

// ── joined lists ──

/// The items with `sep` between them.
pub open spec fn joined(items: Seq<Seq<char>>, sep: Seq<char>) -> Seq<char>
    decreases items.len(),
{
    if items.len() == 0 {
        Seq::empty()
    } else if items.len() == 1 {
        items[0]
    } else {
        joined(items.drop_last(), sep) + sep + items.last()
    }
}

/// `key=value`.
pub open spec fn keyed(key: Seq<char>, value: Seq<char>) -> Seq<char> {
    key + "="@ + value
}

/// A text that grows by items with a separator between them.
pub struct Joiner {
    text: String,
    sep: &'static str,
    started: bool,
    items: Ghost<Seq<Seq<char>>>,
}

impl Joiner {
    pub closed spec fn items(self) -> Seq<Seq<char>> {
        self.items@
    }

    pub closed spec fn separator(self) -> Seq<char> {
        self.sep@
    }

    pub closed spec fn well_formed(self) -> bool {
        &&& self.started == (self.items@.len() > 0)
        &&& self.text@ == joined(self.items@, self.sep@)
    }

    pub fn new(sep: &'static str) -> (r: Self)
        ensures
            r.well_formed(),
            r.items() == Seq::<Seq<char>>::empty(),
            r.separator() == sep@,
    {
        Joiner { text: String::new(), sep, started: false, items: Ghost(Seq::empty()) }
    }

    pub fn item(&mut self, value: &str)
        requires
            old(self).well_formed(),
        ensures
            final(self).well_formed(),
            final(self).items() == old(self).items().push(value@),
            final(self).separator() == old(self).separator(),
    {
        if self.started {
            self.text.append(self.sep);
        }
        self.text.append(value);
        self.started = true;
        self.items = Ghost(self.items@.push(value@));
        assert(self.items@.drop_last() =~= old(self).items@);
        assert(self.text@ =~= joined(self.items@, self.sep@));
    }

    pub fn number(&mut self, value: i32)
        requires
            old(self).well_formed(),
        ensures
            final(self).well_formed(),
            final(self).items() == old(self).items().push(int_text(value as int)),
            final(self).separator() == old(self).separator(),
    {
        let text: String = decimal(value);
        self.item(text.as_str());
    }

    pub fn keyed_item(&mut self, key: &str, value: &str)
        requires
            old(self).well_formed(),
        ensures
            final(self).well_formed(),
            final(self).items() == old(self).items().push(keyed(key@, value@)),
            final(self).separator() == old(self).separator(),
    {
        let mut pair: String = key.to_owned();
        pair.append("=");
        pair.append(value);
        self.item(pair.as_str());
    }

    pub fn keyed_number(&mut self, key: &str, value: i32)
        requires
            old(self).well_formed(),
        ensures
            final(self).well_formed(),
            final(self).items() == old(self).items().push(keyed(key@, int_text(value as int))),
            final(self).separator() == old(self).separator(),
    {
        let text: String = decimal(value);
        self.keyed_item(key, text.as_str());
    }

    pub fn finish(self) -> (r: String)
        requires
            self.well_formed(),
        ensures
            r@ == joined(self.items(), self.separator()),
    {
        self.text
    }
}

} // verus!
