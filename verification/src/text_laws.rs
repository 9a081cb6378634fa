//! How texts that are put together come apart again.

use crate::text::{
    as_i32, as_i64, contains_text, decimal_text_is_trimmed, decimal_text_reads_back, decimal_value,
    digits_value, first_int, first_int_of, first_keyed, int_text, ints_of, is_digit, is_space,
    key_and_value, keyed_int, keyed_part, lemma_int_text_chars, lemma_key_and_value, lower_text,
    pieces, plus_ints, text_pieces, trim_end, trim_start, trimmed, upper_text, Separator,
};
use vstd::prelude::*;

verus! {

/// What stands between two texts is found in them.
pub proof fn lemma_contains_middle(before: Seq<char>, word: Seq<char>, after: Seq<char>)
    ensures
        contains_text(before + word + after, word),
{
    let s = before + word + after;
    let i = before.len() as int;
    assert(s.subrange(i, i + word.len()) =~= word);
}

/// A word with a letter that a text lacks does not stand in it.
pub proof fn lemma_no_letter_no_word(s: Seq<char>, word: Seq<char>, letter: char)
    requires
        !s.contains(letter),
        word.contains(letter),
    ensures
        !contains_text(s, word),
{
    if contains_text(s, word) {
        let i = choose|i: int|
            0 <= i <= s.len() - word.len() && #[trigger] s.subrange(i, i + word.len()) == word;
        let k = choose|k: int| 0 <= k < word.len() && word[k] == letter;
        assert(s.subrange(i, i + word.len())[k] == s[i + k]);
        assert(s.contains(letter));
    }
}

/// The pieces of two texts with a separator between them are those of the first,
/// then those of the second.
pub proof fn pieces_of_a_pair<T>(
    first: Seq<T>,
    separator: T,
    second: Seq<T>,
    is_separator: spec_fn(T) -> bool,
)
    requires
        is_separator(separator),
    ensures
        pieces(first.push(separator) + second, is_separator) == pieces(first, is_separator)
            + pieces(second, is_separator),
        pieces(second, is_separator).len() > 0,
    decreases second.len(),
{
    let all = first.push(separator) + second;
    if second.len() == 0 {
        assert(all =~= first.push(separator));
        assert(all.drop_last() =~= first);
        assert(pieces(all, is_separator) =~= pieces(first, is_separator) + pieces(
            second,
            is_separator,
        ));
    } else {
        let shorter = second.drop_last();
        pieces_of_a_pair(first, separator, shorter, is_separator);
        assert(all.drop_last() =~= first.push(separator) + shorter);
        assert(all.last() == second.last());
        let head = pieces(first, is_separator);
        let tail = pieces(shorter, is_separator);
        assert((head + tail).last() == tail.last());
        assert((head + tail).drop_last() =~= head + tail.drop_last());
        assert(pieces(all, is_separator) =~= head + pieces(second, is_separator));
    }
}

/// A text without a separator is one piece.
pub proof fn one_piece<T>(s: Seq<T>, is_separator: spec_fn(T) -> bool)
    requires
        forall|i: int| 0 <= i < s.len() ==> !is_separator(#[trigger] s[i]),
    ensures
        pieces(s, is_separator) == seq![s],
    decreases s.len(),
{
    if s.len() == 0 {
        assert(s =~= Seq::<T>::empty());
    } else {
        let shorter = s.drop_last();
        assert forall|i: int| 0 <= i < shorter.len() implies !is_separator(
            #[trigger] shorter[i],
        ) by {
            assert(!is_separator(s[i]));
        }
        one_piece(shorter, is_separator);
        assert(!is_separator(s[s.len() - 1]));
        assert(shorter.push(s.last()) =~= s);
        assert(pieces(s, is_separator) =~= seq![s]);
    }
}

// ── white space ──

proof fn lemma_trim_start(pad: Seq<char>, s: Seq<char>)
    requires
        forall|i: int| 0 <= i < pad.len() ==> is_space(#[trigger] pad[i]),
    ensures
        trim_start(pad + s) == trim_start(s),
    decreases pad.len(),
{
    if pad.len() == 0 {
        assert(pad + s =~= s);
    } else {
        assert(is_space(pad[0]));
        assert((pad + s).drop_first() =~= pad.drop_first() + s);
        lemma_trim_start(pad.drop_first(), s);
    }
}

proof fn lemma_trim_end(s: Seq<char>, pad: Seq<char>)
    requires
        forall|i: int| 0 <= i < pad.len() ==> is_space(#[trigger] pad[i]),
    ensures
        trim_end(s + pad) == trim_end(s),
    decreases pad.len(),
{
    if pad.len() == 0 {
        assert(s + pad =~= s);
    } else {
        assert(is_space(pad[pad.len() - 1]));
        assert((s + pad).drop_last() =~= s + pad.drop_last());
        lemma_trim_end(s, pad.drop_last());
    }
}

/// Of the ASCII characters the blank and the five controls from the tab to the
/// carriage return are white space, and of the others the next line, the spaces of
/// other widths and the two separators. Digits are those of ASCII alone.
pub proof fn white_space_and_digits(c: char)
    ensures
        c as u32 <= 127 ==> (is_space(c) <==> c == ' ' || '\t' <= c <= '\r'),
        c as u32 > 127 ==> (is_space(c) <==> c == '\u{85}' || c == '\u{a0}' || c == '\u{1680}'
            || '\u{2000}' <= c <= '\u{200a}' || c == '\u{2028}' || c == '\u{2029}' || c
            == '\u{202f}' || c == '\u{205f}' || c == '\u{3000}'),
        is_digit(c) <==> '0' <= c <= '9',
{
}

/// White space around a text is no part of it once it is trimmed, and the text
/// inside stays as it is.
pub proof fn trimming_takes_the_padding_off(before: Seq<char>, s: Seq<char>, after: Seq<char>)
    requires
        forall|i: int| 0 <= i < before.len() ==> is_space(#[trigger] before[i]),
        forall|i: int| 0 <= i < after.len() ==> is_space(#[trigger] after[i]),
        s.len() > 0,
        !is_space(s.first()),
        !is_space(s.last()),
    ensures
        trimmed(before + s + after) == s,
{
    assert(before + s + after =~= before + (s + after));
    lemma_trim_start(before, s + after);
    assert(trim_start(s + after) == s + after);
    lemma_trim_end(s, after);
}

/// White space alone is nothing once it is trimmed.
pub proof fn white_space_is_nothing(s: Seq<char>)
    requires
        forall|i: int| 0 <= i < s.len() ==> is_space(#[trigger] s[i]),
    ensures
        trimmed(s).len() == 0,
{
    assert(s + Seq::<char>::empty() =~= s);
    lemma_trim_start(s, Seq::empty());
}

// ── integers that plus signs separate ──

proof fn lemma_ints_of_pair(first: Seq<Seq<char>>, second: Seq<Seq<char>>)
    ensures
        ints_of(first + second) == ints_of(first) + ints_of(second),
    decreases second.len(),
{
    if second.len() == 0 {
        assert(first + second =~= first);
        assert(ints_of(first) + ints_of(second) =~= ints_of(first));
    } else {
        lemma_ints_of_pair(first, second.drop_last());
        assert((first + second).drop_last() =~= first + second.drop_last());
        assert(ints_of(first + second) =~= ints_of(first) + ints_of(second));
    }
}

/// The integers of two texts with a plus sign between them are those of the
/// first, then those of the second.
pub proof fn integers_of_a_pair(first: Seq<char>, second: Seq<char>)
    ensures
        plus_ints(first + "+"@ + second) == plus_ints(first) + plus_ints(second),
{
    reveal_strlit("+");
    assert(first + "+"@ + second =~= first.push('+') + second);
    let cut = |c: char| Separator::Char('+').splits_at(c);
    pieces_of_a_pair(first, '+', second, cut);
    lemma_ints_of_pair(pieces(first, cut), pieces(second, cut));
}

/// A text without a plus sign holds the one integer that it writes, with white space
/// around it or without; what writes none adds none.
pub proof fn one_part_holds_one_integer(s: Seq<char>)
    requires
        !s.contains('+'),
    ensures
        as_i32(trimmed(s)) matches Some(n) ==> plus_ints(s) == seq![n],
        as_i32(trimmed(s)) is None ==> plus_ints(s) == Seq::<i32>::empty(),
{
    let cut = |c: char| Separator::Char('+').splits_at(c);
    assert forall|i: int| 0 <= i < s.len() implies !cut(#[trigger] s[i]) by {
        assert(s.contains(s[i]));
    }
    one_piece(s, cut);
    let parts = seq![s];
    assert(parts.drop_last() =~= Seq::<Seq<char>>::empty());
    assert(ints_of(parts.drop_last()) =~= Seq::<i32>::empty());
    if let Some(n) = as_i32(trimmed(s)) {
        assert(ints_of(parts) =~= seq![n]);
    } else {
        assert(ints_of(parts) =~= Seq::<i32>::empty());
    }
}

/// The decimal text of an integer holds that integer alone.
pub proof fn integer_is_read_back(n: i32)
    ensures
        plus_ints(int_text(n as int)) == seq![n],
        as_i32(trimmed(int_text(n as int))) == Some(n),
{
    lemma_int_text_chars(n as int);
    decimal_text_reads_back(n as int);
    decimal_text_is_trimmed(n as int);
    one_part_holds_one_integer(int_text(n as int));
}

// ── the first integer of a text ──

proof fn lemma_first_int_skips(before: Seq<char>, s: Seq<char>)
    requires
        forall|i: int|
            0 <= i < before.len() ==> Separator::NonInteger.splits_at(#[trigger] before[i]),
    ensures
        first_int(before + s) == first_int(s),
    decreases before.len(),
{
    if before.len() == 0 {
        assert(before + s =~= s);
    } else {
        let cut = |c: char| Separator::NonInteger.splits_at(c);
        let rest = before.drop_first() + s;
        let empty = Seq::<char>::empty();
        assert(Separator::NonInteger.splits_at(before[0]));
        assert(before + s =~= empty.push(before[0]) + rest);
        pieces_of_a_pair(empty, before[0], rest, cut);
        one_piece(empty, cut);
        let parts = seq![empty] + pieces(rest, cut);
        assert(parts.drop_first() =~= pieces(rest, cut));
        assert(first_int_of(parts) == first_int_of(pieces(rest, cut)));
        lemma_first_int_skips(before.drop_first(), s);
    }
}

/// The first run of digits and minus signs of a text decides, whatever stands before
/// it and is no part of an integer, and whatever follows: where it writes no
/// integer, none is found. A lone minus sign is passed over.
pub proof fn first_run_decides(before: Seq<char>, run: Seq<char>, after: Seq<char>)
    requires
        forall|i: int|
            0 <= i < before.len() ==> Separator::NonInteger.splits_at(#[trigger] before[i]),
        forall|i: int| 0 <= i < run.len() ==> !Separator::NonInteger.splits_at(#[trigger] run[i]),
        run.len() > 0,
        after.len() == 0 || Separator::NonInteger.splits_at(after[0]),
    ensures
        run != seq!['-'] ==> first_int(before + run + after) == as_i32(run),
        run == seq!['-'] ==> first_int(before + run + after) == first_int(after),
{
    let cut = |c: char| Separator::NonInteger.splits_at(c);
    assert(before + run + after =~= before + (run + after));
    lemma_first_int_skips(before, run + after);
    assert forall|i: int| 0 <= i < run.len() implies !cut(#[trigger] run[i]) by {}
    one_piece(run, cut);
    let parts = text_pieces(run + after, Separator::NonInteger);
    if after.len() == 0 {
        assert(run + after =~= run);
        assert(parts =~= seq![run]);
        assert(parts.drop_first() =~= Seq::<Seq<char>>::empty());
        assert(first_int_of(parts.drop_first()) is None);
        no_integer_is_found(after);
    } else {
        let rest = after.drop_first();
        assert(run + after =~= run.push(after[0]) + rest);
        pieces_of_a_pair(run, after[0], rest, cut);
        assert(parts.drop_first() =~= pieces(rest, cut));
        lemma_first_int_skips(seq![after[0]], rest);
        assert(seq![after[0]] + rest =~= after);
    }
    assert(parts[0] == run);
}

/// The first integer of a text is the first that is written in it, whatever
/// stands before it and is no part of an integer, and whatever follows.
pub proof fn first_integer_is_found(before: Seq<char>, n: i32, after: Seq<char>)
    requires
        forall|i: int|
            0 <= i < before.len() ==> Separator::NonInteger.splits_at(#[trigger] before[i]),
        after.len() == 0 || Separator::NonInteger.splits_at(after[0]),
    ensures
        first_int(before + int_text(n as int) + after) == Some(n),
{
    lemma_int_text_chars(n as int);
    decimal_text_reads_back(n as int);
    first_run_decides(before, int_text(n as int), after);
}

/// A text without a digit or a minus sign holds no integer.
pub proof fn no_integer_is_found(s: Seq<char>)
    requires
        forall|i: int| 0 <= i < s.len() ==> Separator::NonInteger.splits_at(#[trigger] s[i]),
    ensures
        first_int(s) is None,
{
    let empty = Seq::<char>::empty();
    let cut = |c: char| Separator::NonInteger.splits_at(c);
    lemma_first_int_skips(s, empty);
    assert(s + empty =~= s);
    one_piece(empty, cut);
    let parts = seq![empty];
    assert(parts.drop_first() =~= Seq::<Seq<char>>::empty());
    assert(first_int_of(parts.drop_first()) is None);
    assert(first_int_of(parts) is None);
}

// ── keyed integers ──

proof fn lemma_first_keyed_pair(first: Seq<Seq<char>>, second: Seq<Seq<char>>, key: Seq<char>)
    ensures
        first_keyed(first + second, key) == match first_keyed(first, key) {
            Some(v) => Some(v),
            None => first_keyed(second, key),
        },
    decreases first.len(),
{
    if first.len() == 0 {
        assert(first + second =~= second);
    } else {
        lemma_first_keyed_pair(first.drop_first(), second, key);
        assert((first + second).drop_first() =~= first.drop_first() + second);
    }
}

/// Of two texts with a plus sign between them the first that has the key gives
/// its integer.
pub proof fn first_key_stands(first: Seq<char>, second: Seq<char>, key: Seq<char>)
    ensures
        keyed_int(first, key) is Some ==> keyed_int(first + "+"@ + second, key) == keyed_int(
            first,
            key,
        ),
        keyed_int(first, key) is None ==> keyed_int(first + "+"@ + second, key) == keyed_int(
            second,
            key,
        ),
{
    reveal_strlit("+");
    assert(first + "+"@ + second =~= first.push('+') + second);
    let cut = |c: char| Separator::Char('+').splits_at(c);
    pieces_of_a_pair(first, '+', second, cut);
    lemma_first_keyed_pair(pieces(first, cut), pieces(second, cut), key);
}

/// A key with a value gives the key the integer of that value, with white space
/// around it or without, and gives no other key anything.
pub proof fn keyed_value_is_read(name: Seq<char>, value: Seq<char>, key: Seq<char>)
    requires
        !name.contains('='),
        !name.contains('+'),
        !value.contains('+'),
    ensures
        keyed_int(name + "="@ + value, key) == (if name == key {
            as_i32(trimmed(value))
        } else {
            None
        }),
{
    reveal_strlit("=");
    let s = name + "="@ + value;
    let cut = |c: char| Separator::Char('+').splits_at(c);
    assert forall|i: int| 0 <= i < s.len() implies !cut(#[trigger] s[i]) by {
        if i < name.len() {
            assert(name.contains(name[i]));
        } else if i > name.len() {
            assert(s[i] == value[i - name.len() - 1]);
            assert(value.contains(s[i]));
        }
    }
    one_piece(s, cut);
    assert forall|j: int| 0 <= j < name.len() implies s[j] != '=' by {
        assert(name.contains(name[j]));
    }
    lemma_key_and_value(s, name.len() as int);
    assert(s.take(name.len() as int) =~= name);
    assert(s.skip(name.len() as int + 1) =~= value);
    lemma_one_key(s, key);
}

/// A key with its integer gives that integer to the key, and to no other.
pub proof fn keyed_integer_is_read_back(name: Seq<char>, n: i32, key: Seq<char>)
    requires
        !name.contains('='),
        !name.contains('+'),
    ensures
        keyed_int(name + "="@ + int_text(n as int), key) == (if name == key {
            Some(n)
        } else {
            None
        }),
{
    lemma_int_text_chars(n as int);
    integer_is_read_back(n);
    keyed_value_is_read(name, int_text(n as int), key);
}

/// A text without an equals sign gives no key an integer.
pub proof fn no_equals_sign_no_key(s: Seq<char>, key: Seq<char>)
    requires
        !s.contains('='),
        !s.contains('+'),
    ensures
        keyed_int(s, key) is None,
{
    let cut = |c: char| Separator::Char('+').splits_at(c);
    assert forall|i: int| 0 <= i < s.len() implies !cut(#[trigger] s[i]) by {
        assert(s.contains(s[i]));
    }
    assert forall|j: int| 0 <= j < s.len() implies s[j] != '=' by {
        assert(s.contains(s[j]));
    }
    one_piece(s, cut);
    lemma_key_and_value(s, s.len() as int);
    assert(key_and_value(s) is None);
    lemma_one_key(s, key);
}

proof fn lemma_one_key(s: Seq<char>, key: Seq<char>)
    ensures
        first_keyed(seq![s], key) == keyed_part(s, key),
{
    let parts = seq![s];
    assert(parts.drop_first() =~= Seq::<Seq<char>>::empty());
    assert(first_keyed(parts.drop_first(), key) is None);
}

// ── decimal numbers ──

/// A decimal text grows by one digit at its end, and a negative number is written
/// as the positive one after a minus sign.
pub proof fn decimal_text_is_positional(n: int, digit: int)
    requires
        n >= 0,
        0 <= digit <= 9,
    ensures
        int_text(digit) == seq![(48 + digit) as char],
        n > 0 ==> int_text(10 * n + digit) == int_text(n).push((48 + digit) as char),
        n > 0 ==> int_text(-n) == seq!['-'] + int_text(n),
{
}

/// Reading a number goes by its digits: one more digit at the end is ten times
/// the number and the digit.
pub proof fn digits_are_positional(digits: Seq<char>, digit: int, value: int)
    requires
        0 <= digit <= 9,
        digits.len() > 0,
        is_digit(digits[0]),
        decimal_value(digits) == Some(value),
    ensures
        decimal_value(digits.push((48 + digit) as char)) == Some(10 * value + digit),
        decimal_value(seq!['+'] + digits) == Some(value),
        decimal_value(seq!['-'] + digits) == Some(-value),
        value >= 0,
{
    let c = (48 + digit) as char;
    assert(digits.push(c).drop_last() =~= digits);
    assert(digits.push(c)[0] == digits[0]);
    assert((seq!['+'] + digits).drop_first() =~= digits);
    assert((seq!['-'] + digits).drop_first() =~= digits);
}

proof fn lemma_letter_spoils(s: Seq<char>, i: int)
    requires
        0 <= i < s.len(),
        !is_digit(s[i]),
    ensures
        digits_value(s) is None,
    decreases s.len(),
{
    if i < s.len() - 1 {
        assert(s.drop_last()[i] == s[i]);
        lemma_letter_spoils(s.drop_last(), i);
    }
}

/// What holds anything but digits after its sign, or nothing, is no number; nor is
/// a number beyond the range a number of that range.
pub proof fn other_texts_are_no_numbers(s: Seq<char>, i: int)
    ensures
        0 < i < s.len() && !is_digit(s[i]) ==> decimal_value(s) is None,
        s.len() > 0 && !is_digit(s[0]) && s[0] != '-' && s[0] != '+' ==> decimal_value(s) is None,
        s.len() == 0 ==> decimal_value(s) is None,
        s == seq!['-'] || s == seq!['+'] ==> decimal_value(s) is None,
        decimal_value(s) matches Some(v) ==> as_i32(s) is Some == (-0x8000_0000 <= v
            <= 0x7fff_ffff),
        decimal_value(s) matches Some(v) ==> as_i64(s) is Some == (-0x8000_0000_0000_0000 <= v
            <= 0x7fff_ffff_ffff_ffff),
        as_i32(s) matches Some(v) ==> decimal_value(s) == Some(v as int),
        as_i64(s) matches Some(v) ==> decimal_value(s) == Some(v as int),
        decimal_value(s) is None ==> as_i32(s) is None && as_i64(s) is None,
{
    if 0 < i < s.len() && !is_digit(s[i]) {
        lemma_letter_spoils(s, i);
        assert(s.drop_first()[i - 1] == s[i]);
        lemma_letter_spoils(s.drop_first(), i - 1);
    }
    if s.len() > 0 && !is_digit(s[0]) {
        lemma_letter_spoils(s, 0);
    }
}

// ── letters ──

/// Letters change their case and nothing else does; in either case a text keeps
/// its length, and its case does not matter any more.
pub proof fn case_of_letters(s: Seq<char>, i: int)
    requires
        0 <= i < s.len(),
    ensures
        lower_text(s).len() == s.len(),
        upper_text(s).len() == s.len(),
        'A' <= s[i] <= 'Z' ==> lower_text(s)[i] as int == s[i] as int + 32 && upper_text(s)[i]
            == s[i],
        'a' <= s[i] <= 'z' ==> upper_text(s)[i] as int == s[i] as int - 32 && lower_text(s)[i]
            == s[i],
        !('A' <= s[i] <= 'Z') && !('a' <= s[i] <= 'z') ==> lower_text(s)[i] == s[i] && upper_text(
            s,
        )[i] == s[i],
        lower_text(upper_text(s)) == lower_text(s),
        upper_text(lower_text(s)) == upper_text(s),
{
    assert(lower_text(upper_text(s)) =~= lower_text(s));
    assert(upper_text(lower_text(s)) =~= upper_text(s));
}

} // verus!
