use itertools::Itertools;
use vstd::prelude::*;

verus! {

/// The characters that Unicode classes as white space (`White_Space`).
pub open spec fn is_whitespace(c: char) -> bool {
    let code = c as u32;
    ||| 0x09 <= code <= 0x0D
    ||| code == 0x20
    ||| code == 0x85
    ||| code == 0xA0
    ||| code == 0x1680
    ||| 0x2000 <= code <= 0x200A
    ||| code == 0x2028
    ||| code == 0x2029
    ||| code == 0x202F
    ||| code == 0x205F
    ||| code == 0x3000
}

/// The ten ASCII digits.
pub open spec fn is_digit(c: char) -> bool {
    '0' as u32 <= c as u32 <= '9' as u32
}

/// What a digit counts for.
pub open spec fn digit_value(c: char) -> nat
    recommends
        is_digit(c),
{
    (c as u32 - '0' as u32) as nat
}

/// The number that a string of digits writes in base ten. Leading zeros
/// count for nothing, and the empty string writes zero.
pub open spec fn decimal_value(digits: Seq<char>) -> nat
    decreases digits.len(),
{
    if digits.len() == 0 {
        0
    } else {
        10 * decimal_value(digits.drop_last()) + digit_value(digits.last())
    }
}

/// Every character is a digit.
pub open spec fn all_digits(digits: Seq<char>) -> bool {
    forall|i: int| 0 <= i < digits.len() ==> is_digit(#[trigger] digits[i])
}

/// The text without a leading plus sign.
pub open spec fn without_sign(text: Seq<char>) -> Seq<char> {
    if text.len() > 0 && text[0] == '+' {
        text.drop_first()
    } else {
        text
    }
}

/// The `u32` that a text writes: an optional plus sign, then one or more
/// digits and nothing else, for a number that fits. Any other text writes
/// no number.
pub open spec fn unsigned_decimal(text: Seq<char>) -> Option<u32> {
    let digits = without_sign(text);
    if digits.len() > 0 && all_digits(digits) && decimal_value(digits) <= u32::MAX {
        Some(decimal_value(digits) as u32)
    } else {
        None
    }
}

/// The text without the white space that it starts with.
pub open spec fn trim_start(text: Seq<char>) -> Seq<char>
    decreases text.len(),
{
    if text.len() > 0 && is_whitespace(text.first()) {
        trim_start(text.drop_first())
    } else {
        text
    }
}

/// The text without the white space that it ends with.
pub open spec fn trim_end(text: Seq<char>) -> Seq<char>
    decreases text.len(),
{
    if text.len() > 0 && is_whitespace(text.last()) {
        trim_end(text.drop_last())
    } else {
        text
    }
}

/// The text without the white space around it.
pub open spec fn trim(text: Seq<char>) -> Seq<char> {
    trim_end(trim_start(text))
}

/// How many characters stand before the first `separator`, or in the whole
/// text if it holds none.
pub open spec fn field_len(text: Seq<char>, separator: char) -> nat
    decreases text.len(),
{
    if text.len() == 0 || text.first() == separator {
        0
    } else {
        1 + field_len(text.drop_first(), separator)
    }
}

/// The pieces between the separators of a text, in order. A text with `n`
/// separators has `n + 1` pieces, some of which may be empty.
pub open spec fn split(text: Seq<char>, separator: char) -> Seq<Seq<char>>
    decreases text.len(),
{
    let n = field_len(text, separator);
    if n >= text.len() {
        seq![text]
    } else {
        seq![text.take(n as int)] + split(text.skip(n as int + 1), separator)
    }
}

/// The number that one piece writes, as a sequence of one number or none.
pub open spec fn number_in(piece: Seq<char>) -> Seq<u32> {
    match unsigned_decimal(piece) {
        Some(number) => seq![number],
        None => seq![],
    }
}

/// The numbers that the pieces write, in order; a piece that writes none is
/// passed over.
pub open spec fn numbers_in(pieces: Seq<Seq<char>>) -> Seq<u32>
    decreases pieces.len(),
{
    if pieces.len() == 0 {
        seq![]
    } else {
        number_in(pieces.first()) + numbers_in(pieces.drop_first())
    }
}

/// The first two of a sequence of numbers, if it has as many.
pub open spec fn first_two(numbers: Seq<u32>) -> Option<(u32, u32)> {
    if numbers.len() >= 2 {
        Some((numbers[0], numbers[1]))
    } else {
        None
    }
}

/// The move that a line of input asks for. The white space around the line
/// is dropped, the rest is cut at every `-`, and the first two pieces that
/// write a number give the row and the column.
pub open spec fn parsed_move(input: Seq<char>) -> Option<(u32, u32)> {
    first_two(numbers_in(split(trim(input), '-')))
}

/// The pieces put together again, with a separator between each two.
pub open spec fn join(pieces: Seq<Seq<char>>, separator: char) -> Seq<char>
    decreases pieces.len(),
{
    if pieces.len() == 0 {
        seq![]
    } else if pieces.len() == 1 {
        pieces.first()
    } else {
        pieces.first() + seq![separator] + join(pieces.drop_first(), separator)
    }
}

/// The first piece of a text ends at the first separator, or with the text.
pub proof fn field_ends_at_separator(text: Seq<char>, separator: char)
    ensures
        field_len(text, separator) <= text.len(),
        !text.take(field_len(text, separator) as int).contains(separator),
        field_len(text, separator) < text.len() ==> text[field_len(text, separator) as int]
            == separator,
    decreases text.len(),
{
    let n = field_len(text, separator);
    if text.len() == 0 || text.first() == separator {
        assert(text.take(0) =~= seq![]);
    } else {
        let tail = text.drop_first();
        field_ends_at_separator(tail, separator);
        let m = field_len(tail, separator);
        assert forall|i: int| 0 <= i < n implies text.take(n as int)[i] != separator by {
            if i > 0 {
                assert(tail.take(m as int)[i - 1] == text[i]);
                assert(tail.take(m as int).contains(text[i]));
            }
        }
    }
}

/// Cutting a text at its separators loses nothing: there is at least one
/// piece, no piece holds a separator, and the pieces joined by separators
/// are the text.
pub proof fn split_then_join(text: Seq<char>, separator: char)
    ensures
        split(text, separator).len() >= 1,
        forall|i: int|
            0 <= i < split(text, separator).len() ==> !(#[trigger] split(text, separator)[i])
                .contains(separator),
        join(split(text, separator), separator) == text,
    decreases text.len(),
{
    let n = field_len(text, separator);
    field_ends_at_separator(text, separator);
    if n >= text.len() {
        assert(text.take(n as int) =~= text);
    } else {
        let first = text.take(n as int);
        let rest = text.skip(n as int + 1);
        split_then_join(rest, separator);
        let pieces = split(text, separator);
        assert(pieces == seq![first] + split(rest, separator));
        assert(pieces.drop_first() =~= split(rest, separator));
        assert forall|i: int| 0 <= i < pieces.len() implies !(#[trigger] pieces[i]).contains(
            separator,
        ) by {
            if i > 0 {
                assert(pieces[i] == split(rest, separator)[i - 1]);
            }
        }
        assert(first + seq![separator] + rest =~= text);
    }
}

/// Trimming cuts a text down to a middle part with nothing but white space
/// before and after it, and with none at its own two ends.
pub proof fn trim_keeps_the_middle(text: Seq<char>) -> (bounds: (int, int))
    ensures
        0 <= bounds.0 <= bounds.1 <= text.len(),
        trim(text) == text.subrange(bounds.0, bounds.1),
        forall|i: int| 0 <= i < bounds.0 ==> is_whitespace(#[trigger] text[i]),
        forall|i: int| bounds.1 <= i < text.len() ==> is_whitespace(#[trigger] text[i]),
        bounds.0 < bounds.1 ==> !is_whitespace(text[bounds.0]) && !is_whitespace(
            text[bounds.1 - 1],
        ),
{
    let start = trimmed_start(text);
    let tail = text.skip(start);
    let length = trimmed_end(tail);
    assert(tail.take(length) =~= text.subrange(start, start + length));
    assert forall|i: int| start + length <= i < text.len() implies is_whitespace(
        #[trigger] text[i],
    ) by {
        assert(tail[i - start] == text[i]);
    }
    if length > 0 {
        assert(tail[0] == text[start]);
        assert(tail[length - 1] == text[start + length - 1]);
    }
    (start, start + length)
}

/// Where a text begins once the white space that it starts with is dropped.
proof fn trimmed_start(text: Seq<char>) -> (start: int)
    ensures
        0 <= start <= text.len(),
        trim_start(text) == text.skip(start),
        forall|i: int| 0 <= i < start ==> is_whitespace(#[trigger] text[i]),
        start < text.len() ==> !is_whitespace(text[start]),
    decreases text.len(),
{
    if text.len() > 0 && is_whitespace(text.first()) {
        let tail = text.drop_first();
        let inner = trimmed_start(tail);
        assert(tail.skip(inner) =~= text.skip(inner + 1));
        assert forall|i: int| 0 <= i < inner + 1 implies is_whitespace(#[trigger] text[i]) by {
            if i > 0 {
                assert(tail[i - 1] == text[i]);
            }
        }
        if inner < tail.len() {
            assert(tail[inner] == text[inner + 1]);
        }
        inner + 1
    } else {
        assert(text.skip(0) =~= text);
        0
    }
}

/// How long a text is once the white space that it ends with is dropped.
proof fn trimmed_end(text: Seq<char>) -> (length: int)
    ensures
        0 <= length <= text.len(),
        trim_end(text) == text.take(length),
        forall|i: int| length <= i < text.len() ==> is_whitespace(#[trigger] text[i]),
        length > 0 ==> !is_whitespace(text[length - 1]),
    decreases text.len(),
{
    if text.len() > 0 && is_whitespace(text.last()) {
        let front = text.drop_last();
        let inner = trimmed_end(front);
        assert(front.take(inner) =~= text.take(inner));
        assert forall|i: int| inner <= i < text.len() implies is_whitespace(#[trigger] text[i]) by {
            if i < front.len() {
                assert(front[i] == text[i]);
            }
        }
        if inner > 0 {
            assert(front[inner - 1] == text[inner - 1]);
        }
        inner
    } else {
        assert(text.take(text.len() as int) =~= text);
        text.len() as int
    }
}

/// A string of digits writes a number no smaller than any of its prefixes
/// does.
proof fn decimal_value_grows(digits: Seq<char>, n: int)
    requires
        0 <= n <= digits.len(),
    ensures
        decimal_value(digits.take(n)) <= decimal_value(digits),
    decreases digits.len() - n,
{
    if n == digits.len() {
        assert(digits.take(n) =~= digits);
    } else {
        decimal_value_grows(digits.drop_last(), n);
        assert(digits.drop_last().take(n) =~= digits.take(n));
    }
}

/// Whether `c` is a white space character.
fn char_is_whitespace(c: char) -> (white: bool)
    ensures
        white == is_whitespace(c),
{
    let code = c as u32;
    (0x09 <= code && code <= 0x0D) || code == 0x20 || code == 0x85 || code == 0xA0 || code
        == 0x1680 || (0x2000 <= code && code <= 0x200A) || code == 0x2028 || code == 0x2029
        || code == 0x202F || code == 0x205F || code == 0x3000
}

/// Reads a `u32` in decimal notation.
fn parse_u32(text: &Vec<char>) -> (number: Option<u32>)
    ensures
        number == unsigned_decimal(text@),
{
    let n = text.len();
    let start: usize = if n > 0 && text[0] == '+' {
        1
    } else {
        0
    };
    let ghost digits = without_sign(text@);
    assert(digits =~= text@.skip(start as int));
    if start == n {
        return None;
    }
    let mut value: u32 = 0;
    let mut i: usize = start;
    while i < n
        invariant
            start <= i <= n,
            n == text@.len(),
            digits == without_sign(text@),
            digits == text@.skip(start as int),
            all_digits(digits.take(i - start)),
            value == decimal_value(digits.take(i - start)),
        decreases n - i,
    {
        let code = text[i] as u32;
        assert(digits[i - start] == text@[i as int]);
        if code < '0' as u32 || code > '9' as u32 {
            assert(!is_digit(digits[i - start]));
            return None;
        }
        let digit = code - '0' as u32;
        proof {
            let longer = digits.take(i - start + 1);
            assert(longer.drop_last() =~= digits.take(i - start));
            assert(longer.last() == digits[i - start]);
            assert(decimal_value(longer) == 10 * value + digit);
            decimal_value_grows(digits, i - start + 1);
        }
        if value > (u32::MAX - digit) / 10 {
            assert(10 * value + digit > u32::MAX);
            return None;
        }
        value = value * 10 + digit;
        i += 1;
    }
    assert(digits.take(n - start) =~= digits);
    Some(value)
}

/// In front of a text, a piece without a separator only makes the first
/// piece longer.
proof fn field_len_after_piece(piece: Seq<char>, rest: Seq<char>, separator: char)
    requires
        !piece.contains(separator),
    ensures
        field_len(piece + rest, separator) == piece.len() + field_len(rest, separator),
    decreases piece.len(),
{
    if piece.len() == 0 {
        assert(piece + rest =~= rest);
    } else {
        assert(piece[0] != separator);
        let tail = piece.drop_first();
        assert forall|i: int| 0 <= i < tail.len() implies tail[i] != separator by {
            assert(tail[i] == piece[i + 1]);
        }
        field_len_after_piece(tail, rest, separator);
        assert((piece + rest).drop_first() =~= tail + rest);
    }
}

/// A text that is cut after its first piece: the numbers are that of the
/// first piece, then those of the rest.
proof fn numbers_after_separator(piece: Seq<char>, rest: Seq<char>, separator: char)
    requires
        !piece.contains(separator),
    ensures
        numbers_in(split(piece + seq![separator] + rest, separator)) == number_in(piece)
            + numbers_in(split(rest, separator)),
{
    let text = piece + seq![separator] + rest;
    field_len_after_piece(piece, seq![separator] + rest, separator);
    assert(text =~= piece + (seq![separator] + rest));
    assert(field_len(seq![separator] + rest, separator) == 0);
    assert(text.take(piece.len() as int) =~= piece);
    assert(text.skip(piece.len() as int + 1) =~= rest);
    let pieces = split(text, separator);
    assert(pieces == seq![piece] + split(rest, separator));
    assert(pieces.first() == piece);
    assert(pieces.drop_first() =~= split(rest, separator));
}

/// A text without a separator is one piece.
proof fn numbers_of_last_piece(piece: Seq<char>, separator: char)
    requires
        !piece.contains(separator),
    ensures
        numbers_in(split(piece, separator)) == number_in(piece),
{
    field_len_after_piece(piece, seq![], separator);
    assert(piece + seq![] =~= piece);
    let pieces = split(piece, separator);
    assert(pieces == seq![piece]);
    assert(pieces.first() == piece);
    assert(pieces.drop_first() =~= seq![]);
    assert(numbers_in(pieces.drop_first()) =~= seq![]);
    assert(number_in(piece) + seq![] =~= number_in(piece));
}

/// The characters of a string.
fn chars_of(input: &str) -> (chars: Vec<char>)
    ensures
        chars@ == input@,
{
    let mut chars: Vec<char> = Vec::new();
    for c in it: input.chars()
        invariant
            it.seq() == input@,
            chars@ == it.seq().take(it.index() as int),
    {
        chars.push(c);
        assert(chars@ =~= it.seq().take(it.index() + 1));
    }
    assert(chars@ =~= input@);
    chars
}

/// Where the text begins and ends once the white space around it is
/// dropped.
fn trim_bounds(chars: &Vec<char>) -> (bounds: (usize, usize))
    ensures
        bounds.0 <= bounds.1 <= chars@.len(),
        chars@.subrange(bounds.0 as int, bounds.1 as int) == trim(chars@),
{
    let n = chars.len();
    let mut start: usize = 0;
    assert(chars@.skip(0) =~= chars@);
    while start < n && char_is_whitespace(chars[start])
        invariant
            start <= n,
            n == chars@.len(),
            trim_start(chars@) == trim_start(chars@.skip(start as int)),
        decreases n - start,
    {
        assert(chars@.skip(start as int).drop_first() =~= chars@.skip(start + 1));
        start += 1;
    }
    assert(trim_start(chars@) == chars@.skip(start as int));
    assert(chars@.skip(start as int) =~= chars@.subrange(start as int, n as int));
    let mut end: usize = n;
    while end > start && char_is_whitespace(chars[end - 1])
        invariant
            start <= end <= n,
            n == chars@.len(),
            trim(chars@) == trim_end(chars@.subrange(start as int, end as int)),
        decreases end,
    {
        assert(chars@.subrange(start as int, end as int).drop_last() =~= chars@.subrange(
            start as int,
            end - 1,
        ));
        end -= 1;
    }
    (start, end)
}

/// The numbers written between the separators of `chars[start..end]`.
fn numbers_between(chars: &Vec<char>, start: usize, end: usize, separator: char) -> (numbers: Vec<
    u32,
>)
    requires
        start <= end <= chars@.len(),
    ensures
        numbers@ == numbers_in(split(chars@.subrange(start as int, end as int), separator)),
{
    let ghost text = chars@.subrange(start as int, end as int);
    let mut numbers: Vec<u32> = Vec::new();
    let mut piece: Vec<char> = Vec::new();
    let mut i: usize = start;
    assert(piece@ + text.skip(0) =~= text);
    while i < end
        invariant
            start <= i <= end <= chars@.len(),
            text == chars@.subrange(start as int, end as int),
            !piece@.contains(separator),
            numbers_in(split(text, separator)) == numbers@ + numbers_in(
                split(piece@ + text.skip(i - start), separator),
            ),
        decreases end - i,
    {
        let c = chars[i];
        let ghost rest = text.skip(i - start + 1);
        assert(text.skip(i - start) =~= seq![c] + rest);
        if c == separator {
            proof {
                numbers_after_separator(piece@, rest, separator);
                assert(piece@ + text.skip(i - start) =~= piece@ + seq![separator] + rest);
            }
            let ghost before = numbers@;
            match parse_u32(&piece) {
                Some(number) => {
                    numbers.push(number);
                },
                None => {},
            }
            assert(numbers@ =~= before + number_in(piece@));
            piece = Vec::new();
            assert(piece@ + rest =~= rest);
        } else {
            let ghost shorter = piece@;
            piece.push(c);
            assert(piece@ + rest =~= shorter + text.skip(i - start));
            assert forall|k: int| 0 <= k < piece@.len() implies piece@[k] != separator by {
                if k < shorter.len() {
                    assert(shorter[k] == piece@[k]);
                    assert(shorter.contains(shorter[k]));
                }
            }
        }
        i += 1;
    }
    proof {
        assert(piece@ + text.skip(end - start) =~= piece@);
        numbers_of_last_piece(piece@, separator);
    }
    let ghost before = numbers@;
    match parse_u32(&piece) {
        Some(number) => {
            numbers.push(number);
        },
        None => {},
    }
    assert(numbers@ =~= before + number_in(piece@));
    numbers
}

/// Takes the first two numbers with `Itertools::next_tuple`, which asks the
/// iterator for as many items as the tuple has places and gives the tuple if
/// it got them all, and nothing if the iterator ran out before.
#[verifier::external_body]
fn first_pair(numbers: Vec<u32>) -> (pair: Option<(u32, u32)>)
    ensures
        pair == first_two(numbers@),
{
    numbers.into_iter().next_tuple()
}

/// Reads a move from a line of input such as `"1-2"`: the row, a `-`, the
/// column. White space around the line is dropped; of the pieces between
/// the `-` signs, those that do not write a `u32` are passed over, and the
/// first two that do are the move. A line with fewer than two numbers asks
/// for no move.
pub fn parse_move(input: &str) -> (request: Option<(u32, u32)>)
    ensures
        request == parsed_move(input@),
{
    let chars = chars_of(input);
    let (start, end) = trim_bounds(&chars);
    let numbers = numbers_between(&chars, start, end, '-');
    first_pair(numbers)
}

} // verus!
