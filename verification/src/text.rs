//! Texts: comparing, trimming, splitting, joining, and numbers in decimal.

use vstd::prelude::*;
use vstd::string::*;

verus! {

/// `String::push` appends a character.
pub assume_specification[ String::push ](text: &mut String, c: char)
    ensures
        final(text)@ == old(text)@.push(c),
;

/// Whether two texts are the same.
pub fn same_text(a: &str, b: &str) -> (same: bool)
    ensures
        same == (a@ == b@),
{
    let mut left = a.chars();
    let mut right = b.chars();
    let ghost mut n: int = 0;
    assert(a@.skip(0) == a@);
    assert(b@.skip(0) == b@);
    loop
        invariant
            0 <= n <= a@.len(),
            n <= b@.len(),
            a@.take(n) == b@.take(n),
            vstd::std_specs::iter::IteratorSpec::remaining(&left) == a@.skip(n),
            vstd::std_specs::iter::IteratorSpec::remaining(&right) == b@.skip(n),
        decreases a@.len() - n,
    {
        let x = left.next();
        let y = right.next();
        match (x, y) {
            (Some(c), Some(d)) => {
                if c != d {
                    assert(a@[n] != b@[n]);
                    return false;
                }
                assert(a@.take(n + 1) == a@.take(n).push(a@[n]));
                assert(b@.take(n + 1) == b@.take(n).push(b@[n]));
                proof {
                    n = n + 1;
                }
            },
            (None, None) => {
                assert(a@.take(n) == a@);
                assert(b@.take(n) == b@);
                return true;
            },
            _ => {
                return false;
            },
        }
    }
}

/// The characters with Unicode's White_Space property.
pub open spec fn is_white_space(c: char) -> bool {
    let n = c as u32;
    ||| 0x09 <= n <= 0x0d
    ||| n == 0x20
    ||| n == 0x85
    ||| n == 0xa0
    ||| n == 0x1680
    ||| 0x2000 <= n <= 0x200a
    ||| n == 0x2028
    ||| n == 0x2029
    ||| n == 0x202f
    ||| n == 0x205f
    ||| n == 0x3000
}

/// Whether a character is white space.
pub fn white_space(c: char) -> (white: bool)
    ensures
        white == is_white_space(c),
{
    let n: u32 = c as u32;
    (0x09 <= n && n <= 0x0d) || n == 0x20 || n == 0x85 || n == 0xa0 || n == 0x1680 || (0x2000 <= n
        && n <= 0x200a) || n == 0x2028 || n == 0x2029 || n == 0x202f || n == 0x205f || n == 0x3000
}

/// A text without the white space that it starts with.
pub open spec fn trimmed_start(text: Seq<char>) -> Seq<char>
    decreases text.len(),
{
    if text.len() > 0 && is_white_space(text[0]) {
        trimmed_start(text.drop_first())
    } else {
        text
    }
}

/// A text without the white space that it ends with.
pub open spec fn trimmed_end(text: Seq<char>) -> Seq<char>
    decreases text.len(),
{
    if text.len() > 0 && is_white_space(text.last()) {
        trimmed_end(text.drop_last())
    } else {
        text
    }
}

/// A text without the white space at its two ends.
pub open spec fn trimmed(text: Seq<char>) -> Seq<char> {
    trimmed_end(trimmed_start(text))
}

/// The characters of a text.
fn characters(text: &str) -> (chars: Vec<char>)
    ensures
        chars@ == text@,
{
    let mut chars: Vec<char> = Vec::new();
    for c in it: text.chars()
        invariant
            it.seq() == text@,
            chars@ == text@.take(it.index()),
    {
        chars.push(c);
        assert(text@.take(it.index() + 1) == text@.take(it.index()).push(c));
    }
    assert(text@.take(text@.len() as int) == text@);
    chars
}

/// The characters from one place up to another.
fn stretch(chars: &Vec<char>, from: usize, to: usize) -> (text: String)
    requires
        from <= to <= chars@.len(),
    ensures
        text@ == chars@.subrange(from as int, to as int),
{
    let mut text = String::new();
    let mut i: usize = from;
    while i < to
        invariant
            from <= i <= to <= chars@.len(),
            text@ == chars@.subrange(from as int, i as int),
        decreases to - i,
    {
        text.push(chars[i]);
        assert(chars@.subrange(from as int, i + 1) == chars@.subrange(from as int, i as int).push(
            chars@[i as int],
        ));
        i = i + 1;
    }
    text
}

/// Takes the white space off the two ends of a text.
pub fn trim(text: &str) -> (result: String)
    ensures
        result@ == trimmed(text@),
{
    let chars = characters(text);
    let mut from: usize = 0;
    assert(chars@.skip(0) == chars@);
    while from < chars.len() && white_space(chars[from])
        invariant
            from <= chars@.len(),
            trimmed_start(chars@) == trimmed_start(chars@.skip(from as int)),
        decreases chars@.len() - from,
    {
        assert(chars@.skip(from as int).drop_first() == chars@.skip(from + 1));
        from = from + 1;
    }
    let ghost rest = chars@.skip(from as int);
    let mut to: usize = chars.len();
    assert(chars@.subrange(from as int, to as int) == rest);
    while to > from && white_space(chars[to - 1])
        invariant
            from <= to <= chars@.len(),
            trimmed_end(rest) == trimmed_end(chars@.subrange(from as int, to as int)),
        decreases to,
    {
        assert(chars@.subrange(from as int, to as int).drop_last() == chars@.subrange(
            from as int,
            to - 1,
        ));
        to = to - 1;
    }
    stretch(&chars, from, to)
}

/// Whether a text holds nothing but white space.
pub fn is_blank(text: &str) -> (blank: bool)
    ensures
        blank == (trimmed(text@).len() == 0),
{
    let ghost mut n: int = 0;
    let mut chars = text.chars();
    assert(text@.skip(0) == text@);
    loop
        invariant
            0 <= n <= text@.len(),
            vstd::std_specs::iter::IteratorSpec::remaining(&chars) == text@.skip(n),
            trimmed_start(text@) == trimmed_start(text@.skip(n)),
        decreases text@.len() - n,
    {
        match chars.next() {
            Some(c) => {
                if !white_space(c) {
                    proof {
                        lemma_trimmed_end_keeps_start(text@.skip(n));
                    }
                    return false;
                }
                assert(text@.skip(n).drop_first() == text@.skip(n + 1));
                proof {
                    n = n + 1;
                }
            },
            None => {
                return true;
            },
        }
    }
}

proof fn lemma_trimmed_end_keeps_start(text: Seq<char>)
    requires
        text.len() > 0,
        !is_white_space(text[0]),
    ensures
        trimmed_end(text).len() > 0,
    decreases text.len(),
{
    if is_white_space(text.last()) {
        lemma_trimmed_end_keeps_start(text.drop_last());
    }
}

/// What is left of a text after trimming is a stretch of it between white
/// space, and it neither starts nor ends with white space.
pub proof fn law_trimmed(text: Seq<char>)
    ensures
        exists|from: int, to: int|
            #![trigger text.subrange(from, to)]
            0 <= from <= to <= text.len() && trimmed(text) == text.subrange(from, to) && (forall|
                i: int,
            |
                0 <= i < from || to <= i < text.len() ==> is_white_space(#[trigger] text[i])),
        trimmed(text).len() > 0 ==> !is_white_space(trimmed(text)[0]) && !is_white_space(
            trimmed(text).last(),
        ),
{
    let start = lemma_trimmed_start(text);
    let rest = trimmed_start(text);
    let length = lemma_trimmed_end(rest);
    assert(trimmed(text) == text.subrange(start, start + length));
    assert forall|i: int| 0 <= i < start || start + length <= i < text.len() implies is_white_space(
        #[trigger] text[i],
    ) by {
        if i >= start {
            assert(rest[i - start] == text[i]);
        }
    }
}

proof fn lemma_trimmed_start(text: Seq<char>) -> (start: int)
    ensures
        0 <= start <= text.len(),
        trimmed_start(text) == text.skip(start),
        forall|i: int| 0 <= i < start ==> is_white_space(#[trigger] text[i]),
        start < text.len() ==> !is_white_space(text[start]),
    decreases text.len(),
{
    if text.len() > 0 && is_white_space(text[0]) {
        let below = lemma_trimmed_start(text.drop_first());
        assert(text.drop_first().skip(below) == text.skip(below + 1));
        assert forall|i: int| 0 <= i < below + 1 implies is_white_space(#[trigger] text[i]) by {
            if i > 0 {
                assert(text.drop_first()[i - 1] == text[i]);
            }
        }
        below + 1
    } else {
        assert(text.skip(0) == text);
        0
    }
}

proof fn lemma_trimmed_end(text: Seq<char>) -> (length: int)
    ensures
        0 <= length <= text.len(),
        trimmed_end(text) == text.take(length),
        forall|i: int| length <= i < text.len() ==> is_white_space(#[trigger] text[i]),
        length > 0 ==> !is_white_space(text[length - 1]),
    decreases text.len(),
{
    if text.len() > 0 && is_white_space(text.last()) {
        let length = lemma_trimmed_end(text.drop_last());
        assert(text.drop_last().take(length) == text.take(length));
        assert forall|i: int| length <= i < text.len() implies is_white_space(
            #[trigger] text[i],
        ) by {
            if i < text.len() - 1 {
                assert(text.drop_last()[i] == text[i]);
            }
        }
        length
    } else {
        assert(text.take(text.len() as int) == text);
        text.len() as int
    }
}

/// The texts that a list holds.
pub open spec fn texts(list: Seq<String>) -> Seq<Seq<char>> {
    list.map_values(|t: String| t@)
}

/// A text cut at every separator.
pub open spec fn pieces(text: Seq<char>, separator: char) -> Seq<Seq<char>>
    decreases text.len(),
{
    if text.len() == 0 {
        seq![Seq::empty()]
    } else {
        let before = pieces(text.drop_last(), separator);
        if text.last() == separator {
            before.push(Seq::empty())
        } else {
            before.drop_last().push(before.last().push(text.last()))
        }
    }
}

/// Cuts a text at every separator.
pub fn split(text: &str, separator: char) -> (list: Vec<String>)
    ensures
        texts(list@) == pieces(text@, separator),
{
    let mut list: Vec<String> = Vec::new();
    let mut piece = String::new();
    assert(texts(list@).push(piece@) == pieces(text@.take(0), separator));
    for c in it: text.chars()
        invariant
            it.seq() == text@,
            texts(list@).push(piece@) == pieces(text@.take(it.index()), separator),
    {
        let ghost i = it.index();
        assert(text@.take(i + 1).drop_last() == text@.take(i));
        if c == separator {
            let ghost before = texts(list@);
            list.push(piece);
            assert(texts(list@) == before.push(piece@));
            piece = String::new();
        } else {
            assert(texts(list@).push(piece@).drop_last() == texts(list@));
            piece.push(c);
        }
    }
    assert(text@.take(text@.len() as int) == text@);
    let ghost before = texts(list@);
    list.push(piece);
    assert(texts(list@) == before.push(piece@));
    list
}

/// Texts one after the other, with a separator between two.
pub open spec fn joined(list: Seq<Seq<char>>, separator: Seq<char>) -> Seq<char>
    decreases list.len(),
{
    if list.len() == 0 {
        Seq::empty()
    } else if list.len() == 1 {
        list[0]
    } else {
        joined(list.drop_last(), separator) + separator + list.last()
    }
}

/// Joins texts, with a separator between two.
pub fn join(list: &[String], separator: &str) -> (text: String)
    ensures
        text@ == joined(texts(list@), separator@),
{
    let mut text = String::new();
    let mut i: usize = 0;
    while i < list.len()
        invariant
            i <= list@.len(),
            text@ == joined(texts(list@).take(i as int), separator@),
        decreases list@.len() - i,
    {
        if i > 0 {
            text.append(separator);
        }
        text.append(list[i].as_str());
        assert(texts(list@).take(i + 1).drop_last() == texts(list@).take(i as int));
        i = i + 1;
    }
    assert(texts(list@).take(i as int) == texts(list@));
    text
}

/// Cutting a text at a separator loses nothing but the separators: joining the
/// pieces gives the text back, and no piece holds the separator.
pub proof fn law_pieces(text: Seq<char>, separator: char)
    ensures
        pieces(text, separator).len() > 0,
        joined(pieces(text, separator), seq![separator]) == text,
        forall|i: int|
            0 <= i < pieces(text, separator).len() ==> !(#[trigger] pieces(
                text,
                separator,
            )[i]).contains(separator),
    decreases text.len(),
{
    let all = pieces(text, separator);
    if text.len() > 0 {
        let start = text.drop_last();
        let before = pieces(start, separator);
        law_pieces(start, separator);
        assert(text == start.push(text.last()));
        if text.last() == separator {
            assert(all.drop_last() == before);
            assert(joined(all, seq![separator]) == start + seq![separator] + Seq::<char>::empty());
        } else {
            assert(all.drop_last() == before.drop_last());
            assert(joined(all, seq![separator]) == joined(before, seq![separator]).push(
                text.last(),
            ));
        }
        assert forall|i: int| 0 <= i < all.len() implies !(#[trigger] all[i]).contains(
            separator,
        ) by {
            if i < before.len() {
                assert(!before[i].contains(separator));
                if all[i].contains(separator) {
                    let k = choose|k: int| 0 <= k < all[i].len() && all[i][k] == separator;
                    assert(before[i][k] == separator);
                }
            }
        }
    }
}

/// A decimal digit.
pub open spec fn digit(value: nat) -> char {
    ('0' as u32 + value) as char
}

/// A number in decimal.
pub open spec fn decimal(value: nat) -> Seq<char>
    decreases value,
{
    if value < 10 {
        seq![digit(value)]
    } else {
        decimal(value / 10).push(digit(value % 10))
    }
}

/// Writes a number in decimal.
pub fn write_decimal(value: u64) -> (text: String)
    ensures
        text@ == decimal(value as nat),
    decreases value,
{
    let last: char = (0x30 + (value % 10) as u8) as char;
    let mut text = if value < 10 {
        String::new()
    } else {
        write_decimal(value / 10)
    };
    text.push(last);
    text
}

/// A number in decimal, with a sign where it is negative.
pub open spec fn signed_decimal(value: int) -> Seq<char> {
    if value < 0 {
        "-"@ + decimal((-value) as nat)
    } else {
        decimal(value as nat)
    }
}

/// Writes a number in decimal, with a sign where it is negative.
pub fn write_signed_decimal(value: i32) -> (text: String)
    ensures
        text@ == signed_decimal(value as int),
{
    if value < 0 {
        let mut text = "-".to_owned();
        let size: u64 = (-(value as i64)) as u64;
        text.append(write_decimal(size).as_str());
        text
    } else {
        write_decimal(value as u64)
    }
}

/// Different numbers are written differently.
pub proof fn law_decimal_injective(a: nat, b: nat)
    requires
        decimal(a) == decimal(b),
    ensures
        a == b,
    decreases a,
{
    assert(decimal(a).last() == digit(a % 10));
    assert(decimal(b).last() == digit(b % 10));
    if a < 10 {
        assert(decimal(a).len() == 1);
        if b >= 10 {
            assert(decimal(b / 10).len() > 0);
        }
    } else {
        assert(decimal(a / 10).len() > 0);
        assert(b >= 10);
        assert(decimal(a).drop_last() == decimal(a / 10));
        assert(decimal(b).drop_last() == decimal(b / 10));
        law_decimal_injective(a / 10, b / 10);
    }
}

/// Joining texts that do not hold the separator loses nothing: cutting what
/// comes out gives them back.
pub proof fn law_joined(list: Seq<Seq<char>>, separator: char)
    requires
        list.len() > 0,
        forall|i: int| 0 <= i < list.len() ==> !(#[trigger] list[i]).contains(separator),
    ensures
        pieces(joined(list, seq![separator]), separator) == list,
    decreases list.len(),
{
    let last = list.last();
    if list.len() == 1 {
        lemma_pieces_append(Seq::empty(), last, separator);
        assert(Seq::<char>::empty() + last == last);
        assert(pieces(Seq::empty(), separator) == seq![Seq::<char>::empty()]);
        assert(pieces(last, separator) == list);
    } else {
        let before = list.drop_last();
        let start = joined(before, seq![separator]);
        assert forall|i: int| 0 <= i < before.len() implies !(#[trigger] before[i]).contains(
            separator,
        ) by {
            assert(before[i] == list[i]);
        }
        law_joined(before, separator);
        let cut = start + seq![separator];
        assert(cut.drop_last() == start);
        assert(pieces(cut, separator) == before.push(Seq::empty()));
        lemma_pieces_append(cut, last, separator);
        assert(pieces(cut, separator).drop_last() == before);
        assert(Seq::<char>::empty() + last == last);
        assert(pieces(cut + last, separator) == before.push(last));
    }
}

/// Text without a separator goes to the last piece.
proof fn lemma_pieces_append(text: Seq<char>, more: Seq<char>, separator: char)
    requires
        !more.contains(separator),
    ensures
        pieces(text, separator).len() > 0,
        pieces(text + more, separator) == pieces(text, separator).drop_last().push(
            pieces(text, separator).last() + more,
        ),
    decreases more.len(),
{
    law_pieces(text, separator);
    let all = pieces(text, separator);
    if more.len() == 0 {
        assert(text + more == text);
        assert(all.last() + more == all.last());
        assert(all.drop_last().push(all.last()) == all);
    } else {
        let less = more.drop_last();
        assert(more.contains(more.last())) by {
            assert(more[more.len() - 1] == more.last());
        }
        assert(!less.contains(separator)) by {
            if less.contains(separator) {
                let k = choose|k: int| 0 <= k < less.len() && less[k] == separator;
                assert(more[k] == separator);
            }
        }
        lemma_pieces_append(text, less, separator);
        assert((text + more).drop_last() == text + less);
        let before = pieces(text + less, separator);
        assert(before.drop_last() == all.drop_last());
        assert((all.last() + less).push(more.last()) == all.last() + more);
    }
}

/// The number that decimal digits stand for.
pub open spec fn number(digits: Seq<char>) -> nat
    decreases digits.len(),
{
    if digits.len() == 0 {
        0
    } else {
        (number(digits.drop_last()) * 10 + (digits.last() as int - '0' as int)) as nat
    }
}

/// The number that decimal digits stand for, with a sign where there is one.
pub open spec fn signed_number(text: Seq<char>) -> int {
    if text.len() > 0 && text[0] == '-' {
        -(number(text.drop_first()) as int)
    } else {
        number(text) as int
    }
}

/// Whether a text holds nothing but decimal digits.
pub open spec fn all_digits(text: Seq<char>) -> bool {
    forall|i: int| 0 <= i < text.len() ==> '0' as int <= (#[trigger] text[i]) as int <= '9' as int
}

/// A number in decimal is written in digits, is read back as the number that
/// it was, and has no zero in front of it.
pub proof fn law_decimal_reads_back(value: nat)
    ensures
        decimal(value).len() > 0,
        all_digits(decimal(value)),
        number(decimal(value)) == value,
        value > 0 ==> decimal(value)[0] != '0',
        value == 0 ==> decimal(value) == seq!['0'],
    decreases value,
{
    let text = decimal(value);
    if value < 10 {
        assert(number(Seq::empty()) == 0);
        assert(text.drop_last() =~= Seq::<char>::empty());
        assert(text.last() as int == '0' as int + value);
        assert(number(text) == value);
    } else {
        law_decimal_reads_back(value / 10);
        assert(text.drop_last() =~= decimal(value / 10));
        assert(text.last() as int == '0' as int + value % 10);
        assert(number(text) == (value / 10) * 10 + value % 10);
    }
}

/// A number is read back as it was, whether or not it has a sign; only a
/// negative one has.
pub proof fn law_signed_decimal_reads_back(value: int)
    ensures
        signed_decimal(value).len() > 0,
        signed_number(signed_decimal(value)) == value,
        signed_decimal(value)[0] == '-' <==> value < 0,
        value >= 0 ==> all_digits(signed_decimal(value)),
        value < 0 ==> all_digits(signed_decimal(value).drop_first()),
{
    reveal_strlit("-");
    if value < 0 {
        let size = (-value) as nat;
        law_decimal_reads_back(size);
        assert(signed_decimal(value).drop_first() =~= decimal(size));
    } else {
        law_decimal_reads_back(value as nat);
        assert(signed_decimal(value) == decimal(value as nat));
        assert(all_digits(decimal(value as nat)));
        assert('-' as int != decimal(value as nat)[0] as int);
    }
}

/// Different numbers are written differently, whatever their signs.
pub proof fn law_signed_decimal_injective(a: int, b: int)
    requires
        signed_decimal(a) == signed_decimal(b),
    ensures
        a == b,
{
    law_signed_decimal_reads_back(a);
    law_signed_decimal_reads_back(b);
}

/// Of the characters of ASCII, the space and those from the tab to the carriage
/// return are white space; beyond it, those in the list.
pub proof fn law_white_space(c: char)
    ensures
        c == ' ' || c == '\t' || c == '\n' || c == '\r' ==> is_white_space(c),
        c as int == 0x0b || c as int == 0x0c ==> is_white_space(c),
        (c as int) < 0x09 || 0x0d < (c as int) < 0x20 || 0x20 < (c as int) < 0x85
            ==> !is_white_space(c),
        c as int >= 0x85 ==> (is_white_space(c) <==> seq![
            0x85int,
            0xa0,
            0x1680,
            0x2000,
            0x2001,
            0x2002,
            0x2003,
            0x2004,
            0x2005,
            0x2006,
            0x2007,
            0x2008,
            0x2009,
            0x200a,
            0x2028,
            0x2029,
            0x202f,
            0x205f,
            0x3000,
        ].contains(c as int)),
{
    let n = c as int;
    let wide = seq![
        0x85int,
        0xa0,
        0x1680,
        0x2000,
        0x2001,
        0x2002,
        0x2003,
        0x2004,
        0x2005,
        0x2006,
        0x2007,
        0x2008,
        0x2009,
        0x200a,
        0x2028,
        0x2029,
        0x202f,
        0x205f,
        0x3000,
    ];
    assert(wide[0] == 0x85 && wide[1] == 0xa0 && wide[2] == 0x1680);
    assert(wide[14] == 0x2028 && wide[15] == 0x2029 && wide[16] == 0x202f);
    assert(wide[17] == 0x205f && wide[18] == 0x3000);
    if 0x2000 <= n <= 0x200a {
        assert(wide[3 + n - 0x2000] == n);
    }
    if wide.contains(n) {
        let i = choose|i: int| 0 <= i < wide.len() && wide[i] == n;
        assert(is_white_space(c));
    }
}

/// Nothing is left of a text exactly where all of it is white space.
pub proof fn law_blank(text: Seq<char>)
    ensures
        trimmed(text).len() == 0 <==> forall|i: int|
            0 <= i < text.len() ==> is_white_space(#[trigger] text[i]),
{
    let start = lemma_trimmed_start(text);
    if start < text.len() {
        assert(trimmed_start(text)[0] == text[start]);
        lemma_trimmed_end_keeps_start(trimmed_start(text));
    } else {
        assert(trimmed_start(text).len() == 0);
    }
}

/// A list holds its texts, each in its place.
pub proof fn law_texts(list: Seq<String>)
    ensures
        texts(list).len() == list.len(),
        forall|i: int| 0 <= i < list.len() ==> #[trigger] texts(list)[i] == list[i]@,
{
}

/// Joining puts nothing around a single text, and the separator once between
/// what is joined of one list and what is joined of the next.
pub proof fn law_joined_parts(a: Seq<Seq<char>>, b: Seq<Seq<char>>, separator: Seq<char>)
    requires
        a.len() > 0,
        b.len() > 0,
    ensures
        joined(a + b, separator) == joined(a, separator) + separator + joined(b, separator),
        a.len() == 1 ==> joined(a, separator) == a[0],
        joined(Seq::empty(), separator).len() == 0,
    decreases b.len(),
{
    let all = a + b;
    assert(all.last() == b.last());
    if b.len() == 1 {
        assert(all.drop_last() =~= a);
    } else {
        assert(all.drop_last() =~= a + b.drop_last());
        law_joined_parts(a, b.drop_last(), separator);
        assert(joined(all, separator) =~= joined(a, separator) + separator + joined(b, separator));
    }
}

/// A text is cut at a separator: into the pieces of what stands before it, and
/// then those of what stands behind it. One without a separator is left whole.
pub proof fn law_cut_at_separator(a: Seq<char>, b: Seq<char>, separator: char)
    ensures
        pieces(a.push(separator) + b, separator) == pieces(a, separator) + pieces(b, separator),
        !a.contains(separator) ==> pieces(a, separator) == seq![a],
    decreases b.len(),
{
    if !a.contains(separator) {
        lemma_pieces_append(Seq::empty(), a, separator);
        assert(Seq::<char>::empty() + a =~= a);
        assert(pieces(Seq::empty(), separator) =~= seq![Seq::<char>::empty()]);
        assert(pieces(a, separator) =~= seq![a]);
    }
    let front = pieces(a, separator);
    let all = a.push(separator) + b;
    if b.len() == 0 {
        assert(all =~= a.push(separator));
        assert(a.push(separator).drop_last() =~= a);
        assert(pieces(all, separator) =~= front + pieces(b, separator));
    } else {
        let less = b.drop_last();
        assert(all.drop_last() =~= a.push(separator) + less);
        assert(all.last() == b.last());
        law_cut_at_separator(a, less, separator);
        law_pieces(less, separator);
        let before = pieces(less, separator);
        assert((front + before).last() == before.last());
        assert((front + before).drop_last() =~= front + before.drop_last());
        assert(pieces(all, separator) =~= front + pieces(b, separator));
    }
}

/// A text from a place on, up to the next newline or to its end.
pub open spec fn rest_of_line(text: Seq<char>, from: int) -> Seq<char>
    decreases text.len() - from,
{
    if from < 0 || from >= text.len() || text[from] == '\n' {
        Seq::empty()
    } else {
        seq![text[from]] + rest_of_line(text, from + 1)
    }
}

/// What stands between two texts, the second of which starts with a newline, is
/// the rest of its line.
pub proof fn law_rest_of_line(before: Seq<char>, word: Seq<char>, after: Seq<char>)
    requires
        !word.contains('\n'),
        after.len() > 0,
        after[0] == '\n',
    ensures
        rest_of_line(before + word + after, before.len() as int) == word,
    decreases word.len(),
{
    let text = before + word + after;
    if word.len() > 0 {
        let first = word[0];
        let less = word.drop_first();
        assert(word.contains(first));
        assert forall|i: int| 0 <= i < less.len() implies #[trigger] less[i] != '\n' by {
            assert(less[i] == word[i + 1]);
            assert(word.contains(word[i + 1]));
        }
        law_rest_of_line(before.push(first), less, after);
        assert(before.push(first) + less + after =~= text);
        assert(text[before.len() as int] == first);
        assert(seq![first] + less =~= word);
    } else {
        assert(text[before.len() as int] == '\n');
        assert(rest_of_line(text, before.len() as int) =~= word);
    }
}

/// A number is written without a newline.
pub proof fn law_number_is_on_one_line(value: int)
    ensures
        !signed_decimal(value).contains('\n'),
{
    law_signed_decimal_reads_back(value);
    let text = signed_decimal(value);
    if text.contains('\n') {
        let i = choose|i: int| 0 <= i < text.len() && text[i] == '\n';
        if value < 0 {
            if i > 0 {
                assert(text.drop_first()[i - 1] == text[i]);
            }
        }
        assert(('\n' as int) < '0' as int);
    }
}

} // verus!
