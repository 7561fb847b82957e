//! Decimal numerals and small helpers on text.

use vstd::prelude::*;

verus! {

/// The views of a list of texts, in order.
pub open spec fn text_views(texts: Seq<String>) -> Seq<Seq<char>> {
    texts.map_values(|t: String| t@)
}

/// The character that writes the digit `d`.
pub open spec fn digit_char(d: nat) -> char
    recommends
        d < 10,
{
    if d == 0 {
        '0'
    } else if d == 1 {
        '1'
    } else if d == 2 {
        '2'
    } else if d == 3 {
        '3'
    } else if d == 4 {
        '4'
    } else if d == 5 {
        '5'
    } else if d == 6 {
        '6'
    } else if d == 7 {
        '7'
    } else if d == 8 {
        '8'
    } else {
        '9'
    }
}

/// The decimal numeral of `n`: no sign, no leading zero, `"0"` for zero.
pub open spec fn decimal(n: nat) -> Seq<char>
    decreases n,
{
    if n < 10 {
        seq![digit_char(n)]
    } else {
        decimal(n / 10).push(digit_char(n % 10))
    }
}

/// The decimal numeral of a signed number: a minus sign before the numeral
/// of its magnitude when it is negative.
pub open spec fn signed_decimal(n: int) -> Seq<char> {
    if n < 0 {
        seq!['-'] + decimal((-n) as nat)
    } else {
        decimal(n as nat)
    }
}

/// A numeral is never empty.
pub proof fn lemma_decimal_nonempty(n: nat)
    ensures
        decimal(n).len() >= 1,
    decreases n,
{
    if n >= 10 {
        lemma_decimal_nonempty(n / 10);
    }
}

/// A numeral has one character exactly when the number is below ten.
pub proof fn lemma_decimal_single(n: nat)
    ensures
        decimal(n).len() == 1 <==> n < 10,
    decreases n,
{
    if n >= 10 {
        lemma_decimal_nonempty(n / 10);
    }
}

/// Two numbers with the same numeral are the same number.
pub proof fn lemma_decimal_injective(a: nat, b: nat)
    requires
        decimal(a) == decimal(b),
    ensures
        a == b,
    decreases a,
{
    lemma_decimal_single(a);
    lemma_decimal_single(b);
    if a < 10 {
        assert(decimal(a)[0] == digit_char(a));
        assert(decimal(b)[0] == digit_char(b));
    } else {
        let da = decimal(a / 10);
        let db = decimal(b / 10);
        assert(decimal(a).drop_last() =~= da);
        assert(decimal(b).drop_last() =~= db);
        assert(decimal(a).last() == digit_char(a % 10));
        assert(decimal(b).last() == digit_char(b % 10));
        lemma_decimal_injective(a / 10, b / 10);
        assert(a % 10 == b % 10);
        assert(a == 10 * (a / 10) + a % 10);
        assert(b == 10 * (b / 10) + b % 10);
    }
}

/// The one-character text of a digit.
fn digit_text(d: u64) -> (r: &'static str)
    requires
        d < 10,
    ensures
        r@ == seq![digit_char(d as nat)],
{
    proof {
        reveal_strlit("0");
        reveal_strlit("1");
        reveal_strlit("2");
        reveal_strlit("3");
        reveal_strlit("4");
        reveal_strlit("5");
        reveal_strlit("6");
        reveal_strlit("7");
        reveal_strlit("8");
        reveal_strlit("9");
    }
    let r = if d == 0 {
        "0"
    } else if d == 1 {
        "1"
    } else if d == 2 {
        "2"
    } else if d == 3 {
        "3"
    } else if d == 4 {
        "4"
    } else if d == 5 {
        "5"
    } else if d == 6 {
        "6"
    } else if d == 7 {
        "7"
    } else if d == 8 {
        "8"
    } else {
        "9"
    };
    assert(r@ =~= seq![digit_char(d as nat)]);
    r
}

/// Writes `n` as a decimal numeral.
pub fn render_decimal(n: u64) -> (r: String)
    ensures
        r@ == decimal(n as nat),
    decreases n,
{
    if n < 10 {
        String::from_str(digit_text(n))
    } else {
        let mut r = render_decimal(n / 10);
        r.append(digit_text(n % 10));
        assert(r@ =~= decimal(n as nat));
        r
    }
}

/// Writes a signed number as a decimal numeral.
pub fn render_signed(n: i64) -> (r: String)
    ensures
        r@ == signed_decimal(n as int),
{
    if n < 0 {
        proof {
            reveal_strlit("-");
        }
        let magnitude: u64 = if n == i64::MIN {
            9223372036854775808u64
        } else {
            (-n) as u64
        };
        let mut r = String::from_str("-");
        let digits = render_decimal(magnitude);
        r.append(digits.as_str());
        assert(r@ =~= signed_decimal(n as int));
        r
    } else {
        render_decimal(n as u64)
    }
}

/// Whether `text` begins with `prefix`.
pub fn has_prefix(text: &str, prefix: &str) -> (r: bool)
    ensures
        r == prefix@.is_prefix_of(text@),
{
    let wanted: usize = prefix.unicode_len();
    let given: usize = text.unicode_len();
    if wanted > given {
        return false;
    }
    let mut i: usize = 0;
    while i < wanted
        invariant
            wanted == prefix@.len(),
            given == text@.len(),
            wanted <= given,
            i <= wanted,
            forall|j: int| 0 <= j < i ==> prefix@[j] == text@[j],
        decreases wanted - i,
    {
        if prefix.get_char(i) != text.get_char(i) {
            assert(text@.subrange(0, wanted as int)[i as int] != prefix@[i as int]);
            return false;
        }
        i += 1;
    }
    assert(prefix@ =~= text@.subrange(0, wanted as int));
    true
}

/// The text that follows the first `start` characters of `text`.
pub fn text_from(text: &str, start: usize) -> (r: String)
    requires
        start <= text@.len(),
    ensures
        r@ == text@.skip(start as int),
{
    let end: usize = text.unicode_len();
    text_between(text, start, end)
}

/// `head` followed by `tail`, as a new text.
pub fn joined(head: &str, tail: &str) -> (r: String)
    ensures
        r@ == head@ + tail@,
{
    let mut r = String::from_str(head);
    r.append(tail);
    r
}

/// Whether a character with the given code is white space: a blank, a tab,
/// a line or page break, or one of the other spaces that Unicode counts as
/// white space.
pub open spec fn is_space_code(code: u32) -> bool {
    ||| 0x9 <= code <= 0xD
    ||| code == 0x20
    ||| code == 0x85
    ||| code == 0xA0
    ||| code == 0x1680
    ||| 0x2000 <= code <= 0x200A
    ||| code == 0x2028
    ||| code == 0x2029
    ||| code == 0x202F
    ||| code == 0x205F
    ||| code == 0x3000
}

/// Whether a character is white space.
pub open spec fn is_space(c: char) -> bool {
    is_space_code(c as u32)
}

/// A word that has come to its end, as a list: nothing if the word is
/// empty.
pub open spec fn closed_word(word: Seq<char>) -> Seq<Seq<char>> {
    if word.len() == 0 {
        Seq::empty()
    } else {
        seq![word]
    }
}

/// The words of `text`, read from its beginning, when `word` is what has
/// been read of a word so far: a white space ends the word, any other
/// character adds to it.
pub open spec fn words_from(text: Seq<char>, word: Seq<char>) -> Seq<Seq<char>>
    decreases text.len(),
{
    if text.len() == 0 {
        closed_word(word)
    } else if is_space(text[0]) {
        closed_word(word) + words_from(text.skip(1), Seq::empty())
    } else {
        words_from(text.skip(1), word.push(text[0]))
    }
}

/// The words of a text: its longest stretches without white space, in
/// order. None of them is empty.
pub open spec fn whitespace_words(text: Seq<char>) -> Seq<Seq<char>> {
    words_from(text, Seq::empty())
}

/// Whether a character is white space.
pub fn is_whitespace(c: char) -> (r: bool)
    ensures
        r == is_space(c),
{
    let code: u32 = c as u32;
    (0x9 <= code && code <= 0xD) || code == 0x20 || code == 0x85 || code == 0xA0 || code == 0x1680
        || (0x2000 <= code && code <= 0x200A) || code == 0x2028 || code == 0x2029 || code
        == 0x202F || code == 0x205F || code == 0x3000
}

/// The words of a text, in order.
pub fn split_words(text: &str) -> (r: Vec<String>)
    ensures
        text_views(r@) == whitespace_words(text@),
{
    let ghost all = text@;
    let length: usize = text.unicode_len();
    let mut words: Vec<String> = Vec::new();
    let mut start: usize = 0;
    let mut i: usize = 0;
    proof {
        assert(all.skip(0) =~= all);
        assert(all.subrange(0, 0) =~= Seq::<char>::empty());
        assert(text_views(words@) + whitespace_words(all)
            =~= whitespace_words(all));
    }
    while i < length
        invariant
            all == text@,
            length == all.len(),
            start <= i <= length,
            text_views(words@) + words_from(
                all.skip(i as int),
                all.subrange(start as int, i as int),
            ) == whitespace_words(all),
        decreases length - i,
    {
        let ghost before = text_views(words@);
        let ghost word = all.subrange(start as int, i as int);
        let ghost rest = all.skip(i as int);
        proof {
            assert(rest[0] == all[i as int]);
            assert(rest.skip(1) =~= all.skip(i as int + 1));
        }
        let c = text.get_char(i);
        if is_whitespace(c) {
            if start < i {
                words.push(text_between(text, start, i));
                assert(text_views(words@) =~= before + closed_word(word));
            } else {
                assert(text_views(words@) =~= before + closed_word(word));
            }
            start = i + 1;
            proof {
                assert(all.subrange(start as int, i as int + 1) =~= Seq::<char>::empty());
                assert((before + closed_word(word)) + words_from(
                    all.skip(i as int + 1),
                    Seq::empty(),
                ) =~= before + (closed_word(word) + words_from(
                    all.skip(i as int + 1),
                    Seq::empty(),
                )));
            }
        } else {
            proof {
                assert(all.subrange(start as int, i as int + 1) =~= word.push(all[i as int]));
            }
        }
        i += 1;
    }
    let ghost before = text_views(words@);
    let ghost word = all.subrange(start as int, length as int);
    proof {
        assert(all.skip(length as int) =~= Seq::<char>::empty());
    }
    if start < length {
        words.push(text_between(text, start, length));
    }
    assert(text_views(words@) =~= before + closed_word(word));
    words
}

/// The characters of `text` from the place `from` up to the place `to`.
pub fn text_between(text: &str, from: usize, to: usize) -> (r: String)
    requires
        from <= to <= text@.len(),
    ensures
        r@ == text@.subrange(from as int, to as int),
{
    String::from_str(text.substring_char(from, to))
}

} // verus!
