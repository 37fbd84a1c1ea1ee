//! The placeholders of a preview command and the words of an entry's text.
//!
//! A command template holds placeholders in braces. `{}` and `{0}` stand for the whole
//! text of the highlighted entry, `{1}`, `{2}` and so on for its words, counted from
//! one. The words of a text are its runs of characters that are not white space.

use crate::text_buffer::chars_of;
use crate::text_buffer::is_whitespace_char;
use crate::text_buffer::string_of;
use vstd::prelude::*;

verus! {

/// The first position at or after `pos` whose character is (`white == false`) or is not
/// (`white == true`) white space, or the length of the text.
pub open spec fn skip_class(text: Seq<char>, pos: int, white: bool) -> int
    decreases text.len() - pos,
{
    if 0 <= pos < text.len() && is_whitespace_char(text[pos]) == white {
        skip_class(text, pos + 1, white)
    } else {
        pos
    }
}

/// The words of `text` from `pos` on: the runs of characters that are not white space,
/// in their order.
pub open spec fn words_from(text: Seq<char>, pos: int) -> Seq<Seq<char>>
    decreases text.len() - pos,
{
    let start = skip_class(text, pos, true);
    let end = skip_class(text, start, false);
    if pos < 0 || start >= text.len() || end <= pos || end > text.len() {
        Seq::empty()
    } else {
        seq![text.subrange(start, end)] + words_from(text, end)
    }
}

/// The words of `text`.
pub open spec fn words_of(text: Seq<char>) -> Seq<Seq<char>> {
    words_from(text, 0)
}

/// A skip ends in the text, behind every character of the class that it passed.
pub proof fn lemma_skip_class(text: Seq<char>, pos: int, white: bool)
    requires
        0 <= pos <= text.len(),
    ensures
        pos <= skip_class(text, pos, white) <= text.len(),
        forall|i: int|
            pos <= i < skip_class(text, pos, white) ==> is_whitespace_char(#[trigger] text[i])
                == white,
        skip_class(text, pos, white) < text.len() ==> is_whitespace_char(
            text[skip_class(text, pos, white)],
        ) != white,
    decreases text.len() - pos,
{
    if pos < text.len() && is_whitespace_char(text[pos]) == white {
        lemma_skip_class(text, pos + 1, white);
    }
}

/// No word is empty and no word holds white space.
pub proof fn lemma_words_have_no_white_space(text: Seq<char>, pos: int)
    requires
        0 <= pos <= text.len(),
    ensures
        forall|k: int|
            0 <= k < words_from(text, pos).len() ==> (#[trigger] words_from(text, pos)[k]).len()
                > 0,
        forall|k: int, i: int|
            0 <= k < words_from(text, pos).len() && 0 <= i < words_from(text, pos)[k].len()
                ==> !is_whitespace_char(#[trigger] words_from(text, pos)[k][i]),
    decreases text.len() - pos,
{
    let start = skip_class(text, pos, true);
    let end = skip_class(text, start, false);
    lemma_skip_class(text, pos, true);
    lemma_skip_class(text, start, false);
    if start < text.len() && end > pos && end <= text.len() {
        lemma_words_have_no_white_space(text, end);
        let word = text.subrange(start, end);
        let rest = words_from(text, end);
        let all = words_from(text, pos);
        assert(all =~= seq![word] + rest);
        assert(!is_whitespace_char(text[start]));
        assert forall|k: int| 0 <= k < all.len() implies (#[trigger] all[k]).len() > 0 by {
            if k > 0 {
                assert(all[k] == rest[k - 1]);
            }
        }
        assert forall|k: int, i: int|
            0 <= k < all.len() && 0 <= i < all[k].len() implies !is_whitespace_char(
            #[trigger] all[k][i],
        ) by {
            if k > 0 {
                assert(all[k] == rest[k - 1]);
            } else {
                assert(word[i] == text[start + i]);
            }
        }
    }
}

/// Whether `c` is a decimal digit.
pub open spec fn is_digit(c: char) -> bool {
    '0' <= c <= '9'
}

/// The value of a decimal digit.
pub open spec fn digit_value(c: char) -> int {
    c as int - '0' as int
}

/// The end of the run of decimal digits that starts at `pos`.
pub open spec fn digits_end(template: Seq<char>, pos: int) -> int
    decreases template.len() - pos,
{
    if 0 <= pos < template.len() && is_digit(template[pos]) {
        digits_end(template, pos + 1)
    } else {
        pos
    }
}

/// The number that a run of decimal digits denotes.
pub open spec fn decimal_value(digits: Seq<char>) -> int
    decreases digits.len(),
{
    if digits.len() == 0 {
        0
    } else {
        decimal_value(digits.drop_last()) * 10 + digit_value(digits.last())
    }
}

/// Whether a run of digits is how a number is written: not empty, and without a zero
/// in front of other digits.
pub open spec fn is_plain_number(digits: Seq<char>) -> bool {
    digits.len() == 1 || (digits.len() > 1 && digits[0] != '0')
}

/// The placeholder that starts at `pos`, if one does, as the number it names and the
/// position behind it. Number zero names the whole text, number `k` the `k`-th word.
/// `{}` names the whole text too. A number above `word_count` names nothing, so the
/// braces are then ordinary text.
pub open spec fn placeholder_at(template: Seq<char>, pos: int, word_count: int) -> Option<
    (int, int),
> {
    let end = digits_end(template, pos + 1);
    if 0 <= pos < template.len() && template[pos] == '{' && end < template.len() && template[end]
        == '}' {
        let digits = template.subrange(pos + 1, end);
        if digits.len() == 0 {
            Some((0, end + 1))
        } else if is_plain_number(digits) && decimal_value(digits) <= word_count {
            Some((decimal_value(digits), end + 1))
        } else {
            None
        }
    } else {
        None
    }
}

/// What a placeholder with the given number stands for.
pub open spec fn placeholder_value(number: int, whole: Seq<char>, words: Seq<Seq<char>>) -> Seq<
    char,
> {
    if 1 <= number <= words.len() {
        words[number - 1]
    } else {
        whole
    }
}

/// The template from `pos` on with every placeholder replaced by what it stands for.
/// What was put in is not looked through for placeholders again.
pub open spec fn expand_from(
    template: Seq<char>,
    pos: int,
    whole: Seq<char>,
    words: Seq<Seq<char>>,
) -> Seq<char>
    decreases template.len() - pos,
{
    if pos < 0 || pos >= template.len() {
        Seq::empty()
    } else {
        match placeholder_at(template, pos, words.len() as int) {
            Some((number, end)) => if pos < end <= template.len() {
                placeholder_value(number, whole, words) + expand_from(template, end, whole, words)
            } else {
                Seq::empty()
            },
            None => seq![template[pos]] + expand_from(template, pos + 1, whole, words),
        }
    }
}

/// The template with every placeholder replaced by what it stands for.
pub open spec fn expanded(template: Seq<char>, whole: Seq<char>, words: Seq<Seq<char>>) -> Seq<
    char,
> {
    expand_from(template, 0, whole, words)
}

/// The run of digits ends in the template, and only digits lie before its end.
pub proof fn lemma_digits_end(template: Seq<char>, pos: int)
    requires
        0 <= pos <= template.len(),
    ensures
        pos <= digits_end(template, pos) <= template.len(),
        forall|i: int| pos <= i < digits_end(template, pos) ==> is_digit(#[trigger] template[i]),
        digits_end(template, pos) < template.len() ==> !is_digit(
            template[digits_end(template, pos)],
        ),
    decreases template.len() - pos,
{
    if pos < template.len() && is_digit(template[pos]) {
        lemma_digits_end(template, pos + 1);
    }
}

/// Digits denote a number that is not negative.
pub proof fn lemma_decimal_value_nonnegative(digits: Seq<char>)
    requires
        forall|i: int| 0 <= i < digits.len() ==> is_digit(#[trigger] digits[i]),
    ensures
        decimal_value(digits) >= 0,
    decreases digits.len(),
{
    if digits.len() > 0 {
        lemma_decimal_value_nonnegative(digits.drop_last());
    }
}

/// A template without an opening brace is left as it is.
pub proof fn lemma_plain_template_unchanged(
    template: Seq<char>,
    pos: int,
    whole: Seq<char>,
    words: Seq<Seq<char>>,
)
    requires
        0 <= pos <= template.len(),
        forall|i: int| pos <= i < template.len() ==> #[trigger] template[i] != '{',
    ensures
        expand_from(template, pos, whole, words) == template.subrange(pos, template.len() as int),
    decreases template.len() - pos,
{
    if pos < template.len() {
        lemma_plain_template_unchanged(template, pos + 1, whole, words);
        assert(template.subrange(pos, template.len() as int) =~= seq![template[pos]]
            + template.subrange(pos + 1, template.len() as int));
    } else {
        assert(template.subrange(pos, template.len() as int) =~= Seq::<char>::empty());
    }
}

/// Whether `c` needs no quoting in a shell: a letter or digit of ASCII, or one of
/// `-`, `_`, `=`, `/`, `,`, `.` and `+`.
pub open spec fn is_shell_safe(c: char) -> bool {
    ('a' <= c <= 'z') || ('A' <= c <= 'Z') || ('0' <= c <= '9') || c == '-' || c == '_' || c
        == '=' || c == '/' || c == ',' || c == '.' || c == '+'
}

/// How `c` stands inside single quotes: a single quote and an exclamation mark close
/// the quotes, follow a backslash, and open them again; any other character stands
/// for itself.
pub open spec fn quoted_char(c: char) -> Seq<char> {
    if c == '\'' || c == '!' {
        seq!['\'', '\\', c, '\'']
    } else {
        seq![c]
    }
}

/// The characters of `text`, each as it stands inside single quotes.
pub open spec fn quoted_chars(text: Seq<char>) -> Seq<char>
    decreases text.len(),
{
    if text.len() == 0 {
        Seq::empty()
    } else {
        quoted_chars(text.drop_last()) + quoted_char(text.last())
    }
}

/// `text` as a single word of a Unix shell: the text itself where it is not empty and
/// every character is safe, and the text in single quotes otherwise.
pub open spec fn shell_escaped(text: Seq<char>) -> Seq<char> {
    if text.len() > 0 && (forall|i: int| 0 <= i < text.len() ==> is_shell_safe(#[trigger] text[i])) {
        text
    } else {
        seq!['\''] + quoted_chars(text) + seq!['\'']
    }
}

/// `shell_escape::unix::escape`. Trusted: a text that is not empty and holds only safe
/// characters comes back as it is; any other comes back in single quotes, with each
/// single quote and exclamation mark in it written as the closing quote, a backslash,
/// the character and the opening quote.
#[verifier::external_body]
fn escape_for_shell(text: &str) -> (r: String)
    ensures
        r@ == shell_escaped(text@),
{
    shell_escape::unix::escape(std::borrow::Cow::Borrowed(text)).into_owned()
}

/// The view of each word.
pub open spec fn views(words: Seq<Vec<char>>) -> Seq<Seq<char>> {
    words.map_values(|word: Vec<char>| word@)
}

/// The characters of `text` from `from` up to `to`.
fn copy_range(text: &Vec<char>, from: usize, to: usize) -> (r: Vec<char>)
    requires
        from <= to <= text.len(),
    ensures
        r@ == text@.subrange(from as int, to as int),
{
    let mut r: Vec<char> = Vec::new();
    let mut i: usize = from;
    while i < to
        invariant
            from <= i <= to <= text.len(),
            r@ == text@.subrange(from as int, i as int),
        decreases to - i,
    {
        r.push(text[i]);
        assert(text@.subrange(from as int, i + 1) =~= text@.subrange(from as int, i as int).push(
            text@[i as int],
        ));
        i += 1;
    }
    r
}

/// The first position from `from` on whose character is, or is not, white space.
fn scan_class(text: &Vec<char>, from: usize, white: bool) -> (r: usize)
    requires
        from <= text.len(),
    ensures
        r == skip_class(text@, from as int, white),
        from <= r <= text.len(),
{
    let mut p: usize = from;
    while p < text.len() && text[p].is_whitespace() == white
        invariant
            from <= p <= text.len(),
            skip_class(text@, from as int, white) == skip_class(text@, p as int, white),
        decreases text.len() - p,
    {
        p += 1;
    }
    p
}

/// The words of `text`: its runs of characters that are not white space, in their
/// order.
pub fn split_words(text: &Vec<char>) -> (r: Vec<Vec<char>>)
    ensures
        views(r@) == words_of(text@),
{
    let mut words: Vec<Vec<char>> = Vec::new();
    let mut pos: usize = 0;
    assert(views(words@) =~= Seq::<Seq<char>>::empty());
    loop
        invariant
            pos <= text.len(),
            words_of(text@) == views(words@) + words_from(text@, pos as int),
        ensures
            views(words@) == words_of(text@),
        decreases text.len() - pos,
    {
        let start = scan_class(text, pos, true);
        if start >= text.len() {
            assert(views(words@) + Seq::<Seq<char>>::empty() =~= views(words@));
            break ;
        }
        let end = scan_class(text, start, false);
        proof {
            lemma_skip_class(text@, pos as int, true);
            lemma_skip_class(text@, start as int, false);
            assert(!is_whitespace_char(text@[start as int]));
            assert(end > start);
        }
        let word = copy_range(text, start, end);
        let ghost before = words@;
        words.push(word);
        proof {
            assert(views(words@) =~= views(before).push(word@));
            assert(views(words@) + words_from(text@, end as int) =~= views(before) + (seq![
                word@,
            ] + words_from(text@, end as int)));
        }
        pos = end;
    }
    words
}

/// The digit that `c` is, if it is one.
fn digit_of(c: char) -> (r: Option<u8>)
    ensures
        r is Some <==> is_digit(c),
        r matches Some(d) ==> d == digit_value(c) && d <= 9,
{
    if '0' <= c && c <= '9' {
        Some((c as u32 - '0' as u32) as u8)
    } else {
        None
    }
}

/// The placeholder that starts at `pos`, if one does: the number it names and the
/// position behind it.
fn read_placeholder(template: &Vec<char>, pos: usize, word_count: usize) -> (r: Option<
    (usize, usize),
>)
    requires
        pos < template.len(),
    ensures
        r matches Some((number, end)) ==> placeholder_at(template@, pos as int, word_count as int)
            == Some((number as int, end as int)) && pos < end <= template.len() && number
            <= word_count,
        r is None ==> placeholder_at(template@, pos as int, word_count as int) is None,
{
    if template[pos] != '{' {
        return None;
    }
    let mut e: usize = pos + 1;
    let mut value: usize = 0;
    let mut fits: bool = true;
    loop
        invariant
            pos < e <= template.len(),
            digits_end(template@, pos + 1) == digits_end(template@, e as int),
            forall|i: int| pos < i < e ==> is_digit(#[trigger] template@[i]),
            fits ==> value == decimal_value(template@.subrange(pos + 1, e as int)) && value
                <= word_count,
            !fits ==> decimal_value(template@.subrange(pos + 1, e as int)) > word_count,
        ensures
            pos < e <= template.len(),
            e == digits_end(template@, pos + 1),
            fits ==> value == decimal_value(template@.subrange(pos + 1, e as int)) && value
                <= word_count,
            !fits ==> decimal_value(template@.subrange(pos + 1, e as int)) > word_count,
        decreases template.len() - e,
    {
        if e >= template.len() {
            break ;
        }
        let digit = match digit_of(template[e]) {
            Some(d) => d,
            None => {
                break ;
            },
        };
        proof {
            let shorter = template@.subrange(pos + 1, e as int);
            let longer = template@.subrange(pos + 1, e + 1);
            assert(longer.drop_last() =~= shorter);
            assert(longer.last() == template@[e as int]);
            lemma_decimal_value_nonnegative(shorter);
        }
        if fits {
            let next: u128 = value as u128 * 10 + digit as u128;
            if next <= word_count as u128 {
                value = next as usize;
            } else {
                fits = false;
            }
        }
        e += 1;
    }
    if e < template.len() && template[e] == '}' {
        let plain = e - pos == 2 || (e - pos > 2 && template[pos + 1] != '0');
        proof {
            let digits = template@.subrange(pos + 1, e as int);
            assert(digits.len() == e - pos - 1);
            if digits.len() > 0 {
                assert(digits[0] == template@[pos + 1]);
            }
            assert(decimal_value(Seq::<char>::empty()) == 0);
        }
        if e == pos + 1 {
            Some((0, e + 1))
        } else if plain && fits {
            Some((value, e + 1))
        } else {
            None
        }
    } else {
        None
    }
}

/// The template with every placeholder replaced by what it stands for: `{}` and `{0}`
/// by `whole`, `{k}` by the `k`-th of `words`. A placeholder whose number is above the
/// number of words stays as it is.
pub fn expand_placeholders(template: &Vec<char>, whole: &Vec<char>, words: &Vec<Vec<char>>) -> (r:
    Vec<char>)
    ensures
        r@ == expanded(template@, whole@, views(words@)),
{
    let mut out: Vec<char> = Vec::new();
    let mut pos: usize = 0;
    while pos < template.len()
        invariant
            pos <= template.len(),
            expanded(template@, whole@, views(words@)) == out@ + expand_from(
                template@,
                pos as int,
                whole@,
                views(words@),
            ),
        decreases template.len() - pos,
    {
        let ghost before = out@;
        let ghost rest = expand_from(template@, pos as int, whole@, views(words@));
        assert(views(words@).len() == words@.len());
        match read_placeholder(template, pos, words.len()) {
            Some((number, end)) => {
                if number >= 1 {
                    assert(views(words@)[number - 1] == words@[number - 1]@);
                    out.extend_from_slice(words[number - 1].as_slice());
                } else {
                    out.extend_from_slice(whole.as_slice());
                }
                let ghost value = placeholder_value(number as int, whole@, views(words@));
                assert(out@ == before + value);
                assert(rest == value + expand_from(template@, end as int, whole@, views(words@)));
                assert(before + rest =~= (before + value) + expand_from(
                    template@,
                    end as int,
                    whole@,
                    views(words@),
                ));
                pos = end;
            },
            None => {
                out.push(template[pos]);
                assert(before + rest =~= before.push(template@[pos as int]) + expand_from(
                    template@,
                    pos + 1,
                    whole@,
                    views(words@),
                ));
                pos += 1;
            },
        }
    }
    assert(out@ + Seq::<char>::empty() =~= out@);
    out
}

/// What `substitute_placeholders` returns. The placeholders of `command` stand for the
/// text of the entry and for its words; when escaping, for each of them as a single
/// word of a shell.
pub open spec fn substituted(command: Seq<char>, item_text: Seq<char>, escape: bool) -> Seq<char> {
    if escape {
        expanded(
            command,
            shell_escaped(item_text),
            words_of(item_text).map_values(|word: Seq<char>| shell_escaped(word)),
        )
    } else {
        expanded(command, item_text, words_of(item_text))
    }
}

/// Replaces the placeholders of `command` by the text of an entry and by its words.
/// With `escape`, what is put in is escaped for a shell; without, it is put in as it
/// is, as befits an argument that is handed to a program directly.
pub fn substitute_placeholders(command: &str, item_text: &str, escape: bool) -> (r: String)
    ensures
        r@ == substituted(command@, item_text@, escape),
{
    let template = chars_of(command);
    let text = chars_of(item_text);
    let words = split_words(&text);
    if !escape {
        return string_of(&expand_placeholders(&template, &text, &words));
    }
    let whole = chars_of(escape_for_shell(item_text).as_str());
    let mut escaped: Vec<Vec<char>> = Vec::new();
    let mut i: usize = 0;
    assert(views(words@).len() == words@.len());
    while i < words.len()
        invariant
            i <= words.len(),
            views(words@) == words_of(item_text@),
            escaped@.len() == i,
            forall|k: int| 0 <= k < i ==> (#[trigger] escaped@[k])@ == shell_escaped(words@[k]@),
        decreases words.len() - i,
    {
        let word = string_of(&words[i]);
        escaped.push(chars_of(escape_for_shell(word.as_str()).as_str()));
        i += 1;
    }
    assert(views(escaped@) =~= words_of(item_text@).map_values(
        |word: Seq<char>| shell_escaped(word),
    )) by {
        assert forall|k: int| 0 <= k < escaped@.len() implies views(escaped@)[k] == shell_escaped(
            words_of(item_text@)[k],
        ) by {
            assert(views(words@)[k] == words@[k]@);
        }
    }
    string_of(&expand_placeholders(&template, &whole, &escaped))
}

} // verus!
