//! Text helpers over the character view of strings.

use vstd::prelude::*;

verus! {

/// The mathematical model of a string: its characters in order.
pub type Text = Seq<char>;

/// Whether two strings hold the same characters.
pub fn same_text(left: &str, right: &str) -> (same: bool)
    ensures
        same == (left@ == right@),
{
    left.to_owned() == right.to_owned()
}

/// The characters of a string, in order.
pub fn chars_of(text: &str) -> (chars: Vec<char>)
    ensures
        chars@ == text@,
{
    let mut chars: Vec<char> = Vec::new();
    for c in it: text.chars()
        invariant
            chars@ == text@.take(it.index() as int),
            it.seq() == text@,
    {
        chars.push(c);
    }
    chars
}

/// Whether `text` begins with `prefix`.
pub open spec fn has_prefix(text: Text, prefix: Text) -> bool {
    prefix.len() <= text.len() && text.take(prefix.len() as int) == prefix
}

/// Whether `text` ends with `suffix`.
pub open spec fn has_suffix(text: Text, suffix: Text) -> bool {
    suffix.len() <= text.len() && text.skip(text.len() - suffix.len()) == suffix
}

/// Whether `needle` occurs in `text` at `at`.
pub open spec fn occurs_at(text: Text, needle: Text, at: int) -> bool {
    0 <= at && at + needle.len() <= text.len() && text.subrange(at, at + needle.len()) == needle
}

/// Whether `needle` occurs anywhere in `text`.
pub open spec fn contains_text(text: Text, needle: Text) -> bool {
    exists|at: int| #[trigger] occurs_at(text, needle, at)
}

/// What is left of `text` once `prefix` is taken off its front, when it begins
/// with it.
pub fn strip_prefix<'a>(text: &'a str, prefix: &str) -> (rest: Option<&'a str>)
    ensures
        rest is Some <==> has_prefix(text@, prefix@),
        rest matches Some(r) ==> r@ == text@.skip(prefix@.len() as int),
{
    let text_len: usize = text.unicode_len();
    let prefix_len: usize = prefix.unicode_len();
    if prefix_len <= text_len && same_text(text.substring_char(0, prefix_len), prefix) {
        assert(text@.subrange(0, prefix_len as int) =~= text@.take(prefix_len as int));
        assert(text@.subrange(prefix_len as int, text_len as int) =~= text@.skip(
            prefix_len as int,
        ));
        Some(text.substring_char(prefix_len, text_len))
    } else {
        proof {
            if prefix_len <= text_len {
                assert(text@.subrange(0, prefix_len as int) =~= text@.take(prefix_len as int));
            }
        }
        None
    }
}

/// Whether `text` begins with `prefix`.
pub fn starts_with(text: &str, prefix: &str) -> (found: bool)
    ensures
        found == has_prefix(text@, prefix@),
{
    strip_prefix(text, prefix).is_some()
}

/// What is left of `text` once `suffix` is taken off its end, when it ends
/// with it.
pub fn strip_suffix<'a>(text: &'a str, suffix: &str) -> (rest: Option<&'a str>)
    ensures
        rest is Some <==> has_suffix(text@, suffix@),
        rest matches Some(r) ==> r@ == text@.take(text@.len() - suffix@.len()),
{
    let text_len: usize = text.unicode_len();
    let suffix_len: usize = suffix.unicode_len();
    if suffix_len <= text_len {
        let cut: usize = text_len - suffix_len;
        assert(text@.subrange(cut as int, text_len as int) =~= text@.skip(cut as int));
        assert(text@.subrange(0, cut as int) =~= text@.take(cut as int));
        if same_text(text.substring_char(cut, text_len), suffix) {
            return Some(text.substring_char(0, cut));
        }
    }
    None
}

/// Whether `text` ends with `suffix`.
pub fn ends_with(text: &str, suffix: &str) -> (found: bool)
    ensures
        found == has_suffix(text@, suffix@),
{
    strip_suffix(text, suffix).is_some()
}

/// Whether `needle` occurs anywhere in `text`.
pub fn contains(text: &str, needle: &str) -> (found: bool)
    ensures
        found == contains_text(text@, needle@),
{
    let text_len: usize = text.unicode_len();
    let needle_len: usize = needle.unicode_len();
    if needle_len > text_len {
        return false;
    }
    let last: usize = text_len - needle_len;
    let mut at: usize = 0;
    while at <= last
        invariant
            text_len == text@.len(),
            needle_len == needle@.len(),
            last == text_len - needle_len,
            at <= last + 1,
            forall|i: int| 0 <= i < at ==> !occurs_at(text@, needle@, i),
        decreases last + 1 - at,
    {
        if same_text(text.substring_char(at, at + needle_len), needle) {
            assert(occurs_at(text@, needle@, at as int));
            return true;
        }
        if at == last {
            return false;
        }
        at = at + 1;
    }
    false
}

/// Whether a character has the Unicode `White_Space` property.
pub open spec fn is_white_space_char(c: char) -> bool {
    ||| 0x9 <= c as u32 <= 0xd
    ||| c as u32 == 0x20
    ||| c as u32 == 0x85
    ||| c as u32 == 0xa0
    ||| c as u32 == 0x1680
    ||| 0x2000 <= c as u32 <= 0x200a
    ||| c as u32 == 0x2028
    ||| c as u32 == 0x2029
    ||| c as u32 == 0x202f
    ||| c as u32 == 0x205f
    ||| c as u32 == 0x3000
}

/// Whether a character has the Unicode `White_Space` property.
pub fn is_white_space(c: char) -> (white: bool)
    ensures
        white == is_white_space_char(c),
{
    let code: u32 = c as u32;
    (0x9 <= code && code <= 0xd) || code == 0x20 || code == 0x85 || code == 0xa0 || code == 0x1680
        || (0x2000 <= code && code <= 0x200a) || code == 0x2028 || code == 0x2029 || code == 0x202f
        || code == 0x205f || code == 0x3000
}

/// The pieces one after the other, `separator` between each two.
pub open spec fn joined(pieces: Seq<Text>, separator: Text) -> Text
    decreases pieces.len(),
{
    if pieces.len() == 0 {
        Seq::empty()
    } else if pieces.len() == 1 {
        pieces[0]
    } else {
        joined(pieces.drop_last(), separator) + separator + pieces.last()
    }
}

/// The pieces one after the other, `separator` between each two.
pub fn join(pieces: &Vec<String>, separator: &str) -> (text: String)
    ensures
        text@ == joined(pieces.deep_view(), separator@),
{
    let mut text: String = String::new();
    let mut i: usize = 0;
    while i < pieces.len()
        invariant
            i <= pieces@.len(),
            text@ == joined(pieces.deep_view().take(i as int), separator@),
        decreases pieces@.len() - i,
    {
        if i > 0 {
            text.append(separator);
        }
        text.append(pieces[i].as_str());
        proof {
            let next = pieces.deep_view().take(i + 1);
            assert(next.drop_last() =~= pieces.deep_view().take(i as int));
            assert(next.last() == pieces@[i as int]@);
            if i == 0 {
                assert(text@ =~= next[0]);
            }
        }
        i = i + 1;
    }
    assert(pieces.deep_view().take(pieces@.len() as int) =~= pieces.deep_view());
    text
}

/// The maximal runs of characters that are not white space, in order.
pub open spec fn words(text: Text) -> Seq<Text>
    decreases text.len(),
{
    if text.len() == 0 {
        Seq::empty()
    } else {
        let before = words(text.drop_last());
        let last = text.last();
        if is_white_space_char(last) {
            before
        } else if text.len() == 1 || is_white_space_char(text[text.len() - 2]) {
            before.push(seq![last])
        } else {
            before.drop_last().push(before.last().push(last))
        }
    }
}

/// The maximal runs of characters that are not white space, in order.
pub fn split_words(text: &str) -> (pieces: Vec<String>)
    ensures
        pieces.deep_view() == words(text@),
{
    let chars: Vec<char> = chars_of(text);
    let ghost all = text@;
    let mut pieces: Vec<String> = Vec::new();
    let mut start: usize = 0;
    let mut i: usize = 0;
    assert(pieces.deep_view() =~= Seq::<Text>::empty());
    assert(all.subrange(0, 0) =~= Seq::<char>::empty());
    while i < chars.len()
        invariant
            chars@ == all,
            all == text@,
            start <= i <= all.len(),
            forall|k: int| start <= k < i ==> !is_white_space_char(#[trigger] all[k]),
            start > 0 ==> is_white_space_char(all[start - 1]),
            words(all.take(i as int)) == if start == i {
                pieces.deep_view()
            } else {
                pieces.deep_view().push(all.subrange(start as int, i as int))
            },
        decreases all.len() - i,
    {
        let ghost next = all.take(i + 1);
        let ghost closed = pieces.deep_view();
        proof {
            assert(next.drop_last() =~= all.take(i as int));
            assert(next.last() == all[i as int]);
            if i > 0 {
                assert(next[next.len() - 2] == all[i - 1]);
            }
        }
        if is_white_space(chars[i]) {
            if start < i {
                let piece: String = text.substring_char(start, i).to_owned();
                pieces.push(piece);
                assert(pieces.deep_view() =~= closed.push(all.subrange(start as int, i as int)));
            }
            start = i + 1;
        } else {
            proof {
                let run = all.subrange(start as int, i + 1);
                if start == i {
                    assert(run =~= seq![all[i as int]]);
                    assert(closed.push(seq![all[i as int]]) =~= closed.push(run));
                } else {
                    let shorter = all.subrange(start as int, i as int);
                    assert(!is_white_space_char(all[i - 1]));
                    assert(run =~= shorter.push(all[i as int]));
                    assert(closed.push(shorter).drop_last() =~= closed);
                }
            }
        }
        i = i + 1;
    }
    assert(all.take(i as int) =~= all);
    if start < i {
        let ghost closed = pieces.deep_view();
        let piece: String = text.substring_char(start, i).to_owned();
        pieces.push(piece);
        assert(pieces.deep_view() =~= closed.push(all.subrange(start as int, i as int)));
    }
    pieces
}

/// A text with each run of white space made a single space, and none at either
/// end.
pub fn collapse_whitespace(text: &str) -> (collapsed: String)
    ensures
        collapsed@ == joined(words(text@), " "@),
{
    join(&split_words(text), " ")
}

/// Whether a text is a word: not empty, and without white space.
pub open spec fn is_word(text: Text) -> bool {
    text.len() > 0 && forall|i: int|
        0 <= i < text.len() ==> !is_white_space_char(#[trigger] text[i])
}

proof fn lemma_words_are_words(text: Text)
    ensures
        forall|i: int| 0 <= i < words(text).len() ==> is_word(#[trigger] words(text)[i]),
        text.len() > 0 && !is_white_space_char(text.last()) ==> words(text).len() > 0,
    decreases text.len(),
{
    if text.len() > 0 {
        let shorter = text.drop_last();
        lemma_words_are_words(shorter);
        let before = words(shorter);
        let last = text.last();
        if !is_white_space_char(last) && text.len() > 1 && !is_white_space_char(
            text[text.len() - 2],
        ) {
            assert(shorter.last() == text[text.len() - 2]);
            let grown = before.last().push(last);
            assert(is_word(before[before.len() - 1]));
            assert forall|i: int| 0 <= i < grown.len() implies !is_white_space_char(
                #[trigger] grown[i],
            ) by {
                if i < grown.len() - 1 {
                    assert(grown[i] == before.last()[i]);
                }
            }
        }
    }
}

proof fn lemma_words_with_another(before: Text, word: Text)
    requires
        before.len() == 0 || is_white_space_char(before.last()),
        is_word(word),
    ensures
        words(before + word) == words(before).push(word),
    decreases word.len(),
{
    let whole = before + word;
    assert(whole.last() == word.last());
    assert(whole.drop_last() =~= before + word.drop_last());
    if word.len() == 1 {
        assert(word.drop_last() =~= Seq::<char>::empty());
        assert(before + word.drop_last() =~= before);
        assert(word =~= seq![word.last()]);
        if before.len() > 0 {
            assert(whole[whole.len() - 2] == before.last());
        }
    } else {
        let shorter = word.drop_last();
        assert forall|i: int| 0 <= i < shorter.len() implies !is_white_space_char(
            #[trigger] shorter[i],
        ) by {
            assert(shorter[i] == word[i]);
        }
        lemma_words_with_another(before, shorter);
        assert(whole[whole.len() - 2] == word[word.len() - 2]);
        assert(words(before).push(shorter).drop_last() =~= words(before));
        assert(shorter.push(word.last()) =~= word);
    }
}

proof fn lemma_words_of_joined(pieces: Seq<Text>)
    requires
        forall|i: int| 0 <= i < pieces.len() ==> is_word(#[trigger] pieces[i]),
    ensures
        words(joined(pieces, " "@)) == pieces,
    decreases pieces.len(),
{
    reveal_strlit(" ");
    if pieces.len() == 0 {
        assert(pieces =~= Seq::<Text>::empty());
    } else if pieces.len() == 1 {
        lemma_words_with_another(Seq::empty(), pieces[0]);
        assert(Seq::<char>::empty() + pieces[0] =~= pieces[0]);
        assert(words(Seq::empty()).push(pieces[0]) =~= pieces);
    } else {
        let rest = pieces.drop_last();
        lemma_words_of_joined(rest);
        let before = joined(rest, " "@);
        let spaced = before + " "@;
        assert(spaced.last() == ' ');
        assert(spaced.drop_last() =~= before);
        assert(is_white_space_char(' '));
        assert(words(spaced) == rest);
        lemma_words_with_another(spaced, pieces.last());
        assert(rest.push(pieces.last()) =~= pieces);
    }
}

/// Collapsing white space twice is collapsing it once.
pub proof fn law_collapsing_twice_is_collapsing_once(text: Text)
    ensures
        joined(words(joined(words(text), " "@)), " "@) == joined(words(text), " "@),
{
    lemma_words_are_words(text);
    lemma_words_of_joined(words(text));
}

/// A text without as many copies of a suffix as it ends with.
pub open spec fn without_suffixes(text: Text, suffix: Text) -> Text
    decreases text.len(),
{
    if suffix.len() > 0 && has_suffix(text, suffix) {
        without_suffixes(text.take(text.len() - suffix.len()), suffix)
    } else {
        text
    }
}

/// A text without as many copies of a suffix as it ends with.
pub fn strip_suffixes<'a>(text: &'a str, suffix: &str) -> (rest: &'a str)
    requires
        suffix@.len() > 0,
    ensures
        rest@ == without_suffixes(text@, suffix@),
{
    let mut rest: &'a str = text;
    loop
        invariant
            suffix@.len() > 0,
            without_suffixes(rest@, suffix@) == without_suffixes(text@, suffix@),
        decreases rest@.len(),
    {
        match strip_suffix(rest, suffix) {
            Some(shorter) => {
                rest = shorter;
            },
            None => return rest,
        }
    }
}

/// Whether a character is white space or a quotation mark.
pub open spec fn is_padding_char(c: char) -> bool {
    is_white_space_char(c) || c == '"' || c == '\''
}

/// A text without the padding at its front.
pub open spec fn without_leading_padding(text: Text) -> Text
    decreases text.len(),
{
    if text.len() > 0 && is_padding_char(text[0]) {
        without_leading_padding(text.skip(1))
    } else {
        text
    }
}

/// A text without the padding at its end.
pub open spec fn without_trailing_padding(text: Text) -> Text
    decreases text.len(),
{
    if text.len() > 0 && is_padding_char(text.last()) {
        without_trailing_padding(text.drop_last())
    } else {
        text
    }
}

/// A text without white space and quotation marks around it.
pub open spec fn without_padding(text: Text) -> Text {
    without_trailing_padding(without_leading_padding(text))
}

/// A text without white space and quotation marks around it.
pub fn strip_padding(text: &str) -> (stripped: &str)
    ensures
        stripped@ == without_padding(text@),
{
    let chars: Vec<char> = chars_of(text);
    let ghost all = text@;
    let mut start: usize = 0;
    assert(all.skip(0) =~= all);
    while start < chars.len() && (is_white_space(chars[start]) || chars[start] == '"'
        || chars[start] == '\'')
        invariant
            chars@ == all,
            all == text@,
            start <= all.len(),
            without_leading_padding(all) == without_leading_padding(all.skip(start as int)),
        ensures
            start <= all.len(),
            without_leading_padding(all) == all.skip(start as int),
        decreases all.len() - start,
    {
        assert(all.skip(start as int)[0] == all[start as int]);
        assert(all.skip(start as int).skip(1) =~= all.skip(start + 1));
        start = start + 1;
    }
    let ghost body = all.skip(start as int);
    let mut end: usize = chars.len();
    assert(body.take(end - start) =~= body);
    while end > start && (is_white_space(chars[end - 1]) || chars[end - 1] == '"' || chars[end - 1]
        == '\'')
        invariant
            chars@ == all,
            all == text@,
            body == all.skip(start as int),
            start <= end <= all.len(),
            without_trailing_padding(body) == without_trailing_padding(body.take(end - start)),
        ensures
            start <= end <= all.len(),
            without_trailing_padding(body) == body.take(end - start),
        decreases end,
    {
        assert(body.take(end - start).last() == all[end - 1]);
        assert(body.take(end - start).drop_last() =~= body.take(end - start - 1));
        end = end - 1;
    }
    assert(body.take(end - start) =~= all.subrange(start as int, end as int));
    text.substring_char(start, end)
}

/// Whether a character reads as a letter, whatever its case.
pub open spec fn reads_as(c: char, lower: char, upper: char) -> bool {
    c == lower || c == upper
}

/// Whether the word "cursor" stands at a place, whatever the case of its
/// letters. The long s is a lower-case s.
pub open spec fn reads_cursor_at(text: Text, at: int) -> bool {
    &&& 0 <= at && at + 6 <= text.len()
    &&& reads_as(text[at], 'c', 'C')
    &&& reads_as(text[at + 1], 'u', 'U')
    &&& reads_as(text[at + 2], 'r', 'R')
    &&& reads_as(text[at + 3], 's', 'S') || text[at + 3] == '\u{17f}'
    &&& reads_as(text[at + 4], 'o', 'O')
    &&& reads_as(text[at + 5], 'r', 'R')
}

/// Whether the word "cursor" stands anywhere in a text, whatever the case of
/// its letters.
pub fn mentions_cursor(text: &str) -> (found: bool)
    ensures
        found == exists|at: int| #[trigger] reads_cursor_at(text@, at),
{
    let chars: Vec<char> = chars_of(text);
    if chars.len() < 6 {
        return false;
    }
    let mut at: usize = 0;
    while at <= chars.len() - 6
        invariant
            chars@ == text@,
            chars@.len() >= 6,
            at <= chars@.len() - 5,
            forall|k: int| 0 <= k < at ==> !reads_cursor_at(text@, k),
        decreases chars@.len() - at,
    {
        let c: bool = chars[at] == 'c' || chars[at] == 'C';
        let u: bool = chars[at + 1] == 'u' || chars[at + 1] == 'U';
        let r: bool = chars[at + 2] == 'r' || chars[at + 2] == 'R';
        let s: bool = chars[at + 3] == 's' || chars[at + 3] == 'S' || chars[at + 3] == '\u{17f}';
        let o: bool = chars[at + 4] == 'o' || chars[at + 4] == 'O';
        let last: bool = chars[at + 5] == 'r' || chars[at + 5] == 'R';
        if c && u && r && s && o && last {
            assert(reads_cursor_at(text@, at as int));
            return true;
        }
        at = at + 1;
    }
    false
}

/// White space parts words and nothing else does: the words of two texts with
/// white space between them are the words of the first and then those of the
/// second, and a text without white space is one word.
pub proof fn law_white_space_parts_words(before: Text, space: char, after: Text, word: Text)
    requires
        is_white_space_char(space),
        word.len() > 0,
        forall|i: int| 0 <= i < word.len() ==> !is_white_space_char(#[trigger] word[i]),
    ensures
        words(before.push(space) + after) == words(before) + words(after),
        words(word) == seq![word],
        words(Seq::<char>::empty()).len() == 0,
    decreases after.len(),
{
    let whole = before.push(space) + after;
    if after.len() == 0 {
        assert(whole =~= before.push(space));
        assert(whole.drop_last() =~= before);
        assert(words(before) + words(after) =~= words(before));
    } else {
        let shorter = after.drop_last();
        law_white_space_parts_words(before, space, shorter, word);
        assert(whole.drop_last() =~= before.push(space) + shorter);
        assert(whole.last() == after.last());
        if !is_white_space_char(after.last()) {
            if after.len() == 1 {
                assert(whole[whole.len() - 2] == space);
                assert(words(whole) =~= words(before) + words(after));
            } else {
                assert(whole[whole.len() - 2] == after[after.len() - 2]);
                if is_white_space_char(after[after.len() - 2]) {
                    assert(words(whole) =~= words(before) + words(after));
                } else {
                    lemma_words_are_words(shorter);
                    assert(shorter.last() == after[after.len() - 2]);
                    let tail = words(shorter);
                    assert((words(before) + tail).last() == tail.last());
                    assert((words(before) + tail).drop_last() =~= words(before)
                        + tail.drop_last());
                    assert(words(whole) =~= words(before) + words(after));
                }
            }
        }
    }
    assert(is_word(word));
    lemma_words_with_another(Seq::empty(), word);
    assert(Seq::<char>::empty() + word =~= word);
    assert(words(Seq::empty()).push(word) =~= seq![word]);
}

/// Among the characters of ASCII, white space is the blank and the five from
/// tab to carriage return.
pub proof fn law_ascii_white_space(c: char)
    requires
        (c as u32) < 0x80,
    ensures
        is_white_space_char(c) <==> c == ' ' || c == '\t' || c == '\n' || c == '\r' || c as u32
            == 0xb || c as u32 == 0xc,
{
}

/// Pieces are joined in order, the separator between each two and nowhere else.
pub proof fn law_pieces_are_joined_in_order(pieces: Seq<Text>, piece: Text, separator: Text)
    ensures
        joined(Seq::empty(), separator) == Seq::<char>::empty(),
        joined(seq![piece], separator) == piece,
        pieces.len() > 0 ==> joined(pieces.push(piece), separator) == joined(pieces, separator)
            + separator + piece,
{
    if pieces.len() > 0 {
        assert(pieces.push(piece).drop_last() =~= pieces);
    }
}

/// What has a prefix is the prefix and then the rest; what has a suffix, the
/// rest and then the suffix; and what is found in a text parts it in two.
pub proof fn law_what_a_text_begins_and_ends_with(text: Text, piece: Text, rest: Text)
    ensures
        has_prefix(piece + rest, piece),
        has_suffix(rest + piece, piece),
        has_prefix(text, piece) ==> text == piece + text.skip(piece.len() as int),
        has_suffix(text, piece) ==> text == text.take(text.len() - piece.len()) + piece,
        contains_text(text + piece + rest, piece),
        contains_text(text, piece) ==> exists|front: Text, back: Text|
            text == #[trigger] (front + piece + back),
{
    assert((piece + rest).take(piece.len() as int) =~= piece);
    assert((rest + piece).skip(rest.len() as int) =~= piece);
    if has_prefix(text, piece) {
        assert(text =~= text.take(piece.len() as int) + text.skip(piece.len() as int));
    }
    if has_suffix(text, piece) {
        let cut = text.len() - piece.len();
        assert(text =~= text.take(cut) + text.skip(cut));
    }
    let whole = text + piece + rest;
    assert(whole.subrange(text.len() as int, (text.len() + piece.len()) as int) =~= piece);
    assert(occurs_at(whole, piece, text.len() as int));
    if contains_text(text, piece) {
        let at = choose|at: int| #[trigger] occurs_at(text, piece, at);
        let front = text.take(at);
        let back = text.skip(at + piece.len());
        assert(text =~= front + text.subrange(at, at + piece.len()) + back);
        assert(text == front + piece + back);
    }
}

/// Every copy of a suffix at the end is taken off, and nothing else: what is
/// left does not end with it, and one copy more changes nothing.
pub proof fn law_every_copy_of_a_suffix_is_taken_off(text: Text, suffix: Text)
    requires
        suffix.len() > 0,
    ensures
        without_suffixes(text + suffix, suffix) == without_suffixes(text, suffix),
        !has_suffix(text, suffix) ==> without_suffixes(text, suffix) == text,
        !has_suffix(without_suffixes(text, suffix), suffix),
    decreases text.len(),
{
    let longer = text + suffix;
    assert(longer.skip(text.len() as int) =~= suffix);
    assert(longer.take(text.len() as int) =~= text);
    if has_suffix(text, suffix) {
        law_every_copy_of_a_suffix_is_taken_off(text.take(text.len() - suffix.len()), suffix);
    }
}

/// Padding is taken off both ends, all of it, and nothing else is touched: a
/// text that neither begins nor ends with white space or a quotation mark
/// stays, and one more such character at either end changes nothing.
pub proof fn law_padding_is_taken_off_both_ends(text: Text, pad: char)
    requires
        is_padding_char(pad),
    ensures
        text.len() > 0 && !is_padding_char(text[0]) && !is_padding_char(text.last())
            ==> without_padding(text) == text,
        without_padding(seq![pad] + text) == without_padding(text),
        without_padding(text.push(pad)) == without_padding(text),
        is_padding_char('"') && is_padding_char('\'') && is_padding_char(' '),
        forall|c: char|
            is_padding_char(c) ==> c == '"' || c == '\'' || is_white_space_char(c),
{
    assert((seq![pad] + text).skip(1) =~= text);
    lemma_leading_padding_of_padded(text, pad);
    let inner = without_leading_padding(text);
    if without_leading_padding(text.push(pad)) == inner.push(pad) {
        assert(inner.push(pad).drop_last() =~= inner);
    }
}

proof fn lemma_leading_padding_of_padded(text: Text, pad: char)
    requires
        is_padding_char(pad),
    ensures
        without_leading_padding(text.push(pad)) == without_leading_padding(text).push(pad) || (
        without_leading_padding(text).len() == 0 && without_leading_padding(text.push(pad)).len()
            == 0),
    decreases text.len(),
{
    let padded = text.push(pad);
    if text.len() > 0 {
        assert(padded[0] == text[0]);
        if is_padding_char(text[0]) {
            assert(padded.skip(1) =~= text.skip(1).push(pad));
            lemma_leading_padding_of_padded(text.skip(1), pad);
        }
    } else {
        assert(padded[0] == pad);
        assert(padded.skip(1) =~= Seq::<char>::empty());
        assert(without_leading_padding(padded.skip(1)).len() == 0);
    }
}

/// The word is read wherever it stands and in any case, and only where all six
/// of its letters stand one after the other.
pub proof fn law_the_word_is_read_in_any_case(front: Text, back: Text, text: Text, at: int)
    ensures
        reads_cursor_at(front + "cursor"@ + back, front.len() as int),
        reads_cursor_at(front + "Cursor"@ + back, front.len() as int),
        reads_cursor_at(front + "CURSOR"@ + back, front.len() as int),
        reads_cursor_at(text, at) ==> {
            &&& 0 <= at && at + 6 <= text.len()
            &&& text[at] == 'c' || text[at] == 'C'
            &&& text[at + 1] == 'u' || text[at + 1] == 'U'
            &&& text[at + 2] == 'r' || text[at + 2] == 'R'
            &&& text[at + 3] == 's' || text[at + 3] == 'S' || text[at + 3] as u32 == 0x17f
            &&& text[at + 4] == 'o' || text[at + 4] == 'O'
            &&& text[at + 5] == 'r' || text[at + 5] == 'R'
        },
{
    reveal_strlit("cursor");
    reveal_strlit("Cursor");
    reveal_strlit("CURSOR");
}

} // verus!
