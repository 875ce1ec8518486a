//! Splitting a line of text into words at white space.

use vstd::prelude::*;

verus! {

/// Whether `c` is Unicode white space: the code points that Unicode marks as
/// `White_Space`, which is what `char::is_whitespace` tests for.
pub open spec fn is_space(c: char) -> bool {
    let n = c as u32;
    ||| 0x09 <= n <= 0x0D
    ||| n == 0x20
    ||| n == 0x85
    ||| n == 0xA0
    ||| n == 0x1680
    ||| 0x2000 <= n <= 0x200A
    ||| n == 0x2028
    ||| n == 0x2029
    ||| n == 0x202F
    ||| n == 0x205F
    ||| n == 0x3000
}

/// The length of the longest prefix of `text` that holds no white space.
pub open spec fn word_len(text: Seq<char>) -> nat
    decreases text.len(),
{
    if text.len() == 0 || is_space(text[0]) {
        0
    } else {
        1 + word_len(text.drop_first())
    }
}

/// The words of `text`, in order: its maximal runs of characters that are no
/// white space.
pub open spec fn words(text: Seq<char>) -> Seq<Seq<char>>
    decreases text.len(),
    via words_decreases
{
    if text.len() == 0 {
        Seq::empty()
    } else if is_space(text[0]) {
        words(text.drop_first())
    } else {
        seq![text.take(word_len(text) as int)] + words(text.skip(word_len(text) as int))
    }
}

#[via_fn]
proof fn words_decreases(text: Seq<char>) {
    lemma_word_len_bounds(text);
}

/// The views of a sequence of strings.
pub open spec fn texts(strings: Seq<String>) -> Seq<Seq<char>> {
    strings.map_values(|s: String| s@)
}

/// `word_len` is at most the length of the text, and positive where the text
/// starts with a character that is no white space.
pub proof fn lemma_word_len_bounds(text: Seq<char>)
    ensures
        word_len(text) <= text.len(),
        text.len() > 0 && !is_space(text[0]) ==> word_len(text) >= 1,
    decreases text.len(),
{
    if text.len() > 0 && !is_space(text[0]) {
        lemma_word_len_bounds(text.drop_first());
    }
}

/// A prefix of `n` characters without white space, followed by white space or
/// by the end of the text, is the longest such prefix.
pub proof fn lemma_word_len_is(text: Seq<char>, n: nat)
    requires
        n <= text.len(),
        forall|k: int| 0 <= k < n ==> !is_space(#[trigger] text[k]),
        n == text.len() || is_space(text[n as int]),
    ensures
        word_len(text) == n,
    decreases n,
{
    if n > 0 {
        let rest = text.drop_first();
        assert(forall|k: int| 0 <= k < n - 1 ==> rest[k] == text[k + 1]);
        lemma_word_len_is(rest, (n - 1) as nat);
    }
}

/// Every word is non-empty and free of white space.
pub proof fn lemma_words_hold_no_space(text: Seq<char>, i: int)
    requires
        0 <= i < words(text).len(),
    ensures
        words(text)[i].len() > 0,
        forall|k: int| 0 <= k < words(text)[i].len() ==> !is_space(#[trigger] words(text)[i][k]),
    decreases text.len(),
{
    if text.len() == 0 {
    } else if is_space(text[0]) {
        lemma_words_hold_no_space(text.drop_first(), i);
    } else {
        lemma_word_len_bounds(text);
        let n = word_len(text) as int;
        if i == 0 {
            lemma_prefix_holds_no_space(text);
        } else {
            lemma_words_hold_no_space(text.skip(n), i - 1);
        }
    }
}

/// No character before `word_len(text)` is white space.
pub proof fn lemma_prefix_holds_no_space(text: Seq<char>)
    ensures
        forall|k: int| 0 <= k < word_len(text) ==> !is_space(#[trigger] text[k]),
    decreases text.len(),
{
    if text.len() > 0 && !is_space(text[0]) {
        let rest = text.drop_first();
        lemma_prefix_holds_no_space(rest);
        lemma_word_len_bounds(text);
        assert forall|k: int| 0 <= k < word_len(text) implies !is_space(#[trigger] text[k]) by {
            if k > 0 {
                assert(text[k] == rest[k - 1]);
            }
        }
    }
}

/// Whether `text` holds no white space.
pub open spec fn is_solid(text: Seq<char>) -> bool {
    forall|k: int| 0 <= k < text.len() ==> !is_space(#[trigger] text[k])
}

/// A text without white space that is not empty is one word.
pub proof fn law_solid_text_is_one_word(text: Seq<char>)
    requires
        text.len() > 0,
        is_solid(text),
    ensures
        words(text) == seq![text],
{
    lemma_word_len_is(text, text.len());
    assert(text.take(text.len() as int) == text);
    assert(words(text.skip(text.len() as int)) == Seq::<Seq<char>>::empty());
}

/// White space parts the text: the words of a text with the white space
/// `gap` between `before` and `after` are the words of `before`, then those
/// of `after`.
pub proof fn law_white_space_parts_words(before: Seq<char>, gap: char, after: Seq<char>)
    requires
        is_space(gap),
    ensures
        words(before + seq![gap] + after) == words(before) + words(after),
    decreases before.len(),
{
    let text = before + seq![gap] + after;
    if before.len() == 0 {
        assert(text.drop_first() == after);
        assert(words(before) + words(after) == words(after));
    } else if is_space(before[0]) {
        assert(text.drop_first() == before.drop_first() + seq![gap] + after);
        law_white_space_parts_words(before.drop_first(), gap, after);
    } else {
        lemma_word_len_bounds(before);
        lemma_prefix_holds_no_space(before);
        let n = word_len(before);
        assert(forall|k: int| 0 <= k < n ==> text[k] == before[k]);
        if n < before.len() {
            lemma_next_is_space(before);
            assert(text[n as int] == before[n as int]);
        }
        lemma_word_len_is(text, n);
        assert(text.take(n as int) == before.take(n as int));
        assert(text.skip(n as int) == before.skip(n as int) + seq![gap] + after);
        law_white_space_parts_words(before.skip(n as int), gap, after);
        assert(seq![before.take(n as int)] + (words(before.skip(n as int)) + words(after)) == seq![
            before.take(n as int),
        ] + words(before.skip(n as int)) + words(after));
    }
}

/// The character after the longest prefix without white space, where there
/// is one, is white space.
pub proof fn lemma_next_is_space(text: Seq<char>)
    requires
        word_len(text) < text.len(),
    ensures
        is_space(text[word_len(text) as int]),
    decreases text.len(),
{
    if !is_space(text[0]) {
        let rest = text.drop_first();
        lemma_next_is_space(rest);
        assert(rest[word_len(rest) as int] == text[word_len(text) as int]);
    }
}

/// Whether `c` is Unicode white space.
pub fn is_space_char(c: char) -> (space: bool)
    ensures
        space == is_space(c),
{
    let n: u32 = c as u32;
    (0x09 <= n && n <= 0x0D) || n == 0x20 || n == 0x85 || n == 0xA0 || n == 0x1680 || (0x2000 <= n
        && n <= 0x200A) || n == 0x2028 || n == 0x2029 || n == 0x202F || n == 0x205F || n == 0x3000
}

/// The characters of `text`, one by one.
pub fn chars_of(text: &str) -> (chars: Vec<char>)
    ensures
        chars@ == text@,
{
    let mut chars: Vec<char> = Vec::new();
    for c in it: text.chars()
        invariant
            it.seq() == text@,
            chars@ == it.seq().take(it.index() as int),
    {
        chars.push(c);
    }
    chars
}

/// Splits `line` at white space, as `str::split_whitespace` does: the words
/// come in the order in which they stand in the line, and none is empty.
pub fn split_words(line: &str) -> (found: Vec<String>)
    ensures
        texts(found@) == words(line@),
{
    let chars = chars_of(line);
    let n = chars.len();
    let mut found: Vec<String> = Vec::new();
    let mut i: usize = 0;
    assert(line@.skip(0) == line@);
    while i < n
        invariant
            i <= n,
            n == line@.len(),
            chars@ == line@,
            words(line@) == texts(found@) + words(line@.skip(i as int)),
        decreases n - i,
    {
        let ghost rest = line@.skip(i as int);
        if is_space_char(chars[i]) {
            assert(rest.drop_first() == line@.skip(i + 1));
            i += 1;
        } else {
            let start = i;
            while i < n && !is_space_char(chars[i])
                invariant
                    start <= i <= n,
                    n == line@.len(),
                    chars@ == line@,
                    forall|k: int| start <= k < i ==> !is_space(#[trigger] line@[k]),
                decreases n - i,
            {
                i += 1;
            }
            let word = line.substring_char(start, i).to_owned();
            proof {
                let len = (i - start) as nat;
                assert(forall|k: int| 0 <= k < len ==> rest[k] == line@[start + k]);
                lemma_word_len_is(rest, len);
                assert(rest.take(len as int) == line@.subrange(start as int, i as int));
                assert(rest.skip(len as int) == line@.skip(i as int));
            }
            found.push(word);
        }
    }
    found
}

} // verus!
