//! Splitting a text at white space.

use vstd::prelude::*;

verus! {

/// Whether `c` has the Unicode property `White_Space`.
pub open spec fn is_white_space(c: char) -> bool {
    ||| '\u{9}' <= c <= '\u{d}'
    ||| c == '\u{20}'
    ||| c == '\u{85}'
    ||| c == '\u{a0}'
    ||| c == '\u{1680}'
    ||| '\u{2000}' <= c <= '\u{200a}'
    ||| c == '\u{2028}'
    ||| c == '\u{2029}'
    ||| c == '\u{202f}'
    ||| c == '\u{205f}'
    ||| c == '\u{3000}'
}

/// How many characters of `text` come before its first white space.
pub open spec fn word_len(text: Seq<char>) -> nat
    decreases text.len(),
{
    if text.len() == 0 || is_white_space(text[0]) {
        0
    } else {
        1 + word_len(text.skip(1))
    }
}

/// The words of `text`: its longest pieces without white space, in order.
pub open spec fn words(text: Seq<char>) -> Seq<Seq<char>>
    decreases text.len(),
{
    if text.len() == 0 {
        Seq::empty()
    } else if is_white_space(text[0]) {
        words(text.skip(1))
    } else {
        proof {
            lemma_word_len(text);
        }
        seq![text.take(word_len(text) as int)] + words(text.skip(word_len(text) as int))
    }
}

/// The word at the start of a text lies within it and holds no white space.
pub proof fn lemma_word_len(text: Seq<char>)
    ensures
        word_len(text) <= text.len(),
        forall|i: int| 0 <= i < word_len(text) ==> !is_white_space(#[trigger] text[i]),
        word_len(text) < text.len() ==> is_white_space(text[word_len(text) as int]),
    decreases text.len(),
{
    if text.len() > 0 && !is_white_space(text[0]) {
        let rest = text.skip(1);
        lemma_word_len(rest);
        assert forall|i: int| 0 <= i < word_len(text) implies !is_white_space(
            #[trigger] text[i],
        ) by {
            if i > 0 {
                assert(rest[i - 1] == text[i]);
            }
        }
        if word_len(text) < text.len() {
            assert(rest[word_len(rest) as int] == text[word_len(text) as int]);
        }
    }
}

/// No word is empty, and none holds white space.
pub proof fn law_words_are_solid(text: Seq<char>)
    ensures
        forall|i: int| 0 <= i < words(text).len() ==> (#[trigger] words(text)[i]).len() > 0,
        forall|i: int, j: int|
            0 <= i < words(text).len() && 0 <= j < words(text)[i].len() ==> !is_white_space(
                #[trigger] words(text)[i][j],
            ),
    decreases text.len(),
{
    if text.len() > 0 {
        if is_white_space(text[0]) {
            law_words_are_solid(text.skip(1));
            assert(words(text) == words(text.skip(1)));
        } else {
            let n = word_len(text) as int;
            lemma_word_len(text);
            let rest = words(text.skip(n));
            law_words_are_solid(text.skip(n));
            assert forall|i: int| 0 <= i < words(text).len() implies (#[trigger] words(
                text,
            )[i]).len() > 0 && (forall|j: int|
                0 <= j < words(text)[i].len() ==> !is_white_space(
                    #[trigger] words(text)[i][j],
                )) by {
                if i == 0 {
                    assert(words(text)[0] == text.take(n));
                } else {
                    assert(words(text)[i] == rest[i - 1]);
                }
            }
        }
    }
}

/// The characters with the Unicode property `White_Space`, by their code points.
pub proof fn law_white_space_code_points(c: char)
    ensures
        is_white_space(c) <==> 0x9 <= c as int <= 0xd || 0x2000 <= c as int <= 0x200a || set![
            0x20int,
            0x85,
            0xa0,
            0x1680,
            0x2028,
            0x2029,
            0x202f,
            0x205f,
            0x3000,
        ].contains(c as int),
{
}

/// What the words of a text are, from its front on: no text has no words, white space in front
/// makes no difference, and a piece without white space that the text does not go on with is the
/// first word.
pub proof fn law_words_from_the_front(blank: Seq<char>, word: Seq<char>, rest: Seq<char>)
    requires
        forall|i: int| 0 <= i < blank.len() ==> is_white_space(#[trigger] blank[i]),
        word.len() > 0,
        forall|i: int| 0 <= i < word.len() ==> !is_white_space(#[trigger] word[i]),
        rest.len() > 0 ==> is_white_space(rest[0]),
    ensures
        words(blank) == Seq::<Seq<char>>::empty(),
        words(blank + word + rest) == seq![word] + words(rest),
{
    lemma_words_of_blank(blank);
    lemma_words_after_word(word, rest);
    lemma_words_after_blank(blank, word + rest);
    assert(blank + word + rest == blank + (word + rest));
}

/// A text of white space alone has no words.
pub proof fn lemma_words_of_blank(text: Seq<char>)
    requires
        forall|i: int| 0 <= i < text.len() ==> is_white_space(#[trigger] text[i]),
    ensures
        words(text) == Seq::<Seq<char>>::empty(),
    decreases text.len(),
{
    if text.len() > 0 {
        assert(is_white_space(text[0]));
        assert forall|i: int| 0 <= i < text.skip(1).len() implies is_white_space(
            #[trigger] text.skip(1)[i],
        ) by {
            assert(text.skip(1)[i] == text[i + 1]);
        }
        lemma_words_of_blank(text.skip(1));
    }
}

/// White space in front of a text leaves its words as they are.
pub proof fn lemma_words_after_blank(blank: Seq<char>, text: Seq<char>)
    requires
        forall|i: int| 0 <= i < blank.len() ==> is_white_space(#[trigger] blank[i]),
    ensures
        words(blank + text) == words(text),
    decreases blank.len(),
{
    if blank.len() == 0 {
        assert(blank + text == text);
    } else {
        assert(is_white_space(blank[0]));
        assert forall|i: int| 0 <= i < blank.skip(1).len() implies is_white_space(
            #[trigger] blank.skip(1)[i],
        ) by {
            assert(blank.skip(1)[i] == blank[i + 1]);
        }
        lemma_words_after_blank(blank.skip(1), text);
        assert((blank + text).skip(1) == blank.skip(1) + text);
    }
}

/// The length of the word at the start of a text that is that word and no more, or goes on with
/// white space.
proof fn lemma_word_len_of(word: Seq<char>, text: Seq<char>)
    requires
        forall|i: int| 0 <= i < word.len() ==> !is_white_space(#[trigger] word[i]),
        text.len() > 0 ==> is_white_space(text[0]),
    ensures
        word_len(word + text) == word.len(),
    decreases word.len(),
{
    if word.len() > 0 {
        assert(!is_white_space(word[0]));
        assert forall|i: int| 0 <= i < word.skip(1).len() implies !is_white_space(
            #[trigger] word.skip(1)[i],
        ) by {
            assert(word.skip(1)[i] == word[i + 1]);
        }
        lemma_word_len_of(word.skip(1), text);
        assert((word + text).skip(1) == word.skip(1) + text);
    } else {
        assert(word + text == text);
    }
}

/// A word in front of a text that does not go on with it is the first of the words.
pub proof fn lemma_words_after_word(word: Seq<char>, text: Seq<char>)
    requires
        word.len() > 0,
        forall|i: int| 0 <= i < word.len() ==> !is_white_space(#[trigger] word[i]),
        text.len() > 0 ==> is_white_space(text[0]),
    ensures
        words(word + text) == seq![word] + words(text),
{
    lemma_word_len_of(word, text);
    assert(!is_white_space(word[0]));
    assert((word + text).take(word.len() as int) == word);
    assert((word + text).skip(word.len() as int) == text);
}

/// Whether `c` is white space.
pub fn is_white(c: char) -> (white: bool)
    ensures
        white == is_white_space(c),
{
    ('\u{9}' <= c && c <= '\u{d}') || c == '\u{20}' || c == '\u{85}' || c == '\u{a0}' || c
        == '\u{1680}' || ('\u{2000}' <= c && c <= '\u{200a}') || c == '\u{2028}' || c == '\u{2029}'
        || c == '\u{202f}' || c == '\u{205f}' || c == '\u{3000}'
}

/// The characters of a text.
pub fn chars_of(text: &str) -> (chars: Vec<char>)
    ensures
        chars@ == text@,
{
    let mut chars: Vec<char> = Vec::new();
    for c in it: text.chars()
        invariant
            it.seq() == text@,
            chars@ == text@.take(it.index()),
    {
        chars.push(c);
    }
    assert(text@.take(text@.len() as int) == text@);
    chars
}

/// The bounds of the first word at or after position `from`, or two bounds at the end of the text
/// where no word is left.
pub fn next_word(chars: &Vec<char>, from: usize) -> (bounds: (usize, usize))
    requires
        from <= chars@.len(),
    ensures
        from <= bounds.0 <= bounds.1 <= chars@.len(),
        bounds.0 == bounds.1 ==> bounds.0 == chars@.len() && words(chars@.skip(from as int))
            == Seq::<Seq<char>>::empty(),
        bounds.0 < bounds.1 ==> words(chars@.skip(from as int)) == seq![
            chars@.subrange(bounds.0 as int, bounds.1 as int),
        ] + words(chars@.skip(bounds.1 as int)),
{
    let mut start: usize = from;
    while start < chars.len() && is_white(chars[start])
        invariant
            from <= start <= chars@.len(),
            words(chars@.skip(from as int)) == words(chars@.skip(start as int)),
        decreases chars@.len() - start,
    {
        assert(chars@.skip(start as int).skip(1) == chars@.skip(start + 1));
        start = start + 1;
    }
    let ghost rest = chars@.skip(start as int);
    let mut end: usize = start;
    proof {
        lemma_word_len(rest);
    }
    assert(rest == chars@.skip(end as int));
    while end < chars.len() && !is_white(chars[end])
        invariant
            start <= end <= chars@.len(),
            rest == chars@.skip(start as int),
            word_len(rest) == end - start + word_len(chars@.skip(end as int)),
        decreases chars@.len() - end,
    {
        assert(chars@.skip(end as int).skip(1) == chars@.skip(end + 1));
        end = end + 1;
    }
    assert(word_len(chars@.skip(end as int)) == 0);
    assert(rest.take(end - start) == chars@.subrange(start as int, end as int));
    assert(rest.skip(end - start) == chars@.skip(end as int));
    (start, end)
}

} // verus!
