//! Text primitives the models are built on.
//!
//! A buffer is edited through three methods of the standard library's
//! `String`. What they do to the characters of the string is stated here and
//! taken on trust: it is what their documentation says, and nothing in this
//! crate proves it. Everything else in this module is verified.

use vstd::prelude::*;
use vstd::std_specs::iter::IteratorSpec;

verus! {

/// Trusted: `String::push` appends the given character to the end of the
/// string and leaves everything before it as it was.
pub assume_specification[ std::string::String::push ](s: &mut std::string::String, ch: char)
    ensures
        final(s)@ == old(s)@.push(ch),
;

/// Trusted: `String::pop` removes the last character and returns it; on an
/// empty string it returns `None` and changes nothing.
pub assume_specification[ std::string::String::pop ](s: &mut std::string::String) -> (popped:
    Option<char>)
    ensures
        old(s)@.len() == 0 ==> popped is None && final(s)@ == old(s)@,
        old(s)@.len() > 0 ==> popped == Some(old(s)@.last()) && final(s)@ == old(s)@.drop_last(),
;

/// Trusted: `String::clear` removes every character, leaving the empty
/// string.
pub assume_specification[ std::string::String::clear ](s: &mut std::string::String)
    ensures
        final(s)@ == Seq::<char>::empty(),
;

/// Whether `needle` occurs anywhere in `s`.
pub fn contains_char(s: &str, needle: char) -> (found: bool)
    ensures
        found == s@.contains(needle),
{
    let mut found = false;
    for c in it: s.chars()
        invariant
            it.seq() == s@,
            found <==> exists|j: int| 0 <= j < it.index() && s@[j] == needle,
    {
        if c == needle {
            found = true;
        }
    }
    found
}

/// Whether `word` starts with the whole of `s`. Both texts are walked once,
/// side by side, up to the first place where they part.
pub fn is_prefix(s: &str, word: &str) -> (starts: bool)
    ensures
        starts == s@.is_prefix_of(word@),
{
    let mut typed = s.chars();
    let mut letters = word.chars();
    let ghost mut matched: int = 0;
    loop
        invariant
            0 <= matched <= s@.len(),
            matched <= word@.len(),
            typed.remaining() == s@.skip(matched),
            letters.remaining() == word@.skip(matched),
            forall|j: int| 0 <= j < matched ==> s@[j] == word@[j],
        decreases s@.len() - matched,
    {
        match typed.next() {
            None => {
                assert(s@ =~= word@.subrange(0, s@.len() as int));
                return true;
            },
            Some(ch) => {
                match letters.next() {
                    Some(letter) if letter == ch => {
                        proof {
                            assert(s@.skip(matched).drop_first() =~= s@.skip(matched + 1));
                            assert(word@.skip(matched).drop_first() =~= word@.skip(matched + 1));
                            matched = matched + 1;
                        }
                    },
                    _ => {
                        return false;
                    },
                }
            },
        }
    }
}

/// A text that begins `word` agrees with it letter for letter.
pub proof fn lemma_prefix_letters(text: Seq<char>, word: Seq<char>)
    requires
        text.is_prefix_of(word),
    ensures
        text.len() <= word.len(),
        forall|i: int| 0 <= i < text.len() ==> text[i] == word[i],
{
    assert(text =~= word.subrange(0, text.len() as int));
}

/// A text followed by one more character begins `word` exactly when the text
/// itself does, stops short of the end of `word`, and the character is the
/// letter of `word` that comes next.
pub proof fn lemma_prefix_push(text: Seq<char>, ch: char, word: Seq<char>)
    ensures
        text.push(ch).is_prefix_of(word) <==> text.is_prefix_of(word) && text.len() < word.len()
            && word[text.len() as int] == ch,
{
    let longer = text.push(ch);
    if longer.is_prefix_of(word) {
        lemma_prefix_letters(longer, word);
        assert(longer[text.len() as int] == ch);
        assert forall|i: int| 0 <= i < text.len() implies text[i] == word[i] by {
            assert(longer[i] == text[i]);
        }
        assert(text =~= word.subrange(0, text.len() as int));
    }
    if text.is_prefix_of(word) && text.len() < word.len() && word[text.len() as int] == ch {
        lemma_prefix_letters(text, word);
        assert(longer =~= word.subrange(0, longer.len() as int));
    }
}

} // verus!
