//! What a buffer can become under a run of keystrokes, and what therefore
//! holds of every buffer that was filled one accepted character at a time.
//!
//! Nothing here runs: these are the laws of the acceptance rule, stated over
//! plain character sequences and proved once for all buffers and all keys.

use super::encoding::{false_word, is_digit, spells_boolean, true_word, Encoding};
use crate::text::{lemma_prefix_letters, lemma_prefix_push};
use vstd::prelude::*;

verus! {

impl Encoding {
    /// Every character of `buffer` was acceptable after the characters that
    /// stand before it, so the buffer can be built from nothing by pushes that
    /// are all accepted. This is what a field's buffer is at all times.
    pub open spec fn valid_prefix(self, buffer: Seq<char>) -> bool {
        forall|i: int| 0 <= i < buffer.len() ==> self.accepts(#[trigger] buffer.take(i), buffer[i])
    }

    /// The buffer after the characters of `keys` have been offered to it one
    /// after the other, each kept or ignored as the rule decides.
    pub open spec fn after_keys(self, buffer: Seq<char>, keys: Seq<char>) -> Seq<char>
        decreases keys.len(),
    {
        if keys.len() == 0 {
            buffer
        } else {
            self.after_key(self.after_keys(buffer, keys.drop_last()), keys.last())
        }
    }
}

/// At most one decimal point stands in `text`.
pub open spec fn at_most_one_point(text: Seq<char>) -> bool {
    forall|i: int, j: int|
        0 <= i < text.len() && 0 <= j < text.len() && text[i] == '.' && text[j] == '.' ==> i == j
}

/// The empty buffer is a valid prefix under every encoding.
pub proof fn lemma_empty_is_valid_prefix(encoding: Encoding)
    ensures
        encoding.valid_prefix(Seq::empty()),
{
}

/// A character that is turned away leaves the buffer exactly as it was, and
/// does so again however often it is offered.
pub proof fn lemma_rejected_key_changes_nothing(encoding: Encoding, buffer: Seq<char>, ch: char)
    requires
        !encoding.accepts(buffer, ch),
    ensures
        encoding.after_key(buffer, ch) == buffer,
        encoding.after_key(encoding.after_key(buffer, ch), ch) == buffer,
{
}

/// Offering a character to a valid prefix leaves a valid prefix, whether the
/// character is taken or not.
pub proof fn lemma_key_keeps_valid_prefix(encoding: Encoding, buffer: Seq<char>, ch: char)
    requires
        encoding.valid_prefix(buffer),
    ensures
        encoding.valid_prefix(encoding.after_key(buffer, ch)),
{
    if encoding.accepts(buffer, ch) {
        let longer = buffer.push(ch);
        assert forall|i: int| 0 <= i < longer.len() implies encoding.accepts(
            #[trigger] longer.take(i),
            longer[i],
        ) by {
            if i < buffer.len() {
                assert(longer.take(i) =~= buffer.take(i));
            } else {
                assert(longer.take(i) =~= buffer);
            }
        }
    }
}

/// Cutting a valid prefix short leaves a valid prefix, so erasing needs no
/// second look at what remains.
pub proof fn lemma_shorter_is_valid_prefix(encoding: Encoding, buffer: Seq<char>, kept: int)
    requires
        encoding.valid_prefix(buffer),
        0 <= kept <= buffer.len(),
    ensures
        encoding.valid_prefix(buffer.take(kept)),
{
    let shorter = buffer.take(kept);
    assert forall|i: int| 0 <= i < shorter.len() implies encoding.accepts(
        #[trigger] shorter.take(i),
        shorter[i],
    ) by {
        assert(shorter.take(i) =~= buffer.take(i));
    }
}

/// Whatever keys are offered to a valid prefix, the outcome is a valid prefix.
pub proof fn lemma_keys_keep_valid_prefix(encoding: Encoding, buffer: Seq<char>, keys: Seq<char>)
    requires
        encoding.valid_prefix(buffer),
    ensures
        encoding.valid_prefix(encoding.after_keys(buffer, keys)),
    decreases keys.len(),
{
    if keys.len() > 0 {
        lemma_keys_keep_valid_prefix(encoding, buffer, keys.drop_last());
        lemma_key_keeps_valid_prefix(
            encoding,
            encoding.after_keys(buffer, keys.drop_last()),
            keys.last(),
        );
    }
}

/// A valid prefix is what comes of offering its own characters to an empty
/// buffer: the valid prefixes are exactly the buffers that can be reached.
pub proof fn lemma_valid_prefix_is_reachable(encoding: Encoding, buffer: Seq<char>)
    requires
        encoding.valid_prefix(buffer),
    ensures
        encoding.after_keys(Seq::empty(), buffer) == buffer,
    decreases buffer.len(),
{
    if buffer.len() > 0 {
        let before = buffer.drop_last();
        assert(before =~= buffer.take(buffer.len() - 1));
        lemma_shorter_is_valid_prefix(encoding, buffer, buffer.len() - 1);
        lemma_valid_prefix_is_reachable(encoding, before);
        assert(encoding.accepts(buffer.take(buffer.len() - 1), buffer[buffer.len() - 1]));
        assert(before.push(buffer.last()) =~= buffer);
    }
}

/// An integer field takes a character if and only if it is one of `0` to `9`,
/// whatever the buffer holds.
pub proof fn lemma_integer_takes_digits_only(buffer: Seq<char>, ch: char)
    ensures
        Encoding::Integer.accepts(buffer, ch) <==> '0' <= ch <= '9',
{
}

/// A numeric field takes every digit, takes a decimal point exactly when the
/// buffer holds none yet, and takes nothing else.
pub proof fn lemma_numeric_rule(buffer: Seq<char>, ch: char)
    ensures
        is_digit(ch) ==> Encoding::Numeric.accepts(buffer, ch),
        buffer.contains('.') ==> !Encoding::Numeric.accepts(buffer, '.'),
        !buffer.contains('.') ==> Encoding::Numeric.accepts(buffer, '.'),
        !is_digit(ch) && ch != '.' ==> !Encoding::Numeric.accepts(buffer, ch),
{
}

/// A numeric buffer that is a valid prefix holds digits and at most one
/// decimal point.
pub proof fn lemma_numeric_has_one_point(buffer: Seq<char>)
    requires
        Encoding::Numeric.valid_prefix(buffer),
    ensures
        at_most_one_point(buffer),
        forall|i: int| 0 <= i < buffer.len() ==> is_digit(#[trigger] buffer[i]) || buffer[i] == '.',
{
    assert forall|i: int, j: int|
        0 <= i < buffer.len() && 0 <= j < buffer.len() && buffer[i] == '.' && buffer[j]
            == '.' implies i == j by {
        if i < j {
            assert(Encoding::Numeric.accepts(buffer.take(j), buffer[j]));
            assert(buffer.take(j)[i] == '.');
        }
        if j < i {
            assert(Encoding::Numeric.accepts(buffer.take(i), buffer[i]));
            assert(buffer.take(i)[j] == '.');
        }
    }
    assert forall|i: int| 0 <= i < buffer.len() implies is_digit(#[trigger] buffer[i]) || buffer[i]
        == '.' by {
        assert(Encoding::Numeric.accepts(buffer.take(i), buffer[i]));
    }
}

/// Whatever keys a numeric field was offered, its buffer holds at most one
/// decimal point.
pub proof fn lemma_numeric_keys(keys: Seq<char>)
    ensures
        at_most_one_point(Encoding::Numeric.after_keys(Seq::empty(), keys)),
{
    lemma_keys_keep_valid_prefix(Encoding::Numeric, Seq::empty(), keys);
    lemma_numeric_has_one_point(Encoding::Numeric.after_keys(Seq::empty(), keys));
}

/// The buffers a boolean field can hold are the beginnings of `false` and of
/// `true`, and no others.
pub proof fn lemma_boolean_spells_a_word(buffer: Seq<char>)
    ensures
        Encoding::Boolean.valid_prefix(buffer) <==> spells_boolean(buffer),
{
    if Encoding::Boolean.valid_prefix(buffer) {
        if buffer.len() > 0 {
            let last = buffer.len() - 1;
            assert(Encoding::Boolean.accepts(buffer.take(last), buffer[last]));
            assert(buffer.take(last).push(buffer[last]) =~= buffer);
        } else {
            assert(buffer =~= false_word().subrange(0, 0));
        }
    }
    if spells_boolean(buffer) {
        let word = if buffer.is_prefix_of(false_word()) {
            false_word()
        } else {
            true_word()
        };
        lemma_prefix_letters(buffer, word);
        assert forall|i: int| 0 <= i < buffer.len() implies Encoding::Boolean.accepts(
            #[trigger] buffer.take(i),
            buffer[i],
        ) by {
            assert(buffer.take(i) =~= word.subrange(0, i));
            lemma_prefix_push(buffer.take(i), buffer[i], word);
        }
    }
}

/// A boolean field is finished, in that it takes no further character, exactly
/// when its buffer reads `false` or `true`; every other buffer it can hold
/// still waits for a letter.
pub proof fn lemma_boolean_ends_on_a_word(buffer: Seq<char>)
    requires
        Encoding::Boolean.valid_prefix(buffer),
    ensures
        (forall|ch: char| !Encoding::Boolean.accepts(buffer, ch)) <==> (buffer == false_word()
            || buffer == true_word()),
{
    reveal_strlit("false");
    reveal_strlit("true");
    lemma_boolean_spells_a_word(buffer);
    if buffer == false_word() || buffer == true_word() {
        assert forall|ch: char| !Encoding::Boolean.accepts(buffer, ch) by {
            lemma_spelling_step(buffer, ch);
            if buffer == true_word() && buffer.is_prefix_of(false_word()) {
                lemma_prefix_letters(buffer, false_word());
                assert(buffer[0] == 't' && buffer[0] == 'f');
            }
        }
    } else {
        let word = if buffer.is_prefix_of(false_word()) {
            false_word()
        } else {
            true_word()
        };
        lemma_prefix_letters(buffer, word);
        assert(buffer.len() < word.len()) by {
            if buffer.len() == word.len() {
                assert(buffer =~= word);
            }
        }
        let due = word[buffer.len() as int];
        lemma_spelling_step(buffer, due);
        assert(Encoding::Boolean.accepts(buffer, due));
    }
}

/// Whatever keys a boolean field was offered, its buffer begins one of the two
/// words. It is finished, taking no further character, exactly when it reads
/// `false` or `true`, and from then on no keystroke changes it again.
pub proof fn lemma_boolean_keys(keys: Seq<char>, more: Seq<char>)
    ensures
        ({
            let buffer = Encoding::Boolean.after_keys(Seq::empty(), keys);
            let finished = buffer == false_word() || buffer == true_word();
            &&& spells_boolean(buffer)
            &&& finished <==> forall|ch: char| !Encoding::Boolean.accepts(buffer, ch)
            &&& finished ==> Encoding::Boolean.after_keys(buffer, more) == buffer
        }),
    decreases more.len(),
{
    let buffer = Encoding::Boolean.after_keys(Seq::empty(), keys);
    lemma_keys_keep_valid_prefix(Encoding::Boolean, Seq::empty(), keys);
    lemma_boolean_spells_a_word(buffer);
    lemma_boolean_ends_on_a_word(buffer);
    if buffer == false_word() || buffer == true_word() {
        if more.len() > 0 {
            lemma_boolean_keys(keys, more.drop_last());
            assert(!Encoding::Boolean.accepts(buffer, more.last()));
        }
    }
}

/// The ten states of a boolean field: the texts that begin `false` or `true`.
pub proof fn lemma_boolean_states(buffer: Seq<char>)
    ensures
        spells_boolean(buffer) <==> buffer == ""@ || buffer == "f"@ || buffer == "fa"@ || buffer
            == "fal"@ || buffer == "fals"@ || buffer == "false"@ || buffer == "t"@ || buffer
            == "tr"@ || buffer == "tru"@ || buffer == "true"@,
{
    reveal_strlit("");
    reveal_strlit("f");
    reveal_strlit("fa");
    reveal_strlit("fal");
    reveal_strlit("fals");
    reveal_strlit("false");
    reveal_strlit("t");
    reveal_strlit("tr");
    reveal_strlit("tru");
    reveal_strlit("true");
    if buffer.is_prefix_of(false_word()) {
        lemma_prefix_letters(buffer, false_word());
        assert(buffer =~= ""@ || buffer =~= "f"@ || buffer =~= "fa"@ || buffer =~= "fal"@ || buffer
            =~= "fals"@ || buffer =~= "false"@);
    }
    if buffer.is_prefix_of(true_word()) {
        lemma_prefix_letters(buffer, true_word());
        assert(buffer =~= ""@ || buffer =~= "t"@ || buffer =~= "tr"@ || buffer =~= "tru"@ || buffer
            =~= "true"@);
    }
    assert(""@ =~= false_word().subrange(0, 0));
    assert("f"@ =~= false_word().subrange(0, 1));
    assert("fa"@ =~= false_word().subrange(0, 2));
    assert("fal"@ =~= false_word().subrange(0, 3));
    assert("fals"@ =~= false_word().subrange(0, 4));
    assert("false"@ =~= false_word().subrange(0, 5));
    assert("t"@ =~= true_word().subrange(0, 1));
    assert("tr"@ =~= true_word().subrange(0, 2));
    assert("tru"@ =~= true_word().subrange(0, 3));
    assert("true"@ =~= true_word().subrange(0, 4));
}

/// The spelling table of a boolean field, state by state: which single letter
/// each buffer waits for.
pub proof fn lemma_boolean_table(ch: char)
    ensures
        Encoding::Boolean.accepts(""@, ch) <==> ch == 'f' || ch == 't',
        Encoding::Boolean.accepts("f"@, ch) <==> ch == 'a',
        Encoding::Boolean.accepts("fa"@, ch) <==> ch == 'l',
        Encoding::Boolean.accepts("fal"@, ch) <==> ch == 's',
        Encoding::Boolean.accepts("fals"@, ch) <==> ch == 'e',
        Encoding::Boolean.accepts("t"@, ch) <==> ch == 'r',
        Encoding::Boolean.accepts("tr"@, ch) <==> ch == 'u',
        Encoding::Boolean.accepts("tru"@, ch) <==> ch == 'e',
        !Encoding::Boolean.accepts("false"@, ch),
        !Encoding::Boolean.accepts("true"@, ch),
{
    reveal_strlit("");
    reveal_strlit("f");
    reveal_strlit("fa");
    reveal_strlit("fal");
    reveal_strlit("fals");
    reveal_strlit("false");
    reveal_strlit("t");
    reveal_strlit("tr");
    reveal_strlit("tru");
    reveal_strlit("true");
    lemma_spelling_step(""@, ch);
    lemma_spelling_step("f"@, ch);
    lemma_spelling_step("fa"@, ch);
    lemma_spelling_step("fal"@, ch);
    lemma_spelling_step("fals"@, ch);
    lemma_spelling_step("false"@, ch);
    lemma_spelling_step("t"@, ch);
    lemma_spelling_step("tr"@, ch);
    lemma_spelling_step("tru"@, ch);
    lemma_spelling_step("true"@, ch);
}

/// Unfolds what it takes for `buffer` followed by `ch` to begin a boolean
/// word: `buffer` begins it, is shorter than it, and `ch` is its next letter.
proof fn lemma_spelling_step(buffer: Seq<char>, ch: char)
    ensures
        Encoding::Boolean.accepts(buffer, ch) <==> {
            ||| buffer.is_prefix_of(false_word()) && buffer.len() < false_word().len()
                && false_word()[buffer.len() as int] == ch
            ||| buffer.is_prefix_of(true_word()) && buffer.len() < true_word().len()
                && true_word()[buffer.len() as int] == ch
        },
{
    lemma_prefix_push(buffer, ch, false_word());
    lemma_prefix_push(buffer, ch, true_word());
}

} // verus!
