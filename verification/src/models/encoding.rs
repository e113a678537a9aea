//! The kinds of value a field can collect, and the rule by which each kind
//! decides whether one more character may follow what has been typed so far.

use crate::text::{contains_char, is_prefix, lemma_prefix_letters, lemma_prefix_push};
use vstd::prelude::*;
use vstd::string::*;

verus! {

/// Describes the type of value a field collects.
#[derive(Debug, Clone, Copy)]
pub enum Encoding {
    /// Free text: every character is welcome.
    String,
    /// A run of decimal digits.
    Integer,
    /// Decimal digits with at most one decimal point.
    Numeric,
    /// One of the two words `false` and `true`, spelled out letter by letter.
    Boolean,
}

impl Default for Encoding {
    /// A field collects free text unless told otherwise.
    fn default() -> (encoding: Self)
        ensures
            encoding == Encoding::String,
    {
        Encoding::String
    }
}

/// The ASCII decimal digits `0` to `9`.
pub open spec fn is_digit(ch: char) -> bool {
    '0' <= ch <= '9'
}

/// The word a boolean field spells for falsehood.
pub open spec fn false_word() -> Seq<char> {
    "false"@
}

/// The word a boolean field spells for truth.
pub open spec fn true_word() -> Seq<char> {
    "true"@
}

/// Whether `text` is the beginning (possibly the whole) of one of the two
/// boolean words.
pub open spec fn spells_boolean(text: Seq<char>) -> bool {
    text.is_prefix_of(false_word()) || text.is_prefix_of(true_word())
}

/// The reason given when `ch` arrives while `word` is being spelled and
/// `typed` of its letters are already there: either the word is complete and
/// nothing may follow, or another letter was due.
pub open spec fn word_rejection(word: Seq<char>, typed: int, ch: char) -> Seq<char> {
    if typed == word.len() {
        "`"@ + word + "` set, not expecting "@ + seq![ch]
    } else {
        "Expecting `"@ + seq![word[typed]] + "`, not `"@ + seq![ch] + "`"@
    }
}

impl Encoding {
    /// The prefix-acceptance rule: whether `ch` may be appended to `buffer`.
    pub open spec fn accepts(self, buffer: Seq<char>, ch: char) -> bool {
        match self {
            Encoding::String => true,
            Encoding::Integer => is_digit(ch),
            Encoding::Numeric => is_digit(ch) || (ch == '.' && !buffer.contains('.')),
            Encoding::Boolean => spells_boolean(buffer.push(ch)),
        }
    }

    /// The human-readable reason reported when `ch` is turned away from
    /// `buffer`. It names the offending character and, where one was due, the
    /// character that was expected instead. A boolean buffer that spells
    /// neither word is reported as a bad state. Free text turns nothing away,
    /// so it has no reason to give.
    pub open spec fn rejection(self, buffer: Seq<char>, ch: char) -> Seq<char> {
        match self {
            Encoding::String => Seq::empty(),
            Encoding::Integer => "`"@ + seq![ch] + "` is not a digit"@,
            Encoding::Numeric => "Non-numeric not permitted: "@ + seq![ch],
            Encoding::Boolean => if buffer.len() == 0 {
                "Expecting `f` or `t`, not `"@ + seq![ch] + "`"@
            } else if buffer.is_prefix_of(false_word()) {
                word_rejection(false_word(), buffer.len() as int, ch)
            } else if buffer.is_prefix_of(true_word()) {
                word_rejection(true_word(), buffer.len() as int, ch)
            } else {
                "Bad State: "@ + buffer + ", char: "@ + seq![ch]
            },
        }
    }

    /// The buffer after `ch` has been offered to it: one character longer when
    /// the rule accepts `ch`, untouched otherwise.
    pub open spec fn after_key(self, buffer: Seq<char>, ch: char) -> Seq<char> {
        if self.accepts(buffer, ch) {
            buffer.push(ch)
        } else {
            buffer
        }
    }

    /// Appends `ch` to `buffer` when the rule accepts it, and otherwise leaves
    /// `buffer` alone and reports why.
    pub fn push_char(&self, buffer: &mut String, ch: char) -> (verdict: Result<(), String>)
        ensures
            verdict is Ok <==> self.accepts(old(buffer)@, ch),
            verdict matches Err(reason) ==> reason@ == self.rejection(old(buffer)@, ch),
            verdict is Ok ==> final(buffer)@ == old(buffer)@.push(ch),
            verdict is Err ==> final(buffer)@ == old(buffer)@,
            final(buffer)@ == self.after_key(old(buffer)@, ch),
    {
        push_guard(self, buffer.as_str(), ch)?;
        buffer.push(ch);
        Ok(())
    }
}

/// Decides whether `ch` would be accepted after `buffer`, without touching
/// anything.
pub fn push_guard(encoding: &Encoding, buffer: &str, ch: char) -> (verdict: Result<(), String>)
    ensures
        verdict is Ok <==> encoding.accepts(buffer@, ch),
        verdict matches Err(reason) ==> reason@ == encoding.rejection(buffer@, ch),
{
    match encoding {
        Encoding::String => Ok(()),
        Encoding::Integer => {
            if is_ascii_digit(ch) {
                Ok(())
            } else {
                let mut reason = String::from_str("`");
                reason.push(ch);
                reason.append("` is not a digit");
                Err(reason)
            }
        },
        Encoding::Numeric => {
            if is_ascii_digit(ch) || (ch == '.' && !contains_char(buffer, '.')) {
                Ok(())
            } else {
                let mut reason = String::from_str("Non-numeric not permitted: ");
                reason.push(ch);
                Err(reason)
            }
        },
        Encoding::Boolean => {
            proof {
                reveal_strlit("false");
                reveal_strlit("true");
                lemma_prefix_push(buffer@, ch, false_word());
                lemma_prefix_push(buffer@, ch, true_word());
            }
            let typed: usize = buffer.unicode_len();
            if typed == 0 {
                assert(buffer@.is_prefix_of(false_word()) && buffer@.is_prefix_of(true_word())) by {
                    assert(buffer@ =~= false_word().subrange(0, 0));
                    assert(buffer@ =~= true_word().subrange(0, 0));
                }
                if ch == 'f' || ch == 't' {
                    Ok(())
                } else {
                    let mut reason = String::from_str("Expecting `f` or `t`, not `");
                    reason.push(ch);
                    reason.append("`");
                    Err(reason)
                }
            } else if is_prefix(buffer, "false") {
                proof {
                    lemma_prefix_letters(buffer@, false_word());
                    if buffer@.is_prefix_of(true_word()) {
                        lemma_prefix_letters(buffer@, true_word());
                        assert(buffer@[0] == 'f' && buffer@[0] == 't');
                    }
                }
                spell_next("false", buffer, ch)
            } else if is_prefix(buffer, "true") {
                spell_next("true", buffer, ch)
            } else {
                let mut reason = String::from_str("Bad State: ");
                reason.append(buffer);
                reason.append(", char: ");
                reason.push(ch);
                Err(reason)
            }
        },
    }
}

/// Whether `ch` is one of `0` to `9`.
fn is_ascii_digit(ch: char) -> (digit: bool)
    ensures
        digit == is_digit(ch),
{
    '0' <= ch && ch <= '9'
}

/// Judges `ch` as the letter that follows `buffer` in `word`, of which
/// `buffer` is a beginning: accepted when it is the next letter, turned away
/// when another letter was due or the word is already complete.
fn spell_next(word: &str, buffer: &str, ch: char) -> (verdict: Result<(), String>)
    requires
        buffer@.is_prefix_of(word@),
    ensures
        verdict is Ok <==> buffer@.push(ch).is_prefix_of(word@),
        verdict matches Err(reason) ==> reason@ == word_rejection(word@, buffer@.len() as int, ch),
{
    proof {
        lemma_prefix_push(buffer@, ch, word@);
    }
    let typed: usize = buffer.unicode_len();
    if typed == word.unicode_len() {
        let mut reason = String::from_str("`");
        reason.append(word);
        reason.append("` set, not expecting ");
        reason.push(ch);
        Err(reason)
    } else {
        let wanted: char = word.get_char(typed);
        if ch == wanted {
            Ok(())
        } else {
            let mut reason = String::from_str("Expecting `");
            reason.push(wanted);
            reason.append("`, not `");
            reason.push(ch);
            reason.append("`");
            Err(reason)
        }
    }
}

} // verus!
