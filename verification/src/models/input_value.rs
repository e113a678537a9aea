//! The running state of one field: what has been typed into it so far, and
//! whether anyone has been at it.

use super::input_parameter::{InputParameter, InputParameterView};
use super::keystrokes::{lemma_key_keeps_valid_prefix, lemma_shorter_is_valid_prefix};
use vstd::prelude::*;

verus! {

/// Keeps track of a provided value against a target [`InputParameter`].
#[derive(Debug)]
pub struct InputValue {
    /// Information on the data being collected.
    param: InputParameter,
    /// The current buffered value of input.
    buffer: String,
    /// True if the input has been interacted with.
    touched: bool,
}

/// An [`InputValue`] as plain values.
pub ghost struct InputValueView {
    pub param: InputParameterView,
    pub buffer: Seq<char>,
    pub touched: bool,
}

impl InputValueView {
    /// The state every field starts in and `reset` returns to: nothing typed,
    /// nothing touched.
    pub open spec fn fresh(param: InputParameterView) -> InputValueView {
        InputValueView { param, buffer: Seq::empty(), touched: false }
    }

    /// The buffer is one that the field's encoding lets a user arrive at:
    /// each of its characters was acceptable after those before it.
    pub open spec fn wf(self) -> bool {
        self.param.encoding.valid_prefix(self.buffer)
    }
}

impl View for InputValue {
    type V = InputValueView;

    closed spec fn view(&self) -> InputValueView {
        InputValueView { param: self.param@, buffer: self.buffer@, touched: self.touched }
    }
}

impl InputValue {
    /// Creates a new input value to work with from a provided
    /// [`InputParameter`]. The input starts off empty and untouched.
    pub fn new(param: &InputParameter) -> (input: Self)
        ensures
            input@ == InputValueView::fresh(param@),
            input@.wf(),
    {
        InputValue { param: param.clone(), buffer: String::new(), touched: false }
    }

    /// Pushes a character to the end of the input buffer if the encoding
    /// permits it there, and drops it silently if not. Either way the input
    /// counts as touched from now on.
    pub fn push_char(&mut self, character: char)
        ensures
            final(self)@.param == old(self)@.param,
            final(self)@.buffer == old(self)@.param.encoding.after_key(
                old(self)@.buffer,
                character,
            ),
            !old(self)@.param.encoding.accepts(old(self)@.buffer, character) ==> final(self)@.buffer
                == old(self)@.buffer,
            final(self)@.touched,
            old(self)@.wf() ==> final(self)@.wf(),
    {
        proof {
            if old(self)@.wf() {
                lemma_key_keeps_valid_prefix(self.param.encoding, self.buffer@, character);
            }
        }
        self.touch();
        let _ = self.param.encoding.push_char(&mut self.buffer, character);
    }

    /// Pops a character off the input buffer and returns it, or returns
    /// nothing when the buffer is empty. What remains is not looked at again:
    /// it was acceptable before the popped character arrived. The input counts
    /// as touched from now on.
    pub fn pop_char(&mut self) -> (popped: Option<char>)
        ensures
            final(self)@.param == old(self)@.param,
            old(self)@.buffer.len() == 0 ==> popped is None
                && final(self)@.buffer == old(self)@.buffer,
            old(self)@.buffer.len() > 0 ==> popped == Some(old(self)@.buffer.last())
                && final(self)@.buffer == old(self)@.buffer.drop_last(),
            final(self)@.touched,
            old(self)@.wf() ==> final(self)@.wf(),
    {
        proof {
            if old(self)@.wf() && self.buffer@.len() > 0 {
                lemma_shorter_is_valid_prefix(
                    self.param.encoding,
                    self.buffer@,
                    self.buffer@.len() - 1,
                );
                assert(self.buffer@.drop_last() =~= self.buffer@.take(self.buffer@.len() - 1));
            }
        }
        self.touch();
        self.buffer.pop()
    }

    /// Marks the input as touched, whether or not anything was typed.
    /// Touching twice is the same as touching once.
    pub fn touch(&mut self)
        ensures
            final(self)@ == (InputValueView { touched: true, ..old(self)@ }),
            old(self)@.wf() ==> final(self)@.wf(),
    {
        self.touched = true;
    }

    /// Resets the input to the state it was created in: the buffer is emptied
    /// and the input is untouched again. The parameter stays.
    pub fn reset(&mut self)
        ensures
            final(self)@ == InputValueView::fresh(old(self)@.param),
            final(self)@.wf(),
    {
        self.buffer.clear();
        self.touched = false;
    }

    /// Determines if this input has been in contact with some form of input:
    /// `false` when created or reset, `true` after a touch, a push or a pop.
    pub fn has_been_touched(&self) -> (touched: bool)
        ensures
            touched == self@.touched,
    {
        self.touched
    }

    /// The characters typed so far.
    pub fn buffer(&self) -> (buffer: &str)
        ensures
            buffer@ == self@.buffer,
    {
        self.buffer.as_str()
    }

    /// The description of the field this input belongs to.
    pub fn param(&self) -> (param: &InputParameter)
        ensures
            param@ == self@.param,
    {
        &self.param
    }
}

} // verus!
