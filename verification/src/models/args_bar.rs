//! The bar itself: an ordered list of inputs and the cursor that says which
//! of them, if any, receives what is typed.

use super::focus::{focus_in_range, next_focus, prev_focus};
use super::input_parameter::InputParameter;
use super::input_value::{InputValue, InputValueView};
use vstd::prelude::*;

verus! {

/// Represents the current state of input.
#[derive(Debug)]
pub struct ArgsBar {
    /// All of the inputs to track, in the order their parameters were given.
    inputs: Vec<InputValue>,
    /// Index of the input actively receiving data, if any.
    current: Option<usize>,
}

/// An [`ArgsBar`] as plain values.
pub ghost struct ArgsBarView {
    pub inputs: Seq<InputValueView>,
    pub current: Option<usize>,
}

impl ArgsBarView {
    /// The cursor rests on no input or on one of the bar, and every input
    /// holds a buffer its encoding is content with.
    pub open spec fn wf(self) -> bool {
        &&& focus_in_range(self.inputs.len(), self.current)
        &&& forall|i: int| 0 <= i < self.inputs.len() ==> (#[trigger] self.inputs[i]).wf()
    }
}

impl View for ArgsBar {
    type V = ArgsBarView;

    closed spec fn view(&self) -> ArgsBarView {
        ArgsBarView {
            inputs: Seq::new(self.inputs@.len(), |i: int| self.inputs@[i]@),
            current: self.current,
        }
    }
}

impl ArgsBar {
    /// The cursor never points past the inputs.
    #[verifier::type_invariant]
    spec fn cursor_in_range(&self) -> bool {
        self.current matches Some(index) ==> index < self.inputs@.len()
    }

    /// Builds a bar with one fresh input per parameter, in the order given,
    /// and no input selected.
    pub fn new(params: &[InputParameter]) -> (bar: Self)
        ensures
            bar@.current is None,
            bar@.inputs.len() == params@.len(),
            forall|i: int|
                0 <= i < params@.len() ==> #[trigger] bar@.inputs[i] == InputValueView::fresh(
                    params@[i]@,
                ),
            bar@.wf(),
    {
        let mut inputs: Vec<InputValue> = Vec::new();
        for at in 0..params.len()
            invariant
                inputs@.len() == at,
                forall|i: int|
                    0 <= i < at ==> (#[trigger] inputs@[i])@ == InputValueView::fresh(params@[i]@),
        {
            inputs.push(InputValue::new(&params[at]));
        }
        ArgsBar { inputs, current: None }
    }

    /// Cycles forward to the next input. With no input selected the first one
    /// is selected; past the last one the selection wraps round to none. A bar
    /// without inputs stays as it is.
    pub fn toggle_next(&mut self)
        ensures
            final(self)@.inputs == old(self)@.inputs,
            final(self)@.current == next_focus(old(self)@.inputs.len(), old(self)@.current),
            focus_in_range(final(self)@.inputs.len(), final(self)@.current),
            old(self)@.wf() ==> final(self)@.wf(),
    {
        proof {
            use_type_invariant(&*self);
        }
        if self.inputs.is_empty() {
            return;
        }
        let last_index: usize = self.inputs.len() - 1;
        match self.current {
            Some(idx) if idx == last_index => self.current = None,
            Some(idx) if idx < last_index => self.current = Some(idx + 1),
            None => self.current = Some(0),
            _ => self.current = None,
        }
    }

    /// Cycles backward to the prior input. With no input selected the last
    /// one is selected; before the first one the selection wraps round to
    /// none. A bar without inputs stays as it is.
    pub fn toggle_prev(&mut self)
        ensures
            final(self)@.inputs == old(self)@.inputs,
            final(self)@.current == prev_focus(old(self)@.inputs.len(), old(self)@.current),
            focus_in_range(final(self)@.inputs.len(), final(self)@.current),
            old(self)@.wf() ==> final(self)@.wf(),
    {
        proof {
            use_type_invariant(&*self);
        }
        if self.inputs.is_empty() {
            return;
        }
        match self.current {
            Some(0) => self.current = None,
            Some(idx) => self.current = Some(idx - 1),
            None => self.current = Some(self.inputs.len() - 1),
        }
    }

    /// Returns a mutable reference to the input which is actively selected,
    /// or nothing when none is. Whatever the caller does to that input is what
    /// the bar holds in its place afterwards; the other inputs and the cursor
    /// are out of its reach.
    pub fn active_input_mut(&mut self) -> (active: Option<&mut InputValue>)
        ensures
            final(self)@.current == old(self)@.current,
            focus_in_range(final(self)@.inputs.len(), final(self)@.current),
            match old(self)@.current {
                Some(index) => {
                    &&& active matches Some(input)
                    &&& input@ == old(self)@.inputs[index as int]
                    &&& final(self)@.inputs == old(self)@.inputs.update(index as int, final(input)@)
                    &&& old(self)@.wf() && final(input)@.wf() ==> final(self)@.wf()
                },
                None => active is None && final(self)@.inputs == old(self)@.inputs,
            },
    {
        proof {
            use_type_invariant(&*self);
        }
        match self.current {
            Some(idx) => Some(&mut self.inputs[idx]),
            None => None,
        }
    }

    /// The index of the input that is actively selected, if any. It always
    /// names an input of the bar.
    pub fn current(&self) -> (current: Option<usize>)
        ensures
            current == self@.current,
            current matches Some(index) ==> index < self@.inputs.len(),
    {
        proof {
            use_type_invariant(self);
        }
        self.current
    }

    /// The inputs of the bar, in the order their parameters were given.
    pub fn inputs(&self) -> (inputs: &[InputValue])
        ensures
            inputs@.len() == self@.inputs.len(),
            forall|i: int| 0 <= i < inputs@.len() ==> (#[trigger] inputs@[i])@ == self@.inputs[i],
    {
        self.inputs.as_slice()
    }
}

} // verus!
