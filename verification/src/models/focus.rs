//! The focus cursor as a state machine over plain values: for a bar of a
//! given number of fields, the cursor rests on no field or on one of them, and
//! two moves step it round the cycle `None, 0, 1, .., n - 1, None`.

use vstd::prelude::*;

verus! {

/// The cursor rests on no field or on one that exists.
pub open spec fn focus_in_range(fields: nat, current: Option<usize>) -> bool {
    current matches Some(index) ==> index < fields
}

/// Where the cursor stands after one step forward: from no field to the
/// first, from a field to the one after it, from the last field to none.
/// Without fields it stays where it is.
pub open spec fn next_focus(fields: nat, current: Option<usize>) -> Option<usize> {
    if fields == 0 {
        current
    } else {
        match current {
            None => Some(0),
            Some(index) => if index + 1 < fields {
                Some((index + 1) as usize)
            } else {
                None
            },
        }
    }
}

/// Where the cursor stands after one step backward: from no field to the
/// last, from a field to the one before it, from the first field to none.
/// Without fields it stays where it is.
pub open spec fn prev_focus(fields: nat, current: Option<usize>) -> Option<usize> {
    if fields == 0 {
        current
    } else {
        match current {
            None => Some((fields - 1) as usize),
            Some(index) => if index == 0 {
                None
            } else {
                Some((index - 1) as usize)
            },
        }
    }
}

/// Where the cursor stands after `steps` steps forward.
pub open spec fn next_focus_after(fields: nat, current: Option<usize>, steps: nat) -> Option<usize>
    decreases steps,
{
    if steps == 0 {
        current
    } else {
        next_focus(fields, next_focus_after(fields, current, (steps - 1) as nat))
    }
}

/// Where the cursor stands after `steps` steps backward.
pub open spec fn prev_focus_after(fields: nat, current: Option<usize>, steps: nat) -> Option<usize>
    decreases steps,
{
    if steps == 0 {
        current
    } else {
        prev_focus(fields, prev_focus_after(fields, current, (steps - 1) as nat))
    }
}

/// A step in either direction leaves a cursor that was in range in range.
pub proof fn lemma_focus_stays_in_range(fields: nat, current: Option<usize>)
    requires
        fields <= usize::MAX,
        focus_in_range(fields, current),
    ensures
        focus_in_range(fields, next_focus(fields, current)),
        focus_in_range(fields, prev_focus(fields, current)),
{
}

/// Forward and backward undo each other: from every cursor in range, a step
/// one way followed by a step the other way ends where it began.
pub proof fn lemma_focus_steps_are_inverse(fields: nat, current: Option<usize>)
    requires
        fields <= usize::MAX,
        focus_in_range(fields, current),
    ensures
        prev_focus(fields, next_focus(fields, current)) == current,
        next_focus(fields, prev_focus(fields, current)) == current,
{
}

/// The forward cycle: starting on no field, the first `fields` steps visit the
/// fields `0, 1, .., fields - 1` in this order, each once, and the step after
/// them returns to no field.
pub proof fn lemma_next_focus_cycle(fields: nat, steps: nat)
    requires
        fields <= usize::MAX,
        steps <= fields + 1,
    ensures
        1 <= steps <= fields ==> next_focus_after(fields, None, steps) == Some(
            (steps - 1) as usize,
        ),
        steps == 0 || steps == fields + 1 ==> next_focus_after(fields, None, steps) is None,
    decreases steps,
{
    if steps > 0 {
        lemma_next_focus_cycle(fields, (steps - 1) as nat);
    }
}

/// The backward cycle: starting on no field, the first `fields` steps visit
/// the fields `fields - 1, .., 1, 0` in this order, each once, and the step
/// after them returns to no field.
pub proof fn lemma_prev_focus_cycle(fields: nat, steps: nat)
    requires
        fields <= usize::MAX,
        steps <= fields + 1,
    ensures
        1 <= steps <= fields ==> prev_focus_after(fields, None, steps) == Some(
            (fields - steps) as usize,
        ),
        steps == 0 || steps == fields + 1 ==> prev_focus_after(fields, None, steps) is None,
    decreases steps,
{
    if steps > 0 {
        lemma_prev_focus_cycle(fields, (steps - 1) as nat);
    }
}

} // verus!
