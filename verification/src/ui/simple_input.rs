//! A one-line text prompt: what each key does to the text.

use crate::text::{chars_of, pop_char, push_char, string_of, trim, trim_range};
use crate::ui::events::Key;
use vstd::prelude::*;

verus! {

/// Where a prompt stands after a key.
#[derive(Debug, PartialEq, Eq)]
pub enum InputStep {
    /// Go on with the next key.
    Continue,
    /// The text was confirmed; it comes without the whitespace around it.
    Confirmed(String),
    /// The prompt was given up.
    Cancelled,
}

/// Mathematical value of an [`InputStep`].
pub enum InputStepView {
    Continue,
    Confirmed(Seq<char>),
    Cancelled,
}

impl DeepView for InputStep {
    type V = InputStepView;

    open spec fn deep_view(&self) -> InputStepView {
        match self {
            InputStep::Continue => InputStepView::Continue,
            InputStep::Confirmed(text) => InputStepView::Confirmed(text@),
            InputStep::Cancelled => InputStepView::Cancelled,
        }
    }
}

/// The text after an editing key: a character is appended, Backspace removes
/// the last character, any other key leaves the text as it is.
pub open spec fn edited(input: Seq<char>, key: Key) -> Seq<char> {
    match key {
        Key::Char(c) => input.push(c),
        Key::Backspace => if input.len() > 0 {
            input.drop_last()
        } else {
            input
        },
        _ => input,
    }
}

/// The text and the step after a key: Enter confirms the text, trimmed;
/// Esc gives up; every other key edits. Where `require_text` is set, Enter on
/// a text that holds nothing but whitespace does nothing.
pub open spec fn after_input_key(input: Seq<char>, key: Key, require_text: bool) -> (
    Seq<char>,
    InputStepView,
) {
    match key {
        Key::Enter => if require_text && trim(input).len() == 0 {
            (input, InputStepView::Continue)
        } else {
            (input, InputStepView::Confirmed(trim(input)))
        },
        Key::Esc => (input, InputStepView::Cancelled),
        _ => (edited(input, key), InputStepView::Continue),
    }
}

/// Applies an editing key to the text.
pub fn edit(input: &mut String, key: Key)
    ensures
        final(input)@ == edited(old(input)@, key),
{
    match key {
        Key::Char(c) => {
            push_char(input, c);
        },
        Key::Backspace => {
            let _ = pop_char(input);
        },
        _ => {},
    }
}

/// Takes a key of a prompt.
pub fn input_key(input: &mut String, key: Key, require_text: bool) -> (step: InputStep)
    ensures
        (final(input)@, step.deep_view()) == after_input_key(old(input)@, key, require_text),
{
    match key {
        Key::Enter => {
            let text = chars_of(input.as_str());
            let (a, b) = trim_range(&text, 0, text.len());
            assert(text@.subrange(0, text@.len() as int) == text@);
            if require_text && a == b {
                InputStep::Continue
            } else {
                InputStep::Confirmed(string_of(&text, a, b))
            }
        },
        Key::Esc => InputStep::Cancelled,
        _ => {
            edit(input, key);
            InputStep::Continue
        },
    }
}

/// A prompt for one line of text.
pub struct SimpleInput;

impl SimpleInput {
    /// Takes a key: Enter confirms what was typed, Esc gives up.
    pub fn handle_key(input: &mut String, key: Key) -> (step: InputStep)
        ensures
            (final(input)@, step.deep_view()) == after_input_key(old(input)@, key, false),
    {
        input_key(input, key, false)
    }
}

} // verus!
