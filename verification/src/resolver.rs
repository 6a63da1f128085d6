//! The template resolver: produces exactly one catalog variant from optional
//! operator input, using a single interactive fallback when the input is
//! missing or unrecognized.
//!
//! The resolution is a two-step state machine so that the interactive read
//! stays outside the library. `start_resolution` either resolves directly or
//! asks the caller to present the display list once; `complete_selection`
//! maps the outcome of that presentation to the final result.

use vstd::prelude::*;

use crate::catalog::display_variant;
use crate::catalog::parse;
use crate::catalog::spec_display_list;
use crate::catalog::spec_display_variant;
use crate::catalog::spec_parse;
use crate::catalog::PromptTemplateType;

verus! {

/// Why the interactive selection is being presented: the template flag was
/// omitted, or it was given but matched no accepted alias.
#[derive(Clone, Copy, Debug, PartialEq, Eq, Structural)]
pub enum SelectionReason {
    MissingInput,
    InvalidInput,
}

/// Outcome of the first resolution step: either the input parsed and the
/// variant is final, or the caller must present the display list exactly
/// once, for the stated reason.
#[derive(Clone, Copy, Debug, PartialEq, Eq, Structural)]
pub enum ResolutionStep {
    Resolved(PromptTemplateType),
    NeedSelection(SelectionReason),
}

/// The one unrecoverable resolution failure: the operator aborted the
/// interactive selection.
#[derive(Clone, Copy, Debug, PartialEq, Eq, Structural)]
pub enum ResolutionError {
    Cancelled,
}

/// First step of resolution. Present input that parses resolves immediately,
/// with no interaction; absent input, or input that matches no alias, asks
/// for exactly one interactive selection, with the matching message reason.
/// Parse failures are absorbed here and never surfaced to the caller.
pub fn start_resolution(user_input: Option<&str>) -> (step: ResolutionStep)
    ensures
        match user_input {
            Some(s) => match spec_parse(s@) {
                Some(t) => step == ResolutionStep::Resolved(t),
                None => step == ResolutionStep::NeedSelection(SelectionReason::InvalidInput),
            },
            None => step == ResolutionStep::NeedSelection(SelectionReason::MissingInput),
        },
{
    match user_input {
        Some(s) => match parse(s) {
            Ok(t) => ResolutionStep::Resolved(t),
            Err(_) => ResolutionStep::NeedSelection(SelectionReason::InvalidInput),
        },
        None => ResolutionStep::NeedSelection(SelectionReason::MissingInput),
    }
}

/// Second step of resolution: map the outcome of the interactive selection
/// to a final result. A chosen index yields the variant at that position of
/// the display list; cancellation is the only failure, and it is fatal.
/// The selection widget guarantees any returned index is in range.
pub fn complete_selection(selection: Option<usize>) -> (r: Result<
    PromptTemplateType,
    ResolutionError,
>)
    requires
        selection matches Some(i) ==> i < spec_display_list().len(),
    ensures
        match selection {
            Some(i) => r == Ok::<PromptTemplateType, ResolutionError>(
                spec_display_variant(i as int),
            ),
            None => r == Err::<PromptTemplateType, ResolutionError>(ResolutionError::Cancelled),
        },
{
    match selection {
        Some(i) => Ok(display_variant(i)),
        None => Err(ResolutionError::Cancelled),
    }
}

/// The label shown above the interactive selection, one per reason.
pub open spec fn spec_prompt_label(reason: SelectionReason) -> Seq<char> {
    match reason {
        SelectionReason::MissingInput => "Please select a prompt template from the following:"@,
        SelectionReason::InvalidInput
            => "The given prompt template is invalid. Please select from the following:"@,
    }
}

/// The operator-facing label for the interactive selection.
pub fn prompt_label(reason: SelectionReason) -> (r: &'static str)
    ensures
        r@ == spec_prompt_label(reason),
{
    match reason {
        SelectionReason::MissingInput => "Please select a prompt template from the following:",
        SelectionReason::InvalidInput
            => "The given prompt template is invalid. Please select from the following:",
    }
}

} // verus!
