//! The contexts that the backend developer hands to the prompt composer:
//! what the generative backend is shown for each of its four tasks.

use vstd::prelude::*;
use crate::fact_sheet::{FactSheet, FactSheetView};
use crate::text::{append_optional_text, contains_text, lemma_contains_middle, optional_text};

verus! {

pub const INITIAL_TEMPLATE_LABEL: &'static str = "
            CODE_TEMPLATE: ";

pub const TEMPLATE_LABEL: &'static str = "CODE_TEMPLATE: ";

pub const DESCRIPTION_LABEL: &'static str = " \n PROJECT_DESCRIPTION: ";

pub const CONTEXT_CLOSING: &'static str = " \n";

pub const BROKEN_CODE_LABEL: &'static str = "BROKEN_CODE: ";

pub const ERROR_BUGS_LABEL: &'static str = " \n ERROR_BUGS: ";

pub const FACT_SHEET_LABEL: &'static str = " \n FACT_SHEET: ";

pub const FIX_CLOSING: &'static str = " \n
            THIS FUNCTION ONLY OUTPUTS CODE. JUST OUTPUT THE CODE";

pub const CODE_INPUT_LABEL: &'static str = "CODE_INPUT: ";

/// The context for the first version of the code: the code template and
/// the project's description.
pub open spec fn initial_code_context(template: Seq<char>, description: Seq<char>) -> Seq<char> {
    INITIAL_TEMPLATE_LABEL@ + template + DESCRIPTION_LABEL@ + description + CONTEXT_CLOSING@
}

/// The context for an improved version of the code: the current code and
/// the whole fact sheet.
pub open spec fn improved_code_context(sheet: FactSheetView) -> Seq<char> {
    TEMPLATE_LABEL@ + optional_text(sheet.backend_code) + DESCRIPTION_LABEL@ + sheet.rendered()
        + CONTEXT_CLOSING@
}

/// The context for a repaired version of the code: the current code, what
/// the build reported, and the whole fact sheet.
pub open spec fn fix_code_context(sheet: FactSheetView, bug_errors: Option<Seq<char>>) -> Seq<
    char,
> {
    BROKEN_CODE_LABEL@ + optional_text(sheet.backend_code) + ERROR_BUGS_LABEL@ + optional_text(
        bug_errors,
    ) + FACT_SHEET_LABEL@ + sheet.rendered() + FIX_CLOSING@
}

/// The context for the list of routes: the source that was built.
pub open spec fn endpoints_context(source: Seq<char>) -> Seq<char> {
    CODE_INPUT_LABEL@ + source
}

/// Writes the context for the first version of the code.
pub fn write_initial_code_context(template: &str, description: &str) -> (context: String)
    ensures
        context@ == initial_code_context(template@, description@),
{
    let mut context = String::from_str(INITIAL_TEMPLATE_LABEL);
    context.append(template);
    context.append(DESCRIPTION_LABEL);
    context.append(description);
    context.append(CONTEXT_CLOSING);
    context
}

/// Writes the context for an improved version of the code.
pub fn write_improved_code_context(sheet: &FactSheet) -> (context: String)
    ensures
        context@ == improved_code_context(sheet@),
{
    let rendered = sheet.render();
    let mut context = String::from_str(TEMPLATE_LABEL);
    append_optional_text(&mut context, &sheet.backend_code);
    context.append(DESCRIPTION_LABEL);
    context.append(rendered.as_str());
    context.append(CONTEXT_CLOSING);
    context
}

/// Writes the context for a repaired version of the code. What the build
/// reported stands in it as it was captured.
pub fn write_fix_code_context(sheet: &FactSheet, bug_errors: &Option<String>) -> (context: String)
    ensures
        context@ == fix_code_context(sheet@, bug_errors.deep_view()),
{
    let rendered = sheet.render();
    let mut context = String::from_str(BROKEN_CODE_LABEL);
    append_optional_text(&mut context, &sheet.backend_code);
    context.append(ERROR_BUGS_LABEL);
    append_optional_text(&mut context, bug_errors);
    context.append(FACT_SHEET_LABEL);
    context.append(rendered.as_str());
    context.append(FIX_CLOSING);
    context
}

/// Writes the context for the list of routes.
pub fn write_endpoints_context(source: &str) -> (context: String)
    ensures
        context@ == endpoints_context(source@),
{
    let mut context = String::from_str(CODE_INPUT_LABEL);
    context.append(source);
    context
}

/// The build's report is found again, as it was captured, in the context
/// for a repaired version of the code.
pub proof fn lemma_fix_context_holds_errors(sheet: FactSheetView, errors: Seq<char>)
    ensures
        contains_text(fix_code_context(sheet, Some(errors)), errors),
{
    let before = BROKEN_CODE_LABEL@ + optional_text(sheet.backend_code) + ERROR_BUGS_LABEL@
        + crate::text::SOMETHING_OPENING@ + crate::text::QUOTE@;
    let after = crate::text::QUOTE@ + crate::text::SOMETHING_CLOSING@ + FACT_SHEET_LABEL@
        + sheet.rendered() + FIX_CLOSING@;
    lemma_contains_middle(before, errors, after);
    assert(fix_code_context(sheet, Some(errors)) =~= before + errors + after);
}

} // verus!
