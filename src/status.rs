//! The label shown for a pipeline or job status.
use vstd::prelude::*;
use vstd::string::*;

verus! {

/// The colour and weight in which a piece of output is shown.
#[derive(Clone, Copy, Debug, PartialEq, Eq, Structural)]
pub enum Style {
    Plain,
    Cyan,
    Yellow,
    Red,
    GreenBold,
    RedBold,
    YellowBold,
    WhiteBold,
    BlueBold,
}

/// A status as it is shown: its text and its style.
#[derive(Debug)]
pub struct StatusLabel {
    pub text: String,
    pub style: Style,
}

/// What `str::to_lowercase` returns for a string.
pub uninterp spec fn lower_of(s: Seq<char>) -> Seq<char>;

/// What `str::to_uppercase` returns for a string.
pub uninterp spec fn upper_of(s: Seq<char>) -> Seq<char>;

/// The label for a status, given its lowercase and its uppercase form.
pub open spec fn label_spec(lower: Seq<char>, upper: Seq<char>) -> (Seq<char>, Style) {
    if lower == "success"@ {
        ("● SUCCESS"@, Style::GreenBold)
    } else if lower == "failed"@ {
        ("● FAILED"@, Style::RedBold)
    } else if lower == "running"@ || lower == "pending"@ {
        ("● BUILDING"@, Style::YellowBold)
    } else if lower == "canceled"@ {
        ("● CANCELED"@, Style::WhiteBold)
    } else if lower == "skipped"@ {
        ("● SKIPPED"@, Style::BlueBold)
    } else {
        ("● "@ + upper, Style::WhiteBold)
    }
}

/// A status is recognized when its lowercase form is one of the statuses
/// with a fixed label.
pub open spec fn is_recognized(lower: Seq<char>) -> bool {
    lower == "success"@ || lower == "failed"@ || lower == "running"@ || lower == "pending"@
        || lower == "canceled"@ || lower == "skipped"@
}

/// Case does not matter for a recognized status: two statuses with the same
/// lowercase form get the same fixed label, whatever their uppercase forms.
/// Any other status is shown as a bullet, a space and its uppercase form.
pub proof fn lemma_label_ignores_case(a: Seq<char>, b: Seq<char>)
    ensures
        is_recognized(lower_of(a)) && lower_of(a) == lower_of(b) ==> label_spec(
            lower_of(a),
            upper_of(a),
        ) == label_spec(lower_of(b), upper_of(b)),
        !is_recognized(lower_of(a)) ==> label_spec(lower_of(a), upper_of(a)) == (
            "● "@ + upper_of(a),
            Style::WhiteBold,
        ),
{
}

/// Relies on `str::to_lowercase`: the result depends on the characters alone.
#[verifier::external_body]
fn lowercase(s: &str) -> (r: String)
    ensures
        r@ == lower_of(s@),
{
    s.to_lowercase()
}

/// Relies on `str::to_uppercase`: the result depends on the characters alone.
#[verifier::external_body]
fn uppercase(s: &str) -> (r: String)
    ensures
        r@ == upper_of(s@),
{
    s.to_uppercase()
}

/// The label for a status whose lowercase form is `lower` and whose
/// uppercase form is `upper`.
pub fn label_for_folded(lower: &str, upper: &str) -> (r: StatusLabel)
    ensures
        (r.text@, r.style) == label_spec(lower@, upper@),
{
    let l = String::from_str(lower);
    if l == String::from_str("success") {
        StatusLabel { text: String::from_str("● SUCCESS"), style: Style::GreenBold }
    } else if l == String::from_str("failed") {
        StatusLabel { text: String::from_str("● FAILED"), style: Style::RedBold }
    } else if l == String::from_str("running") || l == String::from_str("pending") {
        StatusLabel { text: String::from_str("● BUILDING"), style: Style::YellowBold }
    } else if l == String::from_str("canceled") {
        StatusLabel { text: String::from_str("● CANCELED"), style: Style::WhiteBold }
    } else if l == String::from_str("skipped") {
        StatusLabel { text: String::from_str("● SKIPPED"), style: Style::BlueBold }
    } else {
        StatusLabel { text: String::from_str("● ").concat(upper), style: Style::WhiteBold }
    }
}

/// The label for a status string, matched without regard to case. Every
/// string has one: an unknown status is shown as a bullet and its
/// uppercase form.
pub fn render(status: &str) -> (r: StatusLabel)
    ensures
        (r.text@, r.style) == label_spec(lower_of(status@), upper_of(status@)),
{
    let lower = lowercase(status);
    let upper = uppercase(status);
    label_for_folded(lower.as_str(), upper.as_str())
}

} // verus!
