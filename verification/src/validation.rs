//! Turning a validation summary into user-facing messages.

use crate::models::ValidationSummary;
use crate::text::decimal_string;
use crate::text::join;
use crate::text::spec_decimal;
use crate::text::spec_join;
use crate::text::strings_view;
use vstd::prelude::*;

verus! {

/// The one error line reported for missing attributes: their count and
/// their names, comma-separated.
pub open spec fn spec_missing_message(tags: Seq<Seq<char>>) -> Seq<char> {
    "Missing "@ + spec_decimal(tags.len()) + " attribute(s): "@ + spec_join(tags, ", "@)
}

/// The error list of a summary: one line naming the missing attributes,
/// or nothing when none are missing.
pub open spec fn spec_validation_errors(missing_tags: Seq<Seq<char>>) -> Seq<Seq<char>> {
    if missing_tags.len() == 0 {
        Seq::<Seq<char>>::empty()
    } else {
        seq![spec_missing_message(missing_tags)]
    }
}

/// The warning list of a summary: one line when the Pixel Data element
/// is absent, nothing otherwise.
pub open spec fn spec_validation_warnings(has_pixel_data: bool) -> Seq<Seq<char>> {
    if has_pixel_data {
        Seq::<Seq<char>>::empty()
    } else {
        seq!["Pixel Data element not present"@]
    }
}

/// Splits validation findings into fatal errors (missing required
/// attributes) and softer warnings (no pixel data).
pub fn validation_messages(summary: &ValidationSummary) -> (r: (Vec<String>, Vec<String>))
    ensures
        strings_view(r.0@) == spec_validation_errors(strings_view(summary.missing_tags@)),
        strings_view(r.1@) == spec_validation_warnings(summary.has_pixel_data),
{
    let mut errors: Vec<String> = Vec::new();
    if summary.missing_tags.len() > 0 {
        let mut message = String::from_str("Missing ");
        let count = decimal_string(summary.missing_tags.len());
        message.append(count.as_str());
        message.append(" attribute(s): ");
        let joined = join(&summary.missing_tags, ", ");
        message.append(joined.as_str());
        proof {
            assert(message@ == spec_missing_message(strings_view(summary.missing_tags@)));
        }
        errors.push(message);
    }

    let mut warnings: Vec<String> = Vec::new();
    if !summary.has_pixel_data {
        warnings.push(String::from_str("Pixel Data element not present"));
    }

    proof {
        assert(strings_view(errors@) =~= spec_validation_errors(
            strings_view(summary.missing_tags@),
        ));
        assert(strings_view(warnings@) =~= spec_validation_warnings(summary.has_pixel_data));
    }
    (errors, warnings)
}

} // verus!
