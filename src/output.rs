use vstd::prelude::*;
use convert_case::Case;
use crate::cases::{cased_all, convert_all};
use crate::text::{join, join_with, texts};

verus! {

/// Converted texts on one line, separated by single spaces, with a final
/// newline unless it is to be left out.
pub open spec fn output_text(converted: Seq<Seq<char>>, omit_newline: bool) -> Seq<char> {
    join(converted, " "@) + if omit_newline {
        Seq::empty()
    } else {
        "\n"@
    }
}

/// The output for texts that are already converted.
pub fn render_output(converted: &Vec<String>, omit_newline: bool) -> (r: String)
    ensures
        r@ == output_text(texts(converted@), omit_newline),
{
    let line = join_with(converted, " ");
    if omit_newline {
        line
    } else {
        line.concat("\n")
    }
}

/// Converts each text to the given case and lays out the output.
pub fn convert_and_render(inputs: &Vec<String>, c: Case, omit_newline: bool) -> (r: String)
    ensures
        r@ == output_text(cased_all(texts(inputs@), c), omit_newline),
{
    let converted = convert_all(inputs, c);
    render_output(&converted, omit_newline)
}

} // verus!
