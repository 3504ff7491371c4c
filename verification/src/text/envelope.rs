//! The lines of text that a bridged message is shown as.

use vstd::prelude::*;
use crate::error::DecodeError;
use crate::model::junction::views;
use crate::model::instruction::{InstructionView, lemma_program_view};
use crate::model::envelope::{
    VersionedInteriorLocation, VersionedInteriorLocationView, VersionedXcm, VersionedXcmView,
};
use crate::text::basic::{decimal, format_number, texts};
use crate::text::junction::{format_junctions, junctions_text};
use crate::text::instruction::{format_instruction, instruction_text};

verus! {

/// The line that names the destination. Only a version 5 destination has
/// one; any other is reported as unsupported, with its version.
pub open spec fn destination_line(x: VersionedInteriorLocationView) -> Result<
    Seq<char>,
    DecodeError,
> {
    match x {
        VersionedInteriorLocationView::V5(interior) => Ok(
            "Destination: "@ + junctions_text(interior),
        ),
        VersionedInteriorLocationView::Unsupported { version, encoded } => Err(
            DecodeError::UnsupportedVersion(version),
        ),
    }
}

/// The line of the instruction at index `k` of a program: the index in
/// square brackets, a space, and the instruction.
pub open spec fn instruction_line(k: nat, x: InstructionView) -> Seq<char> {
    "["@ + decimal(k) + "] "@ + instruction_text(x)
}

/// The lines of a program, one for each instruction, in their order.
pub open spec fn program_lines(xs: Seq<InstructionView>) -> Seq<Seq<char>> {
    Seq::new(xs.len(), |k: int| instruction_line(k as nat, xs[k]))
}

/// The lines of a message. Only a version 5 message has them; any other is
/// reported as unsupported, with its version.
pub open spec fn instruction_lines(x: VersionedXcmView) -> Result<Seq<Seq<char>>, DecodeError> {
    match x {
        VersionedXcmView::V5(xs) => Ok(program_lines(xs)),
        VersionedXcmView::Unsupported { version, encoded } => Err(
            DecodeError::UnsupportedVersion(version),
        ),
    }
}

/// Renders the line that names the destination.
pub fn render_destination(x: &VersionedInteriorLocation) -> (r: Result<String, DecodeError>)
    ensures
        r matches Ok(line) ==> destination_line(x@) == Ok::<_, DecodeError>(line@),
        r matches Err(e) ==> destination_line(x@) == Err::<Seq<char>, _>(e),
{
    match x {
        VersionedInteriorLocation::V5(interior) => {
            let mut text = String::from_str("Destination: ");
            let part0 = format_junctions(interior);
            text.append(part0.as_str());
            Ok(text)
        },
        VersionedInteriorLocation::Unsupported { version, encoded: _ } => Err(
            DecodeError::UnsupportedVersion(*version),
        ),
    }
}

/// Renders the instructions of a message, one line each, with its index.
pub fn render_instructions(x: &VersionedXcm) -> (r: Result<Vec<String>, DecodeError>)
    ensures
        r matches Ok(lines) ==> instruction_lines(x@) == Ok::<_, DecodeError>(texts(lines@)),
        r matches Err(e) ==> instruction_lines(x@) == Err::<Seq<Seq<char>>, _>(e),
{
    match x {
        VersionedXcm::V5(xcm) => {
            let items = &xcm.0;
            let mut out: Vec<String> = Vec::new();
            let mut i: usize = 0;
            proof {
                lemma_program_view(xcm.0);
            }
            while i < items.len()
                invariant
                    i <= items.len(),
                    out@.len() == i,
                    forall|j: int|
                        0 <= j < i ==> out@[j]@ == instruction_line(
                            j as nat,
                            (#[trigger] items@[j])@,
                        ),
                decreases items.len() - i,
            {
                let mut text = String::from_str("[");
                let part0 = format_number(i as u128);
                text.append(part0.as_str());
                text.append("] ");
                let part1 = format_instruction(&items[i]);
                text.append(part1.as_str());
                out.push(text);
                i = i + 1;
            }
            assert(texts(out@) =~= program_lines(views(items@)));
            Ok(out)
        },
        VersionedXcm::Unsupported { version, encoded: _ } => Err(
            DecodeError::UnsupportedVersion(*version),
        ),
    }
}

} // verus!
