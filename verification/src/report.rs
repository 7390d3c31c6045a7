//! The driver's progress lines: a human-readable artifact size after the
//! build, after the optional compression, and after embedding.

use vstd::prelude::*;

verus! {

/// Human-readable text for a byte count, scaled to a readable unit; a
/// function of the count alone.
pub uninterp spec fn human_size_of(n: u64) -> Seq<char>;

/// Relies on bytesize::ByteSize's display form: deterministic, scaled to a
/// readable unit, depending on the byte count alone.
#[verifier::external_body]
fn human_size(n: u64) -> (r: String)
    ensures
        r@ == human_size_of(n),
{
    format!("{}", bytesize::ByteSize::b(n))
}

/// The pipeline stage a size line reports on.
#[derive(Clone, Copy, Debug, PartialEq, Eq, Structural)]
pub enum SizeStage {
    /// After the external build.
    Built,
    /// After the optional compression pass.
    Compressed,
    /// After embedding, on the generated text.
    Bundled,
}

/// The fixed label each stage's report line starts with.
pub open spec fn stage_label(stage: SizeStage) -> Seq<char> {
    match stage {
        SizeStage::Built => "Built binary size: "@,
        SizeStage::Compressed => "Compressed binary size: "@,
        SizeStage::Bundled => "Bundled code size: "@,
    }
}

/// The report line for a stage: its label followed by the human-readable
/// size of `n` bytes.
pub fn size_report(stage: SizeStage, n: u64) -> (r: String)
    ensures
        r@ == stage_label(stage) + human_size_of(n),
{
    let mut line = match stage {
        SizeStage::Built => "Built binary size: ".to_owned(),
        SizeStage::Compressed => "Compressed binary size: ".to_owned(),
        SizeStage::Bundled => "Bundled code size: ".to_owned(),
    };
    let size = human_size(n);
    line.append(size.as_str());
    line
}

} // verus!
