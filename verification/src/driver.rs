//! The driver's stage sequence: strictly linear and single-pass. Resolution,
//! one build, the compression pass exactly when the caller did not opt out,
//! embedding, and the output write — nothing repeats, nothing branches back.

use vstd::prelude::*;

use crate::resolve::BuildConfig;

verus! {

/// One stage of the pipeline, in the driver's order.
#[derive(Clone, Copy, Debug, PartialEq, Eq, Structural)]
pub enum PipelineStage {
    /// Resolve the buildable unit from workspace metadata.
    Resolve,
    /// Drive the external build and report the artifact size.
    Build,
    /// Drive the external in-place compression pass and report the size.
    Compress,
    /// Embed the artifact into the dialect template and report the size.
    Embed,
    /// Write the generated text to the output path.
    WriteOutput,
}

/// The stages the driver runs, in order: resolution, exactly one build, the
/// compressor exactly when compression was not opted out, embedding, and the
/// write of the generated text.
pub open spec fn planned_stages(cfg: BuildConfig) -> Seq<PipelineStage> {
    seq![PipelineStage::Resolve, PipelineStage::Build] + (if !cfg.no_upx {
        seq![PipelineStage::Compress]
    } else {
        Seq::empty()
    }) + seq![PipelineStage::Embed, PipelineStage::WriteOutput]
}

/// The driver's plan for a configuration.
pub fn pipeline_plan(cfg: &BuildConfig) -> (r: Vec<PipelineStage>)
    ensures
        r@ == planned_stages(*cfg),
{
    let mut stages: Vec<PipelineStage> = Vec::new();
    stages.push(PipelineStage::Resolve);
    stages.push(PipelineStage::Build);
    if !cfg.no_upx {
        stages.push(PipelineStage::Compress);
    }
    stages.push(PipelineStage::Embed);
    stages.push(PipelineStage::WriteOutput);
    proof {
        assert(stages@ =~= planned_stages(*cfg));
    }
    stages
}

} // verus!
