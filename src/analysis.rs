use vstd::prelude::*;

verus! {

/// A stage of one analysis request.
#[derive(Clone, Copy, Debug, PartialEq, Eq, Structural)]
pub enum AnalysisStep {
    DetectFaces,
    AlignAndEmbed,
    RunClip,
    Finish,
}

/// What the result says about faces.
#[derive(Clone, Copy, Debug, PartialEq, Eq, Structural)]
pub enum FacesOutcome {
    /// Faces were not asked for: the result has no face list.
    NotRequested,
    /// Faces were asked for and none was found: the face list is empty.
    NoneDetected,
    /// Faces were found and go through alignment and embedding.
    Detected,
}

/// The stage after `done` (`None` before the first): face detection when faces
/// are asked for, alignment and embedding only when something was detected,
/// then CLIP when asked for, then the end.
pub fn next_analysis_step(
    run_faces: bool,
    run_clip: bool,
    done: Option<AnalysisStep>,
    detections: usize,
) -> (r: AnalysisStep)
    ensures
        done is None ==> r == (if run_faces {
            AnalysisStep::DetectFaces
        } else if run_clip {
            AnalysisStep::RunClip
        } else {
            AnalysisStep::Finish
        }),
        done == Some(AnalysisStep::DetectFaces) ==> r == (if detections > 0 {
            AnalysisStep::AlignAndEmbed
        } else if run_clip {
            AnalysisStep::RunClip
        } else {
            AnalysisStep::Finish
        }),
        done == Some(AnalysisStep::AlignAndEmbed) ==> r == (if run_clip {
            AnalysisStep::RunClip
        } else {
            AnalysisStep::Finish
        }),
        done == Some(AnalysisStep::RunClip) || done == Some(AnalysisStep::Finish) ==> r
            == AnalysisStep::Finish,
{
    let after_faces = if run_clip {
        AnalysisStep::RunClip
    } else {
        AnalysisStep::Finish
    };
    match done {
        None => if run_faces {
            AnalysisStep::DetectFaces
        } else {
            after_faces
        },
        Some(AnalysisStep::DetectFaces) => if detections > 0 {
            AnalysisStep::AlignAndEmbed
        } else {
            after_faces
        },
        Some(AnalysisStep::AlignAndEmbed) => after_faces,
        Some(AnalysisStep::RunClip) => AnalysisStep::Finish,
        Some(AnalysisStep::Finish) => AnalysisStep::Finish,
    }
}

/// Whether the result carries no face list, an empty one, or detected faces.
pub fn faces_outcome(run_faces: bool, detections: usize) -> (r: FacesOutcome)
    ensures
        r == (if !run_faces {
            FacesOutcome::NotRequested
        } else if detections == 0 {
            FacesOutcome::NoneDetected
        } else {
            FacesOutcome::Detected
        }),
{
    if !run_faces {
        FacesOutcome::NotRequested
    } else if detections == 0 {
        FacesOutcome::NoneDetected
    } else {
        FacesOutcome::Detected
    }
}

} // verus!
