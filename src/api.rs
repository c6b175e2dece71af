use vstd::prelude::*;

use crate::error::{detail, kind_label, MlError, MlResult};
use crate::runtime::{
    build_failed, built_from, ensure_runtime, slots_follow_paths, release_runtime, ExecutionProviderPolicy,
    MlRuntimeConfig, ModelPaths, RuntimeRegistry,
};
use crate::text::{blank, is_blank, join, push_joined};

verus! {

/// Execution-provider preferences as callers of the library state them.
#[derive(Clone, Copy, Debug, PartialEq, Eq, Structural)]
pub struct RustExecutionProviderPolicy {
    pub prefer_coreml: bool,
    pub prefer_nnapi: bool,
    pub prefer_xnnpack: bool,
    pub allow_cpu_fallback: bool,
}

impl Default for RustExecutionProviderPolicy {
    /// Platform accelerators and the plain CPU provider, without XNNPACK.
    fn default() -> (r: Self)
        ensures
            r.prefer_coreml && r.prefer_nnapi && !r.prefer_xnnpack && r.allow_cpu_fallback,
    {
        RustExecutionProviderPolicy {
            prefer_coreml: true,
            prefer_nnapi: true,
            prefer_xnnpack: false,
            allow_cpu_fallback: true,
        }
    }
}

/// Model paths as callers of the library state them; empty means "not provided".
#[derive(Clone, Debug)]
pub struct RustModelPaths {
    pub face_detection: String,
    pub face_embedding: String,
    pub clip_image: String,
}

/// Runtime configuration as callers of the library state it.
#[derive(Clone, Debug)]
pub struct RustMlRuntimeConfig {
    pub model_paths: RustModelPaths,
    pub provider_policy: RustExecutionProviderPolicy,
}

/// One analysis request: which analyses to run on which file, with which models.
#[derive(Clone, Debug)]
pub struct AnalyzeImageRequest {
    pub file_id: i64,
    pub image_path: String,
    pub run_faces: bool,
    pub run_clip: bool,
    pub model_paths: RustModelPaths,
    pub provider_policy: RustExecutionProviderPolicy,
}

/// Size of the decoded image as reported to callers.
#[derive(Clone, Copy, Debug, PartialEq, Eq, Structural)]
pub struct RustDimensions {
    pub width: i32,
    pub height: i32,
}

/// The names of the model paths that the request needs but leaves blank, in
/// the order face detection, face embedding, CLIP image.
pub open spec fn missing_model_paths(req: AnalyzeImageRequest) -> Seq<Seq<char>> {
    let detection = if req.run_faces && blank(req.model_paths.face_detection@) {
        seq!["faceDetectionModelPath"@]
    } else {
        Seq::empty()
    };
    let embedding = if req.run_faces && blank(req.model_paths.face_embedding@) {
        seq!["faceEmbeddingModelPath"@]
    } else {
        Seq::empty()
    };
    let clip = if req.run_clip && blank(req.model_paths.clip_image@) {
        seq!["clipImageModelPath"@]
    } else {
        Seq::empty()
    };
    detection + embedding + clip
}

/// Checks that every model the request needs has a path. Faces need the face
/// detection and face embedding paths, CLIP needs the CLIP image path; one
/// invalid-request error lists all that are missing.
pub fn validate_request_model_paths(req: &AnalyzeImageRequest) -> (r: MlResult<()>)
    ensures
        r is Ok <==> missing_model_paths(*req).len() == 0,
        r matches Err(e) ==> e is InvalidRequest && detail(e) == "missing required model paths: "@
            + join(missing_model_paths(*req), ", "@),
{
    let mut missing: Vec<&str> = Vec::new();
    proof {
        reveal_strlit("faceDetectionModelPath");
        reveal_strlit("faceEmbeddingModelPath");
        reveal_strlit("clipImageModelPath");
    }
    if req.run_faces {
        if is_blank(req.model_paths.face_detection.as_str()) {
            missing.push("faceDetectionModelPath");
        }
        if is_blank(req.model_paths.face_embedding.as_str()) {
            missing.push("faceEmbeddingModelPath");
        }
    }
    if req.run_clip && is_blank(req.model_paths.clip_image.as_str()) {
        missing.push("clipImageModelPath");
    }
    assert(missing@.map_values(|p: &str| p@) =~= missing_model_paths(*req));
    if missing.len() == 0 {
        return Ok(());
    }
    let mut text = String::from_str("missing required model paths: ");
    push_joined(&mut text, &missing, ", ");
    Err(MlError::InvalidRequest(text))
}

/// The library's provider policy with the same preferences.
pub fn to_provider_policy(policy: &RustExecutionProviderPolicy) -> (r: ExecutionProviderPolicy)
    ensures
        r.prefer_coreml == policy.prefer_coreml,
        r.prefer_nnapi == policy.prefer_nnapi,
        r.prefer_xnnpack == policy.prefer_xnnpack,
        r.allow_cpu_fallback == policy.allow_cpu_fallback,
{
    ExecutionProviderPolicy {
        prefer_coreml: policy.prefer_coreml,
        prefer_nnapi: policy.prefer_nnapi,
        prefer_xnnpack: policy.prefer_xnnpack,
        allow_cpu_fallback: policy.allow_cpu_fallback,
    }
}

/// The library's model paths with the same texts.
pub fn to_model_paths(paths: &RustModelPaths) -> (r: ModelPaths)
    ensures
        r.face_detection@ == paths.face_detection@,
        r.face_embedding@ == paths.face_embedding@,
        r.clip_image@ == paths.clip_image@,
{
    ModelPaths {
        face_detection: paths.face_detection.clone(),
        face_embedding: paths.face_embedding.clone(),
        clip_image: paths.clip_image.clone(),
    }
}

/// The runtime configuration a caller's configuration stands for.
pub open spec fn runtime_config_of(config: RustMlRuntimeConfig, r: MlRuntimeConfig) -> bool {
    &&& r.model_paths.face_detection@ == config.model_paths.face_detection@
    &&& r.model_paths.face_embedding@ == config.model_paths.face_embedding@
    &&& r.model_paths.clip_image@ == config.model_paths.clip_image@
    &&& r.provider_policy.prefer_coreml == config.provider_policy.prefer_coreml
    &&& r.provider_policy.prefer_nnapi == config.provider_policy.prefer_nnapi
    &&& r.provider_policy.prefer_xnnpack == config.provider_policy.prefer_xnnpack
    &&& r.provider_policy.allow_cpu_fallback == config.provider_policy.allow_cpu_fallback
}

/// The library's runtime configuration for a caller's configuration.
pub fn to_runtime_config(config: &RustMlRuntimeConfig) -> (r: MlRuntimeConfig)
    ensures
        runtime_config_of(*config, r),
{
    MlRuntimeConfig {
        model_paths: to_model_paths(&config.model_paths),
        provider_policy: to_provider_policy(&config.provider_policy),
    }
}

/// Makes sure `registry` holds a runtime for the caller's configuration (see
/// `ensure_runtime`); a failure is reported as its message.
pub fn init_ml_runtime<S, F: Fn(&String, &ExecutionProviderPolicy) -> MlResult<S>>(
    registry: &mut RuntimeRegistry<S>,
    config: RustMlRuntimeConfig,
    build: &F,
) -> (r: Result<(), String>)
    requires
        old(registry).wf(),
        forall|p: &String, q: &ExecutionProviderPolicy| build.requires((p, q)),
    ensures
        final(registry).wf(),
        exists|c: MlRuntimeConfig|
            runtime_config_of(config, c) && {
                &&& r is Ok ==> (final(registry).state matches Some(st) && st.config.same(&c)
                    && slots_follow_paths(st.runtime, c))
                &&& !old(registry).needs_rebuild(&c) ==> r is Ok && *final(registry) == *old(
                    registry,
                )
                &&& old(registry).needs_rebuild(&c) && r is Ok ==> (final(registry).state matches Some(st)
                    && st.config.same(&c) && built_from(*build, &c, st.runtime))
                &&& r matches Err(m) ==> *final(registry) == *old(registry) && exists|e: MlError|
                    build_failed(*build, &c, e) && m@ == kind_label(e) + detail(e)
            },
{
    let runtime_config = to_runtime_config(&config);
    match ensure_runtime(registry, &runtime_config, build) {
        Ok(()) => Ok(()),
        Err(e) => Err(e.message()),
    }
}

/// Drops the runtime held by `registry`.
pub fn release_ml_runtime<S>(registry: &mut RuntimeRegistry<S>) -> (r: Result<(), String>)
    ensures
        final(registry).state is None,
        final(registry).wf(),
        r is Ok,
{
    match release_runtime(registry) {
        Ok(()) => Ok(()),
        Err(e) => Err(e.message()),
    }
}

} // verus!
