use vstd::prelude::*;

use crate::error::{MlError, MlResult};
use crate::text::{blank, is_blank};

verus! {

/// Which execution providers a session may use.
#[derive(Clone, Copy, Debug, PartialEq, Eq, Structural)]
pub struct ExecutionProviderPolicy {
    pub prefer_coreml: bool,
    pub prefer_nnapi: bool,
    pub prefer_xnnpack: bool,
    pub allow_cpu_fallback: bool,
}

impl Default for ExecutionProviderPolicy {
    /// Platform accelerators and the plain CPU provider, without XNNPACK.
    fn default() -> (r: Self)
        ensures
            r.prefer_coreml && r.prefer_nnapi && !r.prefer_xnnpack && r.allow_cpu_fallback,
    {
        ExecutionProviderPolicy {
            prefer_coreml: true,
            prefer_nnapi: true,
            prefer_xnnpack: false,
            allow_cpu_fallback: true,
        }
    }
}

/// Model files for each slot; an empty or blank path means "not provided".
#[derive(Debug)]
pub struct ModelPaths {
    pub face_detection: String,
    pub face_embedding: String,
    pub clip_image: String,
}

impl ModelPaths {
    pub open spec fn same(&self, other: &ModelPaths) -> bool {
        &&& self.face_detection@ == other.face_detection@
        &&& self.face_embedding@ == other.face_embedding@
        &&& self.clip_image@ == other.clip_image@
    }
}

impl PartialEq for ModelPaths {
    fn eq(&self, other: &ModelPaths) -> (r: bool)
        ensures
            r == self.same(other),
    {
        self.face_detection == other.face_detection && self.face_embedding == other.face_embedding
            && self.clip_image == other.clip_image
    }
}

impl vstd::std_specs::cmp::PartialEqSpecImpl for ModelPaths {
    open spec fn obeys_eq_spec() -> bool {
        true
    }

    open spec fn eq_spec(&self, other: &ModelPaths) -> bool {
        self.same(other)
    }
}

impl Eq for ModelPaths {

}

impl Clone for ModelPaths {
    fn clone(&self) -> (r: Self)
        ensures
            r.same(self),
    {
        ModelPaths {
            face_detection: self.face_detection.clone(),
            face_embedding: self.face_embedding.clone(),
            clip_image: self.clip_image.clone(),
        }
    }
}

/// Everything a runtime is built from; any difference forces a rebuild.
#[derive(Debug)]
pub struct MlRuntimeConfig {
    pub model_paths: ModelPaths,
    pub provider_policy: ExecutionProviderPolicy,
}

impl MlRuntimeConfig {
    pub open spec fn same(&self, other: &MlRuntimeConfig) -> bool {
        self.model_paths.same(&other.model_paths) && self.provider_policy == other.provider_policy
    }
}

impl PartialEq for MlRuntimeConfig {
    fn eq(&self, other: &MlRuntimeConfig) -> (r: bool)
        ensures
            r == self.same(other),
    {
        self.model_paths == other.model_paths && self.provider_policy == other.provider_policy
    }
}

impl vstd::std_specs::cmp::PartialEqSpecImpl for MlRuntimeConfig {
    open spec fn obeys_eq_spec() -> bool {
        true
    }

    open spec fn eq_spec(&self, other: &MlRuntimeConfig) -> bool {
        self.same(other)
    }
}

impl Eq for MlRuntimeConfig {

}

impl Clone for MlRuntimeConfig {
    fn clone(&self) -> (r: Self)
        ensures
            r.same(self),
    {
        MlRuntimeConfig {
            model_paths: self.model_paths.clone(),
            provider_policy: self.provider_policy,
        }
    }
}

/// The model sessions of one runtime; a slot holds a session exactly when its
/// model path was not blank when the runtime was built.
#[derive(Debug)]
pub struct MlRuntime<S> {
    pub face_detection: Option<S>,
    pub face_embedding: Option<S>,
    pub clip_image: Option<S>,
}

impl<S> MlRuntime<S> {
    /// The face detection session, or an invalid-request error when its model
    /// path was not provided.
    pub fn face_detection_session_mut(&mut self) -> (r: MlResult<&mut S>)
        ensures
            old(self).face_detection is None <==> r is Err,
            r matches Err(e) ==> e is InvalidRequest,
            r matches Ok(session) ==> old(self).face_detection == Some(*session),
    {
        match &mut self.face_detection {
            Some(session) => Ok(session),
            None => Err(
                MlError::InvalidRequest(
                    String::from_str(
                        "missing model path: faceDetectionModelPath is required when runFaces is true",
                    ),
                ),
            ),
        }
    }

    /// The face embedding session, or an invalid-request error when its model
    /// path was not provided.
    pub fn face_embedding_session_mut(&mut self) -> (r: MlResult<&mut S>)
        ensures
            old(self).face_embedding is None <==> r is Err,
            r matches Err(e) ==> e is InvalidRequest,
            r matches Ok(session) ==> old(self).face_embedding == Some(*session),
    {
        match &mut self.face_embedding {
            Some(session) => Ok(session),
            None => Err(
                MlError::InvalidRequest(
                    String::from_str(
                        "missing model path: faceEmbeddingModelPath is required when runFaces is true",
                    ),
                ),
            ),
        }
    }

    /// The CLIP image session, or an invalid-request error when its model path
    /// was not provided.
    pub fn clip_image_session_mut(&mut self) -> (r: MlResult<&mut S>)
        ensures
            old(self).clip_image is None <==> r is Err,
            r matches Err(e) ==> e is InvalidRequest,
            r matches Ok(session) ==> old(self).clip_image == Some(*session),
    {
        match &mut self.clip_image {
            Some(session) => Ok(session),
            None => Err(
                MlError::InvalidRequest(
                    String::from_str(
                        "missing model path: clipImageModelPath is required when runClip is true",
                    ),
                ),
            ),
        }
    }
}

/// A slot was filled as its path asks: empty for a blank path, else with a
/// session that `build` returned for that path and policy.
pub open spec fn slot_built<S, F: Fn(&String, &ExecutionProviderPolicy) -> MlResult<S>>(
    build: F,
    path: &String,
    policy: &ExecutionProviderPolicy,
    slot: Option<S>,
) -> bool {
    if blank(path@) {
        slot is None
    } else {
        (slot matches Some(s) && build.ensures((path, policy), Ok(s)))
    }
}

/// Every slot of `rt` was filled from `config` by `build`.
pub open spec fn built_from<S, F: Fn(&String, &ExecutionProviderPolicy) -> MlResult<S>>(
    build: F,
    config: &MlRuntimeConfig,
    rt: MlRuntime<S>,
) -> bool {
    &&& slot_built(build, &config.model_paths.face_detection, &config.provider_policy, rt.face_detection)
    &&& slot_built(build, &config.model_paths.face_embedding, &config.provider_policy, rt.face_embedding)
    &&& slot_built(build, &config.model_paths.clip_image, &config.provider_policy, rt.clip_image)
}

/// The slot for `path` is settled: its path is blank, or `build` can return a
/// session for it.
pub open spec fn slot_ready<S, F: Fn(&String, &ExecutionProviderPolicy) -> MlResult<S>>(
    build: F,
    path: &String,
    policy: &ExecutionProviderPolicy,
) -> bool {
    blank(path@) || exists|s: S| build.ensures((path, policy), Ok(s))
}

/// `e` is the first failure in slot order (face detection, face embedding, CLIP
/// image): every earlier slot is blank or was built, and `build` reported `e`
/// for this slot's non-blank path.
pub open spec fn build_failed<S, F: Fn(&String, &ExecutionProviderPolicy) -> MlResult<S>>(
    build: F,
    config: &MlRuntimeConfig,
    e: MlError,
) -> bool {
    let paths = config.model_paths;
    let policy = &config.provider_policy;
    ||| !blank(paths.face_detection@) && build.ensures((&paths.face_detection, policy), Err(e))
    ||| slot_ready(build, &paths.face_detection, policy) && !blank(paths.face_embedding@)
        && build.ensures((&paths.face_embedding, policy), Err(e))
    ||| slot_ready(build, &paths.face_detection, policy) && slot_ready(
        build,
        &paths.face_embedding,
        policy,
    ) && !blank(paths.clip_image@) && build.ensures((&paths.clip_image, policy), Err(e))
}

/// Each slot of `rt` holds a session exactly when the matching path of `config`
/// is not blank.
pub open spec fn slots_follow_paths<S>(rt: MlRuntime<S>, config: MlRuntimeConfig) -> bool {
    &&& (rt.face_detection is Some <==> !blank(config.model_paths.face_detection@))
    &&& (rt.face_embedding is Some <==> !blank(config.model_paths.face_embedding@))
    &&& (rt.clip_image is Some <==> !blank(config.model_paths.clip_image@))
}

/// Builds the session for one slot, or none when its path is blank.
fn build_optional_session<S, F: Fn(&String, &ExecutionProviderPolicy) -> MlResult<S>>(
    model_path: &String,
    provider_policy: &ExecutionProviderPolicy,
    build: &F,
) -> (r: MlResult<Option<S>>)
    requires
        forall|p: &String, q: &ExecutionProviderPolicy| build.requires((p, q)),
    ensures
        r matches Ok(slot) ==> slot_built(*build, model_path, provider_policy, slot),
        r matches Err(e) ==> !blank(model_path@) && build.ensures((model_path, provider_policy), Err(e)),
{
    if is_blank(model_path.as_str()) {
        return Ok(None);
    }
    match build(model_path, provider_policy) {
        Ok(session) => Ok(Some(session)),
        Err(e) => Err(e),
    }
}

/// Builds a runtime from a configuration, one session per non-blank model path.
/// The first failure of `build` is returned.
pub fn create_runtime<S, F: Fn(&String, &ExecutionProviderPolicy) -> MlResult<S>>(
    config: &MlRuntimeConfig,
    build: &F,
) -> (r: MlResult<MlRuntime<S>>)
    requires
        forall|p: &String, q: &ExecutionProviderPolicy| build.requires((p, q)),
    ensures
        r matches Ok(rt) ==> built_from(*build, config, rt) && slots_follow_paths(rt, *config),
        r matches Err(e) ==> build_failed(*build, config, e),
{
    let policy = &config.provider_policy;
    let face_detection = match build_optional_session(
        &config.model_paths.face_detection,
        policy,
        build,
    ) {
        Ok(slot) => slot,
        Err(e) => return Err(e),
    };
    proof {
        if face_detection is Some {
            assert(build.ensures((&config.model_paths.face_detection, policy), Ok(face_detection->0)));
        }
        assert(slot_ready(*build, &config.model_paths.face_detection, policy));
    }
    let face_embedding = match build_optional_session(
        &config.model_paths.face_embedding,
        policy,
        build,
    ) {
        Ok(slot) => slot,
        Err(e) => return Err(e),
    };
    proof {
        if face_embedding is Some {
            assert(build.ensures((&config.model_paths.face_embedding, policy), Ok(face_embedding->0)));
        }
        assert(slot_ready(*build, &config.model_paths.face_embedding, policy));
    }
    let clip_image = match build_optional_session(&config.model_paths.clip_image, policy, build) {
        Ok(slot) => slot,
        Err(e) => return Err(e),
    };
    Ok(MlRuntime { face_detection, face_embedding, clip_image })
}

/// The configuration a runtime was built from, together with the runtime.
#[derive(Debug)]
pub struct RuntimeState<S> {
    pub config: MlRuntimeConfig,
    pub runtime: MlRuntime<S>,
}

/// The process-wide runtime cell: empty, or a runtime with its configuration.
#[derive(Debug)]
pub struct RuntimeRegistry<S> {
    pub state: Option<RuntimeState<S>>,
}

impl<S> RuntimeRegistry<S> {
    /// An empty registry.
    pub fn new() -> (r: Self)
        ensures
            r.state is None,
            r.wf(),
    {
        RuntimeRegistry { state: None }
    }

    /// An installed runtime holds a session in a slot exactly when the slot's
    /// path in its configuration is not blank.
    pub open spec fn wf(&self) -> bool {
        self.state matches Some(st) ==> slots_follow_paths(st.runtime, st.config)
    }

    /// Whether `wf` holds.
    pub fn is_well_formed(&self) -> (r: bool)
        ensures
            r == self.wf(),
    {
        match &self.state {
            None => true,
            Some(st) => {
                let paths = &st.config.model_paths;
                let rt = &st.runtime;
                rt.face_detection.is_some() == !is_blank(paths.face_detection.as_str())
                    && rt.face_embedding.is_some() == !is_blank(paths.face_embedding.as_str())
                    && rt.clip_image.is_some() == !is_blank(paths.clip_image.as_str())
            },
        }
    }

    /// A rebuild is due when the registry is empty or was built from another
    /// configuration.
    pub open spec fn needs_rebuild(&self, config: &MlRuntimeConfig) -> bool {
        match self.state {
            Some(st) => !st.config.same(config),
            None => true,
        }
    }

    /// The installed runtime, or a runtime error when there is none.
    pub fn runtime_mut(&mut self) -> (r: MlResult<&mut MlRuntime<S>>)
        ensures
            old(self).state is None <==> r is Err,
            r matches Err(e) ==> e is Runtime,
            r matches Ok(rt) ==> (old(self).state matches Some(st) && st.runtime == *rt),
    {
        match &mut self.state {
            Some(state) => Ok(&mut state.runtime),
            None => Err(MlError::Runtime(String::from_str("runtime is not initialized"))),
        }
    }
}

/// Makes sure the registry holds a runtime built from `config`: an empty
/// registry, or one built from another configuration, gets a new runtime; one
/// built from an equal configuration is left as it is. On failure the registry
/// is unchanged and the first failure in slot order is returned. On success a
/// slot holds a session exactly when its path is not blank.
pub fn ensure_runtime<S, F: Fn(&String, &ExecutionProviderPolicy) -> MlResult<S>>(
    registry: &mut RuntimeRegistry<S>,
    config: &MlRuntimeConfig,
    build: &F,
) -> (r: MlResult<()>)
    requires
        old(registry).wf(),
        forall|p: &String, q: &ExecutionProviderPolicy| build.requires((p, q)),
    ensures
        final(registry).wf(),
        r is Ok ==> (final(registry).state matches Some(st) && st.config.same(config)
            && slots_follow_paths(st.runtime, *config)),
        !old(registry).needs_rebuild(config) ==> r is Ok && *final(registry) == *old(registry),
        old(registry).needs_rebuild(config) && r is Ok ==> (final(registry).state matches Some(st)
            && st.config.same(config) && built_from(*build, config, st.runtime)),
        r matches Err(e) ==> *final(registry) == *old(registry) && build_failed(*build, config, e),
{
    let should_rebuild = match &registry.state {
        Some(existing) => !(existing.config == *config),
        None => true,
    };
    if should_rebuild {
        let runtime = create_runtime(config, build)?;
        registry.state = Some(RuntimeState { config: config.clone(), runtime });
    }
    proof {
        if registry.state is Some {
            assert(registry.state->0.config.same(config));
        }
    }
    Ok(())
}

/// Drops the installed runtime, if any.
pub fn release_runtime<S>(registry: &mut RuntimeRegistry<S>) -> (r: MlResult<()>)
    ensures
        final(registry).state is None,
        final(registry).wf(),
        r is Ok,
{
    registry.state = None;
    Ok(())
}

} // verus!
