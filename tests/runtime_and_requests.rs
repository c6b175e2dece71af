use photo_analysis::api::{
    init_ml_runtime, release_ml_runtime, to_runtime_config, validate_request_model_paths,
    AnalyzeImageRequest, RustExecutionProviderPolicy, RustMlRuntimeConfig, RustModelPaths,
};
use photo_analysis::error::{MlError, MlResult};
use photo_analysis::providers::{
    build_session, providers_for_policy, session_attempts, ExecutionProvider, Platform,
};
use photo_analysis::runtime::{
    create_runtime, ensure_runtime, release_runtime, ExecutionProviderPolicy, MlRuntime,
    MlRuntimeConfig, ModelPaths, RuntimeRegistry,
};
use photo_analysis::text::is_blank;
use std::cell::Cell;

fn paths(detection: &str, embedding: &str, clip: &str) -> RustModelPaths {
    RustModelPaths {
        face_detection: detection.to_string(),
        face_embedding: embedding.to_string(),
        clip_image: clip.to_string(),
    }
}

fn request(run_faces: bool, run_clip: bool, model_paths: RustModelPaths) -> AnalyzeImageRequest {
    AnalyzeImageRequest {
        file_id: 1,
        image_path: "/photos/a.jpg".to_string(),
        run_faces,
        run_clip,
        model_paths,
        provider_policy: RustExecutionProviderPolicy::default(),
    }
}

fn config(detection: &str, embedding: &str, clip: &str) -> MlRuntimeConfig {
    MlRuntimeConfig {
        model_paths: ModelPaths {
            face_detection: detection.to_string(),
            face_embedding: embedding.to_string(),
            clip_image: clip.to_string(),
        },
        provider_policy: ExecutionProviderPolicy::default(),
    }
}

fn message_of(e: MlError) -> String {
    e.message()
}

#[test]
fn blank_paths_are_detected_after_trimming() {
    assert!(is_blank(""));
    assert!(is_blank("   \t\n"));
    assert!(!is_blank(" model.onnx "));
}

#[test]
fn validation_passes_when_paths_are_present() {
    let req = request(true, false, paths("det.onnx", "emb.onnx", ""));
    assert!(validate_request_model_paths(&req).is_ok());
    let req = request(false, false, paths("", "", ""));
    assert!(validate_request_model_paths(&req).is_ok());
}

#[test]
fn validation_lists_blank_face_detection_path() {
    let req = request(true, false, paths("  ", "emb.onnx", ""));
    match validate_request_model_paths(&req) {
        Err(MlError::InvalidRequest(text)) => {
            assert_eq!(text, "missing required model paths: faceDetectionModelPath");
        }
        other => panic!("unexpected result {other:?}"),
    }
}

#[test]
fn validation_lists_every_missing_path_in_order() {
    let req = request(true, true, paths("", "", " "));
    let err = validate_request_model_paths(&req).unwrap_err();
    assert_eq!(
        message_of(err),
        "invalid request: missing required model paths: faceDetectionModelPath, faceEmbeddingModelPath, clipImageModelPath"
    );
}

#[test]
fn validation_requires_clip_path_only_for_clip() {
    let req = request(false, true, paths("", "", ""));
    match validate_request_model_paths(&req) {
        Err(MlError::InvalidRequest(text)) => {
            assert_eq!(text, "missing required model paths: clipImageModelPath")
        }
        other => panic!("unexpected result {other:?}"),
    }
}

#[test]
fn error_messages_carry_kind_labels() {
    assert_eq!(MlError::Decode("x".to_string()).message(), "decode error: x");
    assert_eq!(MlError::Ort("y".to_string()).message(), "onnx runtime error: y");
    assert_eq!(MlError::Runtime("z".to_string()).message(), "runtime error: z");
    assert_eq!(MlError::Preprocess("p".to_string()).message(), "preprocess error: p");
    assert_eq!(MlError::Postprocess("q".to_string()).message(), "postprocess error: q");
}

#[test]
fn runtime_config_conversion_keeps_fields() {
    let cfg = RustMlRuntimeConfig {
        model_paths: paths("a", "b", "c"),
        provider_policy: RustExecutionProviderPolicy {
            prefer_coreml: false,
            prefer_nnapi: true,
            prefer_xnnpack: true,
            allow_cpu_fallback: false,
        },
    };
    let converted = to_runtime_config(&cfg);
    assert_eq!(converted.model_paths.face_detection, "a");
    assert_eq!(converted.model_paths.face_embedding, "b");
    assert_eq!(converted.model_paths.clip_image, "c");
    assert!(!converted.provider_policy.prefer_coreml);
    assert!(converted.provider_policy.prefer_nnapi);
    assert!(converted.provider_policy.prefer_xnnpack);
    assert!(!converted.provider_policy.allow_cpu_fallback);
}

#[test]
fn create_runtime_skips_blank_paths() {
    let build = |path: &String, _: &ExecutionProviderPolicy| -> MlResult<String> {
        Ok(format!("session:{path}"))
    };
    let mut rt: MlRuntime<String> = create_runtime(&config("det", " ", ""), &build).unwrap();
    assert_eq!(rt.face_detection.as_deref(), Some("session:det"));
    assert!(rt.face_embedding.is_none());
    assert!(rt.clip_image.is_none());
    assert_eq!(rt.face_detection_session_mut().unwrap().as_str(), "session:det");
    assert!(matches!(rt.face_embedding_session_mut(), Err(MlError::InvalidRequest(_))));
    assert!(matches!(rt.clip_image_session_mut(), Err(MlError::InvalidRequest(_))));
}

#[test]
fn create_runtime_reports_build_failure() {
    let build = |path: &String, _: &ExecutionProviderPolicy| -> MlResult<u32> {
        if path == "bad" {
            Err(MlError::Ort("cannot load".to_string()))
        } else {
            Ok(1)
        }
    };
    let result = create_runtime(&config("ok", "bad", ""), &build);
    assert!(matches!(result, Err(MlError::Ort(_))));
}

#[test]
fn ensure_runtime_rebuilds_only_on_config_change() {
    let builds = Cell::new(0u32);
    let build = |_: &String, _: &ExecutionProviderPolicy| -> MlResult<u32> {
        builds.set(builds.get() + 1);
        Ok(builds.get())
    };
    let mut registry: RuntimeRegistry<u32> = RuntimeRegistry::new();
    assert!(matches!(registry.runtime_mut(), Err(MlError::Runtime(_))));

    ensure_runtime(&mut registry, &config("det", "", ""), &build).unwrap();
    assert_eq!(builds.get(), 1);
    ensure_runtime(&mut registry, &config("det", "", ""), &build).unwrap();
    assert_eq!(builds.get(), 1);
    ensure_runtime(&mut registry, &config("det", "emb", ""), &build).unwrap();
    assert_eq!(builds.get(), 3);
    assert!(registry.runtime_mut().unwrap().face_embedding.is_some());

    release_runtime(&mut registry).unwrap();
    assert!(registry.state.is_none());
    ensure_runtime(&mut registry, &config("det", "emb", ""), &build).unwrap();
    assert_eq!(builds.get(), 5);
}

#[test]
fn ensure_runtime_failure_keeps_previous_runtime() {
    let build = |path: &String, _: &ExecutionProviderPolicy| -> MlResult<u8> {
        if path == "broken" {
            Err(MlError::Ort("no".to_string()))
        } else {
            Ok(7)
        }
    };
    let mut registry: RuntimeRegistry<u8> = RuntimeRegistry::new();
    ensure_runtime(&mut registry, &config("det", "", ""), &build).unwrap();
    assert!(ensure_runtime(&mut registry, &config("broken", "", ""), &build).is_err());
    let state = registry.state.as_ref().unwrap();
    assert_eq!(state.config.model_paths.face_detection, "det");
}

#[test]
fn init_and_release_ml_runtime_report_messages() {
    let build = |path: &String, _: &ExecutionProviderPolicy| -> MlResult<u8> {
        if path == "broken" {
            Err(MlError::Ort("no".to_string()))
        } else {
            Ok(1)
        }
    };
    let mut registry: RuntimeRegistry<u8> = RuntimeRegistry::new();
    let good = RustMlRuntimeConfig {
        model_paths: paths("det", "", ""),
        provider_policy: RustExecutionProviderPolicy::default(),
    };
    assert!(init_ml_runtime(&mut registry, good, &build).is_ok());
    assert!(registry.state.is_some());
    let bad = RustMlRuntimeConfig {
        model_paths: paths("broken", "", ""),
        provider_policy: RustExecutionProviderPolicy::default(),
    };
    assert_eq!(
        init_ml_runtime(&mut registry, bad, &build),
        Err("onnx runtime error: no".to_string())
    );
    assert_eq!(release_ml_runtime(&mut registry), Ok(()));
    assert!(registry.state.is_none());
}

#[test]
fn provider_lists_follow_policy_and_platform() {
    let policy = ExecutionProviderPolicy {
        prefer_coreml: true,
        prefer_nnapi: true,
        prefer_xnnpack: true,
        allow_cpu_fallback: true,
    };
    assert_eq!(
        providers_for_policy(&policy, true, Platform::Android),
        vec![ExecutionProvider::Nnapi, ExecutionProvider::Xnnpack, ExecutionProvider::Cpu]
    );
    assert_eq!(
        providers_for_policy(&policy, false, Platform::Apple),
        vec![ExecutionProvider::CoreMl, ExecutionProvider::Cpu]
    );
    assert_eq!(
        providers_for_policy(&policy, true, Platform::Other),
        vec![ExecutionProvider::Xnnpack, ExecutionProvider::Cpu]
    );
    let no_cpu = ExecutionProviderPolicy { allow_cpu_fallback: false, ..policy };
    assert_eq!(providers_for_policy(&no_cpu, true, Platform::Other), Vec::new());
}

#[test]
fn fallback_ladder_drops_xnnpack_then_accelerators() {
    let policy = ExecutionProviderPolicy {
        prefer_coreml: false,
        prefer_nnapi: true,
        prefer_xnnpack: true,
        allow_cpu_fallback: true,
    };
    assert_eq!(
        session_attempts(&policy, Platform::Android),
        vec![
            vec![ExecutionProvider::Nnapi, ExecutionProvider::Xnnpack, ExecutionProvider::Cpu],
            vec![ExecutionProvider::Nnapi, ExecutionProvider::Cpu],
            vec![ExecutionProvider::Cpu],
        ]
    );
    let strict = ExecutionProviderPolicy { allow_cpu_fallback: false, ..policy };
    assert_eq!(session_attempts(&strict, Platform::Android), vec![vec![ExecutionProvider::Nnapi]]);
}

#[test]
fn build_session_falls_back_until_success() {
    let policy = ExecutionProviderPolicy {
        prefer_coreml: false,
        prefer_nnapi: true,
        prefer_xnnpack: true,
        allow_cpu_fallback: true,
    };
    let build = |providers: &Vec<ExecutionProvider>| -> Result<usize, String> {
        if providers.len() == 1 {
            Ok(providers.len())
        } else {
            Err(format!("{} providers refused", providers.len()))
        }
    };
    assert_eq!(build_session("m.onnx", &policy, Platform::Android, &build).unwrap(), 1);
}

#[test]
fn build_session_accumulates_errors() {
    let policy = ExecutionProviderPolicy::default();
    let build = |_: &Vec<ExecutionProvider>| -> Result<u8, String> { Err("boom".to_string()) };
    match build_session("m.onnx", &policy, Platform::Other, &build) {
        Err(MlError::Ort(text)) => assert_eq!(
            text,
            "failed to create ONNX session for model 'm.onnx' across EP fallbacks: boom | boom"
        ),
        other => panic!("unexpected {other:?}"),
    }
}

#[test]
fn build_session_without_providers_is_invalid_request() {
    let policy = ExecutionProviderPolicy {
        prefer_coreml: true,
        prefer_nnapi: true,
        prefer_xnnpack: true,
        allow_cpu_fallback: false,
    };
    let build = |_: &Vec<ExecutionProvider>| -> Result<u8, String> { Ok(1) };
    assert!(matches!(
        build_session("m.onnx", &policy, Platform::Other, &build),
        Err(MlError::InvalidRequest(_))
    ));
    assert_eq!(build_session("m.onnx", &policy, Platform::Apple, &build).unwrap(), 1);
}
