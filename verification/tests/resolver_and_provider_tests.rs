use ort::error::{status_to_result, Error, ErrorCode, Status};
use ort::version::{
    default_dylib_name, dylib_path, parse_minor_version, resolve_entry_point_table,
    resolve_library_candidate, version_gate, LibraryCandidate, Platform, VersionGate,
};
use ort::webgpu::{
    WebGPUBufferCacheMode, WebGPUDawnBackendType, WebGPUExecutionProvider, WebGPUPreferredLayout,
    WebGPUValidationMode,
};
use ort::MINOR_VERSION;

#[test]
fn version_gate_orders_minors() {
    assert_eq!(version_gate(16, 17), VersionGate::Incompatible);
    assert_eq!(version_gate(18, 17), VersionGate::CompatibleNewer);
    assert_eq!(version_gate(17, 17), VersionGate::Matched);
}

#[test]
fn parse_minor_version_reads_the_second_field() {
    assert_eq!(parse_minor_version("1.23.0"), 23);
    assert_eq!(parse_minor_version("1.17"), 17);
    assert_eq!(parse_minor_version("1"), 0);
    assert_eq!(parse_minor_version("1."), 0);
    assert_eq!(parse_minor_version("1.x.0"), 0);
    assert_eq!(parse_minor_version(""), 0);
    assert_eq!(parse_minor_version("1.99999999999.0"), 0);
    assert_eq!(parse_minor_version("2.4294967295.9"), 4294967295);
}

#[test]
fn resolution_fails_fatally_on_older_engine() {
    let r = resolve_entry_point_table("1.16.0", None, MINOR_VERSION);
    let err = r.unwrap_err();
    assert_eq!(err.code, ErrorCode::Fail);
    assert_eq!(
        err.message(),
        "engine reports minor version 16 but this binding requires at least minor version 17"
    );
}

#[test]
fn resolution_warns_on_newer_engine() {
    let (table, gate) =
        resolve_entry_point_table("1.18.1", Some("libengine.so".to_string()), MINOR_VERSION)
            .unwrap();
    assert_eq!(gate, VersionGate::CompatibleNewer);
    assert_eq!(table.api_version, MINOR_VERSION);
    assert_eq!(table.dylib_path.as_deref(), Some("libengine.so"));

    let (_, gate) = resolve_entry_point_table("1.17.0", None, MINOR_VERSION).unwrap();
    assert_eq!(gate, VersionGate::Matched);
}

#[test]
fn dylib_path_prefers_the_environment_override() {
    assert_eq!(
        dylib_path(Some("/opt/engine.so".to_string()), Platform::Linux),
        "/opt/engine.so"
    );
    assert_eq!(dylib_path(Some(String::new()), Platform::Linux), "libonnxruntime.so");
    assert_eq!(dylib_path(None, Platform::Windows), "onnxruntime.dll");
    assert_eq!(dylib_path(None, Platform::MacOs), "libonnxruntime.dylib");
    assert_eq!(default_dylib_name(Platform::Android), "libonnxruntime.so");
}

#[test]
fn library_candidate_resolution() {
    assert_eq!(resolve_library_candidate(true, true), LibraryCandidate::GivenPath);
    assert_eq!(resolve_library_candidate(false, true), LibraryCandidate::BesideExecutable);
    assert_eq!(resolve_library_candidate(false, false), LibraryCandidate::GivenPath);
}

#[test]
fn status_bridge_maps_success_and_failure() {
    assert!(status_to_result(Status::Success).is_ok());
    let err = status_to_result(Status::Failure(
        ErrorCode::RuntimeException,
        "engine blew up".to_string(),
    ))
    .unwrap_err();
    assert_eq!(err.code, ErrorCode::RuntimeException);
    assert_eq!(err.message(), "engine blew up");
}

#[test]
fn sealed_status_round_trips_exactly_once() {
    let original = Error::new(ErrorCode::InvalidGraph, "bad graph".to_string());
    let sealed = original.into_sys();

    let borrowed = Error::cast_from_sys(&sealed);
    assert_eq!(borrowed.code, ErrorCode::InvalidGraph);
    assert_eq!(borrowed.message(), "bad graph");

    let reclaimed = Error::consume_sys(sealed);
    assert_eq!(reclaimed.code, ErrorCode::InvalidGraph);
    assert_eq!(reclaimed.message(), "bad graph");

    let sealed_again = Error::new_sys(ErrorCode::NoSuchFile, "missing".to_string());
    let reclaimed = Error::consume_sys(sealed_again);
    assert_eq!(reclaimed.code, ErrorCode::NoSuchFile);
    assert_eq!(reclaimed.message(), "missing");
}

#[test]
fn webgpu_builder_accumulates_options() {
    let provider = WebGPUExecutionProvider::default()
        .with_preferred_layout(WebGPUPreferredLayout::NHWC)
        .with_enable_graph_capture(true)
        .with_dawn_backend_type(WebGPUDawnBackendType::Vulkan)
        .with_device_id(-3)
        .with_storage_buffer_cache_mode(WebGPUBufferCacheMode::Bucket)
        .with_validation_mode(WebGPUValidationMode::Full)
        .with_enable_pix_capture(false);
    let dispatch = provider.build();
    assert_eq!(dispatch.name(), "WebGpuExecutionProvider");

    let (keys, values) = dispatch.to_parts();
    assert_eq!(
        keys,
        vec![
            "WebGPU:preferredLayout",
            "WebGPU:enableGraphCapture",
            "WebGPU:dawnBackendType",
            "WebGPU:deviceId",
            "WebGPU:storageBufferCacheMode",
            "WebGPU:validationMode",
            "WebGPU:enablePIXCapture",
        ]
    );
    assert_eq!(values, vec!["NHWC", "1", "Vulkan", "-3", "bucket", "full", "0"]);
}

#[test]
fn webgpu_builder_replaces_existing_keys() {
    let provider = WebGPUExecutionProvider::default()
        .with_validation_mode(WebGPUValidationMode::Basic)
        .with_uniform_buffer_cache_mode(WebGPUBufferCacheMode::Simple)
        .with_validation_mode(WebGPUValidationMode::Disabled);
    let (keys, values) = provider.build().to_parts();
    assert_eq!(keys, vec!["WebGPU:validationMode", "WebGPU:uniformBufferCacheMode"]);
    assert_eq!(values, vec!["disabled", "simple"]);
}

#[test]
fn webgpu_builder_arbitrary_and_string_options() {
    let provider = WebGPUExecutionProvider::default()
        .with_dawn_proc_table("table_addr".to_string())
        .with_force_cpu_node_names("a;b".to_string())
        .with_arbitrary_config("WebGPU:custom".to_string(), "7".to_string());
    let (keys, values) = provider.build().to_parts();
    assert_eq!(
        keys,
        vec!["WebGPU:dawnProcTable", "WebGPU:forceCpuNodeNames", "WebGPU:custom"]
    );
    assert_eq!(values, vec!["table_addr", "a;b", "7"]);
    assert_eq!(
        WebGPUExecutionProvider::default().as_str(),
        "WebGpuExecutionProvider"
    );
}
