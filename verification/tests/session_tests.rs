use nemotron_asr::{
    backend_count, get_backend, list_backends, BackendDevice, BackendRegistry, CacheConfig, Context,
    InitializationError, LatencyMode, Stream, StreamInitializationError,
};

fn registry() -> BackendRegistry {
    BackendRegistry::new(vec![
        Some("CPU".to_string()),
        None,
        Some("Vulkan0".to_string()),
    ])
}

#[test]
fn test_backend_list() {
    let registry = registry();
    let count = backend_count(&registry);
    println!("Available backends: {}", count);

    for i in 0..count {
        if let Some(backend) = get_backend(&registry, i) {
            println!("  Backend {}: {}", i, backend.name());
        }
    }
}

#[test]
fn backend_lookup() {
    let registry = registry();
    assert_eq!(backend_count(&registry), 3);
    assert_eq!(get_backend(&registry, 0).map(|d| d.name().to_string()), Some("CPU".to_string()));
    assert!(get_backend(&registry, 1).is_none());
    assert_eq!(get_backend(&registry, 2).map(|d| d.name().to_string()), Some("Vulkan0".to_string()));
    assert!(get_backend(&registry, 3).is_none());
    assert!(get_backend(&registry, usize::MAX).is_none());
}

#[test]
fn list_backends_keeps_found_devices_in_order() {
    let names: Vec<String> = list_backends(&registry()).iter().map(|d| d.name().to_string()).collect();
    assert_eq!(names, vec!["CPU".to_string(), "Vulkan0".to_string()]);
    assert!(list_backends(&BackendRegistry::new(vec![])).is_empty());
    assert!(list_backends(&BackendRegistry::new(vec![None, None])).is_empty());
    assert_eq!(BackendDevice::new("CUDA0".to_string()).name(), "CUDA0");
}

#[test]
fn context_creation() {
    let ctx = Context::new("model.gguf", Some("CPU"), Some("CPU".to_string())).unwrap();
    assert_eq!(ctx.backend_name(), "CPU");
    let auto = Context::new("model.gguf", None, Some("Vulkan0".to_string())).unwrap();
    assert_eq!(auto.backend_name(), "Vulkan0");
    let failed = Context::new("missing.gguf", None, None);
    assert!(matches!(failed, Err(InitializationError::InitializationFailed)));
    assert_eq!(InitializationError::InitializationFailed.message(), "Failed to initialize model");
}

#[test]
fn stream_creation() {
    let mut ctx = Context::new("model.gguf", None, Some("CPU".to_string())).unwrap();
    let stream = ctx.create_stream(None, true).unwrap();
    assert_eq!(stream.config(), CacheConfig::default());
    assert_eq!(stream.get_transcript(), "");
    let low = CacheConfig::with_latency(LatencyMode::Low);
    let stream = ctx.create_stream(Some(&low), true).unwrap();
    assert_eq!(stream.config(), low);
    let failed = ctx.create_stream(Some(&low), false);
    assert!(matches!(failed, Err(StreamInitializationError::StreamInitializationFailed)));
    assert_eq!(
        StreamInitializationError::StreamInitializationFailed.message(),
        "Failed to create streaming context"
    );
}

#[test]
fn transcript_accumulates_returned_texts() {
    let mut ctx = Context::new("model.gguf", None, Some("CPU".to_string())).unwrap();
    let mut stream = ctx.create_stream(None, true).unwrap();
    assert_eq!(stream.process(Some("hello".as_bytes())), "hello");
    assert_eq!(stream.process(None), "");
    assert_eq!(stream.process(Some(" world".as_bytes())), " world");
    assert_eq!(stream.get_transcript(), "hello world");
    assert_eq!(stream.finalize(Some("!".as_bytes())), "!");
    assert_eq!(stream.get_transcript(), "hello world!");
    // reading the transcript leaves it as it is
    assert_eq!(stream.get_transcript(), "hello world!");
    assert_eq!(stream.finalize(None), "");
    assert_eq!(stream.get_transcript(), "hello world!");
}

#[test]
fn reset_clears_transcript_and_keeps_config() {
    let mut ctx = Context::new("model.gguf", None, Some("CPU".to_string())).unwrap();
    let low = CacheConfig::with_latency(LatencyMode::Low);
    let mut stream = ctx.create_stream(Some(&low), true).unwrap();
    stream.process(Some("first".as_bytes()));
    stream.reset();
    assert_eq!(stream.get_transcript(), "");
    assert_eq!(stream.config(), low);
    stream.accept_text(Some("second".to_string()));
    assert_eq!(stream.get_transcript(), "second");
}

#[test]
fn engine_text_is_decoded_lossily() {
    let mut ctx = Context::new("model.gguf", None, Some("CPU".to_string())).unwrap();
    let mut stream = ctx.create_stream(None, true).unwrap();
    let bytes: [u8; 3] = [0x68, 0xFF, 0x69];
    assert_eq!(stream.process(Some(&bytes[..])), "h\u{FFFD}i");
    let accented = "caf\u{e9}";
    assert_eq!(stream.finalize(Some(accented.as_bytes())), "caf\u{e9}");
    assert_eq!(stream.get_transcript(), "h\u{FFFD}icaf\u{e9}");
}

#[test]
fn accepted_text_joins_the_transcript() {
    let mut ctx = Context::new("model.gguf", None, Some("CPU".to_string())).unwrap();
    let mut stream = ctx.create_stream(None, true).unwrap();
    assert_eq!(stream.accept_text(Some("one ".to_string())), "one ");
    assert_eq!(stream.accept_text(None), "");
    assert_eq!(stream.accept_text(Some("two".to_string())), "two");
    assert_eq!(stream.get_transcript(), "one two");
}

#[test]
fn sample_count_is_audio_length() {
    let audio: Vec<i16> = vec![0; 1280];
    assert_eq!(Stream::sample_count(&audio), 1280);
    assert_eq!(Stream::sample_count(&[]), 0);
}
