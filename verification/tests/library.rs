use tts_backend::annotation::{
    lenient_segment, lenient_segments, lenient_transcription, strict_segment, strict_transcription, AnnotationService,
    RawSegment, RawTranscription, Segment, TranscribeRequest, TranscriptionResult, ONE_BITS,
};
use tts_backend::clock::Timestamp;
use tts_backend::config::{AppConfig, TTSConfig};
use tts_backend::emotion::EmotionService;
use tts_backend::error::AppError;
use tts_backend::model::{ModelConfig, ModelDirProbe, ModelListResponse, ModelService};
use tts_backend::text::{decimal_text, join_path, join_with_newlines, parse_unsigned};
use tts_backend::training::{
    estimate_training_time, RunnerAction, TrainingConfig, TrainingData, TrainingRequest,
    TrainingService, TrainingStatus,
};
use tts_backend::tts::{SynthesizeRequest, TTSService};

fn is_uuid_v4(s: &str) -> bool {
    let b = s.as_bytes();
    b.len() == 36
        && b.iter().enumerate().all(|(i, c)| {
            if i == 8 || i == 13 || i == 18 || i == 23 {
                *c == b'-'
            } else {
                c.is_ascii_digit() || (b'a'..=b'f').contains(c)
            }
        })
        && b[14] == b'4'
        && matches!(b[19], b'8' | b'9' | b'a' | b'b')
}

fn tts_config(max: usize) -> TTSConfig {
    TTSConfig {
        default_sample_rate: 22050,
        default_format: "wav".to_string(),
        max_text_length: max,
        max_segment_length: 500,
        output_dir: "out".to_string(),
    }
}

fn request(epochs: u32, batch_size: u32) -> TrainingRequest {
    TrainingRequest {
        model_name: "voice".to_string(),
        training_data: TrainingData { audio_files: vec!["a.wav".to_string()], annotations_file: None },
        config: TrainingConfig { epochs, batch_size, save_every: 1 },
        base_model: None,
        emotion_extraction: false,
    }
}

fn probe(entry: &str, name: Option<&str>, is_dir: bool, has_model: bool, config: Option<&str>) -> ModelDirProbe {
    ModelDirProbe {
        entry_name: entry.to_string(),
        dir_name: name.map(|s| s.to_string()),
        is_dir,
        has_model_file: has_model,
        config_text: config.map(|s| s.to_string()),
        file_size: 16,
        has_index: false,
        has_emod: true,
    }
}

#[test]
fn error_text_and_status() {
    let e = AppError::NotFound("Model not found: x".to_string());
    assert_eq!(e.to_string(), "Not Found: Model not found: x");
    assert_eq!(e.error_code(), "NOT_FOUND");
    assert_eq!(e.status_code(), 404);
    assert_eq!(AppError::IoError("disk".to_string()).to_string(), "IO Error: disk");
}

#[test]
fn error_codes_and_statuses_of_every_kind() {
    let cases = vec![
        (AppError::InternalError(String::new()), "INTERNAL_ERROR", 500, "Internal Error: "),
        (AppError::NotFound(String::new()), "NOT_FOUND", 404, "Not Found: "),
        (AppError::BadRequest(String::new()), "BAD_REQUEST", 400, "Bad Request: "),
        (AppError::ValidationError(String::new()), "VALIDATION_ERROR", 400, "Validation Error: "),
        (AppError::IoError(String::new()), "IO_ERROR", 500, "IO Error: "),
        (AppError::PythonError(String::new()), "PYTHON_ERROR", 500, "Python Error: "),
        (AppError::ModelError(String::new()), "MODEL_ERROR", 400, "Model Error: "),
        (AppError::SynthesisError(String::new()), "SYNTHESIS_ERROR", 400, "Synthesis Error: "),
        (AppError::TrainingError(String::new()), "TRAINING_ERROR", 400, "Training Error: "),
        (AppError::AnnotationError(String::new()), "ANNOTATION_ERROR", 400, "Annotation Error: "),
    ];
    for (e, code, status, text) in cases {
        assert_eq!(e.error_code(), code);
        assert_eq!(e.status_code(), status);
        assert_eq!(e.to_string(), text);
    }
}

#[test]
fn handler_statuses() {
    assert_eq!(AppError::NotFound(String::new()).not_found_or(500), 404);
    assert_eq!(AppError::BadRequest(String::new()).not_found_or(400), 400);
    assert_eq!(AppError::ValidationError(String::new()).synthesis_failure(), (400, "VALIDATION_ERROR"));
    assert_eq!(AppError::SynthesisError(String::new()).synthesis_failure(), (400, "SYNTHESIS_ERROR"));
    assert_eq!(AppError::IoError(String::new()).synthesis_failure(), (500, "INTERNAL_ERROR"));
}

#[test]
fn decimal_writing() {
    assert_eq!(decimal_text(0), "0");
    assert_eq!(decimal_text(8080), "8080");
    assert_eq!(decimal_text(u64::MAX), u64::MAX.to_string());
}

#[test]
fn parsing_unsigned_numbers() {
    assert_eq!(parse_unsigned("8080", 65535), Some(8080));
    assert_eq!(parse_unsigned("+7", 65535), Some(7));
    assert_eq!(parse_unsigned("007", 65535), Some(7));
    assert_eq!(parse_unsigned("65535", 65535), Some(65535));
    assert_eq!(parse_unsigned("65536", 65535), None);
    assert_eq!(parse_unsigned("", 65535), None);
    assert_eq!(parse_unsigned("+", 65535), None);
    assert_eq!(parse_unsigned("-1", 65535), None);
    assert_eq!(parse_unsigned("12a", 65535), None);
    assert_eq!(parse_unsigned(" 1", 65535), None);
    assert_eq!(parse_unsigned("18446744073709551615", u64::MAX), Some(u64::MAX));
    assert_eq!(parse_unsigned("18446744073709551616", u64::MAX), None);
    assert_eq!(parse_unsigned("99999999999999999999999", u64::MAX), None);
}

#[test]
fn parsing_agrees_with_std() {
    for text in ["0", "1", "+12", "-3", "", "+", "70000", "65535", "0065535", "1_0", "٣"] {
        assert_eq!(parse_unsigned(text, 65535).map(|v| v as u16), text.parse::<u16>().ok(), "{}", text);
    }
}

#[test]
fn decimal_parses_back() {
    for n in [0u64, 9, 10, 8080, 65535] {
        assert_eq!(parse_unsigned(&decimal_text(n), 65535), Some(n));
    }
}

#[test]
fn joining_paths() {
    assert_eq!(join_path("./data", "audio"), "./data/audio");
    assert_eq!(join_path("a/", "b"), "a/b");
    assert_eq!(join_path("", "b"), "b");
    assert_eq!(join_path("a", "/abs"), "/abs");
    assert_eq!(join_path("a", ""), "a/");
    for (base, part) in [("./data", "audio"), ("a/", "b"), ("", "b"), ("a", "/abs"), ("a", "")] {
        assert_eq!(join_path(base, part), std::path::Path::new(base).join(part).to_string_lossy());
    }
}

#[test]
fn joining_lines() {
    assert_eq!(join_with_newlines(&vec![]), "");
    assert_eq!(join_with_newlines(&vec!["a".to_string()]), "a");
    assert_eq!(join_with_newlines(&vec!["a".to_string(), "b".to_string()]), "a\nb");
}

#[test]
fn default_settings() {
    let c = AppConfig::from_env(None, None, None, None, None, None);
    assert_eq!(c.server_host, "0.0.0.0");
    assert_eq!(c.server_port, 8080);
    assert_eq!(c.models_dir, "./models");
    assert_eq!(c.data_dir, "./data");
    assert_eq!(c.output_dir, "./data/audio");
    assert_eq!(c.training_dir, "./data/training");
    assert_eq!(c.db_path, "./data/annotations.db");
    assert_eq!(c.max_upload_size, 100);
    assert_eq!(c.cache_size, 10);
    assert_eq!(c.tts_config.default_sample_rate, 22050);
    assert_eq!(c.tts_config.default_format, "wav");
    assert_eq!(c.tts_config.max_text_length, 10000);
    assert_eq!(c.tts_config.max_segment_length, 500);
    assert_eq!(c.tts_config.output_dir, "./data/audio");
    assert_eq!(c.server_addr(), "0.0.0.0:8080");
}

#[test]
fn given_settings() {
    let c = AppConfig::from_env(
        Some("127.0.0.1".to_string()),
        Some("9000".to_string()),
        Some("/m".to_string()),
        Some("/d/".to_string()),
        Some("abc".to_string()),
        Some("3".to_string()),
    );
    assert_eq!(c.server_addr(), "127.0.0.1:9000");
    assert_eq!(c.models_dir, "/m");
    assert_eq!(c.output_dir, "/d/audio");
    assert_eq!(c.max_upload_size, 100);
    assert_eq!(c.cache_size, 3);
    let bad = AppConfig::from_env(None, Some("70000".to_string()), None, None, None, None);
    assert_eq!(bad.server_port, 8080);
}

#[test]
fn builtin_presets() {
    let svc = EmotionService::new("emo");
    let ids: Vec<String> = svc.list_presets().into_iter().map(|p| p.id).collect();
    assert_eq!(ids, vec!["neutral", "happy", "sad", "angry", "calm", "excited", "storytelling"]);
    for id in &ids {
        assert_eq!(&svc.get_preset(id).ok().unwrap().id, id);
    }
    let happy = svc.get_preset("happy").ok().unwrap();
    assert_eq!(happy.name, "快乐");
    assert_eq!((happy.valence_milli, happy.arousal_milli, happy.dominance_milli), (800, 600, 300));
    assert_eq!((happy.pitch_offset_milli, happy.speaking_rate_milli), (Some(3000), Some(1100)));
}

#[test]
fn missing_preset() {
    let svc = EmotionService::new("emo");
    match svc.get_preset("joy") {
        Err(AppError::NotFound(m)) => assert_eq!(m, "Preset not found: joy"),
        _ => panic!("expected NotFound"),
    }
}

#[test]
fn new_emotion_descriptions() {
    let svc = EmotionService::new("emo");
    let emod = svc.create_emod("mine", Some("sad")).ok().unwrap();
    assert_eq!(emod.version, "1.0");
    assert_eq!(emod.metadata.name, "mine");
    assert_eq!(emod.metadata.description, "Auto-generated emotion: mine");
    assert_eq!(emod.metadata.author, "user");
    assert!(emod.metadata.created_at.ends_with("+00:00"));
    assert!(emod.metadata.created_at.len() > 6);
    assert!(emod.metadata.tags.is_empty());
    assert_eq!((emod.emotion_vector.valence_milli, emod.emotion_vector.arousal_milli, emod.emotion_vector.dominance_milli), (-700, -300, -400));
    assert_eq!(emod.prosody_control.pitch_range_milli, 1000);
    assert_eq!(emod.prosody_control.energy_level_milli, 600);
    assert_eq!(emod.voice_characteristics.creakiness_milli, 50);
    let markers: Vec<(String, String, i32)> = emod.style_markers.into_iter().map(|m| (m.marker_type, m.pitch_curve, m.duration_factor_milli)).collect();
    assert_eq!(markers, vec![
        ("sentence_start".to_string(), "rise".to_string(), 1100),
        ("sentence_end".to_string(), "fall".to_string(), 1200),
        ("question".to_string(), "rise_sharp".to_string(), 1000),
    ]);
    let neutral = svc.create_emod("n", None).ok().unwrap();
    assert_eq!(neutral.emotion_vector.valence_milli, 0);
    match svc.create_emod("n", Some("nope")) {
        Err(AppError::NotFound(m)) => assert_eq!(m, "Preset not found: nope"),
        _ => panic!("expected NotFound"),
    }
    assert_eq!(svc.emod_file_path("calm"), "emo/calm.emod");
}

#[test]
fn model_from_configured_directory() {
    let svc = ModelService::new("models");
    let p = probe("a",
        Some("a"),
        true,
        true,
        Some(r#"{"name": "Alice", "description": "warm", "sample_rate": 44100, "language": "en", "duration": 1.5}"#),
    );
    let m = svc.load_model_from_dir(&p).unwrap();
    assert!(is_uuid_v4(&m.id));
    assert_eq!(m.name, "Alice");
    assert_eq!(m.description, "warm");
    assert_eq!(m.model_path, "models/a/model.pth");
    assert_eq!(m.index_path, None);
    assert_eq!(m.emod_path.as_deref(), Some("models/a/emotion.emod"));
    assert_eq!(m.file_size, 16);
    assert_eq!(m.metadata.sample_rate, 44100);
    assert_eq!(m.metadata.language, "en");
    assert_eq!(m.metadata.duration_bits, Some(1.5f64.to_bits()));
    assert!(!m.metadata.is_loaded);
}

#[test]
fn model_defaults_without_configuration() {
    let svc = ModelService::new("models");
    let m = svc.load_model_from_dir(&probe("b", Some("b"), true, true, Some("not json"))).unwrap();
    assert_eq!(m.name, "b");
    assert_eq!(m.description, "");
    assert_eq!(m.metadata.sample_rate, 22050);
    assert_eq!(m.metadata.language, "zh");
    assert_eq!(m.metadata.duration_bits, None);
    let u = svc.load_model_from_dir(&probe("c", None, true, true, None)).unwrap();
    assert_eq!(u.name, "unknown");
    let wide = svc.load_model_from_dir(&probe("d", Some("d"), true, true, Some(r#"{"sample_rate": 4294967297, "name": 3}"#))).unwrap();
    assert_eq!(wide.metadata.sample_rate, 1);
    assert_eq!(wide.name, "d");
    assert!(svc.load_model_from_dir(&probe("e", Some("e"), true, false, None)).is_none());
}

#[test]
fn listing_models() {
    let svc = ModelService::new("models");
    let probes = vec![
        probe("a", Some("a"), true, true, None),
        probe("file", Some("file"), false, true, None),
        probe("empty", Some("empty"), true, false, None),
        probe("b", Some("b"), true, true, None),
    ];
    let listing = svc.list_models(&probes);
    assert_eq!(listing.total, 2);
    let names: Vec<&str> = listing.models.iter().map(|m| m.name.as_str()).collect();
    assert_eq!(names, vec!["a", "b"]);
    let id = listing.models[1].id.clone();
    let path = svc.get_model_path(listing, &id).ok().unwrap();
    assert_eq!(path, "models/b/model.pth");
}

#[test]
fn finding_models() {
    let svc = ModelService::new("models");
    let listing = svc.list_models(&vec![probe("a", Some("a"), true, true, None)]);
    let id = listing.models[0].id.clone();
    assert_eq!(svc.get_model(listing, &id).ok().unwrap().name, "a");
    let empty = ModelListResponse { models: vec![], total: 0 };
    match svc.get_model(empty, "x") {
        Err(AppError::NotFound(m)) => assert_eq!(m, "Model not found: x"),
        _ => panic!("expected NotFound"),
    }
    let listing = svc.list_models(&vec![probe("a", Some("a"), true, true, None)]);
    let id = listing.models[0].id.clone();
    assert_eq!(svc.load_emod(listing, &id).ok().unwrap(), "models/a/emotion.emod");
    let mut no_emod = probe("z", Some("z"), true, true, None);
    no_emod.has_emod = false;
    let listing = svc.list_models(&vec![no_emod]);
    let id = listing.models[0].id.clone();
    match svc.load_emod(listing, &id) {
        Err(AppError::NotFound(m)) => assert_eq!(m, "EMOD file not found"),
        _ => panic!("expected NotFound"),
    }
}

#[test]
fn model_files() {
    let svc = ModelService::new("models");
    assert_eq!(svc.delete_model("m1", true).ok().unwrap(), "models/m1");
    match svc.delete_model("m1", false) {
        Err(AppError::NotFound(m)) => assert_eq!(m, "Model not found: m1"),
        _ => panic!("expected NotFound"),
    }
    assert_eq!(svc.save_emod("m1", true).ok().unwrap(), "models/m1/emotion.emod");
    assert!(matches!(svc.save_emod("m1", false), Err(AppError::NotFound(_))));
    let plan = svc.upload_plan();
    assert!(is_uuid_v4(&plan.model_id));
    assert_eq!(plan.model_dir, format!("models/{}", plan.model_id));
    assert_eq!(plan.model_path, format!("models/{}/model.pth", plan.model_id));
    assert_eq!(plan.config_path, format!("models/{}/config.json", plan.model_id));
    match svc.upload_model(&probe("x", Some("x"), true, false, None)) {
        Err(AppError::InternalError(m)) => assert_eq!(m, "Failed to load uploaded model"),
        _ => panic!("expected InternalError"),
    }
}

#[test]
fn uploaded_model_configuration() {
    let svc = ModelService::new("models");
    let text = svc.upload_config_text("Bob", "deep \"voice\"").ok().unwrap();
    let value: serde_json::Value = serde_json::from_str(&text).unwrap();
    assert_eq!(value["name"], "Bob");
    assert_eq!(value["description"], "deep \"voice\"");
    assert!(value["created_at"].as_str().unwrap().ends_with("+00:00"));
    assert!(text.contains('\n'));
    let model = svc.upload_model(&probe("u", Some("u"), true, true, Some(&text))).ok().unwrap();
    assert_eq!(model.name, "Bob");
    assert_eq!(model.description, "deep \"voice\"");
}

#[test]
fn training_time_estimates() {
    assert_eq!(estimate_training_time(&TrainingConfig { epochs: 3, batch_size: 4, save_every: 1 }), 120);
    assert_eq!(estimate_training_time(&TrainingConfig { epochs: 3, batch_size: 5, save_every: 1 }), 120);
    assert_eq!(estimate_training_time(&TrainingConfig { epochs: 3, batch_size: 16, save_every: 1 }), 30);
    assert_eq!(estimate_training_time(&TrainingConfig { epochs: 3, batch_size: 1000, save_every: 1 }), 30);
    assert_eq!(estimate_training_time(&TrainingConfig { epochs: 1, batch_size: 1, save_every: 1 }), 160);
    assert_eq!(estimate_training_time(&TrainingConfig { epochs: 0, batch_size: 0, save_every: 1 }), 0);
    assert_eq!(estimate_training_time(&TrainingConfig { epochs: u32::MAX, batch_size: 1, save_every: 1 }), u32::MAX as u64 * 160);
    for b in 1..=40u32 {
        let expected = 7u64 * 10 * (16.0 / b as f32).ceil() as u64;
        assert_eq!(estimate_training_time(&TrainingConfig { epochs: 7, batch_size: b, save_every: 1 }), expected);
    }
}

#[test]
fn registered_job_is_pending() {
    let mut svc = TrainingService::new("train");
    let plan = svc.job_plan();
    assert!(is_uuid_v4(&plan.job_id));
    assert_eq!(plan.job_dir, format!("train/{}", plan.job_id));
    let job = svc.start_training(plan.job_id.clone(), &request(3, 4));
    assert_eq!(job.status, TrainingStatus::Pending);
    assert_eq!(job.name, "voice");
    assert_eq!(job.estimated_time, Some(120));
    let status = svc.get_status(&plan.job_id).ok().unwrap();
    assert_eq!(status.training_id, plan.job_id);
    assert_eq!(status.status, TrainingStatus::Pending);
    assert_eq!((status.epochs_done, status.epochs_total, status.total_epochs), (0, 3, 1000));
    assert_eq!(status.estimated_time_remaining, Some(120));
    match svc.get_status("other") {
        Err(AppError::NotFound(m)) => assert_eq!(m, "Training job not found: other"),
        _ => panic!("expected NotFound"),
    }
}

#[test]
fn cancelling_jobs() {
    let mut svc = TrainingService::new("train");
    svc.start_training("j".to_string(), &request(2, 4));
    assert!(svc.cancel_training("j").is_ok());
    assert_eq!(svc.get_status("j").ok().unwrap().status, TrainingStatus::Cancelled);
    assert!(svc.cancel_training("j").is_ok());
    match svc.cancel_training("missing") {
        Err(AppError::NotFound(m)) => assert_eq!(m, "Training job not found: missing"),
        _ => panic!("expected NotFound"),
    }
    svc.start_training("other".to_string(), &request(5, 4));
    assert!(svc.cancel_training("j").is_ok());
    assert_eq!(svc.get_status("other").ok().unwrap().status, TrainingStatus::Pending);
    assert_eq!(svc.list_jobs().ok().unwrap().len(), 2);
    svc.start_training("k".to_string(), &request(1, 4));
    svc.finish_epoch("k", 1, 1);
    svc.mark_completed("k", 1, "train/k/model.pth");
    match svc.cancel_training("k") {
        Err(AppError::BadRequest(m)) => assert_eq!(m, "Cannot cancel job in Completed state"),
        _ => panic!("expected BadRequest"),
    }
    assert_eq!(svc.get_status("k").ok().unwrap().status, TrainingStatus::Completed);
}

#[test]
fn full_training_run() {
    let mut svc = TrainingService::new("train");
    svc.start_training("r".to_string(), &request(3, 8));
    svc.mark_preparing("r");
    assert_eq!(svc.get_status("r").ok().unwrap().status, TrainingStatus::Preparing);
    let mut action = svc.mark_training("r", 3);
    assert_eq!(svc.get_status("r").ok().unwrap().status, TrainingStatus::Training);
    let mut epochs = vec![];
    loop {
        match action {
            RunnerAction::SleepThenEpoch(e) => {
                epochs.push(e);
                action = svc.finish_epoch("r", e, 3);
                assert_eq!(svc.get_status("r").ok().unwrap().epochs_done, e);
            }
            RunnerAction::Export => action = svc.mark_exporting("r", "train/r"),
            RunnerAction::WriteModel(path) => {
                assert_eq!(svc.get_status("r").ok().unwrap().status, TrainingStatus::Exporting);
                assert_eq!(path, "train/r/model.pth");
                action = svc.mark_completed("r", 3, &path);
            }
            RunnerAction::Finish => break,
        }
    }
    assert_eq!(epochs, vec![1, 2, 3]);
    let jobs = svc.list_jobs().ok().unwrap();
    assert_eq!(jobs.len(), 1);
    let job = &jobs[0];
    assert_eq!(job.status, TrainingStatus::Completed);
    assert_eq!((job.epochs_done, job.epochs_total), (3, 3));
    assert_eq!(job.output_model_path.as_deref(), Some("train/r/model.pth"));
    assert!(job.started_at.is_some() && job.completed_at.is_some());
    assert!(matches!(svc.mark_training("r", 0), RunnerAction::Finish));
}

#[test]
fn runner_on_unknown_job_changes_nothing() {
    let mut svc = TrainingService::new("train");
    svc.start_training("a".to_string(), &request(1, 1));
    svc.mark_preparing("b");
    svc.finish_epoch("b", 1, 1);
    assert_eq!(svc.list_jobs().ok().unwrap().len(), 1);
    assert_eq!(svc.get_status("a").ok().unwrap().status, TrainingStatus::Pending);
}

#[test]
fn synthesis_checks() {
    let svc = TTSService::new(tts_config(5));
    let mut req = SynthesizeRequest { text: String::new(), model_path: "m".to_string(), emod_path: None, sample_rate: None, output_format: None };
    match svc.synthesize(&req, true) {
        Err(AppError::ValidationError(m)) => assert_eq!(m, "Text cannot be empty"),
        _ => panic!("expected ValidationError"),
    }
    req.text = "abcdef".to_string();
    match svc.synthesize(&req, true) {
        Err(AppError::ValidationError(m)) => assert_eq!(m, "Text length exceeds maximum allowed length of 5 characters"),
        _ => panic!("expected ValidationError"),
    }
    req.text = "ééé".to_string();
    assert!(matches!(svc.synthesize(&req, true), Err(AppError::ValidationError(_))));
    req.text = "hello".to_string();
    match svc.synthesize(&req, false) {
        Err(AppError::InternalError(m)) => assert_eq!(m, "TTS bridge not initialized"),
        _ => panic!("expected InternalError"),
    }
    let plan = svc.synthesize(&req, true).ok().unwrap();
    assert!(is_uuid_v4(&plan.audio_id));
    assert_eq!(plan.format, "wav");
    assert_eq!(plan.sample_rate, 22050);
    assert_eq!(plan.output_path, format!("out/{}.wav", plan.audio_id));
    req.output_format = Some("mp3".to_string());
    req.sample_rate = Some(16000);
    let plan = svc.synthesize(&req, true).ok().unwrap();
    assert_eq!(plan.output_path, format!("out/{}.mp3", plan.audio_id));
    assert_eq!(plan.sample_rate, 16000);
    let plan = svc.synthesize_with_emotion(true).ok().unwrap();
    assert_eq!(plan.output_path, format!("out/{}.wav", plan.audio_id));
    assert!(matches!(svc.synthesize_with_emotion(false), Err(AppError::InternalError(_))));
    assert!(TTSService::require_bridge(true).is_ok());
}

#[test]
fn preloading_models() {
    let mut svc = TTSService::new(tts_config(100));
    assert!(matches!(svc.preload_model("m0", false), Err(AppError::InternalError(_))));
    assert_eq!(svc.preload_model("m0", true).ok(), Some(true));
    svc.mark_model_loaded("m0");
    assert_eq!(svc.preload_model("m0", false).ok(), Some(false));
    for i in 1..=10 {
        svc.mark_model_loaded(&format!("m{}", i));
    }
    assert_eq!(svc.preload_model("m0", true).ok(), Some(true));
    for i in 1..=10 {
        assert_eq!(svc.preload_model(&format!("m{}", i), true).ok(), Some(false));
    }
    svc.mark_model_loaded("m1");
    svc.mark_model_loaded("m11");
    assert_eq!(svc.preload_model("m1", true).ok(), Some(false));
    assert_eq!(svc.preload_model("m2", true).ok(), Some(true));
}

#[test]
fn transcription_responses() {
    let svc = AnnotationService::new("data");
    let result = TranscriptionResult {
        text: "hi there".to_string(),
        segments: vec![
            Segment { start_bits: 0.0f64.to_bits(), end_bits: 1.25f64.to_bits(), text: "hi".to_string(), confidence_bits: 0.9f64.to_bits() },
            Segment { start_bits: 1.25f64.to_bits(), end_bits: 2.5f64.to_bits(), text: "there".to_string(), confidence_bits: 1.0f64.to_bits() },
        ],
    };
    let r = svc.transcribe(&result, "en");
    assert!(is_uuid_v4(&r.transcription_id));
    assert_eq!(r.text, "hi there");
    assert_eq!(r.language, "en");
    assert_eq!(f64::from_bits(r.duration_bits), 2.5);
    assert_eq!(r.segments.len(), 2);
    assert_eq!((r.segments[0].id, r.segments[1].id), (0, 1));
    assert_eq!(r.segments[1].text, "there");
    assert!(r.segments[0].words.is_empty());
    let empty = svc.transcribe(&TranscriptionResult { text: String::new(), segments: vec![] }, "zh");
    assert_eq!(f64::from_bits(empty.duration_bits), 0.0);
    let batch = svc.batch_transcribe(&vec![result, TranscriptionResult { text: "x".to_string(), segments: vec![] }], "en");
    assert_eq!(batch.len(), 2);
    assert_eq!(batch[1].text, "x");
    assert_ne!(batch[0].transcription_id, batch[1].transcription_id);
    assert!(AnnotationService::require_bridge(true).is_ok());
    match AnnotationService::require_bridge(false) {
        Err(AppError::InternalError(m)) => assert_eq!(m, "Annotator bridge not initialized"),
        _ => panic!("expected InternalError"),
    }
}

#[test]
fn annotations_lifecycle() {
    let svc = AnnotationService::new("data");
    let mut a = svc.create_annotation("a.wav", "hello").ok().unwrap();
    assert!(is_uuid_v4(&a.id));
    assert_eq!((a.audio_file.as_str(), a.text.as_str(), a.verified), ("a.wav", "hello", false));
    assert_eq!((a.start_time_bits, a.end_time_bits), (None, None));
    svc.update_annotation(&mut a, None, Some(1.0f64.to_bits()), None, Some(true)).ok().unwrap();
    assert_eq!(a.text, "hello");
    assert_eq!(a.start_time_bits, Some(1.0f64.to_bits()));
    assert_eq!(a.end_time_bits, None);
    assert!(a.verified);
    svc.update_annotation(&mut a, Some("bye"), None, None, None).ok().unwrap();
    assert_eq!(a.text, "bye");
    assert!(a.verified);
    let b = svc.create_annotation("b.wav", "no").ok().unwrap();
    let mut c = svc.create_annotation("c.wav", "yes").ok().unwrap();
    svc.update_annotation(&mut c, None, None, None, Some(true)).ok().unwrap();
    let all = vec![a, b, c];
    let durations = vec!["7.0".to_string(), "8.0".to_string(), "9.0".to_string()];
    assert_eq!(
        svc.export_annotations(&all, &durations).ok().unwrap(),
        "{\"audio_file\":\"a.wav\",\"duration\":null,\"text\":\"bye\"}\n{\"audio_file\":\"c.wav\",\"duration\":null,\"text\":\"yes\"}"
    );
    let none = vec![svc.create_annotation("d.wav", "d").ok().unwrap()];
    assert_eq!(svc.export_annotations(&none, &vec!["1.0".to_string()]).ok().unwrap(), "");
}

#[test]
fn export_writes_duration_of_timed_annotations() {
    let svc = AnnotationService::new("data");
    let mut t = svc.create_annotation("t.wav", "say \"hi\"").ok().unwrap();
    svc.update_annotation(&mut t, None, Some(1.0f64.to_bits()), Some(3.5f64.to_bits()), Some(true)).ok().unwrap();
    let all = vec![t];
    assert_eq!(
        svc.export_annotations(&all, &vec!["2.5".to_string()]).ok().unwrap(),
        "{\"audio_file\":\"t.wav\",\"duration\":2.5,\"text\":\"say \\\"hi\\\"\"}"
    );
    match svc.export_annotations(&all, &vec!["not a number".to_string()]) {
        Err(AppError::InternalError(_)) => {}
        _ => panic!("expected InternalError"),
    }
}

#[test]
fn transcription_language_default() {
    let given = TranscribeRequest { audio_path: "a.wav".to_string(), language: Some("en".to_string()) };
    assert_eq!(given.language_or_default(), "en");
    let absent = TranscribeRequest { audio_path: "a.wav".to_string(), language: None };
    assert_eq!(absent.language_or_default(), "zh");
}

#[test]
fn model_from_given_configuration() {
    let svc = ModelService::new("models");
    let config = ModelConfig {
        name: None,
        description: Some("d".to_string()),
        sample_rate: Some(0x1_0000_5622),
        language: None,
        duration_bits: Some(2.0f64.to_bits()),
    };
    let m = svc.model_from_config(&probe("q", Some("q"), true, true, None), config.clone()).unwrap();
    assert_eq!(m.name, "q");
    assert_eq!(m.description, "d");
    assert_eq!(m.metadata.sample_rate, 22050);
    assert_eq!(m.metadata.language, "zh");
    assert_eq!(m.metadata.duration_bits, Some(2.0f64.to_bits()));
    assert!(svc.model_from_config(&probe("q", Some("q"), true, false, None), config).is_none());
    let read = ModelService::read_model_config(&probe("r", None, true, true, Some(r#"{"name": "R", "language": "fr"}"#)));
    assert_eq!(read.name.as_deref(), Some("R"));
    assert_eq!(read.language.as_deref(), Some("fr"));
    assert_eq!((read.description, read.sample_rate, read.duration_bits), (None, None, None));
}

#[test]
fn configuration_write_outcomes() {
    assert_eq!(ModelService::config_write_outcome(Ok("{}".to_string())).ok().unwrap(), "{}");
    match ModelService::config_write_outcome(Err("bad".to_string())) {
        Err(AppError::ValidationError(m)) => assert_eq!(m, "bad"),
        _ => panic!("expected ValidationError"),
    }
}

#[test]
fn emotion_description_at_given_time() {
    let svc = EmotionService::new("emo");
    let emod = svc.create_emod_at("x", Some("calm"), "2024-01-01T00:00:00+00:00".to_string()).ok().unwrap();
    assert_eq!(emod.metadata.created_at, "2024-01-01T00:00:00+00:00");
    assert_eq!(emod.emotion_vector.arousal_milli, -400);
    assert!(svc.create_emod_at("x", Some("none"), "t".to_string()).is_err());
}

#[test]
fn training_steps_at_given_times() {
    let t1 = Timestamp { secs: 100, nanos: 1 };
    let t2 = Timestamp { secs: 200, nanos: 2 };
    let t3 = Timestamp { secs: 300, nanos: 3 };
    let mut svc = TrainingService::new("train");
    let job = svc.start_training_at("j".to_string(), &request(1, 1), t1);
    assert_eq!(job.created_at, t1);
    svc.mark_preparing_at("j", t2);
    let jobs = svc.list_jobs().ok().unwrap();
    assert_eq!(jobs[0].started_at, Some(t2));
    assert!(svc.cancel_training_at("j", t3).is_ok());
    let jobs = svc.list_jobs().ok().unwrap();
    assert_eq!(jobs[0].completed_at, Some(t3));
    assert_eq!(jobs[0].status, TrainingStatus::Cancelled);
    svc.mark_completed_at("j", 1, "train/j/model.pth", t2);
    let jobs = svc.list_jobs().ok().unwrap();
    assert_eq!(jobs[0].completed_at, Some(t2));
    assert_eq!(jobs[0].status, TrainingStatus::Completed);
    assert!(svc.start_training("k".to_string(), &request(1, 1)).created_at.nanos < 1_000_000_000);
}

#[test]
fn annotations_at_given_times() {
    let t1 = Timestamp { secs: 1, nanos: 0 };
    let t2 = Timestamp { secs: 2, nanos: 0 };
    let mut a = AnnotationService::create_annotation_at("f.wav", "t", "id-1".to_string(), t1, t1);
    assert_eq!((a.id.as_str(), a.created_at, a.updated_at), ("id-1", t1, t1));
    AnnotationService::update_annotation_at(&mut a, Some("u"), None, Some(3.0f64.to_bits()), None, t2);
    assert_eq!(a.updated_at, t2);
    assert_eq!(a.created_at, t1);
    assert_eq!(a.text, "u");
    assert_eq!(a.end_time_bits, Some(3.0f64.to_bits()));
}

#[test]
fn model_record_at_given_identity() {
    let t = Timestamp { secs: 5, nanos: 6 };
    let config = ModelConfig { name: Some("N".to_string()), description: None, sample_rate: None, language: None, duration_bits: None };
    let m = ModelService::new("models").model_record_at(&probe("n", Some("n"), true, true, None), config, "fixed".to_string(), t, t);
    assert_eq!((m.id.as_str(), m.name.as_str(), m.created_at, m.updated_at), ("fixed", "N", t, t));
}

#[test]
fn configuration_text_at_given_time() {
    let text = ModelService::upload_config_text_at("A", "B", "2024-01-01T00:00:00+00:00").ok().unwrap();
    let value: serde_json::Value = serde_json::from_str(&text).unwrap();
    assert_eq!(value["name"], "A");
    assert_eq!(value["description"], "B");
    assert_eq!(value["created_at"], "2024-01-01T00:00:00+00:00");
    assert_eq!(value.as_object().unwrap().len(), 3);
    assert_eq!(text, serde_json::to_string_pretty(&value).unwrap());
}

#[test]
fn recogniser_segments() {
    let full = RawSegment { start_bits: Some(1.0f64.to_bits()), end_bits: Some(2.0f64.to_bits()), text: Some("a".to_string()), confidence_bits: Some(0.5f64.to_bits()) };
    let partial = RawSegment { start_bits: None, end_bits: Some(4.0f64.to_bits()), text: None, confidence_bits: None };
    let l = lenient_segment(&partial);
    assert_eq!((l.start_bits, l.end_bits, l.text.as_str(), l.confidence_bits), (0, 4.0f64.to_bits(), "", 1.0f64.to_bits()));
    assert_eq!(ONE_BITS, 1.0f64.to_bits());
    assert!(strict_segment(&partial).is_none());
    assert_eq!(strict_segment(&full).unwrap().text, "a");
    assert_eq!(lenient_segments(&vec![full.clone(), partial.clone()]).len(), 2);
    let single = lenient_transcription("hello".to_string(), &vec![partial.clone()]);
    assert_eq!(single.text, "hello");
    assert_eq!(single.segments[0].confidence_bits, ONE_BITS);
    let batch = strict_transcription(&RawTranscription { text: None, segments: Some(vec![partial.clone(), full.clone(), partial]) });
    assert_eq!(batch.text, "");
    assert_eq!(batch.segments.len(), 1);
    assert_eq!(batch.segments[0].start_bits, 1.0f64.to_bits());
    let none = strict_transcription(&RawTranscription { text: Some("t".to_string()), segments: None });
    assert_eq!((none.text.as_str(), none.segments.len()), ("t", 0));
}

#[test]
fn model_paths_lie_in_models_dir() {
    let svc = ModelService::new("/srv/models/");
    let listing = svc.list_models(&vec![probe("v1", Some("v1"), true, true, None)]);
    let id = listing.models[0].id.clone();
    assert_eq!(listing.models[0].emod_path.as_deref(), Some("/srv/models/v1/emotion.emod"));
    let path = svc.get_model_path(listing, &id).ok().unwrap();
    assert_eq!(path, "/srv/models/v1/model.pth");
}

#[test]
fn emod_filenames_are_fresh() {
    let a = EmotionService::new_emod_filename();
    let b = EmotionService::new_emod_filename();
    assert_eq!(a.len(), 41);
    assert!(a.starts_with("emod_"));
    assert!(is_uuid_v4(&a[5..]));
    assert_ne!(a, b);
    assert_eq!(EmotionService::new("emo").emotions_dir(), "emo");
}

#[test]
fn blank_annotation_starts_empty() {
    let a = AnnotationService::blank_annotation("id-1".to_string());
    assert_eq!((a.id.as_str(), a.audio_file.as_str(), a.text.as_str(), a.verified), ("id-1", "", "", false));
    assert_eq!((a.start_time_bits, a.end_time_bits), (None, None));
}

#[test]
fn model_info_is_rewritten_or_null() {
    assert_eq!(tts_backend::json::model_info_json("{ \"b\": 1, \"a\": [true, null] }"), "{\"a\":[true,null],\"b\":1}");
    assert_eq!(tts_backend::json::model_info_json("not json"), "null");
    assert_eq!(tts_backend::json::model_info_json("0.30000000000000004"), "0.30000000000000004");
}

#[test]
fn export_keeps_durations_exact() {
    let svc = AnnotationService::new("data");
    let mut t = svc.create_annotation("t.wav", "x").ok().unwrap();
    svc.update_annotation(&mut t, None, Some(0.1f64.to_bits()), Some(0.4f64.to_bits()), Some(true)).ok().unwrap();
    let d = serde_json::to_string(&(0.4f64 - 0.1f64)).unwrap();
    let line = svc.export_annotations(&vec![t], &vec![d.clone()]).ok().unwrap();
    assert_eq!(line, format!("{{\"audio_file\":\"t.wav\",\"duration\":{},\"text\":\"x\"}}", d));
}
