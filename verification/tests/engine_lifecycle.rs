use m2m_translate::config::{build_decoding_config, DecodingOverrides};
use m2m_translate::device::Device;
use m2m_translate::engine::{EngineState, TranslationEngine};
use m2m_translate::errors::TranslationError;
use m2m_translate::lang::{Language, PretrainedModelId};
use m2m_translate::resources::locate_resources;
use m2m_translate::timing::elapsed_ms_between;

fn ready_engine() -> TranslationEngine {
    let bundle = locate_resources("m2m100-418m").unwrap();
    let config = build_decoding_config(
        PretrainedModelId::M2m100_418m,
        &bundle,
        Device::Cpu,
        DecodingOverrides::empty(),
    )
    .unwrap();
    let (engine, elapsed) = TranslationEngine::finish_load(config, Ok(()), 1_000, 61_000).unwrap();
    assert_eq!(elapsed, 60_000);
    engine
}

#[test]
fn a_successful_load_yields_a_ready_engine() {
    let engine = ready_engine();
    assert_eq!(engine.state, EngineState::Ready);
    assert_eq!(engine.config.num_beams, 4);
}

#[test]
fn a_failed_load_is_fatal() {
    let bundle = locate_resources("m2m100-418m").unwrap();
    let config = build_decoding_config(
        PretrainedModelId::M2m100_418m,
        &bundle,
        Device::Cpu,
        DecodingOverrides::empty(),
    )
    .unwrap();
    let r = TranslationEngine::finish_load(
        config,
        Err("weights incompatible with declared model".to_owned()),
        5,
        9,
    );
    match r {
        Err(TranslationError::ModelLoad(cause)) => {
            assert_eq!(cause, "weights incompatible with declared model");
        }
        other => panic!("expected a load failure, got {:?}", other.is_ok()),
    }
}

#[test]
fn a_supported_request_is_accepted() {
    let engine = ready_engine();
    let req = engine
        .begin_translate(
            Language::English,
            Language::Spanish,
            "Hello, my name is Bingus. I love Dot Browser.",
        )
        .unwrap();
    assert_eq!(req.source, Language::English);
    assert_eq!(req.target, Language::Spanish);
    assert_eq!(req.text, "Hello, my name is Bingus. I love Dot Browser.");
}

#[test]
fn empty_text_is_rejected_before_the_model() {
    let engine = ready_engine();
    let r = engine.begin_translate(Language::English, Language::Spanish, "");
    assert_eq!(r.unwrap_err(), TranslationError::EmptyInput);
}

#[test]
fn an_unconfigured_pair_is_rejected_before_the_model() {
    let engine = ready_engine();
    let r = engine.begin_translate(Language::English, Language::Esperanto, "hello");
    assert_eq!(
        r.unwrap_err(),
        TranslationError::UnsupportedLanguagePair(Language::English, Language::Esperanto)
    );
}

#[test]
fn a_narrowed_configuration_rejects_other_pairs() {
    let bundle = locate_resources("m2m100-418m").unwrap();
    let mut overrides = DecodingOverrides::empty();
    overrides.source_languages = Some(vec![Language::English]);
    overrides.target_languages = Some(vec![Language::Spanish]);
    let config = build_decoding_config(
        PretrainedModelId::M2m100_418m,
        &bundle,
        Device::Cpu,
        overrides,
    )
    .unwrap();
    let (engine, _) = TranslationEngine::finish_load(config, Ok(()), 0, 0).unwrap();
    assert!(engine
        .begin_translate(Language::English, Language::Spanish, "hi")
        .is_ok());
    let r = engine.begin_translate(Language::French, Language::Spanish, "salut");
    assert_eq!(
        r.unwrap_err(),
        TranslationError::UnsupportedLanguagePair(Language::French, Language::Spanish)
    );
}

#[test]
fn a_disposed_engine_rejects_every_call() {
    let mut engine = ready_engine();
    engine.dispose();
    assert_eq!(engine.state, EngineState::Disposed);
    let r = engine.begin_translate(Language::English, Language::Spanish, "hello");
    assert_eq!(r.unwrap_err(), TranslationError::EngineDisposed);
    let r = engine.begin_translate(Language::English, Language::Spanish, "");
    assert_eq!(r.unwrap_err(), TranslationError::EngineDisposed);
    engine.dispose();
    assert_eq!(engine.state, EngineState::Disposed);
    assert_eq!(engine.config.max_length, 512);
}

#[test]
fn the_first_candidate_is_surfaced_trimmed() {
    let engine = ready_engine();
    let outcome = Ok(vec![
        "  Hola, me llamo Bingus.\n".to_owned(),
        "Hola, soy Bingus.".to_owned(),
    ]);
    let res = engine.complete_translate(outcome, 2_000, 2_350).unwrap();
    assert_eq!(res.text, "Hola, me llamo Bingus.");
    assert_eq!(res.elapsed_ms, 350);
}

#[test]
fn whitespace_only_output_is_surfaced_empty() {
    let engine = ready_engine();
    let res = engine
        .complete_translate(Ok(vec![" \t\u{00A0} ".to_owned()]), 0, 1)
        .unwrap();
    assert_eq!(res.text, "");
}

#[test]
fn a_missing_candidate_is_an_inference_error() {
    let engine = ready_engine();
    let r = engine.complete_translate(Ok(vec![]), 0, 1);
    match r {
        Err(TranslationError::Inference(m)) => {
            assert_eq!(m, "no candidate sequence returned");
        }
        other => panic!("expected an inference error, got {:?}", other.is_ok()),
    }
}

#[test]
fn a_model_failure_aborts_only_that_call() {
    let engine = ready_engine();
    let r = engine.complete_translate(Err("device error".to_owned()), 0, 1);
    assert_eq!(
        r.unwrap_err(),
        TranslationError::Inference("device error".to_owned())
    );
    assert_eq!(engine.state, EngineState::Ready);
    let res = engine
        .complete_translate(Ok(vec!["Hallo.".to_owned()]), 7, 7)
        .unwrap();
    assert_eq!(res.text, "Hallo.");
    assert_eq!(res.elapsed_ms, 0);
}

#[test]
fn elapsed_time_is_never_negative() {
    assert_eq!(elapsed_ms_between(10, 25), 15);
    assert_eq!(elapsed_ms_between(25, 25), 0);
    assert_eq!(elapsed_ms_between(25, 10), 0);
    assert_eq!(elapsed_ms_between(0, u64::MAX), u64::MAX);
}

#[test]
fn a_round_trip_through_checked_requests() {
    let engine = ready_engine();
    let outward = engine
        .begin_translate(
            Language::English,
            Language::Spanish,
            "Hello, my name is Bingus. I love Dot Browser.",
        )
        .unwrap();
    assert_eq!(outward.text, "Hello, my name is Bingus. I love Dot Browser.");
    let outward_result = engine
        .complete_translate(
            Ok(vec![" Hola, me llamo Bingus. Me encanta Dot Browser. ".to_owned()]),
            100,
            900,
        )
        .unwrap();
    assert!(!outward_result.text.is_empty());
    assert_eq!(outward_result.text, "Hola, me llamo Bingus. Me encanta Dot Browser.");
    let back = engine
        .begin_translate(Language::Spanish, Language::English, &outward_result.text)
        .unwrap();
    assert_eq!(back.source, Language::Spanish);
    let back_result = engine
        .complete_translate(
            Ok(vec!["Hello, my name is Bingus. I love Dot Browser.".to_owned()]),
            900,
            1_400,
        )
        .unwrap();
    assert!(!back_result.text.is_empty());
    assert_eq!(back_result.elapsed_ms, 500);
}

#[test]
fn error_kinds_have_stable_messages() {
    assert_eq!(
        TranslationError::UnknownModel("x".to_owned()).kind_message(),
        "unknown model identifier"
    );
    assert_eq!(TranslationError::EmptyInput.kind_message(), "empty input text");
    assert_eq!(
        TranslationError::EngineDisposed.kind_message(),
        "engine already disposed"
    );
    assert_eq!(
        TranslationError::UnsupportedLanguagePair(Language::English, Language::Basque)
            .kind_message(),
        "unsupported language pair"
    );
    assert_eq!(
        TranslationError::ModelLoad("x".to_owned()).kind_message(),
        "model load failed"
    );
    assert_eq!(
        TranslationError::Inference("x".to_owned()).kind_message(),
        "inference failed"
    );
}
