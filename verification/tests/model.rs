use parakeet_cpp::model::{
    finish_load, load_result, native_text, transcribe_result,
    check_abi, check_model_path, load_returned_null, native_error_text, native_sample_rate,
    prepare_load, prepare_transcribe, sample_count, text_from_native, transcription_failed,
    DEFAULT_DECODER,
};
use parakeet_cpp::{Error, Model, TranscribeOptions, SUPPORTED_ABI};

#[test]
fn supported_abi_is_accepted() {
    assert!(check_abi(SUPPORTED_ABI).is_ok());
    assert_eq!(SUPPORTED_ABI, 4);
}

#[test]
fn other_abi_is_rejected_with_both_versions() {
    match check_abi(3) {
        Err(Error::AbiMismatch { expected, found }) => {
            assert_eq!(expected, 4);
            assert_eq!(found, 3);
        }
        other => panic!("unexpected {other:?}"),
    }
    assert!(matches!(
        check_abi(5),
        Err(Error::AbiMismatch {
            expected: 4,
            found: 5
        })
    ));
}

#[test]
fn model_path_with_nul_is_rejected() {
    assert!(check_model_path("/models/tdt-0.6b-v3-q8_0.gguf").is_ok());
    match check_model_path("/models/bad\0name.gguf") {
        Err(Error::Load(msg)) => assert_eq!(msg, "path contains NUL"),
        other => panic!("unexpected {other:?}"),
    }
}

#[test]
fn load_checks_abi_before_path() {
    assert!(prepare_load(4, "/models/a.gguf").is_ok());
    assert!(matches!(
        prepare_load(3, "/models/bad\0name.gguf"),
        Err(Error::AbiMismatch {
            expected: 4,
            found: 3
        })
    ));
    assert!(matches!(
        prepare_load(4, "bad\0"),
        Err(Error::Load(ref m)) if m == "path contains NUL"
    ));
}

#[test]
fn null_context_names_the_path() {
    let e = load_returned_null("/no/such/model.gguf");
    assert_eq!(
        e.to_string(),
        "failed to load model: parakeet_capi_load returned NULL for /no/such/model.gguf"
    );
}

#[test]
fn sample_count_fits_i32() {
    assert_eq!(sample_count(16_000).unwrap(), 16_000);
    assert_eq!(sample_count(i32::MAX as usize).unwrap(), i32::MAX);
    match sample_count(i32::MAX as usize + 1) {
        Err(Error::Transcribe(msg)) => assert_eq!(msg, "too many samples"),
        other => panic!("unexpected {other:?}"),
    }
}

#[test]
fn sample_rate_keeps_its_bits() {
    assert_eq!(native_sample_rate(16_000), 16_000);
    assert_eq!(native_sample_rate(i32::MAX as u32), i32::MAX);
    assert_eq!(native_sample_rate(u32::MAX), -1);
    assert_eq!(native_sample_rate(0x8000_0000), i32::MIN);
}

#[test]
fn transcribe_request_default_language() {
    let req = prepare_transcribe(32_000, 16_000, &TranscribeOptions::default()).unwrap();
    assert_eq!(req.samples, 32_000);
    assert_eq!(req.sample_rate, 16_000);
    assert_eq!(req.decoder, DEFAULT_DECODER);
    assert_eq!(req.decoder, 0);
    assert!(req.language.is_none());
}

#[test]
fn transcribe_request_with_language() {
    let opts = TranscribeOptions {
        language: Some("it".to_string()),
        word_timestamps: false,
    };
    let req = prepare_transcribe(10, 8_000, &opts).unwrap();
    assert_eq!(req.language.as_deref(), Some("it"));
    assert_eq!(req.sample_rate, 8_000);
}

#[test]
fn transcribe_request_rejects_nul_language() {
    let opts = TranscribeOptions {
        language: Some("i\0t".to_string()),
        word_timestamps: false,
    };
    match prepare_transcribe(10, 16_000, &opts) {
        Err(Error::Transcribe(msg)) => assert_eq!(msg, "lang has NUL"),
        other => panic!("unexpected {other:?}"),
    }
}

#[test]
fn transcribe_request_checks_count_before_language() {
    let opts = TranscribeOptions {
        language: Some("i\0t".to_string()),
        word_timestamps: false,
    };
    match prepare_transcribe(i32::MAX as usize + 1, 16_000, &opts) {
        Err(Error::Transcribe(msg)) => assert_eq!(msg, "too many samples"),
        other => panic!("unexpected {other:?}"),
    }
}

#[test]
fn native_text_must_be_utf8() {
    assert_eq!(
        text_from_native("perché".as_bytes().to_vec()).unwrap(),
        "perché"
    );
    assert_eq!(text_from_native(Vec::new()).unwrap(), "");
    assert!(matches!(
        text_from_native(vec![0x70, 0xff, 0x61]),
        Err(Error::Utf8)
    ));
    // a surrogate encoded in three bytes is not UTF-8
    assert!(matches!(
        text_from_native(vec![0xed, 0xa0, 0x80]),
        Err(Error::Utf8)
    ));
}

#[test]
fn native_error_text_is_lenient() {
    assert_eq!(native_error_text(None), "unknown error");
    assert_eq!(
        native_error_text(Some(b"model file truncated")),
        "model file truncated"
    );
    assert_eq!(native_error_text(Some(&[0x61, 0xff, 0x62])), "a\u{FFFD}b");
}

#[test]
fn failed_transcription_reports_last_error() {
    assert_eq!(
        transcription_failed(Some(b"out of memory")).to_string(),
        "transcription failed: out of memory"
    );
    assert_eq!(
        transcription_failed(None).to_string(),
        "transcription failed: unknown error"
    );
}

#[test]
fn model_remembers_streaming_probe() {
    let streaming = Model::from_native(7u32, true);
    assert!(streaming.is_streaming());
    assert_eq!(*streaming.handle(), 7);
    let offline = Model::from_native("ctx", false);
    assert!(!offline.is_streaming());
    assert_eq!(*offline.handle(), "ctx");
}

#[test]
fn native_text_null_reports_last_error() {
    assert_eq!(
        native_text(None, Some(b"decoder failed")).unwrap_err().to_string(),
        "transcription failed: decoder failed"
    );
    assert_eq!(
        native_text(None, None).unwrap_err().to_string(),
        "transcription failed: unknown error"
    );
    assert_eq!(native_text(Some(b"ciao".to_vec()), None).unwrap(), "ciao");
    assert!(matches!(
        native_text(Some(vec![0xc3]), None),
        Err(Error::Utf8)
    ));
}

#[test]
fn transcribe_outcome_in_check_order() {
    let bad_lang = TranscribeOptions {
        language: Some("e\0n".to_string()),
        word_timestamps: false,
    };
    let too_many = i32::MAX as usize + 1;
    assert_eq!(
        transcribe_result(too_many, &bad_lang, None, None)
            .unwrap_err()
            .to_string(),
        "transcription failed: too many samples"
    );
    assert_eq!(
        transcribe_result(10, &bad_lang, None, None)
            .unwrap_err()
            .to_string(),
        "transcription failed: lang has NUL"
    );
    let opts = TranscribeOptions::default();
    assert_eq!(
        transcribe_result(10, &opts, None, Some(b"oom"))
            .unwrap_err()
            .to_string(),
        "transcription failed: oom"
    );
    assert!(matches!(
        transcribe_result(10, &opts, Some(vec![0xff]), None),
        Err(Error::Utf8)
    ));
    assert_eq!(
        transcribe_result(10, &opts, Some("perché".as_bytes().to_vec()), None).unwrap(),
        "perché"
    );
}

#[test]
fn load_outcome_in_check_order() {
    assert!(matches!(
        load_result(3, "bad\0", None::<u8>, false),
        Err(Error::AbiMismatch {
            expected: 4,
            found: 3
        })
    ));
    assert_eq!(
        load_result(4, "bad\0", Some(1u8), true)
            .err()
            .unwrap()
            .to_string(),
        "failed to load model: path contains NUL"
    );
    assert_eq!(
        load_result(4, "/no/such/model.gguf", None::<u8>, false)
            .err()
            .unwrap()
            .to_string(),
        "failed to load model: parakeet_capi_load returned NULL for /no/such/model.gguf"
    );
    let m = load_result(4, "/models/a.gguf", Some(9u8), true).ok().unwrap();
    assert!(m.is_streaming());
    assert_eq!(*m.handle(), 9);
    let offline = finish_load(Some(2u8), false, "x").ok().unwrap();
    assert!(!offline.is_streaming());
    assert!(finish_load(None::<u8>, true, "x").is_err());
}
