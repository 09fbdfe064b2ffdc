use ttd::record::RecorderEngine;
use ttd::sys_error;
use ttd::utf8::decode_utf8_bytes;

#[test]
fn recorder_engine_is_named() {
    let engine = RecorderEngine::new("TestRecorder".as_bytes()).unwrap();
    assert_eq!(engine.to_string(), "RecorderEngine(TestRecorder)");
    assert!(engine.recorder().is_ok());
    let accented = RecorderEngine::new("réc ✓ 𝄞".as_bytes()).unwrap();
    assert_eq!(accented.to_string(), "RecorderEngine(réc ✓ 𝄞)");
}

#[test]
fn recorder_engine_refuses_bad_utf8() {
    assert!(matches!(RecorderEngine::new(&[0x41, 0xff]), Err(sys_error::Error::Utf8Error)));
}

#[test]
fn utf8_decoding_matches_std() {
    let samples: Vec<Vec<u8>> = vec![
        b"".to_vec(),
        b"plain ascii".to_vec(),
        "é€𝄞".as_bytes().to_vec(),
        vec![0xc3],
        vec![0xc0, 0x80],
        vec![0xe0, 0x80, 0x80],
        vec![0xed, 0xa0, 0x80],
        vec![0xf4, 0x90, 0x80, 0x80],
        vec![0xf0, 0x9f, 0x98, 0x80],
        vec![0xef, 0xbf, 0xbf],
        vec![0xf5, 0x80, 0x80, 0x80],
        vec![0x80],
        vec![0x61, 0xe2, 0x82],
    ];
    for bytes in samples {
        let expected = std::str::from_utf8(&bytes).ok().map(|s| s.to_string());
        assert_eq!(decode_utf8_bytes(&bytes), expected, "bytes {:?}", bytes);
    }
}
