use swt2::audio::{file_name_of, needs_extraction, wav_header};
use swt2::transcribe::{
    batch_error_text, ffmpeg_extract_args, is_ggml_model_file, model_not_found_message,
    pick_model_file, transcript_from, whisper_args, whisper_model_dir, whisper_transcript, RawSegment,
};

#[test]
fn video_files_need_extraction() {
    assert!(needs_extraction("movie.mp4"));
    assert!(needs_extraction("C:\\Videos\\clip.MKV"));
    assert!(needs_extraction("/home/u/talk.WebM"));
    assert!(needs_extraction("dir/voice.m4a"));
    assert!(needs_extraction("a.b.avi"));
    assert!(needs_extraction("m\u{212A}v.mkv/"));
    assert!(needs_extraction("clip.m\u{212A}v"));
}

#[test]
fn audio_and_odd_files_do_not() {
    assert!(!needs_extraction("speech.wav"));
    assert!(!needs_extraction("speech.mp3"));
    assert!(!needs_extraction(".mp4"));
    assert!(!needs_extraction("mp4"));
    assert!(!needs_extraction("video.mp4/.."));
    assert!(!needs_extraction("archive.mp4.zip"));
    assert!(!needs_extraction(""));
    assert!(!needs_extraction("name."));
}

#[test]
fn file_names_of_paths() {
    assert_eq!(file_name_of("/a/b/c.wav"), "c.wav");
    assert_eq!(file_name_of("C:\\x\\y.mp4"), "y.mp4");
    assert_eq!(file_name_of("dir/"), "dir");
    assert_eq!(file_name_of("dir/."), "dir");
    assert_eq!(file_name_of("a/.."), "");
    assert_eq!(file_name_of("."), "");
    assert_eq!(file_name_of("/"), "");
    assert_eq!(file_name_of("C:clip.mov"), "clip.mov");
    assert_eq!(file_name_of("plain"), "plain");
}

#[test]
fn wav_header_layout() {
    let h = wav_header(1000, 16000);
    assert_eq!(h.len(), 44);
    assert_eq!(&h[0..4], b"RIFF");
    assert_eq!(u32::from_le_bytes([h[4], h[5], h[6], h[7]]), 36 + 2000);
    assert_eq!(&h[8..12], b"WAVE");
    assert_eq!(&h[12..16], b"fmt ");
    assert_eq!(u32::from_le_bytes([h[16], h[17], h[18], h[19]]), 16);
    assert_eq!(u16::from_le_bytes([h[20], h[21]]), 1);
    assert_eq!(u16::from_le_bytes([h[22], h[23]]), 1);
    assert_eq!(u32::from_le_bytes([h[24], h[25], h[26], h[27]]), 16000);
    assert_eq!(u32::from_le_bytes([h[28], h[29], h[30], h[31]]), 32000);
    assert_eq!(u16::from_le_bytes([h[32], h[33]]), 2);
    assert_eq!(u16::from_le_bytes([h[34], h[35]]), 16);
    assert_eq!(&h[36..40], b"data");
    assert_eq!(u32::from_le_bytes([h[40], h[41], h[42], h[43]]), 2000);
}

#[test]
fn whisper_model_directories() {
    assert_eq!(whisper_model_dir("Qwen/Qwen3-ASR-0.6B-GGUF"), "whisper-base");
    assert_eq!(whisper_model_dir("Qwen/Qwen3-ASR-1.7B-GGUF"), "whisper-small");
    assert_eq!(whisper_model_dir("Nvidia/Nemotron-ASR-GGUF"), "whisper-small");
    assert_eq!(whisper_model_dir("Nvidia/Citrinet-256-GGUF"), "whisper-tiny");
    assert_eq!(whisper_model_dir("Higgs/Higgs-Audio-STT-GGUF"), "whisper-small");
    assert_eq!(whisper_model_dir("VibeVoice/VibeVoice-ASR-GGUF"), "whisper-base");
    assert_eq!(whisper_model_dir("x-0.6b-NEMOTRON"), "whisper-base");
    assert_eq!(whisper_model_dir("CITRINET"), "whisper-tiny");
}

#[test]
fn whisper_model_files() {
    assert!(is_ggml_model_file("ggml-base.bin"));
    assert!(is_ggml_model_file("ggml-.bin"));
    assert!(!is_ggml_model_file("ggml-base.bin.tmp"));
    assert!(!is_ggml_model_file("model.bin"));
    let listing = vec!["notes.txt".to_string(), "ggml-medium.bin".to_string(), "ggml-large.bin".to_string()];
    assert_eq!(pick_model_file(true, true, &listing).unwrap(), "ggml-base.bin");
    assert_eq!(pick_model_file(false, true, &listing).unwrap(), "ggml-small.bin");
    assert_eq!(pick_model_file(false, false, &listing).unwrap(), "ggml-medium.bin");
    assert!(pick_model_file(false, false, &vec!["x.bin".to_string()]).is_none());
    assert_eq!(
        model_not_found_message("D:\\llm", "whisper-base"),
        "Model not found. Download a whisper model to D:\\llm/whisper-base"
    );
}

#[test]
fn tool_arguments() {
    let a = whisper_args("m.bin", "in.wav", "/tmp/out", "auto");
    assert_eq!(
        a,
        vec!["--model", "m.bin", "--file", "in.wav", "--output-json", "-of", "/tmp/out", "--language", "auto", "--threads", "4"]
    );
    let f = ffmpeg_extract_args("in.mp4", "out.wav");
    assert_eq!(f, vec!["-y", "-i", "in.mp4", "-ar", "16000", "-ac", "1", "-sample_fmt", "s16", "-f", "wav", "out.wav"]);
}

#[test]
fn transcript_assembly() {
    let json = r#"{"transcription":[
        {"text":" Hello","timestamps":{"from":"00:00:00,000","to":"00:00:01,500"}},
        {"text":"lost","timestamps":{"from":"00:00:01,500"}},
        {"text":7,"timestamps":{"from":"a","to":"b"}},
        {"text":"world","timestamps":{"from":"00:00:01,500","to":"00:00:02,000"}}
    ]}"#;
    let (text, segs) = whisper_transcript(json).unwrap();
    assert_eq!(text, " Hello world");
    assert_eq!(
        segs,
        vec![
            (" Hello".to_string(), "00:00:00,000".to_string(), "00:00:01,500".to_string()),
            ("world".to_string(), "00:00:01,500".to_string(), "00:00:02,000".to_string()),
        ]
    );
    assert_eq!(whisper_transcript(r#"{"result":1}"#), Ok((String::new(), Vec::new())));
    assert_eq!(whisper_transcript(r#"{"transcription":"x"}"#), Ok((String::new(), Vec::new())));
    assert_eq!(whisper_transcript(r#"{"transcription":[]}"#), Ok((String::new(), Vec::new())));
    let err = whisper_transcript("not json").unwrap_err();
    assert!(err.starts_with("Invalid JSON: "));
    assert!(err.len() > "Invalid JSON: ".len());
    assert_eq!(batch_error_text("boom"), "[ERROR] boom");
}

#[test]
fn transcript_from_parsed_output() {
    let seg = |t: Option<&str>, f: Option<&str>, e: Option<&str>| RawSegment {
        text: t.map(|x| x.to_string()),
        from: f.map(|x| x.to_string()),
        to: e.map(|x| x.to_string()),
    };
    let parsed = Ok(Some(vec![
        seg(Some("a"), Some("0"), Some("1")),
        seg(None, Some("1"), Some("2")),
        seg(Some("b"), Some("2"), Some("3")),
        seg(Some("c"), Some("3"), Some("4")),
    ]));
    let (text, segs) = transcript_from(parsed).unwrap();
    assert_eq!(text, "a b c");
    assert_eq!(segs.len(), 3);
    assert_eq!(transcript_from(Err("eof".to_string())), Err("Invalid JSON: eof".to_string()));
    assert_eq!(transcript_from(Ok(None)), Ok((String::new(), Vec::new())));
}

#[test]
fn extraction_ignores_letter_case() {
    for p in ["clip.mp4", "dir/a.wmv", "notes.txt", "x.flv", "c:\\v\\film.mov", "noext"] {
        assert_eq!(needs_extraction(p), needs_extraction(&p.to_ascii_uppercase()));
    }
}

#[test]
fn windows_prefixes() {
    assert_eq!(file_name_of("\\\\server\\share.mp4"), "");
    assert!(!needs_extraction("\\\\server\\share.mp4"));
    assert_eq!(file_name_of("\\\\server\\share\\clip.mp4"), "clip.mp4");
    assert!(needs_extraction("//server/share/clip.MKV"));
    assert_eq!(file_name_of("\\\\.\\pipe\\x.mp4"), "x.mp4");
    assert_eq!(file_name_of("\\\\?\\C:\\videos\\a.mp4"), "a.mp4");
    assert_eq!(file_name_of("\\\\?\\C:\\videos/a.mp4"), "videos/a.mp4");
    assert!(needs_extraction("\\\\?\\C:\\videos/a.mp4"));
    assert_eq!(file_name_of("\\\\?\\C:\\x\\."), "");
    assert_eq!(file_name_of("\\\\?\\UNC\\srv\\share"), "");
    assert_eq!(file_name_of("\\\\?\\UNC\\srv\\share\\f.avi"), "f.avi");
    assert_eq!(file_name_of("\\\\?\\tmp"), "");
    assert_eq!(file_name_of("\\\\server"), "server");
    assert_eq!(file_name_of("\\\\server\\"), "server");
    assert!(needs_extraction("\\\\?\\unc\\a.mp4"));
    assert!(!needs_extraction("\\\\?\\UNC\\A.MP4"));
}
