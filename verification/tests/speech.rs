use swt2::speech::{reply_content, reply_content_from};
use swt2::api_server::{listen_address, model_owner, ServerState};
use swt2::speech::{
    assistant_reply, bearer_header, chat_completions_url, get_voices, quote_escape, sapi_script, ConversationTurn, TurnStage,
};

fn events(es: &[swt2::speech::ConversationEvent]) -> Vec<(String, String, Option<String>)> {
    es.iter().map(|e| (e.event_type.clone(), e.text.clone(), e.audio_path.clone())).collect()
}

#[test]
fn speech_script() {
    let s = sapi_script("C:\\Temp", "say \"hi\"");
    assert_eq!(
        s,
        "Add-Type -AssemblyName System.Speech; $s = New-Object System.Speech.Synthesis.SpeechSynthesizer; \
         $s.SetOutputToWaveFile('C:\\\\Temp\\swt2_tts.wav'); $s.Speak('say ''hi''')"
    );
    assert!(!s.contains('"'));
}

#[test]
fn language_model_request() {
    assert_eq!(chat_completions_url("https://api.deepseek.com/v1"), "https://api.deepseek.com/v1/chat/completions");
    assert_eq!(chat_completions_url("http://h/v1///"), "http://h/v1/chat/completions");
    assert_eq!(bearer_header("k1").unwrap(), "Bearer k1");
    assert!(bearer_header("").is_none());
    assert_eq!(assistant_reply(Some("hello".to_string())), "hello");
    assert_eq!(assistant_reply(None), "Sorry, I cannot respond.");
    assert_eq!(get_voices("any").unwrap(), vec!["default".to_string()]);
}

#[test]
fn conversation_turn_events() {
    let (mut t, es) = ConversationTurn::start();
    assert_eq!(events(&es), vec![("status".into(), "recognizing...".into(), None)]);
    let es = t.on_transcript("你好");
    assert_eq!(events(&es), vec![("user_text".into(), "你好".into(), None), ("status".into(), "thinking...".into(), None)]);
    assert!(matches!(t.stage, TurnStage::Thinking));
    let es = t.on_reply(None);
    assert_eq!(
        events(&es),
        vec![
            ("assistant_text".into(), "Sorry, I cannot respond.".into(), None),
            ("status".into(), "synthesizing...".into(), None)
        ]
    );
    let es = t.on_audio(Some("/tmp/a.wav".to_string()));
    assert_eq!(
        events(&es),
        vec![
            ("assistant_audio".into(), "".into(), Some("/tmp/a.wav".to_string())),
            ("turn_done".into(), "".into(), None)
        ]
    );
    assert!(matches!(t.stage, TurnStage::Finished));
}

#[test]
fn blank_transcript_ends_the_turn() {
    let (mut t, _) = ConversationTurn::start();
    let es = t.on_transcript(" \t\u{3000}\n");
    assert_eq!(events(&es), vec![("error".into(), "no speech detected".into(), None)]);
    assert!(matches!(t.stage, TurnStage::Finished));
}

#[test]
fn api_access() {
    let open = ServerState::new(8080, String::new());
    assert_eq!(open.cpp_host, "http://127.0.0.1:8080");
    assert!(open.api_key.is_none());
    assert!(open.authorize(None));
    assert!(open.authorize(Some("anything")));
    let locked = ServerState::new(9001, "k".to_string());
    assert!(locked.authorize(Some("k")));
    assert!(!locked.authorize(Some("K")));
    assert!(!locked.authorize(None));
    assert_eq!(locked.endpoint("/v1/audio/speech"), "http://127.0.0.1:9001/v1/audio/speech");
    assert_eq!(listen_address(8000), "127.0.0.1:8000");
    assert_eq!(listen_address(0), "127.0.0.1:0");
}

#[test]
fn model_owners() {
    assert_eq!(model_owner("Qwen/Qwen3-ASR-0.6B-GGUF"), "Qwen");
    assert_eq!(model_owner("plain"), "plain");
    assert_eq!(model_owner("/lead"), "");
    assert_eq!(model_owner("a/b/c"), "a");
}

#[test]
fn speech_script_escapes_only_double_quotes() {
    assert_eq!(quote_escape("say \"hi\""), "say ''hi''");
    assert_eq!(quote_escape("it's"), "it's");
    assert_eq!(quote_escape("'\"x"), "'''x");
    assert_eq!(quote_escape(""), "");
    let s = sapi_script("T", "don't");
    assert!(s.ends_with("$s.Speak('don't')"));
}

#[test]
fn language_model_reply_content() {
    let body = r#"{"choices":[{"message":{"role":"assistant","content":"Hi there"}}]}"#;
    assert_eq!(reply_content(body), Ok(Some("Hi there".to_string())));
    assert_eq!(reply_content(r#"{"choices":[]}"#), Ok(None));
    assert_eq!(reply_content(r#"{"choices":[{"message":{"content":null}}]}"#), Ok(None));
    assert_eq!(reply_content(r#"[1,2]"#), Ok(None));
    assert_eq!(reply_content("<html>"), Err("error decoding response body".to_string()));
    assert_eq!(reply_content_from(Err("eof".to_string())), Err("error decoding response body".to_string()));
    assert_eq!(reply_content_from(Ok(Some("x".to_string()))), Ok(Some("x".to_string())));
}
