use swt2::downloads::{download_items, model_dir_for};
use swt2::model_registry::{all_models, find_model, get_models_with_status, has_model_files};

#[test]
fn catalog_has_every_model_once() {
    let models = all_models();
    assert_eq!(models.len(), 41);
    for (i, a) in models.iter().enumerate() {
        for b in models.iter().skip(i + 1) {
            assert_ne!(a.id, b.id);
        }
    }
}

#[test]
fn catalog_first_entry_is_small_qwen_asr() {
    let models = all_models();
    let m = &models[0];
    assert_eq!(m.id, "Qwen/Qwen3-ASR-0.6B-GGUF");
    assert_eq!(m.name, "Qwen3-ASR 0.6B (GGUF)");
    assert_eq!(m.category, "asr_cpp");
    assert_eq!(m.local_dir_name, "Qwen3-ASR-0.6B-GGUF");
    assert_eq!(m.gguf_filename, "qwen3-asr-0.6b.Q5_K_M.gguf");
    assert_eq!(m.download_mode, "gguf");
    assert_eq!(m.languages.len(), 30);
    assert_eq!(m.languages[0], "zh");
    assert_eq!(m.languages[29], "mk");
    assert!(m.config_filenames.is_empty());
    assert!(!m.downloaded);
}

#[test]
fn catalog_entries_are_well_formed() {
    let cats = ["asr_cpp", "tts", "vad", "diar", "align", "vc", "codec", "music", "sep"];
    for m in all_models() {
        assert!(cats.contains(&m.category.as_str()), "{}", m.id);
        assert!(!m.local_dir_name.is_empty());
        let safetensors = m.download_mode == "safetensors";
        assert_eq!(safetensors, m.gguf_repo_id.is_empty());
        assert_eq!(safetensors, m.gguf_filename.is_empty());
        let multi = m.download_mode == "gguf_multi";
        assert_eq!(multi, !m.config_repo_id.is_empty());
        assert_eq!(multi, !m.config_filenames.is_empty());
    }
}

#[test]
fn find_model_by_id() {
    let m = find_model("Nvidia/Nemotron-ASR-GGUF").unwrap();
    assert_eq!(m.download_mode, "gguf_multi");
    assert_eq!(m.config_repo_id, "nvidia/nemotron-3.5-asr-streaming-0.6b");
    assert_eq!(m.config_filenames, vec!["config.json", "processor_config.json", "tokenizer.json"]);
    assert!(find_model("nope/none").is_none());
    for m in all_models() {
        let found = find_model(&m.id).unwrap();
        assert_eq!(found.local_dir_name, m.local_dir_name);
    }
}

#[test]
fn listing_by_category() {
    let local: Vec<String> = vec!["Qwen3-TTS-0.6B-GGUF".to_string(), "unrelated".to_string()];
    let tts = get_models_with_status(Some("tts"), &local);
    assert_eq!(tts.len(), 20);
    assert!(tts.iter().all(|m| m.category == "tts"));
    assert_eq!(tts.iter().filter(|m| m.downloaded).count(), 1);
    assert!(tts[0].downloaded);
    assert_eq!(tts[0].id, "Qwen/Qwen3-TTS-0.6B-GGUF");
    let music = get_models_with_status(Some("music"), &local);
    assert_eq!(music.len(), 5);
    assert!(get_models_with_status(Some("unknown"), &local).is_empty());
}

#[test]
fn listing_without_filter_marks_local_models() {
    let local: Vec<String> = vec!["Silero-VAD".to_string(), "HTDemucs".to_string()];
    let all = get_models_with_status(None, &local);
    assert_eq!(all.len(), 41);
    let marked: Vec<&str> = all.iter().filter(|m| m.downloaded).map(|m| m.id.as_str()).collect();
    assert_eq!(marked, vec!["Silero/Silero-VAD", "HTDemucs/HTDemucs"]);
    let none = get_models_with_status(None, &Vec::new());
    assert!(none.iter().all(|m| !m.downloaded));
}

#[test]
fn model_directory_detection() {
    let names = vec!["readme.md".to_string(), "model.Q8_0.gguf".to_string()];
    assert!(has_model_files(&names, false));
    let names = vec!["readme.md".to_string(), "model.gguf.part".to_string()];
    assert!(!has_model_files(&names, false));
    assert!(has_model_files(&names, true));
    assert!(!has_model_files(&Vec::new(), false));
}

#[test]
fn model_directory_for_delete() {
    assert_eq!(model_dir_for("Silero/Silero-VAD").unwrap(), "Silero-VAD");
    assert_eq!(model_dir_for("x/y").unwrap_err(), "Unknown model: x/y");
}

#[test]
fn download_items_for_single_and_multi_file_models() {
    let m = find_model("Qwen/Qwen3-ASR-1.7B-GGUF").unwrap();
    let items = download_items(&m);
    assert_eq!(items.len(), 1);
    assert_eq!(
        items[0].url,
        "https://huggingface.co/Qwen/Qwen3-ASR-1.7B-GGUF/resolve/main/qwen3-asr-1.7b.Q5_K_M.gguf"
    );
    assert_eq!(items[0].file_name, "qwen3-asr-1.7b.Q5_K_M.gguf");
    assert!(items[0].required);

    let m = find_model("Nvidia/Nemotron-ASR-GGUF").unwrap();
    let items = download_items(&m);
    assert_eq!(items.len(), 4);
    assert_eq!(
        items[0].url,
        "https://huggingface.co/0x3/nemotron-3.5-asr-streaming-0.6b-GGUF/resolve/main/nemotron-3.5-asr-streaming-0.6b-q4_k.gguf"
    );
    assert!(items[0].required);
    assert_eq!(
        items[2].url,
        "https://huggingface.co/nvidia/nemotron-3.5-asr-streaming-0.6b/resolve/main/processor_config.json"
    );
    assert_eq!(items[3].file_name, "tokenizer.json");
    assert!(!items[1].required && !items[2].required && !items[3].required);
}
