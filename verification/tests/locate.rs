use swt2::api_server::api_model_list;
use swt2::locate::{
    bundled_tool_candidates, is_usable_sidecar_size, model_folder_candidates, project_markers, sidecar_candidates,
    tool_exe_name,
};
use swt2::speech::{chat_messages, check_synthesis_text};

fn parts(v: &[&str]) -> Vec<String> {
    v.iter().map(|s| s.to_string()).collect()
}

#[test]
fn tool_candidates_in_order() {
    let exe = tool_exe_name("ffmpeg");
    assert_eq!(exe, "ffmpeg.exe");
    let c = bundled_tool_candidates(&exe);
    let got: Vec<(bool, Vec<String>)> = c.into_iter().map(|c| (c.from_parent, c.parts)).collect();
    assert_eq!(
        got,
        vec![
            (false, parts(&["tools", "ffmpeg.exe"])),
            (false, parts(&["ffmpeg.exe"])),
            (true, parts(&["swt", "tools", "ffmpeg.exe"])),
            (false, parts(&["binaries", "ffmpeg.exe"])),
        ]
    );
}

#[test]
fn sidecar_candidates_follow_the_naming_convention() {
    assert_eq!(
        sidecar_candidates(),
        vec![
            parts(&["binaries", "audiocpp_server-x86_64-pc-windows-gnu.exe"]),
            parts(&["binaries", "audiocpp_server-x86_64-pc-windows-msvc.exe"]),
            parts(&["binaries", "audiocpp_server.exe"]),
            parts(&["binaries", "whisper-cli.exe"]),
            parts(&["target", "debug", "audiocpp_server.exe"]),
        ]
    );
    assert!(!is_usable_sidecar_size(1000));
    assert!(is_usable_sidecar_size(1001));
    assert!(!is_usable_sidecar_size(0));
}

#[test]
fn model_folder_candidates_in_order() {
    assert_eq!(model_folder_candidates(), vec![parts(&["llm"]), parts(&["swt", "llm"])]);
    assert_eq!(project_markers(), parts(&["src-tauri", "Cargo.toml"]));
}

#[test]
fn api_models_list_the_catalog() {
    let all = api_model_list(&Vec::new());
    let catalog = swt2::model_registry::all_models();
    assert_eq!(all.len(), catalog.len());
    for (e, m) in all.iter().zip(catalog.iter()) {
        assert_eq!(e.id, m.name);
        assert_eq!(e.object, "model");
        assert_eq!(e.owned_by, m.id.split('/').next().unwrap());
        assert_eq!(e.category, m.category);
        assert_eq!(e.languages, m.languages);
    }
    assert!(all.iter().any(|e| e.owned_by != e.id));
}

#[test]
fn blank_texts_are_not_synthesized() {
    assert_eq!(check_synthesis_text("  \n\t"), Err("Text is empty".to_string()));
    assert_eq!(check_synthesis_text(""), Err("Text is empty".to_string()));
    assert_eq!(check_synthesis_text(" hi "), Ok(()));
}

#[test]
fn chat_messages_in_order() {
    let m = chat_messages("sys", vec!["u1", "a1"], "u2");
    assert_eq!(m, vec!["sys", "u1", "a1", "u2"]);
    assert_eq!(chat_messages(1, Vec::new(), 2), vec![1, 2]);
}
