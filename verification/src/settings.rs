//! Changing single configuration values by dotted key, and the copy of the
//! configuration that is shown to the user interface.
use vstd::prelude::*;

use crate::config::{
    AdvancedSection, ApiServerSection, AppConfig, AsrSection, ConversationSection,
    EnhanceSection, ExportSection, LlmSection, SystemSection, TtsSection, UiSection,
    UpdaterSection, VadSection, VoiceInputSection,
};
use crate::text::same_text;

verus! {

/// A setting value as it arrives from the user interface (a JSON value),
/// reduced to what the setting rules read: its text when it is a JSON
/// string, its truth value when it is a JSON boolean, and what the JSON
/// converter gives when asked for each numeric field type (the number, or
/// the converter's error message). Floating-point results are kept as the
/// bit pattern of the double.
pub struct SettingValue {
    pub text: Option<String>,
    pub flag: Option<bool>,
    pub as_u16: Result<u16, String>,
    pub as_u32: Result<u32, String>,
    pub as_f64_bits: Result<u64, String>,
}

/// The string a value holds, or the refusal for a non-string value.
pub open spec fn text_of(v: SettingValue) -> Result<String, Seq<char>> {
    match v.text {
        Some(s) => Ok(s),
        None => Err("Expected string value"@),
    }
}

/// The boolean a value holds, or the refusal for a non-boolean value.
pub open spec fn flag_of(v: SettingValue) -> Result<bool, Seq<char>> {
    match v.flag {
        Some(b) => Ok(b),
        None => Err("Expected boolean value"@),
    }
}

/// The value as a 16-bit unsigned number, or the converter's message.
pub open spec fn u16_of(v: SettingValue) -> Result<u16, Seq<char>> {
    match v.as_u16 {
        Ok(n) => Ok(n),
        Err(e) => Err(e@),
    }
}

/// The value as a 32-bit unsigned number, or the converter's message.
pub open spec fn u32_of(v: SettingValue) -> Result<u32, Seq<char>> {
    match v.as_u32 {
        Ok(n) => Ok(n),
        Err(e) => Err(e@),
    }
}

/// The value as a double (its bit pattern), or the converter's message.
pub open spec fn f64_bits_of(v: SettingValue) -> Result<u64, Seq<char>> {
    match v.as_f64_bits {
        Ok(n) => Ok(n),
        Err(e) => Err(e@),
    }
}

/// The refusal for a key that names no setting.
pub open spec fn unknown_key_message(key: Seq<char>) -> Seq<char> {
    "Unknown config key: "@ + key
}

/// Takes the string out of a value.
pub fn str_val(v: SettingValue) -> (r: Result<String, String>)
    ensures
        match r {
            Ok(s) => text_of(v) == Ok::<String, Seq<char>>(s),
            Err(e) => text_of(v) == Err::<String, Seq<char>>(e@),
        },
{
    match v.text {
        Some(s) => Ok(s),
        None => Err("Expected string value".to_owned()),
    }
}

/// Takes the boolean out of a value.
pub fn bool_val(v: SettingValue) -> (r: Result<bool, String>)
    ensures
        match r {
            Ok(b) => flag_of(v) == Ok::<bool, Seq<char>>(b),
            Err(e) => flag_of(v) == Err::<bool, Seq<char>>(e@),
        },
{
    match v.flag {
        Some(b) => Ok(b),
        None => Err("Expected boolean value".to_owned()),
    }
}

/// Takes the 16-bit number out of a value.
pub fn u16_val(v: SettingValue) -> (r: Result<u16, String>)
    ensures
        match r {
            Ok(n) => u16_of(v) == Ok::<u16, Seq<char>>(n),
            Err(e) => u16_of(v) == Err::<u16, Seq<char>>(e@),
        },
{
    v.as_u16
}

/// Takes the 32-bit number out of a value.
pub fn u32_val(v: SettingValue) -> (r: Result<u32, String>)
    ensures
        match r {
            Ok(n) => u32_of(v) == Ok::<u32, Seq<char>>(n),
            Err(e) => u32_of(v) == Err::<u32, Seq<char>>(e@),
        },
{
    v.as_u32
}

/// Takes the double (its bit pattern) out of a value.
pub fn f64_bits_val(v: SettingValue) -> (r: Result<u64, String>)
    ensures
        match r {
            Ok(n) => f64_bits_of(v) == Ok::<u64, Seq<char>>(n),
            Err(e) => f64_bits_of(v) == Err::<u64, Seq<char>>(e@),
        },
{
    v.as_f64_bits
}

/// The refusal for an unknown key.
fn unknown_key_error(key: &str) -> (e: String)
    ensures
        e@ == unknown_key_message(key@),
{
    let mut e = "Unknown config key: ".to_owned();
    e.append(key);
    e
}

/// The configuration after setting `key` to `value`, or the message the
/// setting is refused with.
pub open spec fn apply_setting(cfg: AppConfig, key: Seq<char>, value: SettingValue) -> Result<AppConfig, Seq<char>> {
    if key == "asr.default_model"@ {
        match text_of(value) {
            Ok(x) => Ok(AppConfig { asr: AsrSection { default_model: x, ..cfg.asr }, ..cfg }),
            Err(e) => Err(e),
        }
    } else if key == "asr.device"@ {
        match text_of(value) {
            Ok(x) => Ok(AppConfig { asr: AsrSection { device: x, ..cfg.asr }, ..cfg }),
            Err(e) => Err(e),
        }
    } else if key == "asr.language"@ {
        match text_of(value) {
            Ok(x) => Ok(AppConfig { asr: AsrSection { language: x, ..cfg.asr }, ..cfg }),
            Err(e) => Err(e),
        }
    } else if key == "tts.default_model"@ {
        match text_of(value) {
            Ok(x) => Ok(AppConfig { tts: TtsSection { default_model: x, ..cfg.tts }, ..cfg }),
            Err(e) => Err(e),
        }
    } else if key == "tts.voice"@ {
        match text_of(value) {
            Ok(x) => Ok(AppConfig { tts: TtsSection { voice: x, ..cfg.tts }, ..cfg }),
            Err(e) => Err(e),
        }
    } else if key == "tts.speed"@ {
        match f64_bits_of(value) {
            Ok(x) => Ok(AppConfig { tts: TtsSection { speed: x, ..cfg.tts }, ..cfg }),
            Err(e) => Err(e),
        }
    } else if key == "ui.theme"@ {
        match text_of(value) {
            Ok(x) => Ok(AppConfig { ui: UiSection { theme: x, ..cfg.ui }, ..cfg }),
            Err(e) => Err(e),
        }
    } else if key == "ui.language"@ {
        match text_of(value) {
            Ok(x) => Ok(AppConfig { ui: UiSection { language: x, ..cfg.ui }, ..cfg }),
            Err(e) => Err(e),
        }
    } else if key == "llm.api_url"@ {
        match text_of(value) {
            Ok(x) => Ok(AppConfig { llm: LlmSection { api_url: x, ..cfg.llm }, ..cfg }),
            Err(e) => Err(e),
        }
    } else if key == "llm.api_key"@ {
        match text_of(value) {
            Ok(x) => Ok(AppConfig { llm: LlmSection { api_key: x, ..cfg.llm }, ..cfg }),
            Err(e) => Err(e),
        }
    } else if key == "llm.model"@ {
        match text_of(value) {
            Ok(x) => Ok(AppConfig { llm: LlmSection { model: x, ..cfg.llm }, ..cfg }),
            Err(e) => Err(e),
        }
    } else if key == "llm.enabled"@ {
        match flag_of(value) {
            Ok(x) => Ok(AppConfig { llm: LlmSection { enabled: x, ..cfg.llm }, ..cfg }),
            Err(e) => Err(e),
        }
    } else if key == "llm.correction_prompt"@ {
        match text_of(value) {
            Ok(x) => Ok(AppConfig { llm: LlmSection { correction_prompt: x, ..cfg.llm }, ..cfg }),
            Err(e) => Err(e),
        }
    } else if key == "export.output_dir"@ {
        match text_of(value) {
            Ok(x) => Ok(AppConfig { export: ExportSection { output_dir: x, ..cfg.export }, ..cfg }),
            Err(e) => Err(e),
        }
    } else if key == "advanced.auto_save_history"@ {
        match flag_of(value) {
            Ok(x) => Ok(AppConfig { advanced: AdvancedSection { auto_save_history: x, ..cfg.advanced }, ..cfg }),
            Err(e) => Err(e),
        }
    } else if key == "api_server.port"@ {
        match u16_of(value) {
            Ok(x) => Ok(AppConfig { api_server: ApiServerSection { port: x, ..cfg.api_server }, ..cfg }),
            Err(e) => Err(e),
        }
    } else if key == "api_server.api_key"@ {
        match text_of(value) {
            Ok(x) => Ok(AppConfig { api_server: ApiServerSection { api_key: x, ..cfg.api_server }, ..cfg }),
            Err(e) => Err(e),
        }
    } else if key == "conversation.llm_system_prompt"@ {
        match text_of(value) {
            Ok(x) => Ok(AppConfig { conversation: ConversationSection { llm_system_prompt: x, ..cfg.conversation }, ..cfg }),
            Err(e) => Err(e),
        }
    } else if key == "conversation.vad_mode"@ {
        match text_of(value) {
            Ok(x) => Ok(AppConfig { conversation: ConversationSection { vad_mode: x, ..cfg.conversation }, ..cfg }),
            Err(e) => Err(e),
        }
    } else if key == "conversation.vad_energy_threshold"@ {
        match f64_bits_of(value) {
            Ok(x) => Ok(AppConfig { conversation: ConversationSection { vad_energy_threshold: x, ..cfg.conversation }, ..cfg }),
            Err(e) => Err(e),
        }
    } else if key == "voice_input.enabled"@ {
        match flag_of(value) {
            Ok(x) => Ok(AppConfig { voice_input: VoiceInputSection { enabled: x, ..cfg.voice_input }, ..cfg }),
            Err(e) => Err(e),
        }
    } else if key == "voice_input.hotkey"@ {
        match text_of(value) {
            Ok(x) => Ok(AppConfig { voice_input: VoiceInputSection { hotkey: x, ..cfg.voice_input }, ..cfg }),
            Err(e) => Err(e),
        }
    } else if key == "vad.min_silence_duration_ms"@ {
        match u32_of(value) {
            Ok(x) => Ok(AppConfig { vad: VadSection { min_silence_duration_ms: x, ..cfg.vad }, ..cfg }),
            Err(e) => Err(e),
        }
    } else if key == "vad.max_segment_time"@ {
        match u32_of(value) {
            Ok(x) => Ok(AppConfig { vad: VadSection { max_segment_time: x, ..cfg.vad }, ..cfg }),
            Err(e) => Err(e),
        }
    } else if key == "enhance.denoise"@ {
        match text_of(value) {
            Ok(x) => Ok(AppConfig { enhance: EnhanceSection { denoise: x, ..cfg.enhance }, ..cfg }),
            Err(e) => Err(e),
        }
    } else if key == "enhance.aec"@ {
        match text_of(value) {
            Ok(x) => Ok(AppConfig { enhance: EnhanceSection { aec: x, ..cfg.enhance }, ..cfg }),
            Err(e) => Err(e),
        }
    } else if key == "enhance.separation"@ {
        match text_of(value) {
            Ok(x) => Ok(AppConfig { enhance: EnhanceSection { separation: x, ..cfg.enhance }, ..cfg }),
            Err(e) => Err(e),
        }
    } else if key == "enhance.punctuation"@ {
        match text_of(value) {
            Ok(x) => Ok(AppConfig { enhance: EnhanceSection { punctuation: x, ..cfg.enhance }, ..cfg }),
            Err(e) => Err(e),
        }
    } else if key == "system.initialized"@ {
        match flag_of(value) {
            Ok(x) => Ok(AppConfig { system: SystemSection { initialized: x, ..cfg.system }, ..cfg }),
            Err(e) => Err(e),
        }
    } else if key == "updater.auto_check"@ {
        match flag_of(value) {
            Ok(x) => Ok(AppConfig { updater: UpdaterSection { auto_check: x, ..cfg.updater }, ..cfg }),
            Err(e) => Err(e),
        }
    } else {
        Err(unknown_key_message(key))
    }
}

/// Sets one configuration value addressed by a dotted key such as
/// `"asr.device"` or `"ui.theme"`. A refused value or an unknown key leaves
/// the configuration unchanged.
pub fn set_nested(cfg: &mut AppConfig, key: &str, value: SettingValue) -> (r: Result<(), String>)
    ensures
        match r {
            Ok(()) => apply_setting(*old(cfg), key@, value) == Ok::<AppConfig, Seq<char>>(*final(cfg)),
            Err(e) => apply_setting(*old(cfg), key@, value) == Err::<AppConfig, Seq<char>>(e@)
                && *final(cfg) == *old(cfg),
        },
{
    if same_text(key, "asr.default_model") {
        cfg.asr.default_model = str_val(value)?;
    } else if same_text(key, "asr.device") {
        cfg.asr.device = str_val(value)?;
    } else if same_text(key, "asr.language") {
        cfg.asr.language = str_val(value)?;
    } else if same_text(key, "tts.default_model") {
        cfg.tts.default_model = str_val(value)?;
    } else if same_text(key, "tts.voice") {
        cfg.tts.voice = str_val(value)?;
    } else if same_text(key, "tts.speed") {
        cfg.tts.speed = f64_bits_val(value)?;
    } else if same_text(key, "ui.theme") {
        cfg.ui.theme = str_val(value)?;
    } else if same_text(key, "ui.language") {
        cfg.ui.language = str_val(value)?;
    } else if same_text(key, "llm.api_url") {
        cfg.llm.api_url = str_val(value)?;
    } else if same_text(key, "llm.api_key") {
        cfg.llm.api_key = str_val(value)?;
    } else if same_text(key, "llm.model") {
        cfg.llm.model = str_val(value)?;
    } else if same_text(key, "llm.enabled") {
        cfg.llm.enabled = bool_val(value)?;
    } else if same_text(key, "llm.correction_prompt") {
        cfg.llm.correction_prompt = str_val(value)?;
    } else if same_text(key, "export.output_dir") {
        cfg.export.output_dir = str_val(value)?;
    } else if same_text(key, "advanced.auto_save_history") {
        cfg.advanced.auto_save_history = bool_val(value)?;
    } else if same_text(key, "api_server.port") {
        cfg.api_server.port = u16_val(value)?;
    } else if same_text(key, "api_server.api_key") {
        cfg.api_server.api_key = str_val(value)?;
    } else if same_text(key, "conversation.llm_system_prompt") {
        cfg.conversation.llm_system_prompt = str_val(value)?;
    } else if same_text(key, "conversation.vad_mode") {
        cfg.conversation.vad_mode = str_val(value)?;
    } else if same_text(key, "conversation.vad_energy_threshold") {
        cfg.conversation.vad_energy_threshold = f64_bits_val(value)?;
    } else if same_text(key, "voice_input.enabled") {
        cfg.voice_input.enabled = bool_val(value)?;
    } else if same_text(key, "voice_input.hotkey") {
        cfg.voice_input.hotkey = str_val(value)?;
    } else if same_text(key, "vad.min_silence_duration_ms") {
        cfg.vad.min_silence_duration_ms = u32_val(value)?;
    } else if same_text(key, "vad.max_segment_time") {
        cfg.vad.max_segment_time = u32_val(value)?;
    } else if same_text(key, "enhance.denoise") {
        cfg.enhance.denoise = str_val(value)?;
    } else if same_text(key, "enhance.aec") {
        cfg.enhance.aec = str_val(value)?;
    } else if same_text(key, "enhance.separation") {
        cfg.enhance.separation = str_val(value)?;
    } else if same_text(key, "enhance.punctuation") {
        cfg.enhance.punctuation = str_val(value)?;
    } else if same_text(key, "system.initialized") {
        cfg.system.initialized = bool_val(value)?;
    } else if same_text(key, "updater.auto_check") {
        cfg.updater.auto_check = bool_val(value)?;
    } else {
        return Err(unknown_key_error(key));
    }
    Ok(())
}
/// The setting keys are pairwise different.
proof fn lemma_setting_keys_distinct()
    ensures
        forall|a: int, b: int| 0 <= a < b < setting_keys().len() ==> #[trigger] setting_keys()[a] != #[trigger] setting_keys()[b],
{
    reveal_strlit("asr.default_model");
    reveal_strlit("asr.device");
    reveal_strlit("asr.language");
    reveal_strlit("tts.default_model");
    reveal_strlit("tts.voice");
    reveal_strlit("tts.speed");
    reveal_strlit("ui.theme");
    reveal_strlit("ui.language");
    reveal_strlit("llm.api_url");
    reveal_strlit("llm.api_key");
    reveal_strlit("llm.model");
    reveal_strlit("llm.enabled");
    reveal_strlit("llm.correction_prompt");
    reveal_strlit("export.output_dir");
    reveal_strlit("advanced.auto_save_history");
    reveal_strlit("api_server.port");
    reveal_strlit("api_server.api_key");
    reveal_strlit("conversation.llm_system_prompt");
    reveal_strlit("conversation.vad_mode");
    reveal_strlit("conversation.vad_energy_threshold");
    reveal_strlit("voice_input.enabled");
    reveal_strlit("voice_input.hotkey");
    reveal_strlit("vad.min_silence_duration_ms");
    reveal_strlit("vad.max_segment_time");
    reveal_strlit("enhance.denoise");
    reveal_strlit("enhance.aec");
    reveal_strlit("enhance.separation");
    reveal_strlit("enhance.punctuation");
    reveal_strlit("system.initialized");
    reveal_strlit("updater.auto_check");
    assert("asr.default_model"@.len() != "asr.device"@.len());
    assert("asr.default_model"@.len() != "asr.language"@.len());
    assert("asr.device"@.len() != "asr.language"@.len());
    assert("asr.default_model"@[0] != "tts.default_model"@[0]);
    assert("asr.device"@.len() != "tts.default_model"@.len());
    assert("asr.language"@.len() != "tts.default_model"@.len());
    assert("asr.default_model"@.len() != "tts.voice"@.len());
    assert("asr.device"@.len() != "tts.voice"@.len());
    assert("asr.language"@.len() != "tts.voice"@.len());
    assert("tts.default_model"@.len() != "tts.voice"@.len());
    assert("asr.default_model"@.len() != "tts.speed"@.len());
    assert("asr.device"@.len() != "tts.speed"@.len());
    assert("asr.language"@.len() != "tts.speed"@.len());
    assert("tts.default_model"@.len() != "tts.speed"@.len());
    assert("tts.voice"@[4] != "tts.speed"@[4]);
    assert("asr.default_model"@.len() != "ui.theme"@.len());
    assert("asr.device"@.len() != "ui.theme"@.len());
    assert("asr.language"@.len() != "ui.theme"@.len());
    assert("tts.default_model"@.len() != "ui.theme"@.len());
    assert("tts.voice"@.len() != "ui.theme"@.len());
    assert("tts.speed"@.len() != "ui.theme"@.len());
    assert("asr.default_model"@.len() != "ui.language"@.len());
    assert("asr.device"@.len() != "ui.language"@.len());
    assert("asr.language"@.len() != "ui.language"@.len());
    assert("tts.default_model"@.len() != "ui.language"@.len());
    assert("tts.voice"@.len() != "ui.language"@.len());
    assert("tts.speed"@.len() != "ui.language"@.len());
    assert("ui.theme"@.len() != "ui.language"@.len());
    assert("asr.default_model"@.len() != "llm.api_url"@.len());
    assert("asr.device"@.len() != "llm.api_url"@.len());
    assert("asr.language"@.len() != "llm.api_url"@.len());
    assert("tts.default_model"@.len() != "llm.api_url"@.len());
    assert("tts.voice"@.len() != "llm.api_url"@.len());
    assert("tts.speed"@.len() != "llm.api_url"@.len());
    assert("ui.theme"@.len() != "llm.api_url"@.len());
    assert("ui.language"@[0] != "llm.api_url"@[0]);
    assert("asr.default_model"@.len() != "llm.api_key"@.len());
    assert("asr.device"@.len() != "llm.api_key"@.len());
    assert("asr.language"@.len() != "llm.api_key"@.len());
    assert("tts.default_model"@.len() != "llm.api_key"@.len());
    assert("tts.voice"@.len() != "llm.api_key"@.len());
    assert("tts.speed"@.len() != "llm.api_key"@.len());
    assert("ui.theme"@.len() != "llm.api_key"@.len());
    assert("ui.language"@[0] != "llm.api_key"@[0]);
    assert("llm.api_url"@[8] != "llm.api_key"@[8]);
    assert("asr.default_model"@.len() != "llm.model"@.len());
    assert("asr.device"@.len() != "llm.model"@.len());
    assert("asr.language"@.len() != "llm.model"@.len());
    assert("tts.default_model"@.len() != "llm.model"@.len());
    assert("tts.voice"@[0] != "llm.model"@[0]);
    assert("tts.speed"@[0] != "llm.model"@[0]);
    assert("ui.theme"@.len() != "llm.model"@.len());
    assert("ui.language"@.len() != "llm.model"@.len());
    assert("llm.api_url"@.len() != "llm.model"@.len());
    assert("llm.api_key"@.len() != "llm.model"@.len());
    assert("asr.default_model"@.len() != "llm.enabled"@.len());
    assert("asr.device"@.len() != "llm.enabled"@.len());
    assert("asr.language"@.len() != "llm.enabled"@.len());
    assert("tts.default_model"@.len() != "llm.enabled"@.len());
    assert("tts.voice"@.len() != "llm.enabled"@.len());
    assert("tts.speed"@.len() != "llm.enabled"@.len());
    assert("ui.theme"@.len() != "llm.enabled"@.len());
    assert("ui.language"@[0] != "llm.enabled"@[0]);
    assert("llm.api_url"@[4] != "llm.enabled"@[4]);
    assert("llm.api_key"@[4] != "llm.enabled"@[4]);
    assert("llm.model"@.len() != "llm.enabled"@.len());
    assert("asr.default_model"@.len() != "llm.correction_prompt"@.len());
    assert("asr.device"@.len() != "llm.correction_prompt"@.len());
    assert("asr.language"@.len() != "llm.correction_prompt"@.len());
    assert("tts.default_model"@.len() != "llm.correction_prompt"@.len());
    assert("tts.voice"@.len() != "llm.correction_prompt"@.len());
    assert("tts.speed"@.len() != "llm.correction_prompt"@.len());
    assert("ui.theme"@.len() != "llm.correction_prompt"@.len());
    assert("ui.language"@.len() != "llm.correction_prompt"@.len());
    assert("llm.api_url"@.len() != "llm.correction_prompt"@.len());
    assert("llm.api_key"@.len() != "llm.correction_prompt"@.len());
    assert("llm.model"@.len() != "llm.correction_prompt"@.len());
    assert("llm.enabled"@.len() != "llm.correction_prompt"@.len());
    assert("asr.default_model"@[0] != "export.output_dir"@[0]);
    assert("asr.device"@.len() != "export.output_dir"@.len());
    assert("asr.language"@.len() != "export.output_dir"@.len());
    assert("tts.default_model"@[0] != "export.output_dir"@[0]);
    assert("tts.voice"@.len() != "export.output_dir"@.len());
    assert("tts.speed"@.len() != "export.output_dir"@.len());
    assert("ui.theme"@.len() != "export.output_dir"@.len());
    assert("ui.language"@.len() != "export.output_dir"@.len());
    assert("llm.api_url"@.len() != "export.output_dir"@.len());
    assert("llm.api_key"@.len() != "export.output_dir"@.len());
    assert("llm.model"@.len() != "export.output_dir"@.len());
    assert("llm.enabled"@.len() != "export.output_dir"@.len());
    assert("llm.correction_prompt"@.len() != "export.output_dir"@.len());
    assert("asr.default_model"@.len() != "advanced.auto_save_history"@.len());
    assert("asr.device"@.len() != "advanced.auto_save_history"@.len());
    assert("asr.language"@.len() != "advanced.auto_save_history"@.len());
    assert("tts.default_model"@.len() != "advanced.auto_save_history"@.len());
    assert("tts.voice"@.len() != "advanced.auto_save_history"@.len());
    assert("tts.speed"@.len() != "advanced.auto_save_history"@.len());
    assert("ui.theme"@.len() != "advanced.auto_save_history"@.len());
    assert("ui.language"@.len() != "advanced.auto_save_history"@.len());
    assert("llm.api_url"@.len() != "advanced.auto_save_history"@.len());
    assert("llm.api_key"@.len() != "advanced.auto_save_history"@.len());
    assert("llm.model"@.len() != "advanced.auto_save_history"@.len());
    assert("llm.enabled"@.len() != "advanced.auto_save_history"@.len());
    assert("llm.correction_prompt"@.len() != "advanced.auto_save_history"@.len());
    assert("export.output_dir"@.len() != "advanced.auto_save_history"@.len());
    assert("asr.default_model"@.len() != "api_server.port"@.len());
    assert("asr.device"@.len() != "api_server.port"@.len());
    assert("asr.language"@.len() != "api_server.port"@.len());
    assert("tts.default_model"@.len() != "api_server.port"@.len());
    assert("tts.voice"@.len() != "api_server.port"@.len());
    assert("tts.speed"@.len() != "api_server.port"@.len());
    assert("ui.theme"@.len() != "api_server.port"@.len());
    assert("ui.language"@.len() != "api_server.port"@.len());
    assert("llm.api_url"@.len() != "api_server.port"@.len());
    assert("llm.api_key"@.len() != "api_server.port"@.len());
    assert("llm.model"@.len() != "api_server.port"@.len());
    assert("llm.enabled"@.len() != "api_server.port"@.len());
    assert("llm.correction_prompt"@.len() != "api_server.port"@.len());
    assert("export.output_dir"@.len() != "api_server.port"@.len());
    assert("advanced.auto_save_history"@.len() != "api_server.port"@.len());
    assert("asr.default_model"@.len() != "api_server.api_key"@.len());
    assert("asr.device"@.len() != "api_server.api_key"@.len());
    assert("asr.language"@.len() != "api_server.api_key"@.len());
    assert("tts.default_model"@.len() != "api_server.api_key"@.len());
    assert("tts.voice"@.len() != "api_server.api_key"@.len());
    assert("tts.speed"@.len() != "api_server.api_key"@.len());
    assert("ui.theme"@.len() != "api_server.api_key"@.len());
    assert("ui.language"@.len() != "api_server.api_key"@.len());
    assert("llm.api_url"@.len() != "api_server.api_key"@.len());
    assert("llm.api_key"@.len() != "api_server.api_key"@.len());
    assert("llm.model"@.len() != "api_server.api_key"@.len());
    assert("llm.enabled"@.len() != "api_server.api_key"@.len());
    assert("llm.correction_prompt"@.len() != "api_server.api_key"@.len());
    assert("export.output_dir"@.len() != "api_server.api_key"@.len());
    assert("advanced.auto_save_history"@.len() != "api_server.api_key"@.len());
    assert("api_server.port"@.len() != "api_server.api_key"@.len());
    assert("asr.default_model"@.len() != "conversation.llm_system_prompt"@.len());
    assert("asr.device"@.len() != "conversation.llm_system_prompt"@.len());
    assert("asr.language"@.len() != "conversation.llm_system_prompt"@.len());
    assert("tts.default_model"@.len() != "conversation.llm_system_prompt"@.len());
    assert("tts.voice"@.len() != "conversation.llm_system_prompt"@.len());
    assert("tts.speed"@.len() != "conversation.llm_system_prompt"@.len());
    assert("ui.theme"@.len() != "conversation.llm_system_prompt"@.len());
    assert("ui.language"@.len() != "conversation.llm_system_prompt"@.len());
    assert("llm.api_url"@.len() != "conversation.llm_system_prompt"@.len());
    assert("llm.api_key"@.len() != "conversation.llm_system_prompt"@.len());
    assert("llm.model"@.len() != "conversation.llm_system_prompt"@.len());
    assert("llm.enabled"@.len() != "conversation.llm_system_prompt"@.len());
    assert("llm.correction_prompt"@.len() != "conversation.llm_system_prompt"@.len());
    assert("export.output_dir"@.len() != "conversation.llm_system_prompt"@.len());
    assert("advanced.auto_save_history"@.len() != "conversation.llm_system_prompt"@.len());
    assert("api_server.port"@.len() != "conversation.llm_system_prompt"@.len());
    assert("api_server.api_key"@.len() != "conversation.llm_system_prompt"@.len());
    assert("asr.default_model"@.len() != "conversation.vad_mode"@.len());
    assert("asr.device"@.len() != "conversation.vad_mode"@.len());
    assert("asr.language"@.len() != "conversation.vad_mode"@.len());
    assert("tts.default_model"@.len() != "conversation.vad_mode"@.len());
    assert("tts.voice"@.len() != "conversation.vad_mode"@.len());
    assert("tts.speed"@.len() != "conversation.vad_mode"@.len());
    assert("ui.theme"@.len() != "conversation.vad_mode"@.len());
    assert("ui.language"@.len() != "conversation.vad_mode"@.len());
    assert("llm.api_url"@.len() != "conversation.vad_mode"@.len());
    assert("llm.api_key"@.len() != "conversation.vad_mode"@.len());
    assert("llm.model"@.len() != "conversation.vad_mode"@.len());
    assert("llm.enabled"@.len() != "conversation.vad_mode"@.len());
    assert("llm.correction_prompt"@[0] != "conversation.vad_mode"@[0]);
    assert("export.output_dir"@.len() != "conversation.vad_mode"@.len());
    assert("advanced.auto_save_history"@.len() != "conversation.vad_mode"@.len());
    assert("api_server.port"@.len() != "conversation.vad_mode"@.len());
    assert("api_server.api_key"@.len() != "conversation.vad_mode"@.len());
    assert("conversation.llm_system_prompt"@.len() != "conversation.vad_mode"@.len());
    assert("asr.default_model"@.len() != "conversation.vad_energy_threshold"@.len());
    assert("asr.device"@.len() != "conversation.vad_energy_threshold"@.len());
    assert("asr.language"@.len() != "conversation.vad_energy_threshold"@.len());
    assert("tts.default_model"@.len() != "conversation.vad_energy_threshold"@.len());
    assert("tts.voice"@.len() != "conversation.vad_energy_threshold"@.len());
    assert("tts.speed"@.len() != "conversation.vad_energy_threshold"@.len());
    assert("ui.theme"@.len() != "conversation.vad_energy_threshold"@.len());
    assert("ui.language"@.len() != "conversation.vad_energy_threshold"@.len());
    assert("llm.api_url"@.len() != "conversation.vad_energy_threshold"@.len());
    assert("llm.api_key"@.len() != "conversation.vad_energy_threshold"@.len());
    assert("llm.model"@.len() != "conversation.vad_energy_threshold"@.len());
    assert("llm.enabled"@.len() != "conversation.vad_energy_threshold"@.len());
    assert("llm.correction_prompt"@.len() != "conversation.vad_energy_threshold"@.len());
    assert("export.output_dir"@.len() != "conversation.vad_energy_threshold"@.len());
    assert("advanced.auto_save_history"@.len() != "conversation.vad_energy_threshold"@.len());
    assert("api_server.port"@.len() != "conversation.vad_energy_threshold"@.len());
    assert("api_server.api_key"@.len() != "conversation.vad_energy_threshold"@.len());
    assert("conversation.llm_system_prompt"@.len() != "conversation.vad_energy_threshold"@.len());
    assert("conversation.vad_mode"@.len() != "conversation.vad_energy_threshold"@.len());
    assert("asr.default_model"@.len() != "voice_input.enabled"@.len());
    assert("asr.device"@.len() != "voice_input.enabled"@.len());
    assert("asr.language"@.len() != "voice_input.enabled"@.len());
    assert("tts.default_model"@.len() != "voice_input.enabled"@.len());
    assert("tts.voice"@.len() != "voice_input.enabled"@.len());
    assert("tts.speed"@.len() != "voice_input.enabled"@.len());
    assert("ui.theme"@.len() != "voice_input.enabled"@.len());
    assert("ui.language"@.len() != "voice_input.enabled"@.len());
    assert("llm.api_url"@.len() != "voice_input.enabled"@.len());
    assert("llm.api_key"@.len() != "voice_input.enabled"@.len());
    assert("llm.model"@.len() != "voice_input.enabled"@.len());
    assert("llm.enabled"@.len() != "voice_input.enabled"@.len());
    assert("llm.correction_prompt"@.len() != "voice_input.enabled"@.len());
    assert("export.output_dir"@.len() != "voice_input.enabled"@.len());
    assert("advanced.auto_save_history"@.len() != "voice_input.enabled"@.len());
    assert("api_server.port"@.len() != "voice_input.enabled"@.len());
    assert("api_server.api_key"@.len() != "voice_input.enabled"@.len());
    assert("conversation.llm_system_prompt"@.len() != "voice_input.enabled"@.len());
    assert("conversation.vad_mode"@.len() != "voice_input.enabled"@.len());
    assert("conversation.vad_energy_threshold"@.len() != "voice_input.enabled"@.len());
    assert("asr.default_model"@.len() != "voice_input.hotkey"@.len());
    assert("asr.device"@.len() != "voice_input.hotkey"@.len());
    assert("asr.language"@.len() != "voice_input.hotkey"@.len());
    assert("tts.default_model"@.len() != "voice_input.hotkey"@.len());
    assert("tts.voice"@.len() != "voice_input.hotkey"@.len());
    assert("tts.speed"@.len() != "voice_input.hotkey"@.len());
    assert("ui.theme"@.len() != "voice_input.hotkey"@.len());
    assert("ui.language"@.len() != "voice_input.hotkey"@.len());
    assert("llm.api_url"@.len() != "voice_input.hotkey"@.len());
    assert("llm.api_key"@.len() != "voice_input.hotkey"@.len());
    assert("llm.model"@.len() != "voice_input.hotkey"@.len());
    assert("llm.enabled"@.len() != "voice_input.hotkey"@.len());
    assert("llm.correction_prompt"@.len() != "voice_input.hotkey"@.len());
    assert("export.output_dir"@.len() != "voice_input.hotkey"@.len());
    assert("advanced.auto_save_history"@.len() != "voice_input.hotkey"@.len());
    assert("api_server.port"@.len() != "voice_input.hotkey"@.len());
    assert("api_server.api_key"@[0] != "voice_input.hotkey"@[0]);
    assert("conversation.llm_system_prompt"@.len() != "voice_input.hotkey"@.len());
    assert("conversation.vad_mode"@.len() != "voice_input.hotkey"@.len());
    assert("conversation.vad_energy_threshold"@.len() != "voice_input.hotkey"@.len());
    assert("voice_input.enabled"@.len() != "voice_input.hotkey"@.len());
    assert("asr.default_model"@.len() != "vad.min_silence_duration_ms"@.len());
    assert("asr.device"@.len() != "vad.min_silence_duration_ms"@.len());
    assert("asr.language"@.len() != "vad.min_silence_duration_ms"@.len());
    assert("tts.default_model"@.len() != "vad.min_silence_duration_ms"@.len());
    assert("tts.voice"@.len() != "vad.min_silence_duration_ms"@.len());
    assert("tts.speed"@.len() != "vad.min_silence_duration_ms"@.len());
    assert("ui.theme"@.len() != "vad.min_silence_duration_ms"@.len());
    assert("ui.language"@.len() != "vad.min_silence_duration_ms"@.len());
    assert("llm.api_url"@.len() != "vad.min_silence_duration_ms"@.len());
    assert("llm.api_key"@.len() != "vad.min_silence_duration_ms"@.len());
    assert("llm.model"@.len() != "vad.min_silence_duration_ms"@.len());
    assert("llm.enabled"@.len() != "vad.min_silence_duration_ms"@.len());
    assert("llm.correction_prompt"@.len() != "vad.min_silence_duration_ms"@.len());
    assert("export.output_dir"@.len() != "vad.min_silence_duration_ms"@.len());
    assert("advanced.auto_save_history"@.len() != "vad.min_silence_duration_ms"@.len());
    assert("api_server.port"@.len() != "vad.min_silence_duration_ms"@.len());
    assert("api_server.api_key"@.len() != "vad.min_silence_duration_ms"@.len());
    assert("conversation.llm_system_prompt"@.len() != "vad.min_silence_duration_ms"@.len());
    assert("conversation.vad_mode"@.len() != "vad.min_silence_duration_ms"@.len());
    assert("conversation.vad_energy_threshold"@.len() != "vad.min_silence_duration_ms"@.len());
    assert("voice_input.enabled"@.len() != "vad.min_silence_duration_ms"@.len());
    assert("voice_input.hotkey"@.len() != "vad.min_silence_duration_ms"@.len());
    assert("asr.default_model"@.len() != "vad.max_segment_time"@.len());
    assert("asr.device"@.len() != "vad.max_segment_time"@.len());
    assert("asr.language"@.len() != "vad.max_segment_time"@.len());
    assert("tts.default_model"@.len() != "vad.max_segment_time"@.len());
    assert("tts.voice"@.len() != "vad.max_segment_time"@.len());
    assert("tts.speed"@.len() != "vad.max_segment_time"@.len());
    assert("ui.theme"@.len() != "vad.max_segment_time"@.len());
    assert("ui.language"@.len() != "vad.max_segment_time"@.len());
    assert("llm.api_url"@.len() != "vad.max_segment_time"@.len());
    assert("llm.api_key"@.len() != "vad.max_segment_time"@.len());
    assert("llm.model"@.len() != "vad.max_segment_time"@.len());
    assert("llm.enabled"@.len() != "vad.max_segment_time"@.len());
    assert("llm.correction_prompt"@.len() != "vad.max_segment_time"@.len());
    assert("export.output_dir"@.len() != "vad.max_segment_time"@.len());
    assert("advanced.auto_save_history"@.len() != "vad.max_segment_time"@.len());
    assert("api_server.port"@.len() != "vad.max_segment_time"@.len());
    assert("api_server.api_key"@.len() != "vad.max_segment_time"@.len());
    assert("conversation.llm_system_prompt"@.len() != "vad.max_segment_time"@.len());
    assert("conversation.vad_mode"@.len() != "vad.max_segment_time"@.len());
    assert("conversation.vad_energy_threshold"@.len() != "vad.max_segment_time"@.len());
    assert("voice_input.enabled"@.len() != "vad.max_segment_time"@.len());
    assert("voice_input.hotkey"@.len() != "vad.max_segment_time"@.len());
    assert("vad.min_silence_duration_ms"@.len() != "vad.max_segment_time"@.len());
    assert("asr.default_model"@.len() != "enhance.denoise"@.len());
    assert("asr.device"@.len() != "enhance.denoise"@.len());
    assert("asr.language"@.len() != "enhance.denoise"@.len());
    assert("tts.default_model"@.len() != "enhance.denoise"@.len());
    assert("tts.voice"@.len() != "enhance.denoise"@.len());
    assert("tts.speed"@.len() != "enhance.denoise"@.len());
    assert("ui.theme"@.len() != "enhance.denoise"@.len());
    assert("ui.language"@.len() != "enhance.denoise"@.len());
    assert("llm.api_url"@.len() != "enhance.denoise"@.len());
    assert("llm.api_key"@.len() != "enhance.denoise"@.len());
    assert("llm.model"@.len() != "enhance.denoise"@.len());
    assert("llm.enabled"@.len() != "enhance.denoise"@.len());
    assert("llm.correction_prompt"@.len() != "enhance.denoise"@.len());
    assert("export.output_dir"@.len() != "enhance.denoise"@.len());
    assert("advanced.auto_save_history"@.len() != "enhance.denoise"@.len());
    assert("api_server.port"@[0] != "enhance.denoise"@[0]);
    assert("api_server.api_key"@.len() != "enhance.denoise"@.len());
    assert("conversation.llm_system_prompt"@.len() != "enhance.denoise"@.len());
    assert("conversation.vad_mode"@.len() != "enhance.denoise"@.len());
    assert("conversation.vad_energy_threshold"@.len() != "enhance.denoise"@.len());
    assert("voice_input.enabled"@.len() != "enhance.denoise"@.len());
    assert("voice_input.hotkey"@.len() != "enhance.denoise"@.len());
    assert("vad.min_silence_duration_ms"@.len() != "enhance.denoise"@.len());
    assert("vad.max_segment_time"@.len() != "enhance.denoise"@.len());
    assert("asr.default_model"@.len() != "enhance.aec"@.len());
    assert("asr.device"@.len() != "enhance.aec"@.len());
    assert("asr.language"@.len() != "enhance.aec"@.len());
    assert("tts.default_model"@.len() != "enhance.aec"@.len());
    assert("tts.voice"@.len() != "enhance.aec"@.len());
    assert("tts.speed"@.len() != "enhance.aec"@.len());
    assert("ui.theme"@.len() != "enhance.aec"@.len());
    assert("ui.language"@[0] != "enhance.aec"@[0]);
    assert("llm.api_url"@[0] != "enhance.aec"@[0]);
    assert("llm.api_key"@[0] != "enhance.aec"@[0]);
    assert("llm.model"@.len() != "enhance.aec"@.len());
    assert("llm.enabled"@[0] != "enhance.aec"@[0]);
    assert("llm.correction_prompt"@.len() != "enhance.aec"@.len());
    assert("export.output_dir"@.len() != "enhance.aec"@.len());
    assert("advanced.auto_save_history"@.len() != "enhance.aec"@.len());
    assert("api_server.port"@.len() != "enhance.aec"@.len());
    assert("api_server.api_key"@.len() != "enhance.aec"@.len());
    assert("conversation.llm_system_prompt"@.len() != "enhance.aec"@.len());
    assert("conversation.vad_mode"@.len() != "enhance.aec"@.len());
    assert("conversation.vad_energy_threshold"@.len() != "enhance.aec"@.len());
    assert("voice_input.enabled"@.len() != "enhance.aec"@.len());
    assert("voice_input.hotkey"@.len() != "enhance.aec"@.len());
    assert("vad.min_silence_duration_ms"@.len() != "enhance.aec"@.len());
    assert("vad.max_segment_time"@.len() != "enhance.aec"@.len());
    assert("enhance.denoise"@.len() != "enhance.aec"@.len());
    assert("asr.default_model"@.len() != "enhance.separation"@.len());
    assert("asr.device"@.len() != "enhance.separation"@.len());
    assert("asr.language"@.len() != "enhance.separation"@.len());
    assert("tts.default_model"@.len() != "enhance.separation"@.len());
    assert("tts.voice"@.len() != "enhance.separation"@.len());
    assert("tts.speed"@.len() != "enhance.separation"@.len());
    assert("ui.theme"@.len() != "enhance.separation"@.len());
    assert("ui.language"@.len() != "enhance.separation"@.len());
    assert("llm.api_url"@.len() != "enhance.separation"@.len());
    assert("llm.api_key"@.len() != "enhance.separation"@.len());
    assert("llm.model"@.len() != "enhance.separation"@.len());
    assert("llm.enabled"@.len() != "enhance.separation"@.len());
    assert("llm.correction_prompt"@.len() != "enhance.separation"@.len());
    assert("export.output_dir"@.len() != "enhance.separation"@.len());
    assert("advanced.auto_save_history"@.len() != "enhance.separation"@.len());
    assert("api_server.port"@.len() != "enhance.separation"@.len());
    assert("api_server.api_key"@[0] != "enhance.separation"@[0]);
    assert("conversation.llm_system_prompt"@.len() != "enhance.separation"@.len());
    assert("conversation.vad_mode"@.len() != "enhance.separation"@.len());
    assert("conversation.vad_energy_threshold"@.len() != "enhance.separation"@.len());
    assert("voice_input.enabled"@.len() != "enhance.separation"@.len());
    assert("voice_input.hotkey"@[0] != "enhance.separation"@[0]);
    assert("vad.min_silence_duration_ms"@.len() != "enhance.separation"@.len());
    assert("vad.max_segment_time"@.len() != "enhance.separation"@.len());
    assert("enhance.denoise"@.len() != "enhance.separation"@.len());
    assert("enhance.aec"@.len() != "enhance.separation"@.len());
    assert("asr.default_model"@.len() != "enhance.punctuation"@.len());
    assert("asr.device"@.len() != "enhance.punctuation"@.len());
    assert("asr.language"@.len() != "enhance.punctuation"@.len());
    assert("tts.default_model"@.len() != "enhance.punctuation"@.len());
    assert("tts.voice"@.len() != "enhance.punctuation"@.len());
    assert("tts.speed"@.len() != "enhance.punctuation"@.len());
    assert("ui.theme"@.len() != "enhance.punctuation"@.len());
    assert("ui.language"@.len() != "enhance.punctuation"@.len());
    assert("llm.api_url"@.len() != "enhance.punctuation"@.len());
    assert("llm.api_key"@.len() != "enhance.punctuation"@.len());
    assert("llm.model"@.len() != "enhance.punctuation"@.len());
    assert("llm.enabled"@.len() != "enhance.punctuation"@.len());
    assert("llm.correction_prompt"@.len() != "enhance.punctuation"@.len());
    assert("export.output_dir"@.len() != "enhance.punctuation"@.len());
    assert("advanced.auto_save_history"@.len() != "enhance.punctuation"@.len());
    assert("api_server.port"@.len() != "enhance.punctuation"@.len());
    assert("api_server.api_key"@.len() != "enhance.punctuation"@.len());
    assert("conversation.llm_system_prompt"@.len() != "enhance.punctuation"@.len());
    assert("conversation.vad_mode"@.len() != "enhance.punctuation"@.len());
    assert("conversation.vad_energy_threshold"@.len() != "enhance.punctuation"@.len());
    assert("voice_input.enabled"@[0] != "enhance.punctuation"@[0]);
    assert("voice_input.hotkey"@.len() != "enhance.punctuation"@.len());
    assert("vad.min_silence_duration_ms"@.len() != "enhance.punctuation"@.len());
    assert("vad.max_segment_time"@.len() != "enhance.punctuation"@.len());
    assert("enhance.denoise"@.len() != "enhance.punctuation"@.len());
    assert("enhance.aec"@.len() != "enhance.punctuation"@.len());
    assert("enhance.separation"@.len() != "enhance.punctuation"@.len());
    assert("asr.default_model"@.len() != "system.initialized"@.len());
    assert("asr.device"@.len() != "system.initialized"@.len());
    assert("asr.language"@.len() != "system.initialized"@.len());
    assert("tts.default_model"@.len() != "system.initialized"@.len());
    assert("tts.voice"@.len() != "system.initialized"@.len());
    assert("tts.speed"@.len() != "system.initialized"@.len());
    assert("ui.theme"@.len() != "system.initialized"@.len());
    assert("ui.language"@.len() != "system.initialized"@.len());
    assert("llm.api_url"@.len() != "system.initialized"@.len());
    assert("llm.api_key"@.len() != "system.initialized"@.len());
    assert("llm.model"@.len() != "system.initialized"@.len());
    assert("llm.enabled"@.len() != "system.initialized"@.len());
    assert("llm.correction_prompt"@.len() != "system.initialized"@.len());
    assert("export.output_dir"@.len() != "system.initialized"@.len());
    assert("advanced.auto_save_history"@.len() != "system.initialized"@.len());
    assert("api_server.port"@.len() != "system.initialized"@.len());
    assert("api_server.api_key"@[0] != "system.initialized"@[0]);
    assert("conversation.llm_system_prompt"@.len() != "system.initialized"@.len());
    assert("conversation.vad_mode"@.len() != "system.initialized"@.len());
    assert("conversation.vad_energy_threshold"@.len() != "system.initialized"@.len());
    assert("voice_input.enabled"@.len() != "system.initialized"@.len());
    assert("voice_input.hotkey"@[0] != "system.initialized"@[0]);
    assert("vad.min_silence_duration_ms"@.len() != "system.initialized"@.len());
    assert("vad.max_segment_time"@.len() != "system.initialized"@.len());
    assert("enhance.denoise"@.len() != "system.initialized"@.len());
    assert("enhance.aec"@.len() != "system.initialized"@.len());
    assert("enhance.separation"@[0] != "system.initialized"@[0]);
    assert("enhance.punctuation"@.len() != "system.initialized"@.len());
    assert("asr.default_model"@.len() != "updater.auto_check"@.len());
    assert("asr.device"@.len() != "updater.auto_check"@.len());
    assert("asr.language"@.len() != "updater.auto_check"@.len());
    assert("tts.default_model"@.len() != "updater.auto_check"@.len());
    assert("tts.voice"@.len() != "updater.auto_check"@.len());
    assert("tts.speed"@.len() != "updater.auto_check"@.len());
    assert("ui.theme"@.len() != "updater.auto_check"@.len());
    assert("ui.language"@.len() != "updater.auto_check"@.len());
    assert("llm.api_url"@.len() != "updater.auto_check"@.len());
    assert("llm.api_key"@.len() != "updater.auto_check"@.len());
    assert("llm.model"@.len() != "updater.auto_check"@.len());
    assert("llm.enabled"@.len() != "updater.auto_check"@.len());
    assert("llm.correction_prompt"@.len() != "updater.auto_check"@.len());
    assert("export.output_dir"@.len() != "updater.auto_check"@.len());
    assert("advanced.auto_save_history"@.len() != "updater.auto_check"@.len());
    assert("api_server.port"@.len() != "updater.auto_check"@.len());
    assert("api_server.api_key"@[0] != "updater.auto_check"@[0]);
    assert("conversation.llm_system_prompt"@.len() != "updater.auto_check"@.len());
    assert("conversation.vad_mode"@.len() != "updater.auto_check"@.len());
    assert("conversation.vad_energy_threshold"@.len() != "updater.auto_check"@.len());
    assert("voice_input.enabled"@.len() != "updater.auto_check"@.len());
    assert("voice_input.hotkey"@[0] != "updater.auto_check"@[0]);
    assert("vad.min_silence_duration_ms"@.len() != "updater.auto_check"@.len());
    assert("vad.max_segment_time"@.len() != "updater.auto_check"@.len());
    assert("enhance.denoise"@.len() != "updater.auto_check"@.len());
    assert("enhance.aec"@.len() != "updater.auto_check"@.len());
    assert("enhance.separation"@[0] != "updater.auto_check"@[0]);
    assert("enhance.punctuation"@.len() != "updater.auto_check"@.len());
    assert("system.initialized"@[0] != "updater.auto_check"@[0]);
    assert(setting_keys().len() == 30);
    assert forall|a: int, b: int| 0 <= a < b < setting_keys().len() implies #[trigger] setting_keys()[a] != #[trigger] setting_keys()[b] by {
        assert(setting_keys()[0] == "asr.default_model"@);
        assert(setting_keys()[1] == "asr.device"@);
        assert(setting_keys()[2] == "asr.language"@);
        assert(setting_keys()[3] == "tts.default_model"@);
        assert(setting_keys()[4] == "tts.voice"@);
        assert(setting_keys()[5] == "tts.speed"@);
        assert(setting_keys()[6] == "ui.theme"@);
        assert(setting_keys()[7] == "ui.language"@);
        assert(setting_keys()[8] == "llm.api_url"@);
        assert(setting_keys()[9] == "llm.api_key"@);
        assert(setting_keys()[10] == "llm.model"@);
        assert(setting_keys()[11] == "llm.enabled"@);
        assert(setting_keys()[12] == "llm.correction_prompt"@);
        assert(setting_keys()[13] == "export.output_dir"@);
        assert(setting_keys()[14] == "advanced.auto_save_history"@);
        assert(setting_keys()[15] == "api_server.port"@);
        assert(setting_keys()[16] == "api_server.api_key"@);
        assert(setting_keys()[17] == "conversation.llm_system_prompt"@);
        assert(setting_keys()[18] == "conversation.vad_mode"@);
        assert(setting_keys()[19] == "conversation.vad_energy_threshold"@);
        assert(setting_keys()[20] == "voice_input.enabled"@);
        assert(setting_keys()[21] == "voice_input.hotkey"@);
        assert(setting_keys()[22] == "vad.min_silence_duration_ms"@);
        assert(setting_keys()[23] == "vad.max_segment_time"@);
        assert(setting_keys()[24] == "enhance.denoise"@);
        assert(setting_keys()[25] == "enhance.aec"@);
        assert(setting_keys()[26] == "enhance.separation"@);
        assert(setting_keys()[27] == "enhance.punctuation"@);
        assert(setting_keys()[28] == "system.initialized"@);
        assert(setting_keys()[29] == "updater.auto_check"@);
    }
}

/// Each key `section.field` sets exactly the field `field` of the section
/// `section` to the value read as that field's type, and leaves every other
/// field as it was; a value of the wrong type is refused with the reader's
/// message and changes nothing.
pub proof fn lemma_each_key_sets_its_field(cfg: AppConfig, value: SettingValue)
    ensures
        apply_setting(cfg, "asr.default_model"@, value) == (match text_of(value) {
            Ok(x) => Ok((AppConfig { asr: (AsrSection { default_model: x, ..cfg.asr }), ..cfg })),
            Err(e) => Err::<AppConfig, Seq<char>>(e),
        }),
        apply_setting(cfg, "asr.device"@, value) == (match text_of(value) {
            Ok(x) => Ok((AppConfig { asr: (AsrSection { device: x, ..cfg.asr }), ..cfg })),
            Err(e) => Err::<AppConfig, Seq<char>>(e),
        }),
        apply_setting(cfg, "asr.language"@, value) == (match text_of(value) {
            Ok(x) => Ok((AppConfig { asr: (AsrSection { language: x, ..cfg.asr }), ..cfg })),
            Err(e) => Err::<AppConfig, Seq<char>>(e),
        }),
        apply_setting(cfg, "tts.default_model"@, value) == (match text_of(value) {
            Ok(x) => Ok((AppConfig { tts: (TtsSection { default_model: x, ..cfg.tts }), ..cfg })),
            Err(e) => Err::<AppConfig, Seq<char>>(e),
        }),
        apply_setting(cfg, "tts.voice"@, value) == (match text_of(value) {
            Ok(x) => Ok((AppConfig { tts: (TtsSection { voice: x, ..cfg.tts }), ..cfg })),
            Err(e) => Err::<AppConfig, Seq<char>>(e),
        }),
        apply_setting(cfg, "tts.speed"@, value) == (match f64_bits_of(value) {
            Ok(x) => Ok((AppConfig { tts: (TtsSection { speed: x, ..cfg.tts }), ..cfg })),
            Err(e) => Err::<AppConfig, Seq<char>>(e),
        }),
        apply_setting(cfg, "ui.theme"@, value) == (match text_of(value) {
            Ok(x) => Ok((AppConfig { ui: (UiSection { theme: x, ..cfg.ui }), ..cfg })),
            Err(e) => Err::<AppConfig, Seq<char>>(e),
        }),
        apply_setting(cfg, "ui.language"@, value) == (match text_of(value) {
            Ok(x) => Ok((AppConfig { ui: (UiSection { language: x, ..cfg.ui }), ..cfg })),
            Err(e) => Err::<AppConfig, Seq<char>>(e),
        }),
        apply_setting(cfg, "llm.api_url"@, value) == (match text_of(value) {
            Ok(x) => Ok((AppConfig { llm: (LlmSection { api_url: x, ..cfg.llm }), ..cfg })),
            Err(e) => Err::<AppConfig, Seq<char>>(e),
        }),
        apply_setting(cfg, "llm.api_key"@, value) == (match text_of(value) {
            Ok(x) => Ok((AppConfig { llm: (LlmSection { api_key: x, ..cfg.llm }), ..cfg })),
            Err(e) => Err::<AppConfig, Seq<char>>(e),
        }),
        apply_setting(cfg, "llm.model"@, value) == (match text_of(value) {
            Ok(x) => Ok((AppConfig { llm: (LlmSection { model: x, ..cfg.llm }), ..cfg })),
            Err(e) => Err::<AppConfig, Seq<char>>(e),
        }),
        apply_setting(cfg, "llm.enabled"@, value) == (match flag_of(value) {
            Ok(x) => Ok((AppConfig { llm: (LlmSection { enabled: x, ..cfg.llm }), ..cfg })),
            Err(e) => Err::<AppConfig, Seq<char>>(e),
        }),
        apply_setting(cfg, "llm.correction_prompt"@, value) == (match text_of(value) {
            Ok(x) => Ok((AppConfig { llm: (LlmSection { correction_prompt: x, ..cfg.llm }), ..cfg })),
            Err(e) => Err::<AppConfig, Seq<char>>(e),
        }),
        apply_setting(cfg, "export.output_dir"@, value) == (match text_of(value) {
            Ok(x) => Ok((AppConfig { export: (ExportSection { output_dir: x, ..cfg.export }), ..cfg })),
            Err(e) => Err::<AppConfig, Seq<char>>(e),
        }),
        apply_setting(cfg, "advanced.auto_save_history"@, value) == (match flag_of(value) {
            Ok(x) => Ok((AppConfig { advanced: (AdvancedSection { auto_save_history: x, ..cfg.advanced }), ..cfg })),
            Err(e) => Err::<AppConfig, Seq<char>>(e),
        }),
        apply_setting(cfg, "api_server.port"@, value) == (match u16_of(value) {
            Ok(x) => Ok((AppConfig { api_server: (ApiServerSection { port: x, ..cfg.api_server }), ..cfg })),
            Err(e) => Err::<AppConfig, Seq<char>>(e),
        }),
        apply_setting(cfg, "api_server.api_key"@, value) == (match text_of(value) {
            Ok(x) => Ok((AppConfig { api_server: (ApiServerSection { api_key: x, ..cfg.api_server }), ..cfg })),
            Err(e) => Err::<AppConfig, Seq<char>>(e),
        }),
        apply_setting(cfg, "conversation.llm_system_prompt"@, value) == (match text_of(value) {
            Ok(x) => Ok((AppConfig { conversation: (ConversationSection { llm_system_prompt: x, ..cfg.conversation }), ..cfg })),
            Err(e) => Err::<AppConfig, Seq<char>>(e),
        }),
        apply_setting(cfg, "conversation.vad_mode"@, value) == (match text_of(value) {
            Ok(x) => Ok((AppConfig { conversation: (ConversationSection { vad_mode: x, ..cfg.conversation }), ..cfg })),
            Err(e) => Err::<AppConfig, Seq<char>>(e),
        }),
        apply_setting(cfg, "conversation.vad_energy_threshold"@, value) == (match f64_bits_of(value) {
            Ok(x) => Ok((AppConfig { conversation: (ConversationSection { vad_energy_threshold: x, ..cfg.conversation }), ..cfg })),
            Err(e) => Err::<AppConfig, Seq<char>>(e),
        }),
        apply_setting(cfg, "voice_input.enabled"@, value) == (match flag_of(value) {
            Ok(x) => Ok((AppConfig { voice_input: (VoiceInputSection { enabled: x, ..cfg.voice_input }), ..cfg })),
            Err(e) => Err::<AppConfig, Seq<char>>(e),
        }),
        apply_setting(cfg, "voice_input.hotkey"@, value) == (match text_of(value) {
            Ok(x) => Ok((AppConfig { voice_input: (VoiceInputSection { hotkey: x, ..cfg.voice_input }), ..cfg })),
            Err(e) => Err::<AppConfig, Seq<char>>(e),
        }),
        apply_setting(cfg, "vad.min_silence_duration_ms"@, value) == (match u32_of(value) {
            Ok(x) => Ok((AppConfig { vad: (VadSection { min_silence_duration_ms: x, ..cfg.vad }), ..cfg })),
            Err(e) => Err::<AppConfig, Seq<char>>(e),
        }),
        apply_setting(cfg, "vad.max_segment_time"@, value) == (match u32_of(value) {
            Ok(x) => Ok((AppConfig { vad: (VadSection { max_segment_time: x, ..cfg.vad }), ..cfg })),
            Err(e) => Err::<AppConfig, Seq<char>>(e),
        }),
        apply_setting(cfg, "enhance.denoise"@, value) == (match text_of(value) {
            Ok(x) => Ok((AppConfig { enhance: (EnhanceSection { denoise: x, ..cfg.enhance }), ..cfg })),
            Err(e) => Err::<AppConfig, Seq<char>>(e),
        }),
        apply_setting(cfg, "enhance.aec"@, value) == (match text_of(value) {
            Ok(x) => Ok((AppConfig { enhance: (EnhanceSection { aec: x, ..cfg.enhance }), ..cfg })),
            Err(e) => Err::<AppConfig, Seq<char>>(e),
        }),
        apply_setting(cfg, "enhance.separation"@, value) == (match text_of(value) {
            Ok(x) => Ok((AppConfig { enhance: (EnhanceSection { separation: x, ..cfg.enhance }), ..cfg })),
            Err(e) => Err::<AppConfig, Seq<char>>(e),
        }),
        apply_setting(cfg, "enhance.punctuation"@, value) == (match text_of(value) {
            Ok(x) => Ok((AppConfig { enhance: (EnhanceSection { punctuation: x, ..cfg.enhance }), ..cfg })),
            Err(e) => Err::<AppConfig, Seq<char>>(e),
        }),
        apply_setting(cfg, "system.initialized"@, value) == (match flag_of(value) {
            Ok(x) => Ok((AppConfig { system: (SystemSection { initialized: x, ..cfg.system }), ..cfg })),
            Err(e) => Err::<AppConfig, Seq<char>>(e),
        }),
        apply_setting(cfg, "updater.auto_check"@, value) == (match flag_of(value) {
            Ok(x) => Ok((AppConfig { updater: (UpdaterSection { auto_check: x, ..cfg.updater }), ..cfg })),
            Err(e) => Err::<AppConfig, Seq<char>>(e),
        }),
{
    lemma_setting_keys_distinct();
    assert(setting_keys()[0] == "asr.default_model"@);
    assert(setting_keys()[1] == "asr.device"@);
    assert(setting_keys()[2] == "asr.language"@);
    assert(setting_keys()[3] == "tts.default_model"@);
    assert(setting_keys()[4] == "tts.voice"@);
    assert(setting_keys()[5] == "tts.speed"@);
    assert(setting_keys()[6] == "ui.theme"@);
    assert(setting_keys()[7] == "ui.language"@);
    assert(setting_keys()[8] == "llm.api_url"@);
    assert(setting_keys()[9] == "llm.api_key"@);
    assert(setting_keys()[10] == "llm.model"@);
    assert(setting_keys()[11] == "llm.enabled"@);
    assert(setting_keys()[12] == "llm.correction_prompt"@);
    assert(setting_keys()[13] == "export.output_dir"@);
    assert(setting_keys()[14] == "advanced.auto_save_history"@);
    assert(setting_keys()[15] == "api_server.port"@);
    assert(setting_keys()[16] == "api_server.api_key"@);
    assert(setting_keys()[17] == "conversation.llm_system_prompt"@);
    assert(setting_keys()[18] == "conversation.vad_mode"@);
    assert(setting_keys()[19] == "conversation.vad_energy_threshold"@);
    assert(setting_keys()[20] == "voice_input.enabled"@);
    assert(setting_keys()[21] == "voice_input.hotkey"@);
    assert(setting_keys()[22] == "vad.min_silence_duration_ms"@);
    assert(setting_keys()[23] == "vad.max_segment_time"@);
    assert(setting_keys()[24] == "enhance.denoise"@);
    assert(setting_keys()[25] == "enhance.aec"@);
    assert(setting_keys()[26] == "enhance.separation"@);
    assert(setting_keys()[27] == "enhance.punctuation"@);
    assert(setting_keys()[28] == "system.initialized"@);
    assert(setting_keys()[29] == "updater.auto_check"@);
}

/// Setting a value a second time changes nothing more.
pub proof fn lemma_setting_twice_is_setting_once(cfg: AppConfig, key: Seq<char>, value: SettingValue)
    ensures
        match apply_setting(cfg, key, value) {
            Ok(c) => apply_setting(c, key, value) == Ok::<AppConfig, Seq<char>>(c),
            Err(_) => true,
        },
{
}

/// A key that names no setting is refused with the unknown-key message,
/// whatever the value.
pub proof fn lemma_unknown_key_refused(cfg: AppConfig, key: Seq<char>, value: SettingValue)
    requires
        !setting_keys().contains(key),
    ensures
        apply_setting(cfg, key, value) == Err::<AppConfig, Seq<char>>(unknown_key_message(key)),
{
    assert(setting_keys()[0] == "asr.default_model"@);
    assert(setting_keys()[1] == "asr.device"@);
    assert(setting_keys()[2] == "asr.language"@);
    assert(setting_keys()[3] == "tts.default_model"@);
    assert(setting_keys()[4] == "tts.voice"@);
    assert(setting_keys()[5] == "tts.speed"@);
    assert(setting_keys()[6] == "ui.theme"@);
    assert(setting_keys()[7] == "ui.language"@);
    assert(setting_keys()[8] == "llm.api_url"@);
    assert(setting_keys()[9] == "llm.api_key"@);
    assert(setting_keys()[10] == "llm.model"@);
    assert(setting_keys()[11] == "llm.enabled"@);
    assert(setting_keys()[12] == "llm.correction_prompt"@);
    assert(setting_keys()[13] == "export.output_dir"@);
    assert(setting_keys()[14] == "advanced.auto_save_history"@);
    assert(setting_keys()[15] == "api_server.port"@);
    assert(setting_keys()[16] == "api_server.api_key"@);
    assert(setting_keys()[17] == "conversation.llm_system_prompt"@);
    assert(setting_keys()[18] == "conversation.vad_mode"@);
    assert(setting_keys()[19] == "conversation.vad_energy_threshold"@);
    assert(setting_keys()[20] == "voice_input.enabled"@);
    assert(setting_keys()[21] == "voice_input.hotkey"@);
    assert(setting_keys()[22] == "vad.min_silence_duration_ms"@);
    assert(setting_keys()[23] == "vad.max_segment_time"@);
    assert(setting_keys()[24] == "enhance.denoise"@);
    assert(setting_keys()[25] == "enhance.aec"@);
    assert(setting_keys()[26] == "enhance.separation"@);
    assert(setting_keys()[27] == "enhance.punctuation"@);
    assert(setting_keys()[28] == "system.initialized"@);
    assert(setting_keys()[29] == "updater.auto_check"@);
}

/// The keys that name a setting.
pub open spec fn setting_keys() -> Seq<Seq<char>> {
    seq![
        "asr.default_model"@,
        "asr.device"@,
        "asr.language"@,
        "tts.default_model"@,
        "tts.voice"@,
        "tts.speed"@,
        "ui.theme"@,
        "ui.language"@,
        "llm.api_url"@,
        "llm.api_key"@,
        "llm.model"@,
        "llm.enabled"@,
        "llm.correction_prompt"@,
        "export.output_dir"@,
        "advanced.auto_save_history"@,
        "api_server.port"@,
        "api_server.api_key"@,
        "conversation.llm_system_prompt"@,
        "conversation.vad_mode"@,
        "conversation.vad_energy_threshold"@,
        "voice_input.enabled"@,
        "voice_input.hotkey"@,
        "vad.min_silence_duration_ms"@,
        "vad.max_segment_time"@,
        "enhance.denoise"@,
        "enhance.aec"@,
        "enhance.separation"@,
        "enhance.punctuation"@,
        "system.initialized"@,
        "updater.auto_check"@,
    ]
}

} // verus!
