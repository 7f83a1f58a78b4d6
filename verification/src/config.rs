//! Application configuration and its defaults.
//!
//! Settings that the application keeps as floating-point numbers are held
//! here as the bit pattern of the IEEE-754 double (`f64::to_bits`); the
//! application converts them when it reads or writes the configuration file.
use vstd::prelude::*;

verus! {

/// Speech recognition defaults.
pub struct AsrSection {
    pub default_model: String,
    pub default_model_cpp: String,
    pub model_path: String,
    pub device: String,
    pub language: String,
}

impl AsrSection {
    /// Whether every field holds its default value.
    pub open spec fn is_default(&self) -> bool {
        &&& self.default_model@ == "Qwen/Qwen3-ASR-0.6B-GGUF"@
        &&& self.default_model_cpp@ == "Qwen/Qwen3-ASR-0.6B-GGUF"@
        &&& self.model_path@ == "llm"@
        &&& self.device@ == "cuda:0"@
        &&& self.language@ == "auto"@
    }

    /// A field-by-field copy.
    pub fn copy(&self) -> (r: Self)
        ensures
            r == *self,
    {
        AsrSection {
            default_model: self.default_model.clone(),
            default_model_cpp: self.default_model_cpp.clone(),
            model_path: self.model_path.clone(),
            device: self.device.clone(),
            language: self.language.clone(),
        }
    }
}

impl Default for AsrSection {
    fn default() -> (r: Self)
        ensures
            r.is_default(),
    {
        AsrSection {
            default_model: "Qwen/Qwen3-ASR-0.6B-GGUF".to_owned(),
            default_model_cpp: "Qwen/Qwen3-ASR-0.6B-GGUF".to_owned(),
            model_path: "llm".to_owned(),
            device: "cuda:0".to_owned(),
            language: "auto".to_owned(),
        }
    }
}

/// Voice activity detection for file transcription.
pub struct VadSection {
    pub model: String,
    pub min_silence_duration_ms: u32,
    pub max_segment_time: u32,
}

impl VadSection {
    /// Whether every field holds its default value.
    pub open spec fn is_default(&self) -> bool {
        &&& self.model@ == ""@
        &&& self.min_silence_duration_ms == 100
        &&& self.max_segment_time == 60000
    }

    /// A field-by-field copy.
    pub fn copy(&self) -> (r: Self)
        ensures
            r == *self,
    {
        VadSection {
            model: self.model.clone(),
            min_silence_duration_ms: self.min_silence_duration_ms,
            max_segment_time: self.max_segment_time,
        }
    }
}

impl Default for VadSection {
    fn default() -> (r: Self)
        ensures
            r.is_default(),
    {
        VadSection {
            model: "".to_owned(),
            min_silence_duration_ms: 100,
            max_segment_time: 60000,
        }
    }
}

/// Speech synthesis defaults.
pub struct TtsSection {
    pub default_model: String,
    pub voice: String,
    /// Bit pattern of an IEEE-754 double.
    pub speed: u64,
}

impl TtsSection {
    /// Whether every field holds its default value.
    pub open spec fn is_default(&self) -> bool {
        &&& self.default_model@ == "Qwen/Qwen3-TTS-0.6B-GGUF"@
        &&& self.voice@ == "default"@
        &&& self.speed == 0x3ff0000000000000
    }

    /// A field-by-field copy.
    pub fn copy(&self) -> (r: Self)
        ensures
            r == *self,
    {
        TtsSection {
            default_model: self.default_model.clone(),
            voice: self.voice.clone(),
            speed: self.speed,
        }
    }
}

impl Default for TtsSection {
    fn default() -> (r: Self)
        ensures
            r.is_default(),
    {
        TtsSection {
            default_model: "Qwen/Qwen3-TTS-0.6B-GGUF".to_owned(),
            voice: "default".to_owned(),
            speed: 0x3ff0000000000000,
        }
    }
}

/// Real-time recognition.
pub struct RealtimeAsrSection {
    pub sample_rate: u32,
    pub frame_ms: u32,
    pub language: String,
    pub partial_throttle_ms: u32,
    pub vad: ConversationVadSection,
}

impl RealtimeAsrSection {
    /// Whether every field holds its default value.
    pub open spec fn is_default(&self) -> bool {
        &&& self.sample_rate == 16000
        &&& self.frame_ms == 20
        &&& self.language@ == "auto"@
        &&& self.partial_throttle_ms == 80
        &&& self.vad.is_default()
    }

    /// A field-by-field copy.
    pub fn copy(&self) -> (r: Self)
        ensures
            r == *self,
    {
        RealtimeAsrSection {
            sample_rate: self.sample_rate,
            frame_ms: self.frame_ms,
            language: self.language.clone(),
            partial_throttle_ms: self.partial_throttle_ms,
            vad: self.vad.copy(),
        }
    }
}

impl Default for RealtimeAsrSection {
    fn default() -> (r: Self)
        ensures
            r.is_default(),
    {
        RealtimeAsrSection {
            sample_rate: 16000,
            frame_ms: 20,
            language: "auto".to_owned(),
            partial_throttle_ms: 80,
            vad: ConversationVadSection::default(),
        }
    }
}

/// Voice activity detection for real-time recognition.
pub struct ConversationVadSection {
    pub mode: String,
    /// Bit pattern of an IEEE-754 double.
    pub energy_threshold: u64,
    pub min_speech_ms: u32,
    pub min_silence_ms: u32,
    /// Bit pattern of an IEEE-754 double.
    pub max_speech_s: u64,
    pub speech_pad_ms: u32,
}

impl ConversationVadSection {
    /// Whether every field holds its default value.
    pub open spec fn is_default(&self) -> bool {
        &&& self.mode@ == "energy"@
        &&& self.energy_threshold == 0x3f947ae147ae147b
        &&& self.min_speech_ms == 250
        &&& self.min_silence_ms == 500
        &&& self.max_speech_s == 0x402e000000000000
        &&& self.speech_pad_ms == 160
    }

    /// A field-by-field copy.
    pub fn copy(&self) -> (r: Self)
        ensures
            r == *self,
    {
        ConversationVadSection {
            mode: self.mode.clone(),
            energy_threshold: self.energy_threshold,
            min_speech_ms: self.min_speech_ms,
            min_silence_ms: self.min_silence_ms,
            max_speech_s: self.max_speech_s,
            speech_pad_ms: self.speech_pad_ms,
        }
    }
}

impl Default for ConversationVadSection {
    fn default() -> (r: Self)
        ensures
            r.is_default(),
    {
        ConversationVadSection {
            mode: "energy".to_owned(),
            energy_threshold: 0x3f947ae147ae147b,
            min_speech_ms: 250,
            min_silence_ms: 500,
            max_speech_s: 0x402e000000000000,
            speech_pad_ms: 160,
        }
    }
}

/// The local HTTP API.
pub struct ApiServerSection {
    pub port: u16,
    pub cpp_port: u16,
    pub api_key: String,
}

impl ApiServerSection {
    /// Whether every field holds its default value.
    pub open spec fn is_default(&self) -> bool {
        &&& self.port == 8000
        &&& self.cpp_port == 8080
        &&& self.api_key@ == ""@
    }

    /// A field-by-field copy.
    pub fn copy(&self) -> (r: Self)
        ensures
            r == *self,
    {
        ApiServerSection {
            port: self.port,
            cpp_port: self.cpp_port,
            api_key: self.api_key.clone(),
        }
    }
}

impl Default for ApiServerSection {
    fn default() -> (r: Self)
        ensures
            r.is_default(),
    {
        ApiServerSection {
            port: 8000,
            cpp_port: 8080,
            api_key: "".to_owned(),
        }
    }
}

/// Audio enhancement stages.
pub struct EnhanceSection {
    pub denoise: String,
    pub aec: String,
    pub separation: String,
    pub punctuation: String,
}

impl EnhanceSection {
    /// Whether every field holds its default value.
    pub open spec fn is_default(&self) -> bool {
        &&& self.denoise@ == ""@
        &&& self.aec@ == ""@
        &&& self.separation@ == ""@
        &&& self.punctuation@ == ""@
    }

    /// A field-by-field copy.
    pub fn copy(&self) -> (r: Self)
        ensures
            r == *self,
    {
        EnhanceSection {
            denoise: self.denoise.clone(),
            aec: self.aec.clone(),
            separation: self.separation.clone(),
            punctuation: self.punctuation.clone(),
        }
    }
}

impl Default for EnhanceSection {
    fn default() -> (r: Self)
        ensures
            r.is_default(),
    {
        EnhanceSection {
            denoise: "".to_owned(),
            aec: "".to_owned(),
            separation: "".to_owned(),
            punctuation: "".to_owned(),
        }
    }
}

/// Export settings.
pub struct ExportSection {
    pub output_dir: String,
}

impl ExportSection {
    /// Whether every field holds its default value.
    pub open spec fn is_default(&self) -> bool {
        &&& self.output_dir@ == ""@
    }

    /// A field-by-field copy.
    pub fn copy(&self) -> (r: Self)
        ensures
            r == *self,
    {
        ExportSection {
            output_dir: self.output_dir.clone(),
        }
    }
}

impl Default for ExportSection {
    fn default() -> (r: Self)
        ensures
            r.is_default(),
    {
        ExportSection {
            output_dir: "".to_owned(),
        }
    }
}

/// User interface settings.
pub struct UiSection {
    pub theme: String,
    pub language: String,
}

impl UiSection {
    /// Whether every field holds its default value.
    pub open spec fn is_default(&self) -> bool {
        &&& self.theme@ == "light"@
        &&& self.language@ == "zh"@
    }

    /// A field-by-field copy.
    pub fn copy(&self) -> (r: Self)
        ensures
            r == *self,
    {
        UiSection {
            theme: self.theme.clone(),
            language: self.language.clone(),
        }
    }
}

impl Default for UiSection {
    fn default() -> (r: Self)
        ensures
            r.is_default(),
    {
        UiSection {
            theme: "light".to_owned(),
            language: "zh".to_owned(),
        }
    }
}

/// Advanced settings.
pub struct AdvancedSection {
    pub auto_save_history: bool,
}

impl AdvancedSection {
    /// Whether every field holds its default value.
    pub open spec fn is_default(&self) -> bool {
        &&& self.auto_save_history
    }

    /// A field-by-field copy.
    pub fn copy(&self) -> (r: Self)
        ensures
            r == *self,
    {
        AdvancedSection {
            auto_save_history: self.auto_save_history,
        }
    }
}

impl Default for AdvancedSection {
    fn default() -> (r: Self)
        ensures
            r.is_default(),
    {
        AdvancedSection {
            auto_save_history: true,
        }
    }
}

/// The language model used for correction and conversation.
pub struct LlmSection {
    pub api_url: String,
    pub api_key: String,
    pub model: String,
    pub enabled: bool,
    pub correction_prompt: String,
}

impl LlmSection {
    /// Whether every field holds its default value.
    pub open spec fn is_default(&self) -> bool {
        &&& self.api_url@ == "https://api.deepseek.com/v1"@
        &&& self.api_key@ == ""@
        &&& self.model@ == "deepseek-v4-flash"@
        &&& !self.enabled
        &&& self.correction_prompt@ == ""@
    }

    /// A field-by-field copy.
    pub fn copy(&self) -> (r: Self)
        ensures
            r == *self,
    {
        LlmSection {
            api_url: self.api_url.clone(),
            api_key: self.api_key.clone(),
            model: self.model.clone(),
            enabled: self.enabled,
            correction_prompt: self.correction_prompt.clone(),
        }
    }
}

impl Default for LlmSection {
    fn default() -> (r: Self)
        ensures
            r.is_default(),
    {
        LlmSection {
            api_url: "https://api.deepseek.com/v1".to_owned(),
            api_key: "".to_owned(),
            model: "deepseek-v4-flash".to_owned(),
            enabled: false,
            correction_prompt: "".to_owned(),
        }
    }
}

/// GPU runtime pack.
pub struct GpuSection {
    pub pack_url: String,
}

impl GpuSection {
    /// Whether every field holds its default value.
    pub open spec fn is_default(&self) -> bool {
        &&& self.pack_url@ == ""@
    }

    /// A field-by-field copy.
    pub fn copy(&self) -> (r: Self)
        ensures
            r == *self,
    {
        GpuSection {
            pack_url: self.pack_url.clone(),
        }
    }
}

impl Default for GpuSection {
    fn default() -> (r: Self)
        ensures
            r.is_default(),
    {
        GpuSection {
            pack_url: "".to_owned(),
        }
    }
}

/// First-run state.
pub struct SystemSection {
    pub initialized: bool,
}

impl SystemSection {
    /// Whether every field holds its default value.
    pub open spec fn is_default(&self) -> bool {
        &&& !self.initialized
    }

    /// A field-by-field copy.
    pub fn copy(&self) -> (r: Self)
        ensures
            r == *self,
    {
        SystemSection {
            initialized: self.initialized,
        }
    }
}

impl Default for SystemSection {
    fn default() -> (r: Self)
        ensures
            r.is_default(),
    {
        SystemSection {
            initialized: false,
        }
    }
}

/// Update checks.
pub struct UpdaterSection {
    pub auto_check: bool,
    pub github_owner: String,
    pub github_repo: String,
}

impl UpdaterSection {
    /// Whether every field holds its default value.
    pub open spec fn is_default(&self) -> bool {
        &&& self.auto_check
        &&& self.github_owner@ == ""@
        &&& self.github_repo@ == ""@
    }

    /// A field-by-field copy.
    pub fn copy(&self) -> (r: Self)
        ensures
            r == *self,
    {
        UpdaterSection {
            auto_check: self.auto_check,
            github_owner: self.github_owner.clone(),
            github_repo: self.github_repo.clone(),
        }
    }
}

impl Default for UpdaterSection {
    fn default() -> (r: Self)
        ensures
            r.is_default(),
    {
        UpdaterSection {
            auto_check: true,
            github_owner: "".to_owned(),
            github_repo: "".to_owned(),
        }
    }
}

/// Voice conversation.
pub struct ConversationSection {
    pub llm_system_prompt: String,
    pub vad_mode: String,
    /// Bit pattern of an IEEE-754 double.
    pub vad_energy_threshold: u64,
    pub vad_min_speech_ms: u32,
    pub vad_min_silence_ms: u32,
}

impl ConversationSection {
    /// Whether every field holds its default value.
    pub open spec fn is_default(&self) -> bool {
        &&& self.llm_system_prompt@ == "你是一个友好的语音助手。请用简洁的中文回答。"@
        &&& self.vad_mode@ == "energy"@
        &&& self.vad_energy_threshold == 0x3f947ae147ae147b
        &&& self.vad_min_speech_ms == 250
        &&& self.vad_min_silence_ms == 500
    }

    /// A field-by-field copy.
    pub fn copy(&self) -> (r: Self)
        ensures
            r == *self,
    {
        ConversationSection {
            llm_system_prompt: self.llm_system_prompt.clone(),
            vad_mode: self.vad_mode.clone(),
            vad_energy_threshold: self.vad_energy_threshold,
            vad_min_speech_ms: self.vad_min_speech_ms,
            vad_min_silence_ms: self.vad_min_silence_ms,
        }
    }
}

impl Default for ConversationSection {
    fn default() -> (r: Self)
        ensures
            r.is_default(),
    {
        ConversationSection {
            llm_system_prompt: "你是一个友好的语音助手。请用简洁的中文回答。".to_owned(),
            vad_mode: "energy".to_owned(),
            vad_energy_threshold: 0x3f947ae147ae147b,
            vad_min_speech_ms: 250,
            vad_min_silence_ms: 500,
        }
    }
}

/// Voice input hotkey.
pub struct VoiceInputSection {
    pub enabled: bool,
    pub hotkey: String,
    pub vad_mode: String,
    /// Bit pattern of an IEEE-754 double.
    pub energy_threshold: u64,
}

impl VoiceInputSection {
    /// Whether every field holds its default value.
    pub open spec fn is_default(&self) -> bool {
        &&& !self.enabled
        &&& self.hotkey@ == "Ctrl+Alt+Space"@
        &&& self.vad_mode@ == "energy"@
        &&& self.energy_threshold == 0x3f947ae147ae147b
    }

    /// A field-by-field copy.
    pub fn copy(&self) -> (r: Self)
        ensures
            r == *self,
    {
        VoiceInputSection {
            enabled: self.enabled,
            hotkey: self.hotkey.clone(),
            vad_mode: self.vad_mode.clone(),
            energy_threshold: self.energy_threshold,
        }
    }
}

impl Default for VoiceInputSection {
    fn default() -> (r: Self)
        ensures
            r.is_default(),
    {
        VoiceInputSection {
            enabled: false,
            hotkey: "Ctrl+Alt+Space".to_owned(),
            vad_mode: "energy".to_owned(),
            energy_threshold: 0x3f947ae147ae147b,
        }
    }
}

/// The whole configuration.
pub struct AppConfig {
    pub asr: AsrSection,
    pub vad: VadSection,
    pub tts: TtsSection,
    pub realtime_asr: RealtimeAsrSection,
    pub api_server: ApiServerSection,
    pub enhance: EnhanceSection,
    pub export: ExportSection,
    pub ui: UiSection,
    pub advanced: AdvancedSection,
    pub llm: LlmSection,
    pub gpu: GpuSection,
    pub system: SystemSection,
    pub updater: UpdaterSection,
    pub conversation: ConversationSection,
    pub voice_input: VoiceInputSection,
}

impl AppConfig {
    /// Whether every section holds its defaults.
    pub open spec fn is_default(&self) -> bool {
        &&& self.asr.is_default()
        &&& self.vad.is_default()
        &&& self.tts.is_default()
        &&& self.realtime_asr.is_default()
        &&& self.api_server.is_default()
        &&& self.enhance.is_default()
        &&& self.export.is_default()
        &&& self.ui.is_default()
        &&& self.advanced.is_default()
        &&& self.llm.is_default()
        &&& self.gpu.is_default()
        &&& self.system.is_default()
        &&& self.updater.is_default()
        &&& self.conversation.is_default()
        &&& self.voice_input.is_default()
    }

    /// A field-by-field copy.
    pub fn copy(&self) -> (r: Self)
        ensures
            r == *self,
    {
        AppConfig {
            asr: self.asr.copy(),
            vad: self.vad.copy(),
            tts: self.tts.copy(),
            realtime_asr: self.realtime_asr.copy(),
            api_server: self.api_server.copy(),
            enhance: self.enhance.copy(),
            export: self.export.copy(),
            ui: self.ui.copy(),
            advanced: self.advanced.copy(),
            llm: self.llm.copy(),
            gpu: self.gpu.copy(),
            system: self.system.copy(),
            updater: self.updater.copy(),
            conversation: self.conversation.copy(),
            voice_input: self.voice_input.copy(),
        }
    }
}

impl Default for AppConfig {
    fn default() -> (r: Self)
        ensures
            r.is_default(),
    {
        AppConfig {
            asr: AsrSection::default(),
            vad: VadSection::default(),
            tts: TtsSection::default(),
            realtime_asr: RealtimeAsrSection::default(),
            api_server: ApiServerSection::default(),
            enhance: EnhanceSection::default(),
            export: ExportSection::default(),
            ui: UiSection::default(),
            advanced: AdvancedSection::default(),
            llm: LlmSection::default(),
            gpu: GpuSection::default(),
            system: SystemSection::default(),
            updater: UpdaterSection::default(),
            conversation: ConversationSection::default(),
            voice_input: VoiceInputSection::default(),
        }
    }
}

/// What the user interface is shown for a secret: nothing when it is unset,
/// a fixed row of dots when it is set.
pub open spec fn masked(secret: Seq<char>) -> Seq<char> {
    if secret.len() == 0 {
        secret
    } else {
        "••••••••"@
    }
}

/// A secret as the user interface is shown it.
fn mask_secret(secret: &String) -> (r: String)
    ensures
        r@ == masked(secret@),
{
    if secret.as_str().is_empty() {
        secret.clone()
    } else {
        "••••••••".to_owned()
    }
}

impl AppConfig {
    /// A copy for the user interface with the two API keys masked.
    pub fn sanitized(&self) -> (r: Self)
        ensures
            r.llm.api_key@ == masked(self.llm.api_key@),
            r.api_server.api_key@ == masked(self.api_server.api_key@),
            r == (AppConfig {
                llm: LlmSection { api_key: r.llm.api_key, ..self.llm },
                api_server: ApiServerSection { api_key: r.api_server.api_key, ..self.api_server },
                ..*self
            }),
    {
        let mut c = self.copy();
        c.llm.api_key = mask_secret(&self.llm.api_key);
        c.api_server.api_key = mask_secret(&self.api_server.api_key);
        c
    }
}

/// Masking twice shows the same as masking once.
pub proof fn lemma_masking_idempotent(secret: Seq<char>)
    ensures
        masked(masked(secret)) == masked(secret),
{
    reveal_strlit("••••••••");
    assert("••••••••"@.len() == 8);
}

/// The masked form tells two secrets apart only by whether each is set.
pub proof fn lemma_masking_reveals_only_presence(a: Seq<char>, b: Seq<char>)
    ensures
        (masked(a) == masked(b)) <==> ((a.len() == 0) == (b.len() == 0)),
{
    reveal_strlit("••••••••");
    assert("••••••••"@.len() == 8);
    if a.len() == 0 && b.len() == 0 {
        assert(a =~= b);
    }
    if a.len() == 0 && b.len() != 0 {
        assert(masked(a).len() != masked(b).len());
    }
    if a.len() != 0 && b.len() == 0 {
        assert(masked(a).len() != masked(b).len());
    }
}

/// The default configuration holds no secret, so masking leaves it as it is.
pub proof fn lemma_default_shows_unchanged(c: AppConfig)
    requires
        c.is_default(),
    ensures
        masked(c.llm.api_key@) == c.llm.api_key@,
        masked(c.api_server.api_key@) == c.api_server.api_key@,
{
    reveal_strlit("");
}

} // verus!
