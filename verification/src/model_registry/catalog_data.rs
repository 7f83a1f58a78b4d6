//! The catalog's entries: once as mathematical values, once as the code
//! that builds them.
use vstd::prelude::*;

use super::{m_asr, m_other, m_tts, seed_entry, ModelInfo, ModelInfoView, Seed};

verus! {

/// The speech recognition entries of the catalog, in catalog order.
pub open spec fn asr_catalog() -> Seq<ModelInfoView> {
    seq![
        seed_entry(
            "asr_cpp"@,
            Seed {
                detail: "Qwen3-ASR 0.6B GGUF\n• 30 语言: 中/英/日/韩/粤/法/德/俄...\n• CUDA/CPU 多后端",
                size: "~1.0 GB",
                cpu: "流畅",
                dir: "Qwen3-ASR-0.6B-GGUF",
                file: "qwen3-asr-0.6b.Q5_K_M.gguf",
                config_repo: "",
                name: "Qwen3-ASR 0.6B (GGUF)",
                languages: "zh en ja ko yue fr de ru ar es pt id it th vi tr hi ms nl sv da fi pl cs fil fa el ro hu mk",
                gpu: "2GB+",
                family: "qwen3_asr",
                repo: "Qwen/Qwen3-ASR-0.6B-GGUF",
                mode: "gguf",
                config_files: "",
                description: "Qwen3-ASR 轻量, 30+ 语言",
                id: "Qwen/Qwen3-ASR-0.6B-GGUF",
            },
        ),
        seed_entry(
            "asr_cpp"@,
            Seed {
                detail: "Qwen3-ASR 1.7B GGUF\n• 30 语言\n• 高精度中文识别, 内置标点",
                size: "~2.4 GB",
                cpu: "可运行但慢",
                dir: "Qwen3-ASR-1.7B-GGUF",
                file: "qwen3-asr-1.7b.Q5_K_M.gguf",
                config_repo: "",
                name: "Qwen3-ASR 1.7B (GGUF)",
                languages: "zh en ja ko yue fr de ru ar es pt id it th vi tr hi ms nl sv da fi pl cs fil fa el ro hu mk",
                gpu: "6GB+",
                family: "qwen3_asr",
                repo: "Qwen/Qwen3-ASR-1.7B-GGUF",
                mode: "gguf",
                config_files: "",
                description: "Qwen3-ASR 高精度, 30+ 语言",
                id: "Qwen/Qwen3-ASR-1.7B-GGUF",
            },
        ),
        seed_entry(
            "asr_cpp"@,
            Seed {
                detail: "NVIDIA Nemotron 3.5 ASR 0.6B GGUF\n• 100+ 语言\n• 流式转写支持\n• GGUF + configs",
                size: "~1.2 GB",
                cpu: "流畅",
                dir: "Nemotron-ASR-GGUF",
                file: "nemotron-3.5-asr-streaming-0.6b-q4_k.gguf",
                config_repo: "nvidia/nemotron-3.5-asr-streaming-0.6b",
                name: "Nemotron 3.5 ASR (GGUF)",
                languages: "auto zh en ja ko yue fr de ru",
                gpu: "4GB+",
                family: "nemotron_asr",
                repo: "0x3/nemotron-3.5-asr-streaming-0.6b-GGUF",
                mode: "gguf_multi",
                config_files: "config.json processor_config.json tokenizer.json",
                description: "NVIDIA Nemotron 3.5 ASR, 100+ 语言, 流式",
                id: "Nvidia/Nemotron-ASR-GGUF",
            },
        ),
        seed_entry(
            "asr_cpp"@,
            Seed {
                detail: "Higgs Audio v3 STT GGUF\n• 英语专精",
                size: "~2.4 GB",
                cpu: "可运行但慢",
                dir: "Higgs-Audio-STT-GGUF",
                file: "higgs-audio-stt-1.7b.Q5_K_M.gguf",
                config_repo: "",
                name: "Higgs Audio STT (GGUF)",
                languages: "en",
                gpu: "6GB+",
                family: "higgs_audio_stt",
                repo: "Higgs/Higgs-Audio-STT-GGUF",
                mode: "gguf",
                config_files: "",
                description: "Higgs Audio v3 STT, 英语",
                id: "Higgs/Higgs-Audio-STT-GGUF",
            },
        ),
        seed_entry(
            "asr_cpp"@,
            Seed {
                detail: "NVIDIA Citrinet-256 GGUF\n• 极轻量\n• 适合低配设备",
                size: "~0.5 GB",
                cpu: "流畅",
                dir: "Citrinet-256-GGUF",
                file: "citrinet-256.Q5_K_M.gguf",
                config_repo: "",
                name: "Citrinet-256 (GGUF)",
                languages: "en",
                gpu: "1GB+",
                family: "citrinet_asr",
                repo: "Nvidia/Citrinet-256-GGUF",
                mode: "gguf",
                config_files: "",
                description: "NVIDIA Citrinet-256, 轻量快速",
                id: "Nvidia/Citrinet-256-GGUF",
            },
        ),
        seed_entry(
            "asr_cpp"@,
            Seed {
                detail: "Hviske ASR v5.3 GGUF\n• 丹麦语专精",
                size: "~1.0 GB",
                cpu: "流畅",
                dir: "Hviske-ASR-GGUF",
                file: "hviske-asr-v5.3.Q8_0.gguf",
                config_repo: "",
                name: "Hviske ASR v5.3 (GGUF)",
                languages: "da",
                gpu: "2GB+",
                family: "hviske_asr",
                repo: "audio-cpp/audio.cpp-gguf",
                mode: "gguf",
                config_files: "",
                description: "Hviske ASR v5.3, 丹麦语",
                id: "Hviske/Hviske-ASR-GGUF",
            },
        ),
        seed_entry(
            "asr_cpp"@,
            Seed {
                detail: "VibeVoice ASR GGUF\n• 自动语言检测\n• 多语言支持",
                size: "~1.5 GB",
                cpu: "可运行",
                dir: "VibeVoice-ASR-GGUF",
                file: "vibevoice-asr.Q8_0.gguf",
                config_repo: "",
                name: "VibeVoice ASR (GGUF)",
                languages: "auto zh en",
                gpu: "4GB+",
                family: "vibevoice_asr",
                repo: "audio-cpp/audio.cpp-gguf",
                mode: "gguf",
                config_files: "",
                description: "VibeVoice ASR, 自动语言检测",
                id: "VibeVoice/VibeVoice-ASR-GGUF",
            },
        ),
        seed_entry(
            "asr_cpp"@,
            Seed {
                detail: "Voxtral Mini 4B Realtime GGUF Q8_0\n• 纯 CPU RTF 0.064 (15.7x)\n• CUDA TTFT ~171 ms\n• 自动语言",
                size: "~4 GB",
                cpu: "流畅 (15.7x实时)",
                dir: "Voxtral-Realtime-GGUF",
                file: "voxtral-mini-4b.Q8_0.gguf",
                config_repo: "",
                name: "Voxtral Mini 4B (GGUF)",
                languages: "auto",
                gpu: "8GB+",
                family: "voxtral_realtime",
                repo: "audio-cpp/audio.cpp-gguf",
                mode: "gguf",
                config_files: "",
                description: "Voxtral Mini 4B Realtime, 流式 ASR, 11x 实时",
                id: "Voxtral/Voxtral-Realtime-GGUF",
            },
        ),
    ]
}

/// The speech synthesis entries of the catalog, in catalog order.
pub open spec fn tts_catalog() -> Seq<ModelInfoView> {
    seq![
        seed_entry(
            "tts"@,
            Seed {
                detail: "Qwen3-TTS 0.6B\n• 10+ 语言\n• 语音合成/克隆/设计",
                size: "~1.0 GB",
                cpu: "流畅",
                dir: "Qwen3-TTS-0.6B-GGUF",
                file: "qwen3-tts-0.6b.Q5_K_M.gguf",
                config_repo: "",
                name: "Qwen3-TTS 0.6B (GGUF)",
                languages: "zh en fr de it ja ko pt ru es",
                gpu: "2GB+",
                family: "qwen3_tts",
                repo: "Qwen/Qwen3-TTS-0.6B-GGUF",
                mode: "gguf",
                config_files: "",
                description: "Qwen3-TTS 轻量, 10+ 语言",
                id: "Qwen/Qwen3-TTS-0.6B-GGUF",
            },
        ),
        seed_entry(
            "tts"@,
            Seed {
                detail: "Qwen3-TTS 1.7B\n• 高音质\n• 语音合成/克隆/设计",
                size: "~2.4 GB",
                cpu: "可运行但慢",
                dir: "Qwen3-TTS-1.7B-GGUF",
                file: "qwen3-tts-1.7b.Q5_K_M.gguf",
                config_repo: "",
                name: "Qwen3-TTS 1.7B (GGUF)",
                languages: "zh en fr de it ja ko pt ru es",
                gpu: "6GB+",
                family: "qwen3_tts",
                repo: "Qwen/Qwen3-TTS-1.7B-GGUF",
                mode: "gguf",
                config_files: "",
                description: "Qwen3-TTS 高音质, 10+ 语言",
                id: "Qwen/Qwen3-TTS-1.7B-GGUF",
            },
        ),
        seed_entry(
            "tts"@,
            Seed {
                detail: "Chatterbox 0.5B\n• 17 语言\n• 语音克隆 + 语音转换\n• RTF 0.15 (6.7x 实时)",
                size: "~1.5 GB",
                cpu: "可运行",
                dir: "Chatterbox-GGUF",
                file: "chatterbox.Q8_0.gguf",
                config_repo: "",
                name: "Chatterbox 0.5B (GGUF)",
                languages: "ar da de el en es fi fr hi it ko ms nl no pl pt sv sw tr",
                gpu: "4GB+",
                family: "chatterbox",
                repo: "audio-cpp/audio.cpp-gguf",
                mode: "gguf",
                config_files: "",
                description: "Chatterbox TTS + 语音克隆, 17 语言",
                id: "Chatterbox/Chatterbox-GGUF",
            },
        ),
        seed_entry(
            "tts"@,
            Seed {
                detail: "Fish Audio S2 Pro GGUF Q8_0\n• 中英日韩西\n• 语音克隆",
                size: "~2 GB",
                cpu: "可运行",
                dir: "Fish-S2-Pro-GGUF",
                file: "fish-audio-s2-pro.Q8_0.gguf",
                config_repo: "",
                name: "Fish Audio S2 Pro (GGUF)",
                languages: "zh en ja ko es",
                gpu: "4GB+",
                family: "fish_audio",
                repo: "audio-cpp/audio.cpp-gguf",
                mode: "gguf",
                config_files: "",
                description: "Fish Audio S2 Pro, 中/英/日/韩/西",
                id: "FishAudio/Fish-S2-Pro-GGUF",
            },
        ),
        seed_entry(
            "tts"@,
            Seed {
                detail: "Higgs Audio v3 TTS 4B GGUF Q8_0\n• 自动语言检测\n• 语音克隆",
                size: "~6 GB",
                cpu: "不可",
                dir: "Higgs-TTS-4B-GGUF",
                file: "higgs-audio-v3-tts-4b.Q8_0.gguf",
                config_repo: "",
                name: "Higgs Audio TTS 4B (GGUF)",
                languages: "auto",
                gpu: "12GB+",
                family: "higgs_audio_tts",
                repo: "audio-cpp/audio.cpp-gguf",
                mode: "gguf",
                config_files: "",
                description: "Higgs Audio v3 TTS 4B, 自动语言",
                id: "Higgs/Higgs-TTS-4B-GGUF",
            },
        ),
        seed_entry(
            "tts"@,
            Seed {
                detail: "MioTTS 1.7B\n• 英/日\n• 语音克隆\n• RTF 0.17 (6.0x 实时)",
                size: "~2.5 GB",
                cpu: "可运行但慢",
                dir: "MioTTS-1.7B-GGUF",
                file: "miotts-1.7b.Q8_0.gguf",
                config_repo: "",
                name: "MioTTS 1.7B (GGUF)",
                languages: "en ja",
                gpu: "6GB+",
                family: "miotts",
                repo: "audio-cpp/audio.cpp-gguf",
                mode: "gguf",
                config_files: "",
                description: "MioTTS, 英/日 语音克隆",
                id: "MioTTS/MioTTS-1.7B-GGUF",
            },
        ),
        seed_entry(
            "tts"@,
            Seed {
                detail: "OmniVoice (Qwen3-0.6B based)\n• 646+ 语言\n• 语音克隆 + 语音设计\n• RTF 0.05 (20x 实时)",
                size: "~1.5 GB",
                cpu: "流畅",
                dir: "OmniVoice-GGUF",
                file: "omnivoice.Q8_0.gguf",
                config_repo: "",
                name: "OmniVoice (GGUF)",
                languages: "auto",
                gpu: "4GB+",
                family: "omnivoice",
                repo: "audio-cpp/audio.cpp-gguf",
                mode: "gguf",
                config_files: "",
                description: "OmniVoice, 646+ 语言, 语音设计",
                id: "OmniVoice/OmniVoice-GGUF",
            },
        ),
        seed_entry(
            "tts"@,
            Seed {
                detail: "PocketTTS 100M\n• 英/德/意/葡/西\n• RTF 0.03 (31x 实时, one-shot)\n• RTF 0.02 (48x 实时, long-form)",
                size: "~0.3 GB",
                cpu: "极速",
                dir: "PocketTTS-GGUF",
                file: "pocket-tts.Q8_0.gguf",
                config_repo: "",
                name: "PocketTTS 100M (GGUF)",
                languages: "en de it pt es",
                gpu: "1GB+",
                family: "pocket_tts",
                repo: "audio-cpp/audio.cpp-gguf",
                mode: "gguf",
                config_files: "",
                description: "PocketTTS, 极速 31x 实时, 4 语言",
                id: "PocketTTS/PocketTTS-GGUF",
            },
        ),
        seed_entry(
            "tts"@,
            Seed {
                detail: "Vevo2 (Qwen2.5-0.5B AR)\n• 中/英 TTS + 唱歌\n• 语音/歌声转换 + 编辑\n• RTF 0.12 (8.7x 实时)",
                size: "~2 GB",
                cpu: "可运行",
                dir: "Vevo2-GGUF",
                file: "vevo2.Q8_0.gguf",
                config_repo: "",
                name: "Vevo2 (GGUF)",
                languages: "zh en",
                gpu: "4GB+",
                family: "vevo2",
                repo: "audio-cpp/audio.cpp-gguf",
                mode: "gguf",
                config_files: "",
                description: "Vevo2 TTS + 歌声, 中/英, 5x faster",
                id: "Vevo2/Vevo2-GGUF",
            },
        ),
        seed_entry(
            "tts"@,
            Seed {
                detail: "VibeVoice 1.5B\n• 中/英多说话人对话 TTS\n• RTF 0.25 (4x 实时)\n• 10 步扩散 94 分钟播客 18 分钟完成",
                size: "~3 GB",
                cpu: "可运行",
                dir: "VibeVoice-1.5B-GGUF",
                file: "vibevoice-1.5b.Q8_0.gguf",
                config_repo: "",
                name: "VibeVoice 1.5B (GGUF)",
                languages: "zh en",
                gpu: "8GB+",
                family: "vibevoice",
                repo: "audio-cpp/audio.cpp-gguf",
                mode: "gguf",
                config_files: "",
                description: "VibeVoice 1.5B, 多说话人 TTS, 中/英",
                id: "VibeVoice/VibeVoice-1.5B-GGUF",
            },
        ),
        seed_entry(
            "tts"@,
            Seed {
                detail: "VibeVoice 7B\n• 中/英多说话人对话 TTS\n• 最高音质",
                size: "~12 GB",
                cpu: "不可",
                dir: "VibeVoice-7B-GGUF",
                file: "vibevoice-7b.Q8_0.gguf",
                config_repo: "",
                name: "VibeVoice 7B (GGUF)",
                languages: "zh en",
                gpu: "24GB+",
                family: "vibevoice",
                repo: "audio-cpp/audio.cpp-gguf",
                mode: "gguf",
                config_files: "",
                description: "VibeVoice 7B, 高音质多说话人 TTS",
                id: "VibeVoice/VibeVoice-7B-GGUF",
            },
        ),
        seed_entry(
            "tts"@,
            Seed {
                detail: "VoxCPM2 2B 48kHz\n• 30 语言\n• 语音克隆 + 设计\n• RTF 0.23 (4.3x 实时)",
                size: "~4 GB",
                cpu: "可运行但慢",
                dir: "VoxCPM2-GGUF",
                file: "voxcpm2.Q8_0.gguf",
                config_repo: "",
                name: "VoxCPM2 2B (GGUF)",
                languages: "ar da de el en es fi fr he hi id it ja km ko lo ms my nl no pl pt ru sv sw th tl tr vi zh",
                gpu: "8GB+",
                family: "voxcpm2",
                repo: "audio-cpp/audio.cpp-gguf",
                mode: "gguf",
                config_files: "",
                description: "VoxCPM2, 30 语言, 48kHz",
                id: "VoxCPM2/VoxCPM2-GGUF",
            },
        ),
        seed_entry(
            "tts"@,
            Seed {
                detail: "IndexTTS-2\n• 中/英\n• 语音克隆 + 情感表达\n• RTF 0.33 (3x 实时)",
                size: "~3 GB",
                cpu: "可运行但慢",
                dir: "IndexTTS2-GGUF",
                file: "index-tts2.Q8_0.gguf",
                config_repo: "",
                name: "IndexTTS-2 (GGUF)",
                languages: "zh en",
                gpu: "6GB+",
                family: "index_tts2",
                repo: "audio-cpp/audio.cpp-gguf",
                mode: "gguf",
                config_files: "",
                description: "IndexTTS-2, 中/英 情感语音合成",
                id: "IndexTTS2/IndexTTS2-GGUF",
            },
        ),
        seed_entry(
            "tts"@,
            Seed {
                detail: "Irodori-TTS 500M v3\n• 日语专精",
                size: "~1 GB",
                cpu: "流畅",
                dir: "Irodori-TTS-500M-GGUF",
                file: "irodori-tts-500m.Q8_0.gguf",
                config_repo: "",
                name: "Irodori-TTS 500M (GGUF)",
                languages: "ja",
                gpu: "2GB+",
                family: "irodori_tts",
                repo: "audio-cpp/audio.cpp-gguf",
                mode: "gguf",
                config_files: "",
                description: "Irodori-TTS, 日语 TTS",
                id: "Irodori/Irodori-TTS-500M-GGUF",
            },
        ),
        seed_entry(
            "tts"@,
            Seed {
                detail: "Irodori-TTS 600M v3 VoiceDesign\n• 日语\n• 语音设计功能",
                size: "~1.2 GB",
                cpu: "流畅",
                dir: "Irodori-TTS-600M-VD-GGUF",
                file: "irodori-tts-600m-vd.Q8_0.gguf",
                config_repo: "",
                name: "Irodori-TTS 600M VD (GGUF)",
                languages: "ja",
                gpu: "2GB+",
                family: "irodori_tts",
                repo: "audio-cpp/audio.cpp-gguf",
                mode: "gguf",
                config_files: "",
                description: "Irodori-TTS 日语语音设计",
                id: "Irodori/Irodori-TTS-600M-VD-GGUF",
            },
        ),
        seed_entry(
            "tts"@,
            Seed {
                detail: "MOSS-TTS Nano 100M\n• 自动语言检测\n• 极轻量\n• RTF 0.11 (9x 实时)",
                size: "~0.2 GB",
                cpu: "极速",
                dir: "MOSS-TTS-Nano-GGUF",
                file: "moss-tts-nano.Q8_0.gguf",
                config_repo: "",
                name: "MOSS-TTS Nano 100M (GGUF)",
                languages: "auto",
                gpu: "1GB+",
                family: "moss_tts_nano",
                repo: "audio-cpp/audio.cpp-gguf",
                mode: "gguf",
                config_files: "",
                description: "MOSS-TTS Nano, 极轻量, 自动语言",
                id: "MOSS/MOSS-TTS-Nano-GGUF",
            },
        ),
        seed_entry(
            "tts"@,
            Seed {
                detail: "MOSS-TTS Local Transformer v1.5\n• 自动语言 + 语言提示\n• RTF 0.20 (5x 实时)",
                size: "~1 GB",
                cpu: "流畅",
                dir: "MOSS-TTS-Local-GGUF",
                file: "moss-tts-local.Q8_0.gguf",
                config_repo: "",
                name: "MOSS-TTS Local (GGUF)",
                languages: "auto",
                gpu: "2GB+",
                family: "moss_tts_local",
                repo: "audio-cpp/audio.cpp-gguf",
                mode: "gguf",
                config_files: "",
                description: "MOSS-TTS Local Transformer v1.5",
                id: "MOSS/MOSS-TTS-Local-GGUF",
            },
        ),
        seed_entry(
            "tts"@,
            Seed {
                detail: "Supertonic 3\n• 30+ 语言\n• CUDA RTF 0.005 (188x 实时!)\n• CPU RTF 0.162 (6x 实时)\n• 10 小时音频 3 分钟生成",
                size: "~2 GB",
                cpu: "流畅 (6x实时)",
                dir: "Supertonic-3-GGUF",
                file: "supertonic-3.Q8_0.gguf",
                config_repo: "",
                name: "Supertonic 3 (GGUF)",
                languages: "en ko ja ar bg cs da de el es et fi fr hi hr hu id it lt lv nl pl pt ro ru sk sl sv tr uk vi",
                gpu: "4GB+",
                family: "supertonic",
                repo: "audio-cpp/audio.cpp-gguf",
                mode: "gguf",
                config_files: "",
                description: "Supertonic 3, 30+ 语言, 200x 实时!",
                id: "Supertonic/Supertonic-3-GGUF",
            },
        ),
        seed_entry(
            "tts"@,
            Seed {
                detail: "Llama-OuteTTS 1.0 1B\n• 24 语言\n• 语音克隆\n• 社区贡献 (Mirek)",
                size: "~2 GB",
                cpu: "可运行",
                dir: "OuteTTS-1B-GGUF",
                file: "outetts-1b.Q8_0.gguf",
                config_repo: "",
                name: "OuteTTS 1.0 1B (GGUF)",
                languages: "en ar zh nl fr de it ja ko lt ru es pt be bn ka hu lv fa pl sw ta uk",
                gpu: "4GB+",
                family: "outetts",
                repo: "mirek190/audio.cpp",
                mode: "gguf",
                config_files: "",
                description: "OuteTTS, 24 语言, 语音克隆",
                id: "OuteTTS/OuteTTS-1B-GGUF",
            },
        ),
        seed_entry(
            "tts"@,
            Seed {
                detail: "VieNeu-TTS v3 Turbo\n• 越/英\n• 语音克隆\n• 社区贡献 (Phuoc)",
                size: "~1 GB",
                cpu: "流畅",
                dir: "VieNeu-TTS-GGUF",
                file: "vietneu-tts-v3.Q8_0.gguf",
                config_repo: "",
                name: "VieNeu-TTS v3 Turbo (GGUF)",
                languages: "vi en",
                gpu: "2GB+",
                family: "vietneu_tts",
                repo: "audio-cpp/audio.cpp-gguf",
                mode: "gguf",
                config_files: "",
                description: "VieNeu-TTS, 越/英, 社区贡献",
                id: "VieNeu/VieNeu-TTS-GGUF",
            },
        ),
    ]
}

/// The voice activity, diarization, alignment, conversion, codec, music and separation entries of the catalog, in catalog order.
pub open spec fn other_catalog() -> Seq<ModelInfoView> {
    seq![
        seed_entry(
            "vad"@,
            Seed {
                detail: "MarbleNet VAD\n• 语言无关\n• 语音活动检测",
                size: "~0.1 GB",
                cpu: "流畅",
                dir: "MarbleNet-VAD",
                file: "",
                config_repo: "",
                name: "MarbleNet VAD",
                languages: "lang_agnostic",
                gpu: "1GB+",
                family: "marblenet_vad",
                repo: "",
                mode: "safetensors",
                config_files: "",
                description: "MarbleNet VAD",
                id: "MarbleNet/MarbleNet-VAD",
            },
        ),
        seed_entry(
            "vad"@,
            Seed {
                detail: "Silero VAD\n• 语言无关\n• 经典 VAD 模型",
                size: "~0.05 GB",
                cpu: "流畅",
                dir: "Silero-VAD",
                file: "",
                config_repo: "",
                name: "Silero VAD",
                languages: "lang_agnostic",
                gpu: "1GB+",
                family: "silero_vad",
                repo: "",
                mode: "safetensors",
                config_files: "",
                description: "Silero VAD",
                id: "Silero/Silero-VAD",
            },
        ),
        seed_entry(
            "diar"@,
            Seed {
                detail: "Sortformer 4spk v1\n• 英语说话人分离",
                size: "~1 GB",
                cpu: "可运行",
                dir: "Sortformer-Diar",
                file: "",
                config_repo: "",
                name: "Sortformer 4spk Diar",
                languages: "en",
                gpu: "2GB+",
                family: "sortformer_diar",
                repo: "",
                mode: "safetensors",
                config_files: "",
                description: "Sortformer 4 说话人分离, 英语",
                id: "Sortformer/Sortformer-Diar",
            },
        ),
        seed_entry(
            "align"@,
            Seed {
                detail: "Qwen3 Forced Aligner 0.6B\n• 11 语言强制对齐\n• 精确时间戳",
                size: "~1 GB",
                cpu: "流畅",
                dir: "Qwen3-Aligner-0.6B",
                file: "qwen3-aligner-0.6b.Q8_0.gguf",
                config_repo: "",
                name: "Qwen3 Forced Aligner 0.6B",
                languages: "zh yue en de es fr it pt ru ko ja",
                gpu: "2GB+",
                family: "qwen3_forced_aligner",
                repo: "audio-cpp/audio.cpp-gguf",
                mode: "gguf",
                config_files: "",
                description: "Qwen3 强制对齐, 11 语言",
                id: "Qwen3/Qwen3-Aligner-0.6B",
            },
        ),
        seed_entry(
            "vc"@,
            Seed {
                detail: "SeedVC XLS-R + HiFT / Whisper-small + BigVGAN\n• 语言无关语音转换",
                size: "~2 GB",
                cpu: "可运行",
                dir: "SeedVC-MLX",
                file: "",
                config_repo: "",
                name: "SeedVC Voice Conversion",
                languages: "lang_agnostic",
                gpu: "4GB+",
                family: "seed_vc",
                repo: "",
                mode: "safetensors",
                config_files: "",
                description: "SeedVC 语音转换, 语言无关",
                id: "SeedVC/SeedVC-MLX",
            },
        ),
        seed_entry(
            "codec"@,
            Seed {
                detail: "MioCodec v2\n• 25 Hz, 44.1 kHz\n• 语音转换后端",
                size: "~0.5 GB",
                cpu: "流畅",
                dir: "MioCodec-v2",
                file: "",
                config_repo: "",
                name: "MioCodec v2 25Hz",
                languages: "lang_agnostic",
                gpu: "1GB+",
                family: "miocodec",
                repo: "",
                mode: "safetensors",
                config_files: "",
                description: "MioCodec 音频编解码, 25Hz 44.1kHz",
                id: "MioCodec/MioCodec-v2",
            },
        ),
        seed_entry(
            "music"@,
            Seed {
                detail: "ACE-Step 1.5 Turbo/Base\n• 50+ 语言音乐生成\n• 音乐编辑",
                size: "~4 GB",
                cpu: "可运行但慢",
                dir: "ACE-Step-1.5",
                file: "",
                config_repo: "",
                name: "ACE-Step 1.5",
                languages: "auto",
                gpu: "8GB+",
                family: "ace_step",
                repo: "",
                mode: "safetensors",
                config_files: "",
                description: "ACE-Step 音乐生成/编辑, 50+ 语言",
                id: "ACE-Step/ACE-Step-1.5",
            },
        ),
        seed_entry(
            "music"@,
            Seed {
                detail: "HeartMuLa-oss-3B\n• 中/英/日/韩/西\n• HeartCodec-oss",
                size: "~6 GB",
                cpu: "不可",
                dir: "HeartMuLa-3B",
                file: "",
                config_repo: "",
                name: "HeartMuLa 3B",
                languages: "zh en ja ko es",
                gpu: "12GB+",
                family: "heartmula",
                repo: "",
                mode: "safetensors",
                config_files: "",
                description: "HeartMuLa 音乐生成, 中/英/日/韩/西",
                id: "HeartMuLa/HeartMuLa-3B",
            },
        ),
        seed_entry(
            "music"@,
            Seed {
                detail: "Stable Audio 3 Small Music\n• 音乐生成",
                size: "~2 GB",
                cpu: "可运行",
                dir: "SA3-Small-Music",
                file: "",
                config_repo: "",
                name: "Stable Audio 3 Small Music",
                languages: "en",
                gpu: "4GB+",
                family: "stable_audio",
                repo: "",
                mode: "safetensors",
                config_files: "",
                description: "Stable Audio 3 Small, 音乐生成",
                id: "StableAudio/SA3-Small-Music",
            },
        ),
        seed_entry(
            "music"@,
            Seed {
                detail: "Stable Audio 3 Small SFX\n• 音效生成",
                size: "~2 GB",
                cpu: "可运行",
                dir: "SA3-Small-SFX",
                file: "",
                config_repo: "",
                name: "Stable Audio 3 Small SFX",
                languages: "en",
                gpu: "4GB+",
                family: "stable_audio",
                repo: "",
                mode: "safetensors",
                config_files: "",
                description: "Stable Audio 3 Small, 音效生成",
                id: "StableAudio/SA3-Small-SFX",
            },
        ),
        seed_entry(
            "music"@,
            Seed {
                detail: "Stable Audio 3 Medium\n• 高质量音乐生成",
                size: "~6 GB",
                cpu: "不可",
                dir: "SA3-Medium",
                file: "",
                config_repo: "",
                name: "Stable Audio 3 Medium",
                languages: "en",
                gpu: "12GB+",
                family: "stable_audio",
                repo: "",
                mode: "safetensors",
                config_files: "",
                description: "Stable Audio 3 Medium, 高质量音乐生成",
                id: "StableAudio/SA3-Medium",
            },
        ),
        seed_entry(
            "sep"@,
            Seed {
                detail: "HTDemucs / HTDemucs_ft\n• 音源分离 (人声/伴奏/鼓/贝斯)",
                size: "~0.5 GB",
                cpu: "流畅",
                dir: "HTDemucs",
                file: "",
                config_repo: "",
                name: "HTDemucs",
                languages: "lang_agnostic",
                gpu: "2GB+",
                family: "htdemucs",
                repo: "",
                mode: "safetensors",
                config_files: "",
                description: "HTDemucs 音源分离, 语言无关",
                id: "HTDemucs/HTDemucs",
            },
        ),
        seed_entry(
            "sep"@,
            Seed {
                detail: "Mel-Band RoFormer MLX\n• 人声分离\n• 语言无关",
                size: "~1 GB",
                cpu: "流畅",
                dir: "MBR-MLX",
                file: "",
                config_repo: "",
                name: "Mel-Band RoFormer",
                languages: "lang_agnostic",
                gpu: "2GB+",
                family: "mel_band_roformer",
                repo: "",
                mode: "safetensors",
                config_files: "",
                description: "Mel-Band RoFormer 人声分离",
                id: "MelBandRoformer/MBR-MLX",
            },
        ),
    ]
}

/// Builds the speech recognition entries of the catalog.
pub(crate) fn asr_models() -> (v: Vec<ModelInfo>)
    ensures
        v.deep_view() == asr_catalog(),
{
    let mut v: Vec<ModelInfo> = Vec::new();
    v.push(m_asr(Seed {
        detail: "Qwen3-ASR 0.6B GGUF\n• 30 语言: 中/英/日/韩/粤/法/德/俄...\n• CUDA/CPU 多后端",
        size: "~1.0 GB",
        cpu: "流畅",
        dir: "Qwen3-ASR-0.6B-GGUF",
        file: "qwen3-asr-0.6b.Q5_K_M.gguf",
        config_repo: "",
        name: "Qwen3-ASR 0.6B (GGUF)",
        languages: "zh en ja ko yue fr de ru ar es pt id it th vi tr hi ms nl sv da fi pl cs fil fa el ro hu mk",
        gpu: "2GB+",
        family: "qwen3_asr",
        repo: "Qwen/Qwen3-ASR-0.6B-GGUF",
        mode: "gguf",
        config_files: "",
        description: "Qwen3-ASR 轻量, 30+ 语言",
        id: "Qwen/Qwen3-ASR-0.6B-GGUF",
    }));
    v.push(m_asr(Seed {
        detail: "Qwen3-ASR 1.7B GGUF\n• 30 语言\n• 高精度中文识别, 内置标点",
        size: "~2.4 GB",
        cpu: "可运行但慢",
        dir: "Qwen3-ASR-1.7B-GGUF",
        file: "qwen3-asr-1.7b.Q5_K_M.gguf",
        config_repo: "",
        name: "Qwen3-ASR 1.7B (GGUF)",
        languages: "zh en ja ko yue fr de ru ar es pt id it th vi tr hi ms nl sv da fi pl cs fil fa el ro hu mk",
        gpu: "6GB+",
        family: "qwen3_asr",
        repo: "Qwen/Qwen3-ASR-1.7B-GGUF",
        mode: "gguf",
        config_files: "",
        description: "Qwen3-ASR 高精度, 30+ 语言",
        id: "Qwen/Qwen3-ASR-1.7B-GGUF",
    }));
    v.push(m_asr(Seed {
        detail: "NVIDIA Nemotron 3.5 ASR 0.6B GGUF\n• 100+ 语言\n• 流式转写支持\n• GGUF + configs",
        size: "~1.2 GB",
        cpu: "流畅",
        dir: "Nemotron-ASR-GGUF",
        file: "nemotron-3.5-asr-streaming-0.6b-q4_k.gguf",
        config_repo: "nvidia/nemotron-3.5-asr-streaming-0.6b",
        name: "Nemotron 3.5 ASR (GGUF)",
        languages: "auto zh en ja ko yue fr de ru",
        gpu: "4GB+",
        family: "nemotron_asr",
        repo: "0x3/nemotron-3.5-asr-streaming-0.6b-GGUF",
        mode: "gguf_multi",
        config_files: "config.json processor_config.json tokenizer.json",
        description: "NVIDIA Nemotron 3.5 ASR, 100+ 语言, 流式",
        id: "Nvidia/Nemotron-ASR-GGUF",
    }));
    v.push(m_asr(Seed {
        detail: "Higgs Audio v3 STT GGUF\n• 英语专精",
        size: "~2.4 GB",
        cpu: "可运行但慢",
        dir: "Higgs-Audio-STT-GGUF",
        file: "higgs-audio-stt-1.7b.Q5_K_M.gguf",
        config_repo: "",
        name: "Higgs Audio STT (GGUF)",
        languages: "en",
        gpu: "6GB+",
        family: "higgs_audio_stt",
        repo: "Higgs/Higgs-Audio-STT-GGUF",
        mode: "gguf",
        config_files: "",
        description: "Higgs Audio v3 STT, 英语",
        id: "Higgs/Higgs-Audio-STT-GGUF",
    }));
    v.push(m_asr(Seed {
        detail: "NVIDIA Citrinet-256 GGUF\n• 极轻量\n• 适合低配设备",
        size: "~0.5 GB",
        cpu: "流畅",
        dir: "Citrinet-256-GGUF",
        file: "citrinet-256.Q5_K_M.gguf",
        config_repo: "",
        name: "Citrinet-256 (GGUF)",
        languages: "en",
        gpu: "1GB+",
        family: "citrinet_asr",
        repo: "Nvidia/Citrinet-256-GGUF",
        mode: "gguf",
        config_files: "",
        description: "NVIDIA Citrinet-256, 轻量快速",
        id: "Nvidia/Citrinet-256-GGUF",
    }));
    v.push(m_asr(Seed {
        detail: "Hviske ASR v5.3 GGUF\n• 丹麦语专精",
        size: "~1.0 GB",
        cpu: "流畅",
        dir: "Hviske-ASR-GGUF",
        file: "hviske-asr-v5.3.Q8_0.gguf",
        config_repo: "",
        name: "Hviske ASR v5.3 (GGUF)",
        languages: "da",
        gpu: "2GB+",
        family: "hviske_asr",
        repo: "audio-cpp/audio.cpp-gguf",
        mode: "gguf",
        config_files: "",
        description: "Hviske ASR v5.3, 丹麦语",
        id: "Hviske/Hviske-ASR-GGUF",
    }));
    v.push(m_asr(Seed {
        detail: "VibeVoice ASR GGUF\n• 自动语言检测\n• 多语言支持",
        size: "~1.5 GB",
        cpu: "可运行",
        dir: "VibeVoice-ASR-GGUF",
        file: "vibevoice-asr.Q8_0.gguf",
        config_repo: "",
        name: "VibeVoice ASR (GGUF)",
        languages: "auto zh en",
        gpu: "4GB+",
        family: "vibevoice_asr",
        repo: "audio-cpp/audio.cpp-gguf",
        mode: "gguf",
        config_files: "",
        description: "VibeVoice ASR, 自动语言检测",
        id: "VibeVoice/VibeVoice-ASR-GGUF",
    }));
    v.push(m_asr(Seed {
        detail: "Voxtral Mini 4B Realtime GGUF Q8_0\n• 纯 CPU RTF 0.064 (15.7x)\n• CUDA TTFT ~171 ms\n• 自动语言",
        size: "~4 GB",
        cpu: "流畅 (15.7x实时)",
        dir: "Voxtral-Realtime-GGUF",
        file: "voxtral-mini-4b.Q8_0.gguf",
        config_repo: "",
        name: "Voxtral Mini 4B (GGUF)",
        languages: "auto",
        gpu: "8GB+",
        family: "voxtral_realtime",
        repo: "audio-cpp/audio.cpp-gguf",
        mode: "gguf",
        config_files: "",
        description: "Voxtral Mini 4B Realtime, 流式 ASR, 11x 实时",
        id: "Voxtral/Voxtral-Realtime-GGUF",
    }));
    assert(v.deep_view() =~~= asr_catalog());
    v
}

/// Builds the speech synthesis entries of the catalog.
pub(crate) fn tts_models() -> (v: Vec<ModelInfo>)
    ensures
        v.deep_view() == tts_catalog(),
{
    let mut v: Vec<ModelInfo> = Vec::new();
    v.push(m_tts(Seed {
        detail: "Qwen3-TTS 0.6B\n• 10+ 语言\n• 语音合成/克隆/设计",
        size: "~1.0 GB",
        cpu: "流畅",
        dir: "Qwen3-TTS-0.6B-GGUF",
        file: "qwen3-tts-0.6b.Q5_K_M.gguf",
        config_repo: "",
        name: "Qwen3-TTS 0.6B (GGUF)",
        languages: "zh en fr de it ja ko pt ru es",
        gpu: "2GB+",
        family: "qwen3_tts",
        repo: "Qwen/Qwen3-TTS-0.6B-GGUF",
        mode: "gguf",
        config_files: "",
        description: "Qwen3-TTS 轻量, 10+ 语言",
        id: "Qwen/Qwen3-TTS-0.6B-GGUF",
    }));
    v.push(m_tts(Seed {
        detail: "Qwen3-TTS 1.7B\n• 高音质\n• 语音合成/克隆/设计",
        size: "~2.4 GB",
        cpu: "可运行但慢",
        dir: "Qwen3-TTS-1.7B-GGUF",
        file: "qwen3-tts-1.7b.Q5_K_M.gguf",
        config_repo: "",
        name: "Qwen3-TTS 1.7B (GGUF)",
        languages: "zh en fr de it ja ko pt ru es",
        gpu: "6GB+",
        family: "qwen3_tts",
        repo: "Qwen/Qwen3-TTS-1.7B-GGUF",
        mode: "gguf",
        config_files: "",
        description: "Qwen3-TTS 高音质, 10+ 语言",
        id: "Qwen/Qwen3-TTS-1.7B-GGUF",
    }));
    v.push(m_tts(Seed {
        detail: "Chatterbox 0.5B\n• 17 语言\n• 语音克隆 + 语音转换\n• RTF 0.15 (6.7x 实时)",
        size: "~1.5 GB",
        cpu: "可运行",
        dir: "Chatterbox-GGUF",
        file: "chatterbox.Q8_0.gguf",
        config_repo: "",
        name: "Chatterbox 0.5B (GGUF)",
        languages: "ar da de el en es fi fr hi it ko ms nl no pl pt sv sw tr",
        gpu: "4GB+",
        family: "chatterbox",
        repo: "audio-cpp/audio.cpp-gguf",
        mode: "gguf",
        config_files: "",
        description: "Chatterbox TTS + 语音克隆, 17 语言",
        id: "Chatterbox/Chatterbox-GGUF",
    }));
    v.push(m_tts(Seed {
        detail: "Fish Audio S2 Pro GGUF Q8_0\n• 中英日韩西\n• 语音克隆",
        size: "~2 GB",
        cpu: "可运行",
        dir: "Fish-S2-Pro-GGUF",
        file: "fish-audio-s2-pro.Q8_0.gguf",
        config_repo: "",
        name: "Fish Audio S2 Pro (GGUF)",
        languages: "zh en ja ko es",
        gpu: "4GB+",
        family: "fish_audio",
        repo: "audio-cpp/audio.cpp-gguf",
        mode: "gguf",
        config_files: "",
        description: "Fish Audio S2 Pro, 中/英/日/韩/西",
        id: "FishAudio/Fish-S2-Pro-GGUF",
    }));
    v.push(m_tts(Seed {
        detail: "Higgs Audio v3 TTS 4B GGUF Q8_0\n• 自动语言检测\n• 语音克隆",
        size: "~6 GB",
        cpu: "不可",
        dir: "Higgs-TTS-4B-GGUF",
        file: "higgs-audio-v3-tts-4b.Q8_0.gguf",
        config_repo: "",
        name: "Higgs Audio TTS 4B (GGUF)",
        languages: "auto",
        gpu: "12GB+",
        family: "higgs_audio_tts",
        repo: "audio-cpp/audio.cpp-gguf",
        mode: "gguf",
        config_files: "",
        description: "Higgs Audio v3 TTS 4B, 自动语言",
        id: "Higgs/Higgs-TTS-4B-GGUF",
    }));
    v.push(m_tts(Seed {
        detail: "MioTTS 1.7B\n• 英/日\n• 语音克隆\n• RTF 0.17 (6.0x 实时)",
        size: "~2.5 GB",
        cpu: "可运行但慢",
        dir: "MioTTS-1.7B-GGUF",
        file: "miotts-1.7b.Q8_0.gguf",
        config_repo: "",
        name: "MioTTS 1.7B (GGUF)",
        languages: "en ja",
        gpu: "6GB+",
        family: "miotts",
        repo: "audio-cpp/audio.cpp-gguf",
        mode: "gguf",
        config_files: "",
        description: "MioTTS, 英/日 语音克隆",
        id: "MioTTS/MioTTS-1.7B-GGUF",
    }));
    v.push(m_tts(Seed {
        detail: "OmniVoice (Qwen3-0.6B based)\n• 646+ 语言\n• 语音克隆 + 语音设计\n• RTF 0.05 (20x 实时)",
        size: "~1.5 GB",
        cpu: "流畅",
        dir: "OmniVoice-GGUF",
        file: "omnivoice.Q8_0.gguf",
        config_repo: "",
        name: "OmniVoice (GGUF)",
        languages: "auto",
        gpu: "4GB+",
        family: "omnivoice",
        repo: "audio-cpp/audio.cpp-gguf",
        mode: "gguf",
        config_files: "",
        description: "OmniVoice, 646+ 语言, 语音设计",
        id: "OmniVoice/OmniVoice-GGUF",
    }));
    v.push(m_tts(Seed {
        detail: "PocketTTS 100M\n• 英/德/意/葡/西\n• RTF 0.03 (31x 实时, one-shot)\n• RTF 0.02 (48x 实时, long-form)",
        size: "~0.3 GB",
        cpu: "极速",
        dir: "PocketTTS-GGUF",
        file: "pocket-tts.Q8_0.gguf",
        config_repo: "",
        name: "PocketTTS 100M (GGUF)",
        languages: "en de it pt es",
        gpu: "1GB+",
        family: "pocket_tts",
        repo: "audio-cpp/audio.cpp-gguf",
        mode: "gguf",
        config_files: "",
        description: "PocketTTS, 极速 31x 实时, 4 语言",
        id: "PocketTTS/PocketTTS-GGUF",
    }));
    v.push(m_tts(Seed {
        detail: "Vevo2 (Qwen2.5-0.5B AR)\n• 中/英 TTS + 唱歌\n• 语音/歌声转换 + 编辑\n• RTF 0.12 (8.7x 实时)",
        size: "~2 GB",
        cpu: "可运行",
        dir: "Vevo2-GGUF",
        file: "vevo2.Q8_0.gguf",
        config_repo: "",
        name: "Vevo2 (GGUF)",
        languages: "zh en",
        gpu: "4GB+",
        family: "vevo2",
        repo: "audio-cpp/audio.cpp-gguf",
        mode: "gguf",
        config_files: "",
        description: "Vevo2 TTS + 歌声, 中/英, 5x faster",
        id: "Vevo2/Vevo2-GGUF",
    }));
    v.push(m_tts(Seed {
        detail: "VibeVoice 1.5B\n• 中/英多说话人对话 TTS\n• RTF 0.25 (4x 实时)\n• 10 步扩散 94 分钟播客 18 分钟完成",
        size: "~3 GB",
        cpu: "可运行",
        dir: "VibeVoice-1.5B-GGUF",
        file: "vibevoice-1.5b.Q8_0.gguf",
        config_repo: "",
        name: "VibeVoice 1.5B (GGUF)",
        languages: "zh en",
        gpu: "8GB+",
        family: "vibevoice",
        repo: "audio-cpp/audio.cpp-gguf",
        mode: "gguf",
        config_files: "",
        description: "VibeVoice 1.5B, 多说话人 TTS, 中/英",
        id: "VibeVoice/VibeVoice-1.5B-GGUF",
    }));
    v.push(m_tts(Seed {
        detail: "VibeVoice 7B\n• 中/英多说话人对话 TTS\n• 最高音质",
        size: "~12 GB",
        cpu: "不可",
        dir: "VibeVoice-7B-GGUF",
        file: "vibevoice-7b.Q8_0.gguf",
        config_repo: "",
        name: "VibeVoice 7B (GGUF)",
        languages: "zh en",
        gpu: "24GB+",
        family: "vibevoice",
        repo: "audio-cpp/audio.cpp-gguf",
        mode: "gguf",
        config_files: "",
        description: "VibeVoice 7B, 高音质多说话人 TTS",
        id: "VibeVoice/VibeVoice-7B-GGUF",
    }));
    v.push(m_tts(Seed {
        detail: "VoxCPM2 2B 48kHz\n• 30 语言\n• 语音克隆 + 设计\n• RTF 0.23 (4.3x 实时)",
        size: "~4 GB",
        cpu: "可运行但慢",
        dir: "VoxCPM2-GGUF",
        file: "voxcpm2.Q8_0.gguf",
        config_repo: "",
        name: "VoxCPM2 2B (GGUF)",
        languages: "ar da de el en es fi fr he hi id it ja km ko lo ms my nl no pl pt ru sv sw th tl tr vi zh",
        gpu: "8GB+",
        family: "voxcpm2",
        repo: "audio-cpp/audio.cpp-gguf",
        mode: "gguf",
        config_files: "",
        description: "VoxCPM2, 30 语言, 48kHz",
        id: "VoxCPM2/VoxCPM2-GGUF",
    }));
    v.push(m_tts(Seed {
        detail: "IndexTTS-2\n• 中/英\n• 语音克隆 + 情感表达\n• RTF 0.33 (3x 实时)",
        size: "~3 GB",
        cpu: "可运行但慢",
        dir: "IndexTTS2-GGUF",
        file: "index-tts2.Q8_0.gguf",
        config_repo: "",
        name: "IndexTTS-2 (GGUF)",
        languages: "zh en",
        gpu: "6GB+",
        family: "index_tts2",
        repo: "audio-cpp/audio.cpp-gguf",
        mode: "gguf",
        config_files: "",
        description: "IndexTTS-2, 中/英 情感语音合成",
        id: "IndexTTS2/IndexTTS2-GGUF",
    }));
    v.push(m_tts(Seed {
        detail: "Irodori-TTS 500M v3\n• 日语专精",
        size: "~1 GB",
        cpu: "流畅",
        dir: "Irodori-TTS-500M-GGUF",
        file: "irodori-tts-500m.Q8_0.gguf",
        config_repo: "",
        name: "Irodori-TTS 500M (GGUF)",
        languages: "ja",
        gpu: "2GB+",
        family: "irodori_tts",
        repo: "audio-cpp/audio.cpp-gguf",
        mode: "gguf",
        config_files: "",
        description: "Irodori-TTS, 日语 TTS",
        id: "Irodori/Irodori-TTS-500M-GGUF",
    }));
    v.push(m_tts(Seed {
        detail: "Irodori-TTS 600M v3 VoiceDesign\n• 日语\n• 语音设计功能",
        size: "~1.2 GB",
        cpu: "流畅",
        dir: "Irodori-TTS-600M-VD-GGUF",
        file: "irodori-tts-600m-vd.Q8_0.gguf",
        config_repo: "",
        name: "Irodori-TTS 600M VD (GGUF)",
        languages: "ja",
        gpu: "2GB+",
        family: "irodori_tts",
        repo: "audio-cpp/audio.cpp-gguf",
        mode: "gguf",
        config_files: "",
        description: "Irodori-TTS 日语语音设计",
        id: "Irodori/Irodori-TTS-600M-VD-GGUF",
    }));
    v.push(m_tts(Seed {
        detail: "MOSS-TTS Nano 100M\n• 自动语言检测\n• 极轻量\n• RTF 0.11 (9x 实时)",
        size: "~0.2 GB",
        cpu: "极速",
        dir: "MOSS-TTS-Nano-GGUF",
        file: "moss-tts-nano.Q8_0.gguf",
        config_repo: "",
        name: "MOSS-TTS Nano 100M (GGUF)",
        languages: "auto",
        gpu: "1GB+",
        family: "moss_tts_nano",
        repo: "audio-cpp/audio.cpp-gguf",
        mode: "gguf",
        config_files: "",
        description: "MOSS-TTS Nano, 极轻量, 自动语言",
        id: "MOSS/MOSS-TTS-Nano-GGUF",
    }));
    v.push(m_tts(Seed {
        detail: "MOSS-TTS Local Transformer v1.5\n• 自动语言 + 语言提示\n• RTF 0.20 (5x 实时)",
        size: "~1 GB",
        cpu: "流畅",
        dir: "MOSS-TTS-Local-GGUF",
        file: "moss-tts-local.Q8_0.gguf",
        config_repo: "",
        name: "MOSS-TTS Local (GGUF)",
        languages: "auto",
        gpu: "2GB+",
        family: "moss_tts_local",
        repo: "audio-cpp/audio.cpp-gguf",
        mode: "gguf",
        config_files: "",
        description: "MOSS-TTS Local Transformer v1.5",
        id: "MOSS/MOSS-TTS-Local-GGUF",
    }));
    v.push(m_tts(Seed {
        detail: "Supertonic 3\n• 30+ 语言\n• CUDA RTF 0.005 (188x 实时!)\n• CPU RTF 0.162 (6x 实时)\n• 10 小时音频 3 分钟生成",
        size: "~2 GB",
        cpu: "流畅 (6x实时)",
        dir: "Supertonic-3-GGUF",
        file: "supertonic-3.Q8_0.gguf",
        config_repo: "",
        name: "Supertonic 3 (GGUF)",
        languages: "en ko ja ar bg cs da de el es et fi fr hi hr hu id it lt lv nl pl pt ro ru sk sl sv tr uk vi",
        gpu: "4GB+",
        family: "supertonic",
        repo: "audio-cpp/audio.cpp-gguf",
        mode: "gguf",
        config_files: "",
        description: "Supertonic 3, 30+ 语言, 200x 实时!",
        id: "Supertonic/Supertonic-3-GGUF",
    }));
    v.push(m_tts(Seed {
        detail: "Llama-OuteTTS 1.0 1B\n• 24 语言\n• 语音克隆\n• 社区贡献 (Mirek)",
        size: "~2 GB",
        cpu: "可运行",
        dir: "OuteTTS-1B-GGUF",
        file: "outetts-1b.Q8_0.gguf",
        config_repo: "",
        name: "OuteTTS 1.0 1B (GGUF)",
        languages: "en ar zh nl fr de it ja ko lt ru es pt be bn ka hu lv fa pl sw ta uk",
        gpu: "4GB+",
        family: "outetts",
        repo: "mirek190/audio.cpp",
        mode: "gguf",
        config_files: "",
        description: "OuteTTS, 24 语言, 语音克隆",
        id: "OuteTTS/OuteTTS-1B-GGUF",
    }));
    v.push(m_tts(Seed {
        detail: "VieNeu-TTS v3 Turbo\n• 越/英\n• 语音克隆\n• 社区贡献 (Phuoc)",
        size: "~1 GB",
        cpu: "流畅",
        dir: "VieNeu-TTS-GGUF",
        file: "vietneu-tts-v3.Q8_0.gguf",
        config_repo: "",
        name: "VieNeu-TTS v3 Turbo (GGUF)",
        languages: "vi en",
        gpu: "2GB+",
        family: "vietneu_tts",
        repo: "audio-cpp/audio.cpp-gguf",
        mode: "gguf",
        config_files: "",
        description: "VieNeu-TTS, 越/英, 社区贡献",
        id: "VieNeu/VieNeu-TTS-GGUF",
    }));
    assert(v.deep_view() =~~= tts_catalog());
    v
}

/// Builds the voice activity, diarization, alignment, conversion, codec, music and separation entries of the catalog.
pub(crate) fn other_models() -> (v: Vec<ModelInfo>)
    ensures
        v.deep_view() == other_catalog(),
{
    let mut v: Vec<ModelInfo> = Vec::new();
    v.push(m_other(
        "vad",
        Seed {
            detail: "MarbleNet VAD\n• 语言无关\n• 语音活动检测",
            size: "~0.1 GB",
            cpu: "流畅",
            dir: "MarbleNet-VAD",
            file: "",
            config_repo: "",
            name: "MarbleNet VAD",
            languages: "lang_agnostic",
            gpu: "1GB+",
            family: "marblenet_vad",
            repo: "",
            mode: "safetensors",
            config_files: "",
            description: "MarbleNet VAD",
            id: "MarbleNet/MarbleNet-VAD",
        },
    ));
    v.push(m_other(
        "vad",
        Seed {
            detail: "Silero VAD\n• 语言无关\n• 经典 VAD 模型",
            size: "~0.05 GB",
            cpu: "流畅",
            dir: "Silero-VAD",
            file: "",
            config_repo: "",
            name: "Silero VAD",
            languages: "lang_agnostic",
            gpu: "1GB+",
            family: "silero_vad",
            repo: "",
            mode: "safetensors",
            config_files: "",
            description: "Silero VAD",
            id: "Silero/Silero-VAD",
        },
    ));
    v.push(m_other(
        "diar",
        Seed {
            detail: "Sortformer 4spk v1\n• 英语说话人分离",
            size: "~1 GB",
            cpu: "可运行",
            dir: "Sortformer-Diar",
            file: "",
            config_repo: "",
            name: "Sortformer 4spk Diar",
            languages: "en",
            gpu: "2GB+",
            family: "sortformer_diar",
            repo: "",
            mode: "safetensors",
            config_files: "",
            description: "Sortformer 4 说话人分离, 英语",
            id: "Sortformer/Sortformer-Diar",
        },
    ));
    v.push(m_other(
        "align",
        Seed {
            detail: "Qwen3 Forced Aligner 0.6B\n• 11 语言强制对齐\n• 精确时间戳",
            size: "~1 GB",
            cpu: "流畅",
            dir: "Qwen3-Aligner-0.6B",
            file: "qwen3-aligner-0.6b.Q8_0.gguf",
            config_repo: "",
            name: "Qwen3 Forced Aligner 0.6B",
            languages: "zh yue en de es fr it pt ru ko ja",
            gpu: "2GB+",
            family: "qwen3_forced_aligner",
            repo: "audio-cpp/audio.cpp-gguf",
            mode: "gguf",
            config_files: "",
            description: "Qwen3 强制对齐, 11 语言",
            id: "Qwen3/Qwen3-Aligner-0.6B",
        },
    ));
    v.push(m_other(
        "vc",
        Seed {
            detail: "SeedVC XLS-R + HiFT / Whisper-small + BigVGAN\n• 语言无关语音转换",
            size: "~2 GB",
            cpu: "可运行",
            dir: "SeedVC-MLX",
            file: "",
            config_repo: "",
            name: "SeedVC Voice Conversion",
            languages: "lang_agnostic",
            gpu: "4GB+",
            family: "seed_vc",
            repo: "",
            mode: "safetensors",
            config_files: "",
            description: "SeedVC 语音转换, 语言无关",
            id: "SeedVC/SeedVC-MLX",
        },
    ));
    v.push(m_other(
        "codec",
        Seed {
            detail: "MioCodec v2\n• 25 Hz, 44.1 kHz\n• 语音转换后端",
            size: "~0.5 GB",
            cpu: "流畅",
            dir: "MioCodec-v2",
            file: "",
            config_repo: "",
            name: "MioCodec v2 25Hz",
            languages: "lang_agnostic",
            gpu: "1GB+",
            family: "miocodec",
            repo: "",
            mode: "safetensors",
            config_files: "",
            description: "MioCodec 音频编解码, 25Hz 44.1kHz",
            id: "MioCodec/MioCodec-v2",
        },
    ));
    v.push(m_other(
        "music",
        Seed {
            detail: "ACE-Step 1.5 Turbo/Base\n• 50+ 语言音乐生成\n• 音乐编辑",
            size: "~4 GB",
            cpu: "可运行但慢",
            dir: "ACE-Step-1.5",
            file: "",
            config_repo: "",
            name: "ACE-Step 1.5",
            languages: "auto",
            gpu: "8GB+",
            family: "ace_step",
            repo: "",
            mode: "safetensors",
            config_files: "",
            description: "ACE-Step 音乐生成/编辑, 50+ 语言",
            id: "ACE-Step/ACE-Step-1.5",
        },
    ));
    v.push(m_other(
        "music",
        Seed {
            detail: "HeartMuLa-oss-3B\n• 中/英/日/韩/西\n• HeartCodec-oss",
            size: "~6 GB",
            cpu: "不可",
            dir: "HeartMuLa-3B",
            file: "",
            config_repo: "",
            name: "HeartMuLa 3B",
            languages: "zh en ja ko es",
            gpu: "12GB+",
            family: "heartmula",
            repo: "",
            mode: "safetensors",
            config_files: "",
            description: "HeartMuLa 音乐生成, 中/英/日/韩/西",
            id: "HeartMuLa/HeartMuLa-3B",
        },
    ));
    v.push(m_other(
        "music",
        Seed {
            detail: "Stable Audio 3 Small Music\n• 音乐生成",
            size: "~2 GB",
            cpu: "可运行",
            dir: "SA3-Small-Music",
            file: "",
            config_repo: "",
            name: "Stable Audio 3 Small Music",
            languages: "en",
            gpu: "4GB+",
            family: "stable_audio",
            repo: "",
            mode: "safetensors",
            config_files: "",
            description: "Stable Audio 3 Small, 音乐生成",
            id: "StableAudio/SA3-Small-Music",
        },
    ));
    v.push(m_other(
        "music",
        Seed {
            detail: "Stable Audio 3 Small SFX\n• 音效生成",
            size: "~2 GB",
            cpu: "可运行",
            dir: "SA3-Small-SFX",
            file: "",
            config_repo: "",
            name: "Stable Audio 3 Small SFX",
            languages: "en",
            gpu: "4GB+",
            family: "stable_audio",
            repo: "",
            mode: "safetensors",
            config_files: "",
            description: "Stable Audio 3 Small, 音效生成",
            id: "StableAudio/SA3-Small-SFX",
        },
    ));
    v.push(m_other(
        "music",
        Seed {
            detail: "Stable Audio 3 Medium\n• 高质量音乐生成",
            size: "~6 GB",
            cpu: "不可",
            dir: "SA3-Medium",
            file: "",
            config_repo: "",
            name: "Stable Audio 3 Medium",
            languages: "en",
            gpu: "12GB+",
            family: "stable_audio",
            repo: "",
            mode: "safetensors",
            config_files: "",
            description: "Stable Audio 3 Medium, 高质量音乐生成",
            id: "StableAudio/SA3-Medium",
        },
    ));
    v.push(m_other(
        "sep",
        Seed {
            detail: "HTDemucs / HTDemucs_ft\n• 音源分离 (人声/伴奏/鼓/贝斯)",
            size: "~0.5 GB",
            cpu: "流畅",
            dir: "HTDemucs",
            file: "",
            config_repo: "",
            name: "HTDemucs",
            languages: "lang_agnostic",
            gpu: "2GB+",
            family: "htdemucs",
            repo: "",
            mode: "safetensors",
            config_files: "",
            description: "HTDemucs 音源分离, 语言无关",
            id: "HTDemucs/HTDemucs",
        },
    ));
    v.push(m_other(
        "sep",
        Seed {
            detail: "Mel-Band RoFormer MLX\n• 人声分离\n• 语言无关",
            size: "~1 GB",
            cpu: "流畅",
            dir: "MBR-MLX",
            file: "",
            config_repo: "",
            name: "Mel-Band RoFormer",
            languages: "lang_agnostic",
            gpu: "2GB+",
            family: "mel_band_roformer",
            repo: "",
            mode: "safetensors",
            config_files: "",
            description: "Mel-Band RoFormer 人声分离",
            id: "MelBandRoformer/MBR-MLX",
        },
    ));
    assert(v.deep_view() =~~= other_catalog());
    v
}

} // verus!
