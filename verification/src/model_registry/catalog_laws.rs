//! What holds of the whole catalog: ids are unique, entries are well
//! formed, each entry is found by its id, and listings keep to their filter.
use vstd::prelude::*;

use super::{catalog, listed, lookup, marked, with_status, ModelInfoView};

verus! {

/// The position of the first catalog entry carrying this id (the
/// catalog's length when none does).
pub open spec fn id_position(id: Seq<char>) -> int {
    if id == catalog()[0].id {
        0
    } else if id == catalog()[1].id {
        1
    } else if id == catalog()[2].id {
        2
    } else if id == catalog()[3].id {
        3
    } else if id == catalog()[4].id {
        4
    } else if id == catalog()[5].id {
        5
    } else if id == catalog()[6].id {
        6
    } else if id == catalog()[7].id {
        7
    } else if id == catalog()[8].id {
        8
    } else if id == catalog()[9].id {
        9
    } else if id == catalog()[10].id {
        10
    } else if id == catalog()[11].id {
        11
    } else if id == catalog()[12].id {
        12
    } else if id == catalog()[13].id {
        13
    } else if id == catalog()[14].id {
        14
    } else if id == catalog()[15].id {
        15
    } else if id == catalog()[16].id {
        16
    } else if id == catalog()[17].id {
        17
    } else if id == catalog()[18].id {
        18
    } else if id == catalog()[19].id {
        19
    } else if id == catalog()[20].id {
        20
    } else if id == catalog()[21].id {
        21
    } else if id == catalog()[22].id {
        22
    } else if id == catalog()[23].id {
        23
    } else if id == catalog()[24].id {
        24
    } else if id == catalog()[25].id {
        25
    } else if id == catalog()[26].id {
        26
    } else if id == catalog()[27].id {
        27
    } else if id == catalog()[28].id {
        28
    } else if id == catalog()[29].id {
        29
    } else if id == catalog()[30].id {
        30
    } else if id == catalog()[31].id {
        31
    } else if id == catalog()[32].id {
        32
    } else if id == catalog()[33].id {
        33
    } else if id == catalog()[34].id {
        34
    } else if id == catalog()[35].id {
        35
    } else if id == catalog()[36].id {
        36
    } else if id == catalog()[37].id {
        37
    } else if id == catalog()[38].id {
        38
    } else if id == catalog()[39].id {
        39
    } else if id == catalog()[40].id {
        40
    } else {
        41
    }
}

/// Each catalog entry's id gives back that entry's position.
#[verifier::rlimit(50)]
proof fn lemma_id_positions()
    ensures
        catalog().len() == 41,
        forall|i: int| 0 <= i < catalog().len() ==> id_position(#[trigger] catalog()[i].id) == i,
{
    reveal_strlit("Qwen/Qwen3-ASR-0.6B-GGUF");
    reveal_strlit("Qwen/Qwen3-ASR-1.7B-GGUF");
    reveal_strlit("Nvidia/Nemotron-ASR-GGUF");
    reveal_strlit("Higgs/Higgs-Audio-STT-GGUF");
    reveal_strlit("Nvidia/Citrinet-256-GGUF");
    reveal_strlit("Hviske/Hviske-ASR-GGUF");
    reveal_strlit("VibeVoice/VibeVoice-ASR-GGUF");
    reveal_strlit("Voxtral/Voxtral-Realtime-GGUF");
    reveal_strlit("Qwen/Qwen3-TTS-0.6B-GGUF");
    reveal_strlit("Qwen/Qwen3-TTS-1.7B-GGUF");
    reveal_strlit("Chatterbox/Chatterbox-GGUF");
    reveal_strlit("FishAudio/Fish-S2-Pro-GGUF");
    reveal_strlit("Higgs/Higgs-TTS-4B-GGUF");
    reveal_strlit("MioTTS/MioTTS-1.7B-GGUF");
    reveal_strlit("OmniVoice/OmniVoice-GGUF");
    reveal_strlit("PocketTTS/PocketTTS-GGUF");
    reveal_strlit("Vevo2/Vevo2-GGUF");
    reveal_strlit("VibeVoice/VibeVoice-1.5B-GGUF");
    reveal_strlit("VibeVoice/VibeVoice-7B-GGUF");
    reveal_strlit("VoxCPM2/VoxCPM2-GGUF");
    reveal_strlit("IndexTTS2/IndexTTS2-GGUF");
    reveal_strlit("Irodori/Irodori-TTS-500M-GGUF");
    reveal_strlit("Irodori/Irodori-TTS-600M-VD-GGUF");
    reveal_strlit("MOSS/MOSS-TTS-Nano-GGUF");
    reveal_strlit("MOSS/MOSS-TTS-Local-GGUF");
    reveal_strlit("Supertonic/Supertonic-3-GGUF");
    reveal_strlit("OuteTTS/OuteTTS-1B-GGUF");
    reveal_strlit("VieNeu/VieNeu-TTS-GGUF");
    reveal_strlit("MarbleNet/MarbleNet-VAD");
    reveal_strlit("Silero/Silero-VAD");
    reveal_strlit("Sortformer/Sortformer-Diar");
    reveal_strlit("Qwen3/Qwen3-Aligner-0.6B");
    reveal_strlit("SeedVC/SeedVC-MLX");
    reveal_strlit("MioCodec/MioCodec-v2");
    reveal_strlit("ACE-Step/ACE-Step-1.5");
    reveal_strlit("HeartMuLa/HeartMuLa-3B");
    reveal_strlit("StableAudio/SA3-Small-Music");
    reveal_strlit("StableAudio/SA3-Small-SFX");
    reveal_strlit("StableAudio/SA3-Medium");
    reveal_strlit("HTDemucs/HTDemucs");
    reveal_strlit("MelBandRoformer/MBR-MLX");
    assert(catalog().len() == 41);
    assert forall|i: int| 0 <= i < catalog().len() implies id_position(#[trigger] catalog()[i].id) == i by {
        if i == 0 {
            assert(id_position(catalog()[0].id) == 0);
        } else if i == 1 {
            assert(catalog()[1].id[15] != catalog()[0].id[15]);
            assert(id_position(catalog()[1].id) == 1);
        } else if i == 2 {
            assert(catalog()[2].id[0] != catalog()[0].id[0]);
            assert(catalog()[2].id[0] != catalog()[1].id[0]);
            assert(id_position(catalog()[2].id) == 2);
        } else if i == 3 {
            assert(catalog()[3].id.len() != catalog()[0].id.len());
            assert(catalog()[3].id.len() != catalog()[1].id.len());
            assert(catalog()[3].id.len() != catalog()[2].id.len());
            assert(id_position(catalog()[3].id) == 3);
        } else if i == 4 {
            assert(catalog()[4].id[0] != catalog()[0].id[0]);
            assert(catalog()[4].id[0] != catalog()[1].id[0]);
            assert(catalog()[4].id[7] != catalog()[2].id[7]);
            assert(catalog()[4].id.len() != catalog()[3].id.len());
            assert(id_position(catalog()[4].id) == 4);
        } else if i == 5 {
            assert(catalog()[5].id.len() != catalog()[0].id.len());
            assert(catalog()[5].id.len() != catalog()[1].id.len());
            assert(catalog()[5].id.len() != catalog()[2].id.len());
            assert(catalog()[5].id.len() != catalog()[3].id.len());
            assert(catalog()[5].id.len() != catalog()[4].id.len());
            assert(id_position(catalog()[5].id) == 5);
        } else if i == 6 {
            assert(catalog()[6].id.len() != catalog()[0].id.len());
            assert(catalog()[6].id.len() != catalog()[1].id.len());
            assert(catalog()[6].id.len() != catalog()[2].id.len());
            assert(catalog()[6].id.len() != catalog()[3].id.len());
            assert(catalog()[6].id.len() != catalog()[4].id.len());
            assert(catalog()[6].id.len() != catalog()[5].id.len());
            assert(id_position(catalog()[6].id) == 6);
        } else if i == 7 {
            assert(catalog()[7].id.len() != catalog()[0].id.len());
            assert(catalog()[7].id.len() != catalog()[1].id.len());
            assert(catalog()[7].id.len() != catalog()[2].id.len());
            assert(catalog()[7].id.len() != catalog()[3].id.len());
            assert(catalog()[7].id.len() != catalog()[4].id.len());
            assert(catalog()[7].id.len() != catalog()[5].id.len());
            assert(catalog()[7].id.len() != catalog()[6].id.len());
            assert(id_position(catalog()[7].id) == 7);
        } else if i == 8 {
            assert(catalog()[8].id[11] != catalog()[0].id[11]);
            assert(catalog()[8].id[11] != catalog()[1].id[11]);
            assert(catalog()[8].id[0] != catalog()[2].id[0]);
            assert(catalog()[8].id.len() != catalog()[3].id.len());
            assert(catalog()[8].id[0] != catalog()[4].id[0]);
            assert(catalog()[8].id.len() != catalog()[5].id.len());
            assert(catalog()[8].id.len() != catalog()[6].id.len());
            assert(catalog()[8].id.len() != catalog()[7].id.len());
            assert(id_position(catalog()[8].id) == 8);
        } else if i == 9 {
            assert(catalog()[9].id[11] != catalog()[0].id[11]);
            assert(catalog()[9].id[11] != catalog()[1].id[11]);
            assert(catalog()[9].id[0] != catalog()[2].id[0]);
            assert(catalog()[9].id.len() != catalog()[3].id.len());
            assert(catalog()[9].id[0] != catalog()[4].id[0]);
            assert(catalog()[9].id.len() != catalog()[5].id.len());
            assert(catalog()[9].id.len() != catalog()[6].id.len());
            assert(catalog()[9].id.len() != catalog()[7].id.len());
            assert(catalog()[9].id[15] != catalog()[8].id[15]);
            assert(id_position(catalog()[9].id) == 9);
        } else if i == 10 {
            assert(catalog()[10].id.len() != catalog()[0].id.len());
            assert(catalog()[10].id.len() != catalog()[1].id.len());
            assert(catalog()[10].id.len() != catalog()[2].id.len());
            assert(catalog()[10].id[0] != catalog()[3].id[0]);
            assert(catalog()[10].id.len() != catalog()[4].id.len());
            assert(catalog()[10].id.len() != catalog()[5].id.len());
            assert(catalog()[10].id.len() != catalog()[6].id.len());
            assert(catalog()[10].id.len() != catalog()[7].id.len());
            assert(catalog()[10].id.len() != catalog()[8].id.len());
            assert(catalog()[10].id.len() != catalog()[9].id.len());
            assert(id_position(catalog()[10].id) == 10);
        } else if i == 11 {
            assert(catalog()[11].id.len() != catalog()[0].id.len());
            assert(catalog()[11].id.len() != catalog()[1].id.len());
            assert(catalog()[11].id.len() != catalog()[2].id.len());
            assert(catalog()[11].id[0] != catalog()[3].id[0]);
            assert(catalog()[11].id.len() != catalog()[4].id.len());
            assert(catalog()[11].id.len() != catalog()[5].id.len());
            assert(catalog()[11].id.len() != catalog()[6].id.len());
            assert(catalog()[11].id.len() != catalog()[7].id.len());
            assert(catalog()[11].id.len() != catalog()[8].id.len());
            assert(catalog()[11].id.len() != catalog()[9].id.len());
            assert(catalog()[11].id[0] != catalog()[10].id[0]);
            assert(id_position(catalog()[11].id) == 11);
        } else if i == 12 {
            assert(catalog()[12].id.len() != catalog()[0].id.len());
            assert(catalog()[12].id.len() != catalog()[1].id.len());
            assert(catalog()[12].id.len() != catalog()[2].id.len());
            assert(catalog()[12].id.len() != catalog()[3].id.len());
            assert(catalog()[12].id.len() != catalog()[4].id.len());
            assert(catalog()[12].id.len() != catalog()[5].id.len());
            assert(catalog()[12].id.len() != catalog()[6].id.len());
            assert(catalog()[12].id.len() != catalog()[7].id.len());
            assert(catalog()[12].id.len() != catalog()[8].id.len());
            assert(catalog()[12].id.len() != catalog()[9].id.len());
            assert(catalog()[12].id.len() != catalog()[10].id.len());
            assert(catalog()[12].id.len() != catalog()[11].id.len());
            assert(id_position(catalog()[12].id) == 12);
        } else if i == 13 {
            assert(catalog()[13].id.len() != catalog()[0].id.len());
            assert(catalog()[13].id.len() != catalog()[1].id.len());
            assert(catalog()[13].id.len() != catalog()[2].id.len());
            assert(catalog()[13].id.len() != catalog()[3].id.len());
            assert(catalog()[13].id.len() != catalog()[4].id.len());
            assert(catalog()[13].id.len() != catalog()[5].id.len());
            assert(catalog()[13].id.len() != catalog()[6].id.len());
            assert(catalog()[13].id.len() != catalog()[7].id.len());
            assert(catalog()[13].id.len() != catalog()[8].id.len());
            assert(catalog()[13].id.len() != catalog()[9].id.len());
            assert(catalog()[13].id.len() != catalog()[10].id.len());
            assert(catalog()[13].id.len() != catalog()[11].id.len());
            assert(catalog()[13].id[0] != catalog()[12].id[0]);
            assert(id_position(catalog()[13].id) == 13);
        } else if i == 14 {
            assert(catalog()[14].id[0] != catalog()[0].id[0]);
            assert(catalog()[14].id[0] != catalog()[1].id[0]);
            assert(catalog()[14].id[0] != catalog()[2].id[0]);
            assert(catalog()[14].id.len() != catalog()[3].id.len());
            assert(catalog()[14].id[0] != catalog()[4].id[0]);
            assert(catalog()[14].id.len() != catalog()[5].id.len());
            assert(catalog()[14].id.len() != catalog()[6].id.len());
            assert(catalog()[14].id.len() != catalog()[7].id.len());
            assert(catalog()[14].id[0] != catalog()[8].id[0]);
            assert(catalog()[14].id[0] != catalog()[9].id[0]);
            assert(catalog()[14].id.len() != catalog()[10].id.len());
            assert(catalog()[14].id.len() != catalog()[11].id.len());
            assert(catalog()[14].id.len() != catalog()[12].id.len());
            assert(catalog()[14].id.len() != catalog()[13].id.len());
            assert(id_position(catalog()[14].id) == 14);
        } else if i == 15 {
            assert(catalog()[15].id[0] != catalog()[0].id[0]);
            assert(catalog()[15].id[0] != catalog()[1].id[0]);
            assert(catalog()[15].id[0] != catalog()[2].id[0]);
            assert(catalog()[15].id.len() != catalog()[3].id.len());
            assert(catalog()[15].id[0] != catalog()[4].id[0]);
            assert(catalog()[15].id.len() != catalog()[5].id.len());
            assert(catalog()[15].id.len() != catalog()[6].id.len());
            assert(catalog()[15].id.len() != catalog()[7].id.len());
            assert(catalog()[15].id[0] != catalog()[8].id[0]);
            assert(catalog()[15].id[0] != catalog()[9].id[0]);
            assert(catalog()[15].id.len() != catalog()[10].id.len());
            assert(catalog()[15].id.len() != catalog()[11].id.len());
            assert(catalog()[15].id.len() != catalog()[12].id.len());
            assert(catalog()[15].id.len() != catalog()[13].id.len());
            assert(catalog()[15].id[0] != catalog()[14].id[0]);
            assert(id_position(catalog()[15].id) == 15);
        } else if i == 16 {
            assert(catalog()[16].id.len() != catalog()[0].id.len());
            assert(catalog()[16].id.len() != catalog()[1].id.len());
            assert(catalog()[16].id.len() != catalog()[2].id.len());
            assert(catalog()[16].id.len() != catalog()[3].id.len());
            assert(catalog()[16].id.len() != catalog()[4].id.len());
            assert(catalog()[16].id.len() != catalog()[5].id.len());
            assert(catalog()[16].id.len() != catalog()[6].id.len());
            assert(catalog()[16].id.len() != catalog()[7].id.len());
            assert(catalog()[16].id.len() != catalog()[8].id.len());
            assert(catalog()[16].id.len() != catalog()[9].id.len());
            assert(catalog()[16].id.len() != catalog()[10].id.len());
            assert(catalog()[16].id.len() != catalog()[11].id.len());
            assert(catalog()[16].id.len() != catalog()[12].id.len());
            assert(catalog()[16].id.len() != catalog()[13].id.len());
            assert(catalog()[16].id.len() != catalog()[14].id.len());
            assert(catalog()[16].id.len() != catalog()[15].id.len());
            assert(id_position(catalog()[16].id) == 16);
        } else if i == 17 {
            assert(catalog()[17].id.len() != catalog()[0].id.len());
            assert(catalog()[17].id.len() != catalog()[1].id.len());
            assert(catalog()[17].id.len() != catalog()[2].id.len());
            assert(catalog()[17].id.len() != catalog()[3].id.len());
            assert(catalog()[17].id.len() != catalog()[4].id.len());
            assert(catalog()[17].id.len() != catalog()[5].id.len());
            assert(catalog()[17].id.len() != catalog()[6].id.len());
            assert(catalog()[17].id[1] != catalog()[7].id[1]);
            assert(catalog()[17].id.len() != catalog()[8].id.len());
            assert(catalog()[17].id.len() != catalog()[9].id.len());
            assert(catalog()[17].id.len() != catalog()[10].id.len());
            assert(catalog()[17].id.len() != catalog()[11].id.len());
            assert(catalog()[17].id.len() != catalog()[12].id.len());
            assert(catalog()[17].id.len() != catalog()[13].id.len());
            assert(catalog()[17].id.len() != catalog()[14].id.len());
            assert(catalog()[17].id.len() != catalog()[15].id.len());
            assert(catalog()[17].id.len() != catalog()[16].id.len());
            assert(id_position(catalog()[17].id) == 17);
        } else if i == 18 {
            assert(catalog()[18].id.len() != catalog()[0].id.len());
            assert(catalog()[18].id.len() != catalog()[1].id.len());
            assert(catalog()[18].id.len() != catalog()[2].id.len());
            assert(catalog()[18].id.len() != catalog()[3].id.len());
            assert(catalog()[18].id.len() != catalog()[4].id.len());
            assert(catalog()[18].id.len() != catalog()[5].id.len());
            assert(catalog()[18].id.len() != catalog()[6].id.len());
            assert(catalog()[18].id.len() != catalog()[7].id.len());
            assert(catalog()[18].id.len() != catalog()[8].id.len());
            assert(catalog()[18].id.len() != catalog()[9].id.len());
            assert(catalog()[18].id.len() != catalog()[10].id.len());
            assert(catalog()[18].id.len() != catalog()[11].id.len());
            assert(catalog()[18].id.len() != catalog()[12].id.len());
            assert(catalog()[18].id.len() != catalog()[13].id.len());
            assert(catalog()[18].id.len() != catalog()[14].id.len());
            assert(catalog()[18].id.len() != catalog()[15].id.len());
            assert(catalog()[18].id.len() != catalog()[16].id.len());
            assert(catalog()[18].id.len() != catalog()[17].id.len());
            assert(id_position(catalog()[18].id) == 18);
        } else if i == 19 {
            assert(catalog()[19].id.len() != catalog()[0].id.len());
            assert(catalog()[19].id.len() != catalog()[1].id.len());
            assert(catalog()[19].id.len() != catalog()[2].id.len());
            assert(catalog()[19].id.len() != catalog()[3].id.len());
            assert(catalog()[19].id.len() != catalog()[4].id.len());
            assert(catalog()[19].id.len() != catalog()[5].id.len());
            assert(catalog()[19].id.len() != catalog()[6].id.len());
            assert(catalog()[19].id.len() != catalog()[7].id.len());
            assert(catalog()[19].id.len() != catalog()[8].id.len());
            assert(catalog()[19].id.len() != catalog()[9].id.len());
            assert(catalog()[19].id.len() != catalog()[10].id.len());
            assert(catalog()[19].id.len() != catalog()[11].id.len());
            assert(catalog()[19].id.len() != catalog()[12].id.len());
            assert(catalog()[19].id.len() != catalog()[13].id.len());
            assert(catalog()[19].id.len() != catalog()[14].id.len());
            assert(catalog()[19].id.len() != catalog()[15].id.len());
            assert(catalog()[19].id.len() != catalog()[16].id.len());
            assert(catalog()[19].id.len() != catalog()[17].id.len());
            assert(catalog()[19].id.len() != catalog()[18].id.len());
            assert(id_position(catalog()[19].id) == 19);
        } else if i == 20 {
            assert(catalog()[20].id[0] != catalog()[0].id[0]);
            assert(catalog()[20].id[0] != catalog()[1].id[0]);
            assert(catalog()[20].id[0] != catalog()[2].id[0]);
            assert(catalog()[20].id.len() != catalog()[3].id.len());
            assert(catalog()[20].id[0] != catalog()[4].id[0]);
            assert(catalog()[20].id.len() != catalog()[5].id.len());
            assert(catalog()[20].id.len() != catalog()[6].id.len());
            assert(catalog()[20].id.len() != catalog()[7].id.len());
            assert(catalog()[20].id[0] != catalog()[8].id[0]);
            assert(catalog()[20].id[0] != catalog()[9].id[0]);
            assert(catalog()[20].id.len() != catalog()[10].id.len());
            assert(catalog()[20].id.len() != catalog()[11].id.len());
            assert(catalog()[20].id.len() != catalog()[12].id.len());
            assert(catalog()[20].id.len() != catalog()[13].id.len());
            assert(catalog()[20].id[0] != catalog()[14].id[0]);
            assert(catalog()[20].id[0] != catalog()[15].id[0]);
            assert(catalog()[20].id.len() != catalog()[16].id.len());
            assert(catalog()[20].id.len() != catalog()[17].id.len());
            assert(catalog()[20].id.len() != catalog()[18].id.len());
            assert(catalog()[20].id.len() != catalog()[19].id.len());
            assert(id_position(catalog()[20].id) == 20);
        } else if i == 21 {
            assert(catalog()[21].id.len() != catalog()[0].id.len());
            assert(catalog()[21].id.len() != catalog()[1].id.len());
            assert(catalog()[21].id.len() != catalog()[2].id.len());
            assert(catalog()[21].id.len() != catalog()[3].id.len());
            assert(catalog()[21].id.len() != catalog()[4].id.len());
            assert(catalog()[21].id.len() != catalog()[5].id.len());
            assert(catalog()[21].id.len() != catalog()[6].id.len());
            assert(catalog()[21].id[0] != catalog()[7].id[0]);
            assert(catalog()[21].id.len() != catalog()[8].id.len());
            assert(catalog()[21].id.len() != catalog()[9].id.len());
            assert(catalog()[21].id.len() != catalog()[10].id.len());
            assert(catalog()[21].id.len() != catalog()[11].id.len());
            assert(catalog()[21].id.len() != catalog()[12].id.len());
            assert(catalog()[21].id.len() != catalog()[13].id.len());
            assert(catalog()[21].id.len() != catalog()[14].id.len());
            assert(catalog()[21].id.len() != catalog()[15].id.len());
            assert(catalog()[21].id.len() != catalog()[16].id.len());
            assert(catalog()[21].id[0] != catalog()[17].id[0]);
            assert(catalog()[21].id.len() != catalog()[18].id.len());
            assert(catalog()[21].id.len() != catalog()[19].id.len());
            assert(catalog()[21].id.len() != catalog()[20].id.len());
            assert(id_position(catalog()[21].id) == 21);
        } else if i == 22 {
            assert(catalog()[22].id.len() != catalog()[0].id.len());
            assert(catalog()[22].id.len() != catalog()[1].id.len());
            assert(catalog()[22].id.len() != catalog()[2].id.len());
            assert(catalog()[22].id.len() != catalog()[3].id.len());
            assert(catalog()[22].id.len() != catalog()[4].id.len());
            assert(catalog()[22].id.len() != catalog()[5].id.len());
            assert(catalog()[22].id.len() != catalog()[6].id.len());
            assert(catalog()[22].id.len() != catalog()[7].id.len());
            assert(catalog()[22].id.len() != catalog()[8].id.len());
            assert(catalog()[22].id.len() != catalog()[9].id.len());
            assert(catalog()[22].id.len() != catalog()[10].id.len());
            assert(catalog()[22].id.len() != catalog()[11].id.len());
            assert(catalog()[22].id.len() != catalog()[12].id.len());
            assert(catalog()[22].id.len() != catalog()[13].id.len());
            assert(catalog()[22].id.len() != catalog()[14].id.len());
            assert(catalog()[22].id.len() != catalog()[15].id.len());
            assert(catalog()[22].id.len() != catalog()[16].id.len());
            assert(catalog()[22].id.len() != catalog()[17].id.len());
            assert(catalog()[22].id.len() != catalog()[18].id.len());
            assert(catalog()[22].id.len() != catalog()[19].id.len());
            assert(catalog()[22].id.len() != catalog()[20].id.len());
            assert(catalog()[22].id.len() != catalog()[21].id.len());
            assert(id_position(catalog()[22].id) == 22);
        } else if i == 23 {
            assert(catalog()[23].id.len() != catalog()[0].id.len());
            assert(catalog()[23].id.len() != catalog()[1].id.len());
            assert(catalog()[23].id.len() != catalog()[2].id.len());
            assert(catalog()[23].id.len() != catalog()[3].id.len());
            assert(catalog()[23].id.len() != catalog()[4].id.len());
            assert(catalog()[23].id.len() != catalog()[5].id.len());
            assert(catalog()[23].id.len() != catalog()[6].id.len());
            assert(catalog()[23].id.len() != catalog()[7].id.len());
            assert(catalog()[23].id.len() != catalog()[8].id.len());
            assert(catalog()[23].id.len() != catalog()[9].id.len());
            assert(catalog()[23].id.len() != catalog()[10].id.len());
            assert(catalog()[23].id.len() != catalog()[11].id.len());
            assert(catalog()[23].id[0] != catalog()[12].id[0]);
            assert(catalog()[23].id[1] != catalog()[13].id[1]);
            assert(catalog()[23].id.len() != catalog()[14].id.len());
            assert(catalog()[23].id.len() != catalog()[15].id.len());
            assert(catalog()[23].id.len() != catalog()[16].id.len());
            assert(catalog()[23].id.len() != catalog()[17].id.len());
            assert(catalog()[23].id.len() != catalog()[18].id.len());
            assert(catalog()[23].id.len() != catalog()[19].id.len());
            assert(catalog()[23].id.len() != catalog()[20].id.len());
            assert(catalog()[23].id.len() != catalog()[21].id.len());
            assert(catalog()[23].id.len() != catalog()[22].id.len());
            assert(id_position(catalog()[23].id) == 23);
        } else if i == 24 {
            assert(catalog()[24].id[0] != catalog()[0].id[0]);
            assert(catalog()[24].id[0] != catalog()[1].id[0]);
            assert(catalog()[24].id[0] != catalog()[2].id[0]);
            assert(catalog()[24].id.len() != catalog()[3].id.len());
            assert(catalog()[24].id[0] != catalog()[4].id[0]);
            assert(catalog()[24].id.len() != catalog()[5].id.len());
            assert(catalog()[24].id.len() != catalog()[6].id.len());
            assert(catalog()[24].id.len() != catalog()[7].id.len());
            assert(catalog()[24].id[0] != catalog()[8].id[0]);
            assert(catalog()[24].id[0] != catalog()[9].id[0]);
            assert(catalog()[24].id.len() != catalog()[10].id.len());
            assert(catalog()[24].id.len() != catalog()[11].id.len());
            assert(catalog()[24].id.len() != catalog()[12].id.len());
            assert(catalog()[24].id.len() != catalog()[13].id.len());
            assert(catalog()[24].id[0] != catalog()[14].id[0]);
            assert(catalog()[24].id[0] != catalog()[15].id[0]);
            assert(catalog()[24].id.len() != catalog()[16].id.len());
            assert(catalog()[24].id.len() != catalog()[17].id.len());
            assert(catalog()[24].id.len() != catalog()[18].id.len());
            assert(catalog()[24].id.len() != catalog()[19].id.len());
            assert(catalog()[24].id[0] != catalog()[20].id[0]);
            assert(catalog()[24].id.len() != catalog()[21].id.len());
            assert(catalog()[24].id.len() != catalog()[22].id.len());
            assert(catalog()[24].id.len() != catalog()[23].id.len());
            assert(id_position(catalog()[24].id) == 24);
        } else if i == 25 {
            assert(catalog()[25].id.len() != catalog()[0].id.len());
            assert(catalog()[25].id.len() != catalog()[1].id.len());
            assert(catalog()[25].id.len() != catalog()[2].id.len());
            assert(catalog()[25].id.len() != catalog()[3].id.len());
            assert(catalog()[25].id.len() != catalog()[4].id.len());
            assert(catalog()[25].id.len() != catalog()[5].id.len());
            assert(catalog()[25].id[0] != catalog()[6].id[0]);
            assert(catalog()[25].id.len() != catalog()[7].id.len());
            assert(catalog()[25].id.len() != catalog()[8].id.len());
            assert(catalog()[25].id.len() != catalog()[9].id.len());
            assert(catalog()[25].id.len() != catalog()[10].id.len());
            assert(catalog()[25].id.len() != catalog()[11].id.len());
            assert(catalog()[25].id.len() != catalog()[12].id.len());
            assert(catalog()[25].id.len() != catalog()[13].id.len());
            assert(catalog()[25].id.len() != catalog()[14].id.len());
            assert(catalog()[25].id.len() != catalog()[15].id.len());
            assert(catalog()[25].id.len() != catalog()[16].id.len());
            assert(catalog()[25].id.len() != catalog()[17].id.len());
            assert(catalog()[25].id.len() != catalog()[18].id.len());
            assert(catalog()[25].id.len() != catalog()[19].id.len());
            assert(catalog()[25].id.len() != catalog()[20].id.len());
            assert(catalog()[25].id.len() != catalog()[21].id.len());
            assert(catalog()[25].id.len() != catalog()[22].id.len());
            assert(catalog()[25].id.len() != catalog()[23].id.len());
            assert(catalog()[25].id.len() != catalog()[24].id.len());
            assert(id_position(catalog()[25].id) == 25);
        } else if i == 26 {
            assert(catalog()[26].id.len() != catalog()[0].id.len());
            assert(catalog()[26].id.len() != catalog()[1].id.len());
            assert(catalog()[26].id.len() != catalog()[2].id.len());
            assert(catalog()[26].id.len() != catalog()[3].id.len());
            assert(catalog()[26].id.len() != catalog()[4].id.len());
            assert(catalog()[26].id.len() != catalog()[5].id.len());
            assert(catalog()[26].id.len() != catalog()[6].id.len());
            assert(catalog()[26].id.len() != catalog()[7].id.len());
            assert(catalog()[26].id.len() != catalog()[8].id.len());
            assert(catalog()[26].id.len() != catalog()[9].id.len());
            assert(catalog()[26].id.len() != catalog()[10].id.len());
            assert(catalog()[26].id.len() != catalog()[11].id.len());
            assert(catalog()[26].id[0] != catalog()[12].id[0]);
            assert(catalog()[26].id[0] != catalog()[13].id[0]);
            assert(catalog()[26].id.len() != catalog()[14].id.len());
            assert(catalog()[26].id.len() != catalog()[15].id.len());
            assert(catalog()[26].id.len() != catalog()[16].id.len());
            assert(catalog()[26].id.len() != catalog()[17].id.len());
            assert(catalog()[26].id.len() != catalog()[18].id.len());
            assert(catalog()[26].id.len() != catalog()[19].id.len());
            assert(catalog()[26].id.len() != catalog()[20].id.len());
            assert(catalog()[26].id.len() != catalog()[21].id.len());
            assert(catalog()[26].id.len() != catalog()[22].id.len());
            assert(catalog()[26].id[0] != catalog()[23].id[0]);
            assert(catalog()[26].id.len() != catalog()[24].id.len());
            assert(catalog()[26].id.len() != catalog()[25].id.len());
            assert(id_position(catalog()[26].id) == 26);
        } else if i == 27 {
            assert(catalog()[27].id.len() != catalog()[0].id.len());
            assert(catalog()[27].id.len() != catalog()[1].id.len());
            assert(catalog()[27].id.len() != catalog()[2].id.len());
            assert(catalog()[27].id.len() != catalog()[3].id.len());
            assert(catalog()[27].id.len() != catalog()[4].id.len());
            assert(catalog()[27].id[0] != catalog()[5].id[0]);
            assert(catalog()[27].id.len() != catalog()[6].id.len());
            assert(catalog()[27].id.len() != catalog()[7].id.len());
            assert(catalog()[27].id.len() != catalog()[8].id.len());
            assert(catalog()[27].id.len() != catalog()[9].id.len());
            assert(catalog()[27].id.len() != catalog()[10].id.len());
            assert(catalog()[27].id.len() != catalog()[11].id.len());
            assert(catalog()[27].id.len() != catalog()[12].id.len());
            assert(catalog()[27].id.len() != catalog()[13].id.len());
            assert(catalog()[27].id.len() != catalog()[14].id.len());
            assert(catalog()[27].id.len() != catalog()[15].id.len());
            assert(catalog()[27].id.len() != catalog()[16].id.len());
            assert(catalog()[27].id.len() != catalog()[17].id.len());
            assert(catalog()[27].id.len() != catalog()[18].id.len());
            assert(catalog()[27].id.len() != catalog()[19].id.len());
            assert(catalog()[27].id.len() != catalog()[20].id.len());
            assert(catalog()[27].id.len() != catalog()[21].id.len());
            assert(catalog()[27].id.len() != catalog()[22].id.len());
            assert(catalog()[27].id.len() != catalog()[23].id.len());
            assert(catalog()[27].id.len() != catalog()[24].id.len());
            assert(catalog()[27].id.len() != catalog()[25].id.len());
            assert(catalog()[27].id.len() != catalog()[26].id.len());
            assert(id_position(catalog()[27].id) == 27);
        } else if i == 28 {
            assert(catalog()[28].id.len() != catalog()[0].id.len());
            assert(catalog()[28].id.len() != catalog()[1].id.len());
            assert(catalog()[28].id.len() != catalog()[2].id.len());
            assert(catalog()[28].id.len() != catalog()[3].id.len());
            assert(catalog()[28].id.len() != catalog()[4].id.len());
            assert(catalog()[28].id.len() != catalog()[5].id.len());
            assert(catalog()[28].id.len() != catalog()[6].id.len());
            assert(catalog()[28].id.len() != catalog()[7].id.len());
            assert(catalog()[28].id.len() != catalog()[8].id.len());
            assert(catalog()[28].id.len() != catalog()[9].id.len());
            assert(catalog()[28].id.len() != catalog()[10].id.len());
            assert(catalog()[28].id.len() != catalog()[11].id.len());
            assert(catalog()[28].id[0] != catalog()[12].id[0]);
            assert(catalog()[28].id[1] != catalog()[13].id[1]);
            assert(catalog()[28].id.len() != catalog()[14].id.len());
            assert(catalog()[28].id.len() != catalog()[15].id.len());
            assert(catalog()[28].id.len() != catalog()[16].id.len());
            assert(catalog()[28].id.len() != catalog()[17].id.len());
            assert(catalog()[28].id.len() != catalog()[18].id.len());
            assert(catalog()[28].id.len() != catalog()[19].id.len());
            assert(catalog()[28].id.len() != catalog()[20].id.len());
            assert(catalog()[28].id.len() != catalog()[21].id.len());
            assert(catalog()[28].id.len() != catalog()[22].id.len());
            assert(catalog()[28].id[1] != catalog()[23].id[1]);
            assert(catalog()[28].id.len() != catalog()[24].id.len());
            assert(catalog()[28].id.len() != catalog()[25].id.len());
            assert(catalog()[28].id[0] != catalog()[26].id[0]);
            assert(catalog()[28].id.len() != catalog()[27].id.len());
            assert(id_position(catalog()[28].id) == 28);
        } else if i == 29 {
            assert(catalog()[29].id.len() != catalog()[0].id.len());
            assert(catalog()[29].id.len() != catalog()[1].id.len());
            assert(catalog()[29].id.len() != catalog()[2].id.len());
            assert(catalog()[29].id.len() != catalog()[3].id.len());
            assert(catalog()[29].id.len() != catalog()[4].id.len());
            assert(catalog()[29].id.len() != catalog()[5].id.len());
            assert(catalog()[29].id.len() != catalog()[6].id.len());
            assert(catalog()[29].id.len() != catalog()[7].id.len());
            assert(catalog()[29].id.len() != catalog()[8].id.len());
            assert(catalog()[29].id.len() != catalog()[9].id.len());
            assert(catalog()[29].id.len() != catalog()[10].id.len());
            assert(catalog()[29].id.len() != catalog()[11].id.len());
            assert(catalog()[29].id.len() != catalog()[12].id.len());
            assert(catalog()[29].id.len() != catalog()[13].id.len());
            assert(catalog()[29].id.len() != catalog()[14].id.len());
            assert(catalog()[29].id.len() != catalog()[15].id.len());
            assert(catalog()[29].id.len() != catalog()[16].id.len());
            assert(catalog()[29].id.len() != catalog()[17].id.len());
            assert(catalog()[29].id.len() != catalog()[18].id.len());
            assert(catalog()[29].id.len() != catalog()[19].id.len());
            assert(catalog()[29].id.len() != catalog()[20].id.len());
            assert(catalog()[29].id.len() != catalog()[21].id.len());
            assert(catalog()[29].id.len() != catalog()[22].id.len());
            assert(catalog()[29].id.len() != catalog()[23].id.len());
            assert(catalog()[29].id.len() != catalog()[24].id.len());
            assert(catalog()[29].id.len() != catalog()[25].id.len());
            assert(catalog()[29].id.len() != catalog()[26].id.len());
            assert(catalog()[29].id.len() != catalog()[27].id.len());
            assert(catalog()[29].id.len() != catalog()[28].id.len());
            assert(id_position(catalog()[29].id) == 29);
        } else if i == 30 {
            assert(catalog()[30].id.len() != catalog()[0].id.len());
            assert(catalog()[30].id.len() != catalog()[1].id.len());
            assert(catalog()[30].id.len() != catalog()[2].id.len());
            assert(catalog()[30].id[0] != catalog()[3].id[0]);
            assert(catalog()[30].id.len() != catalog()[4].id.len());
            assert(catalog()[30].id.len() != catalog()[5].id.len());
            assert(catalog()[30].id.len() != catalog()[6].id.len());
            assert(catalog()[30].id.len() != catalog()[7].id.len());
            assert(catalog()[30].id.len() != catalog()[8].id.len());
            assert(catalog()[30].id.len() != catalog()[9].id.len());
            assert(catalog()[30].id[0] != catalog()[10].id[0]);
            assert(catalog()[30].id[0] != catalog()[11].id[0]);
            assert(catalog()[30].id.len() != catalog()[12].id.len());
            assert(catalog()[30].id.len() != catalog()[13].id.len());
            assert(catalog()[30].id.len() != catalog()[14].id.len());
            assert(catalog()[30].id.len() != catalog()[15].id.len());
            assert(catalog()[30].id.len() != catalog()[16].id.len());
            assert(catalog()[30].id.len() != catalog()[17].id.len());
            assert(catalog()[30].id.len() != catalog()[18].id.len());
            assert(catalog()[30].id.len() != catalog()[19].id.len());
            assert(catalog()[30].id.len() != catalog()[20].id.len());
            assert(catalog()[30].id.len() != catalog()[21].id.len());
            assert(catalog()[30].id.len() != catalog()[22].id.len());
            assert(catalog()[30].id.len() != catalog()[23].id.len());
            assert(catalog()[30].id.len() != catalog()[24].id.len());
            assert(catalog()[30].id.len() != catalog()[25].id.len());
            assert(catalog()[30].id.len() != catalog()[26].id.len());
            assert(catalog()[30].id.len() != catalog()[27].id.len());
            assert(catalog()[30].id.len() != catalog()[28].id.len());
            assert(catalog()[30].id.len() != catalog()[29].id.len());
            assert(id_position(catalog()[30].id) == 30);
        } else if i == 31 {
            assert(catalog()[31].id[4] != catalog()[0].id[4]);
            assert(catalog()[31].id[4] != catalog()[1].id[4]);
            assert(catalog()[31].id[0] != catalog()[2].id[0]);
            assert(catalog()[31].id.len() != catalog()[3].id.len());
            assert(catalog()[31].id[0] != catalog()[4].id[0]);
            assert(catalog()[31].id.len() != catalog()[5].id.len());
            assert(catalog()[31].id.len() != catalog()[6].id.len());
            assert(catalog()[31].id.len() != catalog()[7].id.len());
            assert(catalog()[31].id[4] != catalog()[8].id[4]);
            assert(catalog()[31].id[4] != catalog()[9].id[4]);
            assert(catalog()[31].id.len() != catalog()[10].id.len());
            assert(catalog()[31].id.len() != catalog()[11].id.len());
            assert(catalog()[31].id.len() != catalog()[12].id.len());
            assert(catalog()[31].id.len() != catalog()[13].id.len());
            assert(catalog()[31].id[0] != catalog()[14].id[0]);
            assert(catalog()[31].id[0] != catalog()[15].id[0]);
            assert(catalog()[31].id.len() != catalog()[16].id.len());
            assert(catalog()[31].id.len() != catalog()[17].id.len());
            assert(catalog()[31].id.len() != catalog()[18].id.len());
            assert(catalog()[31].id.len() != catalog()[19].id.len());
            assert(catalog()[31].id[0] != catalog()[20].id[0]);
            assert(catalog()[31].id.len() != catalog()[21].id.len());
            assert(catalog()[31].id.len() != catalog()[22].id.len());
            assert(catalog()[31].id.len() != catalog()[23].id.len());
            assert(catalog()[31].id[0] != catalog()[24].id[0]);
            assert(catalog()[31].id.len() != catalog()[25].id.len());
            assert(catalog()[31].id.len() != catalog()[26].id.len());
            assert(catalog()[31].id.len() != catalog()[27].id.len());
            assert(catalog()[31].id.len() != catalog()[28].id.len());
            assert(catalog()[31].id.len() != catalog()[29].id.len());
            assert(catalog()[31].id.len() != catalog()[30].id.len());
            assert(id_position(catalog()[31].id) == 31);
        } else if i == 32 {
            assert(catalog()[32].id.len() != catalog()[0].id.len());
            assert(catalog()[32].id.len() != catalog()[1].id.len());
            assert(catalog()[32].id.len() != catalog()[2].id.len());
            assert(catalog()[32].id.len() != catalog()[3].id.len());
            assert(catalog()[32].id.len() != catalog()[4].id.len());
            assert(catalog()[32].id.len() != catalog()[5].id.len());
            assert(catalog()[32].id.len() != catalog()[6].id.len());
            assert(catalog()[32].id.len() != catalog()[7].id.len());
            assert(catalog()[32].id.len() != catalog()[8].id.len());
            assert(catalog()[32].id.len() != catalog()[9].id.len());
            assert(catalog()[32].id.len() != catalog()[10].id.len());
            assert(catalog()[32].id.len() != catalog()[11].id.len());
            assert(catalog()[32].id.len() != catalog()[12].id.len());
            assert(catalog()[32].id.len() != catalog()[13].id.len());
            assert(catalog()[32].id.len() != catalog()[14].id.len());
            assert(catalog()[32].id.len() != catalog()[15].id.len());
            assert(catalog()[32].id.len() != catalog()[16].id.len());
            assert(catalog()[32].id.len() != catalog()[17].id.len());
            assert(catalog()[32].id.len() != catalog()[18].id.len());
            assert(catalog()[32].id.len() != catalog()[19].id.len());
            assert(catalog()[32].id.len() != catalog()[20].id.len());
            assert(catalog()[32].id.len() != catalog()[21].id.len());
            assert(catalog()[32].id.len() != catalog()[22].id.len());
            assert(catalog()[32].id.len() != catalog()[23].id.len());
            assert(catalog()[32].id.len() != catalog()[24].id.len());
            assert(catalog()[32].id.len() != catalog()[25].id.len());
            assert(catalog()[32].id.len() != catalog()[26].id.len());
            assert(catalog()[32].id.len() != catalog()[27].id.len());
            assert(catalog()[32].id.len() != catalog()[28].id.len());
            assert(catalog()[32].id[1] != catalog()[29].id[1]);
            assert(catalog()[32].id.len() != catalog()[30].id.len());
            assert(catalog()[32].id.len() != catalog()[31].id.len());
            assert(id_position(catalog()[32].id) == 32);
        } else if i == 33 {
            assert(catalog()[33].id.len() != catalog()[0].id.len());
            assert(catalog()[33].id.len() != catalog()[1].id.len());
            assert(catalog()[33].id.len() != catalog()[2].id.len());
            assert(catalog()[33].id.len() != catalog()[3].id.len());
            assert(catalog()[33].id.len() != catalog()[4].id.len());
            assert(catalog()[33].id.len() != catalog()[5].id.len());
            assert(catalog()[33].id.len() != catalog()[6].id.len());
            assert(catalog()[33].id.len() != catalog()[7].id.len());
            assert(catalog()[33].id.len() != catalog()[8].id.len());
            assert(catalog()[33].id.len() != catalog()[9].id.len());
            assert(catalog()[33].id.len() != catalog()[10].id.len());
            assert(catalog()[33].id.len() != catalog()[11].id.len());
            assert(catalog()[33].id.len() != catalog()[12].id.len());
            assert(catalog()[33].id.len() != catalog()[13].id.len());
            assert(catalog()[33].id.len() != catalog()[14].id.len());
            assert(catalog()[33].id.len() != catalog()[15].id.len());
            assert(catalog()[33].id.len() != catalog()[16].id.len());
            assert(catalog()[33].id.len() != catalog()[17].id.len());
            assert(catalog()[33].id.len() != catalog()[18].id.len());
            assert(catalog()[33].id[0] != catalog()[19].id[0]);
            assert(catalog()[33].id.len() != catalog()[20].id.len());
            assert(catalog()[33].id.len() != catalog()[21].id.len());
            assert(catalog()[33].id.len() != catalog()[22].id.len());
            assert(catalog()[33].id.len() != catalog()[23].id.len());
            assert(catalog()[33].id.len() != catalog()[24].id.len());
            assert(catalog()[33].id.len() != catalog()[25].id.len());
            assert(catalog()[33].id.len() != catalog()[26].id.len());
            assert(catalog()[33].id.len() != catalog()[27].id.len());
            assert(catalog()[33].id.len() != catalog()[28].id.len());
            assert(catalog()[33].id.len() != catalog()[29].id.len());
            assert(catalog()[33].id.len() != catalog()[30].id.len());
            assert(catalog()[33].id.len() != catalog()[31].id.len());
            assert(catalog()[33].id.len() != catalog()[32].id.len());
            assert(id_position(catalog()[33].id) == 33);
        } else if i == 34 {
            assert(catalog()[34].id.len() != catalog()[0].id.len());
            assert(catalog()[34].id.len() != catalog()[1].id.len());
            assert(catalog()[34].id.len() != catalog()[2].id.len());
            assert(catalog()[34].id.len() != catalog()[3].id.len());
            assert(catalog()[34].id.len() != catalog()[4].id.len());
            assert(catalog()[34].id.len() != catalog()[5].id.len());
            assert(catalog()[34].id.len() != catalog()[6].id.len());
            assert(catalog()[34].id.len() != catalog()[7].id.len());
            assert(catalog()[34].id.len() != catalog()[8].id.len());
            assert(catalog()[34].id.len() != catalog()[9].id.len());
            assert(catalog()[34].id.len() != catalog()[10].id.len());
            assert(catalog()[34].id.len() != catalog()[11].id.len());
            assert(catalog()[34].id.len() != catalog()[12].id.len());
            assert(catalog()[34].id.len() != catalog()[13].id.len());
            assert(catalog()[34].id.len() != catalog()[14].id.len());
            assert(catalog()[34].id.len() != catalog()[15].id.len());
            assert(catalog()[34].id.len() != catalog()[16].id.len());
            assert(catalog()[34].id.len() != catalog()[17].id.len());
            assert(catalog()[34].id.len() != catalog()[18].id.len());
            assert(catalog()[34].id.len() != catalog()[19].id.len());
            assert(catalog()[34].id.len() != catalog()[20].id.len());
            assert(catalog()[34].id.len() != catalog()[21].id.len());
            assert(catalog()[34].id.len() != catalog()[22].id.len());
            assert(catalog()[34].id.len() != catalog()[23].id.len());
            assert(catalog()[34].id.len() != catalog()[24].id.len());
            assert(catalog()[34].id.len() != catalog()[25].id.len());
            assert(catalog()[34].id.len() != catalog()[26].id.len());
            assert(catalog()[34].id.len() != catalog()[27].id.len());
            assert(catalog()[34].id.len() != catalog()[28].id.len());
            assert(catalog()[34].id.len() != catalog()[29].id.len());
            assert(catalog()[34].id.len() != catalog()[30].id.len());
            assert(catalog()[34].id.len() != catalog()[31].id.len());
            assert(catalog()[34].id.len() != catalog()[32].id.len());
            assert(catalog()[34].id.len() != catalog()[33].id.len());
            assert(id_position(catalog()[34].id) == 34);
        } else if i == 35 {
            assert(catalog()[35].id.len() != catalog()[0].id.len());
            assert(catalog()[35].id.len() != catalog()[1].id.len());
            assert(catalog()[35].id.len() != catalog()[2].id.len());
            assert(catalog()[35].id.len() != catalog()[3].id.len());
            assert(catalog()[35].id.len() != catalog()[4].id.len());
            assert(catalog()[35].id[1] != catalog()[5].id[1]);
            assert(catalog()[35].id.len() != catalog()[6].id.len());
            assert(catalog()[35].id.len() != catalog()[7].id.len());
            assert(catalog()[35].id.len() != catalog()[8].id.len());
            assert(catalog()[35].id.len() != catalog()[9].id.len());
            assert(catalog()[35].id.len() != catalog()[10].id.len());
            assert(catalog()[35].id.len() != catalog()[11].id.len());
            assert(catalog()[35].id.len() != catalog()[12].id.len());
            assert(catalog()[35].id.len() != catalog()[13].id.len());
            assert(catalog()[35].id.len() != catalog()[14].id.len());
            assert(catalog()[35].id.len() != catalog()[15].id.len());
            assert(catalog()[35].id.len() != catalog()[16].id.len());
            assert(catalog()[35].id.len() != catalog()[17].id.len());
            assert(catalog()[35].id.len() != catalog()[18].id.len());
            assert(catalog()[35].id.len() != catalog()[19].id.len());
            assert(catalog()[35].id.len() != catalog()[20].id.len());
            assert(catalog()[35].id.len() != catalog()[21].id.len());
            assert(catalog()[35].id.len() != catalog()[22].id.len());
            assert(catalog()[35].id.len() != catalog()[23].id.len());
            assert(catalog()[35].id.len() != catalog()[24].id.len());
            assert(catalog()[35].id.len() != catalog()[25].id.len());
            assert(catalog()[35].id.len() != catalog()[26].id.len());
            assert(catalog()[35].id[0] != catalog()[27].id[0]);
            assert(catalog()[35].id.len() != catalog()[28].id.len());
            assert(catalog()[35].id.len() != catalog()[29].id.len());
            assert(catalog()[35].id.len() != catalog()[30].id.len());
            assert(catalog()[35].id.len() != catalog()[31].id.len());
            assert(catalog()[35].id.len() != catalog()[32].id.len());
            assert(catalog()[35].id.len() != catalog()[33].id.len());
            assert(catalog()[35].id.len() != catalog()[34].id.len());
            assert(id_position(catalog()[35].id) == 35);
        } else if i == 36 {
            assert(catalog()[36].id.len() != catalog()[0].id.len());
            assert(catalog()[36].id.len() != catalog()[1].id.len());
            assert(catalog()[36].id.len() != catalog()[2].id.len());
            assert(catalog()[36].id.len() != catalog()[3].id.len());
            assert(catalog()[36].id.len() != catalog()[4].id.len());
            assert(catalog()[36].id.len() != catalog()[5].id.len());
            assert(catalog()[36].id.len() != catalog()[6].id.len());
            assert(catalog()[36].id.len() != catalog()[7].id.len());
            assert(catalog()[36].id.len() != catalog()[8].id.len());
            assert(catalog()[36].id.len() != catalog()[9].id.len());
            assert(catalog()[36].id.len() != catalog()[10].id.len());
            assert(catalog()[36].id.len() != catalog()[11].id.len());
            assert(catalog()[36].id.len() != catalog()[12].id.len());
            assert(catalog()[36].id.len() != catalog()[13].id.len());
            assert(catalog()[36].id.len() != catalog()[14].id.len());
            assert(catalog()[36].id.len() != catalog()[15].id.len());
            assert(catalog()[36].id.len() != catalog()[16].id.len());
            assert(catalog()[36].id.len() != catalog()[17].id.len());
            assert(catalog()[36].id[0] != catalog()[18].id[0]);
            assert(catalog()[36].id.len() != catalog()[19].id.len());
            assert(catalog()[36].id.len() != catalog()[20].id.len());
            assert(catalog()[36].id.len() != catalog()[21].id.len());
            assert(catalog()[36].id.len() != catalog()[22].id.len());
            assert(catalog()[36].id.len() != catalog()[23].id.len());
            assert(catalog()[36].id.len() != catalog()[24].id.len());
            assert(catalog()[36].id.len() != catalog()[25].id.len());
            assert(catalog()[36].id.len() != catalog()[26].id.len());
            assert(catalog()[36].id.len() != catalog()[27].id.len());
            assert(catalog()[36].id.len() != catalog()[28].id.len());
            assert(catalog()[36].id.len() != catalog()[29].id.len());
            assert(catalog()[36].id.len() != catalog()[30].id.len());
            assert(catalog()[36].id.len() != catalog()[31].id.len());
            assert(catalog()[36].id.len() != catalog()[32].id.len());
            assert(catalog()[36].id.len() != catalog()[33].id.len());
            assert(catalog()[36].id.len() != catalog()[34].id.len());
            assert(catalog()[36].id.len() != catalog()[35].id.len());
            assert(id_position(catalog()[36].id) == 36);
        } else if i == 37 {
            assert(catalog()[37].id.len() != catalog()[0].id.len());
            assert(catalog()[37].id.len() != catalog()[1].id.len());
            assert(catalog()[37].id.len() != catalog()[2].id.len());
            assert(catalog()[37].id.len() != catalog()[3].id.len());
            assert(catalog()[37].id.len() != catalog()[4].id.len());
            assert(catalog()[37].id.len() != catalog()[5].id.len());
            assert(catalog()[37].id.len() != catalog()[6].id.len());
            assert(catalog()[37].id.len() != catalog()[7].id.len());
            assert(catalog()[37].id.len() != catalog()[8].id.len());
            assert(catalog()[37].id.len() != catalog()[9].id.len());
            assert(catalog()[37].id.len() != catalog()[10].id.len());
            assert(catalog()[37].id.len() != catalog()[11].id.len());
            assert(catalog()[37].id.len() != catalog()[12].id.len());
            assert(catalog()[37].id.len() != catalog()[13].id.len());
            assert(catalog()[37].id.len() != catalog()[14].id.len());
            assert(catalog()[37].id.len() != catalog()[15].id.len());
            assert(catalog()[37].id.len() != catalog()[16].id.len());
            assert(catalog()[37].id.len() != catalog()[17].id.len());
            assert(catalog()[37].id.len() != catalog()[18].id.len());
            assert(catalog()[37].id.len() != catalog()[19].id.len());
            assert(catalog()[37].id.len() != catalog()[20].id.len());
            assert(catalog()[37].id.len() != catalog()[21].id.len());
            assert(catalog()[37].id.len() != catalog()[22].id.len());
            assert(catalog()[37].id.len() != catalog()[23].id.len());
            assert(catalog()[37].id.len() != catalog()[24].id.len());
            assert(catalog()[37].id.len() != catalog()[25].id.len());
            assert(catalog()[37].id.len() != catalog()[26].id.len());
            assert(catalog()[37].id.len() != catalog()[27].id.len());
            assert(catalog()[37].id.len() != catalog()[28].id.len());
            assert(catalog()[37].id.len() != catalog()[29].id.len());
            assert(catalog()[37].id.len() != catalog()[30].id.len());
            assert(catalog()[37].id.len() != catalog()[31].id.len());
            assert(catalog()[37].id.len() != catalog()[32].id.len());
            assert(catalog()[37].id.len() != catalog()[33].id.len());
            assert(catalog()[37].id.len() != catalog()[34].id.len());
            assert(catalog()[37].id.len() != catalog()[35].id.len());
            assert(catalog()[37].id.len() != catalog()[36].id.len());
            assert(id_position(catalog()[37].id) == 37);
        } else if i == 38 {
            assert(catalog()[38].id.len() != catalog()[0].id.len());
            assert(catalog()[38].id.len() != catalog()[1].id.len());
            assert(catalog()[38].id.len() != catalog()[2].id.len());
            assert(catalog()[38].id.len() != catalog()[3].id.len());
            assert(catalog()[38].id.len() != catalog()[4].id.len());
            assert(catalog()[38].id[0] != catalog()[5].id[0]);
            assert(catalog()[38].id.len() != catalog()[6].id.len());
            assert(catalog()[38].id.len() != catalog()[7].id.len());
            assert(catalog()[38].id.len() != catalog()[8].id.len());
            assert(catalog()[38].id.len() != catalog()[9].id.len());
            assert(catalog()[38].id.len() != catalog()[10].id.len());
            assert(catalog()[38].id.len() != catalog()[11].id.len());
            assert(catalog()[38].id.len() != catalog()[12].id.len());
            assert(catalog()[38].id.len() != catalog()[13].id.len());
            assert(catalog()[38].id.len() != catalog()[14].id.len());
            assert(catalog()[38].id.len() != catalog()[15].id.len());
            assert(catalog()[38].id.len() != catalog()[16].id.len());
            assert(catalog()[38].id.len() != catalog()[17].id.len());
            assert(catalog()[38].id.len() != catalog()[18].id.len());
            assert(catalog()[38].id.len() != catalog()[19].id.len());
            assert(catalog()[38].id.len() != catalog()[20].id.len());
            assert(catalog()[38].id.len() != catalog()[21].id.len());
            assert(catalog()[38].id.len() != catalog()[22].id.len());
            assert(catalog()[38].id.len() != catalog()[23].id.len());
            assert(catalog()[38].id.len() != catalog()[24].id.len());
            assert(catalog()[38].id.len() != catalog()[25].id.len());
            assert(catalog()[38].id.len() != catalog()[26].id.len());
            assert(catalog()[38].id[0] != catalog()[27].id[0]);
            assert(catalog()[38].id.len() != catalog()[28].id.len());
            assert(catalog()[38].id.len() != catalog()[29].id.len());
            assert(catalog()[38].id.len() != catalog()[30].id.len());
            assert(catalog()[38].id.len() != catalog()[31].id.len());
            assert(catalog()[38].id.len() != catalog()[32].id.len());
            assert(catalog()[38].id.len() != catalog()[33].id.len());
            assert(catalog()[38].id.len() != catalog()[34].id.len());
            assert(catalog()[38].id[0] != catalog()[35].id[0]);
            assert(catalog()[38].id.len() != catalog()[36].id.len());
            assert(catalog()[38].id.len() != catalog()[37].id.len());
            assert(id_position(catalog()[38].id) == 38);
        } else if i == 39 {
            assert(catalog()[39].id.len() != catalog()[0].id.len());
            assert(catalog()[39].id.len() != catalog()[1].id.len());
            assert(catalog()[39].id.len() != catalog()[2].id.len());
            assert(catalog()[39].id.len() != catalog()[3].id.len());
            assert(catalog()[39].id.len() != catalog()[4].id.len());
            assert(catalog()[39].id.len() != catalog()[5].id.len());
            assert(catalog()[39].id.len() != catalog()[6].id.len());
            assert(catalog()[39].id.len() != catalog()[7].id.len());
            assert(catalog()[39].id.len() != catalog()[8].id.len());
            assert(catalog()[39].id.len() != catalog()[9].id.len());
            assert(catalog()[39].id.len() != catalog()[10].id.len());
            assert(catalog()[39].id.len() != catalog()[11].id.len());
            assert(catalog()[39].id.len() != catalog()[12].id.len());
            assert(catalog()[39].id.len() != catalog()[13].id.len());
            assert(catalog()[39].id.len() != catalog()[14].id.len());
            assert(catalog()[39].id.len() != catalog()[15].id.len());
            assert(catalog()[39].id.len() != catalog()[16].id.len());
            assert(catalog()[39].id.len() != catalog()[17].id.len());
            assert(catalog()[39].id.len() != catalog()[18].id.len());
            assert(catalog()[39].id.len() != catalog()[19].id.len());
            assert(catalog()[39].id.len() != catalog()[20].id.len());
            assert(catalog()[39].id.len() != catalog()[21].id.len());
            assert(catalog()[39].id.len() != catalog()[22].id.len());
            assert(catalog()[39].id.len() != catalog()[23].id.len());
            assert(catalog()[39].id.len() != catalog()[24].id.len());
            assert(catalog()[39].id.len() != catalog()[25].id.len());
            assert(catalog()[39].id.len() != catalog()[26].id.len());
            assert(catalog()[39].id.len() != catalog()[27].id.len());
            assert(catalog()[39].id.len() != catalog()[28].id.len());
            assert(catalog()[39].id[0] != catalog()[29].id[0]);
            assert(catalog()[39].id.len() != catalog()[30].id.len());
            assert(catalog()[39].id.len() != catalog()[31].id.len());
            assert(catalog()[39].id[0] != catalog()[32].id[0]);
            assert(catalog()[39].id.len() != catalog()[33].id.len());
            assert(catalog()[39].id.len() != catalog()[34].id.len());
            assert(catalog()[39].id.len() != catalog()[35].id.len());
            assert(catalog()[39].id.len() != catalog()[36].id.len());
            assert(catalog()[39].id.len() != catalog()[37].id.len());
            assert(catalog()[39].id.len() != catalog()[38].id.len());
            assert(id_position(catalog()[39].id) == 39);
        } else if i == 40 {
            assert(catalog()[40].id.len() != catalog()[0].id.len());
            assert(catalog()[40].id.len() != catalog()[1].id.len());
            assert(catalog()[40].id.len() != catalog()[2].id.len());
            assert(catalog()[40].id.len() != catalog()[3].id.len());
            assert(catalog()[40].id.len() != catalog()[4].id.len());
            assert(catalog()[40].id.len() != catalog()[5].id.len());
            assert(catalog()[40].id.len() != catalog()[6].id.len());
            assert(catalog()[40].id.len() != catalog()[7].id.len());
            assert(catalog()[40].id.len() != catalog()[8].id.len());
            assert(catalog()[40].id.len() != catalog()[9].id.len());
            assert(catalog()[40].id.len() != catalog()[10].id.len());
            assert(catalog()[40].id.len() != catalog()[11].id.len());
            assert(catalog()[40].id[0] != catalog()[12].id[0]);
            assert(catalog()[40].id[1] != catalog()[13].id[1]);
            assert(catalog()[40].id.len() != catalog()[14].id.len());
            assert(catalog()[40].id.len() != catalog()[15].id.len());
            assert(catalog()[40].id.len() != catalog()[16].id.len());
            assert(catalog()[40].id.len() != catalog()[17].id.len());
            assert(catalog()[40].id.len() != catalog()[18].id.len());
            assert(catalog()[40].id.len() != catalog()[19].id.len());
            assert(catalog()[40].id.len() != catalog()[20].id.len());
            assert(catalog()[40].id.len() != catalog()[21].id.len());
            assert(catalog()[40].id.len() != catalog()[22].id.len());
            assert(catalog()[40].id[1] != catalog()[23].id[1]);
            assert(catalog()[40].id.len() != catalog()[24].id.len());
            assert(catalog()[40].id.len() != catalog()[25].id.len());
            assert(catalog()[40].id[0] != catalog()[26].id[0]);
            assert(catalog()[40].id.len() != catalog()[27].id.len());
            assert(catalog()[40].id[1] != catalog()[28].id[1]);
            assert(catalog()[40].id.len() != catalog()[29].id.len());
            assert(catalog()[40].id.len() != catalog()[30].id.len());
            assert(catalog()[40].id.len() != catalog()[31].id.len());
            assert(catalog()[40].id.len() != catalog()[32].id.len());
            assert(catalog()[40].id.len() != catalog()[33].id.len());
            assert(catalog()[40].id.len() != catalog()[34].id.len());
            assert(catalog()[40].id.len() != catalog()[35].id.len());
            assert(catalog()[40].id.len() != catalog()[36].id.len());
            assert(catalog()[40].id.len() != catalog()[37].id.len());
            assert(catalog()[40].id.len() != catalog()[38].id.len());
            assert(catalog()[40].id.len() != catalog()[39].id.len());
            assert(id_position(catalog()[40].id) == 40);
        }
    }
}

/// No two catalog entries share an id: the catalog is a table keyed by id.
pub proof fn lemma_catalog_ids_unique()
    ensures
        forall|i: int, j: int|
            0 <= i < catalog().len() && 0 <= j < catalog().len() && i != j
                ==> #[trigger] catalog()[i].id != #[trigger] catalog()[j].id,
{
    lemma_id_positions();
}

/// The categories the catalog uses.
pub open spec fn known_category(c: Seq<char>) -> bool {
    ||| c == "asr_cpp"@
    ||| c == "tts"@
    ||| c == "vad"@
    ||| c == "diar"@
    ||| c == "align"@
    ||| c == "vc"@
    ||| c == "codec"@
    ||| c == "music"@
    ||| c == "sep"@
}

/// What every catalog entry satisfies: a known category, not yet marked
/// downloaded, a local directory name, and a download mode that matches its
/// sources (GGUF models name a repository and a file; safetensors models
/// name none; only multi-file GGUF models name extra configuration files).
pub open spec fn entry_ok(m: ModelInfoView) -> bool {
    &&& known_category(m.category)
    &&& !m.downloaded
    &&& m.local_dir_name.len() > 0
    &&& (m.download_mode == "gguf"@ || m.download_mode == "gguf_multi"@ || m.download_mode == "safetensors"@)
    &&& (m.download_mode == "safetensors"@) == (m.gguf_repo_id.len() == 0)
    &&& (m.download_mode == "safetensors"@) == (m.gguf_filename.len() == 0)
    &&& (m.download_mode == "gguf_multi"@) == (m.config_repo_id.len() > 0)
    &&& (m.download_mode == "gguf_multi"@) == (m.config_filenames.len() > 0)
}

/// Every catalog entry is well formed.
#[verifier::rlimit(50)]
pub proof fn lemma_catalog_well_formed()
    ensures
        forall|i: int| 0 <= i < catalog().len() ==> entry_ok(#[trigger] catalog()[i]),
{
    reveal_strlit("gguf");
    reveal_strlit("gguf_multi");
    reveal_strlit("safetensors");
    reveal_strlit("");
    assert("gguf"@.len() != "safetensors"@.len());
    assert("gguf"@.len() != "gguf_multi"@.len());
    assert("gguf_multi"@.len() != "safetensors"@.len());
    assert(catalog().len() == 41);
    assert forall|i: int| 0 <= i < catalog().len() implies entry_ok(#[trigger] catalog()[i]) by {
        if i == 0 {
            reveal_strlit("Qwen3-ASR-0.6B-GGUF");
            reveal_strlit("Qwen/Qwen3-ASR-0.6B-GGUF");
            reveal_strlit("qwen3-asr-0.6b.Q5_K_M.gguf");
            assert(entry_ok(catalog()[0]));
        } else if i == 1 {
            reveal_strlit("Qwen3-ASR-1.7B-GGUF");
            reveal_strlit("Qwen/Qwen3-ASR-1.7B-GGUF");
            reveal_strlit("qwen3-asr-1.7b.Q5_K_M.gguf");
            assert(entry_ok(catalog()[1]));
        } else if i == 2 {
            reveal_strlit("Nemotron-ASR-GGUF");
            reveal_strlit("0x3/nemotron-3.5-asr-streaming-0.6b-GGUF");
            reveal_strlit("nemotron-3.5-asr-streaming-0.6b-q4_k.gguf");
            reveal_strlit("nvidia/nemotron-3.5-asr-streaming-0.6b");
            reveal_strlit("config.json processor_config.json tokenizer.json");
            assert(entry_ok(catalog()[2]));
        } else if i == 3 {
            reveal_strlit("Higgs-Audio-STT-GGUF");
            reveal_strlit("Higgs/Higgs-Audio-STT-GGUF");
            reveal_strlit("higgs-audio-stt-1.7b.Q5_K_M.gguf");
            assert(entry_ok(catalog()[3]));
        } else if i == 4 {
            reveal_strlit("Citrinet-256-GGUF");
            reveal_strlit("Nvidia/Citrinet-256-GGUF");
            reveal_strlit("citrinet-256.Q5_K_M.gguf");
            assert(entry_ok(catalog()[4]));
        } else if i == 5 {
            reveal_strlit("Hviske-ASR-GGUF");
            reveal_strlit("audio-cpp/audio.cpp-gguf");
            reveal_strlit("hviske-asr-v5.3.Q8_0.gguf");
            assert(entry_ok(catalog()[5]));
        } else if i == 6 {
            reveal_strlit("VibeVoice-ASR-GGUF");
            reveal_strlit("audio-cpp/audio.cpp-gguf");
            reveal_strlit("vibevoice-asr.Q8_0.gguf");
            assert(entry_ok(catalog()[6]));
        } else if i == 7 {
            reveal_strlit("Voxtral-Realtime-GGUF");
            reveal_strlit("audio-cpp/audio.cpp-gguf");
            reveal_strlit("voxtral-mini-4b.Q8_0.gguf");
            assert(entry_ok(catalog()[7]));
        } else if i == 8 {
            reveal_strlit("Qwen3-TTS-0.6B-GGUF");
            reveal_strlit("Qwen/Qwen3-TTS-0.6B-GGUF");
            reveal_strlit("qwen3-tts-0.6b.Q5_K_M.gguf");
            assert(entry_ok(catalog()[8]));
        } else if i == 9 {
            reveal_strlit("Qwen3-TTS-1.7B-GGUF");
            reveal_strlit("Qwen/Qwen3-TTS-1.7B-GGUF");
            reveal_strlit("qwen3-tts-1.7b.Q5_K_M.gguf");
            assert(entry_ok(catalog()[9]));
        } else if i == 10 {
            reveal_strlit("Chatterbox-GGUF");
            reveal_strlit("audio-cpp/audio.cpp-gguf");
            reveal_strlit("chatterbox.Q8_0.gguf");
            assert(entry_ok(catalog()[10]));
        } else if i == 11 {
            reveal_strlit("Fish-S2-Pro-GGUF");
            reveal_strlit("audio-cpp/audio.cpp-gguf");
            reveal_strlit("fish-audio-s2-pro.Q8_0.gguf");
            assert(entry_ok(catalog()[11]));
        } else if i == 12 {
            reveal_strlit("Higgs-TTS-4B-GGUF");
            reveal_strlit("audio-cpp/audio.cpp-gguf");
            reveal_strlit("higgs-audio-v3-tts-4b.Q8_0.gguf");
            assert(entry_ok(catalog()[12]));
        } else if i == 13 {
            reveal_strlit("MioTTS-1.7B-GGUF");
            reveal_strlit("audio-cpp/audio.cpp-gguf");
            reveal_strlit("miotts-1.7b.Q8_0.gguf");
            assert(entry_ok(catalog()[13]));
        } else if i == 14 {
            reveal_strlit("OmniVoice-GGUF");
            reveal_strlit("audio-cpp/audio.cpp-gguf");
            reveal_strlit("omnivoice.Q8_0.gguf");
            assert(entry_ok(catalog()[14]));
        } else if i == 15 {
            reveal_strlit("PocketTTS-GGUF");
            reveal_strlit("audio-cpp/audio.cpp-gguf");
            reveal_strlit("pocket-tts.Q8_0.gguf");
            assert(entry_ok(catalog()[15]));
        } else if i == 16 {
            reveal_strlit("Vevo2-GGUF");
            reveal_strlit("audio-cpp/audio.cpp-gguf");
            reveal_strlit("vevo2.Q8_0.gguf");
            assert(entry_ok(catalog()[16]));
        } else if i == 17 {
            reveal_strlit("VibeVoice-1.5B-GGUF");
            reveal_strlit("audio-cpp/audio.cpp-gguf");
            reveal_strlit("vibevoice-1.5b.Q8_0.gguf");
            assert(entry_ok(catalog()[17]));
        } else if i == 18 {
            reveal_strlit("VibeVoice-7B-GGUF");
            reveal_strlit("audio-cpp/audio.cpp-gguf");
            reveal_strlit("vibevoice-7b.Q8_0.gguf");
            assert(entry_ok(catalog()[18]));
        } else if i == 19 {
            reveal_strlit("VoxCPM2-GGUF");
            reveal_strlit("audio-cpp/audio.cpp-gguf");
            reveal_strlit("voxcpm2.Q8_0.gguf");
            assert(entry_ok(catalog()[19]));
        } else if i == 20 {
            reveal_strlit("IndexTTS2-GGUF");
            reveal_strlit("audio-cpp/audio.cpp-gguf");
            reveal_strlit("index-tts2.Q8_0.gguf");
            assert(entry_ok(catalog()[20]));
        } else if i == 21 {
            reveal_strlit("Irodori-TTS-500M-GGUF");
            reveal_strlit("audio-cpp/audio.cpp-gguf");
            reveal_strlit("irodori-tts-500m.Q8_0.gguf");
            assert(entry_ok(catalog()[21]));
        } else if i == 22 {
            reveal_strlit("Irodori-TTS-600M-VD-GGUF");
            reveal_strlit("audio-cpp/audio.cpp-gguf");
            reveal_strlit("irodori-tts-600m-vd.Q8_0.gguf");
            assert(entry_ok(catalog()[22]));
        } else if i == 23 {
            reveal_strlit("MOSS-TTS-Nano-GGUF");
            reveal_strlit("audio-cpp/audio.cpp-gguf");
            reveal_strlit("moss-tts-nano.Q8_0.gguf");
            assert(entry_ok(catalog()[23]));
        } else if i == 24 {
            reveal_strlit("MOSS-TTS-Local-GGUF");
            reveal_strlit("audio-cpp/audio.cpp-gguf");
            reveal_strlit("moss-tts-local.Q8_0.gguf");
            assert(entry_ok(catalog()[24]));
        } else if i == 25 {
            reveal_strlit("Supertonic-3-GGUF");
            reveal_strlit("audio-cpp/audio.cpp-gguf");
            reveal_strlit("supertonic-3.Q8_0.gguf");
            assert(entry_ok(catalog()[25]));
        } else if i == 26 {
            reveal_strlit("OuteTTS-1B-GGUF");
            reveal_strlit("mirek190/audio.cpp");
            reveal_strlit("outetts-1b.Q8_0.gguf");
            assert(entry_ok(catalog()[26]));
        } else if i == 27 {
            reveal_strlit("VieNeu-TTS-GGUF");
            reveal_strlit("audio-cpp/audio.cpp-gguf");
            reveal_strlit("vietneu-tts-v3.Q8_0.gguf");
            assert(entry_ok(catalog()[27]));
        } else if i == 28 {
            reveal_strlit("MarbleNet-VAD");
            assert(entry_ok(catalog()[28]));
        } else if i == 29 {
            reveal_strlit("Silero-VAD");
            assert(entry_ok(catalog()[29]));
        } else if i == 30 {
            reveal_strlit("Sortformer-Diar");
            assert(entry_ok(catalog()[30]));
        } else if i == 31 {
            reveal_strlit("Qwen3-Aligner-0.6B");
            reveal_strlit("audio-cpp/audio.cpp-gguf");
            reveal_strlit("qwen3-aligner-0.6b.Q8_0.gguf");
            assert(entry_ok(catalog()[31]));
        } else if i == 32 {
            reveal_strlit("SeedVC-MLX");
            assert(entry_ok(catalog()[32]));
        } else if i == 33 {
            reveal_strlit("MioCodec-v2");
            assert(entry_ok(catalog()[33]));
        } else if i == 34 {
            reveal_strlit("ACE-Step-1.5");
            assert(entry_ok(catalog()[34]));
        } else if i == 35 {
            reveal_strlit("HeartMuLa-3B");
            assert(entry_ok(catalog()[35]));
        } else if i == 36 {
            reveal_strlit("SA3-Small-Music");
            assert(entry_ok(catalog()[36]));
        } else if i == 37 {
            reveal_strlit("SA3-Small-SFX");
            assert(entry_ok(catalog()[37]));
        } else if i == 38 {
            reveal_strlit("SA3-Medium");
            assert(entry_ok(catalog()[38]));
        } else if i == 39 {
            reveal_strlit("HTDemucs");
            assert(entry_ok(catalog()[39]));
        } else if i == 40 {
            reveal_strlit("MBR-MLX");
            assert(entry_ok(catalog()[40]));
        }
    }
}

/// In a list without repeated ids, looking up an entry's id finds that entry.
proof fn lemma_lookup_unique(entries: Seq<ModelInfoView>, i: int)
    requires
        0 <= i < entries.len(),
        forall|a: int, b: int|
            0 <= a < entries.len() && 0 <= b < entries.len() && a != b
                ==> #[trigger] entries[a].id != #[trigger] entries[b].id,
    ensures
        lookup(entries, entries[i].id) == Some(entries[i]),
    decreases entries.len(),
{
    if i != entries.len() - 1 {
        let rest = entries.drop_last();
        assert(entries.last() == entries[entries.len() - 1]);
        assert forall|a: int, b: int|
            0 <= a < rest.len() && 0 <= b < rest.len() && a != b
                implies #[trigger] rest[a].id != #[trigger] rest[b].id by {
            assert(rest[a] == entries[a]);
            assert(rest[b] == entries[b]);
        }
        lemma_lookup_unique(rest, i);
        assert(rest[i] == entries[i]);
    }
}

/// Every catalog entry is found again by its own id.
pub proof fn lemma_find_model_by_own_id(i: int)
    requires
        0 <= i < catalog().len(),
    ensures
        lookup(catalog(), catalog()[i].id) == Some(catalog()[i]),
{
    lemma_catalog_ids_unique();
    lemma_lookup_unique(catalog(), i);
}

/// A listing holds only entries of the requested category, each marked
/// downloaded exactly when its directory is present; without a filter it
/// holds every entry, in order.
pub proof fn lemma_listing(entries: Seq<ModelInfoView>, filter: Option<Seq<char>>, local: Seq<Seq<char>>)
    ensures
        forall|k: int| 0 <= k < with_status(entries, filter, local).len() ==> {
            let m = #[trigger] with_status(entries, filter, local)[k];
            listed(m, filter) && m.downloaded == local.contains(m.local_dir_name)
        },
        with_status(entries, filter, local).len() <= entries.len(),
        filter is None ==> with_status(entries, filter, local).len() == entries.len(),
        filter is None ==> forall|k: int| 0 <= k < entries.len() ==>
            #[trigger] with_status(entries, filter, local)[k] == marked(entries[k], local.contains(entries[k].local_dir_name)),
    decreases entries.len(),
{
    if entries.len() > 0 {
        let rest = entries.drop_last();
        lemma_listing(rest, filter, local);
        let r = with_status(entries, filter, local);
        let rr = with_status(rest, filter, local);
        if filter is None {
            assert forall|k: int| 0 <= k < entries.len() implies #[trigger] r[k] == marked(entries[k], local.contains(entries[k].local_dir_name)) by {
                if k < rest.len() {
                    assert(r[k] == rr[k]);
                    assert(rest[k] == entries[k]);
                }
            }
        }
        assert forall|k: int| 0 <= k < r.len() implies {
            let m = #[trigger] r[k];
            listed(m, filter) && m.downloaded == local.contains(m.local_dir_name)
        } by {
            if k < rr.len() {
                assert(r[k] == rr[k]);
            }
        }
    }
}

/// A listing under a category filter holds exactly the entries of that
/// category, all of them, in their order, each marked downloaded exactly
/// when its directory is among `local`.
pub proof fn lemma_listing_by_category(entries: Seq<ModelInfoView>, c: Seq<char>, local: Seq<Seq<char>>)
    ensures
        with_status(entries, Some(c), local) == entries.filter(|m: ModelInfoView| m.category == c).map_values(
            |m: ModelInfoView| (ModelInfoView { downloaded: local.contains(m.local_dir_name), ..m }),
        ),
        forall|i: int| 0 <= i < entries.len() && #[trigger] entries[i].category == c
            ==> with_status(entries, Some(c), local).contains(
                (ModelInfoView { downloaded: local.contains(entries[i].local_dir_name), ..entries[i] }),
            ),
    decreases entries.len(),
{
    let pred = |m: ModelInfoView| m.category == c;
    let f = |m: ModelInfoView| (ModelInfoView { downloaded: local.contains(m.local_dir_name), ..m });
    if entries.len() == 0 {
        assert(entries.filter(pred) =~= Seq::<ModelInfoView>::empty()) by {
            reveal(Seq::filter);
        }
        assert(with_status(entries, Some(c), local) =~= entries.filter(pred).map_values(f));
    } else {
        let rest = entries.drop_last();
        lemma_listing_by_category(rest, c, local);
        assert(entries.filter(pred) == if pred(entries.last()) {
            rest.filter(pred).push(entries.last())
        } else {
            rest.filter(pred)
        }) by {
            reveal(Seq::filter);
        }
        assert(marked(entries.last(), local.contains(entries.last().local_dir_name)) == f(entries.last()));
        if pred(entries.last()) {
            assert(rest.filter(pred).push(entries.last()).map_values(f) =~= rest.filter(pred).map_values(f).push(
                f(entries.last()),
            ));
        }
        assert(with_status(entries, Some(c), local) =~= entries.filter(pred).map_values(f));
    }
    assert forall|i: int| 0 <= i < entries.len() && #[trigger] entries[i].category == c
        implies with_status(entries, Some(c), local).contains(
            (ModelInfoView { downloaded: local.contains(entries[i].local_dir_name), ..entries[i] }),
        ) by {
        entries.lemma_filter_contains(pred, i);
        let fl = entries.filter(pred);
        let j = choose|j: int| 0 <= j < fl.len() && fl[j] == entries[i];
        assert(fl.map_values(f)[j] == f(entries[i]));
    }
}

} // verus!
