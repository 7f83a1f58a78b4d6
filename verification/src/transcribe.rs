//! File transcription with the whisper command-line tool: which model
//! files to use, the tool's arguments, and how its output is assembled.
use vstd::prelude::*;

use crate::text::{chars_of, fold_case, fold_char, join, joined};

verus! {

/// Whether `w` occurs in `s`.
pub open spec fn has_window(s: Seq<char>, w: Seq<char>) -> bool {
    exists|i: int| 0 <= i && i + w.len() <= s.len() && #[trigger] s.subrange(i, i + w.len()) == w
}

/// Whether `w` occurs in `s` once case is folded (for the all-ASCII words
/// used here, which hold no `k` and do not end in `i`, this is exactly
/// whether the lower-cased `s` contains `w`).
pub open spec fn has_folded_window(s: Seq<char>, w: Seq<char>) -> bool {
    exists|i: int| 0 <= i && i + w.len() <= s.len() && #[trigger] crate::text::folds_to(s.subrange(i, i + w.len()), w)
}

/// Whether the characters of `cs` from `at` on start with `w` (case folded
/// when `folded`).
fn matches_at(cs: &Vec<char>, at: usize, w: &Vec<char>, folded: bool) -> (r: bool)
    requires
        at + w@.len() <= cs@.len(),
    ensures
        folded ==> r == crate::text::folds_to(cs@.subrange(at as int, at + w@.len()), w@),
        !folded ==> r == (cs@.subrange(at as int, at + w@.len()) == w@),
{
    let ghost sub = cs@.subrange(at as int, at + w@.len());
    let n: usize = cs.len();
    let mut k: usize = 0;
    while k < w.len()
        invariant
            at + w@.len() <= cs@.len(),
            sub == cs@.subrange(at as int, at + w@.len()),
            n == cs@.len(),
            k <= w@.len(),
            folded ==> forall|j: int| 0 <= j < k ==> fold_case(#[trigger] sub[j]) == w@[j],
            !folded ==> forall|j: int| 0 <= j < k ==> #[trigger] sub[j] == w@[j],
        decreases w@.len() - k,
    {
        assert(at + k < cs@.len());
        let c = cs[at + k];
        assert(sub[k as int] == c);
        let d = if folded {
            fold_char(c)
        } else {
            c
        };
        if d != w[k] {
            return false;
        }
        k = k + 1;
    }
    if !folded {
        assert(sub =~= w@);
    }
    true
}

/// Whether `w` occurs in `cs` (case folded when `folded`).
fn contains_word(cs: &Vec<char>, w: &str, folded: bool) -> (r: bool)
    ensures
        folded ==> r == has_folded_window(cs@, w@),
        !folded ==> r == has_window(cs@, w@),
{
    let ws = chars_of(w);
    if ws.len() > cs.len() {
        return false;
    }
    let limit: usize = cs.len() - ws.len();
    let mut i: usize = 0;
    loop
        invariant
            ws@ == w@,
            limit == cs@.len() - ws@.len(),
            i <= limit,
            folded ==> forall|j: int| 0 <= j < i ==> !crate::text::folds_to(#[trigger] cs@.subrange(j, j + ws@.len()), ws@),
            !folded ==> forall|j: int| 0 <= j < i ==> #[trigger] cs@.subrange(j, j + ws@.len()) != ws@,
        decreases limit - i,
    {
        if matches_at(cs, i, &ws, folded) {
            return true;
        }
        if i == limit {
            assert(folded ==> !has_folded_window(cs@, w@)) by {
                if folded {
                    assert forall|j: int| 0 <= j && j + w@.len() <= cs@.len() implies !crate::text::folds_to(#[trigger] cs@.subrange(j, j + w@.len()), w@) by {
                        assert(j <= i);
                    }
                }
            }
            assert(!folded ==> !has_window(cs@, w@)) by {
                if !folded {
                    assert forall|j: int| 0 <= j && j + w@.len() <= cs@.len() implies #[trigger] cs@.subrange(j, j + w@.len()) != w@ by {
                        assert(j <= i);
                    }
                }
            }
            return false;
        }
        i = i + 1;
    }
}

/// The whisper model directory used for a catalog model id.
pub open spec fn whisper_dir_spec(id: Seq<char>) -> Seq<char> {
    if has_window(id, "0.6B"@) || has_window(id, "0.6b"@) {
        "whisper-base"@
    } else if has_window(id, "1.7B"@) || has_window(id, "1.7b"@) {
        "whisper-small"@
    } else if has_folded_window(id, "nemotron"@) {
        "whisper-small"@
    } else if has_folded_window(id, "citrinet"@) {
        "whisper-tiny"@
    } else if has_folded_window(id, "higgs"@) {
        "whisper-small"@
    } else {
        "whisper-base"@
    }
}

/// Maps a model id to the whisper model directory under the model folder.
pub fn whisper_model_dir(model_id: &str) -> (r: String)
    ensures
        r@ == whisper_dir_spec(model_id@),
{
    let cs = chars_of(model_id);
    if contains_word(&cs, "0.6B", false) || contains_word(&cs, "0.6b", false) {
        "whisper-base".to_owned()
    } else if contains_word(&cs, "1.7B", false) || contains_word(&cs, "1.7b", false) {
        "whisper-small".to_owned()
    } else if contains_word(&cs, "nemotron", true) {
        "whisper-small".to_owned()
    } else if contains_word(&cs, "citrinet", true) {
        "whisper-tiny".to_owned()
    } else if contains_word(&cs, "higgs", true) {
        "whisper-small".to_owned()
    } else {
        "whisper-base".to_owned()
    }
}

/// How a model id picks its whisper folder, first rule first: an id naming
/// size 0.6B uses `whisper-base`; else size 1.7B uses `whisper-small`; else
/// an id naming Nemotron (in any case) uses `whisper-small`, Citrinet
/// `whisper-tiny`, Higgs `whisper-small`; an id matching no rule uses
/// `whisper-base`. No other folder is ever chosen.
pub proof fn lemma_whisper_dir_rules(id: Seq<char>)
    ensures
        whisper_dir_spec(id) == "whisper-base"@ || whisper_dir_spec(id) == "whisper-small"@
            || whisper_dir_spec(id) == "whisper-tiny"@,
        has_window(id, "0.6B"@) ==> whisper_dir_spec(id) == "whisper-base"@,
        has_window(id, "0.6b"@) ==> whisper_dir_spec(id) == "whisper-base"@,
        !has_window(id, "0.6B"@) && !has_window(id, "0.6b"@) && (has_window(id, "1.7B"@) || has_window(id, "1.7b"@))
            ==> whisper_dir_spec(id) == "whisper-small"@,
        !has_window(id, "0.6B"@) && !has_window(id, "0.6b"@) && !has_window(id, "1.7B"@) && !has_window(id, "1.7b"@)
            && has_folded_window(id, "nemotron"@) ==> whisper_dir_spec(id) == "whisper-small"@,
        !has_window(id, "0.6B"@) && !has_window(id, "0.6b"@) && !has_window(id, "1.7B"@) && !has_window(id, "1.7b"@)
            && !has_folded_window(id, "nemotron"@) && has_folded_window(id, "citrinet"@)
            ==> whisper_dir_spec(id) == "whisper-tiny"@,
        !has_window(id, "0.6B"@) && !has_window(id, "0.6b"@) && !has_window(id, "1.7B"@) && !has_window(id, "1.7b"@)
            && !has_folded_window(id, "nemotron"@) && !has_folded_window(id, "citrinet"@)
            && has_folded_window(id, "higgs"@) ==> whisper_dir_spec(id) == "whisper-small"@,
        !has_window(id, "0.6B"@) && !has_window(id, "0.6b"@) && !has_window(id, "1.7B"@) && !has_window(id, "1.7b"@)
            && !has_folded_window(id, "nemotron"@) && !has_folded_window(id, "citrinet"@)
            && !has_folded_window(id, "higgs"@) ==> whisper_dir_spec(id) == "whisper-base"@,
{
}

/// Whether a file name looks like a whisper model (`ggml-*.bin`).
pub open spec fn is_ggml_name(name: Seq<char>) -> bool {
    &&& name.len() >= 5
    &&& name.take(5) == "ggml-"@
    &&& name.len() >= 4
    &&& name.skip(name.len() - 4) == ".bin"@
}

/// Whether a file name looks like a whisper model (`ggml-*.bin`).
pub fn is_ggml_model_file(name: &str) -> (r: bool)
    ensures
        r == is_ggml_name(name@),
{
    let cs = chars_of(name);
    proof {
        reveal_strlit("ggml-");
        reveal_strlit(".bin");
    }
    let n = cs.len();
    if n < 5 || n < 4 {
        return false;
    }
    let p = matches_at(&cs, 0, &chars_of("ggml-"), false);
    let q = matches_at(&cs, n - 4, &chars_of(".bin"), false);
    assert(cs@.subrange(0, 5) =~= name@.take(5));
    assert(cs@.subrange(n - 4, n as int) =~= name@.skip(n - 4));
    p && q
}

/// The arguments of a whisper run that writes its result as JSON next to
/// `out_base`.
pub open spec fn whisper_args_spec(
    model_path: Seq<char>,
    audio_path: Seq<char>,
    out_base: Seq<char>,
    language: Seq<char>,
) -> Seq<Seq<char>> {
    seq![
        "--model"@,
        model_path,
        "--file"@,
        audio_path,
        "--output-json"@,
        "-of"@,
        out_base,
        "--language"@,
        language,
        "--threads"@,
        "4"@,
    ]
}

/// The arguments of a whisper run (the language is passed as given,
/// `auto` included).
pub fn whisper_args(model_path: &str, audio_path: &str, out_base: &str, language: &str) -> (r: Vec<String>)
    ensures
        r.deep_view() == whisper_args_spec(model_path@, audio_path@, out_base@, language@),
{
    let mut r: Vec<String> = Vec::new();
    r.push("--model".to_owned());
    r.push(model_path.to_owned());
    r.push("--file".to_owned());
    r.push(audio_path.to_owned());
    r.push("--output-json".to_owned());
    r.push("-of".to_owned());
    r.push(out_base.to_owned());
    r.push("--language".to_owned());
    r.push(language.to_owned());
    r.push("--threads".to_owned());
    r.push("4".to_owned());
    assert(r.deep_view() =~= whisper_args_spec(model_path@, audio_path@, out_base@, language@));
    r
}

/// A whisper run's arguments carry the given model, audio file, output
/// base and language, each right after its flag: eleven arguments, the
/// model at 1, the audio file at 3, the output base at 6 and the language
/// at 8, with JSON output and four threads.
pub proof fn lemma_whisper_args_carry_inputs(
    model_path: Seq<char>,
    audio_path: Seq<char>,
    out_base: Seq<char>,
    language: Seq<char>,
)
    ensures
        whisper_args_spec(model_path, audio_path, out_base, language).len() == 11,
        whisper_args_spec(model_path, audio_path, out_base, language)[0] == "--model"@,
        whisper_args_spec(model_path, audio_path, out_base, language)[1] == model_path,
        whisper_args_spec(model_path, audio_path, out_base, language)[2] == "--file"@,
        whisper_args_spec(model_path, audio_path, out_base, language)[3] == audio_path,
        whisper_args_spec(model_path, audio_path, out_base, language)[4] == "--output-json"@,
        whisper_args_spec(model_path, audio_path, out_base, language)[5] == "-of"@,
        whisper_args_spec(model_path, audio_path, out_base, language)[6] == out_base,
        whisper_args_spec(model_path, audio_path, out_base, language)[7] == "--language"@,
        whisper_args_spec(model_path, audio_path, out_base, language)[8] == language,
        whisper_args_spec(model_path, audio_path, out_base, language)[9] == "--threads"@,
        whisper_args_spec(model_path, audio_path, out_base, language)[10] == "4"@,
{
}

/// The arguments of an ffmpeg run converting any media file to 16 kHz mono
/// 16-bit WAV.
pub fn ffmpeg_extract_args(input_path: &str, output_path: &str) -> (r: Vec<String>)
    ensures
        r.deep_view() == seq![
            "-y"@,
            "-i"@,
            input_path@,
            "-ar"@,
            "16000"@,
            "-ac"@,
            "1"@,
            "-sample_fmt"@,
            "s16"@,
            "-f"@,
            "wav"@,
            output_path@,
        ],
{
    let mut r: Vec<String> = Vec::new();
    r.push("-y".to_owned());
    r.push("-i".to_owned());
    r.push(input_path.to_owned());
    r.push("-ar".to_owned());
    r.push("16000".to_owned());
    r.push("-ac".to_owned());
    r.push("1".to_owned());
    r.push("-sample_fmt".to_owned());
    r.push("s16".to_owned());
    r.push("-f".to_owned());
    r.push("wav".to_owned());
    r.push(output_path.to_owned());
    assert(r.deep_view() =~= seq![
        "-y"@,
        "-i"@,
        input_path@,
        "-ar"@,
        "16000"@,
        "-ac"@,
        "1"@,
        "-sample_fmt"@,
        "s16"@,
        "-f"@,
        "wav"@,
        output_path@,
    ]);
    r
}

/// The text recorded for a file whose transcription failed.
pub fn batch_error_text(error: &str) -> (r: String)
    ensures
        r@ == "[ERROR] "@ + error@,
{
    let mut r = "[ERROR] ".to_owned();
    r.append(error);
    r
}

/// The number of characters of a transcript (its word count as recorded).
pub fn char_count(text: &str) -> (r: usize)
    ensures
        r == text@.len(),
{
    let cs = chars_of(text);
    cs.len()
}

/// The first name in a listing that looks like a whisper model.
pub open spec fn first_ggml(names: Seq<Seq<char>>) -> Option<Seq<char>>
    decreases names.len(),
{
    if names.len() == 0 {
        None
    } else if is_ggml_name(names[0]) {
        Some(names[0])
    } else {
        first_ggml(names.drop_first())
    }
}

/// The model file used in a whisper model directory: `ggml-base.bin` when
/// present, otherwise `ggml-small.bin` when present, otherwise the first
/// `ggml-*.bin` file of the directory listing.
pub open spec fn chosen_model_file(base_exists: bool, small_exists: bool, listing: Seq<Seq<char>>) -> Option<Seq<char>> {
    if base_exists {
        Some("ggml-base.bin"@)
    } else if small_exists {
        Some("ggml-small.bin"@)
    } else {
        first_ggml(listing)
    }
}

/// Picks the model file of a whisper model directory.
pub fn pick_model_file(base_exists: bool, small_exists: bool, listing: &Vec<String>) -> (r: Option<String>)
    ensures
        match r {
            Some(f) => chosen_model_file(base_exists, small_exists, listing.deep_view()) == Some(f@),
            None => chosen_model_file(base_exists, small_exists, listing.deep_view()) is None,
        },
{
    if base_exists {
        return Some("ggml-base.bin".to_owned());
    }
    if small_exists {
        return Some("ggml-small.bin".to_owned());
    }
    let ghost all = listing.deep_view();
    let mut i: usize = 0;
    assert(all.skip(0) =~= all);
    while i < listing.len()
        invariant
            !base_exists && !small_exists,
            all == listing.deep_view(),
            i <= listing@.len(),
            first_ggml(all) == first_ggml(all.skip(i as int)),
        decreases listing@.len() - i,
    {
        let ghost rest = all.skip(i as int);
        assert(rest[0] == listing@[i as int]@);
        assert(rest.drop_first() =~= all.skip(i + 1));
        if is_ggml_model_file(listing[i].as_str()) {
            let f = listing[i].clone();
            assert(f@ == rest[0]);
            return Some(f);
        }
        i = i + 1;
    }
    assert(all.skip(i as int).len() == 0);
    None
}

/// The refusal when no model file is found in a whisper model directory
/// (the model folder as displayed, then the directory).
pub fn model_not_found_message(model_folder: &str, dir: &str) -> (r: String)
    ensures
        r@ == "Model not found. Download a whisper model to "@ + model_folder@ + "/"@ + dir@,
{
    let mut r = "Model not found. Download a whisper model to ".to_owned();
    r.append(model_folder);
    r.append("/");
    r.append(dir);
    r
}

/// One entry of the recognizer's JSON output, as read: its text and its
/// `timestamps.from` and `timestamps.to`, each present only when it is a
/// JSON string.
pub struct RawSegment {
    pub text: Option<String>,
    pub from: Option<String>,
    pub to: Option<String>,
}

/// The value of an optional string.
pub open spec fn opt_text(o: Option<String>) -> Option<Seq<char>> {
    match o {
        Some(s) => Some(s@),
        None => None,
    }
}

/// The value of a raw segment: text, start and end.
pub open spec fn raw_segment_view(s: RawSegment) -> (Option<Seq<char>>, Option<Seq<char>>, Option<Seq<char>>) {
    (opt_text(s.text), opt_text(s.from), opt_text(s.to))
}

/// The value of a parsed recognizer output: an error text, no
/// `transcription` array, or its entries in order.
pub open spec fn raw_output_view(r: Result<Option<Vec<RawSegment>>, String>) -> Result<
    Option<Seq<(Option<Seq<char>>, Option<Seq<char>>, Option<Seq<char>>)>>,
    Seq<char>,
> {
    match r {
        Ok(Some(v)) => Ok(Some(v@.map_values(|s: RawSegment| raw_segment_view(s)))),
        Ok(None) => Ok(None),
        Err(e) => Err(e@),
    }
}

/// What the JSON parser makes of the recognizer's output text: the parser's
/// error message, or the entries of the top-level `transcription` array
/// (none when that is missing or not an array), each read as in
/// [`RawSegment`].
pub uninterp spec fn whisper_json(json: Seq<char>) -> Result<
    Option<Seq<(Option<Seq<char>>, Option<Seq<char>>, Option<Seq<char>>)>>,
    Seq<char>,
>;

/// Parses the recognizer's JSON output with `serde_json::from_str` into a
/// `serde_json::Value` and reads `transcription` with `as_array`, then each
/// entry's `text`, `timestamps.from` and `timestamps.to` with `as_str`. The
/// result is named [`whisper_json`]; what the parser accepts is not stated.
#[verifier::external_body]
fn parse_whisper_json(json: &str) -> (r: Result<Option<Vec<RawSegment>>, String>)
    ensures
        raw_output_view(r) == whisper_json(json@),
{
    let v: serde_json::Value = serde_json::from_str(json).map_err(|e| e.to_string())?;
    let text_of = |x: &serde_json::Value| x.as_str().map(|t| t.to_string());
    Ok(v["transcription"].as_array().map(|a| {
        a.iter().map(|s| RawSegment {
            text: text_of(&s["text"]),
            from: text_of(&s["timestamps"]["from"]),
            to: text_of(&s["timestamps"]["to"]),
        }).collect()
    }))
}

/// The entries that carry a text, a start and an end, in order.
pub open spec fn kept_segments(raw: Seq<(Option<Seq<char>>, Option<Seq<char>>, Option<Seq<char>>)>) -> Seq<
    (Seq<char>, Seq<char>, Seq<char>),
>
    decreases raw.len(),
{
    if raw.len() == 0 {
        Seq::empty()
    } else {
        let rest = kept_segments(raw.drop_last());
        match raw.last() {
            (Some(t), Some(f), Some(e)) => rest.push((t, f, e)),
            _ => rest,
        }
    }
}

/// The texts of segments.
pub open spec fn segment_texts(segs: Seq<(Seq<char>, Seq<char>, Seq<char>)>) -> Seq<Seq<char>> {
    segs.map_values(|s: (Seq<char>, Seq<char>, Seq<char>)| s.0)
}

/// The transcript made of a parsed recognizer output: a parse error `e`
/// gives `Invalid JSON: e`; no `transcription` array gives an empty
/// transcript; otherwise the kept segments, and their texts joined by
/// single spaces.
pub open spec fn transcript_of(
    parsed: Result<Option<Seq<(Option<Seq<char>>, Option<Seq<char>>, Option<Seq<char>>)>>, Seq<char>>,
) -> Result<(Seq<char>, Seq<(Seq<char>, Seq<char>, Seq<char>)>), Seq<char>> {
    match parsed {
        Err(e) => Err("Invalid JSON: "@ + e),
        Ok(None) => Ok((Seq::empty(), Seq::empty())),
        Ok(Some(raw)) => Ok((joined(segment_texts(kept_segments(raw)), " "@), kept_segments(raw))),
    }
}

/// The value of a transcript result: the error text, or the full text and
/// the (text, start, end) of each segment.
pub open spec fn transcript_view(r: Result<(String, Vec<(String, String, String)>), String>) -> Result<
    (Seq<char>, Seq<(Seq<char>, Seq<char>, Seq<char>)>),
    Seq<char>,
> {
    match r {
        Ok((t, v)) => Ok((t@, v.deep_view())),
        Err(e) => Err(e@),
    }
}

/// Assembles the transcript from the parsed recognizer output: keeps the
/// entries with a text, a start and an end, in order, and joins their texts
/// by single spaces.
pub fn transcript_from(parsed: Result<Option<Vec<RawSegment>>, String>) -> (r: Result<
    (String, Vec<(String, String, String)>),
    String,
>)
    ensures
        transcript_view(r) == transcript_of(raw_output_view(parsed)),
{
    match parsed {
        Err(e) => {
            let mut m = "Invalid JSON: ".to_owned();
            m.append(e.as_str());
            assert(m@ == "Invalid JSON: "@ + e@);
            Err(m)
        },
        Ok(None) => {
            let segs: Vec<(String, String, String)> = Vec::new();
            assert(segs.deep_view() =~= Seq::<(Seq<char>, Seq<char>, Seq<char>)>::empty());
            Ok((String::new(), segs))
        },
        Ok(Some(raw)) => {
            let ghost rv = raw@.map_values(|s: RawSegment| raw_segment_view(s));
            let mut segs: Vec<(String, String, String)> = Vec::new();
            let mut texts: Vec<String> = Vec::new();
            let mut i: usize = 0;
            while i < raw.len()
                invariant
                    i <= raw.len(),
                    rv == raw@.map_values(|s: RawSegment| raw_segment_view(s)),
                    segs.deep_view() == kept_segments(rv.subrange(0, i as int)),
                    texts.deep_view() == segment_texts(kept_segments(rv.subrange(0, i as int))),
                decreases raw.len() - i,
            {
                let ghost before = kept_segments(rv.subrange(0, i as int));
                assert(rv.subrange(0, i + 1).drop_last() =~= rv.subrange(0, i as int));
                assert(rv.subrange(0, i + 1).last() == raw_segment_view(raw@[i as int]));
                let s = &raw[i];
                match (&s.text, &s.from, &s.to) {
                    (Some(t), Some(f), Some(e)) => {
                        segs.push((t.clone(), f.clone(), e.clone()));
                        texts.push(t.clone());
                        assert(segs.deep_view() =~= before.push((t@, f@, e@)));
                        assert(segment_texts(before.push((t@, f@, e@))) =~= segment_texts(before).push(t@));
                        assert(texts.deep_view() =~= segment_texts(before).push(t@));
                    },
                    _ => {},
                }
                i = i + 1;
            }
            assert(rv.subrange(0, raw.len() as int) =~= rv);
            let full = join(&texts, " ");
            Ok((full, segs))
        },
    }
}

/// The transcript of the recognizer's JSON output: `Invalid JSON: ` and the
/// parser's message when the text is not JSON; an empty transcript when it
/// has no `transcription` array; otherwise the entries with a text, a start
/// and an end, in order, and their texts joined by single spaces.
pub fn whisper_transcript(json: &str) -> (r: Result<(String, Vec<(String, String, String)>), String>)
    ensures
        transcript_view(r) == transcript_of(whisper_json(json@)),
{
    transcript_from(parse_whisper_json(json))
}

} // verus!
