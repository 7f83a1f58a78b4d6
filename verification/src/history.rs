//! The records kept in the transcription history.
use vstd::prelude::*;

use crate::ids::{is_timestamp_text, local_timestamp};

verus! {

/// One history entry. The duration is held as the bit pattern of an
/// IEEE-754 double (seconds).
pub struct HistoryRecord {
    pub id: i64,
    pub source: String,
    pub file_name: String,
    pub file_duration: u64,
    pub model_name: String,
    pub language: String,
    pub full_text: String,
    pub word_count: i64,
    pub segments_json: String,
    pub created_at: String,
}

/// The history entry for a synthesized text, stamped with the current
/// local time: named after that time, of zero duration, language `auto`,
/// without segments, counting the characters of the text.
pub fn tts_history_record(text: &str, model_id: &str) -> (r: HistoryRecord)
    ensures
        r.id == 0,
        r.source@ == "tts"@,
        is_timestamp_text(r.created_at@),
        r.file_name@ == "TTS_"@ + r.created_at@,
        r.file_duration == 0,
        r.model_name@ == model_id@,
        r.language@ == "auto"@,
        r.full_text@ == text@,
        r.word_count == text@.len() as i64,
        r.segments_json@ == "[]"@,
{
    let now = local_timestamp();
    let mut name = "TTS_".to_owned();
    name.append(now.as_str());
    let count = crate::transcribe::char_count(text);
    HistoryRecord {
        id: 0,
        source: "tts".to_owned(),
        file_name: name,
        file_duration: 0,
        model_name: model_id.to_owned(),
        language: "auto".to_owned(),
        full_text: text.to_owned(),
        word_count: count as i64,
        segments_json: "[]".to_owned(),
        created_at: now,
    }
}

/// The history entry for a transcribed file, stamped with the current
/// local time and counting the characters of the transcript.
pub fn file_history_record(
    file_name: &str,
    file_duration: u64,
    model_id: &str,
    language: &str,
    full_text: &str,
    segments_json: &str,
) -> (r: HistoryRecord)
    ensures
        r.id == 0,
        r.source@ == "file"@,
        is_timestamp_text(r.created_at@),
        r.file_name@ == file_name@,
        r.file_duration == file_duration,
        r.model_name@ == model_id@,
        r.language@ == language@,
        r.full_text@ == full_text@,
        r.word_count == full_text@.len() as i64,
        r.segments_json@ == segments_json@,
{
    let now = local_timestamp();
    let count = crate::transcribe::char_count(full_text);
    HistoryRecord {
        id: 0,
        source: "file".to_owned(),
        file_name: file_name.to_owned(),
        file_duration,
        model_name: model_id.to_owned(),
        language: language.to_owned(),
        full_text: full_text.to_owned(),
        word_count: count as i64,
        segments_json: segments_json.to_owned(),
        created_at: now,
    }
}

/// The SQL `LIKE` pattern that matches texts containing `query`.
pub fn search_pattern(query: &str) -> (r: String)
    ensures
        r@ == "%"@ + query@ + "%"@,
{
    let mut r = "%".to_owned();
    r.append(query);
    r.append("%");
    r
}

} // verus!
