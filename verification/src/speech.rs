//! Speech output and the voice conversation: the script that drives the
//! system speech synthesizer, the request to the language model, and the
//! steps of one conversation turn with the events each step reports.
use vstd::prelude::*;

use crate::text::{blank, chars_of, is_blank, push_char, trim_end_char, trim_end_matches_char};

verus! {

/// `s` with every `from` replaced by the text `to`.
pub open spec fn replace_char(s: Seq<char>, from: char, to: Seq<char>) -> Seq<char>
    decreases s.len(),
{
    if s.len() == 0 {
        Seq::empty()
    } else {
        replace_char(s.drop_last(), from, to) + if s.last() == from {
            to
        } else {
            seq![s.last()]
        }
    }
}

/// Replaces every `from` in `s` by `to` (`str::replace` with a character
/// pattern).
pub fn replace_char_with(s: &str, from: char, to: &str) -> (r: String)
    ensures
        r@ == replace_char(s@, from, to@),
{
    let cs = chars_of(s);
    let mut r = String::new();
    let mut i: usize = 0;
    while i < cs.len()
        invariant
            cs@ == s@,
            i <= cs@.len(),
            r@ == replace_char(cs@.take(i as int), from, to@),
        decreases cs@.len() - i,
    {
        assert(cs@.take(i + 1).drop_last() =~= cs@.take(i as int));
        if cs[i] == from {
            r.append(to);
        } else {
            push_char(&mut r, cs[i]);
            assert(r@ =~= replace_char(cs@.take(i + 1), from, to@));
        }
        i = i + 1;
    }
    assert(cs@.take(cs@.len() as int) =~= cs@);
    r
}

/// How one character of the spoken text is written inside the script's
/// single-quoted literal: a double quote is written as two single quotes
/// (read back as one single quote); anything else, a single quote too,
/// stands for itself.
pub open spec fn quote_escaped_char(c: char) -> Seq<char> {
    if c == '"' {
        seq!['\'', '\'']
    } else {
        seq![c]
    }
}

/// The spoken text written for a single-quoted PowerShell literal.
pub open spec fn quote_escaped(s: Seq<char>) -> Seq<char>
    decreases s.len(),
{
    if s.len() == 0 {
        Seq::empty()
    } else {
        quote_escaped(s.drop_last()) + quote_escaped_char(s.last())
    }
}

/// Writes the spoken text for a single-quoted PowerShell literal.
pub fn quote_escape(s: &str) -> (r: String)
    ensures
        r@ == quote_escaped(s@),
{
    let cs = chars_of(s);
    let mut r = String::new();
    let mut i: usize = 0;
    while i < cs.len()
        invariant
            cs@ == s@,
            i <= cs@.len(),
            r@ == quote_escaped(cs@.take(i as int)),
        decreases cs@.len() - i,
    {
        assert(cs@.take(i + 1).drop_last() =~= cs@.take(i as int));
        let c = cs[i];
        if c == '"' {
            push_char(&mut r, '\'');
            push_char(&mut r, '\'');
        } else {
            push_char(&mut r, c);
        }
        assert(r@ =~= quote_escaped(cs@.take(i + 1)));
        i = i + 1;
    }
    assert(cs@.take(cs@.len() as int) =~= cs@);
    r
}

/// The PowerShell script that has the system speech synthesizer read
/// `text` aloud into `swt2_tts.wav` in the folder `temp_dir`: backslashes
/// of the folder are doubled, and each double quote of the text becomes two
/// single quotes.
pub open spec fn sapi_script_spec(temp_dir: Seq<char>, text: Seq<char>) -> Seq<char> {
    "Add-Type -AssemblyName System.Speech; $s = New-Object System.Speech.Synthesis.SpeechSynthesizer; $s.SetOutputToWaveFile('"@
        + replace_char(temp_dir, '\\', "\\\\"@)
        + "\\swt2_tts.wav'); $s.Speak('"@
        + quote_escaped(text)
        + "')"@
}

/// Builds the speech synthesis script.
pub fn sapi_script(temp_dir: &str, text: &str) -> (r: String)
    ensures
        r@ == sapi_script_spec(temp_dir@, text@),
{
    let mut r = "Add-Type -AssemblyName System.Speech; $s = New-Object System.Speech.Synthesis.SpeechSynthesizer; $s.SetOutputToWaveFile('".to_owned();
    let dir = replace_char_with(temp_dir, '\\', "\\\\");
    r.append(dir.as_str());
    r.append("\\swt2_tts.wav'); $s.Speak('");
    let t = quote_escape(text);
    r.append(t.as_str());
    r.append("')");
    r
}

/// What a single-quoted PowerShell literal's body reads as: `''` is one
/// single quote, any other character stands for itself; `None` when a lone
/// single quote would end the literal early.
pub open spec fn single_quoted_body(s: Seq<char>) -> Option<Seq<char>>
    decreases s.len(),
{
    if s.len() == 0 {
        Some(Seq::empty())
    } else if s[0] == '\'' {
        if s.len() >= 2 && s[1] == '\'' {
            match single_quoted_body(s.subrange(2, s.len() as int)) {
                Some(r) => Some(seq!['\''] + r),
                None => None,
            }
        } else {
            None
        }
    } else {
        match single_quoted_body(s.subrange(1, s.len() as int)) {
            Some(r) => Some(seq![s[0]] + r),
            None => None,
        }
    }
}

/// The text as the synthesizer speaks it: double quotes read as single
/// quotes.
pub open spec fn spoken_text(s: Seq<char>) -> Seq<char>
    decreases s.len(),
{
    if s.len() == 0 {
        Seq::empty()
    } else {
        seq![if s[0] == '"' { '\'' } else { s[0] }] + spoken_text(s.subrange(1, s.len() as int))
    }
}

proof fn lemma_quote_escaped_front(s: Seq<char>)
    requires
        s.len() > 0,
    ensures
        quote_escaped(s) == quote_escaped_char(s[0]) + quote_escaped(s.subrange(1, s.len() as int)),
    decreases s.len(),
{
    if s.len() == 1 {
        assert(s.drop_last() =~= Seq::<char>::empty());
        assert(s.subrange(1, 1) =~= Seq::<char>::empty());
        assert(quote_escaped(s.drop_last()) =~= Seq::<char>::empty());
        assert(s.last() == s[0]);
        assert(quote_escaped(s) =~= quote_escaped_char(s[0]));
    } else {
        let d = s.drop_last();
        let t = s.subrange(1, s.len() as int);
        lemma_quote_escaped_front(d);
        assert(d.subrange(1, d.len() as int) =~= t.drop_last());
        assert(t.last() == s.last());
        assert(quote_escaped(s) =~= quote_escaped_char(s[0]) + quote_escaped(t));
    }
}

/// A text without single quotes, once escaped, is one well-formed literal
/// body that reads back as the spoken text: the literal ends exactly where
/// the script closes it. (A single quote of the text is written as it is,
/// and ends the literal early.)
pub proof fn lemma_escaped_text_reads_back(text: Seq<char>)
    requires
        !text.contains('\''),
    ensures
        single_quoted_body(quote_escaped(text)) == Some(spoken_text(text)),
    decreases text.len(),
{
    if text.len() == 0 {
        assert(quote_escaped(text) =~= Seq::<char>::empty());
    } else {
        let rest = text.subrange(1, text.len() as int);
        let e = quote_escaped(text);
        assert(text[0] != '\'');
        assert forall|k: int| 0 <= k < rest.len() implies rest[k] != '\'' by {
            assert(rest[k] == text[k + 1]);
        }
        lemma_quote_escaped_front(text);
        lemma_escaped_text_reads_back(rest);
        if text[0] == '"' {
            assert(e[0] == '\'' && e[1] == '\'');
            assert(e.subrange(2, e.len() as int) =~= quote_escaped(rest));
        } else {
            assert(e[0] == text[0]);
            assert(e.subrange(1, e.len() as int) =~= quote_escaped(rest));
        }
    }
}

/// The escaped text holds no double quote.
proof fn lemma_quote_escaped_no_double_quote(s: Seq<char>)
    ensures
        !quote_escaped(s).contains('"'),
    decreases s.len(),
{
    if s.len() > 0 {
        lemma_quote_escaped_no_double_quote(s.drop_last());
        let a = quote_escaped(s.drop_last());
        let b = quote_escaped_char(s.last());
        assert forall|k: int| 0 <= k < (a + b).len() implies (a + b)[k] != '"' by {
            if k < a.len() {
                assert((a + b)[k] == a[k]);
            } else {
                assert((a + b)[k] == b[k - a.len()]);
            }
        }
    }
}

/// The replacement holds `from` only where the kept characters or `to` do.
proof fn lemma_replace_char_avoids(s: Seq<char>, from: char, to: Seq<char>, c: char)
    requires
        !to.contains(c),
        c == from || !s.contains(c),
    ensures
        !replace_char(s, from, to).contains(c),
    decreases s.len(),
{
    if s.len() > 0 {
        let rest = s.drop_last();
        if c != from {
            assert forall|k: int| 0 <= k < rest.len() implies rest[k] != c by {
                assert(rest[k] == s[k]);
            }
        }
        lemma_replace_char_avoids(rest, from, to, c);
        let tail = if s.last() == from { to } else { seq![s.last()] };
        assert(!tail.contains(c)) by {
            if s.last() != from && c != from {
                assert(s[s.len() - 1] == s.last());
            }
        }
        let whole = replace_char(rest, from, to) + tail;
        assert forall|k: int| 0 <= k < whole.len() implies whole[k] != c by {
            if k < replace_char(rest, from, to).len() {
                assert(whole[k] == replace_char(rest, from, to)[k]);
            } else {
                assert(whole[k] == tail[k - replace_char(rest, from, to).len()]);
            }
        }
    }
}

/// The speech script never holds a double quote when the folder holds none.
pub proof fn lemma_sapi_script_has_no_double_quote(temp_dir: Seq<char>, text: Seq<char>)
    requires
        !temp_dir.contains('"'),
    ensures
        !sapi_script_spec(temp_dir, text).contains('"'),
{
    reveal_strlit("Add-Type -AssemblyName System.Speech; $s = New-Object System.Speech.Synthesis.SpeechSynthesizer; $s.SetOutputToWaveFile('");
    reveal_strlit("\\swt2_tts.wav'); $s.Speak('");
    reveal_strlit("')");
    reveal_strlit("\\\\");
    let a = "Add-Type -AssemblyName System.Speech; $s = New-Object System.Speech.Synthesis.SpeechSynthesizer; $s.SetOutputToWaveFile('"@;
    let b = replace_char(temp_dir, '\\', "\\\\"@);
    let c = "\\swt2_tts.wav'); $s.Speak('"@;
    let d = quote_escaped(text);
    let e = "')"@;
    assert(!"\\\\"@.contains('"'));
    lemma_replace_char_avoids(temp_dir, '\\', "\\\\"@, '"');
    lemma_quote_escaped_no_double_quote(text);
    assert(!a.contains('"'));
    assert(!c.contains('"'));
    assert(!e.contains('"'));
    let whole = a + b + c + d + e;
    assert forall|k: int| 0 <= k < whole.len() implies whole[k] != '"' by {
        let la = a.len() as int;
        let lb = b.len() as int;
        let lc = c.len() as int;
        let ld = d.len() as int;
        if k < la {
            assert(whole[k] == a[k]);
        } else if k < la + lb {
            assert(whole[k] == b[k - la]);
        } else if k < la + lb + lc {
            assert(whole[k] == c[k - la - lb]);
        } else if k < la + lb + lc + ld {
            assert(whole[k] == d[k - la - lb - lc]);
        } else {
            assert(whole[k] == e[k - la - lb - lc - ld]);
        }
    }
}

/// Refuses to synthesize a blank text.
pub fn check_synthesis_text(text: &str) -> (r: Result<(), String>)
    ensures
        match r {
            Ok(()) => !blank(text@),
            Err(e) => blank(text@) && e@ == "Text is empty"@,
        },
{
    if is_blank(text) {
        Err("Text is empty".to_owned())
    } else {
        Ok(())
    }
}

/// The messages sent to the language model, in order: the system prompt,
/// the earlier conversation, then what the user just said.
pub fn chat_messages<M>(system: M, history: Vec<M>, user: M) -> (r: Vec<M>)
    ensures
        r@ == seq![system] + history@ + seq![user],
{
    let mut r: Vec<M> = Vec::new();
    r.push(system);
    let mut rest = history;
    r.append(&mut rest);
    r.push(user);
    assert(r@ =~= seq![system] + history@ + seq![user]);
    r
}

/// The chat completions address of a language model API: the base address
/// without its trailing slashes, then `/chat/completions`.
pub fn chat_completions_url(api_url: &str) -> (r: String)
    ensures
        r@ == trim_end_char(api_url@, '/') + "/chat/completions"@,
{
    let mut r = trim_end_matches_char(api_url, '/');
    r.append("/chat/completions");
    r
}

/// The `Authorization` header for an API key; none for an empty key.
pub fn bearer_header(api_key: &str) -> (r: Option<String>)
    ensures
        match r {
            Some(h) => api_key@.len() > 0 && h@ == "Bearer "@ + api_key@,
            None => api_key@.len() == 0,
        },
{
    if api_key.is_empty() {
        None
    } else {
        let mut h = "Bearer ".to_owned();
        h.append(api_key);
        Some(h)
    }
}

/// The assistant's reply: the model's message text, or an apology when the
/// response held none.
pub fn assistant_reply(content: Option<String>) -> (r: String)
    ensures
        r@ == match content {
            Some(c) => c@,
            None => "Sorry, I cannot respond."@,
        },
{
    match content {
        Some(c) => c,
        None => "Sorry, I cannot respond.".to_owned(),
    }
}

/// The value of an optional text.
pub open spec fn opt_view(o: Option<String>) -> Option<Seq<char>> {
    match o {
        Some(s) => Some(s@),
        None => None,
    }
}

/// What the JSON parser makes of a language model's response body: the
/// parser's error message, or the string at `choices[0].message.content`
/// (none when that is missing or not a string).
pub uninterp spec fn chat_reply_json(body: Seq<char>) -> Result<Option<Seq<char>>, Seq<char>>;

/// Parses a language model's response body with `serde_json::from_str` into
/// a `serde_json::Value` and reads `choices[0].message.content` with
/// `as_str`. The result is named [`chat_reply_json`].
#[verifier::external_body]
fn parse_chat_reply(body: &str) -> (r: Result<Option<String>, String>)
    ensures
        chat_reply_json(body@) == match r {
            Ok(c) => Ok(opt_view(c)),
            Err(e) => Err(e@),
        },
{
    let v: serde_json::Value = serde_json::from_str(body).map_err(|e| e.to_string())?;
    Ok(v["choices"][0]["message"]["content"].as_str().map(|t| t.to_string()))
}

/// The refusal for a response body that is not JSON.
pub open spec fn undecodable_reply_message() -> Seq<char> {
    "error decoding response body"@
}

/// The message content of a parsed language model response: the content
/// when the body was JSON (absent when it held none), the decoding refusal
/// otherwise.
pub fn reply_content_from(parsed: Result<Option<String>, String>) -> (r: Result<Option<String>, String>)
    ensures
        match parsed {
            Ok(c) => r == Ok::<Option<String>, String>(c),
            Err(_) => r matches Err(e) && e@ == undecodable_reply_message(),
        },
{
    match parsed {
        Ok(c) => Ok(c),
        Err(_) => Err("error decoding response body".to_owned()),
    }
}

/// The message content of a language model's response body: the string at
/// `choices[0].message.content` (absent when missing or not a string), or
/// the decoding refusal when the body is not JSON.
pub fn reply_content(body: &str) -> (r: Result<Option<String>, String>)
    ensures
        match chat_reply_json(body@) {
            Ok(c) => r matches Ok(x) && opt_view(x) == c,
            Err(_) => r matches Err(e) && e@ == undecodable_reply_message(),
        },
{
    reply_content_from(parse_chat_reply(body))
}

/// One event reported to the user interface during a conversation turn.
pub struct ConversationEvent {
    pub event_type: String,
    pub text: String,
    pub audio_path: Option<String>,
}

/// The value of an event: its type, its text, and its audio file.
pub open spec fn event_view(e: ConversationEvent) -> (Seq<char>, Seq<char>, Option<Seq<char>>) {
    (e.event_type@, e.text@, match e.audio_path {
        Some(p) => Some(p@),
        None => None,
    })
}

/// The values of a list of events.
pub open spec fn events_view(es: Seq<ConversationEvent>) -> Seq<(Seq<char>, Seq<char>, Option<Seq<char>>)> {
    es.map_values(|e: ConversationEvent| event_view(e))
}

impl ConversationEvent {
    /// An event without audio.
    pub fn new(event_type: &str, text: &str) -> (e: Self)
        ensures
            event_view(e) == (event_type@, text@, None::<Seq<char>>),
    {
        ConversationEvent { event_type: event_type.to_owned(), text: text.to_owned(), audio_path: None }
    }
}

/// Where a conversation turn stands.
pub enum TurnStage {
    /// Waiting for the recognizer's transcript.
    Recognizing,
    /// Waiting for the language model's reply.
    Thinking,
    /// Waiting for the synthesized reply audio.
    Synthesizing,
    /// Nothing more to do.
    Finished,
}

/// One turn of a voice conversation: recognize what the user said, ask the
/// language model, and speak the reply. The application performs each step
/// and hands the outcome back; the turn says what to report and what comes
/// next.
pub struct ConversationTurn {
    pub stage: TurnStage,
    pub user_text: String,
    pub reply: String,
}

impl ConversationTurn {
    /// A new turn, reporting that recognition started.
    pub fn start() -> (r: (Self, Vec<ConversationEvent>))
        ensures
            r.0.stage is Recognizing,
            events_view(r.1@) == seq![("status"@, "recognizing..."@, None::<Seq<char>>)],
    {
        let mut es: Vec<ConversationEvent> = Vec::new();
        es.push(ConversationEvent::new("status", "recognizing..."));
        assert(events_view(es@) =~= seq![("status"@, "recognizing..."@, None::<Seq<char>>)]);
        (ConversationTurn { stage: TurnStage::Recognizing, user_text: String::new(), reply: String::new() }, es)
    }

    /// The recognizer's transcript arrived. A blank transcript ends the turn
    /// with an error event; otherwise the transcript is reported and the
    /// language model is consulted next.
    pub fn on_transcript(&mut self, text: &str) -> (es: Vec<ConversationEvent>)
        requires
            old(self).stage is Recognizing,
        ensures
            if blank(text@) {
                &&& final(self).stage is Finished
                &&& events_view(es@) == seq![("error"@, "no speech detected"@, None::<Seq<char>>)]
            } else {
                &&& final(self).stage is Thinking
                &&& final(self).user_text@ == text@
                &&& events_view(es@) == seq![
                    ("user_text"@, text@, None::<Seq<char>>),
                    ("status"@, "thinking..."@, None::<Seq<char>>),
                ]
            },
    {
        let mut es: Vec<ConversationEvent> = Vec::new();
        if is_blank(text) {
            self.stage = TurnStage::Finished;
            es.push(ConversationEvent::new("error", "no speech detected"));
            assert(events_view(es@) =~= seq![("error"@, "no speech detected"@, None::<Seq<char>>)]);
        } else {
            self.stage = TurnStage::Thinking;
            self.user_text = text.to_owned();
            es.push(ConversationEvent::new("user_text", text));
            es.push(ConversationEvent::new("status", "thinking..."));
            assert(events_view(es@) =~= seq![
                ("user_text"@, text@, None::<Seq<char>>),
                ("status"@, "thinking..."@, None::<Seq<char>>),
            ]);
        }
        es
    }

    /// The language model answered (`content` is its message text, absent
    /// when the response held none). The reply is reported and spoken next.
    pub fn on_reply(&mut self, content: Option<String>) -> (es: Vec<ConversationEvent>)
        requires
            old(self).stage is Thinking,
        ensures
            final(self).stage is Synthesizing,
            final(self).user_text == old(self).user_text,
            final(self).reply@ == match content {
                Some(c) => c@,
                None => "Sorry, I cannot respond."@,
            },
            events_view(es@) == seq![
                ("assistant_text"@, final(self).reply@, None::<Seq<char>>),
                ("status"@, "synthesizing..."@, None::<Seq<char>>),
            ],
    {
        let reply = assistant_reply(content);
        let mut es: Vec<ConversationEvent> = Vec::new();
        es.push(ConversationEvent::new("assistant_text", reply.as_str()));
        es.push(ConversationEvent::new("status", "synthesizing..."));
        self.reply = reply;
        self.stage = TurnStage::Synthesizing;
        assert(events_view(es@) =~= seq![
            ("assistant_text"@, self.reply@, None::<Seq<char>>),
            ("status"@, "synthesizing..."@, None::<Seq<char>>),
        ]);
        es
    }

    /// Speech synthesis ended, with the reply audio file when one was made.
    /// The audio, if any, is reported, then the end of the turn.
    pub fn on_audio(&mut self, audio_path: Option<String>) -> (es: Vec<ConversationEvent>)
        requires
            old(self).stage is Synthesizing,
        ensures
            final(self).stage is Finished,
            events_view(es@) == match audio_path {
                Some(p) => seq![
                    ("assistant_audio"@, ""@, Some(p@)),
                    ("turn_done"@, ""@, None::<Seq<char>>),
                ],
                None => seq![("turn_done"@, ""@, None::<Seq<char>>)],
            },
    {
        let mut es: Vec<ConversationEvent> = Vec::new();
        let ghost path = audio_path;
        match audio_path {
            Some(p) => {
                es.push(ConversationEvent { event_type: "assistant_audio".to_owned(), text: "".to_owned(), audio_path: Some(p) });
            },
            None => {},
        }
        es.push(ConversationEvent::new("turn_done", ""));
        self.stage = TurnStage::Finished;
        assert(events_view(es@) =~= match path {
            Some(p) => seq![
                ("assistant_audio"@, ""@, Some(p@)),
                ("turn_done"@, ""@, None::<Seq<char>>),
            ],
            None => seq![("turn_done"@, ""@, None::<Seq<char>>)],
        });
        es
    }
}

/// The voices offered for a speech model: the synthesizer's default voice.
pub fn get_voices(model_id: &str) -> (r: Result<Vec<String>, String>)
    ensures
        r matches Ok(v) && v.deep_view() == seq!["default"@],
{
    let mut v: Vec<String> = Vec::new();
    v.push("default".to_owned());
    assert(v.deep_view() =~= seq!["default"@]);
    Ok(v)
}

} // verus!
