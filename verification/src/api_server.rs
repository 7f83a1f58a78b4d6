//! The OpenAI-compatible HTTP front: who may call it, where requests are
//! forwarded, and how catalog entries are listed.
use vstd::prelude::*;

use crate::model_registry::{catalog, copy_strings, filter_view, get_models_with_status, with_status, ModelInfo, ModelInfoView};
use crate::text::{chars_of, decimal, first_index_of, lemma_first_index_is, same_text, string_of, u64_to_decimal};

verus! {

/// The forwarding target and the optional key callers must present.
pub struct ServerState {
    /// Base address of the speech server requests are forwarded to.
    pub cpp_host: String,
    /// The key callers must send in `x-api-key`; none means open access.
    pub api_key: Option<String>,
}

/// The loopback address with a port.
pub open spec fn loopback(port: u16) -> Seq<char> {
    "127.0.0.1:"@ + decimal(port as nat)
}

/// The address the API listens on.
pub fn listen_address(port: u16) -> (r: String)
    ensures
        r@ == loopback(port),
{
    let mut r = "127.0.0.1:".to_owned();
    let p = u64_to_decimal(port as u64);
    r.append(p.as_str());
    r
}

impl ServerState {
    /// Forwards to the speech server on `cpp_port`; an empty key means no
    /// key is required.
    pub fn new(cpp_port: u16, api_key: String) -> (s: Self)
        ensures
            s.cpp_host@ == "http://"@ + loopback(cpp_port),
            match s.api_key {
                Some(k) => api_key@.len() > 0 && k == api_key,
                None => api_key@.len() == 0,
            },
    {
        let mut host = "http://".to_owned();
        let addr = listen_address(cpp_port);
        host.append(addr.as_str());
        let key = if api_key.as_str().is_empty() {
            None
        } else {
            Some(api_key)
        };
        ServerState { cpp_host: host, api_key: key }
    }

    /// Whether a request carrying `header` (the `x-api-key` value, absent
    /// when missing or not readable as text) may proceed: always without a
    /// configured key, otherwise exactly when the header equals the key.
    pub fn authorize(&self, header: Option<&str>) -> (r: bool)
        ensures
            r == match self.api_key {
                None => true,
                Some(k) => match header {
                    Some(h) => h@ == k@,
                    None => Seq::<char>::empty() == k@,
                },
            },
    {
        match &self.api_key {
            None => true,
            Some(k) => {
                let h = match header {
                    Some(h) => h,
                    None => "",
                };
                proof {
                    reveal_strlit("");
                    assert(""@ =~= Seq::<char>::empty());
                }
                same_text(h, k.as_str())
            },
        }
    }

    /// The forwarding address for an API path such as
    /// `/v1/audio/transcriptions`.
    pub fn endpoint(&self, path: &str) -> (r: String)
        ensures
            r@ == self.cpp_host@ + path@,
    {
        let mut r = self.cpp_host.clone();
        r.append(path);
        r
    }
}

/// The owner part of a model id: the text before its first `/` (the whole
/// id when it has none).
pub open spec fn owner_of(id: Seq<char>) -> Seq<char> {
    id.take(first_index_of(id, '/'))
}

/// The owner part of a model id (`id.split('/').next()`).
pub fn model_owner(id: &str) -> (r: String)
    ensures
        r@ == owner_of(id@),
{
    let cs = chars_of(id);
    let mut i: usize = 0;
    while i < cs.len() && cs[i] != '/'
        invariant
            cs@ == id@,
            i <= cs@.len(),
            forall|k: int| 0 <= k < i ==> #[trigger] cs@[k] != '/',
        decreases cs@.len() - i,
    {
        i = i + 1;
    }
    proof {
        lemma_first_index_is(id@, '/', i as int);
    }
    assert(cs@.subrange(0, i as int) =~= id@.take(i as int));
    string_of(&cs, 0, i)
}

/// One entry of the API's model list.
pub struct ApiModelEntry {
    /// The model's display name.
    pub id: String,
    /// Always `model`.
    pub object: String,
    /// The owner part of the catalog id.
    pub owned_by: String,
    pub category: String,
    pub languages: Vec<String>,
}

/// The value of an API model entry: id, object, owner, category, languages.
pub open spec fn api_entry_view(e: ApiModelEntry) -> (Seq<char>, Seq<char>, Seq<char>, Seq<char>, Seq<Seq<char>>) {
    (e.id@, e.object@, e.owned_by@, e.category@, e.languages.deep_view())
}

/// The API entry listing a catalog model: its name as id, `model` as
/// object, the owner part of its catalog id, its category and languages.
pub open spec fn api_entry_of(m: ModelInfoView) -> (Seq<char>, Seq<char>, Seq<char>, Seq<char>, Seq<Seq<char>>) {
    (m.name, "model"@, owner_of(m.id), m.category, m.languages)
}

/// The API entry listing a catalog model.
pub fn api_model_entry(m: &ModelInfo) -> (e: ApiModelEntry)
    ensures
        api_entry_view(e) == api_entry_of(m@),
{
    ApiModelEntry {
        id: m.name.clone(),
        object: "model".to_owned(),
        owned_by: model_owner(m.id.as_str()),
        category: m.category.clone(),
        languages: copy_strings(&m.languages),
    }
}

/// The API's model list: every catalog model, in catalog order, listed as
/// in [`api_entry_of`] (`local_dirs` are the model directories on disk).
pub fn api_model_list(local_dirs: &Vec<String>) -> (r: Vec<ApiModelEntry>)
    ensures
        r@.map_values(|e: ApiModelEntry| api_entry_view(e))
            == with_status(catalog(), None, local_dirs.deep_view()).map_values(|m: ModelInfoView| api_entry_of(m)),
{
    let models = get_models_with_status(None, local_dirs);
    let ghost all = models.deep_view();
    assert(filter_view(None) == None::<Seq<char>>);
    let mut r: Vec<ApiModelEntry> = Vec::new();
    let mut i: usize = 0;
    while i < models.len()
        invariant
            i <= models@.len(),
            all == models.deep_view(),
            r@.len() == i,
            forall|k: int| 0 <= k < i ==> #[trigger] api_entry_view(r@[k]) == api_entry_of(all[k]),
        decreases models@.len() - i,
    {
        r.push(api_model_entry(&models[i]));
        i = i + 1;
    }
    assert(r@.map_values(|e: ApiModelEntry| api_entry_view(e)) =~= all.map_values(|m: ModelInfoView| api_entry_of(m)));
    r
}

} // verus!
