//! Model downloads: the one-download-at-a-time bookkeeping, which files a
//! model needs, and the decisions taken while fetching one file (skip,
//! resume, or start over).
use vstd::prelude::*;

use crate::model_registry::{catalog, find_model, lookup, ModelInfo, ModelInfoView};
use crate::text::{decimal, parse_u64, parse_u64_spec, u64_to_decimal};

verus! {

/// The download in progress.
pub struct ActiveDownload {
    pub model_id: String,
    /// Set once the user asked to stop it.
    pub cancelled: bool,
}

/// Which model is being downloaded, if any. At most one download runs at a
/// time.
pub struct DownloadState {
    pub active: Option<ActiveDownload>,
}

/// The refusal when a download is already running.
pub open spec fn busy_message() -> Seq<char> {
    "已有下载任务在进行中"@
}

/// The refusal for an id the catalog does not hold.
pub open spec fn unknown_model_message(id: Seq<char>) -> Seq<char> {
    "Unknown model: "@ + id
}

/// The refusal for an id the catalog does not hold.
pub fn unknown_model_error(id: &str) -> (e: String)
    ensures
        e@ == unknown_model_message(id@),
{
    let mut e = "Unknown model: ".to_owned();
    e.append(id);
    e
}

impl DownloadState {
    /// No download running.
    pub fn new() -> (s: Self)
        ensures
            s.active is None,
    {
        DownloadState { active: None }
    }

    /// The id of the model being downloaded.
    pub fn active_model(&self) -> (r: Option<String>)
        ensures
            match r {
                Some(id) => self.active matches Some(a) && id@ == a.model_id@,
                None => self.active is None,
            },
    {
        match &self.active {
            Some(a) => Some(a.model_id.clone()),
            None => None,
        }
    }

    /// Starts downloading `model_id`: refused while another download runs
    /// and for ids the catalog does not hold, in that order; otherwise the
    /// model becomes the active, not cancelled, download and its catalog
    /// entry is returned. A refusal changes nothing.
    pub fn begin(&mut self, model_id: &str) -> (r: Result<ModelInfo, String>)
        ensures
            match r {
                Ok(m) => {
                    &&& old(self).active is None
                    &&& lookup(catalog(), model_id@) == Some(m@)
                    &&& final(self).active matches Some(a) && a.model_id@ == model_id@ && !a.cancelled
                },
                Err(e) => {
                    &&& *final(self) == *old(self)
                    &&& if old(self).active is Some {
                        e@ == busy_message()
                    } else {
                        lookup(catalog(), model_id@) is None && e@ == unknown_model_message(model_id@)
                    }
                },
            },
    {
        if self.active.is_some() {
            return Err("已有下载任务在进行中".to_owned());
        }
        match find_model(model_id) {
            None => Err(unknown_model_error(model_id)),
            Some(m) => {
                self.active = Some(ActiveDownload { model_id: model_id.to_owned(), cancelled: false });
                Ok(m)
            },
        }
    }

    /// Asks the running download, if any, to stop; with none running this
    /// does nothing.
    pub fn cancel(&mut self)
        ensures
            match old(self).active {
                Some(a) => final(self).active matches Some(b) && b.model_id == a.model_id && b.cancelled,
                None => final(self).active is None,
            },
    {
        match &mut self.active {
            Some(a) => {
                a.cancelled = true;
            },
            None => {},
        }
    }

    /// Whether the running download was asked to stop.
    pub fn is_cancelled(&self) -> (r: bool)
        ensures
            r == (self.active matches Some(a) && a.cancelled),
    {
        match &self.active {
            Some(a) => a.cancelled,
            None => false,
        }
    }

    /// Ends the running download (finished, failed or stopped).
    pub fn finish(&mut self)
        ensures
            final(self).active is None,
    {
        self.active = None;
    }
}

/// The local directory of a catalog model, the one a delete removes.
pub fn model_dir_for(model_id: &str) -> (r: Result<String, String>)
    ensures
        match r {
            Ok(dir) => lookup(catalog(), model_id@) matches Some(m) && dir@ == m.local_dir_name,
            Err(e) => lookup(catalog(), model_id@) is None && e@ == unknown_model_message(model_id@),
        },
{
    match find_model(model_id) {
        Some(m) => Ok(m.local_dir_name),
        None => Err(unknown_model_error(model_id)),
    }
}

/// One file to fetch for a model.
pub struct DownloadItem {
    pub url: String,
    pub file_name: String,
    /// Whether a failure fails the whole download (extra configuration
    /// files are fetched on a best-effort basis).
    pub required: bool,
}

/// The address of a file in a model hub repository.
pub open spec fn hub_url(repo: Seq<char>, file: Seq<char>) -> Seq<char> {
    "https://huggingface.co/"@ + repo + "/resolve/main/"@ + file
}

/// The address of a file in a model hub repository.
pub fn hub_file_url(repo: &str, file: &str) -> (r: String)
    ensures
        r@ == hub_url(repo@, file@),
{
    let mut r = "https://huggingface.co/".to_owned();
    r.append(repo);
    r.append("/resolve/main/");
    r.append(file);
    r
}

/// The value of a download item: address, file name, and whether it is
/// required.
pub open spec fn item_view(i: DownloadItem) -> (Seq<char>, Seq<char>, bool) {
    (i.url@, i.file_name@, i.required)
}

/// Whether a model also needs its configuration files.
pub open spec fn needs_config_files(m: ModelInfoView) -> bool {
    m.download_mode == "gguf_multi"@ && m.config_repo_id.len() > 0
}

/// The files a model download fetches, in order: the model weights
/// (required), then, for multi-file models that name a configuration
/// repository, each configuration file (best effort).
pub open spec fn download_plan(m: ModelInfoView) -> Seq<(Seq<char>, Seq<char>, bool)> {
    seq![(hub_url(m.gguf_repo_id, m.gguf_filename), m.gguf_filename, true)] + if needs_config_files(m) {
        m.config_filenames.map_values(|f: Seq<char>| (hub_url(m.config_repo_id, f), f, false))
    } else {
        Seq::empty()
    }
}

/// The files to fetch for a model.
pub fn download_items(info: &ModelInfo) -> (items: Vec<DownloadItem>)
    ensures
        items@.map_values(|i: DownloadItem| item_view(i)) == download_plan(info@),
{
    let mut items: Vec<DownloadItem> = Vec::new();
    items.push(DownloadItem {
        url: hub_file_url(info.gguf_repo_id.as_str(), info.gguf_filename.as_str()),
        file_name: info.gguf_filename.clone(),
        required: true,
    });
    let ghost m = info@;
    if same_mode(info.download_mode.as_str()) && !info.config_repo_id.as_str().is_empty() {
        let mut i: usize = 0;
        while i < info.config_filenames.len()
            invariant
                m == info@,
                needs_config_files(m),
                i <= info.config_filenames@.len(),
                items@.len() == i + 1,
                item_view(items@[0]) == (hub_url(m.gguf_repo_id, m.gguf_filename), m.gguf_filename, true),
                forall|k: int| 0 <= k < i ==> #[trigger] item_view(items@[k + 1]) == (
                    hub_url(m.config_repo_id, m.config_filenames[k]),
                    m.config_filenames[k],
                    false,
                ),
            decreases info.config_filenames@.len() - i,
        {
            let f = &info.config_filenames[i];
            assert(m.config_filenames[i as int] == f@);
            items.push(DownloadItem {
                url: hub_file_url(info.config_repo_id.as_str(), f.as_str()),
                file_name: f.clone(),
                required: false,
            });
            i = i + 1;
        }
        assert(items@.map_values(|i: DownloadItem| item_view(i)) =~= download_plan(m)) by {
            let plan = download_plan(m);
            assert forall|k: int| 0 <= k < plan.len() implies #[trigger] plan[k] == item_view(items@[k]) by {
                if k > 0 {
                    assert(item_view(items@[(k - 1) + 1]) == plan[k]);
                }
            }
        }
    } else {
        assert(items@.map_values(|i: DownloadItem| item_view(i)) =~= download_plan(m));
    }
    items
}

/// Whether a download mode names a multi-file GGUF model.
fn same_mode(mode: &str) -> (r: bool)
    ensures
        r == (mode@ == "gguf_multi"@),
{
    crate::text::same_text(mode, "gguf_multi")
}

/// The size a server announced, zero when it announced none or an
/// unreadable one.
pub open spec fn announced_size(header: Option<Seq<char>>) -> u64 {
    match header {
        Some(h) => match parse_u64_spec(h) {
            Some(n) => n,
            None => 0,
        },
        None => 0,
    }
}

/// Reads the announced size from a `content-length` header value.
pub fn total_size(header: Option<&str>) -> (r: u64)
    ensures
        r == announced_size(match header {
            Some(h) => Some(h@),
            None => None,
        }),
{
    match header {
        Some(h) => match parse_u64(h) {
            Some(n) => n,
            None => 0,
        },
        None => 0,
    }
}

/// Whether a file already on disk is complete: the server announced a size
/// and the file holds at least that many bytes.
pub fn already_complete(current_size: u64, total_size: u64) -> (r: bool)
    ensures
        r == (current_size >= total_size && total_size > 0),
{
    current_size >= total_size && total_size > 0
}

/// The `Range` header asking for the rest of a partly fetched file, when
/// part of it is already on disk.
pub fn range_header(current_size: u64) -> (r: Option<String>)
    ensures
        match r {
            Some(h) => current_size > 0 && h@ == "bytes="@ + decimal(current_size as nat) + "-"@,
            None => current_size == 0,
        },
{
    if current_size > 0 {
        let mut h = "bytes=".to_owned();
        let n = u64_to_decimal(current_size);
        h.append(n.as_str());
        h.append("-");
        Some(h)
    } else {
        None
    }
}

/// Whether an HTTP status reports success (2xx).
pub fn status_is_success(status: u16) -> (r: bool)
    ensures
        r == (200 <= status <= 299),
{
    200 <= status && status <= 299
}

/// How to write the body of a successful response: appended to the partial
/// file when the server answered with partial content (206) for a resumed
/// request, otherwise written from the start. Returns whether to append and
/// the byte count the progress starts from.
pub fn resume_plan(status: u16, current_size: u64) -> (r: (bool, u64))
    ensures
        r.0 == (status == 206 && current_size > 0),
        r.1 == if r.0 { current_size } else { 0 },
{
    let append = status == 206 && current_size > 0;
    (append, if append { current_size } else { 0 })
}

} // verus!
