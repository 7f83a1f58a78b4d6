//! The catalog of speech models the application knows about.
//!
//! GGUF models can be downloaded from a model hub; safetensors models need a
//! locally built server. Entries are listed in a fixed order and keyed by
//! their `id`.
use vstd::prelude::*;

use crate::text::{ends_with, ends_with_text, same_text, split_words, words};

mod catalog_data;
pub mod catalog_laws;

use catalog_data::{asr_catalog, asr_models, other_catalog, other_models, tts_catalog, tts_models};

verus! {

/// One catalog entry.
pub struct ModelInfo {
    pub id: String,
    pub name: String,
    pub description: String,
    pub detail_description: String,
    pub languages: Vec<String>,
    pub estimated_size: String,
    pub gpu_requirement: String,
    pub cpu_suitable: String,
    pub category: String,
    pub model_family: String,
    pub local_dir_name: String,
    pub gguf_repo_id: String,
    pub gguf_filename: String,
    pub downloaded: bool,
    pub download_mode: String,
    pub config_repo_id: String,
    pub config_filenames: Vec<String>,
}

/// The mathematical value of a [`ModelInfo`]: every text as its characters.
#[verifier::ext_equal]
pub struct ModelInfoView {
    pub id: Seq<char>,
    pub name: Seq<char>,
    pub description: Seq<char>,
    pub detail_description: Seq<char>,
    pub languages: Seq<Seq<char>>,
    pub estimated_size: Seq<char>,
    pub gpu_requirement: Seq<char>,
    pub cpu_suitable: Seq<char>,
    pub category: Seq<char>,
    pub model_family: Seq<char>,
    pub local_dir_name: Seq<char>,
    pub gguf_repo_id: Seq<char>,
    pub gguf_filename: Seq<char>,
    pub downloaded: bool,
    pub download_mode: Seq<char>,
    pub config_repo_id: Seq<char>,
    pub config_filenames: Seq<Seq<char>>,
}

impl View for ModelInfo {
    type V = ModelInfoView;

    open spec fn view(&self) -> ModelInfoView {
        ModelInfoView {
            id: self.id@,
            name: self.name@,
            description: self.description@,
            detail_description: self.detail_description@,
            languages: self.languages.deep_view(),
            estimated_size: self.estimated_size@,
            gpu_requirement: self.gpu_requirement@,
            cpu_suitable: self.cpu_suitable@,
            category: self.category@,
            model_family: self.model_family@,
            local_dir_name: self.local_dir_name@,
            gguf_repo_id: self.gguf_repo_id@,
            gguf_filename: self.gguf_filename@,
            downloaded: self.downloaded,
            download_mode: self.download_mode@,
            config_repo_id: self.config_repo_id@,
            config_filenames: self.config_filenames.deep_view(),
        }
    }
}

impl DeepView for ModelInfo {
    type V = ModelInfoView;

    open spec fn deep_view(&self) -> ModelInfoView {
        self@
    }
}

/// The texts one catalog entry is written down with. Language codes and
/// configuration file names are space-separated lists.
pub struct Seed {
    pub id: &'static str,
    pub name: &'static str,
    pub description: &'static str,
    pub detail: &'static str,
    pub languages: &'static str,
    pub size: &'static str,
    pub gpu: &'static str,
    pub cpu: &'static str,
    pub family: &'static str,
    pub dir: &'static str,
    pub repo: &'static str,
    pub file: &'static str,
    pub mode: &'static str,
    pub config_repo: &'static str,
    pub config_files: &'static str,
}

/// The catalog entry a seed describes, in the given category.
pub open spec fn seed_entry(category: Seq<char>, s: Seed) -> ModelInfoView {
    entry(
        category,
        s.id@,
        s.name@,
        s.description@,
        s.detail@,
        words(s.languages@),
        s.size@,
        s.gpu@,
        s.cpu@,
        s.family@,
        s.dir@,
        s.repo@,
        s.file@,
        s.mode@,
        s.config_repo@,
        words(s.config_files@),
    )
}

/// A catalog entry that is not yet marked as downloaded.
pub open spec fn entry(
    category: Seq<char>,
    id: Seq<char>,
    name: Seq<char>,
    description: Seq<char>,
    detail: Seq<char>,
    languages: Seq<Seq<char>>,
    size: Seq<char>,
    gpu: Seq<char>,
    cpu: Seq<char>,
    family: Seq<char>,
    dir: Seq<char>,
    repo: Seq<char>,
    file: Seq<char>,
    mode: Seq<char>,
    config_repo: Seq<char>,
    config_files: Seq<Seq<char>>,
) -> ModelInfoView {
    ModelInfoView {
        id,
        name,
        description,
        detail_description: detail,
        languages,
        estimated_size: size,
        gpu_requirement: gpu,
        cpu_suitable: cpu,
        category,
        model_family: family,
        local_dir_name: dir,
        gguf_repo_id: repo,
        gguf_filename: file,
        downloaded: false,
        download_mode: mode,
        config_repo_id: config_repo,
        config_filenames: config_files,
    }
}

/// A copy of a list of strings.
pub(crate) fn copy_strings(items: &Vec<String>) -> (out: Vec<String>)
    ensures
        out.deep_view() == items.deep_view(),
{
    let mut out: Vec<String> = Vec::new();
    let mut i: usize = 0;
    while i < items.len()
        invariant
            i <= items@.len(),
            out@.len() == i,
            forall|k: int| 0 <= k < i ==> #[trigger] out@[k]@ == items@[k]@,
        decreases items@.len() - i,
    {
        out.push(items[i].clone());
        i = i + 1;
    }
    assert(out.deep_view() =~= items.deep_view());
    out
}

impl ModelInfo {
    /// A field-by-field copy.
    pub fn copy(&self) -> (out: ModelInfo)
        ensures
            out@ == self@,
    {
        ModelInfo {
            id: self.id.clone(),
            name: self.name.clone(),
            description: self.description.clone(),
            detail_description: self.detail_description.clone(),
            languages: copy_strings(&self.languages),
            estimated_size: self.estimated_size.clone(),
            gpu_requirement: self.gpu_requirement.clone(),
            cpu_suitable: self.cpu_suitable.clone(),
            category: self.category.clone(),
            model_family: self.model_family.clone(),
            local_dir_name: self.local_dir_name.clone(),
            gguf_repo_id: self.gguf_repo_id.clone(),
            gguf_filename: self.gguf_filename.clone(),
            downloaded: self.downloaded,
            download_mode: self.download_mode.clone(),
            config_repo_id: self.config_repo_id.clone(),
            config_filenames: copy_strings(&self.config_filenames),
        }
    }
}

/// The entry a seed describes, in the given category.
fn from_seed(category: &str, s: Seed) -> (m: ModelInfo)
    ensures
        m@ == seed_entry(category@, s),
{
    ModelInfo {
        id: s.id.to_owned(),
        name: s.name.to_owned(),
        description: s.description.to_owned(),
        detail_description: s.detail.to_owned(),
        languages: split_words(s.languages),
        estimated_size: s.size.to_owned(),
        gpu_requirement: s.gpu.to_owned(),
        cpu_suitable: s.cpu.to_owned(),
        category: category.to_owned(),
        model_family: s.family.to_owned(),
        local_dir_name: s.dir.to_owned(),
        gguf_repo_id: s.repo.to_owned(),
        gguf_filename: s.file.to_owned(),
        downloaded: false,
        download_mode: s.mode.to_owned(),
        config_repo_id: s.config_repo.to_owned(),
        config_filenames: split_words(s.config_files),
    }
}

/// A speech recognition entry.
fn m_asr(s: Seed) -> (m: ModelInfo)
    ensures
        m@ == seed_entry("asr_cpp"@, s),
{
    from_seed("asr_cpp", s)
}

/// A speech synthesis entry.
fn m_tts(s: Seed) -> (m: ModelInfo)
    ensures
        m@ == seed_entry("tts"@, s),
{
    let mut m = m_asr(s);
    m.category = "tts".to_owned();
    m
}

/// An entry of any other category.
fn m_other(category: &str, s: Seed) -> (m: ModelInfo)
    ensures
        m@ == seed_entry(category@, s),
{
    let mut m = m_asr(s);
    m.category = category.to_owned();
    m
}

/// The whole catalog, in catalog order.
pub open spec fn catalog() -> Seq<ModelInfoView> {
    asr_catalog() + tts_catalog() + other_catalog()
}

/// Builds the whole catalog.
fn build_catalog() -> (v: Vec<ModelInfo>)
    ensures
        v.deep_view() == catalog(),
{
    let mut v = asr_models();
    let mut t = tts_models();
    v.append(&mut t);
    let mut o = other_models();
    v.append(&mut o);
    assert(v.deep_view() =~= catalog());
    v
}

/// The model catalog, one entry per model id, in catalog order.
pub fn all_models() -> (v: Vec<ModelInfo>)
    ensures
        v.deep_view() == catalog(),
{
    build_catalog()
}

/// The entry registered under `id`; when several entries share an id the
/// one registered last wins, as a keyed table built by successive inserts
/// would have it.
pub open spec fn lookup(entries: Seq<ModelInfoView>, id: Seq<char>) -> Option<ModelInfoView>
    decreases entries.len(),
{
    if entries.len() == 0 {
        None
    } else if entries.last().id == id {
        Some(entries.last())
    } else {
        lookup(entries.drop_last(), id)
    }
}

/// Looks a model up by id in the catalog.
pub fn find_model(id: &str) -> (r: Option<ModelInfo>)
    ensures
        match r {
            Some(m) => lookup(catalog(), id@) == Some(m@),
            None => lookup(catalog(), id@) is None,
        },
{
    let models = build_catalog();
    let ghost all = models.deep_view();
    let mut found: Option<usize> = None;
    let mut i: usize = 0;
    while i < models.len()
        invariant
            i <= models@.len(),
            all == models.deep_view(),
            all == catalog(),
            match found {
                Some(k) => k < i && lookup(all.take(i as int), id@) == Some(all[k as int]),
                None => lookup(all.take(i as int), id@) is None,
            },
        decreases models@.len() - i,
    {
        assert(all.take(i + 1).drop_last() =~= all.take(i as int));
        assert(all.take(i + 1).last() == all[i as int]);
        if same_text(models[i].id.as_str(), id) {
            found = Some(i);
        }
        i = i + 1;
    }
    assert(all.take(models@.len() as int) =~= all);
    match found {
        Some(k) => Some(models[k].copy()),
        None => None,
    }
}

/// Whether `dir` is one of the directory names in `local`.
fn dir_listed(local: &Vec<String>, dir: &str) -> (r: bool)
    ensures
        r == local.deep_view().contains(dir@),
{
    let mut i: usize = 0;
    while i < local.len()
        invariant
            i <= local@.len(),
            forall|k: int| 0 <= k < i ==> #[trigger] local@[k]@ != dir@,
        decreases local@.len() - i,
    {
        if same_text(local[i].as_str(), dir) {
            assert(local.deep_view()[i as int] == dir@);
            return true;
        }
        i = i + 1;
    }
    assert forall|k: int| 0 <= k < local.deep_view().len() implies local.deep_view()[k] != dir@ by {
        assert(local.deep_view()[k] == local@[k]@);
    }
    false
}

/// Whether an entry is listed under a category filter.
pub open spec fn listed(m: ModelInfoView, filter: Option<Seq<char>>) -> bool {
    match filter {
        Some(c) => m.category == c,
        None => true,
    }
}

/// An entry with its downloaded mark set to `flag`.
pub open spec fn marked(m: ModelInfoView, flag: bool) -> ModelInfoView {
    ModelInfoView {
        id: m.id,
        name: m.name,
        description: m.description,
        detail_description: m.detail_description,
        languages: m.languages,
        estimated_size: m.estimated_size,
        gpu_requirement: m.gpu_requirement,
        cpu_suitable: m.cpu_suitable,
        category: m.category,
        model_family: m.model_family,
        local_dir_name: m.local_dir_name,
        gguf_repo_id: m.gguf_repo_id,
        gguf_filename: m.gguf_filename,
        downloaded: flag,
        download_mode: m.download_mode,
        config_repo_id: m.config_repo_id,
        config_filenames: m.config_filenames,
    }
}

/// The entries listed under `filter`, in order, each marked downloaded
/// exactly when its local directory name is among `local`.
pub open spec fn with_status(
    entries: Seq<ModelInfoView>,
    filter: Option<Seq<char>>,
    local: Seq<Seq<char>>,
) -> Seq<ModelInfoView>
    decreases entries.len(),
{
    if entries.len() == 0 {
        Seq::empty()
    } else {
        let rest = with_status(entries.drop_last(), filter, local);
        let m = entries.last();
        if listed(m, filter) {
            rest.push(marked(m, local.contains(m.local_dir_name)))
        } else {
            rest
        }
    }
}

/// The text of an optional category filter.
pub open spec fn filter_view(filter: Option<&str>) -> Option<Seq<char>> {
    match filter {
        Some(c) => Some(c@),
        None => None,
    }
}

/// The catalog entries of the given category (all of them without a
/// filter), each marked downloaded when its directory is among `local_dirs`,
/// the model directories found on disk.
pub fn get_models_with_status(category_filter: Option<&str>, local_dirs: &Vec<String>) -> (out: Vec<ModelInfo>)
    ensures
        out.deep_view() == with_status(catalog(), filter_view(category_filter), local_dirs.deep_view()),
{
    let models = build_catalog();
    let ghost all = models.deep_view();
    let ghost local = local_dirs.deep_view();
    let ghost filter = filter_view(category_filter);
    let mut out: Vec<ModelInfo> = Vec::new();
    let mut i: usize = 0;
    while i < models.len()
        invariant
            i <= models@.len(),
            all == models.deep_view(),
            all == catalog(),
            local == local_dirs.deep_view(),
            filter == filter_view(category_filter),
            out.deep_view() == with_status(all.take(i as int), filter, local),
        decreases models@.len() - i,
    {
        assert(all.take(i + 1).drop_last() =~= all.take(i as int));
        assert(all.take(i + 1).last() == all[i as int]);
        let take = match category_filter {
            Some(c) => same_text(models[i].category.as_str(), c),
            None => true,
        };
        if take {
            let mut m = models[i].copy();
            m.downloaded = dir_listed(local_dirs, models[i].local_dir_name.as_str());
            out.push(m);
            assert(out.deep_view() =~~= with_status(all.take(i + 1), filter, local));
        }
        i = i + 1;
    }
    assert(all.take(models@.len() as int) =~= all);
    out
}

/// Whether a directory holds a model: some file in it is a `.gguf` file, or
/// it has a `config.json`.
pub open spec fn holds_model(file_names: Seq<Seq<char>>, has_config_json: bool) -> bool {
    has_config_json || exists|i: int| 0 <= i < file_names.len() && ends_with(#[trigger] file_names[i], ".gguf"@)
}

/// Whether a directory with these file names (and with or without a
/// `config.json`) counts as a downloaded model.
pub fn has_model_files(file_names: &Vec<String>, has_config_json: bool) -> (r: bool)
    ensures
        r == holds_model(file_names.deep_view(), has_config_json),
{
    if has_config_json {
        return true;
    }
    let mut i: usize = 0;
    while i < file_names.len()
        invariant
            i <= file_names@.len(),
            forall|k: int| 0 <= k < i ==> !ends_with(#[trigger] file_names.deep_view()[k], ".gguf"@),
        decreases file_names@.len() - i,
    {
        if ends_with_text(file_names[i].as_str(), ".gguf") {
            assert(file_names.deep_view()[i as int] == file_names@[i as int]@);
            return true;
        }
        assert(file_names.deep_view()[i as int] == file_names@[i as int]@);
        i = i + 1;
    }
    false
}

} // verus!
