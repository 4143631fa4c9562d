use vstd::prelude::*;
use crate::input::VoiceError;
use crate::platform::{join_path, join_paths, Platform};
use crate::text::{chars_of, contains_exec, contains_seq, push_all, push_str, str_eq, string_of};

verus! {

/// A place that speech models can be downloaded from.
#[derive(Clone, Debug)]
pub struct DownloadSite {
    pub id: String,
    pub name: String,
    pub base_url: String,
}

impl DownloadSite {
    /// A site with the given identifier, name and base address.
    pub fn new(id: &str, name: &str, base_url: &str) -> (s: DownloadSite)
        ensures
            s.id@ == id@,
            s.name@ == name@,
            s.base_url@ == base_url@,
    {
        DownloadSite {
            id: String::from_str(id),
            name: String::from_str(name),
            base_url: String::from_str(base_url),
        }
    }

    /// The download sites, in the order they are tried: Hugging Face, then its mirror.
    pub fn get_all_sites() -> (v: Vec<DownloadSite>)
        ensures
            v@.len() == 2,
            v@[0].id@ == "huggingface"@,
            v@[0].name@ == "Hugging Face (Official)"@,
            v@[0].base_url@ == "https://huggingface.co/ggerganov/whisper.cpp/resolve/main"@,
            v@[1].id@ == "hf-mirror"@,
            v@[1].name@ == "HF-Mirror (China)"@,
            v@[1].base_url@ == "https://hf-mirror.com/ggerganov/whisper.cpp/resolve/main"@,
    {
        let mut v: Vec<DownloadSite> = Vec::new();
        v.push(
            DownloadSite::new(
                "huggingface",
                "Hugging Face (Official)",
                "https://huggingface.co/ggerganov/whisper.cpp/resolve/main",
            ),
        );
        v.push(
            DownloadSite::new(
                "hf-mirror",
                "HF-Mirror (China)",
                "https://hf-mirror.com/ggerganov/whisper.cpp/resolve/main",
            ),
        );
        v
    }

    /// The address used to test whether the site can be reached: its smallest model.
    pub fn connectivity_test_url(&self) -> (r: String)
        ensures
            r@ == self.base_url@ + "/ggml-tiny.bin"@,
    {
        let mut out: Vec<char> = Vec::new();
        push_str(&mut out, self.base_url.as_str());
        push_str(&mut out, "/ggml-tiny.bin");
        string_of(out.as_slice())
    }
}

/// `s` without its trailing `c` characters (`str::trim_end_matches` with a character).
pub open spec fn trim_end_char(s: Seq<char>, c: char) -> Seq<char>
    decreases s.len(),
{
    if s.len() > 0 && s.last() == c {
        trim_end_char(s.drop_last(), c)
    } else {
        s
    }
}

/// One bytes-per-megabyte.
pub const BYTES_PER_MB: u64 = 1048576;

/// A speech model that can be downloaded.
#[derive(Clone, Debug)]
pub struct WhisperModel {
    pub name: String,
    pub display_name: String,
    pub file_name: String,
    /// The model's size in bytes: the file's size once downloaded, an estimate before.
    pub size_bytes: u64,
    pub description: String,
    pub download_url: String,
    pub is_downloaded: bool,
    pub file_path: Option<String>,
    /// Percent of the download done.
    pub download_progress: u8,
    pub is_downloading: bool,
}

impl WhisperModel {
    /// A model that is neither downloaded nor downloading, with no download address yet.
    pub fn new(name: &str, display_name: &str, file_name: &str, size_bytes: u64, description: &str) -> (m: WhisperModel)
        ensures
            m.name@ == name@,
            m.display_name@ == display_name@,
            m.file_name@ == file_name@,
            m.size_bytes == size_bytes,
            m.description@ == description@,
            m.download_url@.len() == 0,
            !m.is_downloaded,
            m.file_path is None,
            m.download_progress == 0,
            !m.is_downloading,
    {
        WhisperModel {
            name: String::from_str(name),
            display_name: String::from_str(display_name),
            file_name: String::from_str(file_name),
            size_bytes,
            description: String::from_str(description),
            download_url: String::new(),
            is_downloaded: false,
            file_path: None,
            download_progress: 0,
            is_downloading: false,
        }
    }

    /// Points the download address at the model's file on a site: the base address
    /// without trailing slashes, a slash, and the file name.
    pub fn set_download_url(&mut self, base_url: &str)
        ensures
            final(self).download_url@ == trim_end_char(base_url@, '/') + "/"@ + old(
                self,
            ).file_name@,
            *final(self) == (WhisperModel { download_url: final(self).download_url, ..*old(self) }),
    {
        let b = chars_of(base_url);
        let mut n = b.len();
        assert(b@.take(n as int) =~= b@);
        while n > 0 && b[n - 1] == '/'
            invariant
                n <= b@.len(),
                trim_end_char(b@, '/') == trim_end_char(b@.take(n as int), '/'),
            decreases n,
        {
            proof {
                assert(b@.take(n as int).drop_last() =~= b@.take(n - 1));
            }
            n = n - 1;
        }
        let mut out: Vec<char> = Vec::new();
        let mut i: usize = 0;
        while i < n
            invariant
                i <= n <= b@.len(),
                out@ == b@.take(i as int),
            decreases n - i,
        {
            out.push(b[i]);
            i = i + 1;
            assert(out@ =~= b@.take(i as int));
        }
        proof {
            let t = b@.take(n as int);
            if n > 0 {
                assert(t.last() == b@[n - 1]);
            }
            assert(trim_end_char(t, '/') == t);
        }
        push_str(&mut out, "/");
        push_str(&mut out, self.file_name.as_str());
        self.download_url = string_of(out.as_slice());
    }
}

/// What the file system says of a model's file.
#[derive(Clone, Copy, Debug, PartialEq, Eq, Structural)]
pub enum ModelFile {
    Missing,
    /// The file exists; its size, when it could be read.
    Found(Option<u64>),
}

/// The estimated size of a model not downloaded, in megabytes.
pub open spec fn estimated_mb(name: Seq<char>) -> u64 {
    if name == "large-v3-turbo"@ {
        1570
    } else if name == "large-v3-turbo-q5_0"@ {
        990
    } else if name == "large-v2"@ {
        1550
    } else {
        0
    }
}

/// The downloadable models and where they are kept.
pub struct ModelManager {
    platform: Platform,
    models_dir: String,
    models: Vec<WhisperModel>,
    preferred_site: Option<String>,
}

/// Every downloaded model has a file path.
pub open spec fn models_ok(models: Seq<WhisperModel>) -> bool {
    forall|i: int| 0 <= i < models.len() && (#[trigger] models[i]).is_downloaded ==> models[i].file_path is Some
}

/// No two models have their files at the same path.
pub open spec fn distinct_paths(models: Seq<WhisperModel>) -> bool {
    forall|i: int, j: int|
        0 <= i < j < models.len() && (#[trigger] models[i]).file_path is Some && (#[trigger] models[j]).file_path
            is Some ==> models[i].file_path->0@ != models[j].file_path->0@
}

/// Models that keep the file paths of `old` keep them distinct.
proof fn lemma_same_paths(old: Seq<WhisperModel>, new: Seq<WhisperModel>)
    requires
        distinct_paths(old),
        old.len() == new.len(),
        forall|k: int| 0 <= k < new.len() ==> (#[trigger] new[k]).file_path is None || new[k].file_path == old[k].file_path,
    ensures
        distinct_paths(new),
{
    assert forall|i: int, j: int|
        0 <= i < j < new.len() && (#[trigger] new[i]).file_path is Some && (#[trigger] new[j]).file_path
            is Some implies new[i].file_path->0@ != new[j].file_path->0@ by {
        assert(new[i].file_path == old[i].file_path);
        assert(new[j].file_path == old[j].file_path);
        assert(old[i].file_path is Some && old[j].file_path is Some);
    }
}

/// Different parts joined onto the same base give different paths.
proof fn lemma_join_injective(platform: Platform, base: Seq<char>, a: Seq<char>, b: Seq<char>)
    requires
        join_path(platform, base, a) == join_path(platform, base, b),
    ensures
        a == b,
{
    let pre: Seq<char> = if base.len() == 0 || crate::platform::is_separator(platform, base.last()) {
        base
    } else {
        base + seq![if platform == Platform::Windows { '\\' } else { '/' }]
    };
    assert(join_path(platform, base, a) =~= pre + a);
    assert(join_path(platform, base, b) =~= pre + b);
    assert((pre + a).skip(pre.len() as int) =~= a);
    assert((pre + b).skip(pre.len() as int) =~= b);
}

/// The index of the first model with this name, if any.
pub open spec fn model_index(models: Seq<WhisperModel>, name: Seq<char>) -> Option<int>
    decreases models.len(),
{
    if models.len() == 0 {
        None
    } else {
        match model_index(models.drop_last(), name) {
            Some(i) => Some(i),
            None => if models.last().name@ == name {
                Some(models.len() - 1)
            } else {
                None
            },
        }
    }
}

proof fn lemma_model_index(models: Seq<WhisperModel>, name: Seq<char>)
    ensures
        model_index(models, name) matches Some(i) ==> 0 <= i < models.len() && models[i].name@
            == name && forall|j: int| 0 <= j < i ==> models[j].name@ != name,
        model_index(models, name) is None ==> forall|j: int|
            0 <= j < models.len() ==> models[j].name@ != name,
    decreases models.len(),
{
    if models.len() > 0 {
        lemma_model_index(models.drop_last(), name);
        assert forall|j: int| 0 <= j < models.len() - 1 implies models[j] == models.drop_last()[j] by {}
    }
}

fn find_model(models: &Vec<WhisperModel>, name: &str) -> (r: Option<usize>)
    ensures
        match r {
            Some(i) => model_index(models@, name@) == Some(i as int),
            None => model_index(models@, name@) is None,
        },
{
    proof {
        lemma_model_index(models@, name@);
    }
    let mut i: usize = 0;
    while i < models.len()
        invariant
            i <= models@.len(),
            forall|j: int| 0 <= j < i ==> models@[j].name@ != name@,
            model_index(models@, name@) matches Some(k) ==> i <= k,
            model_index(models@, name@) matches Some(k) ==> 0 <= k < models@.len() && models@[k].name@
                == name@ && forall|j: int| 0 <= j < k ==> models@[j].name@ != name@,
            model_index(models@, name@) is None ==> forall|j: int|
                0 <= j < models@.len() ==> models@[j].name@ != name@,
        decreases models@.len() - i,
    {
        if str_eq(models[i].name.as_str(), name) {
            return Some(i);
        }
        i = i + 1;
    }
    None
}


/// Copies a model field by field.
fn copy_model(m: &WhisperModel) -> (r: WhisperModel)
    ensures
        r == *m,
{
    WhisperModel {
        name: m.name.clone(),
        display_name: m.display_name.clone(),
        file_name: m.file_name.clone(),
        size_bytes: m.size_bytes,
        description: m.description.clone(),
        download_url: m.download_url.clone(),
        is_downloaded: m.is_downloaded,
        file_path: match &m.file_path {
            Some(p) => Some(p.clone()),
            None => None,
        },
        download_progress: m.download_progress,
        is_downloading: m.is_downloading,
    }
}

/// The identifier of the site at a position of `DownloadSite::get_all_sites`.
pub open spec fn site_id(k: int) -> Seq<char> {
    if k == 0 {
        "huggingface"@
    } else {
        "hf-mirror"@
    }
}

/// The name of the site at a position of `DownloadSite::get_all_sites`.
pub open spec fn site_name(k: int) -> Seq<char> {
    if k == 0 {
        "Hugging Face (Official)"@
    } else {
        "HF-Mirror (China)"@
    }
}

/// The site is the one at this position of `DownloadSite::get_all_sites`.
pub open spec fn is_site(s: DownloadSite, k: int) -> bool {
    s.id@ == site_id(k) && s.name@ == site_name(k) && s.base_url@ == site_base(k)
}

/// The base address of the site at a position of `DownloadSite::get_all_sites`.
pub open spec fn site_base(k: int) -> Seq<char> {
    if k == 0 {
        "https://huggingface.co/ggerganov/whisper.cpp/resolve/main"@
    } else {
        "https://hf-mirror.com/ggerganov/whisper.cpp/resolve/main"@
    }
}

/// The position of the site with this identifier.
pub open spec fn site_index(id: Seq<char>) -> Option<int> {
    if id == site_id(0) {
        Some(0)
    } else if id == site_id(1) {
        Some(1)
    } else {
        None
    }
}

/// Which site a download uses, given which sites can be reached, and the preferred site
/// afterwards: the preferred site if it can be reached; otherwise the first reachable
/// site, which becomes preferred.  A preferred site that cannot be reached is forgotten.
pub open spec fn site_choice(pref: Option<Seq<char>>, reachable: Seq<bool>) -> (Option<int>, Option<Seq<char>>) {
    let pi = match pref {
        Some(id) => site_index(id),
        None => None,
    };
    if pi is Some && reachable[pi->0] {
        (Some(pi->0), pref)
    } else {
        let pref2 = if pi is Some {
            None
        } else {
            pref
        };
        if reachable[0] {
            (Some(0), Some(site_id(0)))
        } else if reachable[1] {
            (Some(1), Some(site_id(1)))
        } else {
            (None, pref2)
        }
    }
}

/// The preferred site is one of the download sites and can be reached.
pub open spec fn preferred_reachable(pref: Option<Seq<char>>, reachable: Seq<bool>) -> bool {
    exists|j: int| 0 <= j < 2 && pref == Some(site_id(j)) && #[trigger] reachable[j]
}

/// The site chosen for a download can always be reached, and one is chosen whenever
/// any site can be reached: the preferred site when it can be reached, else the first
/// reachable site in the order of `DownloadSite::get_all_sites`, which becomes the
/// preferred one.
pub proof fn lemma_site_choice_reachable(pref: Option<Seq<char>>, reachable: Seq<bool>)
    requires
        reachable.len() == 2,
    ensures
        ({
            let (choice, after) = site_choice(pref, reachable);
            &&& choice is None <==> (!reachable[0] && !reachable[1])
            &&& choice matches Some(k) ==> 0 <= k < 2 && reachable[k] && after == Some(site_id(k))
            &&& forall|j: int|
                0 <= j < 2 && pref == Some(site_id(j)) && reachable[j] ==> choice == Some(j)
            &&& (choice is Some && !preferred_reachable(pref, reachable)) ==> (forall|j: int|
                0 <= j < choice->0 ==> !reachable[j])
        }),
{
    reveal_strlit("huggingface");
    reveal_strlit("hf-mirror");
    assert("huggingface"@.len() == 11);
    assert("hf-mirror"@.len() == 9);
    assert(site_id(0) != site_id(1));
}

/// What a download needs: the model as marked for download, the site, and where the
/// file goes while downloading and once done.
pub struct DownloadPlan {
    pub model: WhisperModel,
    pub site: DownloadSite,
    pub target_path: String,
    pub temp_path: String,
}

/// The models on offer: name, shown name, file name and description.
pub open spec fn catalog_name(i: int) -> Seq<char> {
    if i == 0 {
        "large-v3-turbo"@
    } else if i == 1 {
        "large-v3-turbo-q5_0"@
    } else {
        "large-v2"@
    }
}

/// The file name of a catalog model.
pub open spec fn catalog_file(i: int) -> Seq<char> {
    if i == 0 {
        "ggml-large-v3-turbo.bin"@
    } else if i == 1 {
        "ggml-large-v3-turbo-q5_0.bin"@
    } else {
        "ggml-large-v2.bin"@
    }
}

/// The shown name of a catalog model.
pub open spec fn catalog_display(i: int) -> Seq<char> {
    if i == 0 {
        "Turbo"@
    } else if i == 1 {
        "Turbo Q5_0"@
    } else {
        "V2"@
    }
}

/// Where the files of the models on offer are looked for, in catalog order.
pub fn catalog_paths(platform: Platform, models_dir: &str) -> (r: Vec<String>)
    ensures
        r@.len() == 3,
        forall|i: int| 0 <= i < 3 ==> (#[trigger] r@[i])@ == join_path(platform, models_dir@, catalog_file(i)),
{
    let mut r: Vec<String> = Vec::new();
    r.push(join_paths(platform, models_dir, "ggml-large-v3-turbo.bin"));
    r.push(join_paths(platform, models_dir, "ggml-large-v3-turbo-q5_0.bin"));
    r.push(join_paths(platform, models_dir, "ggml-large-v2.bin"));
    r
}

/// `m` is catalog model `i` after its file was looked for in `dir`: a file found makes
/// the model downloaded, at that path, fully progressed, and of the file's size when it
/// could be read (else 0); a missing file leaves it not downloaded, of its estimated size.
pub open spec fn initial_model(platform: Platform, dir: Seq<char>, i: int, f: ModelFile, m: WhisperModel) -> bool {
    &&& m.name@ == catalog_name(i)
    &&& m.display_name@ == catalog_display(i)
    &&& m.file_name@ == catalog_file(i)
    &&& m.download_url@.len() == 0
    &&& !m.is_downloading
    &&& match f {
        ModelFile::Found(size) => {
            &&& m.is_downloaded
            &&& m.download_progress == 100
            &&& m.file_path matches Some(p) && p@ == join_path(platform, dir, catalog_file(i))
            &&& m.size_bytes == match size {
                Some(s) => s,
                None => 0,
            }
        },
        ModelFile::Missing => {
            &&& !m.is_downloaded
            &&& m.download_progress == 0
            &&& m.file_path is None
            &&& m.size_bytes == estimated_mb(catalog_name(i)) * BYTES_PER_MB
        },
    }
}

/// Totals over the models.
pub struct ModelStats {
    pub total_models: usize,
    pub downloaded_models: usize,
    pub total_size_bytes: u128,
    pub downloaded_size_bytes: u128,
    pub models_dir: String,
}

/// The number of downloaded models.
pub open spec fn downloaded_count(models: Seq<WhisperModel>) -> nat
    decreases models.len(),
{
    if models.len() == 0 {
        0
    } else {
        downloaded_count(models.drop_last()) + if models.last().is_downloaded { 1nat } else { 0nat }
    }
}

/// The total size of the models, and of the downloaded ones.
pub open spec fn size_total(models: Seq<WhisperModel>, only_downloaded: bool) -> nat
    decreases models.len(),
{
    if models.len() == 0 {
        0
    } else {
        size_total(models.drop_last(), only_downloaded) + if !only_downloaded
            || models.last().is_downloaded {
            models.last().size_bytes as nat
        } else {
            0nat
        }
    }
}

/// The downloaded models, in order.
pub open spec fn downloaded_only(models: Seq<WhisperModel>) -> Seq<WhisperModel>
    decreases models.len(),
{
    if models.len() == 0 {
        models
    } else {
        let r = downloaded_only(models.drop_last());
        if models.last().is_downloaded {
            r.push(models.last())
        } else {
            r
        }
    }
}


fn check_model_file(platform: Platform, dir: &str, m: &mut WhisperModel, f: ModelFile, estimate_mb: u64)
    requires
        estimate_mb <= 1570,
    ensures
        *final(m) == (WhisperModel {
            is_downloaded: final(m).is_downloaded,
            file_path: final(m).file_path,
            download_progress: final(m).download_progress,
            size_bytes: final(m).size_bytes,
            ..*old(m)
        }),
        match f {
            ModelFile::Found(size) => {
                &&& final(m).is_downloaded
                &&& final(m).download_progress == 100
                &&& final(m).file_path matches Some(p) && p@ == join_path(
                    platform,
                    dir@,
                    old(m).file_name@,
                )
                &&& final(m).size_bytes == match size {
                    Some(s) => s,
                    None => old(m).size_bytes,
                }
            },
            ModelFile::Missing => {
                &&& final(m).is_downloaded == old(m).is_downloaded
                &&& final(m).download_progress == old(m).download_progress
                &&& final(m).file_path == old(m).file_path
                &&& final(m).size_bytes == estimate_mb * BYTES_PER_MB
            },
        },
{
    match f {
        ModelFile::Found(size) => {
            m.is_downloaded = true;
            m.file_path = Some(crate::platform::join_paths(platform, dir, m.file_name.as_str()));
            m.download_progress = 100;
            if let Some(s) = size {
                m.size_bytes = s;
            }
        },
        ModelFile::Missing => {
            m.size_bytes = estimate_mb * BYTES_PER_MB;
        },
    }
}

impl ModelManager {
    /// The models, in catalog order.
    pub closed spec fn models_view(&self) -> Seq<WhisperModel> {
        self.models@
    }

    /// The directory the models are kept in.
    pub closed spec fn dir(&self) -> Seq<char> {
        self.models_dir@
    }

    /// The platform the paths are written for.
    pub closed spec fn platform_view(&self) -> Platform {
        self.platform
    }

    /// The identifier of the site that last worked, if any.
    pub closed spec fn preferred_view(&self) -> Option<Seq<char>> {
        match self.preferred_site {
            Some(s) => Some(s@),
            None => None,
        }
    }

    /// Every downloaded model has a file path, and the three catalog models are there.
    pub closed spec fn well_formed(&self) -> bool {
        models_ok(self.models@) && self.models@.len() == 3 && distinct_paths(self.models@)
    }

    /// The three models on offer, each marked downloaded when its file was found in
    /// `models_dir`; `files` tells, model by model, what the file system said.
    pub fn new(platform: Platform, models_dir: &str, files: &[ModelFile]) -> (mm: ModelManager)
        requires
            files@.len() == 3,
        ensures
            mm.well_formed(),
            mm.dir() == models_dir@,
            mm.platform_view() == platform,
            mm.preferred_view() is None,
            mm.models_view().len() == 3,
            forall|i: int|
                0 <= i < 3 ==> initial_model(platform, models_dir@, i, files@[i], #[trigger] mm.models_view()[i]),
    {
        let mut m0 = WhisperModel::new(
            "large-v3-turbo",
            "Turbo",
            "ggml-large-v3-turbo.bin",
            0,
            "最新的高效模型，在保持高准确性的同时显著提升推理速度，适合生产环境使用",
        );
        let mut m1 = WhisperModel::new(
            "large-v3-turbo-q5_0",
            "Turbo Q5_0",
            "ggml-large-v3-turbo-q5_0.bin",
            0,
            "Turbo模型的Q5_0量化版本，体积更小但保持高准确性，推荐用于存储空间有限的设备",
        );
        let mut m2 = WhisperModel::new(
            "large-v2",
            "V2",
            "ggml-large-v2.bin",
            0,
            "成熟稳定的模型，具有良好的准确性和兼容性",
        );
        check_model_file(platform, models_dir, &mut m0, files[0], 1570);
        check_model_file(platform, models_dir, &mut m1, files[1], 990);
        check_model_file(platform, models_dir, &mut m2, files[2], 1550);
        let mut models: Vec<WhisperModel> = Vec::new();
        models.push(m0);
        models.push(m1);
        models.push(m2);
        let mm = ModelManager {
            platform,
            models_dir: String::from_str(models_dir),
            models,
            preferred_site: None,
        };
        proof {
            reveal_strlit("large-v3-turbo");
            reveal_strlit("large-v3-turbo-q5_0");
            reveal_strlit("large-v2");
        }
        assert(initial_model(platform, models_dir@, 0, files@[0], mm.models@[0]));
        assert(mm.models@[1].name@ == catalog_name(1));
        assert(estimated_mb(catalog_name(1)) == 990);
        assert(initial_model(platform, models_dir@, 1, files@[1], mm.models@[1]));
        assert(mm.models@[2].name@ == catalog_name(2));
        assert(estimated_mb(catalog_name(2)) == 1550);
        assert(initial_model(platform, models_dir@, 2, files@[2], mm.models@[2]));
        proof {
            reveal_strlit("ggml-large-v3-turbo.bin");
            reveal_strlit("ggml-large-v3-turbo-q5_0.bin");
            reveal_strlit("ggml-large-v2.bin");
            assert forall|i: int, j: int|
                0 <= i < j < mm.models@.len() && (#[trigger] mm.models@[i]).file_path is Some
                    && (#[trigger] mm.models@[j]).file_path is Some implies mm.models@[i].file_path->0@
                != mm.models@[j].file_path->0@ by {
                assert(catalog_file(i).len() != catalog_file(j).len());
                if mm.models@[i].file_path->0@ == mm.models@[j].file_path->0@ {
                    lemma_join_injective(platform, models_dir@, catalog_file(i), catalog_file(j));
                }
            }
        }
        mm
    }

    /// The identifier of the site that last worked, if any.
    pub fn get_preferred_site(&self) -> (r: Option<String>)
        ensures
            match r {
                Some(s) => self.preferred_view() == Some(s@),
                None => self.preferred_view() is None,
            },
    {
        match &self.preferred_site {
            Some(s) => Some(s.clone()),
            None => None,
        }
    }

    /// All models.
    pub fn get_models(&self) -> (r: Vec<WhisperModel>)
        ensures
            r@ == self.models_view(),
    {
        let mut out: Vec<WhisperModel> = Vec::new();
        let mut i: usize = 0;
        while i < self.models.len()
            invariant
                i <= self.models@.len(),
                out@ == self.models@.take(i as int),
            decreases self.models@.len() - i,
        {
            out.push(copy_model(&self.models[i]));
            i = i + 1;
            assert(out@ =~= self.models@.take(i as int));
        }
        assert(self.models@.take(self.models@.len() as int) =~= self.models@);
        out
    }

    /// The downloaded models.
    pub fn get_downloaded_models(&self) -> (r: Vec<WhisperModel>)
        ensures
            r@ == downloaded_only(self.models_view()),
    {
        let mut out: Vec<WhisperModel> = Vec::new();
        let mut i: usize = 0;
        while i < self.models.len()
            invariant
                i <= self.models@.len(),
                out@ == downloaded_only(self.models@.take(i as int)),
            decreases self.models@.len() - i,
        {
            proof {
                assert(self.models@.take(i + 1).drop_last() =~= self.models@.take(i as int));
            }
            if self.models[i].is_downloaded {
                out.push(copy_model(&self.models[i]));
            }
            i = i + 1;
        }
        assert(self.models@.take(self.models@.len() as int) =~= self.models@);
        out
    }

    /// Chooses the download site, given which of `DownloadSite::get_all_sites` can be
    /// reached; remembers it as preferred.
    pub fn select_best_site(&mut self, reachable: &[bool]) -> (r: Result<DownloadSite, VoiceError>)
        requires
            reachable@.len() == 2,
        ensures
            final(self).models_view() == old(self).models_view(),
            final(self).dir() == old(self).dir(),
            final(self).platform_view() == old(self).platform_view(),
            final(self).well_formed() == old(self).well_formed(),
            ({
                let (choice, pref) = site_choice(old(self).preferred_view(), reachable@);
                &&& final(self).preferred_view() == pref
                &&& match r {
                    Ok(site) => choice is Some && site.id@ == site_id(choice->0) && site.base_url@
                        == site_base(choice->0),
                    Err(e) => choice is None && (e matches VoiceError::Other(m) && m@
                        == "No accessible download site found. Please check your internet connection."@),
                }
            }),
    {
        let sites = DownloadSite::get_all_sites();
        let mut pref_index: Option<usize> = None;
        if let Some(p) = &self.preferred_site {
            if str_eq(p.as_str(), "huggingface") {
                pref_index = Some(0);
            } else if str_eq(p.as_str(), "hf-mirror") {
                pref_index = Some(1);
            }
        }
        if let Some(k) = pref_index {
            if reachable[k] {
                return Ok(DownloadSite::new(
                    if k == 0 { "huggingface" } else { "hf-mirror" },
                    if k == 0 { "Hugging Face (Official)" } else { "HF-Mirror (China)" },
                    if k == 0 {
                        "https://huggingface.co/ggerganov/whisper.cpp/resolve/main"
                    } else {
                        "https://hf-mirror.com/ggerganov/whisper.cpp/resolve/main"
                    },
                ));
            } else {
                self.preferred_site = None;
            }
        }
        if reachable[0] {
            self.preferred_site = Some(String::from_str("huggingface"));
            return Ok(DownloadSite::new(
                "huggingface",
                "Hugging Face (Official)",
                "https://huggingface.co/ggerganov/whisper.cpp/resolve/main",
            ));
        }
        if reachable[1] {
            self.preferred_site = Some(String::from_str("hf-mirror"));
            return Ok(DownloadSite::new(
                "hf-mirror",
                "HF-Mirror (China)",
                "https://hf-mirror.com/ggerganov/whisper.cpp/resolve/main",
            ));
        }
        Err(VoiceError::Other(String::from_str(
            "No accessible download site found. Please check your internet connection.",
        )))
    }
}


/// The first model with this name that is downloaded.
pub open spec fn active_index(models: Seq<WhisperModel>, name: Seq<char>) -> Option<int>
    decreases models.len(),
{
    if models.len() == 0 {
        None
    } else {
        match active_index(models.drop_last(), name) {
            Some(i) => Some(i),
            None => if models.last().name@ == name && models.last().is_downloaded {
                Some(models.len() - 1)
            } else {
                None
            },
        }
    }
}

/// The model's file is at this path.
pub open spec fn has_path(m: WhisperModel, path: Seq<char>) -> bool {
    m.file_path matches Some(p) && p@ == path
}

/// The first model whose file is at this path.
pub open spec fn path_index(models: Seq<WhisperModel>, path: Seq<char>) -> Option<int>
    decreases models.len(),
{
    if models.len() == 0 {
        None
    } else {
        match path_index(models.drop_last(), path) {
            Some(i) => Some(i),
            None => if has_path(models.last(), path) {
                Some(models.len() - 1)
            } else {
                None
            },
        }
    }
}

proof fn lemma_active_index(models: Seq<WhisperModel>, name: Seq<char>)
    ensures
        active_index(models, name) matches Some(i) ==> 0 <= i < models.len() && models[i].name@
            == name && models[i].is_downloaded && forall|j: int|
            0 <= j < i ==> !(models[j].name@ == name && models[j].is_downloaded),
        active_index(models, name) is None ==> forall|j: int|
            0 <= j < models.len() ==> !(models[j].name@ == name && models[j].is_downloaded),
    decreases models.len(),
{
    if models.len() > 0 {
        lemma_active_index(models.drop_last(), name);
        assert forall|j: int| 0 <= j < models.len() - 1 implies models[j] == models.drop_last()[j] by {}
    }
}

proof fn lemma_path_index(models: Seq<WhisperModel>, path: Seq<char>)
    ensures
        path_index(models, path) matches Some(i) ==> 0 <= i < models.len() && has_path(models[i], path) && forall|j: int|
            0 <= j < i ==> !has_path(#[trigger] models[j], path),
        path_index(models, path) is None ==> forall|j: int|
            0 <= j < models.len() ==> !has_path(#[trigger] models[j], path),
    decreases models.len(),
{
    if models.len() > 0 {
        lemma_path_index(models.drop_last(), path);
        assert forall|j: int| 0 <= j < models.len() - 1 implies models[j] == models.drop_last()[j] by {}
    }
}

fn not_found_error(model_name: &str) -> (e: VoiceError)
    ensures
        e matches VoiceError::Other(m) && m@ == "Model '"@ + model_name@ + "' not found"@,
{
    let mut msg: Vec<char> = Vec::new();
    push_str(&mut msg, "Model '");
    push_str(&mut msg, model_name);
    push_str(&mut msg, "' not found");
    VoiceError::Other(string_of(msg.as_slice()))
}

/// The model marked for download from a site's base address.
pub open spec fn marked_for_download(m: WhisperModel, r: WhisperModel, base: Seq<char>) -> bool {
    &&& r == WhisperModel {
        download_url: r.download_url,
        is_downloading: true,
        download_progress: 0,
        ..m
    }
    &&& r.download_url@ == trim_end_char(base, '/') + "/"@ + m.file_name@
}

impl ModelManager {
    /// Prepares the download of a model: finds it, chooses the site (see
    /// `select_best_site`), refuses a model already downloaded or downloading, and marks
    /// it as downloading from the chosen site.
    pub fn download_model(&mut self, model_name: &str, reachable: &[bool]) -> (r: Result<DownloadPlan, VoiceError>)
        requires
            old(self).well_formed(),
            reachable@.len() == 2,
        ensures
            final(self).well_formed(),
            final(self).dir() == old(self).dir(),
            final(self).platform_view() == old(self).platform_view(),
            match model_index(old(self).models_view(), model_name@) {
                None => {
                    &&& final(self).models_view() == old(self).models_view()
                    &&& final(self).preferred_view() == old(self).preferred_view()
                    &&& r matches Err(e) && (e matches VoiceError::Other(m) && m@ == "Model '"@ + model_name@ + "' not found"@)
                },
                Some(i) => {
                    let (choice, pref) = site_choice(old(self).preferred_view(), reachable@);
                    let old_m = old(self).models_view()[i];
                    &&& final(self).preferred_view() == pref
                    &&& if choice is None {
                        &&& final(self).models_view() == old(self).models_view()
                        &&& r matches Err(e) && (e matches VoiceError::Other(m) && m@
                            == "No accessible download site found. Please check your internet connection."@)
                    } else if old_m.is_downloaded {
                        &&& final(self).models_view() == old(self).models_view()
                        &&& r matches Err(e) && (e matches VoiceError::Other(m) && m@ == "Model already downloaded"@)
                    } else if old_m.is_downloading {
                        &&& final(self).models_view() == old(self).models_view()
                        &&& r matches Err(e) && (e matches VoiceError::Other(m) && m@ == "Model already downloading"@)
                    } else {
                        &&& r matches Ok(plan)
                        &&& marked_for_download(old_m, r->Ok_0.model, site_base(choice->0))
                        &&& final(self).models_view() == old(self).models_view().update(i, r->Ok_0.model)
                        &&& r->Ok_0.site.id@ == site_id(choice->0)
                        &&& r->Ok_0.target_path@ == join_path(old(self).platform_view(), old(self).dir(), old_m.file_name@)
                        &&& r->Ok_0.temp_path@ == join_path(
                            old(self).platform_view(),
                            old(self).dir(),
                            old_m.file_name@ + ".tmp"@,
                        )
                    }
                },
            },
    {
        let idx = find_model(&self.models, model_name);
        let i = match idx {
            Some(i) => i,
            None => {
                return Err(not_found_error(model_name));
            },
        };
        proof {
            lemma_model_index(self.models@, model_name@);
        }
        let site = match self.select_best_site(reachable) {
            Ok(s) => s,
            Err(e) => {
                return Err(e);
            },
        };
        if self.models[i].is_downloaded {
            return Err(VoiceError::Other(String::from_str("Model already downloaded")));
        }
        if self.models[i].is_downloading {
            return Err(VoiceError::Other(String::from_str("Model already downloading")));
        }
        let mut m = copy_model(&self.models[i]);
        m.set_download_url(site.base_url.as_str());
        m.is_downloading = true;
        m.download_progress = 0;
        let target_path = crate::platform::join_paths(self.platform, self.models_dir.as_str(), m.file_name.as_str());
        let mut tmp_name: Vec<char> = Vec::new();
        push_str(&mut tmp_name, m.file_name.as_str());
        push_str(&mut tmp_name, ".tmp");
        let tmp_s = string_of(tmp_name.as_slice());
        let temp_path = crate::platform::join_paths(self.platform, self.models_dir.as_str(), tmp_s.as_str());
        let kept = copy_model(&m);
        let ghost before = self.models@;
        self.models.set(i, kept);
        proof {
            lemma_same_paths(before, self.models@);
        }
        Ok(DownloadPlan { model: m, site, target_path, temp_path })
    }

    /// Checks that a model can be deleted, and gives the path of its file, if it has one.
    pub fn check_delete(&self, model_name: &str) -> (r: Result<Option<String>, VoiceError>)
        requires
            self.well_formed(),
        ensures
            match model_index(self.models_view(), model_name@) {
                None => r matches Err(e) && (e matches VoiceError::Other(m) && m@ == "Model '"@ + model_name@ + "' not found"@),
                Some(i) => if !self.models_view()[i].is_downloaded {
                    r matches Err(e) && (e matches VoiceError::Other(m) && m@ == "Model not downloaded"@)
                } else {
                    r matches Ok(p) && p == self.models_view()[i].file_path
                },
            },
    {
        proof {
            lemma_model_index(self.models@, model_name@);
        }
        match find_model(&self.models, model_name) {
            None => Err(not_found_error(model_name)),
            Some(i) => {
                if !self.models[i].is_downloaded {
                    Err(VoiceError::Other(String::from_str("Model not downloaded")))
                } else {
                    Ok(
                        match &self.models[i].file_path {
                            Some(p) => Some(p.clone()),
                            None => None,
                        },
                    )
                }
            },
        }
    }

    /// Marks a model as deleted, once its file was removed; `removal_error` tells why the
    /// file could not be removed, if it could not.
    pub fn delete_model(&mut self, model_name: &str, removal_error: Option<String>) -> (r: Result<(), VoiceError>)
        requires
            old(self).well_formed(),
        ensures
            final(self).well_formed(),
            final(self).dir() == old(self).dir(),
            final(self).platform_view() == old(self).platform_view(),
            final(self).preferred_view() == old(self).preferred_view(),
            match model_index(old(self).models_view(), model_name@) {
                None => final(self).models_view() == old(self).models_view() && (r matches Err(e) && (e matches VoiceError::Other(m) && m@
                    == "Model '"@ + model_name@ + "' not found"@)),
                Some(i) => {
                    let old_m = old(self).models_view()[i];
                    if !old_m.is_downloaded {
                        final(self).models_view() == old(self).models_view() && (r matches Err(e) && (e matches VoiceError::Other(m) && m@
                            == "Model not downloaded"@))
                    } else if removal_error is Some {
                        final(self).models_view() == old(self).models_view() && (r matches Err(e) && (e matches VoiceError::Other(m) && m@
                            == "Failed to delete model file: "@ + removal_error->0@))
                    } else {
                        &&& r is Ok
                        &&& final(self).models_view() == old(self).models_view().update(
                            i,
                            WhisperModel {
                                is_downloaded: false,
                                file_path: None,
                                download_progress: 0,
                                ..old_m
                            },
                        )
                    }
                },
            },
    {
        proof {
            lemma_model_index(self.models@, model_name@);
        }
        let i = match find_model(&self.models, model_name) {
            None => {
                return Err(not_found_error(model_name));
            },
            Some(i) => i,
        };
        if !self.models[i].is_downloaded {
            return Err(VoiceError::Other(String::from_str("Model not downloaded")));
        }
        if let Some(e) = removal_error {
            let mut msg: Vec<char> = Vec::new();
            push_str(&mut msg, "Failed to delete model file: ");
            push_str(&mut msg, e.as_str());
            return Err(VoiceError::Other(string_of(msg.as_slice())));
        }
        let mut m = copy_model(&self.models[i]);
        m.is_downloaded = false;
        m.file_path = None;
        m.download_progress = 0;
        let ghost before = self.models@;
        self.models.set(i, m);
        proof {
            lemma_same_paths(before, self.models@);
        }
        Ok(())
    }

    /// The file path of the model to make active: the first downloaded model with this
    /// name.
    pub fn set_active_model(&self, model_name: &str) -> (r: Result<String, VoiceError>)
        requires
            self.well_formed(),
        ensures
            match active_index(self.models_view(), model_name@) {
                None => r matches Err(e) && (e matches VoiceError::Other(m) && m@ == "Downloaded model '"@
                    + model_name@ + "' not found"@),
                Some(i) => r matches Ok(p) && self.models_view()[i].file_path == Some(p),
            },
    {
        proof {
            lemma_active_index(self.models@, model_name@);
        }
        let mut i: usize = 0;
        while i < self.models.len()
            invariant
                i <= self.models@.len(),
                models_ok(self.models@),
                forall|j: int| 0 <= j < i ==> !(self.models@[j].name@ == model_name@ && self.models@[j].is_downloaded),
                active_index(self.models@, model_name@) matches Some(k) ==> i <= k,
                active_index(self.models@, model_name@) matches Some(k) ==> 0 <= k < self.models@.len() && self.models@[k].name@
                    == model_name@ && self.models@[k].is_downloaded && forall|j: int|
                    0 <= j < k ==> !(self.models@[j].name@ == model_name@ && self.models@[j].is_downloaded),
                active_index(self.models@, model_name@) is None ==> forall|j: int|
                    0 <= j < self.models@.len() ==> !(self.models@[j].name@ == model_name@ && self.models@[j].is_downloaded),
            decreases self.models@.len() - i,
        {
            if str_eq(self.models[i].name.as_str(), model_name) && self.models[i].is_downloaded {
                assert(self.models@[i as int].is_downloaded);
                match &self.models[i].file_path {
                    Some(p) => {
                        return Ok(p.clone());
                    },
                    None => {
                        assert(false);
                        return Err(VoiceError::Other(String::new()));
                    },
                }
            }
            i = i + 1;
        }
        let mut msg: Vec<char> = Vec::new();
        push_str(&mut msg, "Downloaded model '");
        push_str(&mut msg, model_name);
        push_str(&mut msg, "' not found");
        Err(VoiceError::Other(string_of(msg.as_slice())))
    }

    /// The name of the model whose file is the active model path, if any.
    pub fn get_active_model(&self, active_path: Option<&str>) -> (r: Option<String>)
        ensures
            active_path is None ==> r is None,
            active_path matches Some(path) ==> (path_index(self.models_view(), path@) is None <==> r is None),
            active_path matches Some(path) ==> (path_index(self.models_view(), path@) matches Some(i) ==> (r matches Some(n) && n@ == self.models_view()[i].name@)),
    {
        let p = match active_path {
            None => {
                return None;
            },
            Some(p) => p,
        };
        proof {
            lemma_path_index(self.models@, p@);
        }
        let mut i: usize = 0;
        while i < self.models.len()
            invariant
                i <= self.models@.len(),
                active_path == Some(p),
                forall|j: int| 0 <= j < i ==> !has_path(#[trigger] self.models@[j], p@),
                path_index(self.models@, p@) matches Some(k) ==> i <= k,
                path_index(self.models@, p@) matches Some(k) ==> 0 <= k < self.models@.len() && has_path(self.models@[k], p@)
                    && forall|j: int| 0 <= j < k ==> !has_path(#[trigger] self.models@[j], p@),
                path_index(self.models@, p@) is None ==> forall|j: int|
                    0 <= j < self.models@.len() ==> !has_path(#[trigger] self.models@[j], p@),
            decreases self.models@.len() - i,
        {
            if let Some(q) = &self.models[i].file_path {
                if str_eq(q.as_str(), p) {
                    assert(has_path(self.models@[i as int], p@));
                    return Some(self.models[i].name.clone());
                }
            }
            i = i + 1;
        }
        None
    }

    /// How many models there are and are downloaded, and their sizes.
    pub fn get_model_stats(&self) -> (s: ModelStats)
        requires
            self.well_formed(),
        ensures
            s.total_models == self.models_view().len(),
            s.downloaded_models == downloaded_count(self.models_view()),
            s.total_size_bytes == size_total(self.models_view(), false),
            s.downloaded_size_bytes == size_total(self.models_view(), true),
            s.models_dir@ == self.dir(),
    {
        let mut count: usize = 0;
        let mut total: u128 = 0;
        let mut done: u128 = 0;
        let mut i: usize = 0;
        while i < self.models.len()
            invariant
                i <= self.models@.len(),
                self.models@.len() == 3,
                count == downloaded_count(self.models@.take(i as int)),
                count <= i,
                total == size_total(self.models@.take(i as int), false),
                done == size_total(self.models@.take(i as int), true),
                total <= i * 0x1_0000_0000_0000_0000,
                done <= i * 0x1_0000_0000_0000_0000,
            decreases self.models@.len() - i,
        {
            proof {
                assert(self.models@.take(i + 1).drop_last() =~= self.models@.take(i as int));
            }
            let size = self.models[i].size_bytes as u128;
            total = total + size;
            if self.models[i].is_downloaded {
                count = count + 1;
                done = done + size;
            }
            i = i + 1;
        }
        assert(self.models@.take(self.models@.len() as int) =~= self.models@);
        ModelStats {
            total_models: self.models.len(),
            downloaded_models: count,
            total_size_bytes: total,
            downloaded_size_bytes: done,
            models_dir: self.models_dir.clone(),
        }
    }
}

/// What `set_active_model` makes active, `get_active_model` gives back: the file path
/// given for a downloaded model is found again as that model's path, so the model read
/// back from it is the model that was made active.
pub proof fn lemma_active_model_read_back(mm: ModelManager, name: Seq<char>)
    requires
        mm.well_formed(),
        active_index(mm.models_view(), name) is Some,
    ensures
        ({
            let i = active_index(mm.models_view(), name)->0;
            &&& mm.models_view()[i].name@ == name
            &&& mm.models_view()[i].file_path matches Some(p) && path_index(mm.models_view(), p@) == Some(i)
        }),
{
    let ms = mm.models_view();
    lemma_active_index(ms, name);
    let i = active_index(ms, name)->0;
    assert(ms[i].is_downloaded);
    let p = ms[i].file_path->0;
    lemma_path_index(ms, p@);
    assert(has_path(ms[i], p@));
    match path_index(ms, p@) {
        Some(k) => {
            if k < i {
                assert(ms[k].file_path is Some && ms[i].file_path is Some);
            } else if k > i {
                assert(ms[k].file_path is Some && ms[i].file_path is Some);
            }
        },
        None => {},
    }
}

/// The sites that can be reached, in order.
pub fn reachable_sites(reachable: &[bool]) -> (v: Vec<DownloadSite>)
    requires
        reachable@.len() == 2,
    ensures
        v@.len() == (if reachable@[0] { 1int } else { 0int }) + (if reachable@[1] { 1int } else { 0int }),
        reachable@[0] ==> is_site(v@[0], 0),
        reachable@[1] ==> is_site(v@[v@.len() - 1], 1),
{
    let mut out: Vec<DownloadSite> = Vec::new();
    let sites = DownloadSite::get_all_sites();
    if reachable[0] {
        out.push(DownloadSite::new(
            "huggingface",
            "Hugging Face (Official)",
            "https://huggingface.co/ggerganov/whisper.cpp/resolve/main",
        ));
    }
    if reachable[1] {
        out.push(DownloadSite::new(
            "hf-mirror",
            "HF-Mirror (China)",
            "https://hf-mirror.com/ggerganov/whisper.cpp/resolve/main",
        ));
    }
    out
}

/// Whether a model is loaded for use: it must be the configured model, a recogniser must
/// be loaded, and a loaded file, when known, must be the model's file `ggml-<name>.bin`.
pub fn model_loaded(configured: Option<&str>, model_name: &str, has_processor: bool, current_path: Option<&str>) -> (b: bool)
    ensures
        b == (configured matches Some(c) && c@ == model_name@ && has_processor && match current_path {
            Some(p) => contains_seq(p@, "ggml-"@ + model_name@ + ".bin"@),
            None => true,
        }),
{
    match configured {
        Some(c) => {
            if !str_eq(c, model_name) {
                return false;
            }
            match current_path {
                Some(p) => {
                    let mut pat: Vec<char> = Vec::new();
                    push_str(&mut pat, "ggml-");
                    push_str(&mut pat, model_name);
                    push_str(&mut pat, ".bin");
                    let pv = chars_of(p);
                    let found = contains_exec(pv.as_slice(), pat.as_slice());
                    has_processor && found
                },
                None => has_processor,
            }
        },
        None => false,
    }
}

} // verus!
