use vstd::prelude::*;
use crate::platform::Platform;
use crate::text::{join, join_exec, push_all, push_str, str_eq, string_of, views};

verus! {

/// The compute backend that speech recognition runs on.
#[derive(Clone, Copy, Debug, PartialEq, Eq, Structural)]
pub enum WhisperBackend {
    CPU,
    CUDA,
    Vulkan,
    /// Apple Silicon.
    Metal,
    /// For older GPUs.
    OpenCL,
}

impl Default for WhisperBackend {
    fn default() -> (b: Self)
        ensures
            b == WhisperBackend::CPU,
    {
        WhisperBackend::CPU
    }
}

/// The name a backend is shown with.
pub open spec fn backend_name(b: WhisperBackend) -> Seq<char> {
    match b {
        WhisperBackend::CPU => "CPU"@,
        WhisperBackend::CUDA => "CUDA"@,
        WhisperBackend::Vulkan => "Vulkan"@,
        WhisperBackend::Metal => "Metal"@,
        WhisperBackend::OpenCL => "OpenCL"@,
    }
}

/// The priority of a backend; a smaller number is preferred.
pub open spec fn priority(b: WhisperBackend) -> u8 {
    match b {
        WhisperBackend::CUDA => 1,
        WhisperBackend::Vulkan => 2,
        WhisperBackend::Metal => 3,
        WhisperBackend::OpenCL => 4,
        WhisperBackend::CPU => 5,
    }
}

fn backend_name_exec(b: WhisperBackend) -> (r: &'static str)
    ensures
        r@ == backend_name(b),
{
    match b {
        WhisperBackend::CPU => "CPU",
        WhisperBackend::CUDA => "CUDA",
        WhisperBackend::Vulkan => "Vulkan",
        WhisperBackend::Metal => "Metal",
        WhisperBackend::OpenCL => "OpenCL",
    }
}

impl WhisperBackend {
    /// The name the backend is shown with, such as `"CUDA"`.
    pub fn to_display_string(&self) -> (r: String)
        ensures
            r@ == backend_name(*self),
    {
        String::from_str(backend_name_exec(*self))
    }
}

/// Which GPU backends a probe of the system found.
#[derive(Clone, Copy, Debug, PartialEq, Eq, Structural)]
pub struct BackendProbe {
    pub cuda: bool,
    pub vulkan: bool,
    pub metal: bool,
    pub opencl: bool,
}

/// The backends a probe makes available, best first: the GPU backends found, in the
/// order CUDA, Vulkan, Metal, OpenCL, and then the CPU, which is always there.
pub open spec fn detected_backends(p: BackendProbe) -> Seq<WhisperBackend> {
    let s0: Seq<WhisperBackend> = if p.cuda {
        seq![WhisperBackend::CUDA]
    } else {
        seq![]
    };
    let s1 = if p.vulkan {
        s0.push(WhisperBackend::Vulkan)
    } else {
        s0
    };
    let s2 = if p.metal {
        s1.push(WhisperBackend::Metal)
    } else {
        s1
    };
    let s3 = if p.opencl {
        s2.push(WhisperBackend::OpenCL)
    } else {
        s2
    };
    s3.push(WhisperBackend::CPU)
}

/// The first backend of the least priority number; the CPU when there is none.
pub open spec fn best_backend(s: Seq<WhisperBackend>) -> WhisperBackend
    decreases s.len(),
{
    if s.len() == 0 {
        WhisperBackend::CPU
    } else if s.len() == 1 {
        s[0]
    } else {
        let m = best_backend(s.drop_last());
        if priority(s.last()) < priority(m) {
            s.last()
        } else {
            m
        }
    }
}

/// The text that describes the detected backends.
pub open spec fn backend_info(available: Seq<WhisperBackend>, preferred: WhisperBackend) -> Seq<
    char,
> {
    "Available backends: ["@ + join(available.map_values(|b: WhisperBackend| backend_name(b)), ", "@)
        + "], Preferred: "@ + backend_name(preferred)
}

/// The detected GPU backends and the one preferred.
pub struct GpuDetector {
    available_backends: Vec<WhisperBackend>,
    preferred_backend: WhisperBackend,
}

/// Backends listed by priority, the most preferred first.
pub open spec fn by_priority(s: Seq<WhisperBackend>) -> bool {
    forall|i: int, j: int| 0 <= i < j < s.len() ==> priority(s[i]) < priority(s[j])
}

/// The shape of every detector: the available backends are listed by priority (so each
/// once), the CPU is among them and comes last, and the preferred backend is available.
pub open spec fn detector_shape(v: GpuDetectorView) -> bool {
    &&& by_priority(v.available)
    &&& v.available.len() > 0
    &&& v.available.last() == WhisperBackend::CPU
    &&& v.available.contains(v.preferred)
}

impl Clone for GpuDetector {
    fn clone(&self) -> (r: Self)
        ensures
            r@ == self@,
    {
        proof {
            use_type_invariant(self);
        }
        let mut available: Vec<WhisperBackend> = Vec::new();
        let mut i: usize = 0;
        while i < self.available_backends.len()
            invariant
                i <= self.available_backends@.len(),
                available@ == self.available_backends@.take(i as int),
            decreases self.available_backends@.len() - i,
        {
            available.push(self.available_backends[i]);
            assert(self.available_backends@.take(i + 1) =~= self.available_backends@.take(
                i as int,
            ).push(self.available_backends@[i as int]));
            i = i + 1;
        }
        assert(self.available_backends@.take(i as int) =~= self.available_backends@);
        GpuDetector { available_backends: available, preferred_backend: self.preferred_backend }
    }
}

impl GpuDetector {
    /// Every detector keeps the shape that detection gives it.
    #[verifier::type_invariant]
    spec fn keeps_shape(self) -> bool {
        detector_shape(self@)
    }
}

/// The detector's contents as the specification sees them.
pub struct GpuDetectorView {
    pub available: Seq<WhisperBackend>,
    pub preferred: WhisperBackend,
}

impl View for GpuDetector {
    type V = GpuDetectorView;

    closed spec fn view(&self) -> GpuDetectorView {
        GpuDetectorView { available: self.available_backends@, preferred: self.preferred_backend }
    }
}

/// Whether something exists at `path`.
///
/// Calls `std::path::Path::exists`; the answer depends on the file system, so nothing is
/// claimed of it.
#[verifier::external_body]
fn path_exists(path: &str) -> bool {
    std::path::Path::new(path).exists()
}

/// The existence test gave `b` for a path with this text.
pub open spec fn answered<F: Fn(&str) -> bool>(test: F, path: Seq<char>, b: bool) -> bool {
    exists|a: &str| a@ == path && call_ensures(test, (a,), b)
}

/// Whether the test finds one of the paths: true when it answers true for one of them,
/// asked in order; false when it answers false for each.
fn any_exists<F: Fn(&str) -> bool>(paths: &[&str], test: &F) -> (b: bool)
    requires
        forall|a: &str| call_requires(*test, (a,)),
    ensures
        b ==> exists|i: int| 0 <= i < paths@.len() && answered(*test, #[trigger] paths@[i]@, true),
        !b ==> forall|i: int| 0 <= i < paths@.len() ==> answered(*test, #[trigger] paths@[i]@, false),
{
    let mut i: usize = 0;
    while i < paths.len()
        invariant
            i <= paths@.len(),
            forall|a: &str| call_requires(*test, (a,)),
            forall|k: int| 0 <= k < i ==> answered(*test, #[trigger] paths@[k]@, false),
        decreases paths@.len() - i,
    {
        let found = test(paths[i]);
        if found {
            assert(answered(*test, paths@[i as int]@, true));
            return true;
        }
        assert(answered(*test, paths@[i as int]@, false));
        i = i + 1;
    }
    false
}

/// A kind of GPU support that is found by looking for files.
#[derive(Clone, Copy, Debug, PartialEq, Eq, Structural)]
pub enum ProbeTarget {
    /// The `nvidia-smi` program.
    Cuda,
    /// The Vulkan loader library.
    Vulkan,
    /// The OpenCL library.
    OpenCl,
}

/// The files whose presence shows a kind of GPU support, per platform.
pub open spec fn probe_path_list(platform: Platform, target: ProbeTarget) -> Seq<Seq<char>> {
    if platform == Platform::Windows {
        match target {
            ProbeTarget::Cuda => seq!["C:\\Windows\\System32\\nvidia-smi.exe"@],
            ProbeTarget::Vulkan => seq![
                "C:\\Windows\\System32\\vulkan-1.dll"@,
                "C:\\Windows\\SysWOW64\\vulkan-1.dll"@,
            ],
            ProbeTarget::OpenCl => seq![
                "C:\\Windows\\System32\\OpenCL.dll"@,
                "C:\\Windows\\SysWOW64\\OpenCL.dll"@,
            ],
        }
    } else {
        match target {
            ProbeTarget::Cuda => seq!["/usr/bin/nvidia-smi"@, "/usr/local/bin/nvidia-smi"@],
            ProbeTarget::Vulkan => seq![
                "/usr/lib/x86_64-linux-gnu/libvulkan.so.1"@,
                "/usr/lib/x86_64-linux-gnu/libvulkan.so"@,
                "/usr/lib/libvulkan.so.1"@,
                "/usr/lib/libvulkan.so"@,
            ],
            ProbeTarget::OpenCl => seq![
                "/usr/lib/x86_64-linux-gnu/libOpenCL.so.1"@,
                "/usr/lib/x86_64-linux-gnu/libOpenCL.so"@,
                "/usr/lib/libOpenCL.so.1"@,
                "/usr/lib/libOpenCL.so"@,
            ],
        }
    }
}

/// The views of a list of string slices.
pub open spec fn str_views(v: Seq<&str>) -> Seq<Seq<char>> {
    v.map_values(|s: &str| s@)
}

/// The files to look for to find a kind of GPU support on a platform.
pub fn probe_paths(platform: Platform, target: ProbeTarget) -> (r: Vec<&'static str>)
    ensures
        str_views(r@) == probe_path_list(platform, target),
{
    let r: Vec<&'static str> = if platform == Platform::Windows {
        match target {
            ProbeTarget::Cuda => vec!["C:\\Windows\\System32\\nvidia-smi.exe"],
            ProbeTarget::Vulkan => vec![
                "C:\\Windows\\System32\\vulkan-1.dll",
                "C:\\Windows\\SysWOW64\\vulkan-1.dll",
            ],
            ProbeTarget::OpenCl => vec![
                "C:\\Windows\\System32\\OpenCL.dll",
                "C:\\Windows\\SysWOW64\\OpenCL.dll",
            ],
        }
    } else {
        match target {
            ProbeTarget::Cuda => vec!["/usr/bin/nvidia-smi", "/usr/local/bin/nvidia-smi"],
            ProbeTarget::Vulkan => vec![
                "/usr/lib/x86_64-linux-gnu/libvulkan.so.1",
                "/usr/lib/x86_64-linux-gnu/libvulkan.so",
                "/usr/lib/libvulkan.so.1",
                "/usr/lib/libvulkan.so",
            ],
            ProbeTarget::OpenCl => vec![
                "/usr/lib/x86_64-linux-gnu/libOpenCL.so.1",
                "/usr/lib/x86_64-linux-gnu/libOpenCL.so",
                "/usr/lib/libOpenCL.so.1",
                "/usr/lib/libOpenCL.so",
            ],
        }
    };
    assert(str_views(r@) =~= probe_path_list(platform, target));
    r
}

/// The probe agrees with the test's answers for the files of one kind of GPU support:
/// found when the test answered true for one of them, not found when it answered false
/// for each.
pub open spec fn probed<F: Fn(&str) -> bool>(found: bool, test: F, paths: Seq<Seq<char>>) -> bool {
    &&& found ==> exists|i: int| 0 <= i < paths.len() && answered(test, #[trigger] paths[i], true)
    &&& !found ==> forall|i: int| 0 <= i < paths.len() ==> answered(test, #[trigger] paths[i], false)
}

/// Looks, with the given existence test, for the files that `probe_paths` lists for each
/// kind of GPU support; Metal is taken to be there on macOS.
pub fn probe_with<F: Fn(&str) -> bool>(platform: Platform, test: &F) -> (p: BackendProbe)
    requires
        forall|a: &str| call_requires(*test, (a,)),
    ensures
        p.metal == (platform == Platform::MacOS),
        probed(p.cuda, *test, probe_path_list(platform, ProbeTarget::Cuda)),
        probed(p.vulkan, *test, probe_path_list(platform, ProbeTarget::Vulkan)),
        probed(p.opencl, *test, probe_path_list(platform, ProbeTarget::OpenCl)),
{
    let cuda_paths = probe_paths(platform, ProbeTarget::Cuda);
    let cuda = any_exists(cuda_paths.as_slice(), test);
    let vulkan_paths = probe_paths(platform, ProbeTarget::Vulkan);
    let vulkan = any_exists(vulkan_paths.as_slice(), test);
    let metal = platform == Platform::MacOS;
    let opencl_paths = probe_paths(platform, ProbeTarget::OpenCl);
    let opencl = any_exists(opencl_paths.as_slice(), test);
    proof {
        lemma_probed(cuda, *test, cuda_paths@, probe_path_list(platform, ProbeTarget::Cuda));
        lemma_probed(vulkan, *test, vulkan_paths@, probe_path_list(platform, ProbeTarget::Vulkan));
        lemma_probed(opencl, *test, opencl_paths@, probe_path_list(platform, ProbeTarget::OpenCl));
    }
    BackendProbe { cuda, vulkan, metal, opencl }
}

proof fn lemma_probed<F: Fn(&str) -> bool>(found: bool, test: F, v: Seq<&str>, paths: Seq<Seq<char>>)
    requires
        str_views(v) == paths,
        found ==> exists|i: int| 0 <= i < v.len() && answered(test, #[trigger] v[i]@, true),
        !found ==> forall|i: int| 0 <= i < v.len() ==> answered(test, #[trigger] v[i]@, false),
    ensures
        probed(found, test, paths),
{
    assert(paths.len() == v.len());
    if found {
        let i = choose|i: int| 0 <= i < v.len() && answered(test, #[trigger] v[i]@, true);
        assert(paths[i] == v[i]@);
    } else {
        assert forall|i: int| 0 <= i < paths.len() implies answered(test, #[trigger] paths[i], false) by {
            assert(paths[i] == v[i]@);
        }
    }
}

impl GpuDetector {
    /// The priority of a backend: CUDA 1, Vulkan 2, Metal 3, OpenCL 4, CPU 5.
    pub fn backend_priority(&self, backend: &WhisperBackend) -> (p: u8)
        ensures
            p == priority(*backend),
    {
        match backend {
            WhisperBackend::CUDA => 1,
            WhisperBackend::Vulkan => 2,
            WhisperBackend::Metal => 3,
            WhisperBackend::OpenCL => 4,
            WhisperBackend::CPU => 5,
        }
    }

    /// Prefers the available backend of the least priority number.
    fn select_preferred_backend(&mut self)
        ensures
            final(self)@.available == old(self)@.available,
            final(self)@.preferred == best_backend(old(self)@.available),
    {
        proof {
            use_type_invariant(&*self);
        }
        let mut best = WhisperBackend::CPU;
        let mut i: usize = 0;
        while i < self.available_backends.len()
            invariant
                i <= self.available_backends@.len(),
                i == 0 ==> best == WhisperBackend::CPU,
                i > 0 ==> best == best_backend(self.available_backends@.take(i as int)),
            decreases self.available_backends@.len() - i,
        {
            let b = self.available_backends[i];
            proof {
                let t = self.available_backends@.take(i + 1);
                assert(t.drop_last() =~= self.available_backends@.take(i as int));
                assert(t.last() == b);
            }
            if i == 0 || self.backend_priority(&b) < self.backend_priority(&best) {
                best = b;
            }
            i = i + 1;
        }
        assert(self.available_backends@.take(self.available_backends@.len() as int)
            =~= self.available_backends@);
        proof {
            lemma_best_is_least(self.available_backends@);
        }
        self.preferred_backend = best;
    }

    /// The detector for a probe's findings.
    pub fn from_probe(probe: BackendProbe) -> (d: GpuDetector)
        ensures
            d@.available == detected_backends(probe),
            d@.preferred == best_backend(detected_backends(probe)),
            d@.preferred == d@.available[0],
    {
        let mut available: Vec<WhisperBackend> = Vec::new();
        if probe.cuda {
            available.push(WhisperBackend::CUDA);
        }
        if probe.vulkan {
            available.push(WhisperBackend::Vulkan);
        }
        if probe.metal {
            available.push(WhisperBackend::Metal);
        }
        if probe.opencl {
            available.push(WhisperBackend::OpenCL);
        }
        available.push(WhisperBackend::CPU);
        assert(available@ =~= detected_backends(probe));
        proof {
            lemma_detection_prefers_fastest(probe);
        }
        let mut d = GpuDetector { available_backends: available, preferred_backend: WhisperBackend::CPU };
        d.select_preferred_backend();
        d
    }

    /// Probes the system for GPU backends and prefers the best one found.
    ///
    /// CUDA, Vulkan and OpenCL count as found when one of the files that `probe_paths`
    /// lists for them exists; Metal is found on macOS. Which files exist is up to the
    /// machine, so the backends found are stated only as the outcome of some such probe.
    pub fn new(platform: Platform) -> (d: GpuDetector)
        ensures
            exists|p: BackendProbe|
                p.metal == (platform == Platform::MacOS) && d@.available == detected_backends(p),
            d@.preferred == best_backend(d@.available),
            d@.preferred == d@.available[0],
    {
        let probe = probe_with(platform, &|path: &str| -> (b: bool) { path_exists(path) });
        GpuDetector::from_probe(probe)
    }

    /// The preferred backend.
    pub fn get_preferred_backend(&self) -> (b: &WhisperBackend)
        ensures
            *b == self@.preferred,
            detector_shape(self@),
    {
        proof {
            use_type_invariant(self);
        }
        &self.preferred_backend
    }

    /// The available backends, best first.
    pub fn get_available_backends(&self) -> (s: &[WhisperBackend])
        ensures
            s@ == self@.available,
            detector_shape(self@),
    {
        proof {
            use_type_invariant(self);
        }
        self.available_backends.as_slice()
    }

    /// Whether a backend is available.
    pub fn is_backend_available(&self, backend: &WhisperBackend) -> (b: bool)
        ensures
            b == self@.available.contains(*backend),
            detector_shape(self@),
    {
        proof {
            use_type_invariant(self);
        }
        let mut i: usize = 0;
        while i < self.available_backends.len()
            invariant
                i <= self.available_backends@.len(),
                detector_shape(self@),
                forall|j: int| 0 <= j < i ==> self.available_backends@[j] != *backend,
            decreases self.available_backends@.len() - i,
        {
            if self.available_backends[i] == *backend {
                assert(self.available_backends@[i as int] == *backend);
                return true;
            }
            i = i + 1;
        }
        false
    }

    /// Prefers the given backend, if it is available.
    pub fn set_preferred_backend(&mut self, backend: WhisperBackend) -> (r: Result<(), String>)
        ensures
            final(self)@.available == old(self)@.available,
            match r {
                Ok(()) => old(self)@.available.contains(backend) && final(self)@.preferred
                    == backend,
                Err(m) => !old(self)@.available.contains(backend) && final(self)@.preferred
                    == old(self)@.preferred && m@ == "Backend "@ + backend_name(backend)
                    + " is not available"@,
            },
    {
        proof {
            use_type_invariant(&*self);
        }
        if self.is_backend_available(&backend) {
            self.preferred_backend = backend;
            Ok(())
        } else {
            let mut msg: Vec<char> = Vec::new();
            push_str(&mut msg, "Backend ");
            push_str(&mut msg, backend_name_exec(backend));
            push_str(&mut msg, " is not available");
            Err(string_of(msg.as_slice()))
        }
    }

    /// A description such as `"Available backends: [CUDA, CPU], Preferred: CUDA"`.
    pub fn get_backend_info(&self) -> (r: String)
        ensures
            r@ == backend_info(self@.available, self@.preferred),
    {
        let mut names: Vec<Vec<char>> = Vec::new();
        let mut i: usize = 0;
        while i < self.available_backends.len()
            invariant
                i <= self.available_backends@.len(),
                views(names@) == self.available_backends@.take(i as int).map_values(
                    |b: WhisperBackend| backend_name(b),
                ),
            decreases self.available_backends@.len() - i,
        {
            let mut n: Vec<char> = Vec::new();
            push_str(&mut n, backend_name_exec(self.available_backends[i]));
            let ghost before = names@;
            names.push(n);
            assert(views(names@) =~= views(before).push(
                backend_name(self.available_backends@[i as int]),
            ));
            assert(self.available_backends@.take(i + 1).map_values(
                |b: WhisperBackend| backend_name(b),
            ) =~= self.available_backends@.take(i as int).map_values(
                |b: WhisperBackend| backend_name(b),
            ).push(backend_name(self.available_backends@[i as int])));
            i = i + 1;
        }
        assert(self.available_backends@.take(self.available_backends@.len() as int)
            =~= self.available_backends@);
        let mut sep: Vec<char> = Vec::new();
        push_str(&mut sep, ", ");
        let joined = join_exec(&names, sep.as_slice());
        let mut out: Vec<char> = Vec::new();
        push_str(&mut out, "Available backends: [");
        push_all(&mut out, joined.as_slice());
        push_str(&mut out, "], Preferred: ");
        push_str(&mut out, backend_name_exec(self.preferred_backend));
        string_of(out.as_slice())
    }
}


/// The preferred backend of a nonempty list is one of its backends, and none of the list
/// has a smaller priority number.
pub proof fn lemma_best_is_least(s: Seq<WhisperBackend>)
    requires
        s.len() > 0,
    ensures
        s.contains(best_backend(s)),
        forall|i: int| 0 <= i < s.len() ==> priority(best_backend(s)) <= priority(#[trigger] s[i]),
    decreases s.len(),
{
    if s.len() == 1 {
        assert(s[0] == best_backend(s));
    } else {
        let t = s.drop_last();
        lemma_best_is_least(t);
        let m = best_backend(t);
        let j = choose|j: int| 0 <= j < t.len() && t[j] == m;
        assert(s[j] == m);
        assert(s[s.len() - 1] == s.last());
        assert forall|i: int| 0 <= i < s.len() implies priority(best_backend(s)) <= priority(
            #[trigger] s[i],
        ) by {
            if i < s.len() - 1 {
                assert(s[i] == t[i]);
            }
        }
    }
}

/// Whatever a probe finds, the CPU is available, it comes last, and the preferred backend
/// is the first available one: CUDA before Vulkan before Metal before OpenCL before the CPU.
pub proof fn lemma_detection_prefers_fastest(p: BackendProbe)
    ensures
        detected_backends(p).contains(WhisperBackend::CPU),
        detected_backends(p).last() == WhisperBackend::CPU,
        best_backend(detected_backends(p)) == detected_backends(p)[0],
        forall|i: int, j: int|
            0 <= i < j < detected_backends(p).len() ==> priority(detected_backends(p)[i]) < priority(
                detected_backends(p)[j],
            ),
{
    let s = detected_backends(p);
    assert(s[s.len() - 1] == WhisperBackend::CPU);
    lemma_best_is_least(s);
    let b = best_backend(s);
    let k = choose|k: int| 0 <= k < s.len() && s[k] == b;
    assert(priority(b) <= priority(s[0]));
}


/// The names a preferred backend may be given by.
pub open spec fn valid_backend_name(name: Seq<char>) -> bool {
    name == "CUDA"@ || name == "Vulkan"@ || name == "Metal"@ || name == "CPU"@ || name == "OpenCL"@
}

/// Checks a preferred backend's name; setting it is not implemented yet.
pub fn set_preferred_gpu_backend(backend: &str) -> (r: Result<String, String>)
    ensures
        valid_backend_name(backend@) ==> (r matches Ok(m) && m@ == "Preferred backend set to "@ + backend@
            + " (implementation pending)"@),
        !valid_backend_name(backend@) ==> (r matches Err(m) && m@ == "Invalid backend '"@ + backend@
            + "'. Valid options: [\"CUDA\", \"Vulkan\", \"Metal\", \"CPU\", \"OpenCL\"]"@),
{
    if str_eq(backend, "CUDA") || str_eq(backend, "Vulkan") || str_eq(backend, "Metal") || str_eq(backend, "CPU")
        || str_eq(backend, "OpenCL") {
        let mut m: Vec<char> = Vec::new();
        push_str(&mut m, "Preferred backend set to ");
        push_str(&mut m, backend);
        push_str(&mut m, " (implementation pending)");
        Ok(string_of(m.as_slice()))
    } else {
        let mut m: Vec<char> = Vec::new();
        push_str(&mut m, "Invalid backend '");
        push_str(&mut m, backend);
        push_str(&mut m, "'. Valid options: [\"CUDA\", \"Vulkan\", \"Metal\", \"CPU\", \"OpenCL\"]");
        Err(string_of(m.as_slice()))
    }
}

/// One row of the backend status.
#[derive(Clone, Debug)]
pub struct GpuBackendInfo {
    pub backend: String,
    pub available: bool,
    pub priority: i32,
    pub details: Option<String>,
}

/// The backend status rows: one per available backend, with its priority and the
/// detector's description, and a software row of priority 0, all by priority from high
/// to low.
pub fn gpu_backend_infos(detector: &GpuDetector) -> (r: Vec<GpuBackendInfo>)
    ensures
        r@.len() == detector@.available.len() + 1,
        forall|k: int| 0 <= k < detector@.available.len() ==> {
            let b = detector@.available[detector@.available.len() - 1 - k];
            &&& (#[trigger] r@[k]).backend@ == backend_name(b)
            &&& r@[k].available
            &&& r@[k].priority == priority(b) as i32
            &&& r@[k].details matches Some(d) && d@ == backend_info(detector@.available, detector@.preferred)
        },
        r@[r@.len() - 1].backend@ == "CPU"@ && r@[r@.len() - 1].priority == 0 && (r@[r@.len() - 1].details matches Some(d) && d@
            == "Software rendering - always available"@),
        forall|i: int, j: int| 0 <= i < j < r@.len() ==> r@[i].priority >= r@[j].priority,
{
    proof {
        use_type_invariant(detector);
    }
    let avail = detector.get_available_backends();
    let info = detector.get_backend_info();
    let n = avail.len();
    let mut r: Vec<GpuBackendInfo> = Vec::new();
    let mut k: usize = 0;
    while k < n
        invariant
            k <= n,
            n == avail@.len(),
            avail@ == detector@.available,
            info@ == backend_info(detector@.available, detector@.preferred),
            forall|i: int, j: int| 0 <= i < j < avail@.len() ==> priority(avail@[i]) < priority(avail@[j]),
            r@.len() == k,
            forall|q: int| 0 <= q < k ==> {
                let b = avail@[n - 1 - q];
                &&& (#[trigger] r@[q]).backend@ == backend_name(b)
                &&& r@[q].available
                &&& r@[q].priority == priority(b) as i32
                &&& r@[q].details matches Some(d) && d@ == info@
            },
        decreases n - k,
    {
        let b = avail[n - 1 - k];
        let p: u8 = detector.backend_priority(&b);
        r.push(GpuBackendInfo {
            backend: b.to_display_string(),
            available: true,
            priority: p as i32,
            details: Some(info.clone()),
        });
        k = k + 1;
    }
    r.push(GpuBackendInfo {
        backend: String::from_str("CPU"),
        available: true,
        priority: 0,
        details: Some(String::from_str("Software rendering - always available")),
    });
    assert forall|i: int, j: int| 0 <= i < j < r@.len() implies r@[i].priority >= r@[j].priority by {
        if j < n {
            assert(priority(avail@[n - 1 - j]) < priority(avail@[n - 1 - i]));
        }
    }
    r
}

} // verus!
