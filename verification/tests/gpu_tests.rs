use voicetype::gpu::{probe_with, probe_paths, ProbeTarget, gpu_backend_infos, set_preferred_gpu_backend, BackendProbe, GpuDetector, WhisperBackend};
use voicetype::platform::Platform;

#[test]
fn test_gpu_detector_creation() {
    let detector = GpuDetector::new(Platform::Linux);
    assert!(!detector.get_available_backends().is_empty());
    assert!(detector.is_backend_available(&WhisperBackend::CPU));
}

#[test]
fn test_backend_priority() {
    let detector = GpuDetector::new(Platform::Linux);
    assert_eq!(detector.backend_priority(&WhisperBackend::CUDA), 1);
    assert_eq!(detector.backend_priority(&WhisperBackend::Vulkan), 2);
    assert_eq!(detector.backend_priority(&WhisperBackend::CPU), 5);
}

#[test]
fn probe_results_give_ordered_backends() {
    let d = GpuDetector::from_probe(BackendProbe { cuda: false, vulkan: true, metal: false, opencl: true });
    assert_eq!(d.get_available_backends(), &[WhisperBackend::Vulkan, WhisperBackend::OpenCL, WhisperBackend::CPU]);
    assert_eq!(*d.get_preferred_backend(), WhisperBackend::Vulkan);
    assert_eq!(d.get_backend_info(), "Available backends: [Vulkan, OpenCL, CPU], Preferred: Vulkan");
    let none = GpuDetector::from_probe(BackendProbe { cuda: false, vulkan: false, metal: false, opencl: false });
    assert_eq!(none.get_available_backends(), &[WhisperBackend::CPU]);
    assert_eq!(*none.get_preferred_backend(), WhisperBackend::CPU);
    let all = GpuDetector::from_probe(BackendProbe { cuda: true, vulkan: true, metal: true, opencl: true });
    assert_eq!(*all.get_preferred_backend(), WhisperBackend::CUDA);
    assert_eq!(all.get_available_backends().len(), 5);
}

#[test]
fn preferred_backend_can_be_set_only_when_available() {
    let mut d = GpuDetector::from_probe(BackendProbe { cuda: true, vulkan: false, metal: false, opencl: false });
    assert_eq!(d.set_preferred_backend(WhisperBackend::CPU), Ok(()));
    assert_eq!(*d.get_preferred_backend(), WhisperBackend::CPU);
    assert_eq!(d.set_preferred_backend(WhisperBackend::Metal), Err("Backend Metal is not available".to_string()));
    assert_eq!(*d.get_preferred_backend(), WhisperBackend::CPU);
}

#[test]
fn macos_detection_includes_metal() {
    let d = GpuDetector::new(Platform::MacOS);
    assert!(d.is_backend_available(&WhisperBackend::Metal));
    assert!(d.is_backend_available(&WhisperBackend::CPU));
    assert_eq!(WhisperBackend::OpenCL.to_display_string(), "OpenCL");
    assert_eq!(WhisperBackend::default(), WhisperBackend::CPU);
}

#[test]
fn backend_status_rows_by_priority() {
    let d = GpuDetector::from_probe(BackendProbe { cuda: true, vulkan: false, metal: false, opencl: true });
    let rows = gpu_backend_infos(&d);
    let names: Vec<&str> = rows.iter().map(|r| r.backend.as_str()).collect();
    assert_eq!(names, vec!["CPU", "OpenCL", "CUDA", "CPU"]);
    let prios: Vec<i32> = rows.iter().map(|r| r.priority).collect();
    assert_eq!(prios, vec![5, 4, 1, 0]);
    let info = "Available backends: [CUDA, OpenCL, CPU], Preferred: CUDA";
    assert_eq!(rows[0].details.as_deref(), Some(info));
    assert_eq!(rows[3].details.as_deref(), Some("Software rendering - always available"));
    assert!(rows.iter().all(|r| r.available));
    let copy = d.clone();
    assert_eq!(copy.get_available_backends(), d.get_available_backends());
}

#[test]
fn preferred_gpu_backend_names() {
    assert_eq!(set_preferred_gpu_backend("Vulkan"), Ok("Preferred backend set to Vulkan (implementation pending)".to_string()));
    assert_eq!(
        set_preferred_gpu_backend("TPU"),
        Err("Invalid backend 'TPU'. Valid options: [\"CUDA\", \"Vulkan\", \"Metal\", \"CPU\", \"OpenCL\"]".to_string())
    );
    assert!(set_preferred_gpu_backend("cuda").is_err());
}

#[test]
fn probe_paths_per_platform() {
    assert_eq!(probe_paths(Platform::Windows, ProbeTarget::Cuda), vec!["C:\\Windows\\System32\\nvidia-smi.exe"]);
    assert_eq!(probe_paths(Platform::Linux, ProbeTarget::Cuda), vec!["/usr/bin/nvidia-smi", "/usr/local/bin/nvidia-smi"]);
    assert_eq!(
        probe_paths(Platform::Windows, ProbeTarget::Vulkan),
        vec!["C:\\Windows\\System32\\vulkan-1.dll", "C:\\Windows\\SysWOW64\\vulkan-1.dll"]
    );
    assert_eq!(probe_paths(Platform::MacOS, ProbeTarget::Vulkan)[0], "/usr/lib/x86_64-linux-gnu/libvulkan.so.1");
    assert_eq!(
        probe_paths(Platform::Linux, ProbeTarget::OpenCl),
        vec![
            "/usr/lib/x86_64-linux-gnu/libOpenCL.so.1",
            "/usr/lib/x86_64-linux-gnu/libOpenCL.so",
            "/usr/lib/libOpenCL.so.1",
            "/usr/lib/libOpenCL.so",
        ]
    );
    assert_eq!(probe_paths(Platform::Windows, ProbeTarget::OpenCl)[1], "C:\\Windows\\SysWOW64\\OpenCL.dll");
}

#[test]
fn probe_asks_each_kind_about_its_own_files() {
    let only_opencl = |p: &str| p == "/usr/lib/libOpenCL.so";
    let p = probe_with(Platform::Linux, &only_opencl);
    assert!(!p.cuda && !p.vulkan && !p.metal && p.opencl);
    let smi = |p: &str| p == "C:\\Windows\\System32\\nvidia-smi.exe";
    let w = probe_with(Platform::Windows, &smi);
    assert!(w.cuda && !w.vulkan && !w.opencl && !w.metal);
    let mac = probe_with(Platform::MacOS, &|_p: &str| false);
    assert!(mac.metal && !mac.cuda);
    let d = GpuDetector::from_probe(p);
    assert_eq!(d.get_available_backends(), &[WhisperBackend::OpenCL, WhisperBackend::CPU]);
    assert_eq!(*d.get_preferred_backend(), WhisperBackend::OpenCL);
    assert!(d.is_backend_available(d.get_preferred_backend()));
}
