use vstd::prelude::*;
use crate::text::{
    chars_of, decimal, digits_value, parse_u32, parses_u32, push_all, push_decimal, push_str,
    push_signed, signed_decimal, split, split_chars, string_of, trim, trim_chars, unsigned_body,
};

verus! {

/// What was found out about the NVIDIA driver.
#[derive(Clone, Debug)]
pub struct NvidiaDriverInfo {
    pub installed: bool,
    pub driver_version: Option<String>,
    pub cuda_version: Option<String>,
    pub minimum_required: String,
    pub is_compatible: bool,
    pub gpu_name: Option<String>,
    pub error_message: Option<String>,
}

/// The oldest driver major version that runs CUDA 11.8.
pub const MIN_DRIVER_VERSION: u32 = 522;

/// The major version of a driver version such as `"560.94"`: the number before the first
/// dot, or 0 when that is not a number.
pub open spec fn driver_major(version: Seq<char>) -> nat {
    let first = split(version, '.')[0];
    if parses_u32(first) {
        digits_value(unsigned_body(first))
    } else {
        0
    }
}

/// The CUDA version a driver major version supports.
pub open spec fn cuda_for_major(major: nat) -> Seq<char> {
    if major >= 570 {
        "12.8"@
    } else if major >= 560 {
        "12.6"@
    } else if major >= 550 {
        "12.4"@
    } else if major >= 545 {
        "12.3"@
    } else if major >= 535 {
        "12.2"@
    } else if major >= 525 {
        "12.1"@
    } else if major >= 522 {
        "12.0"@
    } else if major >= 515 {
        "11.8"@
    } else {
        "11.x"@
    }
}

fn driver_major_exec(version: &[char]) -> (m: u32)
    ensures
        m == driver_major(version@),
{
    let parts = split_chars(version, '.');
    proof {
        crate::text::lemma_split_nonempty(version@, '.');
    }
    match parse_u32(parts[0].as_slice()) {
        Some(n) => n,
        None => 0,
    }
}

fn cuda_for_major_exec(major: u32) -> (r: &'static str)
    ensures
        r@ == cuda_for_major(major as nat),
{
    if major >= 570 {
        "12.8"
    } else if major >= 560 {
        "12.6"
    } else if major >= 550 {
        "12.4"
    } else if major >= 545 {
        "12.3"
    } else if major >= 535 {
        "12.2"
    } else if major >= 525 {
        "12.1"
    } else if major >= 522 {
        "12.0"
    } else if major >= 515 {
        "11.8"
    } else {
        "11.x"
    }
}

/// The CUDA version a driver supports, from its major version.
pub fn infer_cuda_version(driver_version: &str) -> (r: Option<String>)
    ensures
        r matches Some(v) && v@ == cuda_for_major(driver_major(driver_version@)),
{
    let v = chars_of(driver_version);
    let major = driver_major_exec(v.as_slice());
    Some(String::from_str(cuda_for_major_exec(major)))
}

/// What asking `nvidia-smi` for the driver version and GPU name gave.
pub enum DriverQuery {
    /// `nvidia-smi` is not installed.
    NotFound,
    /// `nvidia-smi` could not be started, with this error.
    LaunchFailed(String),
    /// `nvidia-smi` exited with this code (-1 when it had none).
    Failed(i32),
    /// `nvidia-smi` printed this.
    Output(String),
}

/// The text `"522.xx"`.
pub open spec fn minimum_text() -> Seq<char> {
    "522.xx"@
}

fn info(installed: bool, error: Vec<char>) -> (r: NvidiaDriverInfo)
    ensures
        r.installed == installed,
        r.driver_version is None,
        r.cuda_version is None,
        r.minimum_required@ == minimum_text(),
        !r.is_compatible,
        r.gpu_name is None,
        r.error_message matches Some(e) && e@ == error@,
{
    NvidiaDriverInfo {
        installed,
        driver_version: None,
        cuda_version: None,
        minimum_required: String::from_str("522.xx"),
        is_compatible: false,
        gpu_name: None,
        error_message: Some(string_of(error.as_slice())),
    }
}

/// What the driver query tells: not installed; installed but failing, with the reason;
/// or the version and GPU name from the first two comma-separated fields of the output,
/// compatible when the major version is at least 522.
pub fn driver_info(query: DriverQuery) -> (r: NvidiaDriverInfo)
    ensures
        r.minimum_required@ == minimum_text(),
        match query {
            DriverQuery::NotFound => !r.installed && !r.is_compatible && r.driver_version is None
                && (r.error_message matches Some(e) && e@
                == "NVIDIA driver not found. Please install NVIDIA GPU drivers."@),
            DriverQuery::LaunchFailed(msg) => r.installed && !r.is_compatible && r.driver_version is None
                && (r.error_message matches Some(e) && e@ == "Failed to execute nvidia-smi: "@
                + msg@ + " (driver may be corrupted)"@),
            DriverQuery::Failed(code) => r.installed && !r.is_compatible && r.driver_version is None
                && (r.error_message matches Some(e) && e@ == "nvidia-smi exited with error code: "@
                + signed_decimal(code as int)
                + ". This usually means the NVIDIA driver is corrupted or not properly installed. Please reinstall the driver."@),
            DriverQuery::Output(out) => {
                let parts = split(trim(out@), ',');
                if parts.len() < 2 {
                    r.installed && !r.is_compatible && r.driver_version is None && (r.error_message matches Some(e) && e@
                        == "Failed to parse nvidia-smi output: '"@ + trim(out@) + "'"@)
                } else {
                    let version = trim(parts[0]);
                    let major = driver_major(version);
                    &&& r.installed
                    &&& r.driver_version matches Some(v) && v@ == version
                    &&& r.gpu_name matches Some(g) && g@ == trim(parts[1])
                    &&& r.cuda_version matches Some(c) && c@ == cuda_for_major(major)
                    &&& r.is_compatible == (major >= 522)
                    &&& if major >= 522 {
                        r.error_message is None
                    } else {
                        r.error_message matches Some(e) && e@ == "Driver version "@ + version
                            + " is too old. CUDA 11.8 requires version 522.xx or higher."@
                    }
                }
            },
        },
{
    match query {
        DriverQuery::NotFound => {
            let mut e: Vec<char> = Vec::new();
            push_str(&mut e, "NVIDIA driver not found. Please install NVIDIA GPU drivers.");
            info(false, e)
        },
        DriverQuery::LaunchFailed(msg) => {
            let mut e: Vec<char> = Vec::new();
            push_str(&mut e, "Failed to execute nvidia-smi: ");
            push_str(&mut e, msg.as_str());
            push_str(&mut e, " (driver may be corrupted)");
            info(true, e)
        },
        DriverQuery::Failed(code) => {
            let mut e: Vec<char> = Vec::new();
            push_str(&mut e, "nvidia-smi exited with error code: ");
            push_signed(&mut e, code as i64);
            push_str(
                &mut e,
                ". This usually means the NVIDIA driver is corrupted or not properly installed. Please reinstall the driver.",
            );
            info(true, e)
        },
        DriverQuery::Output(out) => {
            let t = trim_chars(chars_of(out.as_str()).as_slice());
            let parts = split_chars(t.as_slice(), ',');
            if parts.len() < 2 {
                let mut e: Vec<char> = Vec::new();
                push_str(&mut e, "Failed to parse nvidia-smi output: '");
                push_all(&mut e, t.as_slice());
                push_str(&mut e, "'");
                return info(true, e);
            }
            let version = trim_chars(parts[0].as_slice());
            let gpu = trim_chars(parts[1].as_slice());
            let major = driver_major_exec(version.as_slice());
            let cuda = String::from_str(cuda_for_major_exec(major));
            let compatible = major >= MIN_DRIVER_VERSION;
            let error_message = if compatible {
                None
            } else {
                let mut e: Vec<char> = Vec::new();
                push_str(&mut e, "Driver version ");
                push_all(&mut e, version.as_slice());
                push_str(&mut e, " is too old. CUDA 11.8 requires version 522.xx or higher.");
                Some(string_of(e.as_slice()))
            };
            NvidiaDriverInfo {
                installed: true,
                driver_version: Some(string_of(version.as_slice())),
                cuda_version: Some(cuda),
                minimum_required: String::from_str("522.xx"),
                is_compatible: compatible,
                gpu_name: Some(string_of(gpu.as_slice())),
                error_message,
            }
        },
    }
}

} // verus!
