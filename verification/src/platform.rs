use vstd::prelude::*;
use crate::text::{ends_with, push_all, push_str, starts_with, str_eq, string_of};

verus! {

/// The operating system the program runs on.
#[derive(Clone, Copy, Debug, PartialEq, Eq, Structural)]
pub enum Platform {
    Windows,
    MacOS,
    Linux,
    /// Any other system; directories are laid out as on Unix.
    Other,
}

/// The platform that an operating system name (`std::env::consts::OS`) stands for.
pub open spec fn platform_of(os: Seq<char>) -> Platform {
    if os == "windows"@ {
        Platform::Windows
    } else if os == "macos"@ {
        Platform::MacOS
    } else if os == "linux"@ {
        Platform::Linux
    } else {
        Platform::Other
    }
}

impl Platform {
    /// The platform named by an operating system name such as `"linux"`.
    pub fn from_os_name(os: &str) -> (p: Platform)
        ensures
            p == platform_of(os@),
    {
        if str_eq(os, "windows") {
            Platform::Windows
        } else if str_eq(os, "macos") {
            Platform::MacOS
        } else if str_eq(os, "linux") {
            Platform::Linux
        } else {
            Platform::Other
        }
    }
}

/// Whether the platform is Windows.
pub fn is_windows(platform: Platform) -> (b: bool)
    ensures
        b == (platform == Platform::Windows),
{
    platform == Platform::Windows
}

/// Whether the platform is macOS.
pub fn is_macos(platform: Platform) -> (b: bool)
    ensures
        b == (platform == Platform::MacOS),
{
    platform == Platform::MacOS
}

/// Whether the platform is Linux.
pub fn is_linux(platform: Platform) -> (b: bool)
    ensures
        b == (platform == Platform::Linux),
{
    platform == Platform::Linux
}

/// The environment variables that may point at a CUDA installation.
pub fn get_cuda_env_vars() -> (v: Vec<String>)
    ensures
        v@.len() == 3,
        v@[0]@ == "CUDA_PATH"@,
        v@[1]@ == "CUDA_HOME"@,
        v@[2]@ == "CUDA_ROOT"@,
{
    let mut v: Vec<String> = Vec::new();
    v.push(String::from_str("CUDA_PATH"));
    v.push(String::from_str("CUDA_HOME"));
    v.push(String::from_str("CUDA_ROOT"));
    v
}

/// The values of the environment variables that locate the user's directories.
pub struct HomeEnv {
    /// `APPDATA` (Windows).
    pub appdata: Option<String>,
    /// `USERPROFILE` (Windows).
    pub userprofile: Option<String>,
    /// `HOME` (Unix).
    pub home: Option<String>,
}

/// A path separator of the platform.
pub open spec fn is_separator(platform: Platform, c: char) -> bool {
    c == '/' || (platform == Platform::Windows && c == '\\')
}

/// `base` with the relative path `part` appended, a separator between them when `base`
/// is not empty and does not end with one.
pub open spec fn join_path(platform: Platform, base: Seq<char>, part: Seq<char>) -> Seq<char> {
    if base.len() == 0 || is_separator(platform, base.last()) {
        base + part
    } else {
        base + seq![if platform == Platform::Windows { '\\' } else { '/' }] + part
    }
}

/// The application's directory name.
pub open spec fn app_dir_name() -> Seq<char> {
    "com.martin.flash-input"@
}

/// The user data directory: under `%APPDATA%` (else `%USERPROFILE%\AppData\Roaming`, else
/// a public folder) on Windows, under `$HOME/Library/Application Support` on macOS and
/// under `$HOME/.local/share` on Linux (else `./data` on both).
pub open spec fn user_data_dir(platform: Platform, env: HomeEnv) -> Seq<char> {
    if platform == Platform::Windows {
        match env.appdata {
            Some(a) => join_path(platform, a@, app_dir_name()),
            None => match env.userprofile {
                Some(u) => join_path(
                    platform,
                    join_path(platform, join_path(platform, u@, "AppData"@), "Roaming"@),
                    app_dir_name(),
                ),
                None => "C:\\Users\\Public\\AppData\\com.martin.flash-input"@,
            },
        }
    } else if platform == Platform::MacOS {
        match env.home {
            Some(h) => join_path(
                platform,
                join_path(platform, join_path(platform, h@, "Library"@), "Application Support"@),
                app_dir_name(),
            ),
            None => "./data"@,
        }
    } else {
        match env.home {
            Some(h) => join_path(
                platform,
                join_path(platform, join_path(platform, h@, ".local"@), "share"@),
                app_dir_name(),
            ),
            None => "./data"@,
        }
    }
}

/// The user's home directory.
pub open spec fn home_dir(platform: Platform, env: HomeEnv) -> Seq<char> {
    if platform == Platform::Windows {
        match env.userprofile {
            Some(u) => u@,
            None => "C:\\Users\\Public"@,
        }
    } else {
        match env.home {
            Some(h) => h@,
            None => "/"@,
        }
    }
}

fn push_joined(platform: Platform, out: &mut Vec<char>, part: &str)
    ensures
        final(out)@ == join_path(platform, old(out)@, part@),
{
    let n = out.len();
    let need_sep = if n == 0 {
        false
    } else {
        let c = out[n - 1];
        !(c == '/' || (platform == Platform::Windows && c == '\\'))
    };
    if need_sep {
        if platform == Platform::Windows {
            out.push('\\');
        } else {
            out.push('/');
        }
    }
    push_str(out, part);
}

fn user_data_chars(platform: Platform, env: &HomeEnv) -> (r: Vec<char>)
    ensures
        r@ == user_data_dir(platform, *env),
{
    let mut out: Vec<char> = Vec::new();
    if platform == Platform::Windows {
        match &env.appdata {
            Some(a) => {
                push_str(&mut out, a.as_str());
                push_joined(platform, &mut out, "com.martin.flash-input");
            },
            None => match &env.userprofile {
                Some(u) => {
                    push_str(&mut out, u.as_str());
                    push_joined(platform, &mut out, "AppData");
                    push_joined(platform, &mut out, "Roaming");
                    push_joined(platform, &mut out, "com.martin.flash-input");
                },
                None => {
                    push_str(&mut out, "C:\\Users\\Public\\AppData\\com.martin.flash-input");
                },
            },
        }
    } else if platform == Platform::MacOS {
        match &env.home {
            Some(h) => {
                push_str(&mut out, h.as_str());
                push_joined(platform, &mut out, "Library");
                push_joined(platform, &mut out, "Application Support");
                push_joined(platform, &mut out, "com.martin.flash-input");
            },
            None => {
                push_str(&mut out, "./data");
            },
        }
    } else {
        match &env.home {
            Some(h) => {
                push_str(&mut out, h.as_str());
                push_joined(platform, &mut out, ".local");
                push_joined(platform, &mut out, "share");
                push_joined(platform, &mut out, "com.martin.flash-input");
            },
            None => {
                push_str(&mut out, "./data");
            },
        }
    }
    out
}

/// The user data directory.
pub fn get_user_data_dir(platform: Platform, env: &HomeEnv) -> (r: String)
    ensures
        r@ == user_data_dir(platform, *env),
{
    let v = user_data_chars(platform, env);
    string_of(v.as_slice())
}

/// The user's home directory.
pub fn get_home_dir(platform: Platform, env: &HomeEnv) -> (r: String)
    ensures
        r@ == home_dir(platform, *env),
{
    let mut out: Vec<char> = Vec::new();
    if platform == Platform::Windows {
        match &env.userprofile {
            Some(u) => push_str(&mut out, u.as_str()),
            None => push_str(&mut out, "C:\\Users\\Public"),
        }
    } else {
        match &env.home {
            Some(h) => push_str(&mut out, h.as_str()),
            None => push_str(&mut out, "/"),
        }
    }
    string_of(out.as_slice())
}

/// The directory where speech models are kept: `models` in the user data directory.
pub fn get_models_dir(platform: Platform, env: &HomeEnv) -> (r: String)
    ensures
        r@ == join_path(platform, user_data_dir(platform, *env), "models"@),
{
    let mut v = user_data_chars(platform, env);
    push_joined(platform, &mut v, "models");
    string_of(v.as_slice())
}

/// The directory where databases are kept: `databases` in the user data directory.
pub fn get_database_dir(platform: Platform, env: &HomeEnv) -> (r: String)
    ensures
        r@ == join_path(platform, user_data_dir(platform, *env), "databases"@),
{
    let mut v = user_data_chars(platform, env);
    push_joined(platform, &mut v, "databases");
    string_of(v.as_slice())
}

/// The directory where logs are kept: `logs` in the user data directory.
pub fn get_logs_dir(platform: Platform, env: &HomeEnv) -> (r: String)
    ensures
        r@ == join_path(platform, user_data_dir(platform, *env), "logs"@),
{
    let mut v = user_data_chars(platform, env);
    push_joined(platform, &mut v, "logs");
    string_of(v.as_slice())
}


/// `base` with the relative path `part` appended (`Path::join` on a relative part).
pub fn join_paths(platform: Platform, base: &str, part: &str) -> (r: String)
    ensures
        r@ == join_path(platform, base@, part@),
{
    let mut out: Vec<char> = Vec::new();
    push_str(&mut out, base);
    push_joined(platform, &mut out, part);
    string_of(out.as_slice())
}


/// A directory joined onto a base lies inside it: the joined path starts with the base,
/// ends with the part, and puts at most one separator between them.
pub proof fn lemma_join_inside(platform: Platform, base: Seq<char>, part: Seq<char>)
    ensures
        starts_with(join_path(platform, base, part), base),
        ends_with(join_path(platform, base, part), part),
        join_path(platform, base, part).len() <= base.len() + 1 + part.len(),
{
    let j = join_path(platform, base, part);
    assert(j.subrange(0, base.len() as int) =~= base);
    assert(j.subrange(j.len() - part.len(), j.len() as int) =~= part);
}

} // verus!
