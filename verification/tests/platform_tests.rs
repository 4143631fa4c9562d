use voicetype::platform::{
    get_cuda_env_vars, get_database_dir, get_home_dir, get_logs_dir, get_models_dir,
    get_user_data_dir, is_linux, is_macos, is_windows, join_paths, HomeEnv, Platform,
};

fn linux_env() -> HomeEnv {
    HomeEnv { appdata: None, userprofile: None, home: Some("/home/alice".to_string()) }
}

fn parent_of(path: &str) -> Option<String> {
    std::path::Path::new(path).parent().map(|p| p.to_string_lossy().to_string())
}

#[test]
fn test_directories() {
    let env = linux_env();
    let user_data = get_user_data_dir(Platform::Linux, &env);
    let models_dir = get_models_dir(Platform::Linux, &env);
    let db_dir = get_database_dir(Platform::Linux, &env);
    println!("User data dir: {:?}", user_data);
    println!("Models dir: {:?}", models_dir);
    println!("Database dir: {:?}", db_dir);
}

#[test]
fn test_get_user_data_dir() {
    let data_dir = get_user_data_dir(Platform::Linux, &linux_env());
    println!("User data directory: {}", data_dir);
    assert!(data_dir.contains(".local"));
    assert_eq!(data_dir, "/home/alice/.local/share/com.martin.flash-input");

    let windows_env = HomeEnv {
        appdata: None,
        userprofile: Some("C:\\Users\\Alice".to_string()),
        home: None,
    };
    let win_dir = get_user_data_dir(Platform::Windows, &windows_env);
    println!("User data directory: {}", win_dir);
    assert!(win_dir.contains("AppData"));

    let mac_env = HomeEnv { appdata: None, userprofile: None, home: Some("/Users/alice".to_string()) };
    let mac_dir = get_user_data_dir(Platform::MacOS, &mac_env);
    println!("User data directory: {}", mac_dir);
    assert!(mac_dir.contains("Library"));
    assert_eq!(mac_dir, "/Users/alice/Library/Application Support/com.martin.flash-input");
}

#[test]
fn test_get_models_dir() {
    let env = linux_env();
    let models_dir = get_models_dir(Platform::Linux, &env);
    println!("Models directory: {}", models_dir);
    assert!(models_dir.ends_with("models"));
    assert_eq!(parent_of(&models_dir), Some(get_user_data_dir(Platform::Linux, &env)));
}

#[test]
fn test_get_logs_dir() {
    let env = linux_env();
    let logs_dir = get_logs_dir(Platform::Linux, &env);
    println!("Logs directory: {}", logs_dir);
    assert!(logs_dir.ends_with("logs"));
    assert_eq!(parent_of(&logs_dir), Some(get_user_data_dir(Platform::Linux, &env)));
}

#[test]
fn test_is_windows() {
    let result = is_windows(Platform::Linux);
    println!("Is Windows platform: {}", result);
    assert!(!result);
}

#[test]
fn test_get_cuda_env_vars() {
    let vars = get_cuda_env_vars();
    println!("CUDA environment variables to check: {:?}", vars);
    assert!(vars.contains(&"CUDA_PATH".to_string()));
    assert!(vars.contains(&"CUDA_HOME".to_string()));
    assert!(vars.contains(&"CUDA_ROOT".to_string()));
}

#[test]
fn test_platform_consistency() {
    let env = linux_env();
    let data_dir = get_user_data_dir(Platform::Linux, &env);
    let models_dir = get_models_dir(Platform::Linux, &env);
    let logs_dir = get_logs_dir(Platform::Linux, &env);
    assert!(models_dir.starts_with(&data_dir));
    assert!(logs_dir.starts_with(&data_dir));
    assert_eq!(parent_of(&models_dir), Some(data_dir.clone()));
    assert_eq!(parent_of(&logs_dir), Some(data_dir));
}

#[test]
fn platform_names_are_recognised() {
    assert_eq!(Platform::from_os_name("windows"), Platform::Windows);
    assert_eq!(Platform::from_os_name("macos"), Platform::MacOS);
    assert_eq!(Platform::from_os_name("linux"), Platform::Linux);
    assert_eq!(Platform::from_os_name("freebsd"), Platform::Other);
    assert!(is_windows(Platform::Windows));
    assert!(is_macos(Platform::MacOS));
    assert!(is_linux(Platform::Linux));
    assert!(!is_linux(Platform::MacOS));
}

#[test]
fn windows_directories_follow_the_environment() {
    let env = HomeEnv {
        appdata: Some("C:\\Users\\Bob\\AppData\\Roaming".to_string()),
        userprofile: Some("C:\\Users\\Bob".to_string()),
        home: None,
    };
    assert_eq!(
        get_models_dir(Platform::Windows, &env),
        "C:\\Users\\Bob\\AppData\\Roaming\\com.martin.flash-input\\models"
    );
    let env2 = HomeEnv { appdata: None, userprofile: Some("C:\\Users\\Bob".to_string()), home: None };
    assert_eq!(
        get_user_data_dir(Platform::Windows, &env2),
        "C:\\Users\\Bob\\AppData\\Roaming\\com.martin.flash-input"
    );
    let env3 = HomeEnv { appdata: None, userprofile: None, home: None };
    assert_eq!(
        get_user_data_dir(Platform::Windows, &env3),
        "C:\\Users\\Public\\AppData\\com.martin.flash-input"
    );
    assert_eq!(get_home_dir(Platform::Windows, &env3), "C:\\Users\\Public");
}

#[test]
fn unix_directories_without_home() {
    let env = HomeEnv { appdata: None, userprofile: None, home: None };
    assert_eq!(get_user_data_dir(Platform::Linux, &env), "./data");
    assert_eq!(get_database_dir(Platform::MacOS, &env), "./data/databases");
    assert_eq!(get_home_dir(Platform::Linux, &env), "/");
    let env2 = HomeEnv { appdata: None, userprofile: None, home: Some("/root/".to_string()) };
    assert_eq!(get_user_data_dir(Platform::Linux, &env2), "/root/.local/share/com.martin.flash-input");
    assert_eq!(join_paths(Platform::Linux, "", "x"), "x");
}
