use kplock::config::{
    default_config_with_comments, default_temp_keyfile_path, Config, ConfigError, Platform,
    DEFAULT_ENCRYPTED_KEYFILE_PATH, DEFAULT_KEEPASSXC_BINARY, DEFAULT_TEMP_KEYFILE_PATH,
};
use kplock::paths::{absolute_path, normalize_path, path_lies_within};

fn config(encrypted: &str, temp: &str) -> Config {
    Config {
        encrypted_keyfile_path: encrypted.to_string(),
        temp_keyfile_path: temp.to_string(),
        keepassxc_binary: "keepassxc".to_string(),
    }
}

#[test]
fn default_config_values() {
    let c = Config::default();
    assert_eq!(c.encrypted_keyfile_path, "~/.clave_kp/keyfile.key.age");
    assert_eq!(c.temp_keyfile_path, "/tmp/keyfile.key");
    assert_eq!(c.keepassxc_binary, "keepassxc");
    assert_eq!(DEFAULT_ENCRYPTED_KEYFILE_PATH, "~/.clave_kp/keyfile.key.age");
    assert_eq!(DEFAULT_TEMP_KEYFILE_PATH, "/tmp/keyfile.key");
    assert_eq!(DEFAULT_KEEPASSXC_BINARY, "keepassxc");
    assert_eq!(default_temp_keyfile_path(&Platform::Unix), "/tmp/keyfile.key");
    assert_eq!(Config::default_for(&Platform::Unix), c);
}

#[test]
fn commented_config_text_of_default() {
    let text = default_config_with_comments(&Config::default());
    let expected = r#"# kplock configuration
# This file was auto-generated with default values.
# Edit the paths to match your system.

# Path to the age-encrypted keyfile.
# You can use ~ to refer to your home directory.
encrypted_keyfile_path = "~/.clave_kp/keyfile.key.age"

# Temporary path where the keyfile is decrypted while KeePassXC is open.
# The file is securely wiped when KeePassXC is closed.
temp_keyfile_path = "/tmp/keyfile.key"

# Name or full path of the KeePassXC binary.
# If it's in the system PATH, just the name is enough.
keepassxc_binary = "keepassxc"
"#;
    assert_eq!(text, expected);
}

#[test]
fn commented_config_text_parses_back_to_the_same_values() {
    let c = Config {
        encrypted_keyfile_path: "/home/alice/keys/kp.age".to_string(),
        temp_keyfile_path: "/tmp/kp.key".to_string(),
        keepassxc_binary: "/usr/bin/keepassxc".to_string(),
    };
    let text = default_config_with_comments(&c);
    let table: toml::Table = text.parse().unwrap();
    assert_eq!(table.len(), 3);
    assert_eq!(table["encrypted_keyfile_path"].as_str(), Some("/home/alice/keys/kp.age"));
    assert_eq!(table["temp_keyfile_path"].as_str(), Some("/tmp/kp.key"));
    assert_eq!(table["keepassxc_binary"].as_str(), Some("/usr/bin/keepassxc"));
}

#[test]
fn commented_config_text_escapes_quotes_backslashes_and_controls() {
    let c = Config {
        encrypted_keyfile_path: "C:\\Temp\\keyfile.key".to_string(),
        temp_keyfile_path: "/tmp/a \"b\"\nc\t\u{1}\u{7f}".to_string(),
        keepassxc_binary: "kee\u{8}\u{c}\r".to_string(),
    };
    let text = default_config_with_comments(&c);
    assert!(text.contains("encrypted_keyfile_path = \"C:\\\\Temp\\\\keyfile.key\"\n"));
    assert!(text.contains("temp_keyfile_path = \"/tmp/a \\\"b\\\"\\nc\\t\\u0001\\u007F\"\n"));
    assert!(text.contains("keepassxc_binary = \"kee\\b\\f\\r\"\n"));
}

#[test]
fn commented_config_text_with_special_characters_parses_back() {
    let c = Config {
        encrypted_keyfile_path: "C:\\Users\\bob\\keyfile.key.age".to_string(),
        temp_keyfile_path: "C:\\Temp\\keyfile.key".to_string(),
        keepassxc_binary: "say \"hi\"\nthen\t\u{1b}[0m \u{7f} ünï".to_string(),
    };
    let text = default_config_with_comments(&c);
    let table: toml::Table = text.parse().unwrap();
    assert_eq!(table.len(), 3);
    assert_eq!(table["encrypted_keyfile_path"].as_str(), Some(c.encrypted_keyfile_path.as_str()));
    assert_eq!(table["temp_keyfile_path"].as_str(), Some(c.temp_keyfile_path.as_str()));
    assert_eq!(table["keepassxc_binary"].as_str(), Some(c.keepassxc_binary.as_str()));
}

#[test]
fn commented_config_text_of_windows_default_parses_back() {
    let c = Config::default_for(&Platform::Windows { temp: None, tmp: None });
    let text = default_config_with_comments(&c);
    let table: toml::Table = text.parse().unwrap();
    assert_eq!(table["temp_keyfile_path"].as_str(), Some("C:\\Temp\\keyfile.key"));
}

#[test]
fn config_dir_and_path_below_system_directory() {
    assert_eq!(
        Config::config_dir_from(Some("/home/alice/.config".to_string())),
        Ok("/home/alice/.config/kplock".to_string())
    );
    assert_eq!(
        Config::config_path_from(Some("/home/alice/.config".to_string())),
        Ok("/home/alice/.config/kplock/config.toml".to_string())
    );
    assert_eq!(
        Config::config_path_from(Some("/home/alice/.config/".to_string())),
        Ok("/home/alice/.config/kplock/config.toml".to_string())
    );
    assert_eq!(Config::config_dir_from(None), Err(ConfigError::ConfigDirUnavailable));
    assert_eq!(Config::config_path_from(None), Err(ConfigError::ConfigDirUnavailable));
}

#[test]
fn config_path_from_the_system_ends_with_the_file_name() {
    match Config::config_path() {
        Ok(p) => assert!(p.ends_with("/kplock/config.toml")),
        Err(e) => assert_eq!(e, ConfigError::ConfigDirUnavailable),
    }
    match Config::config_dir() {
        Ok(p) => assert!(p.ends_with("/kplock")),
        Err(e) => assert_eq!(e, ConfigError::ConfigDirUnavailable),
    }
}

#[test]
fn resolve_path_with_home_expands_tilde() {
    let c = Config::default();
    let home = Some("/home/alice");
    assert_eq!(c.resolve_path_with_home("~/.clave_kp/keyfile.key.age", home), "/home/alice/.clave_kp/keyfile.key.age");
    assert_eq!(c.resolve_path_with_home("~\\keys\\k.age", home), "/home/alice/keys\\k.age");
    assert_eq!(c.resolve_path_with_home("~keys", home), "/home/alice/keys");
    assert_eq!(c.resolve_path_with_home("~", home), "/home/alice/");
    assert_eq!(c.resolve_path_with_home("~//etc/passwd", home), "/home/alice/etc/passwd");
    assert_eq!(c.resolve_path_with_home("~/\\//k", home), "/home/alice/k");
    assert_eq!(c.resolve_path_with_home("~/k", Some("/home/alice/")), "/home/alice/k");
}

#[test]
fn resolve_path_with_home_keeps_other_paths() {
    let c = Config::default();
    assert_eq!(c.resolve_path_with_home("/tmp/keyfile.key", Some("/home/alice")), "/tmp/keyfile.key");
    assert_eq!(c.resolve_path_with_home("keys/~k", Some("/home/alice")), "keys/~k");
    assert_eq!(c.resolve_path_with_home("", Some("/home/alice")), "");
    assert_eq!(c.resolve_path_with_home("~/k", None), "~/k");
}

#[test]
fn resolve_path_uses_the_system_home() {
    let c = Config::default();
    assert_eq!(c.resolve_path("/tmp/keyfile.key"), "/tmp/keyfile.key");
    assert_eq!(c.resolve_path("relative/path"), "relative/path");
    let r = c.resolve_path("~/.clave_kp/keyfile.key.age");
    assert!(r.ends_with(".clave_kp/keyfile.key.age"));
    if let Some(home) = dirs::home_dir() {
        assert!(!r.starts_with('~'));
        assert!(r.starts_with(home.to_string_lossy().as_ref()));
    }
}

#[test]
fn encryption_target_prefers_the_command_line() {
    let c = config("/home/alice/k.age", "/tmp/k");
    assert_eq!(c.encryption_target(Some("/home/alice/out.age".to_string())), "/home/alice/out.age");
    assert_eq!(c.encryption_target(None), "/home/alice/k.age");
}

#[test]
fn default_config_is_valid_for_any_home() {
    let c = Config::default();
    assert_eq!(c.validate_paths_with_home("/home/alice"), Ok(()));
    assert_eq!(c.validate_paths_with_home("/root"), Ok(()));
}

#[test]
fn validate_refuses_paths_outside_home() {
    let home = "/home/alice";
    assert_eq!(
        config("/etc/passwd", "/tmp/k").validate_paths_with_home(home),
        Err(ConfigError::EncryptedPathOutsideHome("/etc/passwd".to_string()))
    );
    assert_eq!(
        config("~/k.age", "/var/tmp/k").validate_paths_with_home(home),
        Err(ConfigError::TempPathOutsideHome("/var/tmp/k".to_string()))
    );
    assert_eq!(
        config("/etc/a", "/etc/b").validate_paths_with_home(home),
        Err(ConfigError::EncryptedPathOutsideHome("/etc/a".to_string()))
    );
    assert_eq!(
        config("/home/alice2/k.age", "/tmp/k").validate_paths_with_home(home),
        Err(ConfigError::EncryptedPathOutsideHome("/home/alice2/k.age".to_string()))
    );
    assert_eq!(
        config("/tmpfiles/k.age", "/tmp/k").validate_paths_with_home(home),
        Err(ConfigError::EncryptedPathOutsideHome("/tmpfiles/k.age".to_string()))
    );
    assert_eq!(
        config("relative/k.age", "/tmp/k").validate_paths_with_home(home),
        Err(ConfigError::EncryptedPathOutsideHome("relative/k.age".to_string()))
    );
}

#[test]
fn validate_accepts_paths_in_home_or_tmp() {
    let home = "/home/alice";
    assert_eq!(config("/home/alice/k.age", "/home/alice/tmp/k").validate_paths_with_home(home), Ok(()));
    assert_eq!(config("/tmp/k.age", "/tmp").validate_paths_with_home(home), Ok(()));
    assert_eq!(config("~/k.age", "~/k").validate_paths_with_home(home), Ok(()));
    assert_eq!(config("/home/alice", "/tmp/k").validate_paths_with_home(home), Ok(()));
    assert_eq!(config("~/keys/../k.age", "/tmp/./k").validate_paths_with_home(home), Ok(()));
    assert_eq!(config("/home/alice/", "/tmp/").validate_paths_with_home(home), Ok(()));
}

#[test]
fn validate_refuses_path_traversal() {
    let home = "/home/alice";
    assert_eq!(
        config("~/../../etc/passwd", "/tmp/k").validate_paths_with_home(home),
        Err(ConfigError::EncryptedPathOutsideHome("~/../../etc/passwd".to_string()))
    );
    assert_eq!(
        config("~/k.age", "/tmp/../etc/k").validate_paths_with_home(home),
        Err(ConfigError::TempPathOutsideHome("/tmp/../etc/k".to_string()))
    );
    assert_eq!(
        config("/home/alice/../bob/k", "/tmp/k").validate_paths_with_home(home),
        Err(ConfigError::EncryptedPathOutsideHome("/home/alice/../bob/k".to_string()))
    );
}

#[test]
fn validate_paths_from_an_unknown_home() {
    let c = Config::default();
    assert_eq!(c.validate_paths_from(None), Err(ConfigError::HomeDirUnavailable));
    assert_eq!(c.validate_paths_from(Some("/home/alice")), Ok(()));
    assert_eq!(
        config("/etc/x", "/tmp/k").validate_paths_from(Some("/home/alice")),
        Err(ConfigError::EncryptedPathOutsideHome("/etc/x".to_string()))
    );
}

#[test]
fn windows_default_temp_keyfile_path() {
    let w = |temp: Option<&str>, tmp: Option<&str>| Platform::Windows {
        temp: temp.map(|s| s.to_string()),
        tmp: tmp.map(|s| s.to_string()),
    };
    assert_eq!(default_temp_keyfile_path(&w(Some("D:\\T"), Some("E:\\U"))), "D:\\T\\keyfile.key");
    assert_eq!(default_temp_keyfile_path(&w(None, Some("E:\\U"))), "E:\\U\\keyfile.key");
    assert_eq!(default_temp_keyfile_path(&w(None, None)), "C:\\Temp\\keyfile.key");
    let c = Config::default_for(&w(None, None));
    assert_eq!(c.temp_keyfile_path, "C:\\Temp\\keyfile.key");
    assert_eq!(c.encrypted_keyfile_path, "~/.clave_kp/keyfile.key.age");
}

#[test]
fn paths_are_normalized_lexically() {
    let v = |comps: &[&str]| -> Vec<Vec<char>> { comps.iter().map(|c| c.chars().collect()).collect() };
    assert_eq!(normalize_path("/home/alice/../bob/./k"), v(&["home", "bob", "k"]));
    assert_eq!(normalize_path("/../../etc"), v(&["etc"]));
    assert_eq!(normalize_path("a/../../b"), v(&["..", "b"]));
    assert_eq!(normalize_path("//x///y/"), v(&["x", "y"]));
    assert_eq!(normalize_path(""), v(&[]));
    assert!(path_lies_within("/tmp/x", "/tmp"));
    assert!(path_lies_within("/tmp", "/tmp/"));
    assert!(!path_lies_within("/tmpx", "/tmp"));
    assert!(!path_lies_within("tmp/x", "/tmp"));
    assert!(!path_lies_within("/tmp/../x", "/tmp"));
    assert!(path_lies_within("/x", "/"));
    assert_eq!(absolute_path("k.age", "/home/alice/dir"), "/home/alice/dir/k.age");
    assert_eq!(absolute_path("./k.age", "/home/alice/"), "/home/alice/./k.age");
    assert_eq!(absolute_path("/abs/k.age", "/home/alice"), "/abs/k.age");
}

#[test]
fn check_placement_reports_the_first_offending_path() {
    let c = config("/a", "/b");
    assert_eq!(c.check_placement(true, false, false, true), Ok(()));
    assert_eq!(c.check_placement(false, true, true, false), Ok(()));
    assert_eq!(
        c.check_placement(false, false, true, true),
        Err(ConfigError::EncryptedPathOutsideHome("/a".to_string()))
    );
    assert_eq!(
        c.check_placement(false, false, false, false),
        Err(ConfigError::EncryptedPathOutsideHome("/a".to_string()))
    );
    assert_eq!(
        c.check_placement(true, true, false, false),
        Err(ConfigError::TempPathOutsideHome("/b".to_string()))
    );
}

#[test]
fn validate_paths_with_the_system_home() {
    let c = Config::default();
    match dirs::home_dir() {
        Some(_) => assert_eq!(c.validate_paths(), Ok(())),
        None => assert_eq!(c.validate_paths(), Err(ConfigError::HomeDirUnavailable)),
    }
    let bad = config("/etc/passwd", "/tmp/k");
    assert!(bad.validate_paths().is_err());
}

#[test]
fn config_error_messages() {
    assert_eq!(
        ConfigError::ConfigDirUnavailable.message(),
        "Could not determine the system configuration directory"
    );
    assert_eq!(ConfigError::HomeDirUnavailable.message(), "Could not determine user home directory");
    assert_eq!(
        ConfigError::EncryptedPathOutsideHome("/etc/x".to_string()).message(),
        "encrypted_keyfile_path '/etc/x' resolves outside the user home directory. Refusing to proceed for security reasons."
    );
    assert_eq!(
        ConfigError::TempPathOutsideHome("/var/y".to_string()).message(),
        "temp_keyfile_path '/var/y' resolves outside the user home directory. Refusing to proceed for security reasons."
    );
}
