//! The configuration of kplock: its default values, where it is stored, how
//! `~` in its paths is resolved, and the check that its paths stay inside the
//! user's home directory (or `/tmp`).
use vstd::prelude::*;
use crate::paths::{
    is_absolute, joined_path, join_paths, lies_within, path_lies_within, system_config_dir,
    system_home_dir,
};

verus! {

/// Default location of the age-encrypted keyfile.
pub const DEFAULT_ENCRYPTED_KEYFILE_PATH: &'static str = "~/.clave_kp/keyfile.key.age";

/// Default location of the decrypted keyfile while KeePassXC runs.
pub const DEFAULT_TEMP_KEYFILE_PATH: &'static str = "/tmp/keyfile.key";

/// Default name of the KeePassXC program.
pub const DEFAULT_KEEPASSXC_BINARY: &'static str = "keepassxc";

/// Name of kplock's directory inside the system configuration directory.
pub const APP_DIR_NAME: &'static str = "kplock";

/// Name of the configuration file inside kplock's directory.
pub const CONFIG_FILE_NAME: &'static str = "config.toml";

/// The one directory outside the home directory where keyfiles may live.
pub const TMP_DIR: &'static str = "/tmp";

/// Main configuration for kplock.
///
/// Stored as TOML in the user's configuration directory
/// (`~/.config/kplock/config.toml` on Linux).
#[derive(Debug, Clone, PartialEq, Eq)]
pub struct Config {
    /// Path to the age-encrypted keyfile.
    pub encrypted_keyfile_path: String,
    /// Temporary path where the keyfile is decrypted while KeePassXC is open.
    pub temp_keyfile_path: String,
    /// Name or path of the KeePassXC binary.
    pub keepassxc_binary: String,
}

/// What went wrong with the configuration, as plain values.
pub enum ConfigFault {
    ConfigDirUnavailable,
    HomeDirUnavailable,
    EncryptedPathOutsideHome(Seq<char>),
    TempPathOutsideHome(Seq<char>),
}

/// Errors of the configuration.
#[derive(Debug, Clone, PartialEq, Eq)]
pub enum ConfigError {
    /// The system configuration directory is unknown.
    ConfigDirUnavailable,
    /// The user's home directory is unknown.
    HomeDirUnavailable,
    /// The encrypted keyfile path (as configured) resolves outside the home directory.
    EncryptedPathOutsideHome(String),
    /// The temporary keyfile path (as configured) resolves outside the home directory.
    TempPathOutsideHome(String),
}

impl View for ConfigError {
    type V = ConfigFault;

    open spec fn view(&self) -> ConfigFault {
        match self {
            ConfigError::ConfigDirUnavailable => ConfigFault::ConfigDirUnavailable,
            ConfigError::HomeDirUnavailable => ConfigFault::HomeDirUnavailable,
            ConfigError::EncryptedPathOutsideHome(p) => ConfigFault::EncryptedPathOutsideHome(p@),
            ConfigError::TempPathOutsideHome(p) => ConfigFault::TempPathOutsideHome(p@),
        }
    }
}

/// A `Result` whose error is a `ConfigError`, seen with the error's view.
pub open spec fn outcome<T>(r: Result<T, ConfigError>) -> Result<T, ConfigFault> {
    match r {
        Ok(v) => Ok(v),
        Err(e) => Err(e@),
    }
}

/// A `Result` carrying a path, seen with the views of the path and the error.
pub open spec fn path_outcome(r: Result<String, ConfigError>) -> Result<Seq<char>, ConfigFault> {
    match r {
        Ok(p) => Ok(p@),
        Err(e) => Err(e@),
    }
}

pub open spec fn fault_message(f: ConfigFault) -> Seq<char> {
    match f {
        ConfigFault::ConfigDirUnavailable => "Could not determine the system configuration directory"@,
        ConfigFault::HomeDirUnavailable => "Could not determine user home directory"@,
        ConfigFault::EncryptedPathOutsideHome(p) => "encrypted_keyfile_path '"@ + p
            + OUTSIDE_HOME_SUFFIX@,
        ConfigFault::TempPathOutsideHome(p) => "temp_keyfile_path '"@ + p + OUTSIDE_HOME_SUFFIX@,
    }
}

/// The end of the message for a path that leaves the home directory.
pub const OUTSIDE_HOME_SUFFIX: &'static str =
    "' resolves outside the user home directory. Refusing to proceed for security reasons.";

impl ConfigError {
    /// The message shown to the user for this error.
    pub fn message(&self) -> (m: String)
        ensures
            m@ == fault_message(self@),
    {
        match self {
            ConfigError::ConfigDirUnavailable => String::from_str(
                "Could not determine the system configuration directory",
            ),
            ConfigError::HomeDirUnavailable => String::from_str(
                "Could not determine user home directory",
            ),
            ConfigError::EncryptedPathOutsideHome(p) => {
                let mut m = String::from_str("encrypted_keyfile_path '");
                m.append(p.as_str());
                m.append(OUTSIDE_HOME_SUFFIX);
                m
            },
            ConfigError::TempPathOutsideHome(p) => {
                let mut m = String::from_str("temp_keyfile_path '");
                m.append(p.as_str());
                m.append(OUTSIDE_HOME_SUFFIX);
                m
            },
        }
    }
}

/// The platform the defaults are chosen for, with what is read from the
/// environment on Windows.
pub enum Platform {
    /// Unix-like systems.
    Unix,
    /// Windows, with the variables `TEMP` and `TMP` where they are set (and
    /// valid Unicode).
    Windows { temp: Option<String>, tmp: Option<String> },
}

/// The temporary directory on Windows when neither `TEMP` nor `TMP` is set.
pub const WINDOWS_FALLBACK_TEMP_DIR: &'static str = "C:\\Temp";

/// The name of the temporary keyfile below the Windows temporary directory.
pub const WINDOWS_TEMP_KEYFILE_NAME: &'static str = "\\keyfile.key";

/// The default temporary keyfile path on `platform`.
pub open spec fn default_temp_path_for(platform: Platform) -> Seq<char> {
    match platform {
        Platform::Unix => DEFAULT_TEMP_KEYFILE_PATH@,
        Platform::Windows { temp, tmp } => {
            let dir = match temp {
                Some(t) => t@,
                None => match tmp {
                    Some(t) => t@,
                    None => WINDOWS_FALLBACK_TEMP_DIR@,
                },
            };
            dir + WINDOWS_TEMP_KEYFILE_NAME@
        },
    }
}

/// Returns the default temporary keyfile path for `platform`: `/tmp/keyfile.key`
/// on Unix; on Windows `keyfile.key` in the directory that `TEMP` names, else
/// `TMP`, else `C:\Temp`.
pub fn default_temp_keyfile_path(platform: &Platform) -> (p: String)
    ensures
        p@ == default_temp_path_for(*platform),
{
    match platform {
        Platform::Unix => String::from_str(DEFAULT_TEMP_KEYFILE_PATH),
        Platform::Windows { temp, tmp } => {
            let mut p = match temp {
                Some(t) => t.clone(),
                None => match tmp {
                    Some(t) => t.clone(),
                    None => String::from_str(WINDOWS_FALLBACK_TEMP_DIR),
                },
            };
            p.append(WINDOWS_TEMP_KEYFILE_NAME);
            p
        },
    }
}

impl Config {
    /// The default configuration on `platform`.
    pub fn default_for(platform: &Platform) -> (c: Self)
        ensures
            c.encrypted_keyfile_path@ == DEFAULT_ENCRYPTED_KEYFILE_PATH@,
            c.temp_keyfile_path@ == default_temp_path_for(*platform),
            c.keepassxc_binary@ == DEFAULT_KEEPASSXC_BINARY@,
    {
        Config {
            encrypted_keyfile_path: String::from_str(DEFAULT_ENCRYPTED_KEYFILE_PATH),
            temp_keyfile_path: default_temp_keyfile_path(platform),
            keepassxc_binary: String::from_str(DEFAULT_KEEPASSXC_BINARY),
        }
    }
}

impl Default for Config {
    /// The default configuration on Unix.
    fn default() -> (c: Self)
        ensures
            c.encrypted_keyfile_path@ == DEFAULT_ENCRYPTED_KEYFILE_PATH@,
            c.temp_keyfile_path@ == DEFAULT_TEMP_KEYFILE_PATH@,
            c.keepassxc_binary@ == DEFAULT_KEEPASSXC_BINARY@,
    {
        Config::default_for(&Platform::Unix)
    }
}

/// A separator after `~`: `/`, or `\` as written on Windows.
pub open spec fn is_home_separator(c: char) -> bool {
    c == '/' || c == '\\'
}

/// `s` without the separators it begins with.
pub open spec fn without_leading_separators(s: Seq<char>) -> Seq<char>
    decreases s.len(),
{
    if s.len() > 0 && is_home_separator(s[0]) {
        without_leading_separators(s.drop_first())
    } else {
        s
    }
}

/// The part of a `~`-path that follows the home directory: the path without
/// its leading `~` and without the separators (`/` or `\`) after it, so that
/// it is always taken below the home directory.
pub open spec fn home_relative_part(path: Seq<char>) -> Seq<char> {
    without_leading_separators(path.drop_first())
}

/// Whether a configured path refers to the home directory with a leading `~`.
pub open spec fn starts_at_home(path: Seq<char>) -> bool {
    path.len() > 0 && path[0] == '~'
}

/// A configured path with `~` expanded to `home`, where the home directory is known.
pub open spec fn resolved_path(path: Seq<char>, home: Option<Seq<char>>) -> Seq<char> {
    if starts_at_home(path) && home is Some {
        joined_path(home->0, home_relative_part(path))
    } else {
        path
    }
}

/// The verdict on the placement of the two keyfile paths, given whether each
/// resolved path lies in the home directory or in `/tmp`.
pub open spec fn placement_outcome(
    encrypted: Seq<char>,
    temp: Seq<char>,
    encrypted_in_home: bool,
    encrypted_in_tmp: bool,
    temp_in_home: bool,
    temp_in_tmp: bool,
) -> Result<(), ConfigFault> {
    if !(encrypted_in_home || encrypted_in_tmp) {
        Err(ConfigFault::EncryptedPathOutsideHome(encrypted))
    } else if !(temp_in_home || temp_in_tmp) {
        Err(ConfigFault::TempPathOutsideHome(temp))
    } else {
        Ok(())
    }
}

/// The verdict of the path check for the configured paths `encrypted` and `temp`
/// when the home directory is `home`.
pub open spec fn validation_outcome(encrypted: Seq<char>, temp: Seq<char>, home: Seq<char>) -> Result<
    (),
    ConfigFault,
> {
    let e = resolved_path(encrypted, Some(home));
    let t = resolved_path(temp, Some(home));
    placement_outcome(
        encrypted,
        temp,
        lies_within(e, home),
        lies_within(e, TMP_DIR@),
        lies_within(t, home),
        lies_within(t, TMP_DIR@),
    )
}

/// The configuration directory below the system one, `base`.
pub open spec fn app_config_dir(base: Seq<char>) -> Seq<char> {
    joined_path(base, APP_DIR_NAME@)
}

/// The configuration file below the system configuration directory `base`.
pub open spec fn app_config_file(base: Seq<char>) -> Seq<char> {
    joined_path(app_config_dir(base), CONFIG_FILE_NAME@)
}

/// The configuration directory that the system reports, as a path.
fn reported_config_base() -> Option<String> {
    match system_config_dir() {
        Some(d) => Some(d.into_config_base()),
        None => None,
    }
}

impl Config {
    /// The configuration directory, given what the system reports as its
    /// configuration directory.
    pub fn config_dir_from(base: Option<String>) -> (r: Result<String, ConfigError>)
        ensures
            path_outcome(r) == match base {
                Some(b) => Ok(app_config_dir(b@)),
                None => Err(ConfigFault::ConfigDirUnavailable),
            },
    {
        match base {
            Some(b) => Ok(join_paths(b.as_str(), APP_DIR_NAME)),
            None => Err(ConfigError::ConfigDirUnavailable),
        }
    }

    /// Returns the kplock configuration directory (`~/.config/kplock/` on Linux).
    pub fn config_dir() -> (r: Result<String, ConfigError>)
        ensures
            r is Err ==> path_outcome(r) == Err::<Seq<char>, _>(ConfigFault::ConfigDirUnavailable),
            r matches Ok(p) ==> exists|b: Seq<char>| p@ == #[trigger] app_config_dir(b),
    {
        Self::config_dir_from(reported_config_base())
    }

    /// The configuration file, given what the system reports as its
    /// configuration directory.
    pub fn config_path_from(base: Option<String>) -> (r: Result<String, ConfigError>)
        ensures
            path_outcome(r) == match base {
                Some(b) => Ok(app_config_file(b@)),
                None => Err(ConfigFault::ConfigDirUnavailable),
            },
    {
        let dir = Self::config_dir_from(base)?;
        Ok(join_paths(dir.as_str(), CONFIG_FILE_NAME))
    }

    /// Returns the full path to the configuration file (`config.toml`).
    pub fn config_path() -> (r: Result<String, ConfigError>)
        ensures
            r is Err ==> path_outcome(r) == Err::<Seq<char>, _>(ConfigFault::ConfigDirUnavailable),
            r matches Ok(p) ==> exists|b: Seq<char>| p@ == #[trigger] app_config_file(b),
    {
        Self::config_path_from(reported_config_base())
    }

    /// Expands a leading `~` of `path` to `home`, where `home` is known;
    /// other paths come back unchanged.
    pub fn resolve_path_with_home(&self, path: &str, home: Option<&str>) -> (r: String)
        ensures
            r@ == resolved_path(path@, match home {
                Some(h) => Some(h@),
                None => None,
            }),
    {
        let n = path.unicode_len();
        if n > 0 && path.get_char(0) == '~' {
            match home {
                Some(h) => {
                    let mut k: usize = 1;
                    while k < n && (path.get_char(k) == '/' || path.get_char(k) == '\\')
                        invariant
                            1 <= k <= n,
                            n == path@.len(),
                            without_leading_separators(path@.drop_first())
                                == without_leading_separators(path@.skip(k as int)),
                        decreases n - k,
                    {
                        assert(path@.skip(k as int).drop_first() =~= path@.skip(k + 1));
                        k = k + 1;
                    }
                    let part = path.substring_char(k, n);
                    proof {
                        assert(path@.drop_first() =~= path@.skip(1));
                        assert(part@ =~= path@.skip(k as int));
                    }
                    join_paths(h, part)
                },
                None => String::from_str(path),
            }
        } else {
            String::from_str(path)
        }
    }

    /// Expands the `~` character to the user's home directory.
    ///
    /// If the path starts with `~` and the home directory is known, `~` is
    /// replaced with it. Otherwise, the path is returned as-is.
    pub fn resolve_path(&self, path: &str) -> (r: String)
        ensures
            !starts_at_home(path@) ==> r@ == path@,
            starts_at_home(path@) ==> r@ == path@ || exists|h: Seq<char>|
                r@ == #[trigger] resolved_path(path@, Some(h)),
    {
        let n = path.unicode_len();
        if n > 0 && path.get_char(0) == '~' {
            match system_home_dir() {
                Some(h) => {
                    let r = self.resolve_path_with_home(path, Some(h.home_path()));
                    assert(r@ == resolved_path(path@, Some(h.path_view())));
                    r
                },
                None => String::from_str(path),
            }
        } else {
            String::from_str(path)
        }
    }

    /// The verdict on where the two keyfile paths lie, given for each resolved
    /// path whether it lies in the home directory and whether it lies in `/tmp`.
    pub fn check_placement(
        &self,
        encrypted_in_home: bool,
        encrypted_in_tmp: bool,
        temp_in_home: bool,
        temp_in_tmp: bool,
    ) -> (r: Result<(), ConfigError>)
        ensures
            outcome(r) == placement_outcome(
                self.encrypted_keyfile_path@,
                self.temp_keyfile_path@,
                encrypted_in_home,
                encrypted_in_tmp,
                temp_in_home,
                temp_in_tmp,
            ),
    {
        if !(encrypted_in_home || encrypted_in_tmp) {
            Err(ConfigError::EncryptedPathOutsideHome(self.encrypted_keyfile_path.clone()))
        } else if !(temp_in_home || temp_in_tmp) {
            Err(ConfigError::TempPathOutsideHome(self.temp_keyfile_path.clone()))
        } else {
            Ok(())
        }
    }

    /// Checks that both configured paths, with `~` expanded to `home`, lie in
    /// the home directory or in `/tmp`.
    pub fn validate_paths_with_home(&self, home: &str) -> (r: Result<(), ConfigError>)
        ensures
            outcome(r) == validation_outcome(
                self.encrypted_keyfile_path@,
                self.temp_keyfile_path@,
                home@,
            ),
    {
        let encrypted = self.resolve_path_with_home(self.encrypted_keyfile_path.as_str(), Some(home));
        let temp = self.resolve_path_with_home(self.temp_keyfile_path.as_str(), Some(home));
        let encrypted_in_home = path_lies_within(encrypted.as_str(), home);
        let encrypted_in_tmp = path_lies_within(encrypted.as_str(), TMP_DIR);
        let temp_in_home = path_lies_within(temp.as_str(), home);
        let temp_in_tmp = path_lies_within(temp.as_str(), TMP_DIR);
        self.check_placement(encrypted_in_home, encrypted_in_tmp, temp_in_home, temp_in_tmp)
    }

    /// The verdict of the path check, given what the system reports as the
    /// home directory: without one, the check cannot be made.
    pub fn validate_paths_from(&self, home: Option<&str>) -> (r: Result<(), ConfigError>)
        ensures
            outcome(r) == match home {
                Some(h) => validation_outcome(
                    self.encrypted_keyfile_path@,
                    self.temp_keyfile_path@,
                    h@,
                ),
                None => Err(ConfigFault::HomeDirUnavailable),
            },
    {
        match home {
            Some(h) => self.validate_paths_with_home(h),
            None => Err(ConfigError::HomeDirUnavailable),
        }
    }

    /// Validates that the configured paths resolve within the user's home
    /// directory (or `/tmp`), with `.` and `..` resolved, to refuse a
    /// configuration that would point the keyfiles elsewhere (path traversal).
    pub fn validate_paths(&self) -> (r: Result<(), ConfigError>)
        ensures
            outcome(r) == Err::<(), _>(ConfigFault::HomeDirUnavailable) || exists|h: Seq<char>|
                outcome(r) == #[trigger] validation_outcome(
                    self.encrypted_keyfile_path@,
                    self.temp_keyfile_path@,
                    h,
                ),
    {
        let home = system_home_dir();
        match home {
            Some(h) => {
                let r = self.validate_paths_from(Some(h.home_path()));
                assert(outcome(r) == validation_outcome(
                    self.encrypted_keyfile_path@,
                    self.temp_keyfile_path@,
                    h.path_view(),
                ));
                r
            },
            None => self.validate_paths_from(None),
        }
    }
}

/// Opening of the generated configuration file, up to the encrypted keyfile path.
pub const CONFIG_TEXT_HEAD: &'static str = "# kplock configuration\n# This file was auto-generated with default values.\n# Edit the paths to match your system.\n\n# Path to the age-encrypted keyfile.\n# You can use ~ to refer to your home directory.\nencrypted_keyfile_path = \"";

/// Text of the generated configuration file between the encrypted and the
/// temporary keyfile path.
pub const CONFIG_TEXT_TEMP: &'static str = "\"\n\n# Temporary path where the keyfile is decrypted while KeePassXC is open.\n# The file is securely wiped when KeePassXC is closed.\ntemp_keyfile_path = \"";

/// Text of the generated configuration file between the temporary keyfile
/// path and the name of the KeePassXC binary.
pub const CONFIG_TEXT_BINARY: &'static str = "\"\n\n# Name or full path of the KeePassXC binary.\n# If it's in the system PATH, just the name is enough.\nkeepassxc_binary = \"";

/// End of the generated configuration file.
pub const CONFIG_TEXT_TAIL: &'static str = "\"\n";

/// The uppercase hexadecimal digit of `n`, for `n` below 16.
pub open spec fn hex_digit(n: int) -> char {
    if n == 0 {
        '0'
    } else if n == 1 {
        '1'
    } else if n == 2 {
        '2'
    } else if n == 3 {
        '3'
    } else if n == 4 {
        '4'
    } else if n == 5 {
        '5'
    } else if n == 6 {
        '6'
    } else if n == 7 {
        '7'
    } else if n == 8 {
        '8'
    } else if n == 9 {
        '9'
    } else if n == 10 {
        'A'
    } else if n == 11 {
        'B'
    } else if n == 12 {
        'C'
    } else if n == 13 {
        'D'
    } else if n == 14 {
        'E'
    } else {
        'F'
    }
}

/// A control character that a TOML basic string cannot hold as it is:
/// U+0000 to U+001F, and U+007F.
pub open spec fn is_toml_control(c: char) -> bool {
    (c as int) < 0x20 || (c as int) == 0x7f
}

/// How `c` is written inside a TOML basic string: `"` and `\` behind a
/// backslash; backspace, tab, line feed, form feed and carriage return by
/// their short escapes; any other control character as `\u00XY` with two
/// uppercase hexadecimal digits; every other character as it is.
pub open spec fn toml_escape_char(c: char) -> Seq<char> {
    if c == '"' {
        seq!['\\', '"']
    } else if c == '\\' {
        seq!['\\', '\\']
    } else if c == '\u{8}' {
        seq!['\\', 'b']
    } else if c == '\t' {
        seq!['\\', 't']
    } else if c == '\n' {
        seq!['\\', 'n']
    } else if c == '\u{c}' {
        seq!['\\', 'f']
    } else if c == '\r' {
        seq!['\\', 'r']
    } else if is_toml_control(c) {
        seq!['\\', 'u', '0', '0', hex_digit((c as int) / 16), hex_digit((c as int) % 16)]
    } else {
        seq![c]
    }
}

/// `s` escaped character by character for the inside of a TOML basic string.
pub open spec fn toml_escaped(s: Seq<char>) -> Seq<char>
    decreases s.len(),
{
    if s.len() == 0 {
        Seq::empty()
    } else {
        toml_escaped(s.drop_last()) + toml_escape_char(s.last())
    }
}

fn hex_digit_str(n: u32) -> (s: &'static str)
    requires
        n < 16,
    ensures
        s@ == seq![hex_digit(n as int)],
{
    let digits = "0123456789ABCDEF";
    proof {
        reveal_strlit("0123456789ABCDEF");
    }
    let s = digits.substring_char(n as usize, n as usize + 1);
    assert(s@ =~= seq![digits@[n as int]]);
    s
}

fn append_escaped_char(out: &mut String, value: &str, i: usize)
    requires
        i < value@.len() <= usize::MAX,
    ensures
        final(out)@ == old(out)@ + toml_escape_char(value@[i as int]),
{
    let c = value.get_char(i);
    if c == '"' {
        proof {
            reveal_strlit("\\\"");
        }
        out.append("\\\"");
    } else if c == '\\' {
        proof {
            reveal_strlit("\\\\");
        }
        out.append("\\\\");
    } else if c == '\u{8}' {
        proof {
            reveal_strlit("\\b");
        }
        out.append("\\b");
    } else if c == '\t' {
        proof {
            reveal_strlit("\\t");
        }
        out.append("\\t");
    } else if c == '\n' {
        proof {
            reveal_strlit("\\n");
        }
        out.append("\\n");
    } else if c == '\u{c}' {
        proof {
            reveal_strlit("\\f");
        }
        out.append("\\f");
    } else if c == '\r' {
        proof {
            reveal_strlit("\\r");
        }
        out.append("\\r");
    } else {
        let code = c as u32;
        if code < 0x20 || code == 0x7f {
            proof {
                reveal_strlit("\\u00");
            }
            out.append("\\u00");
            out.append(hex_digit_str(code / 16));
            out.append(hex_digit_str(code % 16));
        } else {
            let one = value.substring_char(i, i + 1);
            assert(one@ =~= seq![c]);
            out.append(one);
        }
    }
}

/// Appends `value` to `out`, escaped for the inside of a TOML basic string.
pub fn append_toml_escaped(out: &mut String, value: &str)
    ensures
        final(out)@ == old(out)@ + toml_escaped(value@),
{
    let ghost start = out@;
    let n = value.unicode_len();
    let mut i: usize = 0;
    assert(value@.take(0) =~= Seq::<char>::empty());
    assert(start + Seq::<char>::empty() =~= start);
    while i < n
        invariant
            n == value@.len(),
            i <= n,
            out@ == start + toml_escaped(value@.take(i as int)),
        decreases n - i,
    {
        let ghost before = out@;
        append_escaped_char(out, value, i);
        assert(value@.take(i + 1).drop_last() =~= value@.take(i as int));
        assert(value@.take(i + 1).last() == value@[i as int]);
        assert(toml_escaped(value@.take(i + 1)) == toml_escaped(value@.take(i as int))
            + toml_escape_char(value@[i as int]));
        assert(out@ =~= start + toml_escaped(value@.take(i + 1)));
        i = i + 1;
    }
    assert(value@.take(n as int) =~= value@);
}

/// The commented TOML text written for a configuration with these three
/// values, each escaped for the TOML basic string that holds it.
pub open spec fn commented_config_text(
    encrypted: Seq<char>,
    temp: Seq<char>,
    binary: Seq<char>,
) -> Seq<char> {
    CONFIG_TEXT_HEAD@ + toml_escaped(encrypted) + CONFIG_TEXT_TEMP@ + toml_escaped(temp)
        + CONFIG_TEXT_BINARY@ + toml_escaped(binary) + CONFIG_TEXT_TAIL@
}

/// Generates TOML content for `config` with explanatory comments; each value
/// stands escaped inside a TOML basic string, so that the text reads back to
/// the same values.
pub fn default_config_with_comments(config: &Config) -> (text: String)
    ensures
        text@ == commented_config_text(
            config.encrypted_keyfile_path@,
            config.temp_keyfile_path@,
            config.keepassxc_binary@,
        ),
{
    let mut text = String::from_str(CONFIG_TEXT_HEAD);
    append_toml_escaped(&mut text, config.encrypted_keyfile_path.as_str());
    text.append(CONFIG_TEXT_TEMP);
    append_toml_escaped(&mut text, config.temp_keyfile_path.as_str());
    text.append(CONFIG_TEXT_BINARY);
    append_toml_escaped(&mut text, config.keepassxc_binary.as_str());
    text.append(CONFIG_TEXT_TAIL);
    text
}


impl Config {
    /// Where `kplock encrypt` writes the encrypted keyfile, given the home
    /// directory: the output path given on the command line, or else the
    /// configured encrypted keyfile path with `~` expanded to `home`.
    pub fn encryption_target_with_home(&self, output: Option<String>, home: Option<&str>) -> (target:
        String)
        ensures
            output matches Some(p) ==> target@ == p@,
            output is None ==> target@ == resolved_path(self.encrypted_keyfile_path@, match home {
                Some(h) => Some(h@),
                None => None,
            }),
    {
        match output {
            Some(p) => p,
            None => self.resolve_path_with_home(self.encrypted_keyfile_path.as_str(), home),
        }
    }

    /// Where `kplock encrypt` writes the encrypted keyfile: the output path
    /// given on the command line, or else the configured encrypted keyfile
    /// path with `~` expanded to the home directory that the system reports.
    pub fn encryption_target(&self, output: Option<String>) -> (target: String)
        ensures
            output matches Some(p) ==> target@ == p@,
            output is None && !starts_at_home(self.encrypted_keyfile_path@) ==> target@
                == self.encrypted_keyfile_path@,
            output is None && starts_at_home(self.encrypted_keyfile_path@) ==> target@
                == self.encrypted_keyfile_path@ || exists|h: Seq<char>|
                target@ == #[trigger] resolved_path(self.encrypted_keyfile_path@, Some(h)),
    {
        match output {
            Some(p) => p,
            None => {
                let reported = system_home_dir();
                match &reported {
                    Some(d) => {
                        let t = self.encryption_target_with_home(None, Some(d.home_path()));
                        assert(t@ == resolved_path(self.encrypted_keyfile_path@, Some(d.path_view())));
                        t
                    },
                    None => self.encryption_target_with_home(None, None),
                }
            },
        }
    }
}

/// The separators that `without_leading_separators` strips are all gone:
/// what is left does not begin with `/` or `\`.
proof fn lemma_no_leading_separator(s: Seq<char>)
    ensures
        without_leading_separators(s).len() > 0 ==> !is_home_separator(
            without_leading_separators(s)[0],
        ),
    decreases s.len(),
{
    if s.len() > 0 && is_home_separator(s[0]) {
        lemma_no_leading_separator(s.drop_first());
    }
}

/// `~` expanded to a known absolute home directory: the path begins with the
/// home directory, is absolute, holds no `~` at its start any more, and
/// expanding it again changes nothing.
pub proof fn law_home_expansion(path: Seq<char>, home: Seq<char>)
    requires
        starts_at_home(path),
        is_absolute(home),
    ensures
        resolved_path(path, Some(home)).take(home.len() as int) == home,
        is_absolute(resolved_path(path, Some(home))),
        !starts_at_home(resolved_path(path, Some(home))),
        resolved_path(resolved_path(path, Some(home)), Some(home)) == resolved_path(
            path,
            Some(home),
        ),
{
    let rest = home_relative_part(path);
    lemma_no_leading_separator(path.drop_first());
    assert(!is_absolute(rest));
    let r = resolved_path(path, Some(home));
    if home.last() != '/' {
        assert(r == home + seq!['/'] + rest);
        assert(r.take(home.len() as int) =~= home);
    } else {
        assert(r == home + rest);
        assert(r.take(home.len() as int) =~= home);
    }
    assert(r[0] == home[0]);
}

/// A path written without `~` is taken as it stands: the verdict on it does
/// not depend on the home directory's expansion. A configuration whose two
/// paths lie within the home directory (or `/tmp`) once `.` and `..` are
/// resolved is accepted, whatever the paths look like otherwise.
pub proof fn law_paths_within_home_are_accepted(
    encrypted: Seq<char>,
    temp: Seq<char>,
    home: Seq<char>,
)
    requires
        !starts_at_home(encrypted),
        !starts_at_home(temp),
        lies_within(encrypted, home) || lies_within(encrypted, TMP_DIR@),
        lies_within(temp, home) || lies_within(temp, TMP_DIR@),
    ensures
        validation_outcome(encrypted, temp, home) == Ok::<(), ConfigFault>(()),
{
}

/// A configuration that the path check accepts has both paths, with `~`
/// expanded to the home directory and `.` and `..` resolved, within the home
/// directory or `/tmp`; one that it refuses names the first path that lies
/// outside both.
pub proof fn law_path_check_verdict(encrypted: Seq<char>, temp: Seq<char>, home: Seq<char>)
    ensures
        validation_outcome(encrypted, temp, home) is Ok ==> {
            &&& lies_within(resolved_path(encrypted, Some(home)), home) || lies_within(
                resolved_path(encrypted, Some(home)),
                TMP_DIR@,
            )
            &&& lies_within(resolved_path(temp, Some(home)), home) || lies_within(
                resolved_path(temp, Some(home)),
                TMP_DIR@,
            )
        },
        validation_outcome(encrypted, temp, home) == Err::<(), ConfigFault>(
            ConfigFault::EncryptedPathOutsideHome(encrypted),
        ) <==> !(lies_within(resolved_path(encrypted, Some(home)), home) || lies_within(
            resolved_path(encrypted, Some(home)),
            TMP_DIR@,
        )),
        validation_outcome(encrypted, temp, home) == Err::<(), ConfigFault>(
            ConfigFault::TempPathOutsideHome(temp),
        ) ==> !(lies_within(resolved_path(temp, Some(home)), home) || lies_within(
            resolved_path(temp, Some(home)),
            TMP_DIR@,
        )),
{
}

/// The configuration directory is the system configuration directory `base`
/// with `kplock` below it, and the configuration file is `config.toml` in
/// that directory: `base/kplock/config.toml` (with no second `/` where `base`
/// ends with one).
pub proof fn law_config_locations(base: Seq<char>)
    requires
        base.len() > 0,
    ensures
        base.last() != '/' ==> app_config_dir(base) == base + "/kplock"@,
        base.last() == '/' ==> app_config_dir(base) == base + "kplock"@,
        base.last() != '/' ==> app_config_file(base) == base + "/kplock/config.toml"@,
        base.last() == '/' ==> app_config_file(base) == base + "kplock/config.toml"@,
{
    reveal_strlit("kplock");
    reveal_strlit("config.toml");
    reveal_strlit("/kplock");
    reveal_strlit("/kplock/config.toml");
    reveal_strlit("kplock/config.toml");
    let d = app_config_dir(base);
    if base.last() != '/' {
        assert(d =~= base + "/kplock"@);
        assert(d.last() == 'k');
        assert(app_config_file(base) =~= base + "/kplock/config.toml"@);
    } else {
        assert(d =~= base + "kplock"@);
        assert(d.last() == 'k');
        assert(app_config_file(base) =~= base + "kplock/config.toml"@);
    }
}

} // verus!
