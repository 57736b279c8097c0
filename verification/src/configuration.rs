//! The application's configuration: what `configuration.toml` may set, the
//! defaults of what it leaves out, and the values it is refused for.
//!
//! Reading the file and decoding its TOML happen at the application's edge;
//! the values found there reach `load_from_raw` as a `RawConfiguration`.
use vstd::prelude::*;

use crate::paths::{is_absolute, is_absolute_path, join, join_path, lemma_drive_paths_are_absolute};
use crate::text::{is_blank, is_blank_str, is_whitespace, owned, trim, trim_str};

verus! {

/// The hotkey used when the configuration names none.
pub const DEFAULT_SHORTCUT: &'static str = "Ctrl+Shift+Alt+L";

/// The directory, under the application's directory, that holds its data
/// by default.
pub const DEFAULT_DATA_DIRECTORY_NAME: &'static str = "data";

/// The application's directory under the user's application-data directory.
pub const APPLICATION_DIRECTORY_NAME: &'static str = "Latchnott";

/// The configuration file, next to the executable.
pub const CONFIGURATION_FILE_NAME: &'static str = "configuration.toml";

/// The abstract value of a configuration.
pub struct ConfigurationView {
    pub shortcut: Seq<char>,
    pub data_dir: Seq<char>,
    pub font_family: Option<Seq<char>>,
}

/// A validated configuration.
#[derive(Debug, Clone, PartialEq, Eq)]
pub struct Configuration {
    shortcut: String,
    data_dir: String,
    font_family: Option<String>,
}

pub open spec fn option_view(o: Option<String>) -> Option<Seq<char>> {
    match o {
        Some(s) => Some(s@),
        None => None,
    }
}

impl View for Configuration {
    type V = ConfigurationView;

    closed spec fn view(&self) -> ConfigurationView {
        ConfigurationView {
            shortcut: self.shortcut@,
            data_dir: self.data_dir@,
            font_family: option_view(self.font_family),
        }
    }
}

impl Configuration {
    /// The hotkey shortcut text.
    pub fn shortcut(&self) -> (r: &str)
        ensures
            r@ == self@.shortcut,
    {
        self.shortcut.as_str()
    }

    /// The directory that holds notes and logs.
    pub fn data_dir(&self) -> (r: &str)
        ensures
            r@ == self@.data_dir,
    {
        self.data_dir.as_str()
    }

    /// The font family of the input window, when one is configured.
    pub fn font_family(&self) -> (r: Option<&str>)
        ensures
            match r {
                Some(s) => self@.font_family == Some(s@),
                None => self@.font_family is None,
            },
    {
        match &self.font_family {
            Some(s) => Some(s.as_str()),
            None => None,
        }
    }
}

/// Why a configuration was refused.
#[derive(Debug, Clone, PartialEq, Eq)]
pub struct ConfigurationError {
    message: String,
}

impl View for ConfigurationError {
    type V = Seq<char>;

    closed spec fn view(&self) -> Seq<char> {
        self.message@
    }
}

impl ConfigurationError {
    /// An error with the given message.
    pub fn new(message: String) -> (r: Self)
        ensures
            r@ == message@,
    {
        ConfigurationError { message }
    }

    /// The error's message.
    pub fn message(&self) -> (r: &str)
        ensures
            r@ == self@,
    {
        self.message.as_str()
    }

    /// The error's message, as its `Display` would write it.
    pub fn to_string(&self) -> (r: String)
        ensures
            r@ == self@,
    {
        owned(self.message.as_str())
    }
}

/// The values that `configuration.toml` gave, each `None` where the file
/// leaves it out: `hotkey.shortcut`, `storage.data_dir`, `ui.font_family`.
#[derive(Debug, Clone, PartialEq, Eq)]
pub struct RawConfiguration {
    pub shortcut: Option<String>,
    pub data_dir: Option<String>,
    pub font_family: Option<String>,
}

pub open spec fn empty_shortcut_text() -> Seq<char> {
    "hotkey.shortcut must not be empty"@
}

pub open spec fn empty_data_dir_text() -> Seq<char> {
    "storage.data_dir must not be empty"@
}

pub open spec fn empty_font_family_text() -> Seq<char> {
    "ui.font_family must not be empty when specified"@
}

/// The data directory: a configured one, relative to the configuration's
/// directory unless absolute; else the default, or the reason it is missing.
pub open spec fn resolved_data_dir(
    configured: Option<Seq<char>>,
    configuration_directory: Seq<char>,
    default_data_dir: Result<Seq<char>, Seq<char>>,
) -> Result<Seq<char>, Seq<char>> {
    match configured {
        Some(value) => if is_blank(value) {
            Err(empty_data_dir_text())
        } else if is_absolute(value) {
            Ok(value)
        } else {
            Ok(join(configuration_directory, value))
        },
        None => default_data_dir,
    }
}

/// The font family: none, or the configured one trimmed, which must not be
/// empty.
pub open spec fn resolved_font_family(configured: Option<Seq<char>>) -> Result<
    Option<Seq<char>>,
    Seq<char>,
> {
    match configured {
        None => Ok(None),
        Some(value) => if trim(value).len() == 0 {
            Err(empty_font_family_text())
        } else {
            Ok(Some(trim(value)))
        },
    }
}

/// The configuration that raw values give, or the message of the first
/// check that refuses them (shortcut, then data directory, then font).
pub open spec fn configuration_from(
    shortcut: Option<Seq<char>>,
    data_dir: Option<Seq<char>>,
    font_family: Option<Seq<char>>,
    configuration_directory: Seq<char>,
    default_data_dir: Result<Seq<char>, Seq<char>>,
) -> Result<ConfigurationView, Seq<char>> {
    let shortcut = match shortcut {
        Some(s) => s,
        None => DEFAULT_SHORTCUT@,
    };
    if is_blank(shortcut) {
        Err(empty_shortcut_text())
    } else {
        match resolved_data_dir(data_dir, configuration_directory, default_data_dir) {
            Err(e) => Err(e),
            Ok(dir) => match resolved_font_family(font_family) {
                Err(e) => Err(e),
                Ok(font) => Ok(ConfigurationView { shortcut, data_dir: dir, font_family: font }),
            },
        }
    }
}

pub open spec fn error_view(r: Result<String, ConfigurationError>) -> Result<Seq<char>, Seq<char>> {
    match r {
        Ok(s) => Ok(s@),
        Err(e) => Err(e@),
    }
}

/// The default data directory under a user's application-data directory:
/// `<base>\Latchnott\data`.
pub open spec fn default_data_dir_text(base: Seq<char>) -> Seq<char> {
    join(join(base, APPLICATION_DIRECTORY_NAME@), DEFAULT_DATA_DIRECTORY_NAME@)
}

/// Builds `default_data_dir_text`.
pub fn default_data_dir_under(base: &str) -> (r: String)
    ensures
        r@ == default_data_dir_text(base@),
{
    let application = join_path(base, APPLICATION_DIRECTORY_NAME);
    join_path(application.as_str(), DEFAULT_DATA_DIRECTORY_NAME)
}

fn validate_shortcut(shortcut: &str) -> (r: Result<(), ConfigurationError>)
    ensures
        match r {
            Ok(()) => !is_blank(shortcut@),
            Err(e) => is_blank(shortcut@) && e@ == empty_shortcut_text(),
        },
{
    if is_blank_str(shortcut) {
        return Err(ConfigurationError::new(owned("hotkey.shortcut must not be empty")));
    }
    Ok(())
}

fn normalize_data_dir(
    configured_data_dir: Option<&str>,
    configuration_directory: &str,
    default_data_dir: Result<String, ConfigurationError>,
) -> (r: Result<String, ConfigurationError>)
    ensures
        error_view(r) == resolved_data_dir(
            match configured_data_dir {
                Some(v) => Some(v@),
                None => None,
            },
            configuration_directory@,
            error_view(default_data_dir),
        ),
{
    match configured_data_dir {
        Some(value) => {
            if is_blank_str(value) {
                return Err(ConfigurationError::new(owned("storage.data_dir must not be empty")));
            }
            if is_absolute_path(value) {
                Ok(owned(value))
            } else {
                Ok(join_path(configuration_directory, value))
            }
        },
        None => default_data_dir,
    }
}

fn normalize_font_family(font_family: Option<String>) -> (r: Result<
    Option<String>,
    ConfigurationError,
>)
    ensures
        match (r, resolved_font_family(option_view(font_family))) {
            (Ok(f), Ok(g)) => option_view(f) == g,
            (Err(e), Err(m)) => e@ == m,
            _ => false,
        },
{
    match font_family {
        None => Ok(None),
        Some(value) => {
            let normalized = trim_str(value.as_str());
            if normalized.as_str().is_empty() {
                return Err(
                    ConfigurationError::new(owned("ui.font_family must not be empty when specified")),
                );
            }
            Ok(Some(normalized))
        },
    }
}

/// Validates the values a configuration file gave and fills in the
/// defaults: the shortcut defaults to `Ctrl+Shift+Alt+L` and must not be
/// blank; a configured data directory must not be blank and, unless
/// absolute, is taken relative to `configuration_directory`; without one,
/// `default_data_dir` is used (its error is returned when it has none); a
/// configured font family is trimmed and must not be empty.
pub fn load_from_raw(
    raw: RawConfiguration,
    configuration_directory: &str,
    default_data_dir: Result<String, ConfigurationError>,
) -> (r: Result<Configuration, ConfigurationError>)
    ensures
        match (
            r,
            configuration_from(
                option_view(raw.shortcut),
                option_view(raw.data_dir),
                option_view(raw.font_family),
                configuration_directory@,
                error_view(default_data_dir),
            ),
        ) {
            (Ok(c), Ok(v)) => c@ == v,
            (Err(e), Err(m)) => e@ == m,
            _ => false,
        },
{
    let shortcut = match raw.shortcut {
        Some(s) => s,
        None => owned(DEFAULT_SHORTCUT),
    };
    validate_shortcut(shortcut.as_str())?;
    let configured_data_dir = match &raw.data_dir {
        Some(s) => Some(s.as_str()),
        None => None,
    };
    let data_dir = normalize_data_dir(configured_data_dir, configuration_directory, default_data_dir)?;
    let font_family = normalize_font_family(raw.font_family)?;
    Ok(Configuration { shortcut, data_dir, font_family })
}

/// An empty configuration takes every default: the default shortcut, the
/// default data directory, and no font family.
pub proof fn lemma_empty_configuration_uses_defaults(
    configuration_directory: Seq<char>,
    default_data_dir: Seq<char>,
)
    ensures
        configuration_from(None, None, None, configuration_directory, Ok(default_data_dir))
            == Ok::<ConfigurationView, Seq<char>>(
            ConfigurationView {
                shortcut: DEFAULT_SHORTCUT@,
                data_dir: default_data_dir,
                font_family: None,
            },
        ),
{
    reveal_strlit("Ctrl+Shift+Alt+L");
    assert(DEFAULT_SHORTCUT@[0] == 'C');
}

/// A configured data directory is kept as it is when absolute, and taken
/// relative to the configuration's directory (never the working directory)
/// when not; a blank one is refused.
pub proof fn lemma_data_dir_resolution(
    value: Seq<char>,
    configuration_directory: Seq<char>,
    default_data_dir: Result<Seq<char>, Seq<char>>,
)
    ensures
        is_blank(value) ==> resolved_data_dir(
            Some(value),
            configuration_directory,
            default_data_dir,
        ) == Err::<Seq<char>, Seq<char>>(empty_data_dir_text()),
        !is_blank(value) && is_absolute(value) ==> resolved_data_dir(
            Some(value),
            configuration_directory,
            default_data_dir,
        ) == Ok::<Seq<char>, Seq<char>>(value),
        !is_blank(value) && !is_absolute(value) ==> resolved_data_dir(
            Some(value),
            configuration_directory,
            default_data_dir,
        ) == Ok::<Seq<char>, Seq<char>>(join(configuration_directory, value)),
{
}

/// A data directory configured on a drive, a letter `A` to `Z` or `a` to
/// `z`, a colon and a separator, is kept exactly as configured, whatever the
/// configuration's directory.
pub proof fn lemma_drive_data_dir_is_kept(
    drive: char,
    sep: char,
    rest: Seq<char>,
    configuration_directory: Seq<char>,
    default_data_dir: Result<Seq<char>, Seq<char>>,
)
    requires
        ('A' <= drive <= 'Z') || ('a' <= drive <= 'z'),
        sep == '\\' || sep == '/',
    ensures
        resolved_data_dir(Some(seq![drive, ':', sep] + rest), configuration_directory, default_data_dir)
            == Ok::<Seq<char>, Seq<char>>(seq![drive, ':', sep] + rest),
{
    let p = seq![drive, ':', sep] + rest;
    lemma_drive_paths_are_absolute(drive, sep, rest, configuration_directory);
    assert(p[0] == drive);
    assert(!is_whitespace(p[0]));
    assert(!is_blank(p));
}

} // verus!
