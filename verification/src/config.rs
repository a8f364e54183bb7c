//! The configuration: profiles and settings, how they combine with the command line, and
//! reading and changing a setting by its key. Loading and saving the file is the caller's.

use crate::api::wait::{DEFAULT_POLL_INTERVAL, DEFAULT_TIMEOUT};
use crate::codec::{spec_to_lowercase, to_lowercase};
use crate::handlers::{effective_profile, effective_profile_of};
use crate::api::query::{bool_string, bool_text};
use crate::api::retry::{parse_u64, parsed_u64};
use crate::error::{VultrError, VultrResult};
use crate::text::{decimal, owned, str_eq, u64_to_decimal};
use vstd::prelude::*;

verus! {

/// How command results are shown.
#[derive(Debug, Clone, Copy, PartialEq, Eq, Structural)]
pub enum OutputFormat {
    Table,
    Json,
}

impl OutputFormat {
    /// The text of this format in the configuration and on the command line.
    pub open spec fn label(self) -> Seq<char> {
        match self {
            OutputFormat::Table => "table"@,
            OutputFormat::Json => "json"@,
        }
    }

    /// The text of this format.
    pub fn as_str(&self) -> (s: &'static str)
        ensures
            s@ == self.label(),
    {
        match self {
            OutputFormat::Table => "table",
            OutputFormat::Json => "json",
        }
    }

    /// The display form of this format as an owned string.
    pub fn to_string(&self) -> (s: String)
        ensures
            s@ == self.label(),
    {
        owned(self.as_str())
    }

    /// The format named by `s` after Unicode lower-case mapping, if any.
    pub open spec fn parsed(s: Seq<char>) -> Option<OutputFormat> {
        let k = spec_to_lowercase(s);
        if k == "table"@ {
            Some(OutputFormat::Table)
        } else if k == "json"@ {
            Some(OutputFormat::Json)
        } else {
            None
        }
    }

    /// Parse a format name; the error names the input.
    pub fn parse(s: &str) -> (r: Result<OutputFormat, String>)
        ensures
            r matches Ok(v) ==> Self::parsed(s@) == Some(v),
            r matches Err(msg) ==> Self::parsed(s@) is None && msg@ == "Unknown output format: "@ + s@,
    {
        let k = to_lowercase(s);
        if str_eq(k.as_str(), "table") {
            Ok(OutputFormat::Table)
        } else if str_eq(k.as_str(), "json") {
            Ok(OutputFormat::Json)
        } else {
            let mut msg = owned("Unknown output format: ");
            msg.append(s);
            Err(msg)
        }
    }
}

impl std::str::FromStr for OutputFormat {
    type Err = String;

    fn from_str(s: &str) -> (r: Result<Self, Self::Err>)
        ensures
            r matches Ok(v) ==> Self::parsed(s@) == Some(v),
            r matches Err(msg) ==> Self::parsed(s@) is None && msg@ == "Unknown output format: "@ + s@,
    {
        OutputFormat::parse(s)
    }
}

/// The settings of one profile.
#[derive(Debug, Clone, Copy, PartialEq, Eq, Structural)]
pub struct Profile {
    /// The output format of this profile, when it sets one.
    pub output_format: Option<OutputFormat>,
}

/// The settings of the HTTP client.
#[derive(Debug, Clone, Copy, PartialEq, Eq, Structural)]
pub struct HttpSettings {
    /// Request timeout, in seconds.
    pub timeout: u64,
    /// How often a transient failure is retried.
    pub max_retries: u32,
    /// The first backoff delay, in milliseconds.
    pub backoff_initial_ms: u64,
    /// The longest backoff delay, in milliseconds.
    pub backoff_max_ms: u64,
}

impl Default for HttpSettings {
    fn default() -> (r: Self)
        ensures
            r.timeout == 30,
            r.max_retries == 3,
            r.backoff_initial_ms == 500,
            r.backoff_max_ms == 10_000,
    {
        HttpSettings { timeout: 30, max_retries: 3, backoff_initial_ms: 500, backoff_max_ms: 10_000 }
    }
}

/// The global settings.
#[derive(Debug, Clone, Copy, PartialEq, Eq, Structural)]
pub struct Settings {
    /// The output format when neither the command line nor the profile sets one.
    pub output_format: OutputFormat,
    /// Whether destructive commands ask for confirmation.
    pub confirm_destructive: bool,
    /// How long `--wait` waits, in seconds.
    pub wait_timeout: u64,
    /// The time between two polls of `--wait`, in seconds.
    pub poll_interval: u64,
    /// The HTTP client's settings.
    pub http: HttpSettings,
}

impl Default for Settings {
    fn default() -> (r: Self)
        ensures
            r.output_format == OutputFormat::Table,
            r.confirm_destructive,
            r.wait_timeout == DEFAULT_TIMEOUT,
            r.poll_interval == DEFAULT_POLL_INTERVAL,
            r.http == (HttpSettings { timeout: 30, max_retries: 3, backoff_initial_ms: 500, backoff_max_ms: 10_000 }),
    {
        Settings {
            output_format: OutputFormat::Table,
            confirm_destructive: true,
            wait_timeout: DEFAULT_TIMEOUT,
            poll_interval: DEFAULT_POLL_INTERVAL,
            http: HttpSettings::default(),
        }
    }
}

/// The configuration: the default profile's name, the named profiles and the settings.
/// Profile names are distinct (see `has_distinct_profiles`), as the keys of the
/// configuration file's `profiles` object are.
#[derive(Debug, Clone)]
pub struct Config {
    pub default_profile: String,
    pub profiles: Vec<(String, Profile)>,
    pub settings: Settings,
}

/// The profile of the first entry named `name`; with distinct names, of the only one.
pub open spec fn profile_named(profiles: Seq<(String, Profile)>, name: Seq<char>) -> Option<Profile>
    decreases profiles.len(),
{
    if profiles.len() == 0 {
        None
    } else if profiles[0].0@ == name {
        Some(profiles[0].1)
    } else {
        profile_named(profiles.drop_first(), name)
    }
}

/// No two profiles share a name.
pub open spec fn distinct_names(profiles: Seq<(String, Profile)>) -> bool {
    forall|i: int, j: int|
        0 <= i < profiles.len() && 0 <= j < profiles.len() && i != j ==> #[trigger] profiles[i].0@
            != #[trigger] profiles[j].0@
}

impl Config {
    /// The configuration's invariant: its profile names are distinct.
    pub open spec fn has_distinct_profiles(&self) -> bool {
        distinct_names(self.profiles@)
    }
}

/// With distinct names, looking a profile up by its name gives that profile.
pub proof fn profile_lookup_finds_the_named_entry(profiles: Seq<(String, Profile)>, i: int)
    requires
        distinct_names(profiles),
        0 <= i < profiles.len(),
    ensures
        profile_named(profiles, profiles[i].0@) == Some(profiles[i].1),
    decreases i,
{
    if i > 0 {
        let rest = profiles.drop_first();
        assert(rest[i - 1] == profiles[i]);
        assert(profiles[0].0@ != profiles[i].0@);
        assert forall|a: int, b: int|
            0 <= a < rest.len() && 0 <= b < rest.len() && a != b implies #[trigger] rest[a].0@
                != #[trigger] rest[b].0@ by {
            assert(rest[a] == profiles[a + 1]);
            assert(rest[b] == profiles[b + 1]);
        }
        profile_lookup_finds_the_named_entry(rest, i - 1);
    }
}

/// Find the profile named `name`.
pub fn find_profile(profiles: &Vec<(String, Profile)>, name: &str) -> (r: Option<Profile>)
    ensures
        r == profile_named(profiles@, name@),
{
    let mut i: usize = 0;
    assert(profiles@.subrange(0, profiles@.len() as int) =~= profiles@);
    while i < profiles.len()
        invariant
            i <= profiles.len(),
            profile_named(profiles@, name@) == profile_named(profiles@.subrange(i as int, profiles@.len() as int), name@),
        decreases profiles.len() - i,
    {
        let ghost rest = profiles@.subrange(i as int, profiles@.len() as int);
        assert(rest[0] == profiles@[i as int]);
        if str_eq(profiles[i].0.as_str(), name) {
            return Some(profiles[i].1);
        }
        assert(rest.drop_first() =~= profiles@.subrange(i + 1, profiles@.len() as int));
        i = i + 1;
    }
    None
}

/// The settings of one run: the profile in effect, the output format, the wait settings and
/// whether confirmations are skipped.
#[derive(Debug, Clone)]
pub struct RunSettings {
    pub profile: String,
    pub output: OutputFormat,
    pub wait_timeout: u64,
    pub poll_interval: u64,
    pub skip_confirm: bool,
}

/// The output format of a run: the command line's, else the chosen profile's, else the
/// settings'.
pub open spec fn output_of(cli_output: Option<OutputFormat>, profile: Option<Profile>, settings: Settings) -> OutputFormat {
    match cli_output {
        Some(f) => f,
        None => match profile {
            Some(p) => match p.output_format {
                Some(f) => f,
                None => settings.output_format,
            },
            None => settings.output_format,
        },
    }
}

/// Combine the command line's options with the configuration.
pub fn resolve_run_settings(
    cli_profile: &str,
    cli_output: Option<OutputFormat>,
    yes: bool,
    cli_wait_timeout: Option<u64>,
    cli_poll_interval: Option<u64>,
    config: &Config,
) -> (r: RunSettings)
    ensures
        r.profile@ == effective_profile_of(cli_profile@, config.default_profile@),
        r.output == output_of(cli_output, profile_named(config.profiles@, r.profile@), config.settings),
        r.wait_timeout == (match cli_wait_timeout {
            Some(t) => t,
            None => config.settings.wait_timeout,
        }),
        r.poll_interval == (match cli_poll_interval {
            Some(p) => p,
            None => config.settings.poll_interval,
        }),
        r.skip_confirm == (yes || !config.settings.confirm_destructive),
{
    let profile = effective_profile(cli_profile, config.default_profile.as_str());
    let chosen = find_profile(&config.profiles, profile.as_str());
    let output = match cli_output {
        Some(f) => f,
        None => match chosen {
            Some(p) => match p.output_format {
                Some(f) => f,
                None => config.settings.output_format,
            },
            None => config.settings.output_format,
        },
    };
    let wait_timeout = match cli_wait_timeout {
        Some(t) => t,
        None => config.settings.wait_timeout,
    };
    let poll_interval = match cli_poll_interval {
        Some(p) => p,
        None => config.settings.poll_interval,
    };
    RunSettings {
        profile,
        output,
        wait_timeout,
        poll_interval,
        skip_confirm: yes || !config.settings.confirm_destructive,
    }
}

/// The message for a key that names no setting.
pub open spec fn unknown_key_message(key: Seq<char>) -> Seq<char> {
    "Unknown config key: "@ + key + VALID_KEYS@
}

/// The list of valid keys that ends the message for an unknown key.
pub const VALID_KEYS: &'static str = ". Valid keys: output_format, confirm_destructive, wait_timeout, poll_interval, default_profile, http.timeout, http.max_retries, http.backoff_initial_ms, http.backoff_max_ms";

/// The text of the setting that `key` names, or `None` when it names none.
pub open spec fn config_value(config: Config, key: Seq<char>) -> Option<Seq<char>> {
    let s = config.settings;
    if key == "output_format"@ {
        Some(s.output_format.label())
    } else if key == "confirm_destructive"@ {
        Some(bool_text(s.confirm_destructive))
    } else if key == "wait_timeout"@ {
        Some(decimal(s.wait_timeout as nat))
    } else if key == "poll_interval"@ {
        Some(decimal(s.poll_interval as nat))
    } else if key == "default_profile"@ {
        Some(config.default_profile@)
    } else if key == "http.timeout"@ {
        Some(decimal(s.http.timeout as nat))
    } else if key == "http.max_retries"@ {
        Some(decimal(s.http.max_retries as nat))
    } else if key == "http.backoff_initial_ms"@ {
        Some(decimal(s.http.backoff_initial_ms as nat))
    } else if key == "http.backoff_max_ms"@ {
        Some(decimal(s.http.backoff_max_ms as nat))
    } else {
        None
    }
}

fn unknown_key(key: &str) -> (e: VultrError)
    ensures
        e matches VultrError::InvalidInput(m) && m@ == unknown_key_message(key@),
{
    let mut m = owned("Unknown config key: ");
    m.append(key);
    m.append(VALID_KEYS);
    VultrError::InvalidInput(m)
}

/// Read a setting by its key, as `config get` shows it.
pub fn config_get(config: &Config, key: &str) -> (r: VultrResult<String>)
    ensures
        match config_value(*config, key@) {
            Some(v) => r matches Ok(t) && t@ == v,
            None => r matches Err(VultrError::InvalidInput(m)) && m@ == unknown_key_message(key@),
        },
{
    let s = &config.settings;
    if str_eq(key, "output_format") {
        Ok(s.output_format.to_string())
    } else if str_eq(key, "confirm_destructive") {
        Ok(bool_string(s.confirm_destructive))
    } else if str_eq(key, "wait_timeout") {
        Ok(u64_to_decimal(s.wait_timeout))
    } else if str_eq(key, "poll_interval") {
        Ok(u64_to_decimal(s.poll_interval))
    } else if str_eq(key, "default_profile") {
        Ok(owned(config.default_profile.as_str()))
    } else if str_eq(key, "http.timeout") {
        Ok(u64_to_decimal(s.http.timeout))
    } else if str_eq(key, "http.max_retries") {
        Ok(u64_to_decimal(s.http.max_retries as u64))
    } else if str_eq(key, "http.backoff_initial_ms") {
        Ok(u64_to_decimal(s.http.backoff_initial_ms))
    } else if str_eq(key, "http.backoff_max_ms") {
        Ok(u64_to_decimal(s.http.backoff_max_ms))
    } else {
        Err(unknown_key(key))
    }
}

/// What `str::parse::<u32>` accepts: what `str::parse::<u64>` accepts, when it fits in 32 bits.
pub open spec fn parsed_u32(s: Seq<char>) -> Option<u32> {
    match parsed_u64(s) {
        Some(n) => if n <= u32::MAX {
            Some(n as u32)
        } else {
            None
        },
        None => None,
    }
}

/// Parse an unsigned 32-bit number as `str::parse::<u32>` does.
pub fn parse_u32(s: &str) -> (r: Option<u32>)
    ensures
        r == parsed_u32(s@),
{
    match parse_u64(s) {
        Some(n) => if n <= 4294967295u64 {
            Some(n as u32)
        } else {
            None
        },
        None => None,
    }
}

/// The message for a value that is not a number.
pub open spec fn not_a_number_message() -> Seq<char> {
    "Value must be a positive integer"@
}

/// The message for a value that is not a boolean.
pub open spec fn not_a_bool_message() -> Seq<char> {
    "Value must be 'true' or 'false'"@
}

/// Settings with a new output format.
pub open spec fn with_output_format(s: Settings, f: OutputFormat) -> Settings {
    Settings { output_format: f, confirm_destructive: s.confirm_destructive, wait_timeout: s.wait_timeout, poll_interval: s.poll_interval, http: s.http }
}

/// Settings with a new confirmation flag.
pub open spec fn with_confirm(s: Settings, b: bool) -> Settings {
    Settings { output_format: s.output_format, confirm_destructive: b, wait_timeout: s.wait_timeout, poll_interval: s.poll_interval, http: s.http }
}

/// Settings with a new wait timeout.
pub open spec fn with_wait_timeout(s: Settings, n: u64) -> Settings {
    Settings { output_format: s.output_format, confirm_destructive: s.confirm_destructive, wait_timeout: n, poll_interval: s.poll_interval, http: s.http }
}

/// Settings with a new poll interval.
pub open spec fn with_poll_interval(s: Settings, n: u64) -> Settings {
    Settings { output_format: s.output_format, confirm_destructive: s.confirm_destructive, wait_timeout: s.wait_timeout, poll_interval: n, http: s.http }
}

/// Settings with new HTTP settings.
pub open spec fn with_http(s: Settings, h: HttpSettings) -> Settings {
    Settings { output_format: s.output_format, confirm_destructive: s.confirm_destructive, wait_timeout: s.wait_timeout, poll_interval: s.poll_interval, http: h }
}

/// The outcome of setting `key` to `value`: the new default profile's name and settings, or
/// the message that rejects the change.
pub open spec fn set_outcome(config: Config, key: Seq<char>, value: Seq<char>) -> Result<(Seq<char>, Settings), Seq<char>> {
    let s = config.settings;
    let h = s.http;
    let d = config.default_profile@;
    if key == "output_format"@ {
        match OutputFormat::parsed(value) {
            Some(f) => Ok((d, with_output_format(s, f))),
            None => Err("Unknown output format: "@ + value),
        }
    } else if key == "confirm_destructive"@ {
        if value == "true"@ {
            Ok((d, with_confirm(s, true)))
        } else if value == "false"@ {
            Ok((d, with_confirm(s, false)))
        } else {
            Err(not_a_bool_message())
        }
    } else if key == "wait_timeout"@ {
        match parsed_u64(value) {
            Some(n) => Ok((d, with_wait_timeout(s, n))),
            None => Err(not_a_number_message()),
        }
    } else if key == "poll_interval"@ {
        match parsed_u64(value) {
            Some(n) => Ok((d, with_poll_interval(s, n))),
            None => Err(not_a_number_message()),
        }
    } else if key == "default_profile"@ {
        Ok((value, s))
    } else if key == "http.timeout"@ {
        match parsed_u64(value) {
            Some(n) => Ok((d, with_http(s, HttpSettings { timeout: n, max_retries: h.max_retries, backoff_initial_ms: h.backoff_initial_ms, backoff_max_ms: h.backoff_max_ms }))),
            None => Err(not_a_number_message()),
        }
    } else if key == "http.max_retries"@ {
        match parsed_u32(value) {
            Some(n) => Ok((d, with_http(s, HttpSettings { timeout: h.timeout, max_retries: n, backoff_initial_ms: h.backoff_initial_ms, backoff_max_ms: h.backoff_max_ms }))),
            None => Err(not_a_number_message()),
        }
    } else if key == "http.backoff_initial_ms"@ {
        match parsed_u64(value) {
            Some(n) => Ok((d, with_http(s, HttpSettings { timeout: h.timeout, max_retries: h.max_retries, backoff_initial_ms: n, backoff_max_ms: h.backoff_max_ms }))),
            None => Err(not_a_number_message()),
        }
    } else if key == "http.backoff_max_ms"@ {
        match parsed_u64(value) {
            Some(n) => Ok((d, with_http(s, HttpSettings { timeout: h.timeout, max_retries: h.max_retries, backoff_initial_ms: h.backoff_initial_ms, backoff_max_ms: n }))),
            None => Err(not_a_number_message()),
        }
    } else {
        Err(unknown_key_message(key))
    }
}

fn invalid(msg: &str) -> (e: VultrError)
    ensures
        e matches VultrError::InvalidInput(m) && m@ == msg@,
{
    VultrError::InvalidInput(owned(msg))
}

/// Change a setting by its key, as `config set` does before saving: the value is parsed
/// for the setting's type; a rejected change leaves the configuration as it was.
pub fn config_set(config: &mut Config, key: &str, value: &str) -> (r: VultrResult<()>)
    ensures
        match set_outcome(*old(config), key@, value@) {
            Ok((d, s)) => r is Ok && final(config).default_profile@ == d && final(config).settings == s
                && final(config).profiles == old(config).profiles,
            Err(m) => r matches Err(VultrError::InvalidInput(e)) && e@ == m && *final(config) == *old(config),
        },
{
    if str_eq(key, "output_format") {
        match OutputFormat::parse(value) {
            Ok(f) => {
                config.settings.output_format = f;
                Ok(())
            },
            Err(m) => Err(VultrError::InvalidInput(m)),
        }
    } else if str_eq(key, "confirm_destructive") {
        if str_eq(value, "true") {
            config.settings.confirm_destructive = true;
            Ok(())
        } else if str_eq(value, "false") {
            config.settings.confirm_destructive = false;
            Ok(())
        } else {
            Err(invalid("Value must be 'true' or 'false'"))
        }
    } else if str_eq(key, "wait_timeout") {
        match parse_u64(value) {
            Some(n) => {
                config.settings.wait_timeout = n;
                Ok(())
            },
            None => Err(invalid("Value must be a positive integer")),
        }
    } else if str_eq(key, "poll_interval") {
        match parse_u64(value) {
            Some(n) => {
                config.settings.poll_interval = n;
                Ok(())
            },
            None => Err(invalid("Value must be a positive integer")),
        }
    } else if str_eq(key, "default_profile") {
        config.default_profile = owned(value);
        Ok(())
    } else if str_eq(key, "http.timeout") {
        match parse_u64(value) {
            Some(n) => {
                config.settings.http.timeout = n;
                Ok(())
            },
            None => Err(invalid("Value must be a positive integer")),
        }
    } else if str_eq(key, "http.max_retries") {
        match parse_u32(value) {
            Some(n) => {
                config.settings.http.max_retries = n;
                Ok(())
            },
            None => Err(invalid("Value must be a positive integer")),
        }
    } else if str_eq(key, "http.backoff_initial_ms") {
        match parse_u64(value) {
            Some(n) => {
                config.settings.http.backoff_initial_ms = n;
                Ok(())
            },
            None => Err(invalid("Value must be a positive integer")),
        }
    } else if str_eq(key, "http.backoff_max_ms") {
        match parse_u64(value) {
            Some(n) => {
                config.settings.http.backoff_max_ms = n;
                Ok(())
            },
            None => Err(invalid("Value must be a positive integer")),
        }
    } else {
        Err(unknown_key(key))
    }
}

} // verus!
