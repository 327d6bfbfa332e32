//! The CLI configuration (`~/.orion/config.toml`): its keys, how values are
//! read and written by key, and how the server URL is resolved.
use vstd::prelude::*;
use crate::strings::{push_str, str_eq};
use crate::commands::ConfigSubcommand;
use crate::text::{can_mask, mask_secret, maskable, masked, Tone};
use crate::view::{plain, span, tone_span, toned, Doc, SpanView};

verus! {

/// The CLI configuration.
pub struct OrionConfig {
    pub server_url: Option<String>,
    pub default_output: String,
    pub api_key: Option<String>,
    pub api_key_header: Option<String>,
}

/// The content of a configuration.
pub struct ConfigView {
    pub server_url: Option<Seq<char>>,
    pub default_output: Seq<char>,
    pub api_key: Option<Seq<char>>,
    pub api_key_header: Option<Seq<char>>,
}

/// The view of an optional string.
pub open spec fn opt_view(o: Option<String>) -> Option<Seq<char>> {
    match o {
        Some(s) => Some(s@),
        None => None,
    }
}

impl View for OrionConfig {
    type V = ConfigView;

    open spec fn view(&self) -> ConfigView {
        ConfigView {
            server_url: opt_view(self.server_url),
            default_output: self.default_output@,
            api_key: opt_view(self.api_key),
            api_key_header: opt_view(self.api_key_header),
        }
    }
}

/// The output format written into a configuration file that does not name
/// one.
pub fn default_output() -> (s: String)
    ensures
        s@ == "table"@,
{
    String::from_str("table")
}

impl OrionConfig {
    /// The configuration used when no file exists: every field unset and an
    /// empty output format.
    pub fn empty() -> (c: OrionConfig)
        ensures
            c@ == (ConfigView {
                server_url: None,
                default_output: Seq::<char>::empty(),
                api_key: None,
                api_key_header: None,
            }),
    {
        OrionConfig {
            server_url: None,
            default_output: String::new(),
            api_key: None,
            api_key_header: None,
        }
    }
}

impl Default for OrionConfig {
    fn default() -> (c: OrionConfig)
        ensures
            c@ == (ConfigView {
                server_url: None,
                default_output: Seq::<char>::empty(),
                api_key: None,
                api_key_header: None,
            }),
    {
        OrionConfig::empty()
    }
}

/// The keys `config get` and `config set` accept.
#[derive(Clone, Copy, PartialEq, Eq, Debug)]
pub enum ConfigKey {
    ServerUrl,
    DefaultOutput,
    ApiKey,
    ApiKeyHeader,
}

/// The key a name denotes, if any.
pub open spec fn key_of(name: Seq<char>) -> Option<ConfigKey> {
    if name == "server_url"@ {
        Some(ConfigKey::ServerUrl)
    } else if name == "default_output"@ {
        Some(ConfigKey::DefaultOutput)
    } else if name == "api_key"@ {
        Some(ConfigKey::ApiKey)
    } else if name == "api_key_header"@ {
        Some(ConfigKey::ApiKeyHeader)
    } else {
        None
    }
}

/// Recognises a configuration key by name.
pub fn parse_key(name: &str) -> (k: Option<ConfigKey>)
    ensures
        k == key_of(name@),
{
    if str_eq(name, "server_url") {
        Some(ConfigKey::ServerUrl)
    } else if str_eq(name, "default_output") {
        Some(ConfigKey::DefaultOutput)
    } else if str_eq(name, "api_key") {
        Some(ConfigKey::ApiKey)
    } else if str_eq(name, "api_key_header") {
        Some(ConfigKey::ApiKeyHeader)
    } else {
        None
    }
}

/// An optional value as `config get` prints it: empty when unset.
pub open spec fn or_empty(o: Option<Seq<char>>) -> Seq<char> {
    match o {
        Some(s) => s,
        None => Seq::<char>::empty(),
    }
}

/// The value `config get` prints for a key.
pub open spec fn config_get(c: ConfigView, k: ConfigKey) -> Seq<char> {
    match k {
        ConfigKey::ServerUrl => or_empty(c.server_url),
        ConfigKey::DefaultOutput => c.default_output,
        ConfigKey::ApiKey => or_empty(c.api_key),
        ConfigKey::ApiKeyHeader => or_empty(c.api_key_header),
    }
}

/// The configuration after `config set` writes `value` under a key.
pub open spec fn config_set(c: ConfigView, k: ConfigKey, value: Seq<char>) -> ConfigView {
    match k {
        ConfigKey::ServerUrl => ConfigView { server_url: Some(value), ..c },
        ConfigKey::DefaultOutput => ConfigView { default_output: value, ..c },
        ConfigKey::ApiKey => ConfigView { api_key: Some(value), ..c },
        ConfigKey::ApiKeyHeader => ConfigView { api_key_header: Some(value), ..c },
    }
}

/// The message for a key that `config get`/`config set` do not know.
pub open spec fn unknown_key_message(name: Seq<char>) -> Seq<char> {
    "Unknown config key: "@ + name + ". Valid keys: server_url, default_output, api_key, api_key_header"@
}

fn clone_opt(o: &Option<String>) -> (r: String)
    ensures
        r@ == or_empty(opt_view(*o)),
{
    match o {
        Some(s) => s.clone(),
        None => String::new(),
    }
}

/// Builds the message for an unknown key.
pub fn unknown_key_error(name: &str) -> (m: String)
    ensures
        m@ == unknown_key_message(name@),
{
    let mut m = String::from_str("Unknown config key: ");
    m.append(name);
    m.append(". Valid keys: server_url, default_output, api_key, api_key_header");
    m
}

impl OrionConfig {
    /// The value stored under a key, as `config get` prints it.
    pub fn get_value(&self, key: &str) -> (res: Result<String, String>)
        ensures
            match key_of(key@) {
                Some(k) => res == Ok::<String, String>(res->Ok_0) && res->Ok_0@ == config_get(
                    self@,
                    k,
                ),
                None => res is Err && res->Err_0@ == unknown_key_message(key@),
            },
    {
        match parse_key(key) {
            Some(ConfigKey::ServerUrl) => Ok(clone_opt(&self.server_url)),
            Some(ConfigKey::DefaultOutput) => Ok(self.default_output.clone()),
            Some(ConfigKey::ApiKey) => Ok(clone_opt(&self.api_key)),
            Some(ConfigKey::ApiKeyHeader) => Ok(clone_opt(&self.api_key_header)),
            None => Err(unknown_key_error(key)),
        }
    }

    /// Stores `value` under a key, as `config set` does; an unknown key
    /// leaves the configuration unchanged and is an error.
    pub fn set_value(&mut self, key: &str, value: &str) -> (res: Result<(), String>)
        ensures
            match key_of(key@) {
                Some(k) => res is Ok && final(self)@ == config_set(old(self)@, k, value@),
                None => res is Err && res->Err_0@ == unknown_key_message(key@) && final(self)@
                    == old(self)@,
            },
    {
        match parse_key(key) {
            Some(ConfigKey::ServerUrl) => {
                self.server_url = Some(value.to_owned());
                Ok(())
            },
            Some(ConfigKey::DefaultOutput) => {
                self.default_output = value.to_owned();
                Ok(())
            },
            Some(ConfigKey::ApiKey) => {
                self.api_key = Some(value.to_owned());
                Ok(())
            },
            Some(ConfigKey::ApiKeyHeader) => {
                self.api_key_header = Some(value.to_owned());
                Ok(())
            },
            None => Err(unknown_key_error(key)),
        }
    }

    /// Sets the server URL (`config set-server`).
    pub fn set_server(&mut self, url: &str)
        ensures
            final(self)@ == config_set(old(self)@, ConfigKey::ServerUrl, url@),
    {
        self.server_url = Some(url.to_owned());
    }
}

/// Reading a key right after writing it gives the value written.
pub proof fn law_get_after_set(c: ConfigView, k: ConfigKey, v: Seq<char>)
    ensures
        config_get(config_set(c, k, v), k) == v,
{
}

/// Writing one key leaves every other key as it was.
pub proof fn law_set_keeps_other_keys(c: ConfigView, k: ConfigKey, other: ConfigKey, v: Seq<char>)
    requires
        k != other,
    ensures
        config_get(config_set(c, k, v), other) == config_get(c, other),
{
}

/// Writing the same value twice is the same as writing it once, and the
/// last of two writes to a key wins.
pub proof fn law_set_last_write_wins(c: ConfigView, k: ConfigKey, v1: Seq<char>, v2: Seq<char>)
    ensures
        config_set(config_set(c, k, v1), k, v2) == config_set(c, k, v2),
{
}

/// The message when no server URL can be found.
pub open spec fn no_server_message() -> Seq<char> {
    "No server URL configured. Set ORION_SERVER_URL environment variable or configure server_url in ~/.orion/config.toml"@
}

/// The server URL chosen from the environment variable and the file: a
/// non-empty `ORION_SERVER_URL` wins, then the configured URL.
pub open spec fn resolved_server_url(env: Option<Seq<char>>, configured: Option<Seq<char>>) -> Option<Seq<char>> {
    match env {
        Some(e) if e.len() > 0 => Some(e),
        _ => configured,
    }
}

/// Resolves the server URL: a non-empty `ORION_SERVER_URL` value first,
/// then the configuration file's `server_url`.
pub fn resolve_server_url(env: Option<&str>, config: &OrionConfig) -> (res: Result<String, String>)
    ensures
        match resolved_server_url(
            match env {
                Some(e) => Some(e@),
                None => None,
            },
            config@.server_url,
        ) {
            Some(u) => res is Ok && res->Ok_0@ == u,
            None => res is Err && res->Err_0@ == no_server_message(),
        },
{
    match env {
        Some(e) => {
            if e.unicode_len() > 0 {
                return Ok(e.to_owned());
            }
        },
        None => {},
    }
    match &config.server_url {
        Some(u) => Ok(u.clone()),
        None => Err(String::from_str(
            "No server URL configured. Set ORION_SERVER_URL environment variable or configure server_url in ~/.orion/config.toml",
        )),
    }
}

/// The server URL a command connects to: the `--server` flag, else the
/// configured one.
pub fn choose_server_url(flag: Option<&str>, config: &OrionConfig) -> (res: Option<String>)
    ensures
        match flag {
            Some(f) => res is Some && res->Some_0@ == f@,
            None => opt_view(res) == config@.server_url,
        },
{
    match flag {
        Some(f) => Some(f.to_owned()),
        None => match &config.server_url {
            Some(u) => Some(u.clone()),
            None => None,
        },
    }
}

/// The lines `config show` prints for a configuration stored at `path`.
pub open spec fn show_lines(c: ConfigView, path: Seq<char>) -> Seq<Seq<SpanView>> {
    seq![
        toned("Configuration"@, Tone::Bold),
        seq![("  Path:           "@, None::<Tone>), (path, Some(Tone::Dimmed))],
        plain("  Server URL:     "@ + match c.server_url {
            Some(u) => u,
            None => "(not set)"@,
        }),
        plain("  Output:         "@ + c.default_output),
        plain("  API Key:        "@ + match c.api_key {
            Some(k) => masked(k),
            None => "(not set)"@,
        }),
    ] + match c.api_key_header {
        Some(h) => seq![plain("  API Key Header: "@ + h)],
        None => Seq::empty(),
    }
}

/// Whether a configuration can be shown: its API key, if any, can be
/// masked.
pub open spec fn showable(c: ConfigView) -> bool {
    match c.api_key {
        Some(k) => maskable(k),
        None => true,
    }
}

/// The lines of `config show`.
pub fn show(config: &OrionConfig, path: &str) -> (d: Doc)
    requires
        showable(config@),
    ensures
        d.view_lines() == show_lines(config@, path@),
{
    let mut d = Doc::new();
    d.toned("Configuration", Tone::Bold);
    d.pair(span(String::from_str("  Path:           ")), tone_span(path, Tone::Dimmed));
    let mut url = String::from_str("  Server URL:     ");
    match &config.server_url {
        Some(u) => push_str(&mut url, u.as_str()),
        None => push_str(&mut url, "(not set)"),
    }
    d.plain(url);
    let mut out = String::from_str("  Output:         ");
    push_str(&mut out, config.default_output.as_str());
    d.plain(out);
    let mut key = String::from_str("  API Key:        ");
    match &config.api_key {
        Some(k) => push_str(&mut key, mask_secret(k.as_str()).as_str()),
        None => push_str(&mut key, "(not set)"),
    }
    d.plain(key);
    let ghost head = d.view_lines();
    match &config.api_key_header {
        Some(h) => {
            let mut line = String::from_str("  API Key Header: ");
            push_str(&mut line, h.as_str());
            d.plain(line);
        },
        None => {},
    }
    assert(d.view_lines() =~~= show_lines(config@, path@));
    d
}

/// Whether `config show` can be run on a configuration (see `showable`).
pub fn can_show(config: &OrionConfig) -> (b: bool)
    ensures
        b == showable(config@),
{
    match &config.api_key {
        Some(k) => can_mask(k.as_str()),
        None => true,
    }
}

/// What a `config` command does: the configuration to save, if it changed,
/// and the lines to print.
pub struct ConfigOutcome {
    pub save: Option<OrionConfig>,
    pub doc: Doc,
}

/// The saved configuration of an outcome, by content.
pub open spec fn saved(o: ConfigOutcome) -> Option<ConfigView> {
    match o.save {
        Some(c) => Some(c@),
        None => None,
    }
}

/// The line printed after `config set`.
pub open spec fn set_line(key: Seq<char>, value: Seq<char>) -> Seq<SpanView> {
    seq![
        ("OK"@, Some(Tone::GreenBold)),
        (" "@, None::<Tone>),
        (key, Some(Tone::Cyan)),
        (" = "@ + value, None::<Tone>),
    ]
}

/// Runs a `config` subcommand on the loaded configuration (`path` is where
/// it is stored): `set-server` and `set` give the configuration to save,
/// `show` and `get` only print; an unknown key is an error.
pub fn run_config(cmd: &ConfigSubcommand, config: OrionConfig, path: &str) -> (res: Result<ConfigOutcome, String>)
    requires
        cmd is Show ==> showable(config@),
    ensures
        match cmd {
            ConfigSubcommand::SetServer { url } => res is Ok && saved(res->Ok_0) == Some(
                config_set(config@, ConfigKey::ServerUrl, url@),
            ) && res->Ok_0.doc.view_lines() == seq![
                seq![
                    ("OK"@, Some(Tone::GreenBold)),
                    (" Server URL set to "@, None::<Tone>),
                    (url@, Some(Tone::Cyan)),
                ],
            ],
            ConfigSubcommand::Show => res is Ok && saved(res->Ok_0) is None
                && res->Ok_0.doc.view_lines() == show_lines(config@, path@),
            ConfigSubcommand::Get { key } => match key_of(key@) {
                Some(k) => res is Ok && saved(res->Ok_0) is None && res->Ok_0.doc.view_lines()
                    == seq![plain(config_get(config@, k))],
                None => res is Err && res->Err_0@ == unknown_key_message(key@),
            },
            ConfigSubcommand::SetKey { key, value } => match key_of(key@) {
                Some(k) => res is Ok && saved(res->Ok_0) == Some(config_set(config@, k, value@))
                    && res->Ok_0.doc.view_lines() == seq![set_line(key@, value@)],
                None => res is Err && res->Err_0@ == unknown_key_message(key@),
            },
        },
{
    match cmd {
        ConfigSubcommand::SetServer { url } => {
            let mut c = config;
            c.set_server(url.as_str());
            let mut d = Doc::new();
            let spans = vec![
                tone_span("OK", Tone::GreenBold),
                span(String::from_str(" Server URL set to ")),
                tone_span(url.as_str(), Tone::Cyan),
            ];
            d.push_line(spans);
            assert(d.view_lines() =~~= seq![
                seq![
                    ("OK"@, Some(Tone::GreenBold)),
                    (" Server URL set to "@, None::<Tone>),
                    (url@, Some(Tone::Cyan)),
                ],
            ]);
            Ok(ConfigOutcome { save: Some(c), doc: d })
        },
        ConfigSubcommand::Show => Ok(ConfigOutcome { save: None, doc: show(&config, path) }),
        ConfigSubcommand::Get { key } => {
            let v = config.get_value(key.as_str())?;
            let mut d = Doc::new();
            d.plain(v);
            Ok(ConfigOutcome { save: None, doc: d })
        },
        ConfigSubcommand::SetKey { key, value } => {
            let mut c = config;
            c.set_value(key.as_str(), value.as_str())?;
            let mut rest = String::from_str(" = ");
            push_str(&mut rest, value.as_str());
            let spans = vec![
                tone_span("OK", Tone::GreenBold),
                span(String::from_str(" ")),
                tone_span(key.as_str(), Tone::Cyan),
                span(rest),
            ];
            let mut d = Doc::new();
            d.push_line(spans);
            assert(d.view_lines() =~~= seq![set_line(key@, value@)]);
            Ok(ConfigOutcome { save: Some(c), doc: d })
        },
    }
}

/// Server URL precedence: a non-empty environment value is used whatever
/// the file says; an unset or empty one falls back to the configured URL;
/// with neither there is no URL.
pub proof fn law_server_url_precedence(env: Option<Seq<char>>, configured: Option<Seq<char>>)
    ensures
        env matches Some(e) && e.len() > 0 ==> resolved_server_url(env, configured) == env,
        (env is None || env == Some(Seq::<char>::empty())) ==> resolved_server_url(env, configured)
            == configured,
        resolved_server_url(env, configured) is None <==> configured is None && (env is None
            || env == Some(Seq::<char>::empty())),
{
    if let Some(e) = env {
        if e.len() == 0 {
            assert(e =~= Seq::<char>::empty());
        }
    }
}

} // verus!
