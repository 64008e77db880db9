//! The settings that a session starts from.

use vstd::prelude::*;
use crate::headers::{merged, Header, HeaderList, HeaderView};
use crate::text::text_of;

verus! {

/// Seconds after which a request is given up, unless the settings say otherwise.
pub fn default_timeout() -> (seconds: u64)
    ensures
        seconds == 30,
{
    30
}

/// The largest response that is read, unless the settings say otherwise: ten mebibytes.
pub fn default_max_response_size() -> (bytes: usize)
    ensures
        bytes == 10 * 1024 * 1024,
{
    10485760
}

/// The capacity of the history, unless the settings say otherwise.
pub fn default_history_size() -> (entries: usize)
    ensures
        entries == 100,
{
    100
}

/// Why the settings could not be read or written.
#[derive(Debug)]
pub enum Error {
    /// The place of the settings file could not be found.
    Config(String),
    /// The file could not be read or written.
    Io(String),
    /// The settings could not be written out as TOML.
    Toml(String),
}

/// What the user can set.
#[derive(Debug)]
pub struct AppSettings {
    pub timeout_seconds: u64,
    pub max_response_size: usize,
    pub history_size: usize,
    pub default_url: Vec<char>,
    pub default_headers: HeaderList,
}

/// The settings, with the headers that the settings file may list at its top
/// level beside those under `app`.
#[derive(Debug)]
pub struct AppConfig {
    pub app: AppSettings,
    pub default_headers: HeaderList,
}

/// A header that is switched on.
pub open spec fn row(key: Seq<char>, value: Seq<char>) -> HeaderView {
    HeaderView { key, value, enabled: true }
}

/// The headers that a request carries when the settings name none.
pub open spec fn stock_headers() -> Seq<HeaderView> {
    merged(
        Seq::empty(),
        seq![
            row("Content-Type"@, "application/json"@),
            row("Accept"@, "*/*"@),
            row("Accept-Encoding"@, "gzip, deflate, br"@),
            row("User-Agent"@, "raquet/1.0"@),
            row("Connection"@, "keep-alive"@),
            row("Content-Length"@, "<calculated>"@),
            row("Host"@, "<from url>"@),
            row("Random-Token"@, "<generated>"@),
        ],
    )
}

/// The settings' headers with the top-level ones stored over them.
pub open spec fn effective_headers(config: AppConfig) -> Seq<HeaderView> {
    merged(config.app.default_headers@, config.default_headers@)
}

fn stock_row(key: &str, value: &str) -> (h: Header)
    ensures
        h@ == row(key@, value@),
{
    Header { key: text_of(key), value: text_of(value), enabled: true }
}

impl Default for AppSettings {
    fn default() -> (settings: AppSettings)
        ensures
            settings.timeout_seconds == 30,
            settings.max_response_size == 10 * 1024 * 1024,
            settings.history_size == 100,
            settings.default_url@.len() == 0,
            settings.default_headers@ == stock_headers(),
            settings.default_headers.well_formed(),
    {
        let mut rows: Vec<Header> = Vec::new();
        rows.push(stock_row("Content-Type", "application/json"));
        rows.push(stock_row("Accept", "*/*"));
        rows.push(stock_row("Accept-Encoding", "gzip, deflate, br"));
        rows.push(stock_row("User-Agent", "raquet/1.0"));
        rows.push(stock_row("Connection", "keep-alive"));
        rows.push(stock_row("Content-Length", "<calculated>"));
        rows.push(stock_row("Host", "<from url>"));
        rows.push(stock_row("Random-Token", "<generated>"));
        assert(rows.deep_view() =~= seq![
            row("Content-Type"@, "application/json"@),
            row("Accept"@, "*/*"@),
            row("Accept-Encoding"@, "gzip, deflate, br"@),
            row("User-Agent"@, "raquet/1.0"@),
            row("Connection"@, "keep-alive"@),
            row("Content-Length"@, "<calculated>"@),
            row("Host"@, "<from url>"@),
            row("Random-Token"@, "<generated>"@),
        ]);
        let mut default_headers = HeaderList::new();
        default_headers.merge(&rows);
        AppSettings {
            timeout_seconds: default_timeout(),
            max_response_size: default_max_response_size(),
            history_size: default_history_size(),
            default_url: Vec::new(),
            default_headers,
        }
    }
}

impl Default for AppConfig {
    fn default() -> (config: AppConfig)
        ensures
            config.app.timeout_seconds == 30,
            config.app.max_response_size == 10 * 1024 * 1024,
            config.app.history_size == 100,
            config.app.default_url@.len() == 0,
            config.app.default_headers@ == stock_headers(),
            config.app.default_headers.well_formed(),
            config.default_headers@.len() == 0,
            config.default_headers.well_formed(),
    {
        AppConfig { app: AppSettings::default(), default_headers: HeaderList::new() }
    }
}

impl AppConfig {
    /// Both header lists are sorted and hold no name twice.
    pub open spec fn well_formed(&self) -> bool {
        self.app.default_headers.well_formed() && self.default_headers.well_formed()
    }

    /// The settings of a session, from what the settings file gave: without a
    /// readable file the stock settings, else the file's settings with its
    /// top-level headers stored over those under `app`.
    pub fn load(parsed: Option<AppConfig>) -> (config: AppConfig)
        requires
            parsed is Some ==> parsed->0.well_formed(),
        ensures
            config.well_formed(),
            parsed is None ==> {
                &&& config.app.timeout_seconds == 30
                &&& config.app.max_response_size == 10 * 1024 * 1024
                &&& config.app.history_size == 100
                &&& config.app.default_url@.len() == 0
                &&& config.app.default_headers@ == stock_headers()
                &&& config.default_headers@.len() == 0
            },
            parsed is Some ==> {
                &&& config.app.timeout_seconds == parsed->0.app.timeout_seconds
                &&& config.app.max_response_size == parsed->0.app.max_response_size
                &&& config.app.history_size == parsed->0.app.history_size
                &&& config.app.default_url == parsed->0.app.default_url
                &&& config.app.default_headers@ == effective_headers(parsed->0)
                &&& config.default_headers == parsed->0.default_headers
            },
    {
        match parsed {
            None => AppConfig::default(),
            Some(file) => {
                let mut config = file;
                let mut headers = config.app.default_headers;
                assert(config.default_headers.entries.deep_view() =~= config.default_headers@);
                headers.merge(&config.default_headers.entries);
                config.app.default_headers = headers;
                config
            },
        }
    }
}

} // verus!
