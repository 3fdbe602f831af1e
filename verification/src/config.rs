//! The bot's settings, as read from its environment.

use crate::text::push_text;
use crate::voice::protocol::text_of;
use vstd::prelude::*;

verus! {

/// The port the dashboard listens on where none is set, or where what is set is no port.
pub const DEFAULT_PORT: u16 = 8000;

/// The bot's settings.
#[derive(Debug, Clone, PartialEq, Eq)]
pub struct Config {
    pub bot_token: String,
    pub database_url: String,
    pub web_host: String,
    pub web_port: u16,
    pub kawaii_api_key: Option<String>,
    pub default_prefix: String,
}

/// The variables of the environment that the settings are read from, each as it was found.
#[derive(Debug, Clone, PartialEq, Eq)]
pub struct Variables {
    pub bot_token: Option<String>,
    pub database_url: Option<String>,
    pub web_host: Option<String>,
    pub web_port: Option<String>,
    pub kawaii_api_key: Option<String>,
    pub default_prefix: Option<String>,
}

/// Why the settings cannot be had.
#[derive(Debug, Clone, Copy, PartialEq, Eq, Structural)]
pub enum ConfigError {
    /// The bot's token is not set.
    MissingBotToken,
}

/// What `str::parse::<u16>` makes of a text: the number it writes, or none where it writes no
/// number that fits in sixteen bits.
pub uninterp spec fn parsed_port(text: Seq<char>) -> Option<u16>;

/// `str::parse::<u16>`, with its error dropped.
#[verifier::external_body]
fn parse_port(text: &str) -> (port: Option<u16>)
    ensures
        port == parsed_port(text@),
{
    text.parse::<u16>().ok()
}

/// The port that a parsed text names, or the default where it names none.
pub fn port_or_default(parsed: Option<u16>) -> (port: u16)
    ensures
        port == match parsed {
            Some(p) => p,
            None => DEFAULT_PORT,
        },
{
    match parsed {
        Some(p) => p,
        None => DEFAULT_PORT,
    }
}

/// The text of a variable, or the default where it is not set.
pub fn text_or_default(found: Option<String>, default: &str) -> (text: String)
    ensures
        text@ == match found {
            Some(t) => t@,
            None => default@,
        },
{
    match found {
        Some(t) => t,
        None => {
            let mut text = String::new();
            push_text(&mut text, default);
            text
        },
    }
}

impl Config {
    /// The settings that the variables give. The token must be set; every other variable
    /// has a default, and a port that does not parse counts as not set.
    pub fn from_vars(vars: Variables) -> (settings: Result<Config, ConfigError>)
        ensures
            vars.bot_token is None <==> settings == Err::<Config, ConfigError>(
                ConfigError::MissingBotToken,
            ),
            vars.bot_token is Some <==> settings is Ok,
            settings matches Ok(config) ==> {
                &&& config.bot_token@ == vars.bot_token->0@
                &&& config.database_url@ == match vars.database_url {
                    Some(url) => url@,
                    None => "sqlite:./nezuko.db"@,
                }
                &&& config.web_host@ == match vars.web_host {
                    Some(host) => host@,
                    None => "0.0.0.0"@,
                }
                &&& config.web_port == match vars.web_port {
                    Some(port) => match parsed_port(port@) {
                        Some(p) => p,
                        None => DEFAULT_PORT,
                    },
                    None => DEFAULT_PORT,
                }
                &&& text_of(config.kawaii_api_key) == text_of(vars.kawaii_api_key)
                &&& config.default_prefix@ == match vars.default_prefix {
                    Some(prefix) => prefix@,
                    None => "/"@,
                }
            },
    {
        let bot_token = match vars.bot_token {
            Some(token) => token,
            None => {
                return Err(ConfigError::MissingBotToken);
            },
        };
        let web_port = match &vars.web_port {
            Some(port) => port_or_default(parse_port(port.as_str())),
            None => DEFAULT_PORT,
        };
        Ok(
            Config {
                bot_token,
                database_url: text_or_default(vars.database_url, "sqlite:./nezuko.db"),
                web_host: text_or_default(vars.web_host, "0.0.0.0"),
                web_port,
                kawaii_api_key: vars.kawaii_api_key,
                default_prefix: text_or_default(vars.default_prefix, "/"),
            },
        )
    }
}

} // verus!
