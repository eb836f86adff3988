//! Startup configuration: the three secrets the bot needs before it can
//! connect, checked and read into one immutable value.

use vstd::prelude::*;
use vstd::string::StringExecFns;

verus! {

/// One required configuration value.
#[derive(Clone, Copy, Debug, PartialEq, Eq, Structural)]
pub enum ConfigField {
    DiscordToken,
    WeatherApiKey,
    DiscordGuildId,
}

/// Why the configuration could not be read.
#[derive(Clone, Copy, Debug, PartialEq, Eq, Structural)]
pub enum ConfigError {
    /// The value was not supplied.
    Missing(ConfigField),
    /// The guild identifier is not a decimal number that fits in 64 bits.
    InvalidGuildId,
}

/// What the bot runs with: the gateway token, the forecast provider's key,
/// and the guild its commands are registered in.
#[derive(Clone, Debug)]
pub struct BotConfig {
    pub token: String,
    pub weather_api_key: String,
    pub guild_id: u64,
}

/// The key a field is stored under in the secret store.
pub open spec fn field_key(f: ConfigField) -> Seq<char> {
    match f {
        ConfigField::DiscordToken => "DISCORD_TOKEN"@,
        ConfigField::WeatherApiKey => "WEATHER_API_KEY"@,
        ConfigField::DiscordGuildId => "DISCORD_GUILD_ID"@,
    }
}

/// The message shown when startup fails with this error.
pub open spec fn error_message(e: ConfigError) -> Seq<char> {
    match e {
        ConfigError::Missing(f) => "'"@ + field_key(f) + "' was not found"@,
        ConfigError::InvalidGuildId => "'"@ + field_key(ConfigField::DiscordGuildId)
            + "' is not a valid id"@,
    }
}

pub open spec fn is_digit(c: char) -> bool {
    '0' <= c && c <= '9'
}

/// The number a sequence of decimal digits spells.
pub open spec fn digits_value(d: Seq<char>) -> nat
    decreases d.len(),
{
    if d.len() == 0 {
        0
    } else {
        digits_value(d.drop_last()) * 10 + ((d.last() as u32) - ('0' as u32)) as nat
    }
}

/// How a string reads as a `u64`: an optional `+`, then one or more decimal
/// digits whose value fits in 64 bits.
pub open spec fn decimal_u64(s: Seq<char>) -> Option<u64> {
    let d = if s.len() > 0 && s[0] == '+' {
        s.drop_first()
    } else {
        s
    };
    if d.len() > 0 && (forall|i: int| 0 <= i < d.len() ==> is_digit(#[trigger] d[i]))
        && digits_value(d) <= u64::MAX {
        Some(digits_value(d) as u64)
    } else {
        None
    }
}

/// The configuration the three supplied values make, or the first problem
/// among them, checked in the order token, API key, guild id.
pub open spec fn config_spec(
    token: Option<Seq<char>>,
    weather_api_key: Option<Seq<char>>,
    guild_id: Option<Seq<char>>,
) -> Result<(Seq<char>, Seq<char>, u64), ConfigError> {
    if token is None {
        Err(ConfigError::Missing(ConfigField::DiscordToken))
    } else if weather_api_key is None {
        Err(ConfigError::Missing(ConfigField::WeatherApiKey))
    } else if guild_id is None {
        Err(ConfigError::Missing(ConfigField::DiscordGuildId))
    } else {
        match decimal_u64(guild_id->Some_0) {
            Some(id) => Ok((token->Some_0, weather_api_key->Some_0, id)),
            None => Err(ConfigError::InvalidGuildId),
        }
    }
}

pub open spec fn opt_view(o: Option<String>) -> Option<Seq<char>> {
    match o {
        Some(s) => Some(s@),
        None => None,
    }
}

/// Relies on `u64`'s `FromStr` (`str::parse::<u64>`), which accepts an
/// optional `+` followed by decimal digits, and fails on anything else and on
/// values above `u64::MAX`.
#[verifier::external_body]
fn parse_u64(s: &str) -> (r: Option<u64>)
    ensures
        r == decimal_u64(s@),
{
    s.parse::<u64>().ok()
}

impl ConfigField {
    /// The key this field is stored under.
    pub fn key(&self) -> (r: String)
        ensures
            r@ == field_key(*self),
    {
        match self {
            ConfigField::DiscordToken => String::from_str("DISCORD_TOKEN"),
            ConfigField::WeatherApiKey => String::from_str("WEATHER_API_KEY"),
            ConfigField::DiscordGuildId => String::from_str("DISCORD_GUILD_ID"),
        }
    }
}

impl ConfigError {
    /// The message shown when startup fails, naming the field at fault.
    pub fn message(&self) -> (r: String)
        ensures
            r@ == error_message(*self),
    {
        match self {
            ConfigError::Missing(f) => {
                let mut s = String::from_str("'");
                s.append(f.key().as_str());
                s.append("' was not found");
                s
            },
            ConfigError::InvalidGuildId => {
                let mut s = String::from_str("'");
                s.append(ConfigField::DiscordGuildId.key().as_str());
                s.append("' is not a valid id");
                s
            },
        }
    }
}

/// Builds the configuration from the values found in the secret store.
/// Each absent value is reported by name; the guild id must read as a `u64`.
pub fn load_config(
    token: Option<String>,
    weather_api_key: Option<String>,
    guild_id: Option<String>,
) -> (r: Result<BotConfig, ConfigError>)
    ensures
        match config_spec(opt_view(token), opt_view(weather_api_key), opt_view(guild_id)) {
            Ok((t, k, g)) => r is Ok && r->Ok_0.token@ == t && r->Ok_0.weather_api_key@ == k
                && r->Ok_0.guild_id == g,
            Err(e) => r == Err::<BotConfig, ConfigError>(e),
        },
{
    let token = match token {
        Some(t) => t,
        None => return Err(ConfigError::Missing(ConfigField::DiscordToken)),
    };
    let weather_api_key = match weather_api_key {
        Some(k) => k,
        None => return Err(ConfigError::Missing(ConfigField::WeatherApiKey)),
    };
    let guild_id = match guild_id {
        Some(g) => g,
        None => return Err(ConfigError::Missing(ConfigField::DiscordGuildId)),
    };
    match parse_u64(guild_id.as_str()) {
        Some(id) => Ok(BotConfig { token, weather_api_key, guild_id: id }),
        None => Err(ConfigError::InvalidGuildId),
    }
}

} // verus!
