//! The service's settings, read from a list of name/value pairs.

use vstd::prelude::*;
use crate::errors::ConfigError;
use crate::text::same_text;

verus! {

/// What `str::parse::<i64>` makes of a text: the integer, or the message of
/// the error.
pub uninterp spec fn parsed_i64(text: Seq<char>) -> Result<i64, Seq<char>>;

/// `str::parse::<i64>`: the integer that `text` spells, or the message of
/// the parse error, as named by [`parsed_i64`].
#[verifier::external_body]
fn parse_i64(text: &str) -> (number: Result<i64, String>)
    ensures
        number is Ok <==> parsed_i64(text@) is Ok,
        number is Ok ==> number->Ok_0 == parsed_i64(text@)->Ok_0,
        number is Err ==> number->Err_0@ == parsed_i64(text@)->Err_0,
{
    text.parse::<i64>().map_err(|e| e.to_string())
}

/// Everything the service is configured with.
#[derive(Clone, Debug, PartialEq, Eq)]
pub struct Config {
    pub database_url: String,
    pub redis_url: String,
    pub jwt_secret_key: String,
    pub jwt_expire_in: i64,
    pub jwt_refresh_expire_in: i64,
    pub api_key: String,
    pub email: String,
    pub password: String,
    pub cloudflare_api_token: String,
    pub cloudflare_secret: String,
    pub s3_endpoint: String,
    pub s3_bucket: String,
    pub cdn_url: String,
    pub port: String,
}

/// The views of a list of name/value pairs.
pub open spec fn pairs(vars: Seq<(String, String)>) -> Seq<(Seq<char>, Seq<char>)> {
    Seq::new(vars.len(), |i: int| (vars[i].0@, vars[i].1@))
}

/// The value of the first pair named `name`, if there is one.
pub open spec fn lookup(vars: Seq<(Seq<char>, Seq<char>)>, name: Seq<char>) -> Option<Seq<char>>
    decreases vars.len(),
{
    if vars.len() == 0 {
        None
    } else if vars[0].0 == name {
        Some(vars[0].1)
    } else {
        lookup(vars.drop_first(), name)
    }
}

/// Why the text setting `name` cannot be read, if it cannot.
pub open spec fn text_fault(vars: Seq<(Seq<char>, Seq<char>)>, name: Seq<char>) -> Option<
    ConfigErrorView,
> {
    match lookup(vars, name) {
        Some(_) => None,
        None => Some(ConfigErrorView::MissingVar(name)),
    }
}

/// Why the integer setting `name` cannot be read, if it cannot.
pub open spec fn integer_fault(vars: Seq<(Seq<char>, Seq<char>)>, name: Seq<char>) -> Option<
    ConfigErrorView,
> {
    match lookup(vars, name) {
        Some(text) => match parsed_i64(text) {
            Ok(_) => None,
            Err(why) => Some(ConfigErrorView::ParseError(name, why)),
        },
        None => Some(ConfigErrorView::MissingVar(name)),
    }
}

/// A [`ConfigError`] as plain text.
pub enum ConfigErrorView {
    MissingVar(Seq<char>),
    ParseError(Seq<char>, Seq<char>),
}

/// The plain text of a configuration error.
pub open spec fn config_error_view(error: ConfigError) -> ConfigErrorView {
    match error {
        ConfigError::MissingVar(name) => ConfigErrorView::MissingVar(name@),
        ConfigError::ParseError(name, why) => ConfigErrorView::ParseError(name@, why@),
    }
}

/// The names of the settings, in the order in which they are read.
pub open spec fn setting_names() -> Seq<Seq<char>> {
    seq![
        "DATABASE_URL"@,
        "REDIS_URL"@,
        "JWT_SECRET_KEY"@,
        "JWT_ACCESS_EXPIRES_IN"@,
        "JWT_REFRESH_EXPIRES_IN"@,
        "API_KEY"@,
        "EMAIL"@,
        "PASSWORD"@,
        "CLOUDFLARE_API_TOKEN"@,
        "CLOUDFLARE_SECRET"@,
        "S3_ENDPOINT"@,
        "S3_BUCKET"@,
        "CDN_URL"@,
        "PORT"@,
    ]
}

/// Why the `i`th setting cannot be read, if it cannot. The two token
/// lifetimes are integers; all other settings are text.
pub open spec fn setting_fault(vars: Seq<(Seq<char>, Seq<char>)>, i: int) -> Option<
    ConfigErrorView,
> {
    if i == 3 || i == 4 {
        integer_fault(vars, setting_names()[i])
    } else {
        text_fault(vars, setting_names()[i])
    }
}

/// Whether `config` holds the settings that `vars` give.
pub open spec fn config_reads(config: Config, vars: Seq<(Seq<char>, Seq<char>)>) -> bool {
    &&& Some(config.database_url@) == lookup(vars, "DATABASE_URL"@)
    &&& Some(config.redis_url@) == lookup(vars, "REDIS_URL"@)
    &&& Some(config.jwt_secret_key@) == lookup(vars, "JWT_SECRET_KEY"@)
    &&& lookup(vars, "JWT_ACCESS_EXPIRES_IN"@) is Some
    &&& Ok::<i64, Seq<char>>(config.jwt_expire_in) == parsed_i64(
        lookup(vars, "JWT_ACCESS_EXPIRES_IN"@)->0,
    )
    &&& lookup(vars, "JWT_REFRESH_EXPIRES_IN"@) is Some
    &&& Ok::<i64, Seq<char>>(config.jwt_refresh_expire_in) == parsed_i64(
        lookup(vars, "JWT_REFRESH_EXPIRES_IN"@)->0,
    )
    &&& Some(config.api_key@) == lookup(vars, "API_KEY"@)
    &&& Some(config.email@) == lookup(vars, "EMAIL"@)
    &&& Some(config.password@) == lookup(vars, "PASSWORD"@)
    &&& Some(config.cloudflare_api_token@) == lookup(vars, "CLOUDFLARE_API_TOKEN"@)
    &&& Some(config.cloudflare_secret@) == lookup(vars, "CLOUDFLARE_SECRET"@)
    &&& Some(config.s3_endpoint@) == lookup(vars, "S3_ENDPOINT"@)
    &&& Some(config.s3_bucket@) == lookup(vars, "S3_BUCKET"@)
    &&& Some(config.cdn_url@) == lookup(vars, "CDN_URL"@)
    &&& Some(config.port@) == lookup(vars, "PORT"@)
}

impl Config {
    /// The value of the first pair named `key`.
    fn get_env(vars: &Vec<(String, String)>, key: &str) -> (value: Result<String, ConfigError>)
        ensures
            match lookup(pairs(vars@), key@) {
                Some(text) => value is Ok && value->Ok_0@ == text,
                None => value is Err && config_error_view(value->Err_0)
                    == ConfigErrorView::MissingVar(key@),
            },
    {
        let mut i: usize = 0;
        assert(pairs(vars@).skip(0) =~= pairs(vars@));
        while i < vars.len()
            invariant
                i <= vars.len(),
                lookup(pairs(vars@), key@) == lookup(pairs(vars@).skip(i as int), key@),
            decreases vars.len() - i,
        {
            let ghost rest = pairs(vars@).skip(i as int);
            assert(rest[0] == (vars@[i as int].0@, vars@[i as int].1@));
            assert(rest.drop_first() =~= pairs(vars@).skip(i + 1));
            if same_text(vars[i].0.as_str(), key) {
                return Ok(vars[i].1.clone());
            }
            i += 1;
        }
        assert(pairs(vars@).skip(vars.len() as int).len() == 0);
        Err(ConfigError::MissingVar(key.to_owned()))
    }

    /// The integer value of the first pair named `key`.
    fn get_env_i64(vars: &Vec<(String, String)>, key: &str) -> (value: Result<i64, ConfigError>)
        ensures
            match integer_fault(pairs(vars@), key@) {
                Some(fault) => value is Err && config_error_view(value->Err_0) == fault,
                None => value is Ok && Ok::<i64, Seq<char>>(value->Ok_0) == parsed_i64(
                    lookup(pairs(vars@), key@)->0,
                ),
            },
    {
        let text = Self::get_env(vars, key)?;
        match parse_i64(text.as_str()) {
            Ok(number) => Ok(number),
            Err(why) => Err(ConfigError::ParseError(key.to_owned(), why)),
        }
    }

    /// The settings that `vars`, the process environment as name/value
    /// pairs, give. The settings are read in a fixed order, and the first
    /// that is absent, or is no integer where one is due, is reported.
    pub fn from_env(vars: &Vec<(String, String)>) -> (config: Result<Config, ConfigError>)
        ensures
            config is Ok ==> config_reads(config->Ok_0, pairs(vars@)),
            config is Ok <==> forall|i: int|
                0 <= i < 14 ==> (#[trigger] setting_fault(pairs(vars@), i)) is None,
            config is Err ==> exists|i: int|
                0 <= i < 14 && (#[trigger] setting_fault(pairs(vars@), i)) == Some(
                    config_error_view(config->Err_0),
                ) && forall|j: int| 0 <= j < i ==> (#[trigger] setting_fault(pairs(vars@), j)) is None,
    {
        let ghost env = pairs(vars@);
        let database_url = match Self::get_env(vars, "DATABASE_URL") {
            Ok(v) => v,
            Err(e) => {
                assert(setting_fault(env, 0) == Some(config_error_view(e)));
                return Err(e);
            },
        };
        let redis_url = match Self::get_env(vars, "REDIS_URL") {
            Ok(v) => v,
            Err(e) => {
                assert(setting_fault(env, 1) == Some(config_error_view(e)));
                assert(setting_fault(env, 0) is None);
                return Err(e);
            },
        };
        let jwt_secret_key = match Self::get_env(vars, "JWT_SECRET_KEY") {
            Ok(v) => v,
            Err(e) => {
                assert(setting_fault(env, 2) == Some(config_error_view(e)));
                assert(setting_fault(env, 0) is None && setting_fault(env, 1) is None);
                return Err(e);
            },
        };
        let jwt_expire_in = match Self::get_env_i64(vars, "JWT_ACCESS_EXPIRES_IN") {
            Ok(v) => v,
            Err(e) => {
                assert(setting_fault(env, 3) == Some(config_error_view(e)));
                assert(setting_fault(env, 0) is None && setting_fault(env, 1) is None
                    && setting_fault(env, 2) is None);
                return Err(e);
            },
        };
        let jwt_refresh_expire_in = match Self::get_env_i64(vars, "JWT_REFRESH_EXPIRES_IN") {
            Ok(v) => v,
            Err(e) => {
                assert(setting_fault(env, 4) == Some(config_error_view(e)));
                assert(setting_fault(env, 0) is None && setting_fault(env, 1) is None
                    && setting_fault(env, 2) is None && setting_fault(env, 3) is None);
                return Err(e);
            },
        };
        assert(forall|j: int| 0 <= j < 5 ==> (#[trigger] setting_fault(env, j)) is None) by {
            assert(setting_fault(env, 0) is None && setting_fault(env, 1) is None
                && setting_fault(env, 2) is None && setting_fault(env, 3) is None
                && setting_fault(env, 4) is None);
        }
        let api_key = match Self::get_env(vars, "API_KEY") {
            Ok(v) => v,
            Err(e) => {
                assert(setting_fault(env, 5) == Some(config_error_view(e)));
                return Err(e);
            },
        };
        let email = match Self::get_env(vars, "EMAIL") {
            Ok(v) => v,
            Err(e) => {
                assert(setting_fault(env, 6) == Some(config_error_view(e)));
                assert(setting_fault(env, 5) is None);
                return Err(e);
            },
        };
        let password = match Self::get_env(vars, "PASSWORD") {
            Ok(v) => v,
            Err(e) => {
                assert(setting_fault(env, 7) == Some(config_error_view(e)));
                assert(setting_fault(env, 5) is None && setting_fault(env, 6) is None);
                return Err(e);
            },
        };
        let cloudflare_api_token = match Self::get_env(vars, "CLOUDFLARE_API_TOKEN") {
            Ok(v) => v,
            Err(e) => {
                assert(setting_fault(env, 8) == Some(config_error_view(e)));
                assert(setting_fault(env, 5) is None && setting_fault(env, 6) is None
                    && setting_fault(env, 7) is None);
                return Err(e);
            },
        };
        let cloudflare_secret = match Self::get_env(vars, "CLOUDFLARE_SECRET") {
            Ok(v) => v,
            Err(e) => {
                assert(setting_fault(env, 9) == Some(config_error_view(e)));
                assert(setting_fault(env, 5) is None && setting_fault(env, 6) is None
                    && setting_fault(env, 7) is None && setting_fault(env, 8) is None);
                return Err(e);
            },
        };
        assert(forall|j: int| 0 <= j < 10 ==> (#[trigger] setting_fault(env, j)) is None) by {
            assert(setting_fault(env, 5) is None && setting_fault(env, 6) is None
                && setting_fault(env, 7) is None && setting_fault(env, 8) is None
                && setting_fault(env, 9) is None);
        }
        let s3_endpoint = match Self::get_env(vars, "S3_ENDPOINT") {
            Ok(v) => v,
            Err(e) => {
                assert(setting_fault(env, 10) == Some(config_error_view(e)));
                return Err(e);
            },
        };
        let s3_bucket = match Self::get_env(vars, "S3_BUCKET") {
            Ok(v) => v,
            Err(e) => {
                assert(setting_fault(env, 11) == Some(config_error_view(e)));
                assert(setting_fault(env, 10) is None);
                return Err(e);
            },
        };
        let cdn_url = match Self::get_env(vars, "CDN_URL") {
            Ok(v) => v,
            Err(e) => {
                assert(setting_fault(env, 12) == Some(config_error_view(e)));
                assert(setting_fault(env, 10) is None && setting_fault(env, 11) is None);
                return Err(e);
            },
        };
        let port = match Self::get_env(vars, "PORT") {
            Ok(v) => v,
            Err(e) => {
                assert(setting_fault(env, 13) == Some(config_error_view(e)));
                assert(setting_fault(env, 10) is None && setting_fault(env, 11) is None
                    && setting_fault(env, 12) is None);
                return Err(e);
            },
        };
        assert(forall|j: int| 0 <= j < 14 ==> (#[trigger] setting_fault(env, j)) is None) by {
            assert(setting_fault(env, 10) is None && setting_fault(env, 11) is None
                && setting_fault(env, 12) is None && setting_fault(env, 13) is None);
        }
        Ok(
            Config {
                database_url,
                redis_url,
                jwt_secret_key,
                jwt_expire_in,
                jwt_refresh_expire_in,
                api_key,
                email,
                password,
                cloudflare_api_token,
                cloudflare_secret,
                s3_endpoint,
                s3_bucket,
                cdn_url,
                port,
            },
        )
    }
}

} // verus!
