use vstd::prelude::*;

verus! {

/// The name of the environment variable that holds the application key.
pub const ENV_APP_KEY: &'static str = "XING_APP_KEY";

/// The name of the environment variable that holds the application secret.
pub const ENV_APP_SECRET: &'static str = "XING_SECRET_KEY";

/// The name of the environment variable that holds the address of the token service.
pub const ENV_TOKEN_URL: &'static str = "XING_TOKEN_DOMAI";

/// The name of the environment variable that may hold the path of the token cache.
pub const ENV_TOKEN_CACHE_FILE: &'static str = "KIS_TOKEN_CACHE_FILE";

/// The path of the token cache where the environment names none.
pub const DEFAULT_TOKEN_CACHE_FILE: &'static str = "kis_token_cache.json";

/// The credentials of the application and where its tokens come from and are kept.
#[derive(Debug, Clone, PartialEq, Eq)]
pub struct AppConfig {
    pub app_key: String,
    pub app_secret: String,
    /// The address of the token service.
    pub token_url: String,
    /// The path of the file in which the current token is cached.
    pub token_cache_file: String,
}

impl AppConfig {
    /// The configuration that the values of the environment give: the three
    /// that must be set as they are, and the path of the token cache where it
    /// is set, else the default path.
    pub fn from_values(
        app_key: String,
        app_secret: String,
        token_url: String,
        token_cache_file: Option<String>,
    ) -> (config: Self)
        ensures
            config.app_key == app_key,
            config.app_secret == app_secret,
            config.token_url == token_url,
            token_cache_file matches Some(path) ==> config.token_cache_file == path,
            token_cache_file is None ==> config.token_cache_file@ == DEFAULT_TOKEN_CACHE_FILE@,
    {
        let token_cache_file = match token_cache_file {
            Some(path) => path,
            None => DEFAULT_TOKEN_CACHE_FILE.to_owned(),
        };
        AppConfig { app_key, app_secret, token_url, token_cache_file }
    }
}

} // verus!
