use vstd::prelude::*;

verus! {

/// Failure to load the configuration.
#[derive(Debug)]
pub enum Error {
    /// The named environment variable is not set.
    ParamNotInEnv(&'static str),
}

/// Settings of the worker, read from the environment.
#[allow(non_snake_case)]
pub struct Config {
    /// Key for the places search service.
    pub GOOGLE_PLACES_API: String,
    /// Base URL of the web server that tracks worker state.
    pub WEB_SERVER_URL: String,
}

/// What loading the configuration gives for the values found for the
/// variables `GOOGLE_PLACES_API` and `WEB_SERVER_URL` (`None`: not set).
pub open spec fn load_spec(google_places_api: Option<String>, web_server_url: Option<String>) -> Result<(Seq<char>, Seq<char>), &'static str> {
    match google_places_api {
        None => Err("GOOGLE_PLACES_API"),
        Some(g) => match web_server_url {
            None => Err("WEB_SERVER_URL"),
            Some(w) => Ok((g@, w@)),
        },
    }
}

impl Config {
    /// Builds the configuration from the values of the environment variables
    /// `GOOGLE_PLACES_API` and `WEB_SERVER_URL` (`None` where one is not set).
    /// The first missing variable, in that order, is reported.
    pub fn load_from_env(google_places_api: Option<String>, web_server_url: Option<String>) -> (r: Result<Config, Error>)
        ensures
            match (r, load_spec(google_places_api, web_server_url)) {
                (Ok(c), Ok((g, w))) => c.GOOGLE_PLACES_API@ == g && c.WEB_SERVER_URL@ == w,
                (Err(Error::ParamNotInEnv(p)), Err(q)) => p == q,
                _ => false,
            },
    {
        let g = match google_places_api {
            Some(g) => g,
            None => {
                return Err(Error::ParamNotInEnv("GOOGLE_PLACES_API"));
            },
        };
        let w = match web_server_url {
            Some(w) => w,
            None => {
                return Err(Error::ParamNotInEnv("WEB_SERVER_URL"));
            },
        };
        Ok(Config { GOOGLE_PLACES_API: g, WEB_SERVER_URL: w })
    }
}

/// The configuration of the worker, from the values of `GOOGLE_PLACES_API`
/// and `WEB_SERVER_URL`; both must be set.
pub fn config(google_places_api: Option<String>, web_server_url: Option<String>) -> (c: Config)
    requires
        google_places_api is Some,
        web_server_url is Some,
    ensures
        c.GOOGLE_PLACES_API@ == google_places_api->0@,
        c.WEB_SERVER_URL@ == web_server_url->0@,
{
    Config::load_from_env(google_places_api, web_server_url).unwrap()
}

/// Loading succeeds exactly when both variables are set, and then keeps
/// their values; an unset `GOOGLE_PLACES_API` is reported whatever
/// `WEB_SERVER_URL` holds, and an unset `WEB_SERVER_URL` when the key is set.
pub proof fn lemma_load_needs_both(google_places_api: Option<String>, web_server_url: Option<String>)
    ensures
        load_spec(google_places_api, web_server_url) is Ok <==> (google_places_api is Some && web_server_url is Some),
        google_places_api is None ==> load_spec(google_places_api, web_server_url) == Err::<(Seq<char>, Seq<char>), &'static str>("GOOGLE_PLACES_API"),
        google_places_api is Some && web_server_url is None ==>
            load_spec(google_places_api, web_server_url) == Err::<(Seq<char>, Seq<char>), &'static str>("WEB_SERVER_URL"),
        (google_places_api matches Some(g) ==> (web_server_url matches Some(w) ==>
            load_spec(google_places_api, web_server_url) == Ok::<(Seq<char>, Seq<char>), &'static str>((g@, w@)))),
{
}

} // verus!
