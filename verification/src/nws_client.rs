//! Client for the NOAA/NWS active alerts API: request configuration, the
//! alert collection it returns, and the request itself over a pluggable
//! HTTP client.
use vstd::prelude::*;
use crate::text::{decimal, push_str, trim, trimmed, write_decimal};

verus! {

/// Base URL of the public NWS API.
pub const DEFAULT_NWS_API_BASE_URL: &'static str = "https://api.weather.gov";

/// Where and how to ask for active alerts.
#[derive(Debug, Clone, PartialEq, Eq)]
pub struct NwsClientConfig {
    pub base_url: String,
    pub user_agent: String,
    pub area: Option<String>,
    pub zone: Option<String>,
}

/// A copy of an optional string.
pub fn clone_option(o: &Option<String>) -> (r: Option<String>)
    ensures
        r == *o,
{
    match o {
        Some(s) => Some(s.clone()),
        None => None,
    }
}

/// `s` without its trailing `/` characters.
pub open spec fn without_trailing_slashes(s: Seq<char>) -> Seq<char>
    decreases s.len(),
{
    if s.len() > 0 && s.last() == '/' {
        without_trailing_slashes(s.drop_last())
    } else {
        s
    }
}

/// Why a configuration is refused, if it is: no User-Agent (blank after
/// trimming), or both an area and a zone filter.
pub open spec fn config_error(c: NwsClientConfig) -> Option<Seq<char>> {
    if trim(c.user_agent@).len() == 0 {
        Some("NWS API User-Agent is required"@)
    } else if c.area is Some && c.zone is Some {
        Some("configure either NWS area or NWS zone, not both"@)
    } else {
        None
    }
}

/// The active alerts URL of a configuration: the base URL without trailing
/// slashes, `/alerts/active`, and the area or zone filter if there is one.
pub open spec fn alerts_url(c: NwsClientConfig) -> Seq<char> {
    without_trailing_slashes(c.base_url@) + "/alerts/active"@ + match c.area {
        Some(a) => "?area="@ + a@,
        None => match c.zone {
            Some(z) => "?zone="@ + z@,
            None => seq![],
        },
    }
}

impl NwsClientConfig {
    /// The active alerts URL, once the configuration is valid.
    pub fn active_alerts_url(&self) -> (r: Result<String, String>)
        ensures
            match config_error(*self) {
                Some(e) => r matches Err(m) && m@ == e,
                None => r matches Ok(u) && u@ == alerts_url(*self),
            },
    {
        self.validate()?;
        let cs = crate::text::chars_of(self.base_url.as_str());
        let mut end: usize = cs.len();
        assert(cs@.take(end as int) =~= cs@);
        while end > 0 && cs[end - 1] == '/'
            invariant
                end <= cs@.len(),
                cs@ == self.base_url@,
                without_trailing_slashes(cs@) == without_trailing_slashes(cs@.take(end as int)),
            decreases end,
        {
            assert(cs@.take(end as int).drop_last() =~= cs@.take(end - 1));
            end = end - 1;
        }
        let mut url = crate::text::string_of(&cs, 0, end);
        assert(cs@.subrange(0, end as int) =~= cs@.take(end as int));
        push_str(&mut url, "/alerts/active");
        if let Some(area) = &self.area {
            push_str(&mut url, "?area=");
            push_str(&mut url, area.as_str());
        } else if let Some(zone) = &self.zone {
            push_str(&mut url, "?zone=");
            push_str(&mut url, zone.as_str());
        }
        Ok(url)
    }

    /// Checks that a User-Agent is set and that at most one of the area and
    /// zone filters is.
    pub fn validate(&self) -> (r: Result<(), String>)
        ensures
            match config_error(*self) {
                Some(e) => r matches Err(m) && m@ == e,
                None => r is Ok,
            },
    {
        let ua = trimmed(self.user_agent.as_str());
        if ua.as_str().is_empty() {
            return Err("NWS API User-Agent is required".to_owned());
        }
        if self.area.is_some() && self.zone.is_some() {
            return Err("configure either NWS area or NWS zone, not both".to_owned());
        }
        Ok(())
    }
}

impl Default for NwsClientConfig {
    fn default() -> (c: Self)
        ensures
            c.base_url@ == DEFAULT_NWS_API_BASE_URL@,
            c.user_agent@.len() == 0,
            c.area is None,
            c.zone is None,
    {
        NwsClientConfig {
            base_url: DEFAULT_NWS_API_BASE_URL.to_owned(),
            user_agent: String::new(),
            area: None,
            zone: None,
        }
    }
}

/// The active alerts document: its features.
#[derive(Debug, PartialEq, Eq)]
pub struct NwsAlertCollection {
    pub features: Vec<NwsAlertFeature>,
}

/// One alert of the collection.
#[derive(Debug, PartialEq, Eq)]
pub struct NwsAlertFeature {
    pub id: String,
    pub properties: NwsAlertProperties,
}

/// The properties of an alert, each optional.
#[derive(Debug, PartialEq, Eq)]
pub struct NwsAlertProperties {
    pub id: Option<String>,
    pub event: Option<String>,
    pub headline: Option<String>,
    pub description: Option<String>,
    pub instruction: Option<String>,
    pub severity: Option<String>,
    pub urgency: Option<String>,
    pub certainty: Option<String>,
    pub effective: Option<String>,
    pub expires: Option<String>,
    pub ends: Option<String>,
    pub status: Option<String>,
    pub message_type: Option<String>,
    pub area_desc: Option<String>,
    pub geocode: Option<NwsGeocode>,
}

/// Location codes of an alert.
#[derive(Debug, PartialEq, Eq)]
pub struct NwsGeocode {
    pub same: Option<Vec<String>>,
    pub ugc: Option<Vec<String>>,
}

/// Status and body of an HTTP response.
#[derive(Debug, PartialEq, Eq)]
pub struct NwsHttpResponse {
    pub status: u16,
    pub body: String,
}

/// An HTTP client that can send the API's GET requests.
///
/// `responds(url, user_agent, r)` says that `r` is an outcome of a GET of
/// `url` with that User-Agent.
///
/// The bodies given to these ghost views are only defaults for
/// implementations that keep no such history: nothing verified relies on them.
pub trait NwsHttpClient {
    closed spec fn responds(
        &self,
        url: Seq<char>,
        user_agent: Seq<char>,
        r: Result<NwsHttpResponse, String>,
    ) -> bool {
        true
    }

    fn get(&self, url: &str, user_agent: &str) -> (r: Result<NwsHttpResponse, String>)
        ensures
            self.responds(url@, user_agent@, r),
    ;
}

/// What fetching active alerts returns for the HTTP outcome `res`: the body
/// of a 2xx response, the status of another response as an error, or the
/// client's error.
pub open spec fn fetch_outcome(res: Result<NwsHttpResponse, String>) -> Result<Seq<char>, Seq<char>> {
    match res {
        Err(e) => Err(e@),
        Ok(resp) => if 200 <= resp.status < 300 {
            Ok(resp.body@)
        } else {
            Err("NWS API request failed with status "@ + decimal(resp.status as nat))
        },
    }
}

/// A client of the active alerts API with a valid configuration.
pub struct NwsClient<T> {
    config: NwsClientConfig,
    http_client: T,
}

impl<T> NwsClient<T> {
    /// A client's configuration is always valid.
    #[verifier::type_invariant]
    spec fn valid(&self) -> bool {
        config_error(self.config) is None
    }
}

impl<T: NwsHttpClient> NwsClient<T> {
    /// The configuration.
    pub closed spec fn config_view(&self) -> NwsClientConfig {
        self.config
    }

    /// The HTTP client.
    pub closed spec fn http_view(&self) -> T {
        self.http_client
    }

    /// A client, once the configuration is valid.
    pub fn new(config: NwsClientConfig, http_client: T) -> (r: Result<Self, String>)
        ensures
            match config_error(config) {
                Some(e) => r matches Err(m) && m@ == e,
                None => r matches Ok(c) && c.config_view() == config && c.http_view() == http_client,
            },
    {
        config.validate()?;
        Ok(NwsClient { config, http_client })
    }

    /// The HTTP client.
    pub fn http_client(&self) -> (h: &T)
        ensures
            *h == self.http_view(),
    {
        &self.http_client
    }

    /// GETs the active alerts URL with the configured User-Agent and returns
    /// the body of a 2xx response; another status, or a failure of the HTTP
    /// client, is an error.
    pub fn fetch_active_alerts(&self) -> (r: Result<String, String>)
        ensures
            exists|res: Result<NwsHttpResponse, String>|
                {
                    &&& #[trigger] self.http_view().responds(
                        alerts_url(self.config_view()),
                        self.config_view().user_agent@,
                        res,
                    )
                    &&& match fetch_outcome(res) {
                        Ok(b) => r matches Ok(body) && body@ == b,
                        Err(e) => r matches Err(m) && m@ == e,
                    }
                },
    {
        proof {
            use_type_invariant(self);
        }
        let url = match self.config.active_alerts_url() {
            Ok(u) => u,
            Err(e) => return Err(e),
        };
        let res = self.http_client.get(url.as_str(), self.config.user_agent.as_str());
        assert(self.http_view().responds(alerts_url(self.config_view()), self.config_view().user_agent@, res));
        match res {
            Err(e) => Err(e),
            Ok(response) => {
                if 200 <= response.status && response.status < 300 {
                    Ok(response.body)
                } else {
                    let mut msg = String::new();
                    push_str(&mut msg, "NWS API request failed with status ");
                    write_decimal(&mut msg, response.status as u64);
                    Err(msg)
                }
            },
        }
    }
}

} // verus!
