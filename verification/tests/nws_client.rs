use sentinel::nws_client::{NwsClient, NwsClientConfig, NwsHttpClient, NwsHttpResponse, DEFAULT_NWS_API_BASE_URL};
use std::cell::RefCell;

const EMPTY_ACTIVE_ALERTS: &str = "{\"type\":\"FeatureCollection\",\"features\":[]}";

struct MockHttpClient {
    response: Result<NwsHttpResponse, String>,
    seen_requests: RefCell<Vec<(String, String)>>,
}

impl MockHttpClient {
    fn ok(body: &str) -> Self {
        Self {
            response: Ok(NwsHttpResponse { status: 200, body: body.to_string() }),
            seen_requests: RefCell::new(Vec::new()),
        }
    }

    fn status(status: u16) -> Self {
        Self {
            response: Ok(NwsHttpResponse { status, body: String::new() }),
            seen_requests: RefCell::new(Vec::new()),
        }
    }

    fn transport_failure() -> Self {
        Self {
            response: Err("network unavailable".to_string()),
            seen_requests: RefCell::new(Vec::new()),
        }
    }
}

impl NwsHttpClient for MockHttpClient {
    fn get(&self, url: &str, user_agent: &str) -> Result<NwsHttpResponse, String> {
        self.seen_requests.borrow_mut().push((url.to_string(), user_agent.to_string()));
        match &self.response {
            Ok(response) => Ok(NwsHttpResponse { status: response.status, body: response.body.clone() }),
            Err(error) => Err(error.clone()),
        }
    }
}

fn config() -> NwsClientConfig {
    NwsClientConfig {
        base_url: "https://api.weather.gov".to_string(),
        user_agent: "Project-Sentinel test@example.com".to_string(),
        area: None,
        zone: None,
    }
}

#[test]
fn user_agent_is_required() {
    let config = NwsClientConfig { user_agent: " ".to_string(), ..config() };

    let error = config.validate().unwrap_err();

    assert!(error.to_string().contains("User-Agent is required"));
}

#[test]
fn active_alerts_url_without_filters_is_deterministic() {
    let config = config();

    assert_eq!(config.active_alerts_url().unwrap(), "https://api.weather.gov/alerts/active");
}

#[test]
fn active_alerts_url_with_area_filter_is_deterministic() {
    let config = NwsClientConfig { area: Some("TX".to_string()), ..config() };

    assert_eq!(config.active_alerts_url().unwrap(), "https://api.weather.gov/alerts/active?area=TX");
}

#[test]
fn active_alerts_url_with_zone_filter_is_deterministic() {
    let config = NwsClientConfig { zone: Some("TXC201".to_string()), ..config() };

    assert_eq!(
        config.active_alerts_url().unwrap(),
        "https://api.weather.gov/alerts/active?zone=TXC201"
    );
}

#[test]
fn area_and_zone_together_are_rejected() {
    let config = NwsClientConfig {
        area: Some("TX".to_string()),
        zone: Some("TXC201".to_string()),
        ..config()
    };

    let error = config.active_alerts_url().unwrap_err();

    assert!(error.to_string().contains("configure either NWS area or NWS zone, not both"));
}

#[test]
fn fetch_active_alerts_uses_url_and_user_agent() {
    let http_client = MockHttpClient::ok(EMPTY_ACTIVE_ALERTS);
    let client = NwsClient::new(config(), http_client).unwrap();

    let body = client.fetch_active_alerts().unwrap();

    assert_eq!(body, EMPTY_ACTIVE_ALERTS);
    assert_eq!(
        client.http_client().seen_requests.borrow().as_slice(),
        &[(
            "https://api.weather.gov/alerts/active".to_string(),
            "Project-Sentinel test@example.com".to_string()
        )]
    );
}

#[test]
fn http_non_200_becomes_clear_error() {
    let client = NwsClient::new(config(), MockHttpClient::status(503)).unwrap();

    let error = client.fetch_active_alerts().unwrap_err();

    assert!(error.to_string().contains("NWS API request failed with status 503"));
}

#[test]
fn transport_failure_becomes_clear_error() {
    let client = NwsClient::new(config(), MockHttpClient::transport_failure()).unwrap();

    let error = client.fetch_active_alerts().unwrap_err();

    assert!(error.to_string().contains("network unavailable"));
}

#[test]
fn trailing_slashes_of_the_base_url_are_dropped() {
    let config = NwsClientConfig { base_url: "https://example.test//".to_string(), ..config() };

    assert_eq!(config.active_alerts_url().unwrap(), "https://example.test/alerts/active");
}

#[test]
fn default_config_uses_public_api_and_needs_a_user_agent() {
    let config = NwsClientConfig::default();

    assert_eq!(config.base_url, DEFAULT_NWS_API_BASE_URL);
    assert!(config.validate().is_err());
}

#[test]
fn client_construction_validates_the_config() {
    let bad = NwsClientConfig { user_agent: String::new(), ..config() };

    let error = NwsClient::new(bad, MockHttpClient::status(200)).err().unwrap();

    assert_eq!(error, "NWS API User-Agent is required");
}

#[test]
fn other_success_statuses_return_the_body() {
    let http_client = MockHttpClient {
        response: Ok(NwsHttpResponse { status: 204, body: "x".to_string() }),
        seen_requests: RefCell::new(Vec::new()),
    };
    let client = NwsClient::new(config(), http_client).unwrap();

    assert_eq!(client.fetch_active_alerts().unwrap(), "x");
}
