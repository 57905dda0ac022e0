use eskom_se_push_api::allowance::AllowanceCheckURL;
use eskom_se_push_api::area_info::AreaInfoURL;
use eskom_se_push_api::area_nearby::AreasNearbyURL;
use eskom_se_push_api::area_search::{Area, AreaSearch, AreaSearchURL};
use eskom_se_push_api::config::{token_variable, DEFAULT_TOKEN_VARIABLE};
use eskom_se_push_api::decimal::Decimal;
use eskom_se_push_api::endpoints;
use eskom_se_push_api::errors::{APIError, HttpError};
use eskom_se_push_api::reqwest_blocking_client::handle_reqwest_response_blocking;
use eskom_se_push_api::request::{ApiRequest, TOKEN_KEY};
use eskom_se_push_api::response::{classify_status, Decoded, Received, StatusClass, TransportFailure};
use eskom_se_push_api::status::{EskomStatus, EskomStatusUrl, LoadsheddingStatus, NextStage, Stage, Timestamp};
use eskom_se_push_api::topics_nearby::TopicsNearbyUrl;
use eskom_se_push_api::ureq_client::{handle_ureq_response, UreqClient};
use eskom_se_push_api::{get_token_from_env, Endpoint, Endpoints};

fn dec(s: &str) -> Decimal {
    Decimal::new(s.to_string())
}

fn reply<T>(status: u16, body: &str, json: Decoded<T>) -> Result<Received<T>, TransportFailure> {
    Ok(Received { status, body: body.to_string(), json })
}

fn region(name: &str, stage: &str) -> LoadsheddingStatus {
    LoadsheddingStatus {
        name: name.to_string(),
        next_stages: vec![NextStage {
            stage: "3".to_string(),
            stage_start_timestamp: Timestamp { seconds: 1_660_000_000, nanos: 0 },
        }],
        stage: stage.to_string(),
        stage_updated: "2022-08-08T16:12:53.725852+02:00".to_string(),
    }
}

fn sample_status() -> EskomStatus {
    EskomStatus {
        status: vec![
            ("capetown".to_string(), region("Cape Town", "2")),
            ("eskom".to_string(), region("National", "4")),
        ],
    }
}

#[test]
fn it_works() {}

#[test]
fn blank_area_id_is_refused() {
    for id in ["", " ", "\t \n"] {
        assert_eq!(AreaInfoURL::new(id.to_string()).url(), Err(HttpError::AreaIdNotSet));
    }
    let client = UreqClient::new("key".to_string());
    assert_eq!(client.get_area_info("  "), Err(HttpError::AreaIdNotSet));
}

#[test]
fn blank_search_text_is_refused() {
    for text in ["", "   ", "\n"] {
        assert_eq!(AreaSearchURL::new(text.to_string()).url(), Err(HttpError::SearchTextNotSet));
    }
    assert_eq!(endpoints::get_areas_search("key", " "), Err(HttpError::SearchTextNotSet));
}

#[test]
fn area_info_url_carries_the_id() {
    let url = AreaInfoURL::new("ekurhuleni3-4-brakpan".to_string()).url().unwrap();
    assert_eq!(url, "https://developer.sepush.co.za/business/2.0/area?id=ekurhuleni3-4-brakpan");
}

#[test]
fn search_text_is_percent_encoded() {
    let url = AreaSearchURL::new("cape town".to_string()).url().unwrap();
    assert_eq!(url, "https://developer.sepush.co.za/business/2.0/areas_search?text=cape%20town");
    let url = AreaSearchURL::new("a#b".to_string()).url().unwrap();
    assert_eq!(url, "https://developer.sepush.co.za/business/2.0/areas_search?text=a%23b");
}

#[test]
fn fixed_urls() {
    assert_eq!(EskomStatusUrl {}.url().unwrap(), "https://developer.sepush.co.za/business/2.0/status");
    assert_eq!(
        AllowanceCheckURL {}.url().unwrap(),
        "https://developer.sepush.co.za/business/2.0/api_allowance"
    );
    assert_eq!(Endpoints::AreasNearby.to_string(), "https://developer.sepush.co.za/business/2.0/areas_nearby");
    assert_eq!(AllowanceCheckURL {}.method(), "GET");
    assert_eq!(EskomStatusUrl {}.endpoint(), "https://developer.sepush.co.za/business/2.0/status");
}

#[test]
fn zero_coordinate_is_refused() {
    let cases = [("0", "18.4241"), ("-33.9249", "0"), ("0", "0"), ("-0", "18.4"), ("0.0", "1")];
    for (lat, long) in cases {
        let expected = Err(HttpError::LongitudeOrLatitudeNotSet { longitude: dec(long), latitude: dec(lat) });
        assert_eq!(AreasNearbyURL::new(dec(lat), dec(long)).url(), expected);
        assert_eq!(TopicsNearbyUrl::new(dec(lat), dec(long)).url(), expected);
    }
}

#[test]
fn non_zero_position_appears_verbatim() {
    let url = AreasNearbyURL::new(dec("-33.9249"), dec("18.4241")).url().unwrap();
    assert_eq!(url, "https://developer.sepush.co.za/business/2.0/areas_nearby?lat=-33.9249&long=18.4241");
    let url = TopicsNearbyUrl::new(dec(&(-26.2041f32).to_string()), dec(&(28.0473f32).to_string())).url().unwrap();
    assert_eq!(url, "https://developer.sepush.co.za/business/2.0/topics_nearby?lat=-26.2041&long=28.0473");
}

#[test]
fn resolving_twice_gives_the_same_url() {
    let d = AreaSearchURL::new("brooklyn".to_string());
    assert_eq!(d.url(), d.url());
    let d = AreasNearbyURL::new(dec("1.5"), dec("-2"));
    assert_eq!(d.url().unwrap().as_bytes(), d.url().unwrap().as_bytes());
}

#[test]
fn decimal_zero_test() {
    for z in ["0", "-0", "+0", "0.0", "00.000", ".0"] {
        assert!(dec(z).is_zero(), "{z}");
    }
    for nz in ["0.1", "-1", "10", "", "-", ".", "NaN", "inf"] {
        assert!(!dec(nz).is_zero(), "{nz}");
    }
    assert_eq!(dec("-33.9").as_str(), "-33.9");
}

#[test]
fn status_codes_map_to_one_error_each() {
    let cases = [
        (400, HttpError::APIError(APIError::BadRequest)),
        (403, HttpError::APIError(APIError::Forbidden)),
        (404, HttpError::APIError(APIError::NotFound)),
        (429, HttpError::APIError(APIError::TooManyRequests)),
        (500, HttpError::APIError(APIError::ServerError("boom".to_string()))),
        (503, HttpError::APIError(APIError::ServerError("boom".to_string()))),
        (401, HttpError::Unknown),
        (600, HttpError::Unknown),
    ];
    for (code, expected) in cases {
        let r: Result<u8, HttpError> = handle_ureq_response(reply(code, "boom", Decoded::Record(1)));
        assert_eq!(r, Err(expected.clone()));
        let r: Result<u8, HttpError> = handle_reqwest_response_blocking(reply(code, "boom", Decoded::Record(1)));
        assert_eq!(r, Err(expected));
    }
    assert_eq!(classify_status(200), StatusClass::Decode);
    assert_eq!(classify_status(304), StatusClass::Decode);
    assert_eq!(classify_status(599), StatusClass::ServerError);
    assert_eq!(classify_status(102), StatusClass::Unexpected);
}

#[test]
fn decoding_outcomes() {
    let r: Result<u8, HttpError> = handle_ureq_response(reply(200, "7", Decoded::Record(7)));
    assert_eq!(r, Ok(7));
    let r: Result<u8, HttpError> = handle_ureq_response(reply(200, "x", Decoded::Malformed("bad".to_string())));
    assert_eq!(r, Err(HttpError::UreqResponseError("bad".to_string())));
    let r: Result<u8, HttpError> = handle_ureq_response(reply(200, "", Decoded::Unreadable("io".to_string())));
    assert_eq!(r, Err(HttpError::UnknownError("io".to_string())));
    let r: Result<u8, HttpError> =
        handle_reqwest_response_blocking(reply(201, "x", Decoded::Malformed("bad".to_string())));
    assert_eq!(r, Err(HttpError::ResponseError("bad".to_string())));
    let r: Result<u8, HttpError> =
        handle_reqwest_response_blocking(reply(200, "", Decoded::Unreadable("io".to_string())));
    assert_eq!(r, Err(HttpError::Unknown));
}

#[test]
fn transport_failures() {
    let r: Result<u8, HttpError> = handle_ureq_response(Err(TransportFailure::Timeout));
    assert_eq!(r, Err(HttpError::Timeout));
    let r: Result<u8, HttpError> = handle_ureq_response(Err(TransportFailure::Unreachable));
    assert_eq!(r, Err(HttpError::NoInternet));
    let r: Result<u8, HttpError> = handle_reqwest_response_blocking(Err(TransportFailure::Timeout));
    assert_eq!(r, Err(HttpError::Timeout));
}

#[test]
fn area_lookup_ignores_case() {
    let status = sample_status();
    let a = status.area("CapeTown").unwrap();
    let b = status.area("capetown").unwrap();
    assert_eq!(a, b);
    assert_eq!(a.name, "Cape Town");
    assert_eq!(status.area("CAPETOWN"), Some(&region("Cape Town", "2")));
    assert_eq!(status.area("durban"), None);
    assert_eq!(status.eskom().name, "National");
}

#[test]
fn region_keys_in_order() {
    let mut status = sample_status();
    assert_eq!(status.keys(), vec!["capetown".to_string(), "eskom".to_string()]);
    assert_eq!(status, sample_status());
}

#[test]
fn stage_parsing() {
    let named = [
        Stage::NoLoadShedding,
        Stage::Stage1,
        Stage::Stage2,
        Stage::Stage3,
        Stage::Stage4,
        Stage::Stage5,
        Stage::Stage6,
        Stage::Stage7,
        Stage::Stage8,
    ];
    for (n, expected) in named.iter().enumerate() {
        let parsed = Stage::from(n.to_string());
        assert_eq!(format!("{parsed:?}"), format!("{expected:?}"));
        assert!(parsed == n.to_string());
        assert_eq!(parsed.encode(), n.to_string());
    }
    let other = Stage::from("42".to_string());
    assert!(matches!(&other, Stage::Stage(s) if s == "42"));
    assert!(other == "42".to_string());
    assert!(!(other == "4".to_string()));
    assert!(!(Stage::Stage4 == "42".to_string()));
    assert!(Stage::Stage(String::from("3")) == "3".to_string());
}

#[test]
fn region_stage() {
    let s = region("Cape Town", "2");
    assert!(s.is_it_stage(Stage::Stage2));
    assert!(!s.is_it_stage(Stage::Stage3));
    assert!(matches!(s.get_stage(), Stage::Stage2));
    assert!(s.next_stages[0].is_it_stage(Stage::Stage3));
    assert!(matches!(s.next_stages[0].get_stage(), Stage::Stage3));
}

fn area_search_from_json(body: &str) -> Decoded<AreaSearch> {
    let value: serde_json::Value = match serde_json::from_str(body) {
        Ok(v) => v,
        Err(e) => return Decoded::Malformed(e.to_string()),
    };
    let mut areas = Vec::new();
    for a in value["areas"].as_array().unwrap() {
        areas.push(Area {
            id: a["id"].as_str().unwrap().to_string(),
            name: a["name"].as_str().unwrap().to_string(),
            region: a["region"].as_str().unwrap().to_string(),
        });
    }
    Decoded::Record(AreaSearch { areas })
}

#[test]
fn search_scenario_with_mocked_transport() {
    let client = UreqClient::new("SECRET-REDACTED".to_string());
    let request = client.areas_search("brooklyn").unwrap();
    assert_eq!(request.url, "https://developer.sepush.co.za/business/2.0/areas_search?text=brooklyn");
    assert_eq!(request.token, "SECRET-REDACTED");
    assert_eq!(request.method(), "GET");
    assert_eq!(request.header(), TOKEN_KEY);
    let body = r#"{"areas":[{"id":"1","name":"Brooklyn","region":"Tshwane"}]}"#;
    let result = handle_ureq_response(reply(200, body, area_search_from_json(body))).unwrap();
    assert_eq!(
        result.areas,
        vec![Area { id: "1".to_string(), name: "Brooklyn".to_string(), region: "Tshwane".to_string() }]
    );
}

#[test]
fn quota_exceeded_on_every_operation() {
    let client = UreqClient::new("k".to_string());
    let requests: Vec<ApiRequest> = vec![
        client.get_load_shedding_status().unwrap(),
        client.get_area_info("a").unwrap(),
        client.areas_nearby(dec("1"), dec("2")).unwrap(),
        client.areas_search("b").unwrap(),
        client.topics_nearby(dec("1"), dec("2")).unwrap(),
        client.check_allowance().unwrap(),
    ];
    assert_eq!(requests.len(), 6);
    for _ in requests {
        let r: Result<(), HttpError> = handle_ureq_response(reply(429, "", Decoded::Record(())));
        assert_eq!(r, Err(HttpError::APIError(APIError::TooManyRequests)));
        let r: Result<(), HttpError> = handle_reqwest_response_blocking(reply(429, "", Decoded::Record(())));
        assert_eq!(r, Err(HttpError::APIError(APIError::TooManyRequests)));
    }
}

#[test]
fn token_resolution() {
    assert_eq!(token_variable(None), DEFAULT_TOKEN_VARIABLE);
    assert_eq!(token_variable(Some("MY_KEY")), "MY_KEY");
    assert_eq!(get_token_from_env(None, Some("abc".to_string())), Ok("abc".to_string()));
    assert_eq!(
        get_token_from_env(None, None),
        Err(HttpError::TokenNotSet { variable: "ESKOMSEPUSH_API_KEY".to_string() })
    );
    assert_eq!(
        get_token_from_env(Some("MY_KEY"), Some(String::new())),
        Err(HttpError::TokenNotSet { variable: "MY_KEY".to_string() })
    );
    assert!(UreqClient::new_with_env(Some("MY_KEY"), None).is_err());
    let client = UreqClient::new_with_env(None, Some("t".to_string())).unwrap();
    assert_eq!(client.check_allowance().unwrap().token, "t");
}
