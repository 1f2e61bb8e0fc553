use indiefuture_template_agent::util::http_request::{EndpointType, EndpointUrlAndData, IntoHttpRequest};
use indiefuture_template_agent::util::json_extract::JsonValue;
use indiefuture_template_agent::util::header_map_preset::HeaderMapPreset;
use reqwest::header::{HeaderMap, HeaderName, HeaderValue};
use indiefuture_template_agent::util::header_map::HEADER_MAP_ROOM;

fn pairs(list: &[(&str, &str)]) -> Vec<(String, String)> {
    list.iter().map(|(a, b)| (a.to_string(), b.to_string())).collect()
}

fn value<'a>(m: &'a HeaderMap, name: &str) -> Option<&'a str> {
    m.get(name).map(|v| v.to_str().unwrap())
}

#[test]
fn application_json_preset() {
    let m = HeaderMapPreset::ApplicationJson.build();
    assert_eq!(m.keys_len(), 2);
    assert_eq!(value(&m, "content-type"), Some("application/json"));
    assert_eq!(value(&m, "accept"), Some("application/json"));
}

#[test]
fn single_content_type_presets() {
    let m = HeaderMapPreset::FormUrlEncoded.build();
    assert_eq!(m.keys_len(), 1);
    assert_eq!(value(&m, "content-type"), Some("application/x-www-form-urlencoded"));
    let m = HeaderMapPreset::MultipartFormData.build();
    assert_eq!(value(&m, "content-type"), Some("multipart/form-data"));
    let m = HeaderMapPreset::PlainText.build();
    assert_eq!(value(&m, "content-type"), Some("text/plain"));
}

#[test]
fn bearer_token_preset() {
    let m = HeaderMapPreset::application_json_with_auth("abc123").build();
    assert_eq!(m.keys_len(), 2);
    assert_eq!(value(&m, "authorization"), Some("Bearer abc123"));
    assert_eq!(value(&m, "content-type"), Some("application/json"));
}

#[test]
fn bearer_token_with_invalid_characters_is_left_out() {
    let m = HeaderMapPreset::BearerToken("bad\ntoken".to_string()).build();
    assert_eq!(m.keys_len(), 1);
    assert_eq!(value(&m, "authorization"), None);
    assert_eq!(value(&m, "content-type"), Some("application/json"));
}

#[test]
fn custom_preset_skips_invalid_pairs_and_lowercases_names() {
    let m = HeaderMapPreset::Custom(pairs(&[
        ("X-API-Key", "k1"),
        ("bad name", "v"),
        ("X-Other", "line\nbreak"),
        ("x-api-key", "k2"),
    ]))
    .build();
    assert_eq!(m.keys_len(), 1);
    assert_eq!(value(&m, "x-api-key"), Some("k2"));
}

#[test]
fn with_extra_headers_spells_out_the_preset() {
    let p = HeaderMapPreset::ApplicationJson.with_extra_headers(pairs(&[("X-Request-ID", "123456")]));
    match &p {
        HeaderMapPreset::Custom(list) => assert_eq!(
            list,
            &pairs(&[
                ("Content-Type", "application/json"),
                ("Accept", "application/json"),
                ("X-Request-ID", "123456"),
            ])
        ),
        _ => panic!("expected a custom preset"),
    }
    let m = p.build();
    assert_eq!(m.keys_len(), 3);
    assert_eq!(value(&m, "x-request-id"), Some("123456"));
    assert_eq!(value(&m, "accept"), Some("application/json"));
}

#[test]
fn with_extra_headers_on_bearer_and_custom() {
    let p = HeaderMapPreset::BearerToken("t".to_string()).with_extra_headers(pairs(&[("Accept", "text/plain")]));
    match &p {
        HeaderMapPreset::Custom(list) => assert_eq!(
            list,
            &pairs(&[
                ("Authorization", "Bearer t"),
                ("Content-Type", "application/json"),
                ("Accept", "text/plain"),
            ])
        ),
        _ => panic!("expected a custom preset"),
    }
    let p = HeaderMapPreset::Custom(pairs(&[("A", "1")])).with_extra_headers(pairs(&[("B", "2")]));
    match p {
        HeaderMapPreset::Custom(list) => assert_eq!(list, pairs(&[("A", "1"), ("B", "2")])),
        _ => panic!("expected a custom preset"),
    }
}

#[test]
fn extra_headers_override_the_preset() {
    // The law: building preset + extra equals the preset's headers with the
    // extra ones set over them.
    let m = HeaderMapPreset::PlainText
        .with_extra_headers(pairs(&[("Content-Type", "text/html")]))
        .build();
    assert_eq!(m.keys_len(), 1);
    assert_eq!(value(&m, "content-type"), Some("text/html"));
}

#[test]
fn merge_puts_other_headers_over_the_preset() {
    let mut other = HeaderMap::new();
    other.insert("accept", HeaderValue::from_static("text/html"));
    other.insert("x-trace", HeaderValue::from_static("1"));
    other.append("x-trace", HeaderValue::from_static("2"));
    let m = HeaderMapPreset::ApplicationJson.merge(&other);
    assert_eq!(m.keys_len(), 3);
    assert_eq!(value(&m, "content-type"), Some("application/json"));
    assert_eq!(value(&m, "accept"), Some("text/html"));
    assert_eq!(value(&m, "x-trace"), Some("2"));
    assert_eq!(m.get_all("x-trace").iter().count(), 1);
}

#[test]
fn try_merge_refuses_oversized_maps() {
    let other = HeaderMap::new();
    assert!(HeaderMapPreset::PlainText.try_merge(&other).is_some());
    let names = |n: usize| -> Vec<(String, String)> {
        (0..n).map(|i| (format!("x-{}", i), "v".to_string())).collect()
    };
    let below = HeaderMapPreset::Custom(names(HEADER_MAP_ROOM - 1)).try_merge(&other).unwrap();
    assert_eq!(below.keys_len(), HEADER_MAP_ROOM - 1);
    assert!(HeaderMapPreset::Custom(names(HEADER_MAP_ROOM)).try_merge(&other).is_none());
    assert!(HeaderMapPreset::Custom(names(HEADER_MAP_ROOM + 1)).try_build().is_none());
    let mut wide = HeaderMap::new();
    for i in 0..HEADER_MAP_ROOM - 2 {
        wide.insert(HeaderName::from_bytes(format!("y-{}", i).as_bytes()).unwrap(), HeaderValue::from_static("w"));
    }
    assert_eq!(HeaderMapPreset::PlainText.try_merge(&wide).unwrap().keys_len(), HEADER_MAP_ROOM - 1);
    assert!(HeaderMapPreset::ApplicationJson.try_merge(&wide).is_none());
}

#[test]
fn long_lists_with_few_names_build() {
    let many: Vec<(String, String)> = (0..10000).map(|i| ("X-Count".to_string(), format!("{}", i))).collect();
    let m = HeaderMapPreset::Custom(many).build();
    assert_eq!(m.keys_len(), 1);
    assert_eq!(value(&m, "x-count"), Some("9999"));
    let bad: Vec<(String, String)> = (0..8000).map(|i| (format!("bad name {}", i), "v".to_string())).collect();
    assert_eq!(HeaderMapPreset::Custom(bad).try_build().unwrap().keys_len(), 0);
    let five_thousand: Vec<(String, String)> = (0..5000).map(|i| (format!("z-{}", i), "v".to_string())).collect();
    assert_eq!(HeaderMapPreset::Custom(five_thousand).build().keys_len(), 5000);
}

#[test]
fn extra_headers_build_as_a_merge() {
    let extra = pairs(&[("Accept", "text/html"), ("X-A", "1"), ("x-a", "2")]);
    let built = HeaderMapPreset::ApplicationJson.with_extra_headers(extra.clone()).build();
    let merged = HeaderMapPreset::ApplicationJson.merge(&HeaderMapPreset::Custom(extra).build());
    assert_eq!(built, merged);
    assert_eq!(value(&built, "accept"), Some("text/html"));
    assert_eq!(value(&built, "x-a"), Some("2"));
    assert_eq!(value(&built, "content-type"), Some("application/json"));
}

#[test]
fn endpoint_url_and_data_hands_back_its_parts() {
    let e = EndpointUrlAndData {
        url: "https://example.com/x".to_string(),
        data: JsonValue::Array(vec![JsonValue::Bool(true)]),
        headers: HeaderMapPreset::PlainText.build(),
        endpoint_type: EndpointType::GET,
    };
    assert_eq!(e.get_url(), "https://example.com/x");
    assert_eq!(e.get_data(), JsonValue::Array(vec![JsonValue::Bool(true)]));
    let h = e.get_headers().unwrap();
    assert_eq!(value(&h, "content-type"), Some("text/plain"));
    assert_eq!(h.keys_len(), 1);
    assert_eq!(e.get_endpoint_type(), EndpointType::GET);
}
