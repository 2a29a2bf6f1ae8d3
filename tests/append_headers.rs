use http::header::{HeaderMap, HeaderValue};
use rama_http_client::headers::{AppendHeaders, ResponseParts, TryIntoHeaderError};
use rama_http_client::version::{HttpVersion, ResponseHead};

fn parts(headers: HeaderMap) -> ResponseParts {
    ResponseParts { head: ResponseHead { status: 201, version: HttpVersion::Http2 }, headers }
}

fn append(a: AppendHeaders, headers: HeaderMap) -> Result<HeaderMap, TryIntoHeaderError> {
    a.into_response_parts(parts(headers)).map(|p| {
        assert_eq!(p.head, ResponseHead { status: 201, version: HttpVersion::Http2 });
        p.headers
    })
}

fn pairs(items: &[(&str, &str)]) -> AppendHeaders {
    AppendHeaders(items.iter().map(|(k, v)| (k.as_bytes().to_vec(), v.as_bytes().to_vec())).collect())
}

fn values(m: &HeaderMap, name: &str) -> Vec<String> {
    m.get_all(name).iter().map(|v| v.to_str().unwrap().to_string()).collect()
}

#[test]
fn append_keeps_existing_headers() {
    let mut m = HeaderMap::new();
    m.insert("set-cookie", HeaderValue::from_static("a=1"));
    let m = append(pairs(&[("set-cookie", "foo=bar"), ("set-cookie", "baz=qux")]), m).unwrap();
    assert_eq!(values(&m, "set-cookie"), vec!["a=1", "foo=bar", "baz=qux"]);
}

#[test]
fn append_twice_with_disjoint_names() {
    let mut m = HeaderMap::new();
    m.insert("x-base", HeaderValue::from_static("0"));
    let m = append(pairs(&[("x-one", "1"), ("x-one", "2")]), m).unwrap();
    let m = append(pairs(&[("x-two", "3")]), m).unwrap();
    assert_eq!(values(&m, "x-base"), vec!["0"]);
    assert_eq!(values(&m, "x-one"), vec!["1", "2"]);
    assert_eq!(values(&m, "x-two"), vec!["3"]);
    assert_eq!(m.len(), 4);
}

#[test]
fn names_are_lower_cased() {
    let m = append(pairs(&[("Content-Type", "text/plain")]), HeaderMap::new()).unwrap();
    assert_eq!(m.keys().next().unwrap().as_str(), "content-type");
    assert_eq!(values(&m, "content-type"), vec!["text/plain"]);
}

#[test]
fn invalid_name_is_reported_with_its_index() {
    let r = append(pairs(&[("ok", "1"), ("bad name", "2")]), HeaderMap::new());
    assert_eq!(r.unwrap_err(), TryIntoHeaderError::Key { index: 1 });
    let r = append(pairs(&[("", "1")]), HeaderMap::new());
    assert_eq!(r.unwrap_err(), TryIntoHeaderError::Key { index: 0 });
}

#[test]
fn invalid_value_is_reported_with_its_index() {
    let r = append(pairs(&[("x-a", "line\nbreak")]), HeaderMap::new());
    assert_eq!(r.unwrap_err(), TryIntoHeaderError::Value { index: 0 });
    let r = append(pairs(&[("x-a", "tab\tok")]), HeaderMap::new());
    assert!(r.is_ok());
}

#[test]
fn into_response_status() {
    let r = pairs(&[("x-a", "1")]).into_response();
    assert_eq!(r.status, 200);
    assert_eq!(values(&r.headers, "x-a"), vec!["1"]);
    let r = pairs(&[("x a", "1")]).into_response();
    assert_eq!(r.status, 500);
    assert!(r.headers.is_empty());
    let r = AppendHeaders(vec![]).into_response();
    assert_eq!(r.status, 200);
    assert!(r.headers.is_empty());
}

#[test]
fn append_counts_values_and_reports_error_text() {
    let mut m = HeaderMap::new();
    m.insert("x-base", HeaderValue::from_static("0"));
    let m = append(pairs(&[("x-one", "1"), ("x-base", "2")]), m).unwrap();
    assert_eq!(m.len(), 3);
    let r = pairs(&[("x-a", "1"), ("bad name", "2")]).into_response();
    assert_eq!(r.status, 500);
    assert_eq!(r.body, "invalid HTTP header name");
    let r = pairs(&[("x-a", "bad\u{7f}")]).into_response();
    assert_eq!(r.body, "failed to parse header value");
    let r = pairs(&[("x-a", "1")]).into_response();
    assert_eq!(r.body, "");
}

#[test]
fn one_call_equals_two_calls() {
    let both = append(pairs(&[("x-a", "1"), ("x-b", "2"), ("x-a", "3")]), HeaderMap::new()).unwrap();
    let once = append(pairs(&[("x-a", "1")]), HeaderMap::new()).unwrap();
    let twice = append(pairs(&[("x-b", "2"), ("x-a", "3")]), once).unwrap();
    assert_eq!(both, twice);
}
