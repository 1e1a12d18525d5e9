use axum::body::Body;
use axum::http::{HeaderMap, HeaderValue, Request};
use version_middleware::text::normalize_version;
use version_middleware::{ExtractVersion, VersionRejection};

fn headers_of(request: Request<Body>) -> HeaderMap {
    let (parts, _body) = request.into_parts();
    parts.headers
}

fn version_with(name: &str, value: HeaderValue) -> Result<ExtractVersion, VersionRejection> {
    let request = Request::builder()
        .header(name, value)
        .body(Body::empty())
        .unwrap();
    ExtractVersion::from_headers(&headers_of(request))
}

#[test]
fn test_lib_extract_version_with_header_ok_one() {
    let request = Request::builder()
        .header("x-version", "v1.0.0")
        .body(Body::empty())
        .unwrap();

    let version = ExtractVersion::from_headers(&headers_of(request));

    match version {
        Ok(version) => assert_eq!(version.0, "v1.0.0"),
        Err(_) => assert!(false, "Expected a valid version"),
    }
}

#[test]
fn test_lib_extract_version_with_header_ok_two() {
    let request = Request::builder()
        .header("X-VersIon", " prevIew ")
        .body(Body::empty())
        .unwrap();

    let version = ExtractVersion::from_headers(&headers_of(request));

    match version {
        Ok(version) => assert_eq!(version.0, "preview"),
        Err(_) => assert!(false, "Expected a valid version"),
    }
}

#[test]
fn test_lib_extract_version_without_header() {
    let request = Request::builder().body(Body::empty()).unwrap();

    let version = ExtractVersion::from_headers(&headers_of(request));

    match version {
        Ok(version) => assert_eq!(version.0, "latest"),
        Err(_) => assert!(false, "Expected a valid version"),
    }
}

#[test]
fn header_name_case_does_not_matter() {
    for name in ["x-version", "X-VERSION", "X-VeRsIoN", "X-Version"] {
        let version = version_with(name, HeaderValue::from_static(" Stable-2 ")).unwrap();
        assert_eq!(version.0, "stable-2");
    }
}

#[test]
fn other_headers_are_ignored() {
    let request = Request::builder()
        .header("x-versions", "v9")
        .header("accept", "text/plain")
        .body(Body::empty())
        .unwrap();
    let version = ExtractVersion::from_headers(&headers_of(request)).unwrap();
    assert_eq!(version.0, "latest");
}

#[test]
fn whitespace_only_value_gives_empty_version() {
    let version = version_with("X-Version", HeaderValue::from_static("   ")).unwrap();
    assert_eq!(version.0, "");
    assert_ne!(version.0, "latest");
}

#[test]
fn empty_value_gives_empty_version() {
    let version = version_with("X-Version", HeaderValue::from_static("")).unwrap();
    assert_eq!(version.0, "");
}

#[test]
fn invalid_utf8_value_is_rejected() {
    let value = HeaderValue::from_bytes(&[b'v', 0xff, 0xfe]).unwrap();
    let version = version_with("x-version", value);
    assert_eq!(version.unwrap_err(), VersionRejection::MalformedHeader);
}

#[test]
fn non_ascii_utf8_value_is_normalized() {
    let value = HeaderValue::from_bytes(" \u{c9}T\u{c9} ".as_bytes()).unwrap();
    let version = version_with("x-version", value).unwrap();
    assert_eq!(version.0, "\u{e9}t\u{e9}");
}

#[test]
fn first_of_repeated_values_is_used() {
    let request = Request::builder()
        .header("x-version", "First")
        .header("X-Version", "second")
        .body(Body::empty())
        .unwrap();
    let version = ExtractVersion::from_headers(&headers_of(request)).unwrap();
    assert_eq!(version.0, "first");
}

#[test]
fn raw_value_absent_gives_default() {
    let version = ExtractVersion::from_header_value(None).unwrap();
    assert_eq!(version.0, "latest");
}

#[test]
fn raw_value_is_trimmed_and_lowercased() {
    let version = ExtractVersion::from_header_value(Some(b"\t V1.0.0-RC1 \r\n".as_slice())).unwrap();
    assert_eq!(version.0, "v1.0.0-rc1");
}

#[test]
fn raw_value_with_invalid_bytes_is_rejected() {
    let version = ExtractVersion::from_header_value(Some([0xc3u8, 0x28].as_slice()));
    assert_eq!(version.unwrap_err(), VersionRejection::MalformedHeader);
}

#[test]
fn rejection_message() {
    assert_eq!(VersionRejection::MalformedHeader.message(), "malformed version header");
}

#[test]
fn normalize_trims_unicode_whitespace() {
    assert_eq!(normalize_version("\u{3000}Beta\u{a0}"), "beta");
    assert_eq!(normalize_version("\u{2003}\u{85}\n"), "");
}

#[test]
fn normalize_keeps_inner_whitespace() {
    assert_eq!(normalize_version("  Release Candidate  "), "release candidate");
}

#[test]
fn normalized_value_is_unchanged() {
    for v in ["v1.0.0", "preview", "latest", "", "été"] {
        assert_eq!(normalize_version(v), v);
        assert_eq!(normalize_version(&normalize_version(v)), normalize_version(v));
    }
}
