use docparse::error::AppError;
use docparse::upload_target::{
    non_empty, resolve_upload_target, validate_base_url, validate_upload_path,
    CustomUploadConfig, CustomUploadType, UploadTargetParams,
};

fn global(base_url: &str) -> CustomUploadConfig {
    CustomUploadConfig {
        base_url: base_url.to_string(),
        api_key: "global-key".to_string(),
        path: "/api/v1/file/upload".to_string(),
    }
}

#[test]
fn test_no_params_and_empty_global_returns_none() {
    let result = resolve_upload_target(&UploadTargetParams::default(), &global("")).unwrap();
    assert!(result.is_none());
}

#[test]
fn test_any_param_without_base_url_fails_fast() {
    let params = UploadTargetParams {
        upload_api_key: Some("ak-xxx".to_string()),
        ..Default::default()
    };
    let err = resolve_upload_target(&params, &global("")).unwrap_err();
    assert!(matches!(err, AppError::Validation(_)));

    let params = UploadTargetParams {
        upload_path: Some("/p".to_string()),
        ..Default::default()
    };
    assert!(resolve_upload_target(&params, &global("")).is_err());

    let params = UploadTargetParams {
        upload_type: Some(CustomUploadType::Tmp),
        ..Default::default()
    };
    assert!(resolve_upload_target(&params, &global("")).is_err());
}

#[test]
fn test_global_only_enables_custom_backend() {
    let result = resolve_upload_target(&UploadTargetParams::default(), &global("https://g.com"))
        .unwrap()
        .expect("Some");
    assert_eq!(result.base_url, "https://g.com");
    assert_eq!(result.path, "/api/v1/file/upload");
    assert_eq!(result.api_key, "global-key");
    assert_eq!(result.upload_type, CustomUploadType::Store);
}

#[test]
fn test_request_overrides_global_field_by_field() {
    let params = UploadTargetParams {
        upload_base_url: Some("https://r.com/".to_string()),
        upload_path: Some("/custom/path".to_string()),
        upload_api_key: Some("req-key".to_string()),
        upload_type: Some(CustomUploadType::Tmp),
    };
    let result = resolve_upload_target(&params, &global("https://g.com"))
        .unwrap()
        .expect("Some");
    assert_eq!(result.base_url, "https://r.com");
    assert_eq!(result.path, "/custom/path");
    assert_eq!(result.api_key, "req-key");
    assert_eq!(result.upload_type, CustomUploadType::Tmp);

    let params = UploadTargetParams {
        upload_base_url: Some("https://r2.com".to_string()),
        ..Default::default()
    };
    let result = resolve_upload_target(&params, &global("https://g.com"))
        .unwrap()
        .expect("Some");
    assert_eq!(result.base_url, "https://r2.com");
    assert_eq!(result.path, "/api/v1/file/upload");
    assert_eq!(result.api_key, "global-key");
}

#[test]
fn test_request_base_url_with_empty_global() {
    let params = UploadTargetParams {
        upload_base_url: Some("https://r.com".to_string()),
        upload_api_key: Some("k".to_string()),
        ..Default::default()
    };
    let result = resolve_upload_target(&params, &global(""))
        .unwrap()
        .expect("Some");
    assert_eq!(result.base_url, "https://r.com");
    assert_eq!(result.path, "/api/v1/file/upload");
    assert_eq!(result.api_key, "k");
}

#[test]
fn test_invalid_path_rejected() {
    let params = UploadTargetParams {
        upload_base_url: Some("https://r.com".to_string()),
        upload_path: Some("no-leading-slash".to_string()),
        ..Default::default()
    };
    assert!(resolve_upload_target(&params, &global("")).is_err());

    let params = UploadTargetParams {
        upload_base_url: Some("https://r.com".to_string()),
        upload_path: Some("/p?x=1".to_string()),
        ..Default::default()
    };
    assert!(resolve_upload_target(&params, &global("")).is_err());
}

#[test]
fn test_invalid_base_url_rejected() {
    let params = UploadTargetParams {
        upload_base_url: Some("ftp://r.com".to_string()),
        ..Default::default()
    };
    assert!(resolve_upload_target(&params, &global("")).is_err());

    let params = UploadTargetParams {
        upload_base_url: Some("not a url".to_string()),
        ..Default::default()
    };
    assert!(resolve_upload_target(&params, &global("")).is_err());
}

#[test]
fn test_base_url_with_query_or_fragment_rejected() {
    let params = UploadTargetParams {
        upload_base_url: Some("https://r.com?lang=1".to_string()),
        ..Default::default()
    };
    assert!(resolve_upload_target(&params, &global("")).is_err());

    let params = UploadTargetParams {
        upload_base_url: Some("https://gw.r.com/#/app".to_string()),
        ..Default::default()
    };
    assert!(resolve_upload_target(&params, &global("")).is_err());
}

#[test]
fn whitespace_only_fields_count_as_absent() {
    assert_eq!(non_empty(Some("  ")), None);
    assert_eq!(non_empty(Some(" a ")), Some("a".to_string()));
    assert_eq!(non_empty(None), None);
    let params = UploadTargetParams {
        upload_base_url: Some("   ".to_string()),
        ..Default::default()
    };
    assert!(matches!(
        resolve_upload_target(&params, &global("")),
        Err(AppError::Validation(_))
    ));
}

#[test]
fn base_url_and_path_checks() {
    assert!(validate_base_url("https://example.com").is_ok());
    assert!(validate_base_url("http://h").is_ok());
    assert!(validate_base_url("https://").is_err());
    assert!(validate_upload_path("/a/b").is_ok());
    assert!(validate_upload_path("/a#b").is_err());
}

#[test]
fn empty_paths_fall_back_to_the_default_path() {
    let params = UploadTargetParams {
        upload_base_url: Some("https://r.com".to_string()),
        ..Default::default()
    };
    let mut g = global("");
    g.path = String::new();
    g.api_key = String::new();
    let result = resolve_upload_target(&params, &g).unwrap().expect("Some");
    assert_eq!(result.path, "/api/v1/file/upload");
    assert_eq!(result.api_key, "");
}
