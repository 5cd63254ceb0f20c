use hyper::header::HeaderValue;
use hyper::HeaderMap;
use lambda_runtime_client::{ErrorKind, LambdaHeaders, RuntimeClient};

const CLIENT_JSON: &str = "{\"client\":{\"installationId\":\"inst-1\",\"appTitle\":\"Title\",\"appVersionName\":\"1.2\",\"appVersionCode\":\"12\",\"appPackageName\":\"com.example\"},\"custom\":{\"k1\":\"v1\",\"k2\":\"v2\"},\"environment\":{\"os\":\"linux\"}}";

const IDENTITY_JSON: &str = "{\"identity_id\":\"id-7\",\"identity_pool_id\":\"pool-9\"}";

fn required_headers() -> HeaderMap<HeaderValue> {
    let mut headers = HeaderMap::new();
    headers.insert("Lambda-Runtime-Aws-Request-Id", HeaderValue::from_static("req-123"));
    headers.insert(
        "Lambda-Runtime-Invoked-Function-Arn",
        HeaderValue::from_static("arn:aws:lambda:us-east-1:1234:function:f"),
    );
    headers.insert("Lambda-Runtime-Trace-Id", HeaderValue::from_static("Root=1-5759e988"));
    headers.insert("Lambda-Runtime-Deadline-Ms", HeaderValue::from_static("1542409706888"));
    headers
}

fn all_headers() -> HeaderMap<HeaderValue> {
    let mut headers = required_headers();
    headers.insert("Lambda-Runtime-Client-Context", HeaderValue::from_static(CLIENT_JSON));
    headers.insert("Lambda-Runtime-Cognito-Identity", HeaderValue::from_static(IDENTITY_JSON));
    headers
}

fn without(name: &str) -> HeaderMap<HeaderValue> {
    let mut headers = all_headers();
    headers.remove(name);
    headers
}

#[test]
fn header_names_are_the_protocol_names() {
    assert_eq!(LambdaHeaders::RequestId.as_str(), "Lambda-Runtime-Aws-Request-Id");
    assert_eq!(LambdaHeaders::FunctionArn.as_str(), "Lambda-Runtime-Invoked-Function-Arn");
    assert_eq!(LambdaHeaders::TraceId.as_str(), "Lambda-Runtime-Trace-Id");
    assert_eq!(LambdaHeaders::Deadline.as_str(), "Lambda-Runtime-Deadline-Ms");
    assert_eq!(LambdaHeaders::ClientContext.as_str(), "Lambda-Runtime-Client-Context");
    assert_eq!(LambdaHeaders::CognitoIdentity.as_str(), "Lambda-Runtime-Cognito-Identity");
    assert_eq!(LambdaHeaders::Deadline.to_string(), "Lambda-Runtime-Deadline-Ms");
}

#[test]
fn required_headers_give_a_context() {
    let ctx = RuntimeClient::get_event_context(&required_headers()).unwrap();
    assert_eq!(ctx.aws_request_id, "req-123");
    assert_eq!(ctx.invoked_function_arn, "arn:aws:lambda:us-east-1:1234:function:f");
    assert_eq!(ctx.xray_trace_id, "Root=1-5759e988");
    assert_eq!(ctx.deadline, 1542409706888);
    assert!(ctx.client_context.is_none());
    assert!(ctx.identity.is_none());
}

#[test]
fn all_six_headers_give_every_field() {
    let ctx = RuntimeClient::get_event_context(&all_headers()).unwrap();
    assert_eq!(ctx.aws_request_id, "req-123");
    assert_eq!(ctx.invoked_function_arn, "arn:aws:lambda:us-east-1:1234:function:f");
    assert_eq!(ctx.xray_trace_id, "Root=1-5759e988");
    assert_eq!(ctx.deadline, 1542409706888);
    let client_context = ctx.client_context.unwrap();
    assert_eq!(client_context.client.installation_id, "inst-1");
    assert_eq!(client_context.client.app_title, "Title");
    assert_eq!(client_context.client.app_version_name, "1.2");
    assert_eq!(client_context.client.app_version_code, "12");
    assert_eq!(client_context.client.app_package_name, "com.example");
    assert_eq!(client_context.custom.len(), 2);
    assert_eq!(client_context.custom.get("k1").unwrap(), "v1");
    assert_eq!(client_context.custom.get("k2").unwrap(), "v2");
    assert!(client_context.custom.get("k3").is_none());
    assert_eq!(client_context.environment.len(), 1);
    assert_eq!(client_context.environment.get("os").unwrap(), "linux");
    let identity = ctx.identity.unwrap();
    assert_eq!(identity.identity_id, "id-7");
    assert_eq!(identity.identity_pool_id, "pool-9");
}

#[test]
fn missing_request_id_is_named() {
    let e = RuntimeClient::get_event_context(&without("Lambda-Runtime-Aws-Request-Id")).unwrap_err();
    assert_eq!(e.kind(), ErrorKind::MissingHeader(LambdaHeaders::RequestId));
    assert_eq!(e.message(), "Missing Lambda-Runtime-Aws-Request-Id header");
    assert!(e.is_recoverable());
}

#[test]
fn missing_function_arn_is_named() {
    let e = RuntimeClient::get_event_context(&without("Lambda-Runtime-Invoked-Function-Arn"))
        .unwrap_err();
    assert_eq!(e.kind(), ErrorKind::MissingHeader(LambdaHeaders::FunctionArn));
    assert_eq!(e.message(), "Missing Lambda-Runtime-Invoked-Function-Arn header");
    assert!(e.is_recoverable());
}

#[test]
fn missing_trace_id_is_named() {
    let e = RuntimeClient::get_event_context(&without("Lambda-Runtime-Trace-Id")).unwrap_err();
    assert_eq!(e.kind(), ErrorKind::MissingHeader(LambdaHeaders::TraceId));
    assert_eq!(e.message(), "Missing Lambda-Runtime-Trace-Id header");
}

#[test]
fn missing_deadline_is_named() {
    let e = RuntimeClient::get_event_context(&without("Lambda-Runtime-Deadline-Ms")).unwrap_err();
    assert_eq!(e.kind(), ErrorKind::MissingHeader(LambdaHeaders::Deadline));
    assert_eq!(e.message(), "Missing Lambda-Runtime-Deadline-Ms header");
    assert_eq!(e.to_string(), "Missing Lambda-Runtime-Deadline-Ms header");
}

#[test]
fn empty_headers_name_the_first_required_header() {
    let e = RuntimeClient::get_event_context(&HeaderMap::new()).unwrap_err();
    assert_eq!(e.kind(), ErrorKind::MissingHeader(LambdaHeaders::RequestId));
}

#[test]
fn an_earlier_header_that_is_not_text_comes_before_a_missing_one() {
    let mut headers = without("Lambda-Runtime-Deadline-Ms");
    headers.insert("Lambda-Runtime-Aws-Request-Id", HeaderValue::from_bytes(&[0xfa, 0x41]).unwrap());
    let e = RuntimeClient::get_event_context(&headers).unwrap_err();
    assert_eq!(e.kind(), ErrorKind::HeaderNotText(LambdaHeaders::RequestId));
    assert_eq!(e.message(), "Value of Lambda-Runtime-Aws-Request-Id header is not visible ASCII");
}

#[test]
fn header_names_are_found_in_any_letter_case() {
    let mut headers = HeaderMap::new();
    headers.insert("lambda-runtime-aws-request-id", HeaderValue::from_static("a"));
    headers.insert("LAMBDA-RUNTIME-INVOKED-FUNCTION-ARN", HeaderValue::from_static("b"));
    headers.insert("lambda-Runtime-trace-Id", HeaderValue::from_static("c"));
    headers.insert("lambda-runtime-deadline-ms", HeaderValue::from_static("-5"));
    let ctx = RuntimeClient::get_event_context(&headers).unwrap();
    assert_eq!(ctx.aws_request_id, "a");
    assert_eq!(ctx.invoked_function_arn, "b");
    assert_eq!(ctx.xray_trace_id, "c");
    assert_eq!(ctx.deadline, -5);
}

#[test]
fn the_first_of_several_values_is_read() {
    let mut headers = required_headers();
    headers.append("Lambda-Runtime-Aws-Request-Id", HeaderValue::from_static("second"));
    let ctx = RuntimeClient::get_event_context(&headers).unwrap();
    assert_eq!(ctx.aws_request_id, "req-123");
}

#[test]
fn a_deadline_that_is_no_number_is_malformed() {
    let mut headers = required_headers();
    headers.insert("Lambda-Runtime-Deadline-Ms", HeaderValue::from_static("soon"));
    let e = RuntimeClient::get_event_context(&headers).unwrap_err();
    assert_eq!(e.kind(), ErrorKind::MalformedHeader(LambdaHeaders::Deadline));
    assert_eq!(e.message(), "Malformed Lambda-Runtime-Deadline-Ms header");
    assert!(e.is_recoverable());
}

#[test]
fn a_deadline_out_of_range_is_malformed() {
    let mut headers = required_headers();
    headers.insert("Lambda-Runtime-Deadline-Ms", HeaderValue::from_static("9223372036854775808"));
    let e = RuntimeClient::get_event_context(&headers).unwrap_err();
    assert_eq!(e.kind(), ErrorKind::MalformedHeader(LambdaHeaders::Deadline));
}

#[test]
fn a_value_with_a_tab_is_text() {
    let mut headers = required_headers();
    headers.insert("Lambda-Runtime-Trace-Id", HeaderValue::from_static("a\tb c"));
    let ctx = RuntimeClient::get_event_context(&headers).unwrap();
    assert_eq!(ctx.xray_trace_id, "a\tb c");
}

#[test]
fn a_trace_id_that_is_not_text_is_refused() {
    let mut headers = required_headers();
    headers.insert("Lambda-Runtime-Trace-Id", HeaderValue::from_bytes(&[0x80]).unwrap());
    let e = RuntimeClient::get_event_context(&headers).unwrap_err();
    assert_eq!(e.kind(), ErrorKind::HeaderNotText(LambdaHeaders::TraceId));
}

#[test]
fn client_context_that_is_not_json_is_malformed() {
    let mut headers = all_headers();
    headers.insert("Lambda-Runtime-Client-Context", HeaderValue::from_static("{not json"));
    let e = RuntimeClient::get_event_context(&headers).unwrap_err();
    assert_eq!(e.kind(), ErrorKind::MalformedJson(LambdaHeaders::ClientContext));
    assert_eq!(e.message(), "Malformed JSON in Lambda-Runtime-Client-Context header");
    assert!(e.is_recoverable());
}

#[test]
fn client_context_without_a_member_is_malformed() {
    let mut headers = all_headers();
    headers.insert(
        "Lambda-Runtime-Client-Context",
        HeaderValue::from_static("{\"client\":{\"installationId\":\"i\",\"appTitle\":\"t\",\"appVersionName\":\"n\",\"appVersionCode\":\"c\",\"appPackageName\":\"p\"},\"custom\":{}}"),
    );
    let e = RuntimeClient::get_event_context(&headers).unwrap_err();
    assert_eq!(e.kind(), ErrorKind::MalformedJson(LambdaHeaders::ClientContext));
}

#[test]
fn client_context_with_a_number_in_custom_is_malformed() {
    let mut headers = all_headers();
    headers.insert(
        "Lambda-Runtime-Client-Context",
        HeaderValue::from_static("{\"client\":{\"installationId\":\"i\",\"appTitle\":\"t\",\"appVersionName\":\"n\",\"appVersionCode\":\"c\",\"appPackageName\":\"p\"},\"custom\":{\"a\":1},\"environment\":{}}"),
    );
    let e = RuntimeClient::get_event_context(&headers).unwrap_err();
    assert_eq!(e.kind(), ErrorKind::MalformedJson(LambdaHeaders::ClientContext));
}

#[test]
fn client_context_with_empty_maps_and_other_members_is_read() {
    let mut headers = required_headers();
    headers.insert(
        "Lambda-Runtime-Client-Context",
        HeaderValue::from_static("{\"extra\":[1,2],\"client\":{\"installationId\":\"i\",\"appTitle\":\"t\",\"appVersionName\":\"n\",\"appVersionCode\":\"c\",\"appPackageName\":\"p\",\"more\":null},\"custom\":{},\"environment\":{}}"),
    );
    let ctx = RuntimeClient::get_event_context(&headers).unwrap();
    let client_context = ctx.client_context.unwrap();
    assert_eq!(client_context.client.app_package_name, "p");
    assert!(client_context.custom.is_empty());
    assert!(client_context.environment.is_empty());
    assert!(ctx.identity.is_none());
}

#[test]
fn identity_that_is_not_json_is_malformed() {
    let mut headers = all_headers();
    headers.insert("Lambda-Runtime-Cognito-Identity", HeaderValue::from_static("id-7"));
    let e = RuntimeClient::get_event_context(&headers).unwrap_err();
    assert_eq!(e.kind(), ErrorKind::MalformedJson(LambdaHeaders::CognitoIdentity));
    assert_eq!(e.message(), "Malformed JSON in Lambda-Runtime-Cognito-Identity header");
}

#[test]
fn identity_with_a_member_that_is_no_string_is_malformed() {
    let mut headers = all_headers();
    headers.insert(
        "Lambda-Runtime-Cognito-Identity",
        HeaderValue::from_static("{\"identity_id\":7,\"identity_pool_id\":\"pool\"}"),
    );
    let e = RuntimeClient::get_event_context(&headers).unwrap_err();
    assert_eq!(e.kind(), ErrorKind::MalformedJson(LambdaHeaders::CognitoIdentity));
}

#[test]
fn identity_that_is_an_array_is_malformed() {
    let mut headers = all_headers();
    headers.insert("Lambda-Runtime-Cognito-Identity", HeaderValue::from_static("[\"a\",\"b\"]"));
    let e = RuntimeClient::get_event_context(&headers).unwrap_err();
    assert_eq!(e.kind(), ErrorKind::MalformedJson(LambdaHeaders::CognitoIdentity));
}

#[test]
fn a_malformed_client_context_comes_before_a_malformed_identity() {
    let mut headers = all_headers();
    headers.insert("Lambda-Runtime-Client-Context", HeaderValue::from_static("[]"));
    headers.insert("Lambda-Runtime-Cognito-Identity", HeaderValue::from_bytes(&[0xff]).unwrap());
    let e = RuntimeClient::get_event_context(&headers).unwrap_err();
    assert_eq!(e.kind(), ErrorKind::MalformedJson(LambdaHeaders::ClientContext));
}

#[test]
fn identity_that_is_not_text_is_refused() {
    let mut headers = all_headers();
    headers.insert("Lambda-Runtime-Cognito-Identity", HeaderValue::from_bytes(&[0xff]).unwrap());
    let e = RuntimeClient::get_event_context(&headers).unwrap_err();
    assert_eq!(e.kind(), ErrorKind::HeaderNotText(LambdaHeaders::CognitoIdentity));
}

#[test]
fn json_escapes_in_a_header_are_resolved() {
    let mut headers = required_headers();
    headers.insert(
        "Lambda-Runtime-Cognito-Identity",
        HeaderValue::from_static("{\"identity_id\":\"a\\\"b\\u0041\",\"identity_pool_id\":\"\"}"),
    );
    let ctx = RuntimeClient::get_event_context(&headers).unwrap();
    let identity = ctx.identity.unwrap();
    assert_eq!(identity.identity_id, "a\"bA");
    assert_eq!(identity.identity_pool_id, "");
}

#[test]
fn decoding_twice_gives_the_same_context() {
    let headers = all_headers();
    let first = RuntimeClient::get_event_context(&headers).unwrap();
    let second = RuntimeClient::get_event_context(&headers).unwrap();
    assert_eq!(first.aws_request_id, second.aws_request_id);
    assert_eq!(first.invoked_function_arn, second.invoked_function_arn);
    assert_eq!(first.xray_trace_id, second.xray_trace_id);
    assert_eq!(first.deadline, second.deadline);
    let (c1, c2) = (first.client_context.unwrap(), second.client_context.unwrap());
    assert_eq!(c1.client.installation_id, c2.client.installation_id);
    assert_eq!(c1.client.app_title, c2.client.app_title);
    assert_eq!(c1.client.app_version_name, c2.client.app_version_name);
    assert_eq!(c1.client.app_version_code, c2.client.app_version_code);
    assert_eq!(c1.client.app_package_name, c2.client.app_package_name);
    assert_eq!(c1.custom.entries(), c2.custom.entries());
    assert_eq!(c1.environment.entries(), c2.environment.entries());
    let (i1, i2) = (first.identity.unwrap(), second.identity.unwrap());
    assert_eq!(i1.identity_id, i2.identity_id);
    assert_eq!(i1.identity_pool_id, i2.identity_pool_id);
}

#[test]
fn decoding_twice_gives_the_same_error() {
    let headers = without("Lambda-Runtime-Trace-Id");
    let first = RuntimeClient::get_event_context(&headers).unwrap_err();
    let second = RuntimeClient::get_event_context(&headers).unwrap_err();
    assert_eq!(first.kind(), second.kind());
    assert_eq!(first.message(), second.message());
    assert_eq!(first.is_recoverable(), second.is_recoverable());
}
