use pajama::discovery::{discovery_result, discovery_url, MetadataFields};
use pajama::error::{LoginError, ParseSubject};
use pajama::reply::{check_status, parse_error, status_is_success, Stage};

fn fields(authorization: Option<&str>, token: Option<&str>) -> Option<MetadataFields> {
    Some(MetadataFields {
        issuer: Some("https://auth.example.com".to_string()),
        authorization_endpoint: authorization.map(|s| s.to_string()),
        token_endpoint: token.map(|s| s.to_string()),
        registration_endpoint: None,
    })
}

#[test]
fn discovery_url_is_below_the_base() {
    assert_eq!(
        discovery_url("https://api.example.com"),
        "https://api.example.com/.well-known/oauth-authorization-server"
    );
    assert_eq!(
        discovery_url("https://api.example.com///"),
        "https://api.example.com/.well-known/oauth-authorization-server"
    );
    assert_eq!(
        discovery_url("https://api.example.com/v1/"),
        "https://api.example.com/v1/.well-known/oauth-authorization-server"
    );
    assert_eq!(discovery_url(""), "/.well-known/oauth-authorization-server");
    assert_eq!(discovery_url("//"), "/.well-known/oauth-authorization-server");
}

#[test]
fn discovery_answers() {
    let meta = discovery_result(200, "{}".to_string(), fields(Some("a"), Some("t"))).unwrap();
    assert_eq!(meta.authorization_endpoint, "a");
    assert_eq!(meta.token_endpoint, "t");
    assert_eq!(meta.issuer, Some("https://auth.example.com".to_string()));
    assert_eq!(meta.registration_endpoint, None);
    assert!(matches!(
        discovery_result(404, "gone".to_string(), fields(Some("a"), Some("t"))),
        Err(LoginError::Discovery { status: 404, body }) if body == "gone"
    ));
    assert!(matches!(
        discovery_result(200, "{}".to_string(), fields(None, Some("t"))),
        Err(LoginError::Parse(ParseSubject::Metadata))
    ));
    assert!(matches!(
        discovery_result(200, "{}".to_string(), fields(Some("a"), None)),
        Err(LoginError::Parse(ParseSubject::Metadata))
    ));
    assert!(matches!(
        discovery_result(200, "not json".to_string(), None),
        Err(LoginError::Parse(ParseSubject::Metadata))
    ));
}

#[test]
fn only_2xx_is_success() {
    for status in [200u16, 201, 204, 250, 299] {
        assert!(status_is_success(status));
    }
    for status in [0u16, 100, 199, 300, 301, 400, 404, 500, 65535] {
        assert!(!status_is_success(status));
    }
}

#[test]
fn a_failed_status_keeps_status_and_body() {
    assert!(check_status(Stage::Discovery, 200, "b".to_string()).is_ok());
    assert!(matches!(
        check_status(Stage::Discovery, 500, "b".to_string()),
        Err(LoginError::Discovery { status: 500, body }) if body == "b"
    ));
    assert!(matches!(
        check_status(Stage::Registration, 403, "r".to_string()),
        Err(LoginError::Registration { status: 403, body }) if body == "r"
    ));
    assert!(matches!(
        check_status(Stage::TokenExchange, 302, "t".to_string()),
        Err(LoginError::TokenExchange { status: 302, body }) if body == "t"
    ));
}

#[test]
fn each_stage_has_its_parse_error() {
    assert!(matches!(parse_error(Stage::Discovery), LoginError::Parse(ParseSubject::Metadata)));
    assert!(matches!(
        parse_error(Stage::Registration),
        LoginError::Parse(ParseSubject::Registration)
    ));
    assert!(matches!(parse_error(Stage::TokenExchange), LoginError::Parse(ParseSubject::Token)));
}

#[test]
fn each_error_has_one_message() {
    assert_eq!(
        LoginError::Discovery { status: 503, body: "down".to_string() }.message(),
        "oauth metadata request failed (HTTP 503): down"
    );
    assert_eq!(LoginError::Parse(ParseSubject::Metadata).message(), "parse oauth metadata json");
    assert_eq!(
        LoginError::Parse(ParseSubject::Registration).message(),
        "parse register response json"
    );
    assert_eq!(LoginError::Parse(ParseSubject::Token).message(), "parse token response json");
    assert_eq!(
        LoginError::Parse(ParseSubject::AuthorizationEndpoint).message(),
        "parse authorization_endpoint"
    );
    assert_eq!(
        LoginError::RegistrationUnsupported.message(),
        "oauth server does not expose a registration_endpoint"
    );
    assert_eq!(
        LoginError::Registration { status: 400, body: "".to_string() }.message(),
        "client registration failed (HTTP 400): "
    );
    assert_eq!(LoginError::Bind.message(), "bind loopback callback server");
    assert_eq!(LoginError::RandomSource.message(), "draw random bytes for the login secrets");
    assert_eq!(LoginError::UrlTooLong.message(), "authorization url is too long");
    assert_eq!(LoginError::Timeout.message(), "timeout waiting for oauth callback");
    assert_eq!(LoginError::ListenerFailed.message(), "failed to accept callback connection");
    assert_eq!(
        LoginError::TokenExchange { status: 401, body: "{\"error\":\"x\"}".to_string() }.message(),
        "token exchange failed (HTTP 401): {\"error\":\"x\"}"
    );
    assert_eq!(
        LoginError::UnexpectedTokenType { token_type: "mac".to_string() }.message(),
        "unexpected token_type 'mac' (expected Bearer)"
    );
}
