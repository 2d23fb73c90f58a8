use instagram_scraper_rs::requests::auth::UsernamePasswordLoginResponse;
use instagram_scraper_rs::InstagramScraperError;
use instagram_scraper_rs::Session;

#[test]
fn should_initialize_session() {
    let session = Session::default();
    assert!(session.csrftoken.is_none());
    assert!(!session.authed());
}

#[test]
fn scraping_before_login_fails_unauthenticated() {
    let session = Session::default();
    assert!(matches!(
        session.begin_userinfo("example_user"),
        Err(InstagramScraperError::Unauthenticated)
    ));
    assert!(matches!(
        session.begin_profile_pic("1"),
        Err(InstagramScraperError::Unauthenticated)
    ));
    assert!(matches!(
        session.begin_posts("1", 10),
        Err(InstagramScraperError::Unauthenticated)
    ));
    assert!(matches!(
        session.begin_stories("1", 10),
        Err(InstagramScraperError::Unauthenticated)
    ));
}

#[test]
fn logout_before_login_fails_unauthenticated() {
    let session = Session::default();
    assert!(matches!(
        session.logout_form(),
        Err(InstagramScraperError::Unauthenticated)
    ));
}

#[test]
fn login_then_logout_requires_fresh_login() {
    let mut session = Session::default();
    session.complete_login("tok".to_string());
    assert!(session.authed());
    assert!(session.begin_userinfo("someone").is_ok());
    let form = session.logout_form().unwrap();
    assert_eq!(form, vec![("csrfmiddlewaretoken".to_string(), "tok".to_string())]);
    session.reset();
    assert!(!session.authed());
    assert!(matches!(
        session.begin_userinfo("someone"),
        Err(InstagramScraperError::Unauthenticated)
    ));
}

#[test]
fn csrf_response_decides_token() {
    assert_eq!(
        Session::process_csrf_response(200, Some("tok".to_string())).unwrap(),
        "tok"
    );
    assert!(matches!(
        Session::process_csrf_response(200, None),
        Err(InstagramScraperError::CsrfTokenIsMissing)
    ));
    assert!(matches!(
        Session::process_csrf_response(403, Some("tok".to_string())),
        Err(InstagramScraperError::RequestFailed(403))
    ));
}

#[test]
fn restrict_successful_accepts_2xx_only() {
    assert!(Session::restrict_successful(200).is_ok());
    assert!(Session::restrict_successful(204).is_ok());
    assert!(Session::restrict_successful(299).is_ok());
    assert!(matches!(
        Session::restrict_successful(301),
        Err(InstagramScraperError::RequestFailed(301))
    ));
    assert!(matches!(
        Session::restrict_successful(404),
        Err(InstagramScraperError::RequestFailed(404))
    ));
    assert!(matches!(
        Session::restrict_successful(500),
        Err(InstagramScraperError::RequestFailed(500))
    ));
}

#[test]
fn login_response_keeps_token_or_reports_rejection() {
    let ok = UsernamePasswordLoginResponse {
        authenticated: true,
        status: Some("ok".to_string()),
        message: None,
    };
    assert_eq!(
        Session::process_login_response("tok".to_string(), ok).unwrap(),
        "tok"
    );
    let rejected = UsernamePasswordLoginResponse {
        authenticated: false,
        status: Some("fail".to_string()),
        message: Some("bad password".to_string()),
    };
    match Session::process_login_response("tok".to_string(), rejected) {
        Err(InstagramScraperError::AuthenticationFailed { status, message }) => {
            assert_eq!(status, "fail");
            assert_eq!(message, "bad password");
        }
        other => panic!("unexpected result: {:?}", other),
    }
    let bare = UsernamePasswordLoginResponse {
        authenticated: false,
        status: None,
        message: None,
    };
    match Session::process_login_response("tok".to_string(), bare) {
        Err(InstagramScraperError::AuthenticationFailed { status, message }) => {
            assert_eq!(status, "");
            assert_eq!(message, "");
        }
        other => panic!("unexpected result: {:?}", other),
    }
}

#[test]
fn errors_describe_themselves() {
    assert_eq!(
        InstagramScraperError::Unauthenticated.message(),
        "you are unauthenticated, you must call the login() method first"
    );
    assert_eq!(
        InstagramScraperError::CsrfTokenIsMissing.message(),
        "csrf token is missing in the login response"
    );
    assert_eq!(
        InstagramScraperError::AuthenticationFailed {
            status: "fail".to_string(),
            message: "checkpoint_required".to_string(),
        }
        .message(),
        "authentication failed. Status: fail, message: checkpoint_required"
    );
    assert_eq!(
        InstagramScraperError::RequestFailed(404).message(),
        "HTTP request response has a bad status code: 404"
    );
    assert_eq!(
        InstagramScraperError::TransportError.message(),
        "HTTP error: the request could not be completed"
    );
    assert_eq!(
        InstagramScraperError::DecodeError.message(),
        "the response payload did not match the expected shape"
    );
}

#[test]
fn csrf_token_rotates_in_place() {
    let mut session = Session::default();
    session.complete_login("old".to_string());
    session.update_csrftoken(None);
    assert_eq!(session.csrftoken.as_deref(), Some("old"));
    session.update_csrftoken(Some("fresh".to_string()));
    assert_eq!(session.csrftoken.as_deref(), Some("fresh"));
}
