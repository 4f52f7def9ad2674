use ofborg::signature::{github_signature_256, github_verify_signature};
use ofborg::webhook::{
    decide_request, header_parts, publish_reply, reply_after, webhook_amqp_setup, WebhookDecision, WebhookReply,
    WebhookRequest,
};

const SECRET: &str = "test-secret";

fn minimal_valid_webhook() -> &'static str {
    r#"{"repository":{"owner":{"login":"test"},"name":"test-repo","full_name":"test/test-repo","clone_url":"https://github.com/test/test-repo.git"}}"#
}

fn signed(body: &[u8]) -> WebhookRequest {
    WebhookRequest {
        is_post: true,
        signature: Some(github_signature_256(SECRET, body)),
        event_type: Some("pull_request".to_owned()),
        content_type: Some("application/json".to_owned()),
    }
}

fn reply(status: u16, body: &str) -> WebhookDecision {
    WebhookDecision::Reply(WebhookReply {
        status,
        body: body.to_owned(),
    })
}

#[test]
fn test_method_not_allowed() {
    let body = minimal_valid_webhook().as_bytes();
    let mut req = signed(body);
    req.is_post = false;
    assert_eq!(
        decide_request(&req, Some(body), SECRET, Some("test/test-repo")),
        reply(405, "")
    );
}

#[test]
fn test_missing_signature_header() {
    let body = minimal_valid_webhook().as_bytes();
    let mut req = signed(body);
    req.signature = None;
    assert_eq!(
        decide_request(&req, Some(body), SECRET, Some("test/test-repo")),
        reply(400, "Missing signature header")
    );
}

#[test]
fn test_invalid_signature_hash_method() {
    let body = minimal_valid_webhook().as_bytes();
    let mut req = signed(body);
    req.signature = Some("sha1=abc123".to_owned());
    assert_eq!(
        decide_request(&req, Some(body), SECRET, Some("test/test-repo")),
        reply(400, "Invalid signature hash method")
    );
}

#[test]
fn test_signature_verification_failed() {
    let body = minimal_valid_webhook().as_bytes();
    let mut req = signed(body);
    req.signature = Some(
        "sha256=0000000000000000000000000000000000000000000000000000000000000000".to_owned(),
    );
    assert_eq!(
        decide_request(&req, Some(body), SECRET, Some("test/test-repo")),
        reply(400, "Signature verification failed")
    );
}

#[test]
fn test_missing_content_type() {
    let body = minimal_valid_webhook().as_bytes();
    let mut req = signed(body);
    req.content_type = None;
    assert_eq!(
        decide_request(&req, Some(body), SECRET, Some("test/test-repo")),
        reply(400, "No Content-Type header passed")
    );
}

#[test]
fn test_invalid_content_type() {
    let body = minimal_valid_webhook().as_bytes();
    let mut req = signed(body);
    req.content_type = Some("text/plain".to_owned());
    assert_eq!(
        decide_request(&req, Some(body), SECRET, Some("test/test-repo")),
        reply(
            400,
            "Content-Type is not application/json. Webhook misconfigured?"
        )
    );
}

#[test]
fn test_invalid_json() {
    let body = b"not valid json {{{";
    let req = signed(body);
    assert_eq!(
        decide_request(&req, Some(body), SECRET, None),
        reply(400, "Invalid JSON")
    );
}

#[test]
fn test_missing_event_type() {
    let body = minimal_valid_webhook().as_bytes();
    let mut req = signed(body);
    req.event_type = None;
    assert_eq!(
        decide_request(&req, Some(body), SECRET, Some("test/test-repo")),
        reply(400, "Missing event type")
    );
}

#[test]
fn test_successful_webhook_with_routing_key() {
    let body = minimal_valid_webhook().as_bytes();
    let req = signed(body);
    assert_eq!(
        decide_request(&req, Some(body), SECRET, Some("NixOS/nixpkgs")),
        WebhookDecision::Publish {
            exchange: "github-events".to_owned(),
            routing_key: "pull_request.nixos/nixpkgs".to_owned(),
            body: body.to_vec(),
        }
    );
}

#[test]
fn test_issue_comment_routing_key() {
    let body = minimal_valid_webhook().as_bytes();
    let mut req = signed(body);
    req.event_type = Some("issue_comment".to_owned());
    assert_eq!(
        decide_request(&req, Some(body), SECRET, Some("test/my-repo")),
        WebhookDecision::Publish {
            exchange: "github-events".to_owned(),
            routing_key: "issue_comment.test/my-repo".to_owned(),
            body: body.to_vec(),
        }
    );
}

#[test]
fn test_routing_key_lowercases_repo_name() {
    let body = minimal_valid_webhook().as_bytes();
    let req = signed(body);
    assert_eq!(
        decide_request(&req, Some(body), SECRET, Some("Test/MyRepo")),
        WebhookDecision::Publish {
            exchange: "github-events".to_owned(),
            routing_key: "pull_request.test/myrepo".to_owned(),
            body: body.to_vec(),
        }
    );
}

#[test]
fn unreadable_body_is_an_internal_error() {
    let req = signed(b"");
    assert_eq!(
        decide_request(&req, None, SECRET, None),
        reply(500, "Failed to read body")
    );
}

#[test]
fn signature_without_equals_sign() {
    let body = minimal_valid_webhook().as_bytes();
    let mut req = signed(body);
    req.signature = Some("sha256".to_owned());
    assert_eq!(
        decide_request(&req, Some(body), SECRET, Some("a/b")),
        reply(400, "Signature hash missing")
    );
}

#[test]
fn signature_with_bad_hex() {
    let body = minimal_valid_webhook().as_bytes();
    let mut req = signed(body);
    req.signature = Some("sha256=xyz".to_owned());
    assert_eq!(
        decide_request(&req, Some(body), SECRET, Some("a/b")),
        reply(400, "Invalid signature hash hex")
    );
    req.signature = Some("sha256=abc".to_owned());
    assert_eq!(
        decide_request(&req, Some(body), SECRET, Some("a/b")),
        reply(400, "Invalid signature hash hex")
    );
}

#[test]
fn uppercase_hex_signature_is_accepted() {
    let body = minimal_valid_webhook().as_bytes();
    let mut req = signed(body);
    let sig = req.signature.take().unwrap();
    let (algo, hex) = sig.split_once('=').unwrap();
    req.signature = Some(format!("{}={}", algo, hex.to_uppercase()));
    assert!(matches!(
        decide_request(&req, Some(body), SECRET, Some("a/b")),
        WebhookDecision::Publish { .. }
    ));
}

#[test]
fn content_type_with_charset_is_accepted() {
    let body = minimal_valid_webhook().as_bytes();
    let mut req = signed(body);
    req.content_type = Some("application/json; charset=utf-8".to_owned());
    assert!(matches!(
        decide_request(&req, Some(body), SECRET, Some("a/b")),
        WebhookDecision::Publish { .. }
    ));
}

#[test]
fn known_hmac_vector() {
    let sig = github_signature_256("Jefe", b"what do ya want for nothing?");
    assert_eq!(
        sig,
        "sha256=5bdcc146bf60754e6a042426089575c75a003f089d2739839dec58b964ec3843"
    );
    let tag =
        hex_bytes("5bdcc146bf60754e6a042426089575c75a003f089d2739839dec58b964ec3843");
    assert!(github_verify_signature(
        "Jefe",
        b"what do ya want for nothing?",
        &tag
    ));
    assert!(!github_verify_signature(
        "jefe",
        b"what do ya want for nothing?",
        &tag
    ));
    assert!(!github_verify_signature(
        "Jefe",
        b"what do ya want for nothing?",
        &tag[..31]
    ));
}

fn hex_bytes(s: &str) -> Vec<u8> {
    (0..s.len() / 2)
        .map(|i| u8::from_str_radix(&s[2 * i..2 * i + 2], 16).unwrap())
        .collect()
}

#[test]
fn publish_outcome_replies() {
    assert_eq!(
        publish_reply(true),
        WebhookReply {
            status: 204,
            body: String::new()
        }
    );
    assert_eq!(
        publish_reply(false),
        WebhookReply {
            status: 500,
            body: "Failed to publish message".to_owned()
        }
    );
}

#[test]
fn receiver_broker_setup() {
    let plan = webhook_amqp_setup();
    assert_eq!(plan.len(), 7);
    let text = format!("{:?}", plan);
    assert!(text.contains("github-events"));
    assert!(text.contains("issue_comment.*"));
    assert!(text.contains("mass-rebuild-check-inputs"));
}

#[test]
fn header_arguments() {
    assert_eq!(
        header_parts(" X-Test = a=b "),
        Ok(("X-Test".to_owned(), "a=b".to_owned()))
    );
    assert_eq!(
        header_parts("nothing"),
        Err("invalid --header format: expected Name=Value, got nothing".to_owned())
    );
}

#[test]
fn a_forwarded_webhook_is_answered_by_how_the_publication_went() {
    let body = minimal_valid_webhook().as_bytes();
    let req = signed(body);
    let decision = decide_request(&req, Some(body), SECRET, Some("NixOS/nixpkgs"));
    match &decision {
        WebhookDecision::Publish { body: sent, .. } => assert_eq!(sent.as_slice(), body),
        other => panic!("unexpected {other:?}"),
    }
    let ok = reply_after(decide_request(&req, Some(body), SECRET, Some("NixOS/nixpkgs")), true);
    assert_eq!(ok.status, 204);
    assert_eq!(ok.body, "");
    let failed = reply_after(decision, false);
    assert_eq!(failed.status, 500);
    assert_eq!(failed.body, "Failed to publish message");
    let refused = reply_after(decide_request(&req, None, SECRET, None), true);
    assert_eq!(refused.status, 500);
    assert_eq!(refused.body, "Failed to read body");
}
