//! The GitHub webhook receiver: which requests are answered how, and which
//! are forwarded to the broker under which routing key.

use vstd::prelude::*;
use vstd::string::StringExecFns;
use vstd::utf8::encode_utf8;

use crate::easyamqp::{
    binding, durable_queue, durable_topic_exchange, is_binding, is_durable_queue,
    is_durable_topic_exchange, Declaration,
};
use crate::ghevent::{split_once, split_once_at};
use crate::signature::{
    github_verify_signature, hex_decode, hex_decoded, hex_encoded, hmac_sha256_of, law_hex_round_trip,
    signature_header,
};
use crate::text::{
    contains_str, has_substring, str_eq, to_lowercase, trim, trimmed, unicode_lowercase,
};

verus! {

/// The exchange webhooks are forwarded to.
pub open spec fn events_exchange() -> Seq<char> {
    "github-events"@
}

/// An HTTP answer: a status code and a body (empty for no body).
#[derive(Debug, PartialEq, Eq)]
pub struct WebhookReply {
    pub status: u16,
    pub body: String,
}

/// What to do with a webhook request: answer it, or publish `body` (the
/// request's body) once to `exchange` under `routing_key` and answer by how
/// that went ([`reply_after`]).
#[derive(Debug, PartialEq, Eq)]
pub enum WebhookDecision {
    Reply(WebhookReply),
    Publish { exchange: String, routing_key: String, body: Vec<u8> },
}

/// The mathematical value of a [`WebhookDecision`].
pub enum WebhookAnswer {
    Reply { status: u16, body: Seq<char> },
    Publish { exchange: Seq<char>, routing_key: Seq<char>, body: Seq<u8> },
}

/// The value of a decision, strings taken by their characters.
pub open spec fn answer_of(d: WebhookDecision) -> WebhookAnswer {
    match d {
        WebhookDecision::Reply(r) => WebhookAnswer::Reply { status: r.status, body: r.body@ },
        WebhookDecision::Publish { exchange, routing_key, body } => WebhookAnswer::Publish {
            exchange: exchange@,
            routing_key: routing_key@,
            body: body@,
        },
    }
}

/// The headers of a webhook request the receiver reads, and whether it is
/// a `POST`.
#[derive(Debug)]
pub struct WebhookRequest {
    pub is_post: bool,
    pub signature: Option<String>,
    pub event_type: Option<String>,
    pub content_type: Option<String>,
}

/// An answer with `status` and `body`.
pub open spec fn reply(status: u16, body: Seq<char>) -> WebhookAnswer {
    WebhookAnswer::Reply { status, body }
}

/// The routing key a webhook of type `event` about repository `full_name`
/// is forwarded under: the event type, a dot, and the repository's full
/// name lowercased.
pub open spec fn routing_key_for(event: Seq<char>, full_name: Seq<char>) -> Seq<char> {
    event + "."@ + unicode_lowercase(full_name)
}

/// What a request is answered with. `body` is `None` when it could not be
/// read, `full_name` the repository full name read from the body as JSON,
/// `None` when the body is no such JSON. The checks come in this order:
/// method, body, signature header, its form, its hexadecimal tag, its hash
/// method, the tag itself, the content type, the JSON, the event type.
pub open spec fn webhook_answer(
    is_post: bool,
    signature: Option<Seq<char>>,
    event_type: Option<Seq<char>>,
    content_type: Option<Seq<char>>,
    body: Option<Seq<u8>>,
    secret: Seq<char>,
    full_name: Option<Seq<char>>,
) -> WebhookAnswer {
    if !is_post {
        reply(405, ""@)
    } else if body is None {
        reply(500, "Failed to read body"@)
    } else if signature is None {
        reply(400, "Missing signature header"@)
    } else {
        match split_once_at(signature->0, '=') {
            None => reply(400, "Signature hash missing"@),
            Some((algo, hash)) => match hex_decoded(hash) {
                None => reply(400, "Invalid signature hash hex"@),
                Some(tag) => if algo != "sha256"@ {
                    reply(400, "Invalid signature hash method"@)
                } else if tag != hmac_sha256_of(encode_utf8(secret), body->0) {
                    reply(400, "Signature verification failed"@)
                } else if content_type is None {
                    reply(400, "No Content-Type header passed"@)
                } else if !has_substring(content_type->0, "application/json"@) {
                    reply(400, "Content-Type is not application/json. Webhook misconfigured?"@)
                } else if full_name is None {
                    reply(400, "Invalid JSON"@)
                } else if event_type is None {
                    reply(400, "Missing event type"@)
                } else {
                    WebhookAnswer::Publish {
                        exchange: events_exchange(),
                        routing_key: routing_key_for(event_type->0, full_name->0),
                        body: body->0,
                    }
                },
            },
        }
    }
}

/// The characters of an optional string.
pub open spec fn opt_chars(s: Option<String>) -> Option<Seq<char>> {
    match s {
        Some(t) => Some(t@),
        None => None,
    }
}

fn answer(status: u16, body: &str) -> (d: WebhookDecision)
    ensures
        answer_of(d) == reply(status, body@),
{
    WebhookDecision::Reply(WebhookReply { status, body: body.to_owned() })
}

/// Decides how to answer a webhook request with body `body` (`None` when it
/// could not be read), given the shared secret and the repository full name
/// read from the body (`None` when the body is not such JSON).
pub fn decide_request(
    req: &WebhookRequest,
    body: Option<&[u8]>,
    secret: &str,
    full_name: Option<&str>,
) -> (d: WebhookDecision)
    ensures
        answer_of(d) == webhook_answer(
            req.is_post,
            opt_chars(req.signature),
            opt_chars(req.event_type),
            opt_chars(req.content_type),
            match body {
                Some(b) => Some(b@),
                None => None,
            },
            secret@,
            match full_name {
                Some(f) => Some(f@),
                None => None,
            },
        ),
{
    if !req.is_post {
        return answer(405, "");
    }
    let raw = match body {
        Some(b) => b,
        None => {
            return answer(500, "Failed to read body");
        },
    };
    let sig = match &req.signature {
        Some(s) => s,
        None => {
            return answer(400, "Missing signature header");
        },
    };
    let (algo, hash) = match split_once(sig.as_str(), '=') {
        Some(parts) => parts,
        None => {
            return answer(400, "Signature hash missing");
        },
    };
    let tag = match hex_decode(hash.as_str()) {
        Some(t) => t,
        None => {
            return answer(400, "Invalid signature hash hex");
        },
    };
    if !str_eq(algo.as_str(), "sha256") {
        return answer(400, "Invalid signature hash method");
    }
    if !github_verify_signature(secret, raw, tag.as_slice()) {
        return answer(400, "Signature verification failed");
    }
    let ct = match &req.content_type {
        Some(c) => c,
        None => {
            return answer(400, "No Content-Type header passed");
        },
    };
    if !contains_str(ct.as_str(), "application/json") {
        return answer(400, "Content-Type is not application/json. Webhook misconfigured?");
    }
    let name = match full_name {
        Some(n) => n,
        None => {
            return answer(400, "Invalid JSON");
        },
    };
    let event = match &req.event_type {
        Some(e) => e,
        None => {
            return answer(400, "Missing event type");
        },
    };
    let mut routing_key = event.clone();
    routing_key.append(".");
    let lowered = to_lowercase(name);
    routing_key.append(lowered.as_str());
    WebhookDecision::Publish {
        exchange: "github-events".to_owned(),
        routing_key,
        body: vstd::slice::slice_to_vec(raw),
    }
}

/// The answer after forwarding a webhook: no content when the broker took
/// it, an internal error otherwise.
pub fn publish_reply(published: bool) -> (r: WebhookReply)
    ensures
        published ==> r.status == 204 && r.body@ == ""@,
        !published ==> r.status == 500 && r.body@ == "Failed to publish message"@,
{
    if published {
        WebhookReply { status: 204, body: "".to_owned() }
    } else {
        WebhookReply { status: 500, body: "Failed to publish message".to_owned() }
    }
}

/// The status a request is finally answered with, given its answer and,
/// for a forwarded one, whether the broker took the publication.
pub open spec fn final_status(a: WebhookAnswer, published: bool) -> u16 {
    match a {
        WebhookAnswer::Reply { status, .. } => status,
        WebhookAnswer::Publish { .. } => if published {
            204
        } else {
            500
        },
    }
}

/// The publications an answer makes: the one it forwards, or none.
pub open spec fn publications(a: WebhookAnswer) -> Seq<(Seq<char>, Seq<char>, Seq<u8>)> {
    match a {
        WebhookAnswer::Publish { exchange, routing_key, body } => seq![(exchange, routing_key, body)],
        WebhookAnswer::Reply { .. } => seq![],
    }
}

/// The reply once `decision` has been carried out: a decided reply as it
/// is; after the one publication a forwarding decision asks for, by how
/// that went (`published`, which a decided reply ignores).
pub fn reply_after(decision: WebhookDecision, published: bool) -> (r: WebhookReply)
    ensures
        r.status == final_status(answer_of(decision), published),
        match decision {
            WebhookDecision::Reply(x) => r == x,
            WebhookDecision::Publish { .. } => r.body@ == (if published {
                ""@
            } else {
                "Failed to publish message"@
            }),
        },
{
    match decision {
        WebhookDecision::Reply(x) => x,
        WebhookDecision::Publish { .. } => publish_reply(published),
    }
}

/// The broker setup of the receiver: the `github-events` topic exchange and
/// the queues of comments, unknown events and pull requests bound to it.
pub fn webhook_amqp_setup() -> (plan: Vec<Declaration>)
    ensures
        plan.len() == 7,
        is_durable_topic_exchange(plan@[0], events_exchange()),
        is_durable_queue(plan@[1], "build-inputs"@),
        is_binding(plan@[2], "build-inputs"@, events_exchange(), "issue_comment.*"@),
        is_durable_queue(plan@[3], "github-events-unknown"@),
        is_binding(plan@[4], "github-events-unknown"@, events_exchange(), "unknown.*"@),
        is_durable_queue(plan@[5], "mass-rebuild-check-inputs"@),
        is_binding(plan@[6], "mass-rebuild-check-inputs"@, events_exchange(), "pull_request.*"@),
{
    let mut plan: Vec<Declaration> = Vec::new();
    plan.push(durable_topic_exchange("github-events"));
    plan.push(durable_queue("build-inputs"));
    plan.push(binding("build-inputs", "github-events", "issue_comment.*"));
    plan.push(durable_queue("github-events-unknown"));
    plan.push(binding("github-events-unknown", "github-events", "unknown.*"));
    plan.push(durable_queue("mass-rebuild-check-inputs"));
    plan.push(binding("mass-rebuild-check-inputs", "github-events", "pull_request.*"));
    plan
}

/// A webhook is forwarded only if its signature header carries, after
/// `sha256=` and in hexadecimal digits of either case, the HMAC-SHA256 tag
/// of its body under the secret.
pub proof fn law_forwarded_webhooks_are_signed(
    is_post: bool,
    signature: Option<Seq<char>>,
    event_type: Option<Seq<char>>,
    content_type: Option<Seq<char>>,
    body: Option<Seq<u8>>,
    secret: Seq<char>,
    full_name: Option<Seq<char>>,
)
    requires
        webhook_answer(
            is_post,
            signature,
            event_type,
            content_type,
            body,
            secret,
            full_name,
        ) is Publish,
    ensures
        is_post,
        signature is Some,
        body is Some,
        split_once_at(signature->0, '=') is Some,
        ({
            let parts = split_once_at(signature->0, '=')->0;
            &&& parts.0 == "sha256"@
            &&& hex_decoded(parts.1) == Some(hmac_sha256_of(encode_utf8(secret), body->0))
        }),
{
}

/// `signature` is `sha256=` followed by the HMAC-SHA256 tag of `body`
/// under `secret` in hexadecimal (digits of either case).
pub open spec fn signs(signature: Seq<char>, secret: Seq<char>, body: Seq<u8>) -> bool {
    split_once_at(signature, '=') matches Some((algo, hash)) && algo == "sha256"@ && hex_decoded(
        hash,
    ) == Some(hmac_sha256_of(encode_utf8(secret), body))
}

/// Every request makes at most one publication. It makes one exactly when
/// it is a signed `POST` of a JSON body naming a repository, sent as JSON
/// with an event type; that publication is the body, to `github-events`,
/// under the event type and the lowercased repository name. The answer is
/// `204 No Content` exactly when that publication was made and the broker
/// took it.
pub proof fn law_webhook_publishes_at_most_once(
    is_post: bool,
    signature: Option<Seq<char>>,
    event_type: Option<Seq<char>>,
    content_type: Option<Seq<char>>,
    body: Option<Seq<u8>>,
    secret: Seq<char>,
    full_name: Option<Seq<char>>,
    published: bool,
)
    ensures
        ({
            let a = webhook_answer(
                is_post,
                signature,
                event_type,
                content_type,
                body,
                secret,
                full_name,
            );
            &&& publications(a).len() <= 1
            &&& publications(a).len() == 1 <==> {
                &&& is_post
                &&& body is Some
                &&& signature matches Some(sig) && signs(sig, secret, body->0)
                &&& content_type matches Some(c) && has_substring(c, "application/json"@)
                &&& full_name is Some
                &&& event_type is Some
            }
            &&& publications(a).len() == 1 ==> publications(a)[0] == (
                events_exchange(),
                routing_key_for(event_type->0, full_name->0),
                body->0,
            )
            &&& final_status(a, published) == 204 <==> (publications(a).len() == 1 && published)
        }),
{
}

/// A POST whose body is JSON naming a repository, sent as JSON with an
/// event type and signed with the secret the way GitHub signs it, is
/// forwarded to `github-events` under the event type and the lowercased
/// repository name.
pub proof fn law_signed_webhooks_are_forwarded(
    body: Seq<u8>,
    secret: Seq<char>,
    event_type: Seq<char>,
    content_type: Seq<char>,
    full_name: Seq<char>,
)
    requires
        has_substring(content_type, "application/json"@),
    ensures
        webhook_answer(
            true,
            Some(signature_header(secret, body)),
            Some(event_type),
            Some(content_type),
            Some(body),
            secret,
            Some(full_name),
        ) == (WebhookAnswer::Publish {
            exchange: events_exchange(),
            routing_key: routing_key_for(event_type, full_name),
            body,
        }),
{
    let tag = hmac_sha256_of(encode_utf8(secret), body);
    let hex = hex_encoded(tag);
    let sig = signature_header(secret, body);
    reveal_strlit("sha256=");
    reveal_strlit("sha256");
    assert(sig[6] == '=');
    assert(forall|j: int| 0 <= j < 6 ==> sig[j] != '=');
    let i = choose|i: int|
        0 <= i < sig.len() && sig[i] == '=' && forall|j: int| 0 <= j < i ==> sig[j] != '=';
    assert(i == 6) by {
        if i < 6 {
            assert(sig[i] != '=');
        }
        if i > 6 {
            assert(sig[6] != '=');
        }
    }
    assert(sig.take(6) =~= "sha256"@);
    assert(sig.skip(7) =~= hex);
    law_hex_round_trip(tag);
}

/// The name and value of a `Name=Value` header argument, each trimmed, or
/// the message refusing an argument without `=`.
pub fn header_parts(input: &str) -> (r: Result<(String, String), String>)
    ensures
        match split_once_at(input@, '=') {
            Some((name, value)) => r matches Ok(p) && p.0@ == trimmed(name) && p.1@ == trimmed(
                value,
            ),
            None => r matches Err(e) && e@ == "invalid --header format: expected Name=Value, got "@
                + input@,
        },
{
    match split_once(input, '=') {
        Some((name, value)) => Ok((trim(name.as_str()), trim(value.as_str()))),
        None => {
            let mut e = "invalid --header format: expected Name=Value, got ".to_owned();
            e.append(input);
            Err(e)
        },
    }
}

} // verus!
