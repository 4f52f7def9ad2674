//! What workers ask of the broker after handling a delivery, and how those
//! requests become broker commands.

use vstd::prelude::*;
use vstd::string::StringExecFns;

verus! {

/// A message to publish.
#[derive(Debug, PartialEq, Eq)]
pub struct QueueMsg {
    pub exchange: Option<String>,
    pub routing_key: Option<String>,
    pub mandatory: bool,
    pub immediate: bool,
    pub content_type: Option<String>,
    pub content: Vec<u8>,
}

/// What to do about a delivery, or what to publish while handling it.
#[derive(Debug, PartialEq, Eq)]
pub enum Action {
    Ack,
    NackRequeue,
    NackDump,
    Publish(QueueMsg),
}

/// A command for the broker's channel.
#[derive(Debug, PartialEq, Eq)]
pub enum BrokerCommand {
    /// Acknowledge delivery `tag`.
    Ack { tag: u64 },
    /// Reject delivery `tag`, putting it back on its queue when `requeue`.
    Nack { tag: u64, requeue: bool },
    /// Publish `content` persistently to `exchange` under `routing_key`.
    Publish {
        exchange: String,
        routing_key: String,
        mandatory: bool,
        immediate: bool,
        content_type: Option<String>,
        content: Vec<u8>,
    },
}

/// The text of an optional name, empty when there is none.
pub open spec fn name_or_empty(s: Option<String>) -> Seq<char> {
    match s {
        Some(t) => t@,
        None => ""@,
    }
}

fn or_empty(s: Option<String>) -> (r: String)
    ensures
        r@ == name_or_empty(s),
{
    match s {
        Some(t) => t,
        None => "".to_owned(),
    }
}

/// The broker command that carries out `action` for delivery `tag`: an
/// acknowledgement, a rejection that requeues or drops the delivery, or a
/// publication to the message's exchange and routing key (the default
/// exchange and an empty key when none is given).
pub fn delivery_command(tag: u64, action: Action) -> (c: BrokerCommand)
    ensures
        match action {
            Action::Ack => c == BrokerCommand::Ack { tag },
            Action::NackRequeue => c == BrokerCommand::Nack { tag, requeue: true },
            Action::NackDump => c == BrokerCommand::Nack { tag, requeue: false },
            Action::Publish(msg) => c matches BrokerCommand::Publish {
                exchange,
                routing_key,
                mandatory,
                immediate,
                content_type,
                content,
            } && exchange@ == name_or_empty(msg.exchange) && routing_key@ == name_or_empty(
                msg.routing_key,
            ) && mandatory == msg.mandatory && immediate == msg.immediate && content_type
                == msg.content_type && content@ == msg.content@,
        },
{
    match action {
        Action::Ack => BrokerCommand::Ack { tag },
        Action::NackRequeue => BrokerCommand::Nack { tag, requeue: true },
        Action::NackDump => BrokerCommand::Nack { tag, requeue: false },
        Action::Publish(msg) => BrokerCommand::Publish {
            exchange: or_empty(msg.exchange),
            routing_key: or_empty(msg.routing_key),
            mandatory: msg.mandatory,
            immediate: msg.immediate,
            content_type: msg.content_type,
            content: msg.content,
        },
    }
}

/// The broker's answer to a publication with confirmations on. A returned
/// message is carried as its description.
#[derive(Debug, PartialEq, Eq)]
pub enum Confirmation {
    Ack(Option<String>),
    Nack(Option<String>),
    NotRequested,
}

/// Why a publication failed.
#[derive(Debug, PartialEq, Eq)]
pub enum PublishError {
    /// The broker returned the message as unroutable.
    Unroutable(Option<String>),
    /// The broker rejected the message.
    Rejected(Option<String>),
    /// Confirmations were not switched on.
    NotRequested,
}

/// A publication succeeded only when the broker acknowledged it without
/// returning the message.
pub fn ensure_publisher_confirmation(confirmation: Confirmation) -> (r: Result<(), PublishError>)
    ensures
        match confirmation {
            Confirmation::Ack(None) => r is Ok,
            Confirmation::Ack(Some(m)) => r == Err::<(), PublishError>(
                PublishError::Unroutable(Some(m)),
            ),
            Confirmation::Nack(m) => r == Err::<(), PublishError>(PublishError::Rejected(m)),
            Confirmation::NotRequested => r == Err::<(), PublishError>(PublishError::NotRequested),
        },
{
    match confirmation {
        Confirmation::Ack(None) => Ok(()),
        Confirmation::Ack(Some(m)) => Err(PublishError::Unroutable(Some(m))),
        Confirmation::Nack(m) => Err(PublishError::Rejected(m)),
        Confirmation::NotRequested => Err(PublishError::NotRequested),
    }
}

/// How a returned message `m` reads in an error: its text as the broker
/// client formats it, `None` when there is none.
pub open spec fn returned_text(m: Option<String>) -> Seq<char> {
    match m {
        Some(t) => t@,
        None => "None"@,
    }
}

/// How an optional returned message `m` reads in an error, as Rust's
/// `Debug` writes an `Option`: `Some(<text>)` or `None`.
pub open spec fn optional_returned_text(m: Option<String>) -> Seq<char> {
    match m {
        Some(t) => "Some("@ + t@ + ")"@,
        None => "None"@,
    }
}

impl PublishError {
    /// The message of the error, as the broker client reports it.
    pub fn message(&self) -> (r: String)
        ensures
            match *self {
                PublishError::Unroutable(m) => r@ == "message was returned as unroutable: "@
                    + returned_text(m),
                PublishError::Rejected(m) => r@ == "message was rejected by the broker: "@
                    + optional_returned_text(m),
                PublishError::NotRequested => r@ == "publisher confirmation was not requested"@,
            },
    {
        match self {
            PublishError::Unroutable(m) => {
                let mut r = "message was returned as unroutable: ".to_owned();
                match m {
                    Some(t) => r.append(t.as_str()),
                    None => r.append("None"),
                }
                r
            },
            PublishError::Rejected(m) => {
                let mut r = "message was rejected by the broker: ".to_owned();
                match m {
                    Some(t) => {
                        r.append("Some(");
                        r.append(t.as_str());
                        r.append(")");
                        assert(r@ == "message was rejected by the broker: "@ + ("Some("@ + t@
                            + ")"@));
                    },
                    None => r.append("None"),
                }
                r
            },
            PublishError::NotRequested => "publisher confirmation was not requested".to_owned(),
        }
    }
}

} // verus!
