//! Loggers for the output of build commands.

use std::collections::VecDeque;
use vstd::prelude::*;
use vstd::utf8::encode_utf8;

use crate::easyamqp::{ExchangeConfig, ExchangeType};
use crate::worker::QueueMsg;

verus! {

/// Receives the output of a build, line by line.
pub trait Logger {
    fn build_output(&mut self, line: &str);
}

/// How many lines a [`LastNLogger`] keeps.
pub open spec fn kept_lines() -> nat {
    10
}

/// The last `kept_lines()` lines of `lines`, or all of them when there are
/// fewer.
pub open spec fn last_lines(lines: Seq<Seq<char>>) -> Seq<Seq<char>> {
    if lines.len() <= kept_lines() {
        lines
    } else {
        lines.skip(lines.len() - kept_lines())
    }
}

/// What a [`LastNLogger`] that kept `kept` keeps after one more `line`:
/// the oldest kept line is dropped when ten are kept.
pub open spec fn after_output(kept: Seq<Seq<char>>, line: Seq<char>) -> Seq<Seq<char>> {
    (if kept.len() >= kept_lines() {
        kept.skip(1)
    } else {
        kept
    }).push(line)
}

/// What a new [`LastNLogger`] keeps after being given the lines `given`,
/// one after the other.
pub open spec fn logged(given: Seq<Seq<char>>) -> Seq<Seq<char>>
    decreases given.len(),
{
    if given.len() == 0 {
        seq![]
    } else {
        after_output(logged(given.drop_last()), given.last())
    }
}

/// Keeps the last ten lines of output it was given.
pub struct LastNLogger {
    buffer: VecDeque<String>,
    max: usize,
}

impl LastNLogger {
    /// The lines kept, oldest first.
    pub closed spec fn kept(&self) -> Seq<Seq<char>> {
        self.buffer@.map_values(|s: String| s@)
    }

    /// The number of lines the logger was created for.
    pub closed spec fn capacity(&self) -> usize {
        self.max
    }

    /// At most ten lines are kept.
    pub open spec fn wf(&self) -> bool {
        self.kept().len() <= kept_lines()
    }

    /// A logger created for `n` lines, holding none yet.
    pub fn new(n: usize) -> (l: LastNLogger)
        ensures
            l.wf(),
            l.kept() == Seq::<Seq<char>>::empty(),
            l.capacity() == n,
    {
        LastNLogger { max: n, buffer: VecDeque::with_capacity(n) }
    }

    /// The lines kept, oldest first.
    pub fn lines(self) -> (r: Vec<String>)
        ensures
            r@.map_values(|s: String| s@) == self.kept(),
    {
        let mut buffer = self.buffer;
        let ghost all = buffer@;
        let mut r: Vec<String> = Vec::new();
        while buffer.len() > 0
            invariant
                r@ + buffer@ == all,
            decreases buffer.len(),
        {
            let line = buffer.pop_front().unwrap();
            assert(r@.push(line) + buffer@ =~= all);
            r.push(line);
        }
        assert(r@ =~= all);
        r
    }
}

impl Logger for LastNLogger {
    /// Keeps `line`, dropping the oldest kept line when ten are kept.
    fn build_output(&mut self, line: &str)
        ensures
            final(self).kept() == after_output(old(self).kept(), line@),
            final(self).capacity() == old(self).capacity(),
    {
        if self.buffer.len() >= 10 {
            self.buffer.pop_front();
        }
        self.buffer.push_back(line.to_owned());
        proof {
            assert(self.kept() =~= after_output(old(self).kept(), line@));
        }
    }
}

/// After any output, a logger that kept the last lines of what it had been
/// given keeps the last lines of what it has now been given.
pub proof fn law_logger_keeps_the_last_lines(given: Seq<Seq<char>>, line: Seq<char>)
    ensures
        after_output(last_lines(given), line) == last_lines(given.push(line)),
{
    assert(after_output(last_lines(given), line) =~= last_lines(given.push(line)));
}

/// A new logger given any lines, one after the other, keeps the last ten
/// of them, oldest first; all of them when it was given ten or fewer.
pub proof fn law_logger_keeps_the_last_ten_lines_given(given: Seq<Seq<char>>)
    ensures
        logged(given) == last_lines(given),
        given.len() <= kept_lines() ==> logged(given) == given,
    decreases given.len(),
{
    if given.len() > 0 {
        law_logger_keeps_the_last_ten_lines_given(given.drop_last());
        law_logger_keeps_the_last_lines(given.drop_last(), given.last());
        assert(given.drop_last().push(given.last()) =~= given);
    }
}

/// Sends build output to the broker: each line is published to `exchange`
/// (the default exchange when none) under `routing_key` (`build.log` when
/// none).
#[derive(Debug)]
pub struct RabbitMQLogger {
    exchange: Option<String>,
    routing_key: Option<String>,
    sent: Vec<QueueMsg>,
}

/// `m` publishes the bytes of `line` as a build log line of `logger`.
pub open spec fn is_log_publication(m: QueueMsg, exchange: Option<String>, routing_key: Option<String>, line: Seq<char>) -> bool {
    &&& m.exchange matches Some(e) && e@ == (match exchange {
        Some(x) => x@,
        None => ""@,
    })
    &&& m.routing_key matches Some(k) && k@ == (match routing_key {
        Some(x) => x@,
        None => "build.log"@,
    })
    &&& !m.mandatory
    &&& !m.immediate
    &&& m.content_type is None
    &&& m.content@ == encode_utf8(line)
}

impl RabbitMQLogger {
    /// The publications made so far, oldest first.
    pub closed spec fn published(&self) -> Seq<QueueMsg> {
        self.sent@
    }

    /// The exchange lines are published to.
    pub closed spec fn target_exchange(&self) -> Option<String> {
        self.exchange
    }

    /// The routing key lines are published under.
    pub closed spec fn target_key(&self) -> Option<String> {
        self.routing_key
    }

    /// A logger publishing to the `logs` exchange under the default key.
    pub fn new() -> (l: RabbitMQLogger)
        ensures
            l.target_exchange() matches Some(e) && e@ == "logs"@,
            l.target_key() is None,
            l.published() == Seq::<QueueMsg>::empty(),
    {
        RabbitMQLogger { exchange: Some("logs".to_owned()), routing_key: None, sent: Vec::new() }
    }

    /// The declaration that checks the `logs` topic exchange exists: a
    /// passive, durable declaration.
    pub fn setup(&self) -> (d: ExchangeConfig)
        ensures
            d.exchange@ == "logs"@,
            d.exchange_type == ExchangeType::Topic,
            d.passive,
            d.durable,
            !d.auto_delete,
            !d.internal,
            !d.no_wait,
    {
        ExchangeConfig {
            exchange: "logs".to_owned(),
            exchange_type: ExchangeType::Topic,
            passive: true,
            durable: true,
            auto_delete: false,
            internal: false,
            no_wait: false,
        }
    }

    /// Takes the publications made so far, oldest first, for the caller to
    /// send.
    pub fn take_published(&mut self) -> (r: Vec<QueueMsg>)
        ensures
            r@ == old(self).published(),
            final(self).published() == Seq::<QueueMsg>::empty(),
            final(self).target_exchange() == old(self).target_exchange(),
            final(self).target_key() == old(self).target_key(),
    {
        let mut taken: Vec<QueueMsg> = Vec::new();
        std::mem::swap(&mut taken, &mut self.sent);
        taken
    }
}

impl Logger for RabbitMQLogger {
    /// Publishes `line`.
    fn build_output(&mut self, line: &str)
        ensures
            final(self).published().len() == old(self).published().len() + 1,
            final(self).published().take(old(self).published().len() as int) == old(self).published(),
            is_log_publication(
                final(self).published().last(),
                old(self).target_exchange(),
                old(self).target_key(),
                line@,
            ),
            final(self).target_exchange() == old(self).target_exchange(),
            final(self).target_key() == old(self).target_key(),
    {
        let exchange = match &self.exchange {
            Some(e) => e.clone(),
            None => "".to_owned(),
        };
        let routing_key = match &self.routing_key {
            Some(k) => k.clone(),
            None => "build.log".to_owned(),
        };
        let content = vstd::slice::slice_to_vec(line.as_bytes());
        self.sent.push(
            QueueMsg {
                exchange: Some(exchange),
                routing_key: Some(routing_key),
                mandatory: false,
                immediate: false,
                content_type: None,
                content,
            },
        );
        assert(self.sent@.take(old(self).sent@.len() as int) =~= old(self).sent@);
    }
}

} // verus!
