//! The miner's side of the pool protocol: its configuration, the order and
//! pauses in which it tries the pool servers, how it retries a subscription and a
//! submission, and what it does with each message of the work stream. The network
//! calls are made by the caller, which feeds their outcomes in here.
use vstd::prelude::*;
use crate::text::concat2;

verus! {

/// How the miner reaches the pool.
#[derive(Debug)]
pub struct PoolClientConfig {
    /// The pool server's address.
    pub server_address: String,
    /// Mining threads.
    pub threads: u32,
    /// The miner's id.
    pub miner_id: String,
    /// Connection attempts per server.
    pub connection_retry_attempts: u32,
    /// The base pause between attempts, in milliseconds.
    pub connection_retry_delay_ms: u64,
    /// The timeout of a connection attempt, in milliseconds.
    pub connection_timeout_ms: u64,
    /// The timeout of a request, in milliseconds.
    pub request_timeout_ms: u64,
    /// Servers tried after the main one, in order.
    pub backup_servers: Vec<String>,
}

impl Default for PoolClientConfig {
    /// The local pool on port 7777, one thread, id "unknown", five attempts, 1 s
    /// base pause, 5 s connection timeout, 10 s request timeout, no backups.
    fn default() -> (c: Self)
        ensures
            c.server_address@ == "http://localhost:7777"@,
            c.threads == 1,
            c.miner_id@ == "unknown"@,
            c.connection_retry_attempts == 5,
            c.connection_retry_delay_ms == 1000,
            c.connection_timeout_ms == 5000,
            c.request_timeout_ms == 10000,
            c.backup_servers@.len() == 0,
    {
        PoolClientConfig {
            server_address: "http://localhost:7777".to_string(),
            threads: 1,
            miner_id: "unknown".to_string(),
            connection_retry_attempts: 5,
            connection_retry_delay_ms: 1000,
            connection_timeout_ms: 5000,
            request_timeout_ms: 10000,
            backup_servers: Vec::new(),
        }
    }
}

impl PoolClientConfig {
    /// The servers in the order they are tried: the main one, then the backups.
    pub open spec fn servers(&self) -> Seq<Seq<char>> {
        seq![self.server_address@] + self.backup_servers@.map_values(|s: String| s@)
    }

    /// The servers in the order they are tried.
    pub fn server_list(&self) -> (v: Vec<String>)
        ensures
            v@.map_values(|s: String| s@) == self.servers(),
    {
        let mut v: Vec<String> = Vec::new();
        v.push(self.server_address.clone());
        let mut i: usize = 0;
        while i < self.backup_servers.len()
            invariant
                i <= self.backup_servers@.len(),
                v@.map_values(|s: String| s@) == seq![self.server_address@] + self.backup_servers@.take(
                    i as int,
                ).map_values(|s: String| s@),
            decreases self.backup_servers@.len() - i,
        {
            let ghost old_v = v@;
            let c = self.backup_servers[i].clone();
            v.push(c);
            assert(self.backup_servers@.take(i + 1) =~= self.backup_servers@.take(i as int).push(
                self.backup_servers@[i as int],
            ));
            assert(v@ == old_v.push(c));
            assert(old_v.push(c).map_values(|s: String| s@) =~= old_v.map_values(|s: String| s@).push(c@));
            assert(v@.map_values(|s: String| s@) =~= seq![self.server_address@] + self.backup_servers@.take(
                i + 1,
            ).map_values(|s: String| s@));
            i = i + 1;
        }
        assert(self.backup_servers@.take(self.backup_servers@.len() as int) =~= self.backup_servers@);
        v
    }
}

/// How a connection attempt ended.
#[derive(Debug)]
pub enum ConnectOutcome {
    Connected,
    /// The connection failed (the error's text).
    Failed(String),
    TimedOut,
}

/// What the miner does next while connecting.
#[derive(Debug)]
pub enum ConnectStep {
    /// Wait `wait_ms`, then try server number `server` (in [`PoolClientConfig::servers`])
    /// for the `attempt`-th time.
    Connect { server: usize, attempt: u32, wait_ms: u64 },
    /// Connected to server number `server`.
    Connected { server: usize },
    /// Every attempt failed; the message of the last failure.
    GiveUp(String),
}

/// The state of a connection between attempts.
#[derive(Debug)]
pub struct ConnectState {
    pub server: usize,
    pub attempt: u32,
    pub last_error: Option<String>,
}

/// The first step of connecting: the main server's first attempt, or, when no
/// attempt is allowed, giving up.
pub fn begin_connect(config: &PoolClientConfig) -> (r: (ConnectState, ConnectStep))
    ensures
        config.connection_retry_attempts >= 1 ==> r.1 == (ConnectStep::Connect { server: 0, attempt: 1, wait_ms: 0 })
            && r.0.server == 0 && r.0.attempt == 1 && r.0.last_error is None,
        config.connection_retry_attempts == 0 ==> (r.1 matches ConnectStep::GiveUp(m) && m@ == "无法连接到任何矿池服务器"@),
{
    if config.connection_retry_attempts >= 1 {
        (ConnectState { server: 0, attempt: 1, last_error: None }, ConnectStep::Connect { server: 0, attempt: 1, wait_ms: 0 })
    } else {
        (ConnectState { server: 0, attempt: 0, last_error: None }, ConnectStep::GiveUp("无法连接到任何矿池服务器".to_string()))
    }
}

/// The message a failed connection attempt leaves behind.
pub open spec fn connect_error(outcome: ConnectOutcome) -> Seq<char> {
    match outcome {
        ConnectOutcome::Failed(e) => "连接失败: "@ + e@,
        _ => "连接超时"@,
    }
}

/// The next step after an attempt on a server: connected on success; else the
/// failure is remembered and the same server is tried again after
/// `delay * attempt` milliseconds until its attempts are used up, then the next
/// server at once; after the last server the miner gives up with the last failure.
pub fn after_connect(config: &PoolClientConfig, server_count: usize, state: ConnectState, outcome: ConnectOutcome) -> (r: (ConnectState, ConnectStep))
    requires
        state.attempt < config.connection_retry_attempts ==> config.connection_retry_delay_ms * state.attempt
            <= u64::MAX,
        1 <= state.attempt <= config.connection_retry_attempts,
        state.server < server_count,
    ensures
        outcome is Connected ==> r.1 == (ConnectStep::Connected { server: state.server }),
        !(outcome is Connected) ==> (r.0.last_error matches Some(m) && m@ == connect_error(outcome)),
        !(outcome is Connected) ==> if state.attempt < config.connection_retry_attempts {
            r.1 == (ConnectStep::Connect {
                server: state.server,
                attempt: (state.attempt + 1) as u32,
                wait_ms: (config.connection_retry_delay_ms * state.attempt) as u64,
            }) && r.0.server == state.server && r.0.attempt == state.attempt + 1
        } else if state.server + 1 < server_count {
            r.1 == (ConnectStep::Connect { server: (state.server + 1) as usize, attempt: 1, wait_ms: 0 })
                && r.0.server == state.server + 1 && r.0.attempt == 1
        } else {
            r.1 matches ConnectStep::GiveUp(m) && m@ == connect_error(outcome)
        },
{
    let msg = match &outcome {
        ConnectOutcome::Connected => {
            let server = state.server;
            return (state, ConnectStep::Connected { server });
        },
        ConnectOutcome::Failed(e) => concat2("连接失败: ", e.as_str()),
        ConnectOutcome::TimedOut => "连接超时".to_string(),
    };
    if state.attempt < config.connection_retry_attempts {
        let wait_ms = config.connection_retry_delay_ms * state.attempt as u64;
        let next = state.attempt + 1;
        (ConnectState { server: state.server, attempt: next, last_error: Some(msg) }, ConnectStep::Connect {
            server: state.server,
            attempt: next,
            wait_ms,
        })
    } else if state.server + 1 < server_count {
        let next = state.server + 1;
        (ConnectState { server: next, attempt: 1, last_error: Some(msg) }, ConnectStep::Connect {
            server: next,
            attempt: 1,
            wait_ms: 0,
        })
    } else {
        let last = msg.clone();
        (ConnectState { server: state.server, attempt: state.attempt, last_error: Some(msg) }, ConnectStep::GiveUp(last))
    }
}

/// How a subscription request ended.
#[derive(Debug)]
pub enum SubscribeOutcome {
    Subscribed,
    /// The server refused (the status's text).
    Failed(String),
    TimedOut,
}

/// What the miner does next while subscribing.
#[derive(Debug)]
pub enum SubscribeStep {
    /// The subscription stands: receive work.
    Subscribed,
    /// Reconnect, then wait `wait_ms` and subscribe again.
    Reconnect { wait_ms: u64 },
    /// Give up with this message.
    Fail(String),
}

/// The next step after subscription request number `retries + 1` ended: success
/// receives work; a failure or timeout counts one retry and gives up once the
/// retries reach the connection attempts, else reconnects and waits
/// `delay * retries` milliseconds before subscribing again. Returns the new count.
pub fn after_subscribe(config: &PoolClientConfig, retries: u32, outcome: SubscribeOutcome) -> (r: (u32, SubscribeStep))
    requires
        retries + 1 < config.connection_retry_attempts ==> config.connection_retry_delay_ms * (retries + 1)
            <= u64::MAX,
        retries < config.connection_retry_attempts,
    ensures
        outcome is Subscribed ==> r.0 == retries && r.1 is Subscribed,
        !(outcome is Subscribed) ==> r.0 == retries + 1,
        !(outcome is Subscribed) && retries + 1 < config.connection_retry_attempts ==> r.1 == (SubscribeStep::Reconnect {
            wait_ms: (config.connection_retry_delay_ms * (retries + 1)) as u64,
        }),
        retries + 1 >= config.connection_retry_attempts ==> (outcome matches SubscribeOutcome::Failed(e) ==> (r.1 matches
            SubscribeStep::Fail(m) && m@ == "订阅矿池服务器失败，已达到最大重试次数: "@ + e@)),
        retries + 1 >= config.connection_retry_attempts ==> (outcome is TimedOut ==> (r.1 matches SubscribeStep::Fail(m)
            && m@ == "订阅矿池服务器请求超时，已达到最大重试次数"@)),
{
    let count = retries + 1;
    let give_up = match &outcome {
        SubscribeOutcome::Subscribed => {
            return (retries, SubscribeStep::Subscribed);
        },
        SubscribeOutcome::Failed(e) => concat2("订阅矿池服务器失败，已达到最大重试次数: ", e.as_str()),
        SubscribeOutcome::TimedOut => "订阅矿池服务器请求超时，已达到最大重试次数".to_string(),
    };
    if count >= config.connection_retry_attempts {
        (count, SubscribeStep::Fail(give_up))
    } else {
        (count, SubscribeStep::Reconnect { wait_ms: config.connection_retry_delay_ms * count as u64 })
    }
}

/// What came out of the work stream.
#[derive(Debug)]
pub enum StreamEvent {
    /// A work order arrived.
    Message,
    /// The stream ended.
    Ended,
    /// Receiving failed (the status's text).
    Error(String),
    /// Nothing arrived in time.
    TimedOut,
}

/// What the miner does with a stream event.
#[derive(Debug)]
pub enum StreamStep {
    /// Mine the work order.
    Mine,
    /// Stop: the stream ended.
    Finish,
    /// Log this error, reconnect and subscribe again.
    Resubscribe(String),
}

/// The miner's reaction to an event of the work stream.
pub fn on_stream_event(event: StreamEvent) -> (s: StreamStep)
    ensures
        event is Message ==> s is Mine,
        event is Ended ==> s is Finish,
        event matches StreamEvent::Error(e) ==> (s matches StreamStep::Resubscribe(m) && m@ == "接收消息错误: "@ + e@),
        event is TimedOut ==> (s matches StreamStep::Resubscribe(m) && m@ == "接收消息超时"@),
{
    match event {
        StreamEvent::Message => StreamStep::Mine,
        StreamEvent::Ended => StreamStep::Finish,
        StreamEvent::Error(e) => StreamStep::Resubscribe(concat2("接收消息错误: ", e.as_str())),
        StreamEvent::TimedOut => StreamStep::Resubscribe("接收消息超时".to_string()),
    }
}

/// The error when subscribing again after a stream error fails.
pub fn resubscribe_error(status: &str) -> (m: String)
    ensures
        m@ == "重新订阅失败: "@ + status@,
{
    concat2("重新订阅失败: ", status)
}

/// Resubmissions of a found nonce after the first submission failed.
pub const SUBMIT_RETRIES: u32 = 3;

/// What the miner does next with a found nonce.
#[derive(Clone, Copy, Debug, PartialEq, Eq, Structural)]
pub enum SubmitStep {
    /// Wait `wait_ms`, then submit again (resubmission number `retry`).
    Resubmit { retry: u32, wait_ms: u64 },
    /// Submitted.
    Done,
    /// Every resubmission failed.
    GiveUp,
}

/// The next step after submission number `retry` (0 for the first) ended:
/// success ends it; after a failure the nonce is resubmitted up to three more
/// times, waiting `500 * n` milliseconds before resubmission `n`.
pub fn after_submit(retry: u32, succeeded: bool) -> (s: SubmitStep)
    requires
        retry <= SUBMIT_RETRIES,
    ensures
        succeeded ==> s == SubmitStep::Done,
        !succeeded && retry < SUBMIT_RETRIES ==> s == (SubmitStep::Resubmit {
            retry: (retry + 1) as u32,
            wait_ms: (500 * (retry + 1)) as u64,
        }),
        !succeeded && retry == SUBMIT_RETRIES ==> s == SubmitStep::GiveUp,
{
    if succeeded {
        SubmitStep::Done
    } else if retry < SUBMIT_RETRIES {
        let next = retry + 1;
        SubmitStep::Resubmit { retry: next, wait_ms: 500 * next as u64 }
    } else {
        SubmitStep::GiveUp
    }
}

} // verus!
