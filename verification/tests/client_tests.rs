use nockchain_pool::client::{
    after_connect, after_submit, after_subscribe, begin_connect, on_stream_event, resubscribe_error, ConnectOutcome,
    ConnectStep, PoolClientConfig, StreamEvent, StreamStep, SubmitStep, SubscribeOutcome, SubscribeStep,
};

fn config(attempts: u32, backups: Vec<String>) -> PoolClientConfig {
    PoolClientConfig {
        server_address: "http://a:7777".to_string(),
        threads: 2,
        miner_id: "m".to_string(),
        connection_retry_attempts: attempts,
        connection_retry_delay_ms: 1000,
        connection_timeout_ms: 30000,
        request_timeout_ms: 10000,
        backup_servers: backups,
    }
}

#[test]
fn default_config() {
    let c = PoolClientConfig::default();
    assert_eq!(c.server_address, "http://localhost:7777");
    assert_eq!(c.threads, 1);
    assert_eq!(c.miner_id, "unknown");
    assert_eq!(c.connection_retry_attempts, 5);
    assert_eq!(c.connection_retry_delay_ms, 1000);
    assert_eq!(c.connection_timeout_ms, 5000);
    assert_eq!(c.request_timeout_ms, 10000);
    assert!(c.backup_servers.is_empty());
}

#[test]
fn servers_in_order() {
    let c = config(2, vec!["http://b".to_string(), "http://c".to_string()]);
    assert_eq!(c.server_list(), vec!["http://a:7777", "http://b", "http://c"]);
}

#[test]
fn connection_schedule() {
    let c = config(2, vec!["http://b".to_string()]);
    let servers = c.server_list();
    let (s, step) = begin_connect(&c);
    assert!(matches!(step, ConnectStep::Connect { server: 0, attempt: 1, wait_ms: 0 }));
    let (s, step) = after_connect(&c, servers.len(), s, ConnectOutcome::Failed("refused".to_string()));
    assert!(matches!(step, ConnectStep::Connect { server: 0, attempt: 2, wait_ms: 1000 }));
    let (s, step) = after_connect(&c, servers.len(), s, ConnectOutcome::TimedOut);
    assert!(matches!(step, ConnectStep::Connect { server: 1, attempt: 1, wait_ms: 0 }));
    let (s, step) = after_connect(&c, servers.len(), s, ConnectOutcome::TimedOut);
    assert!(matches!(step, ConnectStep::Connect { server: 1, attempt: 2, wait_ms: 1000 }));
    let (_, step) = after_connect(&c, servers.len(), s, ConnectOutcome::Failed("down".to_string()));
    assert!(matches!(step, ConnectStep::GiveUp(m) if m == "连接失败: down"));
    let (s, _) = begin_connect(&c);
    let (_, step) = after_connect(&c, servers.len(), s, ConnectOutcome::Connected);
    assert!(matches!(step, ConnectStep::Connected { server: 0 }));
    let (_, step) = begin_connect(&config(0, vec![]));
    assert!(matches!(step, ConnectStep::GiveUp(m) if m == "无法连接到任何矿池服务器"));
}

#[test]
fn subscription_retries() {
    let c = config(3, vec![]);
    assert!(matches!(after_subscribe(&c, 0, SubscribeOutcome::Subscribed), (0, SubscribeStep::Subscribed)));
    assert!(matches!(after_subscribe(&c, 0, SubscribeOutcome::TimedOut), (1, SubscribeStep::Reconnect { wait_ms: 1000 })));
    assert!(matches!(after_subscribe(&c, 1, SubscribeOutcome::Failed("x".to_string())), (2, SubscribeStep::Reconnect { wait_ms: 2000 })));
    let (n, step) = after_subscribe(&c, 2, SubscribeOutcome::Failed("denied".to_string()));
    assert_eq!(n, 3);
    assert!(matches!(step, SubscribeStep::Fail(m) if m == "订阅矿池服务器失败，已达到最大重试次数: denied"));
    let (_, step) = after_subscribe(&c, 2, SubscribeOutcome::TimedOut);
    assert!(matches!(step, SubscribeStep::Fail(m) if m == "订阅矿池服务器请求超时，已达到最大重试次数"));
}

#[test]
fn stream_events() {
    assert!(matches!(on_stream_event(StreamEvent::Message), StreamStep::Mine));
    assert!(matches!(on_stream_event(StreamEvent::Ended), StreamStep::Finish));
    assert!(matches!(on_stream_event(StreamEvent::Error("e".to_string())), StreamStep::Resubscribe(m) if m == "接收消息错误: e"));
    assert!(matches!(on_stream_event(StreamEvent::TimedOut), StreamStep::Resubscribe(m) if m == "接收消息超时"));
    assert_eq!(resubscribe_error("x"), "重新订阅失败: x");
}

#[test]
fn submission_retries() {
    assert_eq!(after_submit(0, true), SubmitStep::Done);
    assert_eq!(after_submit(0, false), SubmitStep::Resubmit { retry: 1, wait_ms: 500 });
    assert_eq!(after_submit(2, false), SubmitStep::Resubmit { retry: 3, wait_ms: 1500 });
    assert_eq!(after_submit(3, false), SubmitStep::GiveUp);
    assert_eq!(after_submit(3, true), SubmitStep::Done);
}
