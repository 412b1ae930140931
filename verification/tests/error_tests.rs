use nockchain_pool::error::{ErrorKind, ErrorSeverity, GrpcCode, PoolServerError};

#[test]
fn log_strings_carry_the_kind_label() {
    assert_eq!(PoolServerError::NetworkError("x".to_string()).to_log_string(), "网络错误: x");
    assert_eq!(PoolServerError::ProtocolError("x".to_string()).to_log_string(), "协议错误: x");
    assert_eq!(PoolServerError::DataError("x".to_string()).to_log_string(), "数据错误: x");
    assert_eq!(PoolServerError::SyncError("x".to_string()).to_log_string(), "同步错误: x");
    assert_eq!(PoolServerError::ServiceError("x".to_string()).to_log_string(), "服务错误: x");
    assert_eq!(PoolServerError::Other("x".to_string()).to_log_string(), "其他错误: x");
}

#[test]
fn severities_follow_the_kind() {
    assert_eq!(PoolServerError::NetworkError(String::new()).severity(), ErrorSeverity::Warning);
    assert_eq!(PoolServerError::ProtocolError(String::new()).severity(), ErrorSeverity::Error);
    assert_eq!(PoolServerError::DataError(String::new()).severity(), ErrorSeverity::Warning);
    assert_eq!(PoolServerError::SyncError(String::new()).severity(), ErrorSeverity::Error);
    assert_eq!(PoolServerError::ServiceError(String::new()).severity(), ErrorSeverity::Critical);
    assert_eq!(PoolServerError::Other(String::new()).severity(), ErrorSeverity::Warning);
}

#[test]
fn recoverability_follows_the_kind() {
    assert!(PoolServerError::NetworkError(String::new()).is_recoverable());
    assert!(!PoolServerError::ProtocolError(String::new()).is_recoverable());
    assert!(PoolServerError::DataError(String::new()).is_recoverable());
    assert!(PoolServerError::SyncError(String::new()).is_recoverable());
    assert!(!PoolServerError::ServiceError(String::new()).is_recoverable());
    assert!(!PoolServerError::Other(String::new()).is_recoverable());
}

#[test]
fn severity_labels() {
    assert_eq!(ErrorSeverity::Info.label(), "INFO");
    assert_eq!(ErrorSeverity::Warning.label(), "WARNING");
    assert_eq!(ErrorSeverity::Error.label(), "ERROR");
    assert_eq!(ErrorSeverity::Critical.label(), "CRITICAL");
}

#[test]
fn messages_are_classified_by_their_words() {
    let cases = [
        ("connection refused", ErrorKind::Network),
        ("network is down", ErrorKind::Network),
        ("连接被拒绝", ErrorKind::Network),
        ("read timeout", ErrorKind::Network),
        ("请求超时", ErrorKind::Network),
        ("bad protocol version", ErrorKind::Protocol),
        ("协议不匹配", ErrorKind::Protocol),
        ("corrupt data", ErrorKind::Data),
        ("数据损坏", ErrorKind::Data),
        ("sync stalled", ErrorKind::Sync),
        ("同步中断", ErrorKind::Sync),
        ("something else", ErrorKind::Other),
        ("", ErrorKind::Other),
        // the earlier kind wins
        ("network data", ErrorKind::Network),
        ("protocol sync", ErrorKind::Protocol),
    ];
    for (msg, kind) in cases {
        let e = PoolServerError::from_message(msg.to_string());
        assert_eq!(e.error_kind(), kind, "{}", msg);
        assert_eq!(e.message_str(), msg);
    }
}

#[test]
fn anyhow_errors_are_classified_by_their_text() {
    let e = PoolServerError::from_anyhow(anyhow::Error::msg("operation timeout"));
    assert_eq!(e.error_kind(), ErrorKind::Network);
    assert_eq!(e.message_str(), "operation timeout");
    let e = PoolServerError::from_anyhow(anyhow::Error::msg("boom"));
    assert_eq!(e.error_kind(), ErrorKind::Other);
    assert_eq!(e.message_str(), "boom");
}

#[test]
fn data_error_survives_a_round_trip_through_its_log_line() {
    let e = PoolServerError::DataError("未找到区块高度信息".to_string());
    let back = PoolServerError::from_message(e.to_log_string());
    assert_eq!(back.error_kind(), ErrorKind::Data);
    assert_eq!(back.message_str(), "数据错误: 未找到区块高度信息");
    let s = PoolServerError::SyncError("lagging".to_string());
    let back = PoolServerError::from_message(s.to_log_string());
    assert_eq!(back.error_kind(), ErrorKind::Sync);
    // a network error's label holds none of the network words
    let n = PoolServerError::NetworkError("HTTP请求失败，状态码: 404".to_string());
    assert_eq!(PoolServerError::from_message(n.to_log_string()).error_kind(), ErrorKind::Other);
}

#[test]
fn grpc_status_codes() {
    let cases = [
        (PoolServerError::NetworkError("a".to_string()), GrpcCode::Unavailable, tonic::Code::Unavailable),
        (PoolServerError::ProtocolError("b".to_string()), GrpcCode::InvalidArgument, tonic::Code::InvalidArgument),
        (PoolServerError::DataError("c".to_string()), GrpcCode::DataLoss, tonic::Code::DataLoss),
        (PoolServerError::SyncError("d".to_string()), GrpcCode::FailedPrecondition, tonic::Code::FailedPrecondition),
        (PoolServerError::ServiceError("e".to_string()), GrpcCode::Internal, tonic::Code::Internal),
        (PoolServerError::Other("f".to_string()), GrpcCode::Unknown, tonic::Code::Unknown),
    ];
    for (err, code, tonic_code) in cases {
        let (c, m) = err.status_parts();
        assert_eq!(c, code);
        assert_eq!(m, err.message_str());
        let msg = err.message_str().to_string();
        let status = err.into_status();
        assert_eq!(status.code(), tonic_code);
        assert_eq!(status.message(), msg);
    }
}

#[test]
fn new_builds_the_named_kind() {
    let e = PoolServerError::new(ErrorKind::Service, "down".to_string());
    assert!(matches!(e, PoolServerError::ServiceError(ref m) if m == "down"));
}

#[test]
fn log_lines_reclassify_as_their_kind() {
    let kinds = [ErrorKind::Protocol, ErrorKind::Data, ErrorKind::Sync, ErrorKind::Other];
    for k in kinds {
        let e = PoolServerError::new(k, "disk full".to_string());
        let line = e.to_log_string();
        let again = PoolServerError::from_message(line.clone());
        assert_eq!(again.error_kind(), k);
        assert_eq!(again.message_str(), line);
        assert_eq!(again.severity(), e.severity());
        assert_eq!(again.is_recoverable(), e.is_recoverable());
    }
    for k in [ErrorKind::Network, ErrorKind::Service] {
        let e = PoolServerError::new(k, "disk full".to_string());
        assert_eq!(PoolServerError::from_message(e.to_log_string()).error_kind(), ErrorKind::Other);
    }
    let via_anyhow = PoolServerError::from_anyhow(anyhow::Error::msg(
        PoolServerError::new(ErrorKind::Sync, "stalled".to_string()).to_log_string(),
    ));
    assert_eq!(via_anyhow.error_kind(), ErrorKind::Sync);
    assert_eq!(via_anyhow.message_str(), "同步错误: stalled");
}
