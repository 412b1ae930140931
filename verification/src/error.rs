//! The pool server's error type: its log text, severity, recoverability, the
//! classification of foreign error messages, and the gRPC status it maps to.
use vstd::prelude::*;
use crate::text::{concat2, contains, contains_seq};

verus! {

/// Errors of the pool server.
#[derive(Debug)]
pub enum PoolServerError {
    /// A network failure.
    NetworkError(String),
    /// A protocol violation.
    ProtocolError(String),
    /// Data that could not be processed.
    DataError(String),
    /// A blockchain synchronisation failure.
    SyncError(String),
    /// An internal service failure.
    ServiceError(String),
    /// Anything else.
    Other(String),
}

/// Which variant a [`PoolServerError`] is.
#[derive(Clone, Copy, Debug, PartialEq, Eq, Structural)]
pub enum ErrorKind {
    Network,
    Protocol,
    Data,
    Sync,
    Service,
    Other,
}

/// How serious an error is.
#[derive(Clone, Copy, Debug, PartialEq, Eq, Structural)]
pub enum ErrorSeverity {
    /// Informational; needs no handling.
    Info,
    /// Worth attention.
    Warning,
    /// Needs handling.
    Error,
    /// Needs immediate handling.
    Critical,
}

/// The gRPC status codes that pool-server errors are reported with.
#[derive(Clone, Copy, Debug, PartialEq, Eq, Structural)]
pub enum GrpcCode {
    Unavailable,
    InvalidArgument,
    DataLoss,
    FailedPrecondition,
    Internal,
    Unknown,
}

/// The text that the log line of an error of kind `k` starts with.
pub open spec fn log_prefix(k: ErrorKind) -> Seq<char> {
    match k {
        ErrorKind::Network => "网络错误: "@,
        ErrorKind::Protocol => "协议错误: "@,
        ErrorKind::Data => "数据错误: "@,
        ErrorKind::Sync => "同步错误: "@,
        ErrorKind::Service => "服务错误: "@,
        ErrorKind::Other => "其他错误: "@,
    }
}

/// The severity of an error of kind `k`.
pub open spec fn kind_severity(k: ErrorKind) -> ErrorSeverity {
    match k {
        ErrorKind::Network => ErrorSeverity::Warning,
        ErrorKind::Protocol => ErrorSeverity::Error,
        ErrorKind::Data => ErrorSeverity::Warning,
        ErrorKind::Sync => ErrorSeverity::Error,
        ErrorKind::Service => ErrorSeverity::Critical,
        ErrorKind::Other => ErrorSeverity::Warning,
    }
}

/// Whether an error of kind `k` is worth retrying.
pub open spec fn kind_recoverable(k: ErrorKind) -> bool {
    match k {
        ErrorKind::Network => true,
        ErrorKind::Protocol => false,
        ErrorKind::Data => true,
        ErrorKind::Sync => true,
        ErrorKind::Service => false,
        ErrorKind::Other => false,
    }
}

/// The gRPC code an error of kind `k` is reported with.
pub open spec fn kind_grpc_code(k: ErrorKind) -> GrpcCode {
    match k {
        ErrorKind::Network => GrpcCode::Unavailable,
        ErrorKind::Protocol => GrpcCode::InvalidArgument,
        ErrorKind::Data => GrpcCode::DataLoss,
        ErrorKind::Sync => GrpcCode::FailedPrecondition,
        ErrorKind::Service => GrpcCode::Internal,
        ErrorKind::Other => GrpcCode::Unknown,
    }
}

/// The message mentions a network problem.
pub open spec fn mentions_network(m: Seq<char>) -> bool {
    contains_seq(m, "network"@) || contains_seq(m, "连接"@) || contains_seq(m, "connection"@)
        || contains_seq(m, "timeout"@) || contains_seq(m, "超时"@)
}

/// The message mentions a protocol problem.
pub open spec fn mentions_protocol(m: Seq<char>) -> bool {
    contains_seq(m, "protocol"@) || contains_seq(m, "协议"@)
}

/// The message mentions a data problem.
pub open spec fn mentions_data(m: Seq<char>) -> bool {
    contains_seq(m, "data"@) || contains_seq(m, "数据"@)
}

/// The message mentions a synchronisation problem.
pub open spec fn mentions_sync(m: Seq<char>) -> bool {
    contains_seq(m, "sync"@) || contains_seq(m, "同步"@)
}

/// The kind that a foreign error message is classified as: the first of network,
/// protocol, data and sync whose words it mentions, else other.
pub open spec fn classify(m: Seq<char>) -> ErrorKind {
    if mentions_network(m) {
        ErrorKind::Network
    } else if mentions_protocol(m) {
        ErrorKind::Protocol
    } else if mentions_data(m) {
        ErrorKind::Data
    } else if mentions_sync(m) {
        ErrorKind::Sync
    } else {
        ErrorKind::Other
    }
}

/// The message holds one of the words of a network problem.
pub open spec fn has_network_word(m: Seq<char>) -> bool {
    contains_seq(m, "network"@) || contains_seq(m, "连接"@) || contains_seq(m, "connection"@)
        || contains_seq(m, "timeout"@) || contains_seq(m, "超时"@)
}

/// The message holds one of the words of a protocol problem.
pub open spec fn has_protocol_word(m: Seq<char>) -> bool {
    contains_seq(m, "protocol"@) || contains_seq(m, "协议"@)
}

/// The message holds one of the words of a data problem.
pub open spec fn has_data_word(m: Seq<char>) -> bool {
    contains_seq(m, "data"@) || contains_seq(m, "数据"@)
}

/// The message holds one of the words of a synchronisation problem.
pub open spec fn has_sync_word(m: Seq<char>) -> bool {
    contains_seq(m, "sync"@) || contains_seq(m, "同步"@)
}

/// How a foreign message is classified, by the priority of its words: a network
/// word makes it a (recoverable) network error whatever else it holds; else a
/// protocol word a protocol error; else a data word a data error; else a sync
/// word a sync error; a message with none of them is "other".
pub proof fn classification_follows_word_priority(m: Seq<char>)
    ensures
        has_network_word(m) ==> classify(m) == ErrorKind::Network && kind_recoverable(classify(m)),
        !has_network_word(m) && has_protocol_word(m) ==> classify(m) == ErrorKind::Protocol,
        !has_network_word(m) && !has_protocol_word(m) && has_data_word(m) ==> classify(m) == ErrorKind::Data,
        !has_network_word(m) && !has_protocol_word(m) && !has_data_word(m) && has_sync_word(m) ==> classify(m)
            == ErrorKind::Sync,
        !has_network_word(m) && !has_protocol_word(m) && !has_data_word(m) && !has_sync_word(m) ==> classify(m)
            == ErrorKind::Other,
{
}

impl PoolServerError {
    /// The variant of this error.
    pub open spec fn kind(&self) -> ErrorKind {
        match self {
            PoolServerError::NetworkError(_) => ErrorKind::Network,
            PoolServerError::ProtocolError(_) => ErrorKind::Protocol,
            PoolServerError::DataError(_) => ErrorKind::Data,
            PoolServerError::SyncError(_) => ErrorKind::Sync,
            PoolServerError::ServiceError(_) => ErrorKind::Service,
            PoolServerError::Other(_) => ErrorKind::Other,
        }
    }

    /// Whether the error is worth retrying.
    pub open spec fn is_recoverable_spec(&self) -> bool {
        kind_recoverable(self.kind())
    }

    /// The message this error carries.
    pub open spec fn message(&self) -> Seq<char> {
        match self {
            PoolServerError::NetworkError(m) => m@,
            PoolServerError::ProtocolError(m) => m@,
            PoolServerError::DataError(m) => m@,
            PoolServerError::SyncError(m) => m@,
            PoolServerError::ServiceError(m) => m@,
            PoolServerError::Other(m) => m@,
        }
    }

    /// The text of the error's log line (also its `Display` text).
    pub open spec fn log_text(&self) -> Seq<char> {
        log_prefix(self.kind()) + self.message()
    }

    /// An error of kind `k` with message `m`.
    pub fn new(k: ErrorKind, m: String) -> (e: Self)
        ensures
            e.kind() == k,
            e.message() == m@,
    {
        match k {
            ErrorKind::Network => PoolServerError::NetworkError(m),
            ErrorKind::Protocol => PoolServerError::ProtocolError(m),
            ErrorKind::Data => PoolServerError::DataError(m),
            ErrorKind::Sync => PoolServerError::SyncError(m),
            ErrorKind::Service => PoolServerError::ServiceError(m),
            ErrorKind::Other => PoolServerError::Other(m),
        }
    }

    /// The variant of this error.
    pub fn error_kind(&self) -> (k: ErrorKind)
        ensures
            k == self.kind(),
    {
        match self {
            PoolServerError::NetworkError(_) => ErrorKind::Network,
            PoolServerError::ProtocolError(_) => ErrorKind::Protocol,
            PoolServerError::DataError(_) => ErrorKind::Data,
            PoolServerError::SyncError(_) => ErrorKind::Sync,
            PoolServerError::ServiceError(_) => ErrorKind::Service,
            PoolServerError::Other(_) => ErrorKind::Other,
        }
    }

    /// The message this error carries.
    pub fn message_str(&self) -> (m: &str)
        ensures
            m@ == self.message(),
    {
        match self {
            PoolServerError::NetworkError(m) => m.as_str(),
            PoolServerError::ProtocolError(m) => m.as_str(),
            PoolServerError::DataError(m) => m.as_str(),
            PoolServerError::SyncError(m) => m.as_str(),
            PoolServerError::ServiceError(m) => m.as_str(),
            PoolServerError::Other(m) => m.as_str(),
        }
    }

    /// The error as a log line: the kind's label, a colon, and the message.
    pub fn to_log_string(&self) -> (s: String)
        ensures
            s@ == self.log_text(),
    {
        match self {
            PoolServerError::NetworkError(msg) => concat2("网络错误: ", msg.as_str()),
            PoolServerError::ProtocolError(msg) => concat2("协议错误: ", msg.as_str()),
            PoolServerError::DataError(msg) => concat2("数据错误: ", msg.as_str()),
            PoolServerError::SyncError(msg) => concat2("同步错误: ", msg.as_str()),
            PoolServerError::ServiceError(msg) => concat2("服务错误: ", msg.as_str()),
            PoolServerError::Other(msg) => concat2("其他错误: ", msg.as_str()),
        }
    }

    /// How serious the error is.
    pub fn severity(&self) -> (s: ErrorSeverity)
        ensures
            s == kind_severity(self.kind()),
    {
        match self {
            PoolServerError::NetworkError(_) => ErrorSeverity::Warning,
            PoolServerError::ProtocolError(_) => ErrorSeverity::Error,
            PoolServerError::DataError(_) => ErrorSeverity::Warning,
            PoolServerError::SyncError(_) => ErrorSeverity::Error,
            PoolServerError::ServiceError(_) => ErrorSeverity::Critical,
            PoolServerError::Other(_) => ErrorSeverity::Warning,
        }
    }

    /// Whether the operation that failed with this error is worth retrying.
    pub fn is_recoverable(&self) -> (b: bool)
        ensures
            b == kind_recoverable(self.kind()),
    {
        match self {
            PoolServerError::NetworkError(_) => true,
            PoolServerError::ProtocolError(_) => false,
            PoolServerError::DataError(_) => true,
            PoolServerError::SyncError(_) => true,
            PoolServerError::ServiceError(_) => false,
            PoolServerError::Other(_) => false,
        }
    }

    /// Classifies a foreign error by the words its message mentions; the message
    /// is kept whole.
    pub fn from_message(err_string: String) -> (e: Self)
        ensures
            e.kind() == classify(err_string@),
            e.message() == err_string@,
            has_network_word(err_string@) ==> e.kind() == ErrorKind::Network && e.is_recoverable_spec(),
    {
        let s = err_string.as_str();
        if contains(s, "network") || contains(s, "连接") || contains(s, "connection")
            || contains(s, "timeout") || contains(s, "超时") {
            PoolServerError::NetworkError(err_string)
        } else if contains(s, "protocol") || contains(s, "协议") {
            PoolServerError::ProtocolError(err_string)
        } else if contains(s, "data") || contains(s, "数据") {
            PoolServerError::DataError(err_string)
        } else if contains(s, "sync") || contains(s, "同步") {
            PoolServerError::SyncError(err_string)
        } else {
            PoolServerError::Other(err_string)
        }
    }

    /// Converts an `anyhow` error by classifying its message (its `Display` text);
    /// the message is kept whole.
    pub fn from_anyhow(err: anyhow::Error) -> (e: Self)
        ensures
            e.message() == anyhow_text(err),
            e.kind() == classify(anyhow_text(err)),
    {
        let err_string = anyhow_message(&err);
        Self::from_message(err_string)
    }

    /// The gRPC code and message that this error is reported with.
    pub fn status_parts(&self) -> (r: (GrpcCode, String))
        ensures
            r.0 == kind_grpc_code(self.kind()),
            r.1@ == self.message(),
    {
        match self {
            PoolServerError::NetworkError(m) => (GrpcCode::Unavailable, m.clone()),
            PoolServerError::ProtocolError(m) => (GrpcCode::InvalidArgument, m.clone()),
            PoolServerError::DataError(m) => (GrpcCode::DataLoss, m.clone()),
            PoolServerError::SyncError(m) => (GrpcCode::FailedPrecondition, m.clone()),
            PoolServerError::ServiceError(m) => (GrpcCode::Internal, m.clone()),
            PoolServerError::Other(m) => (GrpcCode::Unknown, m.clone()),
        }
    }

    /// The `tonic::Status` that reports this error to a gRPC client: the status
    /// made from the kind's gRPC code and the error's message.
    pub fn into_status(self) -> (s: tonic::Status)
        ensures
            s == grpc_status_of(kind_grpc_code(self.kind()), self.message()),
    {
        let (code, message) = self.status_parts();
        grpc_status(code, message)
    }
}

impl ErrorSeverity {
    /// The upper-case label the severity is displayed as.
    pub fn label(&self) -> (s: &'static str)
        ensures
            s@ == match self {
                ErrorSeverity::Info => "INFO"@,
                ErrorSeverity::Warning => "WARNING"@,
                ErrorSeverity::Error => "ERROR"@,
                ErrorSeverity::Critical => "CRITICAL"@,
            },
    {
        match self {
            ErrorSeverity::Info => "INFO",
            ErrorSeverity::Warning => "WARNING",
            ErrorSeverity::Error => "ERROR",
            ErrorSeverity::Critical => "CRITICAL",
        }
    }
}

/// An `anyhow` error, carried through unchanged.
#[verifier::external_type_specification]
#[verifier::external_body]
pub struct ExAnyhowError(anyhow::Error);

/// A gRPC status, carried through unchanged.
#[verifier::external_type_specification]
#[verifier::external_body]
pub struct ExTonicStatus(tonic::Status);

/// The `Display` text of an `anyhow::Error`: its outermost message, a function
/// of the error value alone.
pub uninterp spec fn anyhow_text(err: anyhow::Error) -> Seq<char>;

/// `ToString::to_string` on an `anyhow::Error`, through its `Display`: the text
/// is named by [`anyhow_text`].
#[verifier::external_body]
fn anyhow_message(err: &anyhow::Error) -> (m: String)
    ensures
        m@ == anyhow_text(*err),
{
    err.to_string()
}

/// The status `tonic::Status::new` makes of a code and a message (its code and
/// message are those given; no details, no metadata, no source).
pub uninterp spec fn grpc_status_of(code: GrpcCode, message: Seq<char>) -> tonic::Status;

/// `tonic::Status::new` with the code named by `code` and the message `message`:
/// the status is named by [`grpc_status_of`] applied to both. Its fields are
/// opaque here, so nothing more is stated of it.
#[verifier::external_body]
fn grpc_status(code: GrpcCode, message: String) -> (s: tonic::Status)
    ensures
        s == grpc_status_of(code, message@),
{
    let code = match code {
        GrpcCode::Unavailable => tonic::Code::Unavailable,
        GrpcCode::InvalidArgument => tonic::Code::InvalidArgument,
        GrpcCode::DataLoss => tonic::Code::DataLoss,
        GrpcCode::FailedPrecondition => tonic::Code::FailedPrecondition,
        GrpcCode::Internal => tonic::Code::Internal,
        GrpcCode::Unknown => tonic::Code::Unknown,
    };
    tonic::Status::new(code, message)
}

/// The message mentions one of the words that classification looks for.
pub open spec fn mentions_keyword(m: Seq<char>) -> bool {
    mentions_network(m) || mentions_protocol(m) || mentions_data(m) || mentions_sync(m)
}

/// A word that does not start inside the label is not in the label followed by a
/// message that lacks it.
proof fn lemma_word_not_after_label(label: Seq<char>, m: Seq<char>, w: Seq<char>)
    requires
        w.len() > 0,
        forall|j: int| 0 <= j < label.len() ==> label[j] != w[0],
        !contains_seq(m, w),
    ensures
        !contains_seq(label + m, w),
{
    if contains_seq(label + m, w) {
        let i = choose|i: int| crate::text::occurs_at(label + m, w, i);
        assert((label + m).subrange(i, i + w.len())[0] == w[0]);
        if i < label.len() {
            assert((label + m)[i] == label[i]);
        } else {
            assert((label + m).subrange(i, i + w.len()) =~= m.subrange(i - label.len(), i - label.len() + w.len()));
            assert(crate::text::occurs_at(m, w, i - label.len()));
        }
    }
}

/// The label's own word is in the log line.
proof fn lemma_label_word(label: Seq<char>, m: Seq<char>, w: Seq<char>)
    requires
        w.len() <= label.len(),
        label.subrange(0, w.len() as int) =~= w,
    ensures
        contains_seq(label + m, w),
{
    assert((label + m).subrange(0, w.len() as int) =~= w);
    assert(crate::text::occurs_at(label + m, w, 0));
}

proof fn lemma_words_absent(e: PoolServerError)
    requires
        !mentions_keyword(e.message()),
    ensures
        !mentions_network(e.log_text()),
        e.kind() != ErrorKind::Protocol ==> !mentions_protocol(e.log_text()),
        e.kind() != ErrorKind::Data ==> !mentions_data(e.log_text()),
        e.kind() != ErrorKind::Sync ==> !mentions_sync(e.log_text()),
{
    reveal_strlit("网络错误: ");
    reveal_strlit("协议错误: ");
    reveal_strlit("数据错误: ");
    reveal_strlit("同步错误: ");
    reveal_strlit("服务错误: ");
    reveal_strlit("其他错误: ");
    reveal_strlit("network");
    reveal_strlit("连接");
    reveal_strlit("connection");
    reveal_strlit("timeout");
    reveal_strlit("超时");
    reveal_strlit("protocol");
    reveal_strlit("协议");
    reveal_strlit("data");
    reveal_strlit("数据");
    reveal_strlit("sync");
    reveal_strlit("同步");
    let label = log_prefix(e.kind());
    let m = e.message();
    let k = e.kind();
    lemma_word_not_after_label(label, m, "network"@);
    lemma_word_not_after_label(label, m, "连接"@);
    lemma_word_not_after_label(label, m, "connection"@);
    lemma_word_not_after_label(label, m, "timeout"@);
    lemma_word_not_after_label(label, m, "超时"@);
    if k != ErrorKind::Protocol {
        lemma_word_not_after_label(label, m, "protocol"@);
        lemma_word_not_after_label(label, m, "协议"@);
    }
    if k != ErrorKind::Data {
        lemma_word_not_after_label(label, m, "data"@);
        lemma_word_not_after_label(label, m, "数据"@);
    }
    if k != ErrorKind::Sync {
        lemma_word_not_after_label(label, m, "sync"@);
        lemma_word_not_after_label(label, m, "同步"@);
    }
}

/// Classifying an error's log line again gives back its variant, for a message
/// that mentions none of the classification words, except for a network error:
/// its label "网络错误" holds no network word. So converting the log line of a
/// protocol, data, sync or other error keeps its severity and recoverability.
pub proof fn log_line_reclassifies_as_its_kind(e: PoolServerError)
    requires
        e.kind() != ErrorKind::Network,
        e.kind() != ErrorKind::Service,
        !mentions_keyword(e.message()),
    ensures
        classify(e.log_text()) == e.kind(),
        kind_severity(classify(e.log_text())) == kind_severity(e.kind()),
        kind_recoverable(classify(e.log_text())) == kind_recoverable(e.kind()),
{
    lemma_words_absent(e);
    reveal_strlit("协议错误: ");
    reveal_strlit("数据错误: ");
    reveal_strlit("同步错误: ");
    reveal_strlit("协议");
    reveal_strlit("数据");
    reveal_strlit("同步");
    let label = log_prefix(e.kind());
    let m = e.message();
    match e.kind() {
        ErrorKind::Protocol => lemma_label_word(label, m, "协议"@),
        ErrorKind::Data => lemma_label_word(label, m, "数据"@),
        ErrorKind::Sync => lemma_label_word(label, m, "同步"@),
        _ => {},
    }
}

/// The log line of a network or service error whose message mentions none of
/// the classification words is classified as "other": neither label holds a word.
pub proof fn network_and_service_log_lines_classify_as_other(e: PoolServerError)
    requires
        e.kind() == ErrorKind::Network || e.kind() == ErrorKind::Service,
        !mentions_keyword(e.message()),
    ensures
        classify(e.log_text()) == ErrorKind::Other,
{
    lemma_words_absent(e);
}

} // verus!
