use vstd::prelude::*;

verus! {

/// A placeholder error type for entry points that never fail: it has no value.
pub type Never = core::convert::Infallible;

/// The arithmetic operation that overflowed.
#[derive(Clone, Copy, Debug, PartialEq, Eq, Structural)]
pub enum OverflowOperation {
    Add,
    Sub,
    Mul,
    Pow,
    Shr,
    Shl,
}

/// The host library's standard error, as far as this contract meets it.
#[derive(Clone, Debug, PartialEq, Eq)]
pub enum StdError {
    /// Whenever there is no specific error type available.
    GenericErr { msg: String },
    /// Bytes that are not UTF-8.
    InvalidUtf8 { msg: String },
    /// A storage item that was never written.
    NotFound { kind: String },
    /// Bytes that do not parse into the target type.
    ParseErr { target_type: String, msg: String },
    /// A value that does not serialize.
    SerializeErr { source_type: String, msg: String },
    /// Checked arithmetic that overflowed.
    Overflow { operation: OverflowOperation },
    /// Checked division by zero.
    DivideByZero,
    /// Any other failure that the host reports, by its message.
    Other { msg: String },
}

/// The mathematical value of a [`StdError`].
#[verifier::ext_equal]
pub enum StdErrorView {
    GenericErr { msg: Seq<char> },
    InvalidUtf8 { msg: Seq<char> },
    NotFound { kind: Seq<char> },
    ParseErr { target_type: Seq<char>, msg: Seq<char> },
    SerializeErr { source_type: Seq<char>, msg: Seq<char> },
    Overflow { operation: OverflowOperation },
    DivideByZero,
    Other { msg: Seq<char> },
}

impl View for StdError {
    type V = StdErrorView;

    open spec fn view(&self) -> StdErrorView {
        match self {
            StdError::GenericErr { msg } => StdErrorView::GenericErr { msg: msg@ },
            StdError::InvalidUtf8 { msg } => StdErrorView::InvalidUtf8 { msg: msg@ },
            StdError::NotFound { kind } => StdErrorView::NotFound { kind: kind@ },
            StdError::ParseErr { target_type, msg } => StdErrorView::ParseErr {
                target_type: target_type@,
                msg: msg@,
            },
            StdError::SerializeErr { source_type, msg } => StdErrorView::SerializeErr {
                source_type: source_type@,
                msg: msg@,
            },
            StdError::Overflow { operation } => StdErrorView::Overflow { operation: *operation },
            StdError::DivideByZero => StdErrorView::DivideByZero,
            StdError::Other { msg } => StdErrorView::Other { msg: msg@ },
        }
    }
}

/// The errors of the contract.
#[derive(Clone, Debug, PartialEq, Eq)]
pub enum ContractError {
    Std(StdError),
    NoSuchChannel { id: String },
    NoFunds {},
    AmountOverflow {},
    OnlyOrderedChannel {},
    NoEnoughTokens {},
    NoForeignTokens {},
    FromOtherPort { port: String },
    FromOtherChannel { channel: String },
    CannotMigrate { previous_contract: String },
    CannotMigrateVersion { previous_version: String },
    UnknownReplyId { id: u64 },
    CannotLowerGas,
    Unauthorized,
    NotOnAllowList,
    OrderedChannel {},
    InvalidIbcVersion { actual: String, expected: String },
    /// The price in a query answer is not a decimal amount.
    ParseError {},
}

/// The mathematical value of a [`ContractError`].
#[verifier::ext_equal]
pub enum ContractErrorView {
    Std(StdErrorView),
    NoSuchChannel { id: Seq<char> },
    NoFunds,
    AmountOverflow,
    OnlyOrderedChannel,
    NoEnoughTokens,
    NoForeignTokens,
    FromOtherPort { port: Seq<char> },
    FromOtherChannel { channel: Seq<char> },
    CannotMigrate { previous_contract: Seq<char> },
    CannotMigrateVersion { previous_version: Seq<char> },
    UnknownReplyId { id: u64 },
    CannotLowerGas,
    Unauthorized,
    NotOnAllowList,
    OrderedChannel,
    InvalidIbcVersion { actual: Seq<char>, expected: Seq<char> },
    ParseError,
}

impl View for ContractError {
    type V = ContractErrorView;

    open spec fn view(&self) -> ContractErrorView {
        match self {
            ContractError::Std(e) => ContractErrorView::Std(e@),
            ContractError::NoSuchChannel { id } => ContractErrorView::NoSuchChannel { id: id@ },
            ContractError::NoFunds {} => ContractErrorView::NoFunds,
            ContractError::AmountOverflow {} => ContractErrorView::AmountOverflow,
            ContractError::OnlyOrderedChannel {} => ContractErrorView::OnlyOrderedChannel,
            ContractError::NoEnoughTokens {} => ContractErrorView::NoEnoughTokens,
            ContractError::NoForeignTokens {} => ContractErrorView::NoForeignTokens,
            ContractError::FromOtherPort { port } => ContractErrorView::FromOtherPort {
                port: port@,
            },
            ContractError::FromOtherChannel { channel } => ContractErrorView::FromOtherChannel {
                channel: channel@,
            },
            ContractError::CannotMigrate { previous_contract } => ContractErrorView::CannotMigrate {
                previous_contract: previous_contract@,
            },
            ContractError::CannotMigrateVersion { previous_version } =>
                ContractErrorView::CannotMigrateVersion { previous_version: previous_version@ },
            ContractError::UnknownReplyId { id } => ContractErrorView::UnknownReplyId { id: *id },
            ContractError::CannotLowerGas => ContractErrorView::CannotLowerGas,
            ContractError::Unauthorized => ContractErrorView::Unauthorized,
            ContractError::NotOnAllowList => ContractErrorView::NotOnAllowList,
            ContractError::OrderedChannel {} => ContractErrorView::OrderedChannel,
            ContractError::InvalidIbcVersion { actual, expected } =>
                ContractErrorView::InvalidIbcVersion { actual: actual@, expected: expected@ },
            ContractError::ParseError {} => ContractErrorView::ParseError,
        }
    }
}

/// The view of a generic error with the given message.
pub open spec fn generic_err_view(msg: Seq<char>) -> ContractErrorView {
    ContractErrorView::Std(StdErrorView::GenericErr { msg })
}

/// A generic error with the given message, as the contract reports it.
pub fn generic_err(msg: &str) -> (e: ContractError)
    ensures
        e@ == generic_err_view(msg@),
{
    ContractError::Std(StdError::GenericErr { msg: msg.to_owned() })
}

/// The view of a missing storage item of the given type.
pub open spec fn not_found_view(kind: Seq<char>) -> ContractErrorView {
    ContractErrorView::Std(StdErrorView::NotFound { kind })
}

/// The error that reading a missing storage item of the given type gives.
pub fn not_found(kind: &str) -> (e: StdError)
    ensures
        e@ == (StdErrorView::NotFound { kind: kind@ }),
{
    StdError::NotFound { kind: kind.to_owned() }
}

/// The error that a protobuf answer which does not decode is reported as.
pub open spec fn proto_decode_err_view() -> ContractErrorView {
    ContractErrorView::Std(
        StdErrorView::ParseErr { target_type: "ProtoCoin"@, msg: "parsing Proto response"@ },
    )
}

/// The error that a protobuf answer which does not decode is reported as.
pub fn proto_decode_err() -> (e: ContractError)
    ensures
        e@ == proto_decode_err_view(),
{
    ContractError::Std(
        StdError::ParseErr {
            target_type: "ProtoCoin".to_owned(),
            msg: "parsing Proto response".to_owned(),
        },
    )
}

} // verus!
