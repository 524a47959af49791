//! Failures the bridge reports to the host runtime.
//!
//! Three things can go wrong at this layer: the SDK refuses to build a
//! client from the resolved properties, the host offers a listener that it
//! cannot invoke, or an SDK operation fails. The first and the last carry the
//! SDK error's `Debug` rendering as text and reach the host as its generic
//! runtime error; the second is raised locally and reaches the host as its
//! value error.

use vstd::prelude::*;

verus! {

/// The SDK's error type, carried through the bridge as an opaque value.
#[verifier::external_type_specification]
#[verifier::external_body]
pub struct ExSdkError(nacos_sdk::api::error::Error);

/// The text that the SDK's `Debug` implementation writes for an error. It
/// is determined by the error and is left unspecified otherwise.
pub uninterp spec fn sdk_error_debug(err: nacos_sdk::api::error::Error) -> Seq<char>;

/// Formats an SDK error with `<nacos_sdk::api::error::Error as Debug>::fmt`,
/// the implementation the SDK derives for its error type. Not verified: the
/// contract only gives the text a name, `sdk_error_debug` of the error, and
/// claims nothing about what it holds.
#[verifier::external_body]
fn debug_text(err: &nacos_sdk::api::error::Error) -> (text: String)
    ensures
        text@ == sdk_error_debug(*err),
{
    format!("{:?}", err)
}

/// A failure as the bridge reports it.
#[derive(Clone, Debug, PartialEq, Eq)]
pub enum BridgeError {
    /// The SDK rejected the client properties while building a client.
    Configuration(String),
    /// A listener argument cannot be invoked. Raised before any SDK call.
    Argument(String),
    /// An SDK operation failed.
    Engine(String),
}

/// A `BridgeError` with its text as a sequence of characters.
pub enum BridgeErrorView {
    Configuration(Seq<char>),
    Argument(Seq<char>),
    Engine(Seq<char>),
}

impl View for BridgeError {
    type V = BridgeErrorView;

    open spec fn view(&self) -> BridgeErrorView {
        match self {
            BridgeError::Configuration(detail) => BridgeErrorView::Configuration(detail@),
            BridgeError::Argument(message) => BridgeErrorView::Argument(message@),
            BridgeError::Engine(detail) => BridgeErrorView::Engine(detail@),
        }
    }
}

/// The error kind under which the host runtime sees a failure.
#[derive(Clone, Copy, Debug, PartialEq, Eq, Structural)]
pub enum HostErrorKind {
    /// The host's generic runtime error.
    RuntimeError,
    /// The host's error for an unacceptable argument value.
    ValueError,
}

impl BridgeErrorView {
    /// The text the failure carries.
    pub open spec fn text(self) -> Seq<char> {
        match self {
            BridgeErrorView::Configuration(detail) => detail,
            BridgeErrorView::Argument(message) => message,
            BridgeErrorView::Engine(detail) => detail,
        }
    }

    /// Only an argument failure is a value error; everything that comes
    /// from the SDK is a runtime error.
    pub open spec fn host_kind(self) -> HostErrorKind {
        match self {
            BridgeErrorView::Argument(_) => HostErrorKind::ValueError,
            _ => HostErrorKind::RuntimeError,
        }
    }
}

/// What a listener argument is told when it cannot be invoked.
pub open spec fn listener_not_callable_message() -> Seq<char> {
    "Arg `listener` must be a callable"@
}

impl BridgeError {
    /// The error kind the host raises for this failure.
    pub fn host_kind(&self) -> (kind: HostErrorKind)
        ensures
            kind == self@.host_kind(),
    {
        match self {
            BridgeError::Argument(_) => HostErrorKind::ValueError,
            BridgeError::Configuration(_) => HostErrorKind::RuntimeError,
            BridgeError::Engine(_) => HostErrorKind::RuntimeError,
        }
    }

    /// The text the host error carries.
    pub fn message(&self) -> (text: &String)
        ensures
            text@ == self@.text(),
    {
        match self {
            BridgeError::Configuration(detail) => detail,
            BridgeError::Argument(message) => message,
            BridgeError::Engine(detail) => detail,
        }
    }

    /// The failure of a client construction with the given detail.
    pub fn configuration(detail: String) -> (e: BridgeError)
        ensures
            e@ == BridgeErrorView::Configuration(detail@),
    {
        BridgeError::Configuration(detail)
    }

    /// The failure of an SDK operation with the given detail.
    pub fn engine(detail: String) -> (e: BridgeError)
        ensures
            e@ == BridgeErrorView::Engine(detail@),
    {
        BridgeError::Engine(detail)
    }

    /// The failure raised for a listener that cannot be invoked.
    pub fn listener_not_callable() -> (e: BridgeError)
        ensures
            e@ == BridgeErrorView::Argument(listener_not_callable_message()),
    {
        BridgeError::Argument("Arg `listener` must be a callable".to_owned())
    }
}

/// The failure for an SDK error that stopped a client construction: a
/// configuration failure whose detail is the error's `Debug` text.
pub fn configuration_failure(err: &nacos_sdk::api::error::Error) -> (e: BridgeError)
    ensures
        e@ == BridgeErrorView::Configuration(sdk_error_debug(*err)),
{
    BridgeError::configuration(debug_text(err))
}

/// The failure for an SDK error that stopped an operation: an engine
/// failure whose detail is the error's `Debug` text. The error is neither
/// interpreted nor retried.
pub fn engine_failure(err: &nacos_sdk::api::error::Error) -> (e: BridgeError)
    ensures
        e@ == BridgeErrorView::Engine(sdk_error_debug(*err)),
{
    BridgeError::engine(debug_text(err))
}

/// The outcome of an SDK operation as the bridge sees it.
pub open spec fn spec_engine_result<T>(
    outcome: Result<T, nacos_sdk::api::error::Error>,
) -> Result<T, BridgeErrorView> {
    match outcome {
        Ok(value) => Ok(value),
        Err(err) => Err(BridgeErrorView::Engine(sdk_error_debug(err))),
    }
}

/// The outcome of a client construction as the bridge sees it.
pub open spec fn spec_construction_result<T>(
    outcome: Result<T, nacos_sdk::api::error::Error>,
) -> Result<T, BridgeErrorView> {
    match outcome {
        Ok(value) => Ok(value),
        Err(err) => Err(BridgeErrorView::Configuration(sdk_error_debug(err))),
    }
}

/// A `Result` of the bridge with the error taken by its view.
pub open spec fn result_view<T>(result: Result<T, BridgeError>) -> Result<T, BridgeErrorView> {
    match result {
        Ok(value) => Ok(value),
        Err(e) => Err(e@),
    }
}

/// Passes a successful SDK result through unchanged and turns a failure
/// into the one `engine_failure` gives. This is the whole reply handling of
/// the operations whose result needs no marshalling.
pub fn engine_result<T>(outcome: Result<T, nacos_sdk::api::error::Error>) -> (result: Result<
    T,
    BridgeError,
>)
    ensures
        result_view(result) == spec_engine_result(outcome),
{
    match outcome {
        Ok(value) => Ok(value),
        Err(err) => Err(engine_failure(&err)),
    }
}

/// Passes a built client through unchanged and turns a failure into the
/// one `configuration_failure` gives.
pub fn construction_result<T>(outcome: Result<T, nacos_sdk::api::error::Error>) -> (result:
    Result<T, BridgeError>)
    ensures
        result_view(result) == spec_construction_result(outcome),
{
    match outcome {
        Ok(value) => Ok(value),
        Err(err) => Err(configuration_failure(&err)),
    }
}

} // verus!
