//! The failures that cross the bridge, and the status a remote call ends with.

use vstd::prelude::*;
use vstd::string::StringExecFns;

verus! {

/// Status code of a remote call that found no such entity.
pub const CODE_NOT_FOUND: i32 = 5;

/// Status code of a remote call for an operation that is not offered.
pub const CODE_UNIMPLEMENTED: i32 = 12;

/// Status code of a remote call that failed inside the gateway or the device.
pub const CODE_INTERNAL: i32 = 13;

/// The status a remote call failed with: its numeric code and its message.
#[derive(Clone, Debug, PartialEq, Eq)]
pub struct RemoteStatus {
    pub code: i32,
    pub message: String,
}

/// A [`RemoteStatus`] as a mathematical value.
pub struct RemoteStatusView {
    pub code: i32,
    pub message: Seq<char>,
}

impl View for RemoteStatus {
    type V = RemoteStatusView;

    open spec fn view(&self) -> RemoteStatusView {
        RemoteStatusView { code: self.code, message: self.message@ }
    }
}

/// The text that the RPC framework prints for a status with the given code and
/// message and with neither details nor metadata.
pub uninterp spec fn status_text(code: i32, message: Seq<char>) -> Seq<char>;

/// Renders a status with `tonic::Status`'s `Display`: the status is built by
/// `tonic::Status::new` from the code and the message, so it carries no details
/// and no metadata. The text is a function of the code and the message alone.
#[verifier::external_body]
fn render_status(code: i32, message: &str) -> (text: String)
    ensures
        text@ == status_text(code, message@),
{
    tonic::Status::new(tonic::Code::from_i32(code), message).to_string()
}

impl RemoteStatus {
    /// A status with the given code and message.
    pub fn new(code: i32, message: String) -> (status: RemoteStatus)
        ensures
            status@ == (RemoteStatusView { code, message: message@ }),
    {
        RemoteStatus { code, message }
    }

    /// A copy of this status.
    pub fn duplicate(&self) -> (copy: RemoteStatus)
        ensures
            copy@ == self@,
    {
        RemoteStatus { code: self.code, message: self.message.clone() }
    }
}

/// The heading of every proxy error text.
pub open spec fn proxy_error_heading() -> Seq<char> {
    "received invalid status from proxy: "@
}

/// The text of a proxy error whose status is printed as `status`.
pub fn proxy_error_text(status: &str) -> (text: String)
    ensures
        text@ == proxy_error_heading() + status@,
{
    let mut text = String::from_str("received invalid status from proxy: ");
    text.append(status);
    text
}

/// A remote call made for a local GATT interaction failed. The error belongs to
/// that interaction alone.
#[derive(Clone, Debug, PartialEq, Eq)]
pub struct CharacteristicProxyError {
    pub status: RemoteStatus,
}

impl View for CharacteristicProxyError {
    type V = RemoteStatusView;

    open spec fn view(&self) -> RemoteStatusView {
        self.status@
    }
}

impl CharacteristicProxyError {
    /// The error that carries `status`.
    pub fn new(status: RemoteStatus) -> (error: CharacteristicProxyError)
        ensures
            error@ == status@,
    {
        CharacteristicProxyError { status }
    }

    /// The text of this error: the heading, then the status as the RPC
    /// framework prints it.
    pub fn describe(&self) -> (text: String)
        ensures
            text@ == proxy_error_heading() + status_text(self@.code, self@.message),
    {
        let status = render_status(self.status.code, self.status.message.as_str());
        proxy_error_text(status.as_str())
    }
}

/// The physical device or the remote gateway could not be reached or attached to.
#[derive(Clone, Debug, PartialEq, Eq)]
pub struct ConnectionError {
    pub reason: String,
}

impl View for ConnectionError {
    type V = Seq<char>;

    open spec fn view(&self) -> Seq<char> {
        self.reason@
    }
}

/// Why the gateway refused or failed a remote call.
#[derive(Clone, Debug, PartialEq, Eq)]
pub enum RpcError {
    /// The characteristic UUID is not in the topology.
    NotFound,
    /// The characteristic lacks the capability the operation needs.
    Unsupported,
    /// The hardware call itself failed, with the stack's message.
    DeviceError(String),
}

/// An [`RpcError`] as a mathematical value.
pub enum RpcErrorView {
    NotFound,
    Unsupported,
    DeviceError(Seq<char>),
}

impl View for RpcError {
    type V = RpcErrorView;

    open spec fn view(&self) -> RpcErrorView {
        match *self {
            RpcError::NotFound => RpcErrorView::NotFound,
            RpcError::Unsupported => RpcErrorView::Unsupported,
            RpcError::DeviceError(message) => RpcErrorView::DeviceError(message@),
        }
    }
}

impl RpcErrorView {
    /// The status code that the error travels under.
    pub open spec fn code(self) -> i32 {
        match self {
            RpcErrorView::NotFound => CODE_NOT_FOUND,
            RpcErrorView::Unsupported => CODE_UNIMPLEMENTED,
            RpcErrorView::DeviceError(_) => CODE_INTERNAL,
        }
    }

    /// The message that the error travels with.
    pub open spec fn message(self) -> Seq<char> {
        match self {
            RpcErrorView::NotFound => "characteristic not found"@,
            RpcErrorView::Unsupported => "operation not supported by the characteristic"@,
            RpcErrorView::DeviceError(message) => message,
        }
    }
}

impl RpcError {
    /// The status under which the error is sent to the remote caller.
    pub fn to_status(&self) -> (status: RemoteStatus)
        ensures
            status@ == (RemoteStatusView { code: self@.code(), message: self@.message() }),
    {
        match self {
            RpcError::NotFound => RemoteStatus {
                code: CODE_NOT_FOUND,
                message: String::from_str("characteristic not found"),
            },
            RpcError::Unsupported => RemoteStatus {
                code: CODE_UNIMPLEMENTED,
                message: String::from_str("operation not supported by the characteristic"),
            },
            RpcError::DeviceError(message) => RemoteStatus {
                code: CODE_INTERNAL,
                message: message.clone(),
            },
        }
    }
}

} // verus!
