//! What can go wrong between this client and the upstream server.

use vstd::prelude::*;
use vstd::string::StringExecFns;

use crate::text::decimal_digits;
use crate::text::text_of;
use crate::text::unsigned_decimal;

verus! {

/// What `reqwest::StatusCode` displays for `status`: the number and the
/// canonical reason, such as `404 Not Found`; `None` where
/// `reqwest::StatusCode::from_u16` refuses the number.
pub uninterp spec fn status_line(status: u16) -> Option<Seq<char>>;

/// Calls `reqwest::StatusCode::from_u16` and, where that succeeds, the
/// status code's `to_string`. The contract only gives the result its name.
#[verifier::external_body]
fn display_status(status: u16) -> (line: Option<String>)
    ensures
        text_of(line) == status_line(status),
{
    match reqwest::StatusCode::from_u16(status) {
        Ok(code) => Some(code.to_string()),
        Err(_) => None,
    }
}

/// The operations that the upstream server offers on feeds and items.
#[derive(Debug, Clone, Copy, PartialEq, Eq, Structural)]
pub enum Operation {
    CreateFeed,
    ReadFeeds,
    ReadFeed,
    UpdateFeed,
    DeleteFeed,
    CreateItem,
    ReadItems,
    CountItems,
    UpdateItem,
    UpdateItems,
}

/// A failure of one call. None of them is retried beyond the single retry
/// that follows a rejected token.
#[derive(Debug, Clone, PartialEq, Eq)]
pub enum SyncError {
    /// The request never got an answer; the text is the transport's own.
    TransportFailed(String),
    /// The authentication endpoint answered with this status, which is not
    /// a success.
    AuthenticationFailed(u16),
    /// The server rejected the token again after it had been renewed.
    UnauthorizedAfterRetry(Operation),
    /// The server reported success with a body that cannot be decoded.
    MalformedResponse,
    /// The server answered the operation with this status, which is neither
    /// a success nor a rejected token.
    ResourceOperationFailed(u16, Operation),
    /// An upstream server is configured without credentials for it.
    ConfigurationMissing,
}

/// The mathematical value of a [`SyncError`].
pub enum SyncErrorView {
    TransportFailed(Seq<char>),
    AuthenticationFailed(u16),
    UnauthorizedAfterRetry(Operation),
    MalformedResponse,
    ResourceOperationFailed(u16, Operation),
    ConfigurationMissing,
}

impl View for SyncError {
    type V = SyncErrorView;

    open spec fn view(&self) -> SyncErrorView {
        match *self {
            SyncError::TransportFailed(message) => SyncErrorView::TransportFailed(message@),
            SyncError::AuthenticationFailed(status) => SyncErrorView::AuthenticationFailed(status),
            SyncError::UnauthorizedAfterRetry(operation) => SyncErrorView::UnauthorizedAfterRetry(
                operation,
            ),
            SyncError::MalformedResponse => SyncErrorView::MalformedResponse,
            SyncError::ResourceOperationFailed(status, operation) => {
                SyncErrorView::ResourceOperationFailed(status, operation)
            },
            SyncError::ConfigurationMissing => SyncErrorView::ConfigurationMissing,
        }
    }
}

/// Whether `status` reports success: 200 to 299.
pub open spec fn is_success(status: u16) -> bool {
    200 <= status < 300
}

/// The status with which the server rejects a token.
pub const UNAUTHORIZED: u16 = 401;

/// Tells whether `status` reports success.
pub fn status_is_success(status: u16) -> (success: bool)
    ensures
        success == is_success(status),
{
    200 <= status && status < 300
}

impl Operation {
    /// What the operation does, in words.
    pub open spec fn words(self) -> Seq<char> {
        match self {
            Operation::CreateFeed => "create feed"@,
            Operation::ReadFeeds => "fetch feeds"@,
            Operation::ReadFeed => "fetch feed"@,
            Operation::UpdateFeed => "update feed"@,
            Operation::DeleteFeed => "delete feed"@,
            Operation::CreateItem => "create item"@,
            Operation::ReadItems => "fetch items"@,
            Operation::CountItems => "count items"@,
            Operation::UpdateItem => "update item"@,
            Operation::UpdateItems => "update items"@,
        }
    }

    /// Names the operation in words.
    pub fn name(&self) -> (words: &'static str)
        ensures
            words@ == self.words(),
    {
        match self {
            Operation::CreateFeed => "create feed",
            Operation::ReadFeeds => "fetch feeds",
            Operation::ReadFeed => "fetch feed",
            Operation::UpdateFeed => "update feed",
            Operation::DeleteFeed => "delete feed",
            Operation::CreateItem => "create item",
            Operation::ReadItems => "fetch items",
            Operation::CountItems => "count items",
            Operation::UpdateItem => "update item",
            Operation::UpdateItems => "update items",
        }
    }
}

/// How a status is shown in a message: by its line where it has one, else
/// by its number.
pub open spec fn status_shown(status: u16, line: Option<Seq<char>>) -> Seq<char> {
    match line {
        Some(text) => text,
        None => decimal_digits(status as nat),
    }
}

/// The status that a failure reports, if it reports one.
pub open spec fn status_of(error: SyncErrorView) -> Option<u16> {
    match error {
        SyncErrorView::AuthenticationFailed(status) => Some(status),
        SyncErrorView::UnauthorizedAfterRetry(_) => Some(401),
        SyncErrorView::ResourceOperationFailed(status, _) => Some(status),
        _ => None,
    }
}

/// The message of a failure for a reader, with `shown` for the status that
/// it reports.
pub open spec fn message_text(error: SyncErrorView, shown: Seq<char>) -> Seq<char> {
    match error {
        SyncErrorView::TransportFailed(message) => message,
        SyncErrorView::AuthenticationFailed(_) => "Authentication failed: "@ + shown,
        SyncErrorView::UnauthorizedAfterRetry(operation) => "Failed to "@ + operation.words()
            + ": "@ + shown,
        SyncErrorView::MalformedResponse => "Malformed response"@,
        SyncErrorView::ResourceOperationFailed(_, operation) => "Failed to "@ + operation.words()
            + ": "@ + shown,
        SyncErrorView::ConfigurationMissing => "Upstream credentials not configured"@,
    }
}

/// The message of a failure: a failure that reports a status shows it by its
/// status line.
pub open spec fn message_of(error: SyncErrorView) -> Seq<char> {
    match status_of(error) {
        Some(status) => message_text(error, status_shown(status, status_line(status))),
        None => message_text(error, Seq::empty()),
    }
}

/// Shows a status by its line, or by its number where it has none.
pub fn show_status(status: u16, line: Option<String>) -> (shown: String)
    ensures
        shown@ == status_shown(status, text_of(line)),
{
    match line {
        Some(text) => text,
        None => unsigned_decimal(status as u64),
    }
}

impl SyncError {
    /// The status that the failure reports, if it reports one.
    pub fn status(&self) -> (status: Option<u16>)
        ensures
            status == status_of(self@),
    {
        match self {
            SyncError::AuthenticationFailed(status) => Some(*status),
            SyncError::UnauthorizedAfterRetry(_) => Some(UNAUTHORIZED),
            SyncError::ResourceOperationFailed(status, _) => Some(*status),
            _ => None,
        }
    }

    /// Writes the message of the failure, with `shown` for its status.
    pub fn message_with(&self, shown: &str) -> (message: String)
        ensures
            message@ == message_text(self@, shown@),
    {
        match self {
            SyncError::TransportFailed(message) => message.clone(),
            SyncError::AuthenticationFailed(_) => "Authentication failed: ".to_owned().concat(
                shown,
            ),
            SyncError::UnauthorizedAfterRetry(operation) => "Failed to ".to_owned().concat(
                operation.name(),
            ).concat(": ").concat(shown),
            SyncError::MalformedResponse => "Malformed response".to_owned(),
            SyncError::ResourceOperationFailed(_, operation) => "Failed to ".to_owned().concat(
                operation.name(),
            ).concat(": ").concat(shown),
            SyncError::ConfigurationMissing => "Upstream credentials not configured".to_owned(),
        }
    }

    /// Writes the message of the failure.
    pub fn message(&self) -> (message: String)
        ensures
            message@ == message_of(self@),
    {
        match self.status() {
            Some(status) => {
                let shown = show_status(status, display_status(status));
                self.message_with(shown.as_str())
            },
            None => {
                proof {
                    reveal_strlit("");
                }
                assert(""@ =~= Seq::<char>::empty());
                self.message_with("")
            },
        }
    }
}

} // verus!
