//! The error that the public interface speaks in.

use crate::text;
use vstd::prelude::*;

verus! {

/// Whether an operation may be tried again.
#[derive(Debug, Clone, Copy, PartialEq, Eq, Structural)]
pub enum Retryability {
    Retryable,
    RetryableWithConfig,
    NotRetryable,
}

/// Who may see a message.
#[derive(Debug, Clone, Copy, PartialEq, Eq, Structural)]
pub enum Visibility {
    UserVisible,
    DeveloperVisible,
}

/// The kinds of errors.
#[derive(Debug, Clone, Copy, PartialEq, Eq, Structural)]
pub enum ErrorKind {
    Config,
    Protocol,
    Provider,
    Tool,
    PolicyDenied,
    Sandbox,
    State,
    Plugin,
    Mcp,
    Timeout,
    Cancelled,
    RateLimited,
    InvalidModelOutput,
    Internal,
}

impl ErrorKind {
    pub open spec fn name(self) -> Seq<char> {
        match self {
            ErrorKind::Config => "config"@,
            ErrorKind::Protocol => "protocol"@,
            ErrorKind::Provider => "provider"@,
            ErrorKind::Tool => "tool"@,
            ErrorKind::PolicyDenied => "policy_denied"@,
            ErrorKind::Sandbox => "sandbox"@,
            ErrorKind::State => "state"@,
            ErrorKind::Plugin => "plugin"@,
            ErrorKind::Mcp => "mcp"@,
            ErrorKind::Timeout => "timeout"@,
            ErrorKind::Cancelled => "cancelled"@,
            ErrorKind::RateLimited => "rate_limited"@,
            ErrorKind::InvalidModelOutput => "invalid_model_output"@,
            ErrorKind::Internal => "internal"@,
        }
    }

    pub fn as_str(&self) -> (r: &'static str)
        ensures
            r@ == self.name(),
    {
        match self {
            ErrorKind::Config => "config",
            ErrorKind::Protocol => "protocol",
            ErrorKind::Provider => "provider",
            ErrorKind::Tool => "tool",
            ErrorKind::PolicyDenied => "policy_denied",
            ErrorKind::Sandbox => "sandbox",
            ErrorKind::State => "state",
            ErrorKind::Plugin => "plugin",
            ErrorKind::Mcp => "mcp",
            ErrorKind::Timeout => "timeout",
            ErrorKind::Cancelled => "cancelled",
            ErrorKind::RateLimited => "rate_limited",
            ErrorKind::InvalidModelOutput => "invalid_model_output",
            ErrorKind::Internal => "internal",
        }
    }

    pub fn to_string(&self) -> (r: String)
        ensures
            r@ == self.name(),
    {
        text::owned(self.as_str())
    }
}

/// An error with its kind, a message for users and what to do about it.
#[derive(Debug)]
pub struct DeepOmniError {
    pub kind: ErrorKind,
    /// Safe to show to users.
    pub message: String,
    /// For developers; may hold paths.
    pub detail: Option<String>,
    pub retryability: Retryability,
    pub visibility: Visibility,
    pub is_redacted: bool,
    /// The text of the error that caused this one.
    pub source: Option<String>,
}

/// An error, over plain texts.
pub struct ErrorView {
    pub kind: ErrorKind,
    pub message: Seq<char>,
    pub detail: Option<Seq<char>>,
    pub retryability: Retryability,
    pub visibility: Visibility,
    pub is_redacted: bool,
    pub source: Option<Seq<char>>,
}

impl ErrorView {
    /// An error that is visible to users and not to be retried.
    pub open spec fn of(kind: ErrorKind, message: Seq<char>) -> ErrorView {
        ErrorView {
            kind,
            message,
            detail: None,
            retryability: Retryability::NotRetryable,
            visibility: Visibility::UserVisible,
            is_redacted: false,
            source: None,
        }
    }

    /// The text of an error: its kind in brackets, the message, and the detail in
    /// round brackets where there is one.
    pub open spec fn text(self) -> Seq<char> {
        let head = "["@ + self.kind.name() + "] "@ + self.message;
        match self.detail {
            Some(d) => head + " ("@ + d + ")"@,
            None => head,
        }
    }
}

impl View for DeepOmniError {
    type V = ErrorView;

    open spec fn view(&self) -> ErrorView {
        ErrorView {
            kind: self.kind,
            message: self.message@,
            detail: text::opt_text(self.detail),
            retryability: self.retryability,
            visibility: self.visibility,
            is_redacted: self.is_redacted,
            source: text::opt_text(self.source),
        }
    }
}

impl DeepOmniError {
    pub fn new(kind: ErrorKind, message: &str) -> (r: Self)
        ensures
            r@ == ErrorView::of(kind, message@),
    {
        DeepOmniError {
            kind,
            message: text::owned(message),
            detail: None,
            retryability: Retryability::NotRetryable,
            visibility: Visibility::UserVisible,
            is_redacted: false,
            source: None,
        }
    }

    pub fn with_detail(self, detail: &str) -> (r: Self)
        ensures
            r@ == (ErrorView { detail: Some(detail@), ..self@ }),
    {
        let mut e = self;
        e.detail = Some(text::owned(detail));
        e
    }

    pub fn with_retryable(self, r: Retryability) -> (e: Self)
        ensures
            e@ == (ErrorView { retryability: r, ..self@ }),
    {
        let mut e = self;
        e.retryability = r;
        e
    }

    pub fn with_dev_visible(self) -> (e: Self)
        ensures
            e@ == (ErrorView { visibility: Visibility::DeveloperVisible, ..self@ }),
    {
        let mut e = self;
        e.visibility = Visibility::DeveloperVisible;
        e
    }

    /// Attaches the text of the error that caused this one.
    pub fn with_source(self, source: &str) -> (e: Self)
        ensures
            e@ == (ErrorView { source: Some(source@), ..self@ }),
    {
        let mut e = self;
        e.source = Some(text::owned(source));
        e
    }

    pub fn with_visibility(self, v: Visibility) -> (e: Self)
        ensures
            e@ == (ErrorView { visibility: v, ..self@ }),
    {
        let mut e = self;
        e.visibility = v;
        e
    }

    pub fn internal(message: &str) -> (r: Self)
        ensures
            r@ == (ErrorView {
                visibility: Visibility::DeveloperVisible,
                ..ErrorView::of(ErrorKind::Internal, message@)
            }),
    {
        DeepOmniError::new(ErrorKind::Internal, message).with_visibility(
            Visibility::DeveloperVisible,
        )
    }

    pub fn config(message: &str) -> (r: Self)
        ensures
            r@ == ErrorView::of(ErrorKind::Config, message@),
    {
        DeepOmniError::new(ErrorKind::Config, message)
    }

    pub fn protocol(message: &str) -> (r: Self)
        ensures
            r@ == ErrorView::of(ErrorKind::Protocol, message@),
    {
        DeepOmniError::new(ErrorKind::Protocol, message)
    }

    pub fn provider(message: &str) -> (r: Self)
        ensures
            r@ == (ErrorView {
                retryability: Retryability::RetryableWithConfig,
                ..ErrorView::of(ErrorKind::Provider, message@)
            }),
    {
        DeepOmniError::new(ErrorKind::Provider, message).with_retryable(
            Retryability::RetryableWithConfig,
        )
    }

    pub fn tool(message: &str) -> (r: Self)
        ensures
            r@ == ErrorView::of(ErrorKind::Tool, message@),
    {
        DeepOmniError::new(ErrorKind::Tool, message)
    }

    pub fn policy_denied(message: &str) -> (r: Self)
        ensures
            r@ == ErrorView::of(ErrorKind::PolicyDenied, message@),
    {
        DeepOmniError::new(ErrorKind::PolicyDenied, message)
    }

    pub fn rate_limited(message: &str) -> (r: Self)
        ensures
            r@ == (ErrorView {
                retryability: Retryability::RetryableWithConfig,
                ..ErrorView::of(ErrorKind::RateLimited, message@)
            }),
    {
        DeepOmniError::new(ErrorKind::RateLimited, message).with_retryable(
            Retryability::RetryableWithConfig,
        )
    }

    pub fn timeout(message: &str) -> (r: Self)
        ensures
            r@ == (ErrorView {
                retryability: Retryability::RetryableWithConfig,
                ..ErrorView::of(ErrorKind::Timeout, message@)
            }),
    {
        DeepOmniError::new(ErrorKind::Timeout, message).with_retryable(
            Retryability::RetryableWithConfig,
        )
    }

    pub fn cancelled() -> (r: Self)
        ensures
            r@ == ErrorView::of(ErrorKind::Cancelled, "operation cancelled"@),
    {
        DeepOmniError::new(ErrorKind::Cancelled, "operation cancelled")
    }

    pub fn invalid_model_output(message: &str) -> (r: Self)
        ensures
            r@ == ErrorView::of(ErrorKind::InvalidModelOutput, message@),
    {
        DeepOmniError::new(ErrorKind::InvalidModelOutput, message)
    }

    pub fn to_string(&self) -> (r: String)
        ensures
            r@ == self@.text(),
    {
        let head0 = text::cat3("[", self.kind.as_str(), "] ");
        let head = text::cat(head0.as_str(), self.message.as_str());
        match &self.detail {
            Some(d) => {
                let tail = text::cat3(" (", d.as_str(), ")");
                let r = text::cat(head.as_str(), tail.as_str());
                assert(r@ =~= self@.text());
                r
            },
            None => head,
        }
    }
}

/// An error is of the kind and says the message that it was made with; it is for users and
/// not to be tried again, and it has no detail.
pub proof fn law_errors_start_plain(kind: ErrorKind, message: Seq<char>)
    ensures
        ErrorView::of(kind, message).kind == kind,
        ErrorView::of(kind, message).message == message,
        ErrorView::of(kind, message).detail is None,
        ErrorView::of(kind, message).retryability is NotRetryable,
        ErrorView::of(kind, message).visibility is UserVisible,
        !ErrorView::of(kind, message).is_redacted,
        ErrorView::of(kind, message).source is None,
{
}

/// The text of an error names its kind, says its message and, where there is one, the
/// detail; it never holds the cause.
pub proof fn law_error_text(e: ErrorView)
    ensures
        e.detail is None ==> e.text() == "["@ + e.kind.name() + "] "@ + e.message,
        e.detail matches Some(d) ==> e.text() == "["@ + e.kind.name() + "] "@ + e.message + " ("@ + d
            + ")"@,
{
}

/// The kinds of errors have names of their own.
pub proof fn law_error_kinds_are_named(k: ErrorKind)
    ensures
        k is Config ==> k.name() == "config"@,
        k is Protocol ==> k.name() == "protocol"@,
        k is Provider ==> k.name() == "provider"@,
        k is Tool ==> k.name() == "tool"@,
        k is PolicyDenied ==> k.name() == "policy_denied"@,
        k is Sandbox ==> k.name() == "sandbox"@,
        k is State ==> k.name() == "state"@,
        k is Plugin ==> k.name() == "plugin"@,
        k is Mcp ==> k.name() == "mcp"@,
        k is Timeout ==> k.name() == "timeout"@,
        k is Cancelled ==> k.name() == "cancelled"@,
        k is RateLimited ==> k.name() == "rate_limited"@,
        k is InvalidModelOutput ==> k.name() == "invalid_model_output"@,
        k is Internal ==> k.name() == "internal"@,
{
}

/// What is seen of a deep omni error is all that it holds.
pub proof fn law_deep_omni_error_is_seen_whole(d: DeepOmniError)
    ensures
        d@.kind == d.kind,
        d@.message == d.message@,
        d@.detail == text::opt_text(d.detail),
        d@.retryability == d.retryability,
        d@.visibility == d.visibility,
        d@.is_redacted == d.is_redacted,
        d@.source == text::opt_text(d.source),
{
}

} // verus!
