//! The ways an operation against the platform can fail.

use vstd::prelude::*;
use vstd::string::*;
use crate::text::{int_text, push_int};

verus! {

/// A failure of one remote operation.
#[derive(Debug, Clone, PartialEq, Eq)]
pub enum ApiError {
    /// The remote host could not be reached or its answer could not be read.
    Transport(String),
    /// The answer did not have the expected shape.
    Decode(String),
    /// The platform answered with a non-zero status code. `message` is the
    /// platform's own text; `page` is set when the answer belonged to one page
    /// of a listing that spans several pages.
    Remote { page: Option<i32>, message: String },
    /// The caller broke a rule, such as asking for work without a session.
    Validation(String),
}

/// Prefix of the text of a remote failure.
pub const REMOTE_PREFIX: &'static str = "API错误: ";

/// Opening of the text of a failed page, before the page number.
pub const PAGE_PREFIX: &'static str = "获取第";

/// Rest of the text of a failed page, between the page number and the platform's message.
pub const PAGE_INFIX: &'static str = "页失败: ";

/// Text of a successful answer that carries no payload where one is needed.
pub const NO_DATA: &'static str = "没有数据";

/// Text of the failure raised when no session is configured.
pub const NO_SESSION: &'static str = "请先配置Cookie";

impl ApiError {
    /// The human-readable text of this failure.
    pub open spec fn text(self) -> Seq<char> {
        match self {
            ApiError::Transport(detail) => detail@,
            ApiError::Decode(detail) => detail@,
            ApiError::Remote { page: None, message } => REMOTE_PREFIX@ + message@,
            ApiError::Remote { page: Some(p), message } => PAGE_PREFIX@ + int_text(p as int)
                + PAGE_INFIX@ + message@,
            ApiError::Validation(detail) => detail@,
        }
    }

    /// Whether the platform itself answered with a failure, as opposed to a
    /// failure to reach it, to read its answer, or to meet a local rule.
    pub open spec fn is_remote(self) -> bool {
        self is Remote
    }

    /// Renders this failure for display.
    pub fn message(&self) -> (m: String)
        ensures
            m@ == self.text(),
    {
        match self {
            ApiError::Transport(detail) => detail.clone(),
            ApiError::Decode(detail) => detail.clone(),
            ApiError::Remote { page, message } => {
                match page {
                    None => {
                        let mut m = String::from_str(REMOTE_PREFIX);
                        m.append(message.as_str());
                        m
                    },
                    Some(p) => {
                        let mut m = String::from_str(PAGE_PREFIX);
                        push_int(&mut m, *p as i64);
                        m.append(PAGE_INFIX);
                        m.append(message.as_str());
                        m
                    },
                }
            },
            ApiError::Validation(detail) => detail.clone(),
        }
    }
}

/// Applies the rule for calls that change something on the platform: a
/// failure that the platform itself reported becomes part of the outcome, as
/// its text, while a failure to reach the platform, to read its answer or to
/// meet a local rule stays a failure of the whole operation.
pub fn soften<T>(outcome: Result<T, ApiError>) -> (r: Result<Result<T, String>, ApiError>)
    ensures
        match outcome {
            Ok(value) => r == Ok::<Result<T, String>, ApiError>(Ok(value)),
            Err(e) => if e.is_remote() {
                r matches Ok(Err(text)) && text@ == e.text()
            } else {
                r == Err::<Result<T, String>, ApiError>(e)
            },
        },
{
    match outcome {
        Ok(value) => Ok(Ok(value)),
        Err(e) => {
            match e {
                ApiError::Remote { .. } => Ok(Err(e.message())),
                _ => Err(e),
            }
        },
    }
}

} // verus!
