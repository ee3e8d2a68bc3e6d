//! Wire-level data model: methods, requests, responses, error objects.
//!
//! A message is a request when it carries an identifier and a notification
//! when it does not; notifications never produce a response. Each type that
//! holds text also has a ghost view (`RequestV`, `ResponseV`, ...) over
//! `Seq<char>`, which the lifecycle contracts are stated over.

use vstd::prelude::*;

verus! {

/// Method names the lifecycle machine recognizes. Anything else on the wire
/// maps to `Unknown`.
#[derive(Clone, Copy, Debug, PartialEq, Eq, Structural)]
pub enum Method {
    Initialize,
    Initialized,
    Shutdown,
    Exit,
    Completion,
    CompletionResolve,
    Hover,
    Unknown,
}

/// Kind tag carried by every completion item.
#[derive(Clone, Copy, Debug, PartialEq, Eq, Structural)]
pub enum CompletionKind {
    Text,
}

/// A single completion entry: a label, a kind tag and an optional detail.
#[derive(Debug, PartialEq, Eq)]
pub struct CompletionItem {
    pub label: String,
    pub kind: CompletionKind,
    pub detail: Option<String>,
}

/// Ghost view of a `CompletionItem`.
#[verifier::ext_equal]
pub struct ItemV {
    pub label: Seq<char>,
    pub kind: CompletionKind,
    pub detail: Option<Seq<char>>,
}

impl CompletionItem {
    pub open spec fn view(self) -> ItemV {
        ItemV {
            label: self.label@,
            kind: self.kind,
            detail: match self.detail {
                Some(d) => Some(d@),
                None => None,
            },
        }
    }

    /// A structural copy: same label, kind and detail.
    pub fn duplicate(&self) -> (r: CompletionItem)
        ensures
            r == *self,
    {
        CompletionItem {
            label: self.label.clone(),
            kind: self.kind,
            detail: match &self.detail {
                Some(d) => Some(d.clone()),
                None => None,
            },
        }
    }
}

/// An inbound message: a request when `id` is present, a notification
/// otherwise. `item` carries the method-specific payload of a resolve call.
#[derive(Debug, PartialEq, Eq)]
pub struct Request {
    pub id: Option<u64>,
    pub method: Method,
    pub item: Option<CompletionItem>,
}

/// Ghost view of a `Request`.
#[verifier::ext_equal]
pub struct RequestV {
    pub id: Option<u64>,
    pub method: Method,
    pub item: Option<ItemV>,
}

impl Request {
    pub open spec fn view(self) -> RequestV {
        RequestV {
            id: self.id,
            method: self.method,
            item: match self.item {
                Some(i) => Some(i.view()),
                None => None,
            },
        }
    }

    /// A structural copy of the message.
    pub fn duplicate(&self) -> (r: Request)
        ensures
            r == *self,
    {
        Request {
            id: self.id,
            method: self.method,
            item: match &self.item {
                Some(i) => Some(i.duplicate()),
                None => None,
            },
        }
    }
}

/// The error kinds a call can fail with.
#[derive(Clone, Copy, Debug, PartialEq, Eq, Structural)]
pub enum ErrorKind {
    ServerNotInitialized,
    InvalidRequest,
    MethodNotFound,
    InternalError,
}

impl ErrorKind {
    /// The numeric code of this kind in the reserved JSON-RPC range.
    pub open spec fn spec_code(self) -> i64 {
        match self {
            ErrorKind::ServerNotInitialized => -32002i64,
            ErrorKind::InvalidRequest => -32600i64,
            ErrorKind::MethodNotFound => -32601i64,
            ErrorKind::InternalError => -32603i64,
        }
    }

    pub fn code(&self) -> (c: i64)
        ensures
            c == self.spec_code(),
    {
        match self {
            ErrorKind::ServerNotInitialized => -32002,
            ErrorKind::InvalidRequest => -32600,
            ErrorKind::MethodNotFound => -32601,
            ErrorKind::InternalError => -32603,
        }
    }
}

/// A failed call's outcome: a kind (which fixes the numeric code) and a
/// human-readable message.
#[derive(Debug, PartialEq, Eq)]
pub struct ErrorObject {
    pub kind: ErrorKind,
    pub message: String,
}

/// Ghost view of an `ErrorObject`.
#[verifier::ext_equal]
pub struct ErrorObjectV {
    pub kind: ErrorKind,
    pub message: Seq<char>,
}

impl ErrorObject {
    pub open spec fn view(self) -> ErrorObjectV {
        ErrorObjectV { kind: self.kind, message: self.message@ }
    }

    pub fn duplicate(&self) -> (r: ErrorObject)
        ensures
            r == *self,
    {
        ErrorObject { kind: self.kind, message: self.message.clone() }
    }
}

} // verus!
