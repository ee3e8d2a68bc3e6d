//! Capability negotiation: the pure handshake step that computes the feature
//! set advertised to the client, and the static server identity.
//!
//! The negotiator is deterministic and side-effect free: its contract pins
//! the advertised set to one value, so re-running it always yields the same
//! capabilities.

use vstd::prelude::*;

verus! {

/// Text synchronization mode advertised to the client.
#[derive(Clone, Copy, Debug, PartialEq, Eq, Structural)]
pub enum SyncKind {
    Full,
    Incremental,
}

/// Options of the completion provider.
#[derive(Clone, Copy, Debug, PartialEq, Eq)]
pub struct CompletionOptions {
    pub resolve_provider: bool,
}

/// The immutable feature set computed once during the handshake.
#[derive(Clone, Copy, Debug, PartialEq, Eq)]
pub struct Capabilities {
    pub text_document_sync: Option<SyncKind>,
    pub completion_provider: Option<CompletionOptions>,
    pub hover_provider: bool,
}

/// The fixed policy of this server: incremental sync, completion with
/// resolve support, simple hover.
pub open spec fn spec_negotiated() -> Capabilities {
    Capabilities {
        text_document_sync: Some(SyncKind::Incremental),
        completion_provider: Some(CompletionOptions { resolve_provider: true }),
        hover_provider: true,
    }
}

/// Computes the advertised capability set. Referentially transparent: every
/// run returns exactly `spec_negotiated()`.
pub fn negotiate() -> (c: Capabilities)
    ensures
        c == spec_negotiated(),
{
    Capabilities {
        text_document_sync: Some(SyncKind::Incremental),
        completion_provider: Some(CompletionOptions { resolve_provider: true }),
        hover_provider: true,
    }
}

/// Static name/version pair, constant for the process lifetime.
#[derive(Debug, PartialEq, Eq)]
pub struct ServerInfo {
    pub name: String,
    pub version: Option<String>,
}

/// Ghost view of `ServerInfo`.
#[verifier::ext_equal]
pub struct ServerInfoV {
    pub name: Seq<char>,
    pub version: Option<Seq<char>>,
}

impl ServerInfo {
    pub open spec fn view(self) -> ServerInfoV {
        ServerInfoV {
            name: self.name@,
            version: match self.version {
                Some(v) => Some(v@),
                None => None,
            },
        }
    }

    pub fn duplicate(&self) -> (r: ServerInfo)
        ensures
            r == *self,
    {
        ServerInfo {
            name: self.name.clone(),
            version: match &self.version {
                Some(v) => Some(v.clone()),
                None => None,
            },
        }
    }
}

/// The identity this server reports in its handshake result.
pub open spec fn spec_server_info() -> ServerInfoV {
    ServerInfoV { name: "hash-lsp"@, version: Some("1.0"@) }
}

/// Builds the static server identity.
pub fn server_info() -> (r: ServerInfo)
    ensures
        r.view() == spec_server_info(),
{
    let r = ServerInfo { name: "hash-lsp".to_owned(), version: Some("1.0".to_owned()) };
    proof {
        assert(r.view() =~= spec_server_info());
    }
    r
}

/// The full handshake result: the negotiated capabilities and the server
/// identity.
#[derive(Debug, PartialEq, Eq)]
pub struct InitializeResult {
    pub capabilities: Capabilities,
    pub server_info: ServerInfo,
}

/// Ghost view of `InitializeResult`.
#[verifier::ext_equal]
pub struct InitializeResultV {
    pub capabilities: Capabilities,
    pub server_info: ServerInfoV,
}

impl InitializeResult {
    pub open spec fn view(self) -> InitializeResultV {
        InitializeResultV {
            capabilities: self.capabilities,
            server_info: self.server_info.view(),
        }
    }

    pub fn duplicate(&self) -> (r: InitializeResult)
        ensures
            r == *self,
    {
        InitializeResult {
            capabilities: self.capabilities,
            server_info: self.server_info.duplicate(),
        }
    }
}

/// The handshake result this server always returns.
pub open spec fn spec_initialize_result() -> InitializeResultV {
    InitializeResultV { capabilities: spec_negotiated(), server_info: spec_server_info() }
}

/// Builds the handshake result: negotiated capabilities plus identity.
pub fn initialize_result() -> (r: InitializeResult)
    ensures
        r.view() == spec_initialize_result(),
{
    let r = InitializeResult { capabilities: negotiate(), server_info: server_info() };
    proof {
        assert(r.view() =~= spec_initialize_result());
    }
    r
}

} // verus!
