//! The capability handshake: what the server says of itself, and whether it
//! accepts the protocol version that a client asks for.
//!
//! Nothing here has state: every answer depends on the request alone.

use vstd::prelude::*;
use vstd::string::StringExecFns;
use crate::error::{ErrorKind, ErrorView, ServiceError};

verus! {

/// A set of protocol features.
#[derive(Clone, Copy, Debug, PartialEq, Eq, Structural)]
pub struct Capabilities {
    /// Invocation of named operations.
    pub tools: bool,
    /// Access to resources.
    pub resources: bool,
    /// Prompt templates.
    pub prompts: bool,
    /// Log messages sent to the client.
    pub logging: bool,
}

impl Capabilities {
    /// The empty set.
    pub open spec fn none() -> Capabilities {
        Capabilities { tools: false, resources: false, prompts: false, logging: false }
    }

    /// What the server supports: operation invocation only.
    pub open spec fn supported() -> Capabilities {
        Capabilities { tools: true, resources: false, prompts: false, logging: false }
    }

    /// The features that are in both sets.
    pub open spec fn common(self, other: Capabilities) -> Capabilities {
        Capabilities {
            tools: self.tools && other.tools,
            resources: self.resources && other.resources,
            prompts: self.prompts && other.prompts,
            logging: self.logging && other.logging,
        }
    }

    /// The features that are in both sets.
    pub fn intersect(self, other: Capabilities) -> (both: Capabilities)
        ensures
            both == self.common(other),
    {
        Capabilities {
            tools: self.tools && other.tools,
            resources: self.resources && other.resources,
            prompts: self.prompts && other.prompts,
            logging: self.logging && other.logging,
        }
    }
}

/// What a client sends to open the handshake.
#[derive(Debug)]
pub struct HandshakeRequest {
    /// The protocol version that the client wants to speak.
    pub protocol_version: String,
    /// The features that the client would like to use.
    pub capabilities: Capabilities,
}

/// What the server answers to a handshake.
#[derive(Debug)]
pub struct ServerInfo {
    pub protocol_version: String,
    pub capabilities: Capabilities,
    pub name: String,
    pub version: String,
    pub instructions: String,
}

/// What a [`ServerInfo`] holds, as plain mathematical values.
pub struct ServerInfoView {
    pub protocol_version: Seq<char>,
    pub capabilities: Capabilities,
    pub name: Seq<char>,
    pub version: Seq<char>,
    pub instructions: Seq<char>,
}

impl View for ServerInfo {
    type V = ServerInfoView;

    open spec fn view(&self) -> ServerInfoView {
        ServerInfoView {
            protocol_version: self.protocol_version@,
            capabilities: self.capabilities,
            name: self.name@,
            version: self.version@,
            instructions: self.instructions@,
        }
    }
}

/// The one protocol version that the server implements.
pub open spec fn protocol_version() -> Seq<char> {
    "2024-11-05"@
}

/// The identity and capabilities of the server.
pub open spec fn server_identity() -> ServerInfoView {
    ServerInfoView {
        protocol_version: protocol_version(),
        capabilities: Capabilities::supported(),
        name: "task-manager"@,
        version: "0.1.0"@,
        instructions: "A task manager MCP server that allows you to add, complete, list, and retrieve tasks with real-time updates."@,
    }
}

/// The failure that refuses the protocol version `requested`.
pub open spec fn unsupported_version(requested: Seq<char>) -> ErrorView {
    ErrorView {
        kind: ErrorKind::UnsupportedVersion,
        reason: "unsupported protocol version: "@ + requested,
    }
}

/// The answer to a handshake that asks for the protocol version
/// `requested`.
pub open spec fn negotiated(requested: Seq<char>) -> Result<ServerInfoView, ErrorView> {
    if requested == protocol_version() {
        Ok(server_identity())
    } else {
        Err(unsupported_version(requested))
    }
}

/// The view of a handshake answer.
pub open spec fn handshake_view(answer: Result<ServerInfo, ServiceError>) -> Result<
    ServerInfoView,
    ErrorView,
> {
    match answer {
        Ok(info) => Ok(info@),
        Err(error) => Err(error@),
    }
}

/// The identity and capabilities of the server.
pub fn get_info() -> (info: ServerInfo)
    ensures
        info@ == server_identity(),
{
    ServerInfo {
        protocol_version: "2024-11-05".to_owned(),
        capabilities: Capabilities { tools: true, resources: false, prompts: false, logging: false },
        name: "task-manager".to_owned(),
        version: "0.1.0".to_owned(),
        instructions: "A task manager MCP server that allows you to add, complete, list, and retrieve tasks with real-time updates.".to_owned(),
    }
}

/// Answers a handshake: the server's identity if the client asks for the
/// protocol version that the server implements, a refusal otherwise.
pub fn negotiate(request: &HandshakeRequest) -> (answer: Result<ServerInfo, ServiceError>)
    ensures
        handshake_view(answer) == negotiated(request.protocol_version@),
{
    let implemented = "2024-11-05".to_owned();
    if request.protocol_version == implemented {
        Ok(get_info())
    } else {
        let mut reason = "unsupported protocol version: ".to_owned();
        reason.append(request.protocol_version.as_str());
        Err(ServiceError::new(ErrorKind::UnsupportedVersion, reason))
    }
}

} // verus!
