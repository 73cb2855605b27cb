//! A Temporal server in a container for integration tests: its image, its
//! ports and the address at which it is reached.
use vstd::prelude::*;
use crate::outside::{parse_url, spec_parsed_url, spec_url_parses};
use crate::text::{decimal, push_decimal};
use crate::workflow::joined;

verus! {

/// Default Temporal server image.
pub const DEFAULT_IMAGE: &'static str = "temporalio/auto-setup";

/// Default Temporal server version.
pub const DEFAULT_TAG: &'static str = "1.24.2";

/// Default gRPC port.
pub const GRPC_PORT: u16 = 7233;

/// Default HTTP port (for UI/API).
pub const HTTP_PORT: u16 = 8233;

/// A started Temporal server container, as the tests reach it: the host
/// port to which its gRPC port is mapped.
#[derive(Debug, Clone, Copy)]
pub struct TemporalContainer {
    grpc_port: u16,
}

/// The gRPC endpoint of a server whose gRPC port is mapped to `port`.
pub open spec fn endpoint_text(port: u16) -> Seq<char> {
    "http://localhost:"@ + decimal(port as nat)
}

impl TemporalContainer {
    /// The host port to which the gRPC port is mapped.
    pub closed spec fn mapped_port(&self) -> u16 {
        self.grpc_port
    }

    /// The container whose gRPC port is mapped to host port `grpc_port`.
    pub fn new(grpc_port: u16) -> (c: Self)
        ensures
            c.mapped_port() == grpc_port,
    {
        TemporalContainer { grpc_port }
    }

    /// Get the gRPC endpoint URL for connecting to the Temporal server.
    pub fn endpoint(&self) -> (s: String)
        ensures
            s@ == endpoint_text(self.mapped_port()),
    {
        let mut s = String::from_str("http://localhost:");
        push_decimal(&mut s, self.grpc_port as u64);
        s
    }

    /// Get the gRPC endpoint as a URL.
    pub fn endpoint_url(&self) -> (r: Result<url::Url, url::ParseError>)
        ensures
            r is Ok <==> spec_url_parses(endpoint_text(self.mapped_port())),
            r matches Ok(u) ==> u == spec_parsed_url(endpoint_text(self.mapped_port())),
    {
        let s = self.endpoint();
        parse_url(s.as_str())
    }

    /// Get the mapped gRPC port.
    pub fn grpc_port(&self) -> (p: u16)
        ensures
            p == self.mapped_port(),
    {
        self.grpc_port
    }
}

/// Options for configuring a Temporal container.
#[derive(Debug, Clone)]
pub struct ContainerOptions {
    /// Docker image name.
    pub image: &'static str,
    /// Docker image tag.
    pub tag: &'static str,
    /// Startup timeout in seconds.
    pub startup_timeout_secs: u64,
}

impl Default for ContainerOptions {
    /// The default image and tag, with two minutes to start.
    fn default() -> (o: Self)
        ensures
            o.image@ == DEFAULT_IMAGE@,
            o.tag@ == DEFAULT_TAG@,
            o.startup_timeout_secs == 120,
    {
        ContainerOptions { image: DEFAULT_IMAGE, tag: DEFAULT_TAG, startup_timeout_secs: 120 }
    }
}

/// Errors that can occur when working with containers.
#[derive(Debug, Clone, PartialEq, Eq)]
pub enum ContainerError {
    /// Container failed to start.
    StartFailed(String),
    /// Failed to map container port.
    PortMapping(String),
}

impl ContainerError {
    /// The error's text.
    pub open spec fn text(self) -> Seq<char> {
        match self {
            ContainerError::StartFailed(m) => "container failed to start: "@ + m@,
            ContainerError::PortMapping(m) => "port mapping failed: "@ + m@,
        }
    }

    /// The error's text.
    pub fn to_string(&self) -> (s: String)
        ensures
            s@ == self.text(),
    {
        match self {
            ContainerError::StartFailed(m) => joined("container failed to start: ", m.as_str()),
            ContainerError::PortMapping(m) => joined("port mapping failed: ", m.as_str()),
        }
    }
}

} // verus!
