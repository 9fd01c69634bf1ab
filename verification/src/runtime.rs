//! The transport runtime: which connections an instance makes, and the
//! clients it holds once they are made.
//!
//! Connecting is the caller's part. The runtime says from the configuration
//! what to connect, keeps the clients, and refuses the calls that need a
//! client it does not have. `E` is the client through which the instance
//! is called, `C` the client through which it calls others.

use vstd::prelude::*;
use vstd::string::*;
use crate::text::owned;

verus! {

/// Where the transport connects when the configuration names no server.
pub open spec fn default_server_url() -> Seq<char> {
    "nats://connect.dink.cloud:4222"@
}

/// The transport settings of an instance.
#[derive(Debug, Clone)]
pub struct DinkConfig {
    pub enabled: bool,
    pub services: Vec<String>,
    pub expose_as_edge: bool,
    pub edge_key: String,
    pub edge_labels: Vec<(String, String)>,
    pub server_url: String,
    pub center_api_key: Option<String>,
    pub app_id: String,
    pub request_timeout_ms: u64,
}

/// How to connect the client through which the instance is called.
#[derive(Debug, Clone)]
pub struct EdgeSettings {
    pub api_key: String,
    pub server_url: Option<String>,
    pub labels: Vec<(String, String)>,
    pub timeout_ms: u64,
}

/// How to connect the client through which the instance calls others.
#[derive(Debug, Clone)]
pub struct CenterSettings {
    pub api_key: Option<String>,
    pub server_url: String,
    pub app_id: Option<String>,
    pub timeout_ms: u64,
}

/// The connections to make.
#[derive(Debug, Clone)]
pub struct ConnectionPlan {
    pub edge: Option<EdgeSettings>,
    pub center: Option<CenterSettings>,
}

/// Whether the configuration asks for the instance to be callable: it must
/// say so and give a key.
pub open spec fn wants_edge(config: DinkConfig) -> bool {
    config.expose_as_edge && config.edge_key@.len() > 0
}

/// Whether the configuration lets the instance call others: it must give a
/// key that is not empty.
pub open spec fn wants_center(config: DinkConfig) -> bool {
    config.center_api_key matches Some(k) && k@.len() > 0
}

/// `text`, or nothing where it is empty.
fn non_empty(text: &String) -> (r: Option<String>)
    ensures
        match r {
            Some(t) => text@.len() > 0 && t@ == text@,
            None => text@.len() == 0,
        },
{
    if text.as_str().is_empty() {
        None
    } else {
        Some(text.clone())
    }
}

/// Says which connections the configuration asks for, and with what
/// settings. Both take the request timeout of the configuration. The first
/// connects to the configured server, or leaves the choice to the transport
/// where none is configured; the second falls back to the public server.
pub fn connection_plan(config: &DinkConfig) -> (plan: ConnectionPlan)
    ensures
        plan.edge is Some <==> wants_edge(*config),
        plan.edge matches Some(e) ==> {
            &&& e.api_key@ == config.edge_key@
            &&& e.labels@ == config.edge_labels@
            &&& e.timeout_ms == config.request_timeout_ms
            &&& match e.server_url {
                Some(u) => config.server_url@.len() > 0 && u@ == config.server_url@,
                None => config.server_url@.len() == 0,
            }
        },
        plan.center is Some <==> wants_center(*config),
        plan.center matches Some(c) ==> {
            &&& c.api_key matches Some(k) && k@ == config.center_api_key->0@
            &&& c.timeout_ms == config.request_timeout_ms
            &&& c.server_url@ == (if config.server_url@.len() == 0 {
                default_server_url()
            } else {
                config.server_url@
            })
            &&& match c.app_id {
                Some(a) => config.app_id@.len() > 0 && a@ == config.app_id@,
                None => config.app_id@.len() == 0,
            }
        },
{
    let edge = if config.expose_as_edge && !config.edge_key.as_str().is_empty() {
        Some(
            EdgeSettings {
                api_key: config.edge_key.clone(),
                server_url: non_empty(&config.server_url),
                labels: clone_members(&config.edge_labels),
                timeout_ms: config.request_timeout_ms,
            },
        )
    } else {
        None
    };
    let has_center_key = match &config.center_api_key {
        Some(k) => !k.as_str().is_empty(),
        None => false,
    };
    let center = if has_center_key {
        let server_url = match non_empty(&config.server_url) {
            Some(u) => u,
            None => owned("nats://connect.dink.cloud:4222"),
        };
        let api_key = match &config.center_api_key {
            Some(k) => Some(k.clone()),
            None => None,
        };
        Some(
            CenterSettings {
                api_key,
                server_url,
                app_id: non_empty(&config.app_id),
                timeout_ms: config.request_timeout_ms,
            },
        )
    } else {
        None
    };
    ConnectionPlan { edge, center }
}

/// A copy of a list of members.
fn clone_members(members: &Vec<(String, String)>) -> (r: Vec<(String, String)>)
    ensures
        r@ == members@,
{
    let mut out: Vec<(String, String)> = Vec::new();
    let mut i: usize = 0;
    while i < members.len()
        invariant
            i <= members.len(),
            out@ == members@.subrange(0, i as int),
        decreases members.len() - i,
    {
        let pair = (members[i].0.clone(), members[i].1.clone());
        assert(pair == members@[i as int]);
        out.push(pair);
        proof {
            assert(out@ =~= members@.subrange(0, i + 1));
        }
        i += 1;
    }
    proof {
        assert(out@ =~= members@);
    }
    out
}

/// Why the runtime refused a call.
#[derive(Debug, Clone, Copy, PartialEq, Eq, Structural)]
pub enum RuntimeError {
    /// The instance is not connected as callable.
    NoEdgeClient,
    /// The instance has no client to call others with.
    NoCenterClient,
}

impl RuntimeError {
    /// The text of the refusal.
    pub fn message(self) -> (r: &'static str)
        ensures
            r@ == (match self {
                RuntimeError::NoEdgeClient => "Cannot expose service: EdgeClient is not connected (set expose_as_edge = true and provide an edge_key)"@,
                RuntimeError::NoCenterClient => "Cannot call edge: CenterClient is not connected (provide a center_api_key in dink config)"@,
            }),
    {
        match self {
            RuntimeError::NoEdgeClient => "Cannot expose service: EdgeClient is not connected (set expose_as_edge = true and provide an edge_key)",
            RuntimeError::NoCenterClient => "Cannot call edge: CenterClient is not connected (provide a center_api_key in dink config)",
        }
    }
}

/// The clients of an instance, and the configuration they were made from.
#[derive(Debug)]
pub struct DinkRuntime<E, C> {
    edge_client: Option<E>,
    center_client: Option<C>,
    config: DinkConfig,
}

impl<E, C> DinkRuntime<E, C> {
    /// The client through which the instance is called, if it has one.
    pub closed spec fn edge(&self) -> Option<E> {
        self.edge_client
    }

    /// The client through which the instance calls others, if it has one.
    pub closed spec fn center(&self) -> Option<C> {
        self.center_client
    }

    /// The configuration.
    pub closed spec fn settings(&self) -> DinkConfig {
        self.config
    }

    /// A runtime that holds the clients that were connected.
    pub fn new(config: DinkConfig, edge_client: Option<E>, center_client: Option<C>) -> (r: Self)
        ensures
            r.edge() == edge_client,
            r.center() == center_client,
            r.settings() == config,
    {
        DinkRuntime { edge_client, center_client, config }
    }

    /// The client through which the instance is called.
    pub fn edge_client(&self) -> (r: Option<&E>)
        ensures
            match r {
                Some(e) => self.edge() == Some(*e),
                None => self.edge() is None,
            },
    {
        self.edge_client.as_ref()
    }

    /// The client through which the instance calls others.
    pub fn center_client(&self) -> (r: Option<&C>)
        ensures
            match r {
                Some(c) => self.center() == Some(*c),
                None => self.center() is None,
            },
    {
        self.center_client.as_ref()
    }

    /// The configuration that the runtime was made from.
    pub fn config(&self) -> (r: &DinkConfig)
        ensures
            *r == self.settings(),
    {
        &self.config
    }

    /// Whether the connection is usable, given what the connection monitor
    /// of the edge client says. An instance that is not callable has no
    /// connection that could be lost.
    pub fn is_connected(&self, link_up: bool) -> (r: bool)
        ensures
            r == (self.edge() is None || link_up),
    {
        match &self.edge_client {
            Some(_) => link_up,
            None => true,
        }
    }

    /// The client on which a service is exposed.
    pub fn expose_service(&self) -> (r: Result<&E, RuntimeError>)
        ensures
            match r {
                Ok(e) => self.edge() == Some(*e),
                Err(err) => self.edge() is None && err == RuntimeError::NoEdgeClient,
            },
    {
        match &self.edge_client {
            Some(e) => Ok(e),
            None => Err(RuntimeError::NoEdgeClient),
        }
    }

    /// The client with which another instance is called.
    pub fn call_edge(&self) -> (r: Result<&C, RuntimeError>)
        ensures
            match r {
                Ok(c) => self.center() == Some(*c),
                Err(err) => self.center() is None && err == RuntimeError::NoCenterClient,
            },
    {
        match &self.center_client {
            Some(c) => Ok(c),
            None => Err(RuntimeError::NoCenterClient),
        }
    }
}

} // verus!
