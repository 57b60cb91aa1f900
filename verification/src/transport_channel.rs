//! How the client's channel is opened for an address: through the RPC
//! framework's own dialing for a network socket, through a connector of this
//! system for a hypervisor-local socket, and with the same settings for
//! both.

use crate::text::join2;
use crate::transport::{TransportConfig, TransportError};
use vstd::prelude::*;

verus! {

/// The settings of a channel, in milliseconds and bytes.
#[derive(Debug, Clone, Copy, PartialEq, Eq, Structural)]
pub struct ChannelTunables {
    pub tcp_keepalive_ms: u64,
    pub tcp_nodelay: bool,
    pub http2_keep_alive_interval_ms: u64,
    pub keep_alive_timeout_ms: u64,
    pub keep_alive_while_idle: bool,
    pub initial_stream_window_size: u32,
    pub initial_connection_window_size: u32,
    pub http2_adaptive_window: bool,
    pub timeout_ms: u64,
    pub connect_timeout_ms: u64,
}

impl ChannelTunables {
    /// The settings of every channel.
    pub open spec fn standard() -> ChannelTunables {
        ChannelTunables {
            tcp_keepalive_ms: 5_000,
            tcp_nodelay: true,
            http2_keep_alive_interval_ms: 5_000,
            keep_alive_timeout_ms: 3_000,
            keep_alive_while_idle: true,
            initial_stream_window_size: 33_554_432,
            initial_connection_window_size: 33_554_432,
            http2_adaptive_window: true,
            timeout_ms: 15_000,
            connect_timeout_ms: 5_000,
        }
    }
}

/// How a channel is opened.
#[derive(Debug)]
pub enum ChannelPlan {
    /// The RPC framework dials this URI itself.
    Native { uri: String },
    /// The RPC framework is given a connector that dials `target` through
    /// the transport layer and ignores the URI, which only stands in.
    Connector { placeholder_uri: String, target: TransportConfig },
}

/// The URI that stands in where the connector dials.
pub open spec fn placeholder_uri() -> Seq<char> {
    "http://[::]:50051"@
}

/// Whether `plan` opens a channel to `config` as it should: a network
/// socket by the URI of its address, a hypervisor-local socket by the
/// connector for that very address.
pub open spec fn plans_channel(plan: ChannelPlan, config: TransportConfig) -> bool {
    match config {
        TransportConfig::Tcp(addr) => plan matches ChannelPlan::Native { uri } && uri@
            == "http://"@ + addr.text(),
        TransportConfig::Vsock { .. } => plan matches ChannelPlan::Connector {
            placeholder_uri: uri,
            target,
        } && uri@ == placeholder_uri() && target == config,
    }
}

/// How the channel to `config` is opened.
pub fn channel_plan(config: &TransportConfig) -> (plan: ChannelPlan)
    ensures
        plans_channel(plan, *config),
{
    match config {
        TransportConfig::Tcp(addr) => {
            let text = addr.to_string();
            ChannelPlan::Native { uri: join2("http://", text.as_str()) }
        },
        TransportConfig::Vsock { .. } => ChannelPlan::Connector {
            placeholder_uri: String::from_str("http://[::]:50051"),
            target: *config,
        },
    }
}

/// The settings of the channel to `config`: the same for every address.
pub fn channel_tunables(config: &TransportConfig) -> (tunables: ChannelTunables)
    ensures
        tunables == ChannelTunables::standard(),
{
    ChannelTunables {
        tcp_keepalive_ms: 5_000,
        tcp_nodelay: true,
        http2_keep_alive_interval_ms: 5_000,
        keep_alive_timeout_ms: 3_000,
        keep_alive_while_idle: true,
        initial_stream_window_size: 33_554_432,
        initial_connection_window_size: 33_554_432,
        http2_adaptive_window: true,
        timeout_ms: 15_000,
        connect_timeout_ms: 5_000,
    }
}

/// The error of a channel that could not be opened: a failed connection
/// that names the transport and the cause.
pub fn channel_failed(config: &TransportConfig, cause: &str) -> (error: TransportError)
    ensures
        error matches TransportError::ConnectionFailed(detail) && detail@ == match *config {
            TransportConfig::Tcp(_) => "Failed to connect via TCP: "@ + cause@,
            TransportConfig::Vsock { .. } => "Failed to connect via VSOCK: "@ + cause@,
        },
{
    match config {
        TransportConfig::Tcp(_) => TransportError::ConnectionFailed(
            join2("Failed to connect via TCP: ", cause),
        ),
        TransportConfig::Vsock { .. } => TransportError::ConnectionFailed(
            join2("Failed to connect via VSOCK: ", cause),
        ),
    }
}

/// Whether the connector may hand the stream that it dialed to the RPC
/// framework: it was asked for a hypervisor-local address, and a connection
/// of that kind came back.
pub fn connector_accepts(target: &TransportConfig, dialed_vsock: bool) -> (accepted: Result<
    (),
    TransportError,
>)
    ensures
        (*target is Vsock && dialed_vsock) <==> accepted is Ok,
        accepted matches Err(e) ==> e matches TransportError::ConnectionFailed(detail) && detail@
            == "Expected VSOCK connection but got TCP"@,
{
    if target.is_vsock() && dialed_vsock {
        Ok(())
    } else {
        Err(
            TransportError::ConnectionFailed(
                String::from_str("Expected VSOCK connection but got TCP"),
            ),
        )
    }
}

} // verus!
