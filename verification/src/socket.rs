//! The socket factory as far as it is decisions: how an outbound connection
//! is to be made, and what is said to an upstream proxy.

use crate::addr::SocketAddress;
use crate::blockmarker::BlockMarker;
use crate::config::AuxConfig;
use crate::config::{RouterRuleScope, RouterRuleType};
use crate::router::{
    faithful, route_from, route_view, Route, RouteDecision, Router, RouterError,
};
use crate::socks::{connect_request_bytes, upstream_connect_request, upstream_greeting};
use crate::text::same_text;
use vstd::prelude::*;

verus! {

/// The socket factory.
pub struct SocketOps();

/// How the socket of a direct connection is set up before it connects.
#[derive(Debug, Clone, PartialEq)]
pub struct SocketSetup {
    /// Where to connect to.
    pub target: SocketAddress,
    /// The socket is of the IPv6 family.
    pub ipv6: bool,
    /// The interface to bind the socket to, where one is configured.
    pub bind_device: Option<String>,
    pub recv_buffer_size: u32,
    pub send_buffer_size: u32,
    pub nodelay: bool,
    pub keepalive: bool,
}

/// What is said to an upstream SOCKS5 proxy, in order; each message is
/// followed by a read whose answer is not looked at.
#[derive(Debug, Clone, PartialEq)]
pub struct ProxyHandshake {
    /// The `host:port` of the proxy.
    pub proxy: String,
    pub greeting: Vec<u8>,
    pub request: Vec<u8>,
}

/// How an outbound connection is to be made.
#[derive(Debug, Clone, PartialEq)]
pub enum ConnectPlan {
    /// Refuse: a rule blocks the destination.
    Refuse,
    /// Connect to the upstream proxy and shake hands for the destination.
    Chain(ProxyHandshake),
    /// Connect to the destination itself.
    Direct(SocketSetup),
}

/// The interface that sockets to `addr` are bound to: that of the family of
/// the address, unless it is `default`.
pub open spec fn device_for(config: AuxConfig, addr: SocketAddress) -> Option<Seq<char>> {
    let name = if addr.ip is V4 {
        config.bind_options.iface_ipv4@
    } else {
        config.bind_options.iface_ipv6@
    };
    if name == "default"@ {
        None
    } else {
        Some(name)
    }
}

/// The setup is the one that the configuration asks for, for a connection to
/// `addr`.
pub open spec fn is_setup_for(setup: SocketSetup, config: AuxConfig, addr: SocketAddress) -> bool {
    &&& setup.target == addr
    &&& setup.ipv6 == (addr.ip is V6)
    &&& match device_for(config, addr) {
        Some(name) => setup.bind_device is Some && setup.bind_device->0@ == name,
        None => setup.bind_device is None,
    }
    &&& setup.recv_buffer_size == config.socket_options.so_recv_size as u32
    &&& setup.send_buffer_size == config.socket_options.so_send_size as u32
    &&& setup.nodelay
    &&& setup.keepalive
}

/// The plan is the one that the route asks for.
pub open spec fn is_plan_for(
    plan: ConnectPlan,
    route: Route,
    config: AuxConfig,
    addr: SocketAddress,
) -> bool {
    match route {
        Route::Block => plan == ConnectPlan::Refuse,
        Route::Socks5(proxy) => match plan {
            ConnectPlan::Chain(handshake) => handshake.proxy@ == proxy && handshake.greeting@
                == seq![0x05u8, 0x01u8, 0x00u8] && handshake.request@ == connect_request_bytes(
                addr,
            ),
            _ => false,
        },
        Route::Direct => match plan {
            ConnectPlan::Direct(setup) => is_setup_for(setup, config, addr),
            _ => false,
        },
    }
}

impl SocketOps {
    /// What is said to the upstream proxy at `proxy0` to be connected to
    /// `addr`: the greeting without authentication, and the CONNECT request.
    pub fn new_proxied(addr: SocketAddress, proxy0: String) -> (handshake: ProxyHandshake)
        ensures
            handshake.proxy@ == proxy0@,
            handshake.greeting@ == seq![0x05u8, 0x01u8, 0x00u8],
            handshake.request@ == connect_request_bytes(addr),
    {
        ProxyHandshake {
            proxy: proxy0,
            greeting: upstream_greeting(),
            request: upstream_connect_request(&addr),
        }
    }

    /// How the socket of a direct connection to `addr` is set up.
    pub fn direct_setup(config: &AuxConfig, addr: SocketAddress) -> (setup: SocketSetup)
        ensures
            is_setup_for(setup, *config, addr),
    {
        let name = if addr.ip.is_ipv4() {
            &config.bind_options.iface_ipv4
        } else {
            &config.bind_options.iface_ipv6
        };
        let bind_device = if same_text(name.as_str(), "default") {
            None
        } else {
            Some(name.clone())
        };
        SocketSetup {
            target: addr,
            ipv6: !addr.ip.is_ipv4(),
            bind_device,
            recv_buffer_size: #[verifier::truncate]
            (config.socket_options.so_recv_size as u32),
            send_buffer_size: #[verifier::truncate]
            (config.socket_options.so_send_size as u32),
            nodelay: true,
            keepalive: true,
        }
    }

    /// How the outbound connection to `addr` is made for a route.
    pub fn plan_for(route: RouteDecision, config: &AuxConfig, addr: SocketAddress) -> (plan:
        ConnectPlan)
        ensures
            is_plan_for(plan, route@, *config, addr),
    {
        match route {
            RouteDecision::Block => ConnectPlan::Refuse,
            RouteDecision::Socks5(proxy) => ConnectPlan::Chain(Self::new_proxied(addr, proxy)),
            RouteDecision::Direct => ConnectPlan::Direct(Self::direct_setup(config, addr)),
        }
    }

    /// Decides how the outbound connection to `addr` is made for a client that
    /// asked for the server name `sni`: as the first IP rule that applies asks,
    /// through an upstream proxy or not at all, and directly where no rule
    /// applies, for what matching the globs of the IP rules against
    /// `addr_text`, the address of `addr` as text, comes to.
    pub fn connect_socket(
        config: &AuxConfig,
        marker: &BlockMarker,
        sni: &str,
        addr: SocketAddress,
        addr_text: &str,
    ) -> (r: Result<ConnectPlan, RouterError>)
        ensures
            exists|outcomes: Seq<Option<bool>>|
                #[trigger] faithful(
                    config.router_options.rules@,
                    RouterRuleType::Forward,
                    RouterRuleScope::IP,
                    addr_text@,
                    outcomes,
                ) && is_connect_for(
                    r,
                    route_from(
                        config.router_options.rules@,
                        0,
                        marker@.contains(addr),
                        addr.ip,
                        sni@,
                        outcomes,
                    ),
                    *config,
                    addr,
                ),
    {
        let decided = Router::decide_for_tcp_connect(config, marker, &addr, addr_text, sni);
        let ghost outcomes = choose|outcomes: Seq<Option<bool>>|
            #[trigger] faithful(
                config.router_options.rules@,
                RouterRuleType::Forward,
                RouterRuleScope::IP,
                addr_text@,
                outcomes,
            ) && route_view(decided) == route_from(
                config.router_options.rules@,
                0,
                marker@.contains(addr),
                addr.ip,
                sni@,
                outcomes,
            );
        let r = match decided {
            Err(e) => Err(e),
            Ok(route) => Ok(Self::plan_for(route, config, addr)),
        };
        assert(is_connect_for(
            r,
            route_from(
                config.router_options.rules@,
                0,
                marker@.contains(addr),
                addr.ip,
                sni@,
                outcomes,
            ),
            *config,
            addr,
        ));
        r
    }
}

/// The plan is the one that the route asks for, and the error the one that
/// the search for the route ended with.
pub open spec fn is_connect_for(
    r: Result<ConnectPlan, RouterError>,
    route: Result<Route, RouterError>,
    config: AuxConfig,
    addr: SocketAddress,
) -> bool {
    match route {
        Ok(route) => r is Ok && is_plan_for(r->Ok_0, route, config, addr),
        Err(e) => r == Err::<ConnectPlan, RouterError>(e),
    }
}

} // verus!
