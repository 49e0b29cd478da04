//! The SOCKS5 router: its options, the address it listens on, and the
//! decisions of its accept loop.

use crate::address::{host_port, join_host_port};
use crate::proxy::{BuilderError, Proxy, ProxyView};
use crate::router::handler::{ConnectionHandler, ConnectionHandlerView, HandlerState};
use crate::url_parts::opt_string_view;
use vstd::prelude::*;

verus! {

/// The connect timeout of a router whose options set none: ten seconds.
pub const DEFAULT_TIMEOUT_MS: u64 = 10_000;

/// The host of a router whose options set none: the loopback address.
pub open spec fn default_listen_host() -> Seq<char> {
    "127.0.0.1"@
}

/// What a router is started with. Never changed afterwards; every
/// connection gets its own copy of the upstream proxy and the timeout.
#[derive(Debug, PartialEq, Eq)]
pub struct RouterOptions {
    proxy: Proxy,
    listen_port: u16,
    listen_host: Option<String>,
    timeout_ms: u64,
}

/// [`RouterOptions`] as plain values.
pub struct RouterOptionsView {
    pub proxy: ProxyView,
    pub listen_port: u16,
    pub listen_host: Option<Seq<char>>,
    pub timeout_ms: u64,
}

impl View for RouterOptions {
    type V = RouterOptionsView;

    closed spec fn view(&self) -> RouterOptionsView {
        RouterOptionsView {
            proxy: self.proxy@,
            listen_port: self.listen_port,
            listen_host: opt_string_view(self.listen_host),
            timeout_ms: self.timeout_ms,
        }
    }
}

impl Clone for RouterOptions {
    fn clone(&self) -> (r: RouterOptions)
        ensures
            r == *self,
    {
        RouterOptions {
            proxy: self.proxy.clone(),
            listen_port: self.listen_port,
            listen_host: self.listen_host.clone(),
            timeout_ms: self.timeout_ms,
        }
    }
}

impl Default for RouterOptions {
    /// Options with nothing chosen: the default proxy, port 0 on the
    /// default host, and the default connect timeout.
    fn default() -> (r: RouterOptions)
        ensures
            r@ == (RouterOptionsView {
                proxy: Proxy::default_view(),
                listen_port: 0,
                listen_host: None,
                timeout_ms: DEFAULT_TIMEOUT_MS,
            }),
    {
        RouterOptions {
            proxy: Proxy::default(),
            listen_port: 0,
            listen_host: None,
            timeout_ms: DEFAULT_TIMEOUT_MS,
        }
    }
}

/// The address that a router with these options binds.
pub open spec fn listen_addr_of(options: RouterOptionsView) -> Seq<char> {
    host_port(
        match options.listen_host {
            Some(host) => host,
            None => default_listen_host(),
        },
        options.listen_port,
    )
}

impl RouterOptions {
    pub fn builder() -> (r: RouterOptionsBuilder)
        ensures
            r@ == empty_options_builder(),
    {
        RouterOptionsBuilder::default()
    }

    /// The text of the address to bind: the host, or loopback where none
    /// is set, then `:` and the port.
    pub fn listen_addr(&self) -> (r: String)
        ensures
            r@ == listen_addr_of(self@),
    {
        match &self.listen_host {
            Some(host) => join_host_port(host.as_str(), self.listen_port),
            None => join_host_port("127.0.0.1", self.listen_port),
        }
    }

    pub fn proxy(&self) -> (r: &Proxy)
        ensures
            r@ == self@.proxy,
    {
        &self.proxy
    }

    pub fn timeout_ms(&self) -> (r: u64)
        ensures
            r == self@.timeout_ms,
    {
        self.timeout_ms
    }
}

/// Collects the fields of [`RouterOptions`]. The proxy and the port must
/// be set; the host defaults to loopback, the timeout to ten seconds.
#[derive(Debug, PartialEq, Eq)]
pub struct RouterOptionsBuilder {
    proxy: Option<Proxy>,
    listen_port: Option<u16>,
    listen_host: Option<Option<String>>,
    timeout_ms: Option<u64>,
}

/// What has been set on a [`RouterOptionsBuilder`] so far.
pub struct RouterOptionsBuilderView {
    pub proxy: Option<ProxyView>,
    pub listen_port: Option<u16>,
    pub listen_host: Option<Option<Seq<char>>>,
    pub timeout_ms: Option<u64>,
}

impl View for RouterOptionsBuilder {
    type V = RouterOptionsBuilderView;

    closed spec fn view(&self) -> RouterOptionsBuilderView {
        RouterOptionsBuilderView {
            proxy: match self.proxy {
                Some(proxy) => Some(proxy@),
                None => None,
            },
            listen_port: self.listen_port,
            listen_host: match self.listen_host {
                Some(host) => Some(opt_string_view(host)),
                None => None,
            },
            timeout_ms: self.timeout_ms,
        }
    }
}

/// A builder on which nothing has been set.
pub open spec fn empty_options_builder() -> RouterOptionsBuilderView {
    RouterOptionsBuilderView { proxy: None, listen_port: None, listen_host: None, timeout_ms: None }
}

/// What `build` gives: the options, or the name of the first field, in
/// declaration order, that has no default and was never set.
pub open spec fn options_of_builder(b: RouterOptionsBuilderView) -> Result<
    RouterOptionsView,
    Seq<char>,
> {
    match (b.proxy, b.listen_port) {
        (None, _) => Err("proxy"@),
        (Some(_), None) => Err("listen_port"@),
        (Some(proxy), Some(listen_port)) => Ok(
            RouterOptionsView {
                proxy,
                listen_port,
                listen_host: match b.listen_host {
                    Some(host) => host,
                    None => None,
                },
                timeout_ms: match b.timeout_ms {
                    Some(timeout_ms) => timeout_ms,
                    None => DEFAULT_TIMEOUT_MS,
                },
            },
        ),
    }
}

impl Default for RouterOptionsBuilder {
    fn default() -> (r: RouterOptionsBuilder)
        ensures
            r@ == empty_options_builder(),
    {
        RouterOptionsBuilder { proxy: None, listen_port: None, listen_host: None, timeout_ms: None }
    }
}

impl Clone for RouterOptionsBuilder {
    fn clone(&self) -> (r: RouterOptionsBuilder)
        ensures
            r == *self,
    {
        RouterOptionsBuilder {
            proxy: self.proxy.clone(),
            listen_port: self.listen_port,
            listen_host: self.listen_host.clone(),
            timeout_ms: self.timeout_ms,
        }
    }
}

impl RouterOptionsBuilder {
    pub fn proxy(&mut self, value: Proxy) -> (r: &mut RouterOptionsBuilder)
        ensures
            r@ == (RouterOptionsBuilderView { proxy: Some(value@), ..old(self)@ }),
            *final(self) == *final(r),
    {
        self.proxy = Some(value);
        self
    }

    pub fn listen_port(&mut self, value: u16) -> (r: &mut RouterOptionsBuilder)
        ensures
            r@ == (RouterOptionsBuilderView { listen_port: Some(value), ..old(self)@ }),
            *final(self) == *final(r),
    {
        self.listen_port = Some(value);
        self
    }

    pub fn listen_host(&mut self, value: &str) -> (r: &mut RouterOptionsBuilder)
        ensures
            r@ == (RouterOptionsBuilderView { listen_host: Some(Some(value@)), ..old(self)@ }),
            *final(self) == *final(r),
    {
        self.listen_host = Some(Some(value.to_owned()));
        self
    }

    /// Sets the connect timeout, in milliseconds.
    pub fn timeout_ms(&mut self, value: u64) -> (r: &mut RouterOptionsBuilder)
        ensures
            r@ == (RouterOptionsBuilderView { timeout_ms: Some(value), ..old(self)@ }),
            *final(self) == *final(r),
    {
        self.timeout_ms = Some(value);
        self
    }

    pub fn build(&self) -> (r: Result<RouterOptions, BuilderError>)
        ensures
            match r {
                Ok(options) => options_of_builder(self@) == Ok::<RouterOptionsView, Seq<char>>(
                    options@,
                ),
                Err(e) => options_of_builder(self@) == Err::<RouterOptionsView, Seq<char>>(e@),
            },
    {
        let proxy = match &self.proxy {
            Some(proxy) => proxy.clone(),
            None => {
                return Err(BuilderError::UninitializedField("proxy"));
            },
        };
        let listen_port: u16 = match self.listen_port {
            Some(listen_port) => listen_port,
            None => {
                return Err(BuilderError::UninitializedField("listen_port"));
            },
        };
        let listen_host = match &self.listen_host {
            Some(host) => host.clone(),
            None => None,
        };
        let timeout_ms: u64 = match self.timeout_ms {
            Some(timeout_ms) => timeout_ms,
            None => DEFAULT_TIMEOUT_MS,
        };
        Ok(RouterOptions { proxy, listen_port, listen_host, timeout_ms })
    }
}

/// Where the router is in its life.
#[derive(Debug, Clone, Copy, PartialEq, Eq, Structural)]
pub enum RouterState {
    /// The listening socket is being bound.
    Binding,
    /// Bound; connections are accepted as they come.
    Accepting,
    /// The socket could not be bound. The router never started.
    Failed,
}

/// What the caller reports to the router.
#[derive(Debug, Clone, Copy, PartialEq, Eq, Structural)]
pub enum RouterEvent {
    Bound,
    BindFailed,
    /// A connection was accepted.
    Accepted,
    /// An accept failed.
    AcceptFailed,
}

/// What the caller has to do next.
#[derive(Debug, PartialEq, Eq)]
pub enum RouterAction {
    /// Accept the next connection.
    Accept,
    /// Run this handler on the accepted connection as a task of its own,
    /// and accept the next connection without waiting for it.
    Spawn(ConnectionHandler),
    /// Report the failed accept, and accept the next connection.
    Report,
    /// Give the bind error to whoever started the router, and stop.
    Abort,
}

/// A [`RouterAction`] with the view of its handler.
pub enum RouterActionView {
    Accept,
    Spawn(ConnectionHandlerView),
    Report,
    Abort,
}

impl View for RouterAction {
    type V = RouterActionView;

    open spec fn view(&self) -> RouterActionView {
        match self {
            RouterAction::Accept => RouterActionView::Accept,
            RouterAction::Spawn(handler) => RouterActionView::Spawn(handler@),
            RouterAction::Report => RouterActionView::Report,
            RouterAction::Abort => RouterActionView::Abort,
        }
    }
}

/// The state of the router once `event` is reported. Binding ends one way
/// or the other; after that nothing ends the accept loop.
pub open spec fn next_router_state(state: RouterState, event: RouterEvent) -> RouterState {
    match (state, event) {
        (RouterState::Binding, RouterEvent::Bound) => RouterState::Accepting,
        (RouterState::Binding, _) => RouterState::Failed,
        (RouterState::Accepting, _) => RouterState::Accepting,
        (RouterState::Failed, _) => RouterState::Failed,
    }
}

/// The handler that a router with these options gives a new connection.
pub open spec fn handler_for(options: RouterOptionsView) -> ConnectionHandlerView {
    ConnectionHandlerView {
        proxy: options.proxy,
        timeout_ms: options.timeout_ms,
        state: HandlerState::Handshake,
    }
}

/// What the router asks for in answer to `event`.
pub open spec fn router_action(options: RouterOptionsView, state: RouterState, event: RouterEvent)
    -> RouterActionView {
    match (state, event) {
        (RouterState::Binding, RouterEvent::Bound) => RouterActionView::Accept,
        (RouterState::Accepting, RouterEvent::Accepted) => RouterActionView::Spawn(
            handler_for(options),
        ),
        (RouterState::Accepting, RouterEvent::AcceptFailed) => RouterActionView::Report,
        (RouterState::Accepting, _) => RouterActionView::Accept,
        _ => RouterActionView::Abort,
    }
}

/// The accept loop of one listening socket, without the socket.
#[derive(Debug, PartialEq, Eq)]
pub struct Router {
    options: RouterOptions,
    state: RouterState,
}

/// A [`Router`] as its options and its state.
pub struct RouterView {
    pub options: RouterOptionsView,
    pub state: RouterState,
}

impl View for Router {
    type V = RouterView;

    closed spec fn view(&self) -> RouterView {
        RouterView { options: self.options@, state: self.state }
    }
}

impl Router {
    /// A router that is about to bind `options.listen_addr()`.
    pub fn new(options: RouterOptions) -> (r: Router)
        ensures
            r@ == (RouterView { options: options@, state: RouterState::Binding }),
    {
        Router { options, state: RouterState::Binding }
    }

    pub fn state(&self) -> (r: RouterState)
        ensures
            r == self@.state,
    {
        self.state
    }

    pub fn options(&self) -> (r: &RouterOptions)
        ensures
            r@ == self@.options,
    {
        &self.options
    }

    /// Takes what happened to the socket and says what to do next. The
    /// options are never touched.
    pub fn on_event(&mut self, event: RouterEvent) -> (action: RouterAction)
        ensures
            final(self)@ == (RouterView {
                state: next_router_state(old(self)@.state, event),
                ..old(self)@
            }),
            action@ == router_action(old(self)@.options, old(self)@.state, event),
    {
        match (self.state, event) {
            (RouterState::Binding, RouterEvent::Bound) => {
                self.state = RouterState::Accepting;
                RouterAction::Accept
            },
            (RouterState::Binding, _) => {
                self.state = RouterState::Failed;
                RouterAction::Abort
            },
            (RouterState::Accepting, RouterEvent::Accepted) => {
                let proxy = self.options.proxy.clone();
                RouterAction::Spawn(ConnectionHandler::new(proxy, self.options.timeout_ms))
            },
            (RouterState::Accepting, RouterEvent::AcceptFailed) => RouterAction::Report,
            (RouterState::Accepting, _) => RouterAction::Accept,
            (RouterState::Failed, _) => RouterAction::Abort,
        }
    }
}

/// The state of the router once all of `events` have been reported.
pub open spec fn router_state_after(state: RouterState, events: Seq<RouterEvent>) -> RouterState
    decreases events.len(),
{
    if events.len() == 0 {
        state
    } else {
        next_router_state(router_state_after(state, events.drop_last()), events.last())
    }
}

/// No accept failure is fatal: once the router accepts, it accepts for
/// good, whatever is reported to it.
pub proof fn lemma_accepting_never_ends(events: Seq<RouterEvent>)
    ensures
        router_state_after(RouterState::Accepting, events) == RouterState::Accepting,
    decreases events.len(),
{
    if events.len() > 0 {
        lemma_accepting_never_ends(events.drop_last());
    }
}

/// A router whose bind failed never starts: it accepts nothing and hands
/// out no handler, whatever is reported to it later.
pub proof fn lemma_bind_failure_is_final(
    options: RouterOptionsView,
    later: Seq<RouterEvent>,
    event: RouterEvent,
)
    ensures
        next_router_state(RouterState::Binding, RouterEvent::BindFailed) == RouterState::Failed,
        router_action(options, RouterState::Binding, RouterEvent::BindFailed)
            == RouterActionView::Abort,
        router_state_after(RouterState::Failed, later) == RouterState::Failed,
        router_action(options, router_state_after(RouterState::Failed, later), event)
            == RouterActionView::Abort,
    decreases later.len(),
{
    if later.len() > 0 {
        lemma_bind_failure_is_final(options, later.drop_last(), event);
    }
}

/// A handler is handed out for an accepted connection of a bound router,
/// and for nothing else. It starts at the handshake and carries the
/// router's own upstream proxy and timeout.
pub proof fn lemma_one_handler_per_accept(
    options: RouterOptionsView,
    state: RouterState,
    event: RouterEvent,
)
    ensures
        router_action(options, state, event) is Spawn <==> state == RouterState::Accepting
            && event == RouterEvent::Accepted,
        router_action(options, state, event) is Spawn ==> router_action(options, state, event)
            == RouterActionView::Spawn(handler_for(options)),
{
}

} // verus!
