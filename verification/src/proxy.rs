//! The upstream proxy: what it is, how it is described by a URL, and what
//! has to be done to reach a target through it.

use crate::address::{host_port, join_host_port};
use crate::url_parts::{opt_string_view, parse_url, url_parts, UrlParts, UrlPartsView};
use crate::written_port::{
    authority_end, colon, free_of, lemma_written_port_is_read, restore_port, url_with_port,
    written_port,
};
use vstd::prelude::*;

verus! {

/// The wire protocol spoken with the upstream proxy.
#[derive(Debug, Clone, Copy, PartialEq, Eq, Structural)]
pub enum ProxyProtocol {
    Http,
    Socks5,
}

impl Default for ProxyProtocol {
    fn default() -> (r: ProxyProtocol)
        ensures
            r == ProxyProtocol::Http,
    {
        ProxyProtocol::Http
    }
}

/// A user name and a password, carried as given.
#[derive(Debug, PartialEq, Eq)]
pub struct BasicAuth {
    username: String,
    password: String,
}

/// A [`BasicAuth`] as two texts.
pub struct BasicAuthView {
    pub username: Seq<char>,
    pub password: Seq<char>,
}

impl View for BasicAuth {
    type V = BasicAuthView;

    closed spec fn view(&self) -> BasicAuthView {
        BasicAuthView { username: self.username@, password: self.password@ }
    }
}

impl BasicAuth {
    pub fn new(username: &str, password: &str) -> (r: BasicAuth)
        ensures
            r@.username == username@,
            r@.password == password@,
    {
        BasicAuth { username: username.to_owned(), password: password.to_owned() }
    }

    pub fn username(&self) -> (r: &str)
        ensures
            r@ == self@.username,
    {
        self.username.as_str()
    }

    pub fn password(&self) -> (r: &str)
        ensures
            r@ == self@.password,
    {
        self.password.as_str()
    }
}

impl Clone for BasicAuth {
    fn clone(&self) -> (r: BasicAuth)
        ensures
            r == *self,
    {
        BasicAuth { username: self.username.clone(), password: self.password.clone() }
    }
}

impl Default for BasicAuth {
    fn default() -> (r: BasicAuth)
        ensures
            r@.username == Seq::<char>::empty(),
            r@.password == Seq::<char>::empty(),
    {
        BasicAuth { username: String::new(), password: String::new() }
    }
}

/// How to authenticate with the upstream proxy.
#[derive(Debug, PartialEq, Eq)]
pub enum ProxyAuth {
    NoAuth,
    Basic(BasicAuth),
}

impl View for ProxyAuth {
    type V = Option<BasicAuthView>;

    open spec fn view(&self) -> Option<BasicAuthView> {
        match self {
            ProxyAuth::NoAuth => None,
            ProxyAuth::Basic(basic) => Some(basic@),
        }
    }
}

impl Clone for ProxyAuth {
    fn clone(&self) -> (r: ProxyAuth)
        ensures
            r == *self,
    {
        match self {
            ProxyAuth::NoAuth => ProxyAuth::NoAuth,
            ProxyAuth::Basic(basic) => ProxyAuth::Basic(basic.clone()),
        }
    }
}

impl Default for ProxyAuth {
    fn default() -> (r: ProxyAuth)
        ensures
            r@ is None,
    {
        ProxyAuth::NoAuth
    }
}

/// One upstream proxy: where it listens, what it speaks, who we are to it.
#[derive(Debug, PartialEq, Eq)]
pub struct Proxy {
    protocol: ProxyProtocol,
    host: String,
    port: u16,
    auth: ProxyAuth,
}

/// A [`Proxy`] as plain values; its credentials are `None` where it has none.
pub struct ProxyView {
    pub protocol: ProxyProtocol,
    pub host: Seq<char>,
    pub port: u16,
    pub auth: Option<BasicAuthView>,
}

impl View for Proxy {
    type V = ProxyView;

    closed spec fn view(&self) -> ProxyView {
        ProxyView { protocol: self.protocol, host: self.host@, port: self.port, auth: self.auth@ }
    }
}

impl Proxy {
    /// The proxy that `Default` gives: HTTP, no host, port 0, no credentials.
    pub open spec fn default_view() -> ProxyView {
        ProxyView { protocol: ProxyProtocol::Http, host: Seq::empty(), port: 0, auth: None }
    }
}

impl Clone for Proxy {
    fn clone(&self) -> (r: Proxy)
        ensures
            r == *self,
    {
        Proxy {
            protocol: self.protocol,
            host: self.host.clone(),
            port: self.port,
            auth: self.auth.clone(),
        }
    }
}

impl Default for Proxy {
    fn default() -> (r: Proxy)
        ensures
            r@ == Proxy::default_view(),
    {
        Proxy {
            protocol: ProxyProtocol::Http,
            host: String::new(),
            port: 0,
            auth: ProxyAuth::NoAuth,
        }
    }
}

/// A failure of the connection itself, by the kinds that replies tell apart.
#[derive(Debug, Clone, Copy, PartialEq, Eq, Structural)]
pub enum TransportFailure {
    ConnectionRefused,
    ConnectionAborted,
    ConnectionReset,
    NotConnected,
    Other,
}

/// What went wrong while connecting through the upstream proxy.
#[derive(Debug, Clone, Copy, PartialEq, Eq, Structural)]
pub enum UpstreamFailure {
    /// The connection failed below the proxy protocol.
    Transport(TransportFailure),
    /// The proxy answered, and the handshake did not succeed.
    Protocol,
}

/// Why a proxy could not be built from a URL, or a target not be reached
/// through it.
#[derive(Debug, PartialEq, Eq)]
pub enum ProxyError {
    /// The text is not an absolute URL.
    UrlParseError(url::ParseError),
    /// The URL's scheme, which names no protocol that is spoken here.
    InvalidProtocol(String),
    /// The URL has no host.
    InvalidHost,
    /// The timer fired before the connect attempt had finished.
    ConnectionTimeout,
    /// The attempt through an HTTP proxy failed.
    HttpError(UpstreamFailure),
    /// The attempt through a SOCKS5 proxy failed.
    SocksError(UpstreamFailure),
}

/// A [`ProxyError`] with its text as a sequence.
pub enum ProxyErrorView {
    UrlParseError(url::ParseError),
    InvalidProtocol(Seq<char>),
    InvalidHost,
    ConnectionTimeout,
    HttpError(UpstreamFailure),
    SocksError(UpstreamFailure),
}

impl View for ProxyError {
    type V = ProxyErrorView;

    open spec fn view(&self) -> ProxyErrorView {
        match self {
            ProxyError::UrlParseError(e) => ProxyErrorView::UrlParseError(*e),
            ProxyError::InvalidProtocol(scheme) => ProxyErrorView::InvalidProtocol(scheme@),
            ProxyError::InvalidHost => ProxyErrorView::InvalidHost,
            ProxyError::ConnectionTimeout => ProxyErrorView::ConnectionTimeout,
            ProxyError::HttpError(failure) => ProxyErrorView::HttpError(*failure),
            ProxyError::SocksError(failure) => ProxyErrorView::SocksError(*failure),
        }
    }
}

/// The view of a fallible construction.
pub open spec fn proxy_result_view(r: Result<Proxy, ProxyError>) -> Result<
    ProxyView,
    ProxyErrorView,
> {
    match r {
        Ok(proxy) => Ok(proxy@),
        Err(e) => Err(e@),
    }
}

/// The protocol that a URL scheme selects, if it selects one.
pub open spec fn protocol_of_scheme(scheme: Seq<char>) -> Option<ProxyProtocol> {
    if scheme == "http"@ || scheme == "https"@ {
        Some(ProxyProtocol::Http)
    } else if scheme == "socks5"@ {
        Some(ProxyProtocol::Socks5)
    } else {
        None
    }
}

/// The port of a proxy whose URL writes none, whatever its scheme.
pub const FALLBACK_PORT: u16 = 80;

/// Credentials are taken from the URL only if it has a password and a
/// user name that is not empty.
pub open spec fn auth_of_userinfo(username: Seq<char>, password: Option<Seq<char>>) -> Option<
    BasicAuthView,
> {
    match password {
        Some(password) if username.len() > 0 => Some(BasicAuthView { username, password }),
        _ => None,
    }
}

/// The proxy that the parts of a URL describe. The scheme is judged first,
/// then the host.
pub open spec fn proxy_of_parts(parts: UrlPartsView) -> Result<ProxyView, ProxyErrorView> {
    match protocol_of_scheme(parts.scheme) {
        None => Err(ProxyErrorView::InvalidProtocol(parts.scheme)),
        Some(protocol) => match parts.host {
            None => Err(ProxyErrorView::InvalidHost),
            Some(host) => Ok(
                ProxyView {
                    protocol,
                    host,
                    port: match parts.port {
                        Some(port) => port,
                        None => FALLBACK_PORT,
                    },
                    auth: auth_of_userinfo(parts.username, parts.password),
                },
            ),
        },
    }
}

fn scheme_protocol(scheme: &String) -> (r: Option<ProxyProtocol>)
    ensures
        r == protocol_of_scheme(scheme@),
{
    let http = String::from_str("http");
    let https = String::from_str("https");
    let socks5 = String::from_str("socks5");
    if *scheme == http || *scheme == https {
        Some(ProxyProtocol::Http)
    } else if *scheme == socks5 {
        Some(ProxyProtocol::Socks5)
    } else {
        None
    }
}

impl Proxy {
    pub fn new(protocol: ProxyProtocol, host: &str, port: u16, auth: ProxyAuth) -> (r: Proxy)
        ensures
            r@ == (ProxyView { protocol, host: host@, port, auth: auth@ }),
    {
        Proxy { protocol, host: host.to_owned(), port, auth }
    }

    /// Builds the proxy that the parts of a URL describe.
    pub fn from_parts(parts: UrlParts) -> (r: Result<Proxy, ProxyError>)
        ensures
            proxy_result_view(r) == proxy_of_parts(parts@),
    {
        let protocol = match scheme_protocol(&parts.scheme) {
            Some(protocol) => protocol,
            None => {
                return Err(ProxyError::InvalidProtocol(parts.scheme));
            },
        };
        let host = match parts.host {
            Some(host) => host,
            None => {
                return Err(ProxyError::InvalidHost);
            },
        };
        let port: u16 = match parts.port {
            Some(port) => port,
            None => FALLBACK_PORT,
        };
        let auth = match parts.password {
            Some(password) => {
                if parts.username.as_str().is_empty() {
                    ProxyAuth::NoAuth
                } else {
                    ProxyAuth::Basic(BasicAuth { username: parts.username, password })
                }
            },
            None => ProxyAuth::NoAuth,
        };
        Ok(Proxy { protocol, host, port, auth })
    }

    /// Builds the proxy that a URL describes: `http` and `https` select the
    /// HTTP protocol, `socks5` selects SOCKS5. The port is the one that the
    /// URL writes, also where parsing drops it as the well-known port of
    /// the scheme (`https://host:443`); a URL that writes none gives 80.
    pub fn from_url(url: &str) -> (r: Result<Proxy, ProxyError>)
        ensures
            match url_parts(url@) {
                Some(parts) => proxy_result_view(r) == proxy_of_parts(restore_port(parts, url@)),
                None => r matches Err(ProxyError::UrlParseError(_)),
            },
    {
        match parse_url(url) {
            Ok(parts) => Proxy::from_parts(parts.with_written_port(url)),
            Err(e) => Err(ProxyError::UrlParseError(e)),
        }
    }
}

/// The scheme of a URL decides the protocol: `http` and `https` give HTTP,
/// `socks5` gives SOCKS5, and with a host the proxy is built. Any other
/// scheme is refused as `InvalidProtocol`, whatever else the URL holds.
pub proof fn lemma_protocol_matches_scheme(parts: UrlPartsView)
    ensures
        (parts.scheme == "http"@ || parts.scheme == "https"@) && parts.host is Some
            ==> proxy_of_parts(parts) is Ok && proxy_of_parts(parts)->Ok_0.protocol
            == ProxyProtocol::Http,
        parts.scheme == "socks5"@ && parts.host is Some ==> proxy_of_parts(parts) is Ok
            && proxy_of_parts(parts)->Ok_0.protocol == ProxyProtocol::Socks5,
        parts.scheme != "http"@ && parts.scheme != "https"@ && parts.scheme != "socks5"@
            ==> proxy_of_parts(parts) == Err::<ProxyView, ProxyErrorView>(
            ProxyErrorView::InvalidProtocol(parts.scheme),
        ),
        proxy_of_parts(parts) is Err ==> proxy_of_parts(parts)->Err_0 is InvalidProtocol
            || proxy_of_parts(parts)->Err_0 is InvalidHost,
        proxy_of_parts(parts) matches Err(ProxyErrorView::InvalidHost) ==> parts.host is None,
{
    reveal_strlit("http");
    reveal_strlit("https");
    reveal_strlit("socks5");
    assert("http"@.len() == 4 && "https"@.len() == 5 && "socks5"@.len() == 6);
}

/// A proxy built from parts keeps their host and port as they are. Where
/// the parts hold no port the proxy's port is 80, be the scheme `http`,
/// `https` or `socks5`.
pub proof fn lemma_address_of_parts(parts: UrlPartsView)
    requires
        proxy_of_parts(parts) is Ok,
    ensures
        parts.host == Some(proxy_of_parts(parts)->Ok_0.host),
        parts.port is Some ==> parts.port == Some(proxy_of_parts(parts)->Ok_0.port),
        parts.port is None ==> proxy_of_parts(parts)->Ok_0.port == FALLBACK_PORT,
{
}

/// The port of a proxy built from a URL. It is the port that the parsed
/// URL holds; where that holds none, the port that the text writes; and
/// only where the text writes none either, 80.
pub proof fn lemma_port_of_url(parts: UrlPartsView, text: Seq<char>)
    requires
        proxy_of_parts(restore_port(parts, text)) is Ok,
    ensures
        proxy_of_parts(restore_port(parts, text))->Ok_0.port == match (
            parts.port,
            written_port(text),
        ) {
            (Some(port), _) => port,
            (None, Some(port)) => port,
            (None, None) => 80u16,
        },
        proxy_of_parts(restore_port(parts, text))->Ok_0.host == proxy_of_parts(parts)->Ok_0.host,
        proxy_of_parts(restore_port(parts, text))->Ok_0.protocol == proxy_of_parts(
            parts,
        )->Ok_0.protocol,
        proxy_of_parts(restore_port(parts, text))->Ok_0.auth == proxy_of_parts(parts)->Ok_0.auth,
{
}

/// A proxy built from a URL has credentials exactly if the URL has a
/// password and a user name that is not empty, and then they are those.
pub proof fn lemma_credentials_need_both(parts: UrlPartsView)
    requires
        proxy_of_parts(parts) is Ok,
    ensures
        proxy_of_parts(parts)->Ok_0.auth is Some <==> parts.username.len() > 0
            && parts.password is Some,
        proxy_of_parts(parts)->Ok_0.auth matches Some(basic) ==> basic.username == parts.username
            && parts.password == Some(basic.password),
{
}

/// A port that the URL writes is the proxy's port. Parsing keeps a
/// written port or drops it; either way the proxy gets the port that
/// stands in the text after the host.
pub proof fn lemma_written_port_is_kept(
    parts: UrlPartsView,
    scheme: Seq<char>,
    front: Seq<char>,
    port: u16,
    rest: Seq<char>,
)
    requires
        free_of(scheme, colon()),
        free_of(front, authority_end()),
        rest.len() > 0 ==> authority_end()(rest[0]),
        parts.port is None || parts.port == Some(port),
        proxy_of_parts(restore_port(parts, url_with_port(scheme, front, port, rest))) is Ok,
    ensures
        proxy_of_parts(restore_port(parts, url_with_port(scheme, front, port, rest)))->Ok_0.port
            == port,
{
    lemma_written_port_is_read(scheme, front, port, rest);
}

/// Everything needed to open one connection to a target through a proxy:
/// the address to dial, the handshake to perform there, and for whom.
#[derive(Debug, PartialEq, Eq)]
pub struct ConnectPlan {
    pub protocol: ProxyProtocol,
    pub proxy_addr: String,
    pub target_host: String,
    pub target_port: u16,
    pub auth: ProxyAuth,
}

/// A [`ConnectPlan`] as plain values.
pub struct ConnectPlanView {
    pub protocol: ProxyProtocol,
    pub proxy_addr: Seq<char>,
    pub target_host: Seq<char>,
    pub target_port: u16,
    pub auth: Option<BasicAuthView>,
}

impl View for ConnectPlan {
    type V = ConnectPlanView;

    open spec fn view(&self) -> ConnectPlanView {
        ConnectPlanView {
            protocol: self.protocol,
            proxy_addr: self.proxy_addr@,
            target_host: self.target_host@,
            target_port: self.target_port,
            auth: self.auth@,
        }
    }
}

/// The plan for reaching `target_host:target_port` through `proxy`.
pub open spec fn plan_of(proxy: ProxyView, target_host: Seq<char>, target_port: u16)
    -> ConnectPlanView {
    ConnectPlanView {
        protocol: proxy.protocol,
        proxy_addr: host_port(proxy.host, proxy.port),
        target_host,
        target_port,
        auth: proxy.auth,
    }
}

/// The error that a failed attempt is reported as: it is named after the
/// protocol that was being spoken.
pub open spec fn error_of_failure(protocol: ProxyProtocol, failure: UpstreamFailure)
    -> ProxyErrorView {
    match protocol {
        ProxyProtocol::Http => ProxyErrorView::HttpError(failure),
        ProxyProtocol::Socks5 => ProxyErrorView::SocksError(failure),
    }
}

impl Proxy {
    /// What a connect to the target through this proxy consists of. One
    /// plan is one attempt: nothing here asks for a retry.
    pub fn connect_plan(&self, target_host: &str, target_port: u16) -> (r: ConnectPlan)
        ensures
            r@ == plan_of(self@, target_host@, target_port),
    {
        ConnectPlan {
            protocol: self.protocol,
            proxy_addr: join_host_port(self.host.as_str(), self.port),
            target_host: target_host.to_owned(),
            target_port,
            auth: self.auth.clone(),
        }
    }
}

impl ProxyProtocol {
    /// The error for an attempt in this protocol that failed, be it below
    /// the protocol or in its handshake.
    pub fn connect_error(self, failure: UpstreamFailure) -> (r: ProxyError)
        ensures
            r@ == error_of_failure(self, failure),
    {
        match self {
            ProxyProtocol::Http => ProxyError::HttpError(failure),
            ProxyProtocol::Socks5 => ProxyError::SocksError(failure),
        }
    }
}

/// Settles the race between a connect attempt and its timer. `None` says
/// that the timer fired first; the attempt's own result is then never seen.
pub fn race_outcome<T>(raced: Option<Result<T, ProxyError>>) -> (r: Result<T, ProxyError>)
    ensures
        r == match raced {
            Some(finished) => finished,
            None => Err(ProxyError::ConnectionTimeout),
        },
{
    match raced {
        Some(finished) => finished,
        None => Err(ProxyError::ConnectionTimeout),
    }
}

/// A builder was asked to build before a field without a default was set.
#[derive(Debug, Clone, Copy, PartialEq, Eq)]
pub enum BuilderError {
    UninitializedField(&'static str),
}

impl View for BuilderError {
    type V = Seq<char>;

    /// The name of the field that was missing.
    open spec fn view(&self) -> Seq<char> {
        match self {
            BuilderError::UninitializedField(name) => name@,
        }
    }
}

impl BuilderError {
    pub fn field_name(&self) -> (r: &'static str)
        ensures
            r@ == self@,
    {
        match self {
            BuilderError::UninitializedField(name) => name,
        }
    }
}

/// Collects the fields of a [`BasicAuth`]; both must be set.
#[derive(Debug, PartialEq, Eq)]
pub struct BasicAuthBuilder {
    username: Option<String>,
    password: Option<String>,
}

/// What has been set on a [`BasicAuthBuilder`] so far.
pub struct BasicAuthBuilderView {
    pub username: Option<Seq<char>>,
    pub password: Option<Seq<char>>,
}

impl View for BasicAuthBuilder {
    type V = BasicAuthBuilderView;

    closed spec fn view(&self) -> BasicAuthBuilderView {
        BasicAuthBuilderView {
            username: opt_string_view(self.username),
            password: opt_string_view(self.password),
        }
    }
}

/// What `build` gives: the value, or the name of the first field, in
/// declaration order, that was never set.
pub open spec fn basic_auth_of_builder(b: BasicAuthBuilderView) -> Result<BasicAuthView, Seq<char>> {
    match (b.username, b.password) {
        (None, _) => Err("username"@),
        (Some(_), None) => Err("password"@),
        (Some(username), Some(password)) => Ok(BasicAuthView { username, password }),
    }
}

impl Default for BasicAuthBuilder {
    fn default() -> (r: BasicAuthBuilder)
        ensures
            r@ == (BasicAuthBuilderView { username: None, password: None }),
    {
        BasicAuthBuilder { username: None, password: None }
    }
}

impl Clone for BasicAuthBuilder {
    fn clone(&self) -> (r: BasicAuthBuilder)
        ensures
            r == *self,
    {
        BasicAuthBuilder { username: self.username.clone(), password: self.password.clone() }
    }
}

impl BasicAuthBuilder {
    pub fn username(&mut self, value: &str) -> (r: &mut BasicAuthBuilder)
        ensures
            r@ == (BasicAuthBuilderView { username: Some(value@), ..old(self)@ }),
            *final(self) == *final(r),
    {
        self.username = Some(value.to_owned());
        self
    }

    pub fn password(&mut self, value: &str) -> (r: &mut BasicAuthBuilder)
        ensures
            r@ == (BasicAuthBuilderView { password: Some(value@), ..old(self)@ }),
            *final(self) == *final(r),
    {
        self.password = Some(value.to_owned());
        self
    }

    pub fn build(&self) -> (r: Result<BasicAuth, BuilderError>)
        ensures
            match r {
                Ok(auth) => basic_auth_of_builder(self@) == Ok::<BasicAuthView, Seq<char>>(auth@),
                Err(e) => basic_auth_of_builder(self@) == Err::<BasicAuthView, Seq<char>>(e@),
            },
    {
        let username = match &self.username {
            Some(username) => username.clone(),
            None => {
                return Err(BuilderError::UninitializedField("username"));
            },
        };
        let password = match &self.password {
            Some(password) => password.clone(),
            None => {
                return Err(BuilderError::UninitializedField("password"));
            },
        };
        Ok(BasicAuth { username, password })
    }
}

impl BasicAuth {
    pub fn builder() -> (r: BasicAuthBuilder)
        ensures
            r@ == (BasicAuthBuilderView { username: None, password: None }),
    {
        BasicAuthBuilder::default()
    }
}

/// Collects the fields of a [`Proxy`]. The host and the port must be set;
/// the protocol defaults to HTTP and the authentication to none.
#[derive(Debug, PartialEq, Eq)]
pub struct ProxyBuilder {
    protocol: Option<ProxyProtocol>,
    host: Option<String>,
    port: Option<u16>,
    auth: Option<ProxyAuth>,
}

/// What has been set on a [`ProxyBuilder`] so far.
pub struct ProxyBuilderView {
    pub protocol: Option<ProxyProtocol>,
    pub host: Option<Seq<char>>,
    pub port: Option<u16>,
    pub auth: Option<Option<BasicAuthView>>,
}

impl View for ProxyBuilder {
    type V = ProxyBuilderView;

    closed spec fn view(&self) -> ProxyBuilderView {
        ProxyBuilderView {
            protocol: self.protocol,
            host: opt_string_view(self.host),
            port: self.port,
            auth: match self.auth {
                Some(auth) => Some(auth@),
                None => None,
            },
        }
    }
}

/// A builder on which nothing has been set.
pub open spec fn empty_proxy_builder() -> ProxyBuilderView {
    ProxyBuilderView { protocol: None, host: None, port: None, auth: None }
}

/// What `build` gives: the value, or the name of the first field, in
/// declaration order, that has no default and was never set.
pub open spec fn proxy_of_builder(b: ProxyBuilderView) -> Result<ProxyView, Seq<char>> {
    match (b.host, b.port) {
        (None, _) => Err("host"@),
        (Some(_), None) => Err("port"@),
        (Some(host), Some(port)) => Ok(
            ProxyView {
                protocol: match b.protocol {
                    Some(protocol) => protocol,
                    None => ProxyProtocol::Http,
                },
                host,
                port,
                auth: match b.auth {
                    Some(auth) => auth,
                    None => None,
                },
            },
        ),
    }
}

impl Default for ProxyBuilder {
    fn default() -> (r: ProxyBuilder)
        ensures
            r@ == empty_proxy_builder(),
    {
        ProxyBuilder { protocol: None, host: None, port: None, auth: None }
    }
}

impl Clone for ProxyBuilder {
    fn clone(&self) -> (r: ProxyBuilder)
        ensures
            r == *self,
    {
        ProxyBuilder {
            protocol: self.protocol,
            host: self.host.clone(),
            port: self.port,
            auth: self.auth.clone(),
        }
    }
}

impl ProxyBuilder {
    pub fn protocol(&mut self, value: ProxyProtocol) -> (r: &mut ProxyBuilder)
        ensures
            r@ == (ProxyBuilderView { protocol: Some(value), ..old(self)@ }),
            *final(self) == *final(r),
    {
        self.protocol = Some(value);
        self
    }

    pub fn host(&mut self, value: &str) -> (r: &mut ProxyBuilder)
        ensures
            r@ == (ProxyBuilderView { host: Some(value@), ..old(self)@ }),
            *final(self) == *final(r),
    {
        self.host = Some(value.to_owned());
        self
    }

    pub fn port(&mut self, value: u16) -> (r: &mut ProxyBuilder)
        ensures
            r@ == (ProxyBuilderView { port: Some(value), ..old(self)@ }),
            *final(self) == *final(r),
    {
        self.port = Some(value);
        self
    }

    pub fn auth(&mut self, value: ProxyAuth) -> (r: &mut ProxyBuilder)
        ensures
            r@ == (ProxyBuilderView { auth: Some(value@), ..old(self)@ }),
            *final(self) == *final(r),
    {
        self.auth = Some(value);
        self
    }

    pub fn build(&self) -> (r: Result<Proxy, BuilderError>)
        ensures
            match r {
                Ok(proxy) => proxy_of_builder(self@) == Ok::<ProxyView, Seq<char>>(proxy@),
                Err(e) => proxy_of_builder(self@) == Err::<ProxyView, Seq<char>>(e@),
            },
    {
        let protocol = match self.protocol {
            Some(protocol) => protocol,
            None => ProxyProtocol::default(),
        };
        let host = match &self.host {
            Some(host) => host.clone(),
            None => {
                return Err(BuilderError::UninitializedField("host"));
            },
        };
        let port: u16 = match self.port {
            Some(port) => port,
            None => {
                return Err(BuilderError::UninitializedField("port"));
            },
        };
        let auth = match &self.auth {
            Some(auth) => auth.clone(),
            None => ProxyAuth::default(),
        };
        Ok(Proxy { protocol, host, port, auth })
    }
}

impl Proxy {
    pub fn builder() -> (r: ProxyBuilder)
        ensures
            r@ == empty_proxy_builder(),
    {
        ProxyBuilder::default()
    }
}

} // verus!
