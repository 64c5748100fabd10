//! The outbound SSH configuration record and its resolved, runtime-ready
//! counterpart.

use vstd::prelude::*;

use crate::algorithm::{spec_resolve_list, resolve_list, HostKeyAlgorithm};

verus! {

/// A declarative outbound SSH proxy entry, as the configuration layer hands
/// it over: string-keyed fields and free-text algorithm names.
pub struct OutboundSshConfig {
    /// Identifier of this proxy entry.
    pub name: String,
    /// Reference to the shared connector this entry dials through, if any.
    pub connector: Option<String>,
    /// Target server host.
    pub server: String,
    /// Target port.
    pub port: u16,
    /// Login user name.
    pub username: String,
    /// Password, if password authentication is configured.
    pub password: Option<String>,
    /// Private key material or reference, if key authentication is configured.
    pub private_key: Option<String>,
    /// Passphrase protecting the private key, if any.
    pub private_key_passphrase: Option<String>,
    /// Expected host public key, for pinning.
    pub host_key: Option<String>,
    /// Ordered free-text host-key algorithm names. Absence means "let the
    /// transport choose"; an empty list means "explicitly none accepted".
    pub host_key_algorithms: Option<Vec<String>>,
}

/// Mathematical model of an [`OutboundSshConfig`].
pub struct OutboundSshConfigView {
    pub name: Seq<char>,
    pub connector: Option<Seq<char>>,
    pub server: Seq<char>,
    pub port: u16,
    pub username: Seq<char>,
    pub password: Option<Seq<char>>,
    pub private_key: Option<Seq<char>>,
    pub private_key_passphrase: Option<Seq<char>>,
    pub host_key: Option<Seq<char>>,
    pub host_key_algorithms: Option<Seq<Seq<char>>>,
}

impl View for OutboundSshConfig {
    type V = OutboundSshConfigView;

    open spec fn view(&self) -> OutboundSshConfigView {
        OutboundSshConfigView {
            name: self.name@,
            connector: self.connector.deep_view(),
            server: self.server@,
            port: self.port,
            username: self.username@,
            password: self.password.deep_view(),
            private_key: self.private_key.deep_view(),
            private_key_passphrase: self.private_key_passphrase.deep_view(),
            host_key: self.host_key.deep_view(),
            host_key_algorithms: match self.host_key_algorithms {
                Some(names) => Some(names.deep_view()),
                None => None,
            },
        }
    }
}

/// A fully-resolved handler configuration, ready for the transport layer:
/// every identity and authentication field copied verbatim from the input,
/// and the algorithm names replaced by canonical identifiers.
pub struct ResolvedHandlerConfig {
    /// Identifier of this proxy entry, copied verbatim.
    pub name: String,
    /// Shared connector reference, copied verbatim.
    pub connector: Option<String>,
    /// Target server host, copied verbatim.
    pub server: String,
    /// Target port, copied verbatim.
    pub port: u16,
    /// Login user name, copied verbatim.
    pub username: String,
    /// Password, copied verbatim.
    pub password: Option<String>,
    /// Private key material or reference, copied verbatim.
    pub private_key: Option<String>,
    /// Private key passphrase, copied verbatim.
    pub private_key_passphrase: Option<String>,
    /// Expected host public key, copied verbatim.
    pub host_key: Option<String>,
    /// Canonical host-key algorithm identifiers, present exactly when the
    /// input list was present; empty when every input name was unrecognized.
    pub host_key_algorithms: Option<Vec<HostKeyAlgorithm>>,
}

/// Mathematical model of a [`ResolvedHandlerConfig`].
pub struct ResolvedHandlerConfigView {
    pub name: Seq<char>,
    pub connector: Option<Seq<char>>,
    pub server: Seq<char>,
    pub port: u16,
    pub username: Seq<char>,
    pub password: Option<Seq<char>>,
    pub private_key: Option<Seq<char>>,
    pub private_key_passphrase: Option<Seq<char>>,
    pub host_key: Option<Seq<char>>,
    pub host_key_algorithms: Option<Seq<HostKeyAlgorithm>>,
}

impl View for ResolvedHandlerConfig {
    type V = ResolvedHandlerConfigView;

    open spec fn view(&self) -> ResolvedHandlerConfigView {
        ResolvedHandlerConfigView {
            name: self.name@,
            connector: self.connector.deep_view(),
            server: self.server@,
            port: self.port,
            username: self.username@,
            password: self.password.deep_view(),
            private_key: self.private_key.deep_view(),
            private_key_passphrase: self.private_key_passphrase.deep_view(),
            host_key: self.host_key.deep_view(),
            host_key_algorithms: match self.host_key_algorithms {
                Some(algorithms) => Some(algorithms@),
                None => None,
            },
        }
    }
}

/// What resolution does to a configuration record: the algorithm-name list,
/// when present, is resolved; every other field is copied unchanged.
pub open spec fn spec_resolve(config: OutboundSshConfigView) -> ResolvedHandlerConfigView {
    ResolvedHandlerConfigView {
        name: config.name,
        connector: config.connector,
        server: config.server,
        port: config.port,
        username: config.username,
        password: config.password,
        private_key: config.private_key,
        private_key_passphrase: config.private_key_passphrase,
        host_key: config.host_key,
        host_key_algorithms: match config.host_key_algorithms {
            Some(names) => Some(spec_resolve_list(names)),
            None => None,
        },
    }
}

/// Clone an optional string, preserving presence and contents.
fn clone_opt_string(value: &Option<String>) -> (cloned: Option<String>)
    ensures
        cloned == value,
{
    match value {
        Some(text) => Some(text.clone()),
        None => None,
    }
}

/// Build the runtime-ready handler configuration for one outbound SSH proxy
/// entry. Never fails: an unrecognized algorithm name is dropped from the
/// preference list, not reported, and no other field is validated here.
///
/// The output's algorithm list is present if and only if the input's list is
/// present, and absence is distinct from an empty resolved list.
pub fn resolve(config: &OutboundSshConfig) -> (handler: ResolvedHandlerConfig)
    ensures
        handler@ == spec_resolve(config@),
        handler.host_key_algorithms is Some <==> config.host_key_algorithms is Some,
{
    let host_key_algorithms = match &config.host_key_algorithms {
        Some(names) => Some(resolve_list(names)),
        None => None,
    };
    ResolvedHandlerConfig {
        name: config.name.clone(),
        connector: clone_opt_string(&config.connector),
        server: config.server.clone(),
        port: config.port,
        username: config.username.clone(),
        password: clone_opt_string(&config.password),
        private_key: clone_opt_string(&config.private_key),
        private_key_passphrase: clone_opt_string(&config.private_key_passphrase),
        host_key: clone_opt_string(&config.host_key),
        host_key_algorithms,
    }
}

} // verus!
