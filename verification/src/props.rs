//! The properties an SDK client is built with.

use vstd::prelude::*;
use crate::auth::{spec_select, AuthStrategy, AuthStrategyView};
use crate::options::{ClientOptions, ClientOptionsView};

verus! {

/// The two kinds of client the SDK builds.
#[derive(Clone, Copy, Debug, PartialEq, Eq, Structural)]
pub enum ClientKind {
    /// A client of the configuration service.
    Config,
    /// A client of the naming service.
    Naming,
}

/// Everything the SDK needs to build a client, with nothing left optional.
#[derive(Clone, Debug, PartialEq, Eq)]
pub struct ClientProperties {
    pub server_addr: String,
    pub namespace: String,
    pub app_name: String,
    pub naming_push_empty_protection: bool,
    pub naming_load_cache_at_start: bool,
    pub auth: AuthStrategy,
}

/// `ClientProperties` with each text as a sequence of characters.
pub struct ClientPropertiesView {
    pub server_addr: Seq<char>,
    pub namespace: Seq<char>,
    pub app_name: Seq<char>,
    pub naming_push_empty_protection: bool,
    pub naming_load_cache_at_start: bool,
    pub auth: AuthStrategyView,
}

impl View for ClientProperties {
    type V = ClientPropertiesView;

    open spec fn view(&self) -> ClientPropertiesView {
        ClientPropertiesView {
            server_addr: self.server_addr@,
            namespace: self.namespace@,
            app_name: self.app_name@,
            naming_push_empty_protection: self.naming_push_empty_protection,
            naming_load_cache_at_start: self.naming_load_cache_at_start,
            auth: self.auth@,
        }
    }
}

/// The application name of a client whose options give none.
pub open spec fn default_app_name() -> Seq<char> {
    "unknown"@
}

/// A naming client ignores pushes of an empty instance list unless told
/// otherwise.
pub const DEFAULT_PUSH_EMPTY_PROTECTION: bool = true;

/// A naming client does not load its disk cache at start unless told to.
pub const DEFAULT_LOAD_CACHE_AT_START: bool = false;

/// The properties that the options resolve to for a client of the given
/// kind.
///
/// Address and namespace are taken as they are, and are not validated here:
/// a malformed address is for the SDK to reject when it builds the client.
/// The two naming flags are read for a naming client only; a configuration
/// client keeps the defaults whatever the options hold.
pub open spec fn spec_resolve(options: ClientOptionsView, kind: ClientKind) -> ClientPropertiesView {
    ClientPropertiesView {
        server_addr: options.server_addr,
        namespace: options.namespace,
        app_name: match options.app_name {
            Some(name) => name,
            None => default_app_name(),
        },
        naming_push_empty_protection: match (kind, options.naming_push_empty_protection) {
            (ClientKind::Naming, Some(flag)) => flag,
            _ => DEFAULT_PUSH_EMPTY_PROTECTION,
        },
        naming_load_cache_at_start: match (kind, options.naming_load_cache_at_start) {
            (ClientKind::Naming, Some(flag)) => flag,
            _ => DEFAULT_LOAD_CACHE_AT_START,
        },
        auth: spec_select(options),
    }
}

/// Reads `nacos_sdk::api::constants::UNKNOWN`, the SDK's name for an
/// application that has none. Not verified: the contract states what the
/// SDK's source defines the constant as, the text `unknown`.
#[verifier::external_body]
fn sdk_unknown_app_name() -> (name: String)
    ensures
        name@ == default_app_name(),
{
    nacos_sdk::api::constants::UNKNOWN.to_string()
}

impl ClientProperties {
    /// Resolves the options for a client of the given kind.
    pub fn resolve(options: ClientOptions, kind: ClientKind) -> (props: ClientProperties)
        ensures
            props@ == spec_resolve(options@, kind),
    {
        let auth = AuthStrategy::select(&options);
        let app_name = match options.app_name {
            Some(name) => name,
            None => sdk_unknown_app_name(),
        };
        let (push_empty_protection, load_cache_at_start) = match kind {
            ClientKind::Naming => (
                match options.naming_push_empty_protection {
                    Some(flag) => flag,
                    None => DEFAULT_PUSH_EMPTY_PROTECTION,
                },
                match options.naming_load_cache_at_start {
                    Some(flag) => flag,
                    None => DEFAULT_LOAD_CACHE_AT_START,
                },
            ),
            ClientKind::Config => (DEFAULT_PUSH_EMPTY_PROTECTION, DEFAULT_LOAD_CACHE_AT_START),
        };
        ClientProperties {
            server_addr: options.server_addr,
            namespace: options.namespace,
            app_name,
            naming_push_empty_protection: push_empty_protection,
            naming_load_cache_at_start: load_cache_at_start,
            auth,
        }
    }
}

/// With a user name and a password in the options, a client of either kind
/// is built for HTTP login with these two, whether or not an access key, a
/// secret and a region are given as well.
pub proof fn lemma_resolve_http_basic_precedence(options: ClientOptionsView, kind: ClientKind)
    requires
        options.username is Some,
        options.password is Some,
    ensures
        spec_resolve(options, kind).auth == (AuthStrategyView::HttpBasic {
            username: options.username->0,
            password: options.password->0,
        }),
{
}

} // verus!
