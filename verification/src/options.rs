//! The configuration record a client is built from.

use vstd::prelude::*;

verus! {

/// What the host supplies to build a client.
///
/// The credential fields come in two groups, `username` with `password` and
/// `access_key` with `access_secret` and `signature_region_id`. Any of them
/// may be absent; `AuthStrategy::select` decides what an incomplete or a
/// doubly filled set means.
#[derive(Clone, Debug, PartialEq, Eq)]
pub struct ClientOptions {
    /// Server address list, `address:port[,address:port]...`.
    pub server_addr: String,
    /// Namespace, also called tenant.
    pub namespace: String,
    /// Application name.
    pub app_name: Option<String>,
    /// User name for HTTP login.
    pub username: Option<String>,
    /// Password for HTTP login.
    pub password: Option<String>,
    /// Access key for RAM authentication.
    pub access_key: Option<String>,
    /// Access secret for RAM authentication.
    pub access_secret: Option<String>,
    /// Signature region for RAM authentication.
    pub signature_region_id: Option<String>,
    /// Whether a naming client ignores pushes of an empty instance list.
    pub naming_push_empty_protection: Option<bool>,
    /// Whether a naming client loads its disk cache when it starts.
    pub naming_load_cache_at_start: Option<bool>,
}

/// `ClientOptions` with each text as a sequence of characters.
pub struct ClientOptionsView {
    pub server_addr: Seq<char>,
    pub namespace: Seq<char>,
    pub app_name: Option<Seq<char>>,
    pub username: Option<Seq<char>>,
    pub password: Option<Seq<char>>,
    pub access_key: Option<Seq<char>>,
    pub access_secret: Option<Seq<char>>,
    pub signature_region_id: Option<Seq<char>>,
    pub naming_push_empty_protection: Option<bool>,
    pub naming_load_cache_at_start: Option<bool>,
}

impl View for ClientOptions {
    type V = ClientOptionsView;

    open spec fn view(&self) -> ClientOptionsView {
        ClientOptionsView {
            server_addr: self.server_addr@,
            namespace: self.namespace@,
            app_name: self.app_name.deep_view(),
            username: self.username.deep_view(),
            password: self.password.deep_view(),
            access_key: self.access_key.deep_view(),
            access_secret: self.access_secret.deep_view(),
            signature_region_id: self.signature_region_id.deep_view(),
            naming_push_empty_protection: self.naming_push_empty_protection,
            naming_load_cache_at_start: self.naming_load_cache_at_start,
        }
    }
}

/// A copy of an optional text.
pub fn clone_text(text: &Option<String>) -> (copy: Option<String>)
    ensures
        copy == *text,
{
    match text {
        Some(t) => Some(t.clone()),
        None => None,
    }
}

impl ClientOptions {
    /// A record with exactly the given fields.
    pub fn new(
        server_addr: String,
        namespace: String,
        app_name: Option<String>,
        username: Option<String>,
        password: Option<String>,
        access_key: Option<String>,
        access_secret: Option<String>,
        signature_region_id: Option<String>,
        naming_push_empty_protection: Option<bool>,
        naming_load_cache_at_start: Option<bool>,
    ) -> (options: ClientOptions)
        ensures
            options == (ClientOptions {
                server_addr,
                namespace,
                app_name,
                username,
                password,
                access_key,
                access_secret,
                signature_region_id,
                naming_push_empty_protection,
                naming_load_cache_at_start,
            }),
    {
        ClientOptions {
            server_addr,
            namespace,
            app_name,
            username,
            password,
            access_key,
            access_secret,
            signature_region_id,
            naming_push_empty_protection,
            naming_load_cache_at_start,
        }
    }

    /// The arguments from which `new` builds an equal record, in the order
    /// in which `new` takes them.
    pub fn __getnewargs__(&self) -> (args: (
        String,
        String,
        Option<String>,
        Option<String>,
        Option<String>,
        Option<String>,
        Option<String>,
        Option<String>,
        Option<bool>,
        Option<bool>,
    ))
        ensures
            args == (
                self.server_addr,
                self.namespace,
                self.app_name,
                self.username,
                self.password,
                self.access_key,
                self.access_secret,
                self.signature_region_id,
                self.naming_push_empty_protection,
                self.naming_load_cache_at_start,
            ),
    {
        (
            self.server_addr.clone(),
            self.namespace.clone(),
            clone_text(&self.app_name),
            clone_text(&self.username),
            clone_text(&self.password),
            clone_text(&self.access_key),
            clone_text(&self.access_secret),
            clone_text(&self.signature_region_id),
            self.naming_push_empty_protection,
            self.naming_load_cache_at_start,
        )
    }
}

} // verus!
