//! Configuration entries, configuration requests and change notifications.

use vstd::prelude::*;
use crate::error::{
    engine_failure, listener_not_callable_message, sdk_error_debug, BridgeError, BridgeErrorView,
};
use crate::listener::{accept, spec_accept, HostObject};
use crate::options::ClientOptions;
use crate::props::{spec_resolve, ClientKind, ClientProperties, ClientPropertiesView};

verus! {

/// A configuration entry as the host sees it. The host reads it and never
/// builds one.
#[derive(Clone, Debug, PartialEq, Eq)]
pub struct NacosConfigResponse {
    /// Namespace, also called tenant.
    pub namespace: String,
    pub data_id: String,
    pub group: String,
    pub content: String,
    /// The type of the content, such as json, properties, xml, html, text
    /// or yaml.
    pub content_type: String,
    /// The md5 checksum of the content.
    pub md5: String,
}

/// A configuration entry with each text as a sequence of characters. Both
/// the host's record and the SDK's have this view.
pub struct ConfigEntryView {
    pub namespace: Seq<char>,
    pub data_id: Seq<char>,
    pub group: Seq<char>,
    pub content: Seq<char>,
    pub content_type: Seq<char>,
    pub md5: Seq<char>,
}

impl View for NacosConfigResponse {
    type V = ConfigEntryView;

    open spec fn view(&self) -> ConfigEntryView {
        ConfigEntryView {
            namespace: self.namespace@,
            data_id: self.data_id@,
            group: self.group@,
            content: self.content@,
            content_type: self.content_type@,
            md5: self.md5@,
        }
    }
}

/// A configuration entry as the SDK returns it: the fields of the SDK's
/// `ConfigResponse`.
#[derive(Clone, Debug, PartialEq, Eq)]
pub struct ConfigResponse {
    pub namespace: String,
    pub data_id: String,
    pub group: String,
    pub content: String,
    pub content_type: String,
    pub md5: String,
}

impl View for ConfigResponse {
    type V = ConfigEntryView;

    open spec fn view(&self) -> ConfigEntryView {
        ConfigEntryView {
            namespace: self.namespace@,
            data_id: self.data_id@,
            group: self.group@,
            content: self.content@,
            content_type: self.content_type@,
            md5: self.md5@,
        }
    }
}

/// Marshals an SDK entry into a host record: each field is copied into the
/// field of the same name, and none is dropped or altered.
pub fn transfer_conf_resp(config_resp: ConfigResponse) -> (ffi_conf_resp: NacosConfigResponse)
    ensures
        ffi_conf_resp@ == config_resp@,
{
    NacosConfigResponse {
        namespace: config_resp.namespace,
        data_id: config_resp.data_id,
        group: config_resp.group,
        content: config_resp.content,
        content_type: config_resp.content_type,
        md5: config_resp.md5,
    }
}

/// One call of a host callable with a configuration entry. Whoever performs
/// it enters the host runtime for this one call, and drops both what the
/// callable returns and what it raises.
#[derive(Clone, Debug, PartialEq, Eq)]
pub struct ConfigInvocation {
    /// The handle of the callable.
    pub func: u64,
    /// The single argument of the call.
    pub config_resp: NacosConfigResponse,
}

/// `ConfigInvocation` with the entry taken by its view.
pub struct ConfigInvocationView {
    pub func: u64,
    pub config_resp: ConfigEntryView,
}

impl View for ConfigInvocation {
    type V = ConfigInvocationView;

    open spec fn view(&self) -> ConfigInvocationView {
        ConfigInvocationView { func: self.func, config_resp: self.config_resp@ }
    }
}

/// A listener for configuration changes: one host callable, named by its
/// handle.
#[derive(Clone, Copy, Debug, PartialEq, Eq, Structural)]
pub struct NacosConfigChangeListener {
    /// The handle of the callable that this listener invokes.
    pub func: u64,
}

/// What a listener does with a changed entry: it invokes its callable
/// exactly once, with the entry marshalled.
pub open spec fn spec_notify(
    listener: NacosConfigChangeListener,
    config_resp: ConfigEntryView,
) -> ConfigInvocationView {
    ConfigInvocationView { func: listener.func, config_resp }
}

impl NacosConfigChangeListener {
    /// A listener that invokes the callable with the given handle.
    pub fn new(func: u64) -> (listener: NacosConfigChangeListener)
        ensures
            listener == (NacosConfigChangeListener { func }),
    {
        NacosConfigChangeListener { func }
    }

    /// The invocation that answers a changed entry.
    pub fn notify(&self, config_resp: ConfigResponse) -> (invocation: ConfigInvocation)
        ensures
            invocation@ == spec_notify(*self, config_resp@),
    {
        ConfigInvocation { func: self.func, config_resp: transfer_conf_resp(config_resp) }
    }
}

/// A call of the SDK's configuration service, with the arguments the SDK
/// takes.
#[derive(Clone, Debug, PartialEq, Eq)]
pub enum ConfigRequest {
    GetConfig { data_id: String, group: String },
    PublishConfig { data_id: String, group: String, content: String, content_type: Option<String> },
    RemoveConfig { data_id: String, group: String },
    AddListener { data_id: String, group: String, listener: NacosConfigChangeListener },
}

/// `ConfigRequest` with each text as a sequence of characters.
pub enum ConfigRequestView {
    GetConfig { data_id: Seq<char>, group: Seq<char> },
    PublishConfig {
        data_id: Seq<char>,
        group: Seq<char>,
        content: Seq<char>,
        content_type: Option<Seq<char>>,
    },
    RemoveConfig { data_id: Seq<char>, group: Seq<char> },
    AddListener { data_id: Seq<char>, group: Seq<char>, listener: NacosConfigChangeListener },
}

impl View for ConfigRequest {
    type V = ConfigRequestView;

    open spec fn view(&self) -> ConfigRequestView {
        match self {
            ConfigRequest::GetConfig { data_id, group } => ConfigRequestView::GetConfig {
                data_id: data_id@,
                group: group@,
            },
            ConfigRequest::PublishConfig { data_id, group, content, content_type } => {
                ConfigRequestView::PublishConfig {
                    data_id: data_id@,
                    group: group@,
                    content: content@,
                    content_type: content_type.deep_view(),
                }
            },
            ConfigRequest::RemoveConfig { data_id, group } => ConfigRequestView::RemoveConfig {
                data_id: data_id@,
                group: group@,
            },
            ConfigRequest::AddListener { data_id, group, listener } => {
                ConfigRequestView::AddListener {
                    data_id: data_id@,
                    group: group@,
                    listener: *listener,
                }
            },
        }
    }
}

/// The registration of a listener: an `AddListener` request for a value
/// that can be invoked, and the argument failure, with no request at all,
/// for one that cannot.
pub open spec fn spec_add_listener(
    data_id: Seq<char>,
    group: Seq<char>,
    listener: HostObject,
) -> Result<ConfigRequestView, BridgeErrorView> {
    match spec_accept(listener) {
        Ok(func) => Ok(
            ConfigRequestView::AddListener {
                data_id,
                group,
                listener: NacosConfigChangeListener { func },
            },
        ),
        Err(e) => Err(e),
    }
}

/// A `Result` with a configuration request, both sides taken by their
/// views.
pub open spec fn config_request_result_view(result: Result<ConfigRequest, BridgeError>) -> Result<
    ConfigRequestView,
    BridgeErrorView,
> {
    match result {
        Ok(request) => Ok(request@),
        Err(e) => Err(e@),
    }
}

/// The synchronous client of the configuration service.
///
/// A client holds the properties it was built from. Each operation gives
/// the request to send to the SDK; the reply goes through
/// `config_content_reply`, `config_resp_reply` or `engine_result`, by what
/// the operation returns.
#[derive(Clone, Debug, PartialEq, Eq)]
pub struct NacosConfigClient {
    props: ClientProperties,
}

impl NacosConfigClient {
    /// The properties this client was built from.
    pub closed spec fn properties(&self) -> ClientPropertiesView {
        self.props@
    }

    /// A configuration client for the given options.
    pub fn new(client_options: ClientOptions) -> (client: NacosConfigClient)
        ensures
            client.properties() == spec_resolve(client_options@, ClientKind::Config),
    {
        NacosConfigClient { props: ClientProperties::resolve(client_options, ClientKind::Config) }
    }

    /// The properties to build the SDK's configuration service with.
    pub fn props(&self) -> (props: &ClientProperties)
        ensures
            props@ == self.properties(),
    {
        &self.props
    }

    /// Reads the content of an entry. The reply goes through
    /// `config_content_reply`.
    pub fn get_config(&self, data_id: String, group: String) -> (request: ConfigRequest)
        ensures
            request@ == (ConfigRequestView::GetConfig { data_id: data_id@, group: group@ }),
    {
        ConfigRequest::GetConfig { data_id, group }
    }

    /// Reads an entry. The reply goes through `config_resp_reply`.
    pub fn get_config_resp(&self, data_id: String, group: String) -> (request: ConfigRequest)
        ensures
            request@ == (ConfigRequestView::GetConfig { data_id: data_id@, group: group@ }),
    {
        ConfigRequest::GetConfig { data_id, group }
    }

    /// Publishes an entry. The type of the content is left for the server
    /// to decide.
    pub fn publish_config(&self, data_id: String, group: String, content: String) -> (request:
        ConfigRequest)
        ensures
            request@ == (ConfigRequestView::PublishConfig {
                data_id: data_id@,
                group: group@,
                content: content@,
                content_type: None,
            }),
    {
        ConfigRequest::PublishConfig { data_id, group, content, content_type: None }
    }

    /// Removes an entry.
    pub fn remove_config(&self, data_id: String, group: String) -> (request: ConfigRequest)
        ensures
            request@ == (ConfigRequestView::RemoveConfig { data_id: data_id@, group: group@ }),
    {
        ConfigRequest::RemoveConfig { data_id, group }
    }

    /// Registers a host callable as a listener for the changes of an entry.
    /// A value that cannot be invoked is refused with the argument failure,
    /// and then no request is made.
    pub fn add_listener(&self, data_id: String, group: String, listener: HostObject) -> (request:
        Result<ConfigRequest, BridgeError>)
        ensures
            config_request_result_view(request) == spec_add_listener(data_id@, group@, listener),
    {
        match accept(listener) {
            Err(e) => Err(e),
            Ok(func) => Ok(
                ConfigRequest::AddListener {
                    data_id,
                    group,
                    listener: NacosConfigChangeListener::new(func),
                },
            ),
        }
    }

    /// Does nothing, and succeeds. A registered listener stays registered:
    /// no request is made, so the SDK goes on notifying it.
    pub fn remove_listener(&self, data_id: String, group: String, listener: HostObject) -> (done:
        Result<(), BridgeError>)
        ensures
            done == Ok::<(), BridgeError>(()),
    {
        Ok(())
    }
}

/// The reply to `get_config_resp`: the entry marshalled, or the engine
/// failure.
pub fn config_resp_reply(outcome: Result<ConfigResponse, nacos_sdk::api::error::Error>) -> (result:
    Result<NacosConfigResponse, BridgeError>)
    ensures
        match outcome {
            Ok(config_resp) => result is Ok && result->Ok_0@ == config_resp@,
            Err(err) => result is Err && result->Err_0@ == BridgeErrorView::Engine(
                sdk_error_debug(err),
            ),
        },
{
    match outcome {
        Ok(config_resp) => Ok(transfer_conf_resp(config_resp)),
        Err(err) => Err(engine_failure(&err)),
    }
}

/// The reply to `get_config`: the content of the entry, or the engine
/// failure.
pub fn config_content_reply(outcome: Result<ConfigResponse, nacos_sdk::api::error::Error>) -> (result:
    Result<String, BridgeError>)
    ensures
        match outcome {
            Ok(config_resp) => result is Ok && result->Ok_0@ == config_resp@.content,
            Err(err) => result is Err && result->Err_0@ == BridgeErrorView::Engine(
                sdk_error_debug(err),
            ),
        },
{
    match config_resp_reply(outcome) {
        Ok(ffi_conf_resp) => Ok(ffi_conf_resp.content),
        Err(e) => Err(e),
    }
}

/// Registration checks the listener first. A value that cannot be invoked
/// gets the argument failure and no request, whatever the entry is: nothing
/// is sent to the SDK for it.
pub proof fn lemma_add_listener_refuses_non_callable(
    data_id: Seq<char>,
    group: Seq<char>,
    listener: HostObject,
)
    requires
        !listener.callable,
    ensures
        spec_add_listener(data_id, group, listener) == Err::<ConfigRequestView, BridgeErrorView>(
            BridgeErrorView::Argument(listener_not_callable_message()),
        ),
{
}

/// The listener that a registration hands to the SDK invokes the registered
/// callable, once for each changed entry and with that entry. It holds
/// nothing but the callable's handle, and `remove_listener` makes no
/// request, so this stays true after the host has removed the listener.
pub proof fn lemma_registered_listener_invokes_callable(
    data_id: Seq<char>,
    group: Seq<char>,
    listener: HostObject,
    config_resp: ConfigEntryView,
)
    requires
        listener.callable,
    ensures
        spec_add_listener(data_id, group, listener) == Ok::<ConfigRequestView, BridgeErrorView>(
            ConfigRequestView::AddListener {
                data_id,
                group,
                listener: NacosConfigChangeListener { func: listener.handle },
            },
        ),
        spec_notify(NacosConfigChangeListener { func: listener.handle }, config_resp) == (
            ConfigInvocationView { func: listener.handle, config_resp }
        ),
{
}

} // verus!
