//! The asynchronous client of the configuration service.

use vstd::prelude::*;
use crate::config::{
    config_request_result_view, spec_add_listener, ConfigRequest, ConfigRequestView,
    NacosConfigClient, NacosConfigResponse,
};
use crate::error::{BridgeError, BridgeErrorView};
use crate::listener::HostObject;
use crate::options::ClientOptions;
use crate::pending::{OperationState, PendingOperation};
use crate::props::{spec_resolve, ClientKind, ClientProperties, ClientPropertiesView};

verus! {

/// The asynchronous client of the configuration service.
///
/// It makes the same requests as `NacosConfigClient`. Each operation
/// returns at once, with the request to send to the SDK and the pending slot
/// that the continuation of the SDK's future settles with the reply.
#[derive(Clone, Debug, PartialEq, Eq)]
pub struct AsyncNacosConfigClient {
    inner: NacosConfigClient,
}

/// What `add_listener` gives: a request and its pending slot, or the
/// argument failure, taken by their views.
pub open spec fn listener_call_view(
    call: Result<(ConfigRequest, PendingOperation<()>), BridgeError>,
) -> Result<ConfigRequestView, BridgeErrorView> {
    match call {
        Ok((request, operation)) => Ok(request@),
        Err(e) => Err(e@),
    }
}

impl AsyncNacosConfigClient {
    /// The properties this client was built from.
    pub closed spec fn properties(&self) -> ClientPropertiesView {
        self.inner.properties()
    }

    /// A configuration client for the given options.
    pub fn new(client_options: ClientOptions) -> (client: AsyncNacosConfigClient)
        ensures
            client.properties() == spec_resolve(client_options@, ClientKind::Config),
    {
        AsyncNacosConfigClient { inner: NacosConfigClient::new(client_options) }
    }

    /// The properties to build the SDK's configuration service with.
    pub fn props(&self) -> (props: &ClientProperties)
        ensures
            props@ == self.properties(),
    {
        self.inner.props()
    }

    /// Reads the content of an entry. The reply goes through
    /// `config_content_reply`.
    pub fn get_config(&self, data_id: String, group: String) -> (call: (
        ConfigRequest,
        PendingOperation<String>,
    ))
        ensures
            call.0@ == (ConfigRequestView::GetConfig { data_id: data_id@, group: group@ }),
            call.1.state() is Pending,
    {
        (self.inner.get_config(data_id, group), PendingOperation::new())
    }

    /// Reads an entry. The reply goes through `config_resp_reply`.
    pub fn get_config_resp(&self, data_id: String, group: String) -> (call: (
        ConfigRequest,
        PendingOperation<NacosConfigResponse>,
    ))
        ensures
            call.0@ == (ConfigRequestView::GetConfig { data_id: data_id@, group: group@ }),
            call.1.state() is Pending,
    {
        (self.inner.get_config_resp(data_id, group), PendingOperation::new())
    }

    /// Publishes an entry. The type of the content is left for the server
    /// to decide.
    pub fn publish_config(&self, data_id: String, group: String, content: String) -> (call: (
        ConfigRequest,
        PendingOperation<bool>,
    ))
        ensures
            call.0@ == (ConfigRequestView::PublishConfig {
                data_id: data_id@,
                group: group@,
                content: content@,
                content_type: None,
            }),
            call.1.state() is Pending,
    {
        (self.inner.publish_config(data_id, group, content), PendingOperation::new())
    }

    /// Removes an entry.
    pub fn remove_config(&self, data_id: String, group: String) -> (call: (
        ConfigRequest,
        PendingOperation<bool>,
    ))
        ensures
            call.0@ == (ConfigRequestView::RemoveConfig { data_id: data_id@, group: group@ }),
            call.1.state() is Pending,
    {
        (self.inner.remove_config(data_id, group), PendingOperation::new())
    }

    /// Registers a host callable as a listener for the changes of an entry.
    /// A value that cannot be invoked is refused at once with the argument
    /// failure: no request is made and no slot is created.
    pub fn add_listener(&self, data_id: String, group: String, listener: HostObject) -> (call:
        Result<(ConfigRequest, PendingOperation<()>), BridgeError>)
        ensures
            listener_call_view(call) == spec_add_listener(data_id@, group@, listener),
            call is Ok ==> call->Ok_0.1.state() is Pending,
    {
        match self.inner.add_listener(data_id, group, listener) {
            Ok(request) => Ok((request, PendingOperation::new())),
            Err(e) => Err(e),
        }
    }

    /// Does nothing, and succeeds: the slot is settled from the start, and
    /// no request is made. A registered listener stays registered.
    pub fn remove_listener(&self, data_id: String, group: String, listener: HostObject) -> (done:
        PendingOperation<()>)
        ensures
            done.state() == OperationState::Resolved(()),
    {
        PendingOperation::settled(Ok(()))
    }
}

} // verus!
