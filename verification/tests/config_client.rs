use nacos_binding::config::{
    config_content_reply, config_resp_reply, transfer_conf_resp, ConfigInvocation, ConfigRequest,
    ConfigResponse,
};
use nacos_binding::error::{engine_result, BridgeError};
use nacos_binding::listener::HostObject;
use nacos_binding::auth::AuthStrategy;
use nacos_binding::props::{ClientKind, ClientProperties};
use nacos_binding::{ClientOptions, NacosConfigChangeListener, NacosConfigClient, NacosConfigResponse};
use nacos_sdk::api::error::Error;

fn text(s: &str) -> String {
    s.to_string()
}

fn plain_options() -> ClientOptions {
    ClientOptions::new(
        text("127.0.0.1:8848"),
        text("public"),
        None,
        None,
        None,
        None,
        None,
        None,
        None,
        None,
    )
}

fn entry(content: &str) -> ConfigResponse {
    ConfigResponse {
        namespace: text("public"),
        data_id: text("db.url"),
        group: text("DEFAULT_GROUP"),
        content: text(content),
        content_type: text("text"),
        md5: text("9e107d9d372bb6826bd81d3542a419d6"),
    }
}

/// Stands in for the SDK: counts the calls it gets and keeps the listeners
/// it was given.
struct MockConfig {
    calls: usize,
    listeners: Vec<(String, String, NacosConfigChangeListener)>,
    content: String,
}

impl MockConfig {
    fn new(content: &str) -> MockConfig {
        MockConfig { calls: 0, listeners: Vec::new(), content: text(content) }
    }

    fn get(&mut self, request: ConfigRequest) -> Result<ConfigResponse, Error> {
        self.calls += 1;
        match request {
            ConfigRequest::GetConfig { data_id, group } if data_id == "db.url" => {
                let mut found = entry(&self.content);
                found.group = group;
                Ok(found)
            }
            ConfigRequest::GetConfig { data_id, .. } => Err(Error::ConfigNotFound(data_id)),
            other => Err(Error::ErrResult(format!("not a read: {:?}", other))),
        }
    }

    fn change(&mut self, request: ConfigRequest) -> Result<bool, Error> {
        self.calls += 1;
        match request {
            ConfigRequest::PublishConfig { content, .. } if content.is_empty() => {
                Err(Error::InvalidParam(text("content"), text("blank")))
            }
            ConfigRequest::PublishConfig { content, .. } => {
                self.content = content;
                Ok(true)
            }
            ConfigRequest::RemoveConfig { data_id, .. } => Ok(data_id == "db.url"),
            other => Err(Error::ErrResult(format!("not a change: {:?}", other))),
        }
    }

    fn listen(&mut self, request: ConfigRequest) -> Result<(), Error> {
        self.calls += 1;
        match request {
            ConfigRequest::AddListener { data_id, group, listener } => {
                self.listeners.push((data_id, group, listener));
                Ok(())
            }
            other => Err(Error::ErrResult(format!("not a registration: {:?}", other))),
        }
    }

    fn fire(&self, changed: ConfigResponse) -> Vec<ConfigInvocation> {
        self.listeners
            .iter()
            .filter(|(data_id, group, _)| *data_id == changed.data_id && *group == changed.group)
            .map(|(_, _, listener)| listener.notify(changed.clone()))
            .collect()
    }
}

#[test]
fn new_resolves_the_options_for_a_config_client() {
    let mut o = plain_options();
    o.naming_push_empty_protection = Some(false);
    o.username = Some(text("nacos"));
    o.password = Some(text("secret"));
    let expected = ClientProperties::resolve(o.clone(), ClientKind::Config);
    let c = NacosConfigClient::new(o);
    assert_eq!(c.props(), &expected);
    assert!(c.props().naming_push_empty_protection);
    assert_eq!(
        c.props().auth,
        AuthStrategy::HttpBasic { username: text("nacos"), password: text("secret") }
    );
}

#[test]
fn client_without_credentials_reads_an_entry() {
    let c = NacosConfigClient::new(plain_options());
    assert_eq!(c.props().auth, AuthStrategy::NoAuth);
    assert_eq!(c.props().server_addr, "127.0.0.1:8848");
    assert_eq!(c.props().namespace, "public");

    let mut engine = MockConfig::new("jdbc:mysql://x");
    let request = c.get_config_resp(text("db.url"), text("DEFAULT_GROUP"));
    assert_eq!(
        request,
        ConfigRequest::GetConfig { data_id: text("db.url"), group: text("DEFAULT_GROUP") }
    );
    let resp = config_resp_reply(engine.get(request)).unwrap();
    assert_eq!(engine.calls, 1);
    assert_eq!(resp.content, "jdbc:mysql://x");
    assert_eq!(resp.namespace, "public");
    assert_eq!(resp.data_id, "db.url");
    assert_eq!(resp.group, "DEFAULT_GROUP");
    assert_eq!(resp.content_type, "text");
    assert_eq!(resp.md5, "9e107d9d372bb6826bd81d3542a419d6");
}

#[test]
fn get_config_gives_the_content_alone() {
    let c = NacosConfigClient::new(plain_options());
    let mut engine = MockConfig::new("jdbc:mysql://x");
    let request = c.get_config(text("db.url"), text("DEFAULT_GROUP"));
    assert_eq!(
        request,
        ConfigRequest::GetConfig { data_id: text("db.url"), group: text("DEFAULT_GROUP") }
    );
    assert_eq!(config_content_reply(engine.get(request)), Ok(text("jdbc:mysql://x")));
}

#[test]
fn a_missing_entry_reaches_the_host_as_an_engine_failure() {
    let c = NacosConfigClient::new(plain_options());
    let mut engine = MockConfig::new("x");
    let request = c.get_config(text("absent"), text("DEFAULT_GROUP"));
    assert_eq!(
        config_content_reply(engine.get(request)),
        Err(BridgeError::Engine(text("ConfigNotFound(\"absent\")")))
    );
    let request = c.get_config_resp(text("absent"), text("DEFAULT_GROUP"));
    assert_eq!(
        config_resp_reply(engine.get(request)),
        Err(BridgeError::Engine(text("ConfigNotFound(\"absent\")")))
    );
    assert_eq!(engine.calls, 2);
}

#[test]
fn transfer_conf_resp_copies_each_field_to_its_namesake() {
    let resp = transfer_conf_resp(ConfigResponse {
        namespace: text("n"),
        data_id: text("d"),
        group: text("g"),
        content: text("c"),
        content_type: text("t"),
        md5: text("m"),
    });
    assert_eq!(
        resp,
        NacosConfigResponse {
            namespace: text("n"),
            data_id: text("d"),
            group: text("g"),
            content: text("c"),
            content_type: text("t"),
            md5: text("m"),
        }
    );
}

#[test]
fn transfer_conf_resp_keeps_empty_texts() {
    let resp = transfer_conf_resp(ConfigResponse {
        namespace: text(""),
        data_id: text("d"),
        group: text("g"),
        content: text(""),
        content_type: text(""),
        md5: text(""),
    });
    assert_eq!(resp.namespace, "");
    assert_eq!(resp.content, "");
    assert_eq!(resp.content_type, "");
    assert_eq!(resp.md5, "");
}

#[test]
fn publish_config_leaves_the_content_type_out() {
    let c = NacosConfigClient::new(plain_options());
    let request = c.publish_config(text("db.url"), text("g"), text("jdbc:mysql://y"));
    assert_eq!(
        request,
        ConfigRequest::PublishConfig {
            data_id: text("db.url"),
            group: text("g"),
            content: text("jdbc:mysql://y"),
            content_type: None,
        }
    );
    let mut engine = MockConfig::new("jdbc:mysql://x");
    assert_eq!(engine_result(engine.change(request)), Ok(true));
    assert_eq!(engine.content, "jdbc:mysql://y");
}

#[test]
fn a_refused_publication_reaches_the_host_as_an_engine_failure() {
    let c = NacosConfigClient::new(plain_options());
    let mut engine = MockConfig::new("x");
    let request = c.publish_config(text("db.url"), text("g"), text(""));
    assert_eq!(
        engine_result(engine.change(request)),
        Err(BridgeError::Engine(text("InvalidParam(\"content\", \"blank\")")))
    );
}

#[test]
fn remove_config_passes_the_answer_through() {
    let c = NacosConfigClient::new(plain_options());
    let mut engine = MockConfig::new("x");
    let request = c.remove_config(text("db.url"), text("g"));
    assert_eq!(request, ConfigRequest::RemoveConfig { data_id: text("db.url"), group: text("g") });
    assert_eq!(engine_result(engine.change(request)), Ok(true));
    let request = c.remove_config(text("other"), text("g"));
    assert_eq!(engine_result(engine.change(request)), Ok(false));
}

#[test]
fn add_listener_hands_the_callable_to_the_sdk() {
    let c = NacosConfigClient::new(plain_options());
    let request =
        c.add_listener(text("db.url"), text("g"), HostObject { handle: 5, callable: true });
    assert_eq!(
        request,
        Ok(ConfigRequest::AddListener {
            data_id: text("db.url"),
            group: text("g"),
            listener: NacosConfigChangeListener::new(5),
        })
    );
}

#[test]
fn add_listener_refuses_a_non_callable_before_any_sdk_call() {
    let c = NacosConfigClient::new(plain_options());
    let mut engine = MockConfig::new("x");
    let listener = HostObject { handle: 5, callable: false };
    match c.add_listener(text("db.url"), text("g"), listener) {
        Ok(request) => {
            let _ = engine.listen(request);
        }
        Err(e) => {
            assert_eq!(e, BridgeError::Argument(text("Arg `listener` must be a callable")));
        }
    }
    assert_eq!(engine.calls, 0);
    assert!(engine.listeners.is_empty());
}

#[test]
fn remove_listener_succeeds_and_the_listener_is_still_notified() {
    let c = NacosConfigClient::new(plain_options());
    let mut engine = MockConfig::new("x");
    let listener = HostObject { handle: 5, callable: true };
    let request = c.add_listener(text("db.url"), text("DEFAULT_GROUP"), listener).unwrap();
    engine.listen(request).unwrap();

    assert_eq!(c.remove_listener(text("db.url"), text("DEFAULT_GROUP"), listener), Ok(()));
    assert_eq!(engine.calls, 1);
    assert_eq!(engine.listeners.len(), 1);

    let invocations = engine.fire(entry("jdbc:mysql://z"));
    assert_eq!(invocations.len(), 1);
    assert_eq!(invocations[0].func, 5);
    assert_eq!(invocations[0].config_resp.content, "jdbc:mysql://z");
}

#[test]
fn notify_invokes_the_callable_with_the_marshalled_entry() {
    let listener = NacosConfigChangeListener::new(8);
    let invocation = listener.notify(entry("a=1"));
    assert_eq!(
        invocation,
        ConfigInvocation { func: 8, config_resp: transfer_conf_resp(entry("a=1")) }
    );
    assert_eq!(invocation.config_resp.data_id, "db.url");
    assert_eq!(invocation.config_resp.content, "a=1");
}
