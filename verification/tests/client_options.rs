use nacos_binding::auth::AuthStrategy;
use nacos_binding::props::{ClientKind, ClientProperties};
use nacos_binding::ClientOptions;

fn text(s: &str) -> String {
    s.to_string()
}

fn options(
    username: Option<&str>,
    password: Option<&str>,
    access_key: Option<&str>,
    access_secret: Option<&str>,
    region: Option<&str>,
) -> ClientOptions {
    ClientOptions::new(
        text("127.0.0.1:8848"),
        text("public"),
        None,
        username.map(text),
        password.map(text),
        access_key.map(text),
        access_secret.map(text),
        region.map(text),
        None,
        None,
    )
}

#[test]
fn new_keeps_every_field() {
    let o = ClientOptions::new(
        text("10.0.0.1:8848,10.0.0.2:8848"),
        text("tenant"),
        Some(text("app")),
        Some(text("user")),
        Some(text("pass")),
        Some(text("ak")),
        Some(text("sk")),
        Some(text("cn-hangzhou")),
        Some(false),
        Some(true),
    );
    assert_eq!(o.server_addr, "10.0.0.1:8848,10.0.0.2:8848");
    assert_eq!(o.namespace, "tenant");
    assert_eq!(o.app_name.as_deref(), Some("app"));
    assert_eq!(o.username.as_deref(), Some("user"));
    assert_eq!(o.password.as_deref(), Some("pass"));
    assert_eq!(o.access_key.as_deref(), Some("ak"));
    assert_eq!(o.access_secret.as_deref(), Some("sk"));
    assert_eq!(o.signature_region_id.as_deref(), Some("cn-hangzhou"));
    assert_eq!(o.naming_push_empty_protection, Some(false));
    assert_eq!(o.naming_load_cache_at_start, Some(true));
}

#[test]
fn getnewargs_rebuilds_an_equal_record() {
    let o = ClientOptions::new(
        text("127.0.0.1:8848"),
        text("public"),
        Some(text("app")),
        Some(text("user")),
        None,
        None,
        Some(text("sk")),
        None,
        None,
        Some(true),
    );
    let (a, b, c, d, e, f, g, h, i, j) = o.__getnewargs__();
    let again = ClientOptions::new(a, b, c, d, e, f, g, h, i, j);
    assert_eq!(again, o);
}

#[test]
fn no_credentials_select_no_auth() {
    let o = options(None, None, None, None, None);
    assert_eq!(AuthStrategy::select(&o), AuthStrategy::NoAuth);
}

#[test]
fn username_and_password_select_http_basic() {
    let o = options(Some("nacos"), Some("secret"), None, None, None);
    assert_eq!(
        AuthStrategy::select(&o),
        AuthStrategy::HttpBasic { username: text("nacos"), password: text("secret") }
    );
}

#[test]
fn access_key_secret_and_region_select_aliyun_ram() {
    let o = options(None, None, Some("ak"), Some("sk"), Some("cn-hangzhou"));
    assert_eq!(
        AuthStrategy::select(&o),
        AuthStrategy::AliyunRam {
            access_key: text("ak"),
            access_secret: text("sk"),
            region: text("cn-hangzhou"),
        }
    );
}

#[test]
fn http_basic_wins_when_both_schemes_are_complete() {
    let o = options(Some("nacos"), Some("secret"), Some("ak"), Some("sk"), Some("cn-hangzhou"));
    assert_eq!(
        AuthStrategy::select(&o),
        AuthStrategy::HttpBasic { username: text("nacos"), password: text("secret") }
    );
}

#[test]
fn http_basic_wins_whatever_part_of_the_ram_fields_is_present() {
    let expected = AuthStrategy::HttpBasic { username: text("u"), password: text("p") };
    let partial = [
        (Some("ak"), None, None),
        (None, Some("sk"), None),
        (None, None, Some("r")),
        (Some("ak"), Some("sk"), None),
        (Some("ak"), None, Some("r")),
        (None, Some("sk"), Some("r")),
    ];
    for (ak, sk, region) in partial {
        let o = options(Some("u"), Some("p"), ak, sk, region);
        assert_eq!(AuthStrategy::select(&o), expected);
    }
}

#[test]
fn username_alone_selects_no_auth() {
    let o = options(Some("nacos"), None, None, None, None);
    assert_eq!(AuthStrategy::select(&o), AuthStrategy::NoAuth);
}

#[test]
fn password_alone_selects_no_auth() {
    let o = options(None, Some("secret"), None, None, None);
    assert_eq!(AuthStrategy::select(&o), AuthStrategy::NoAuth);
}

#[test]
fn incomplete_ram_fields_select_no_auth() {
    for (ak, sk, region) in [
        (Some("ak"), Some("sk"), None),
        (Some("ak"), None, Some("r")),
        (None, Some("sk"), Some("r")),
        (Some("ak"), None, None),
    ] {
        let o = options(None, None, ak, sk, region);
        assert_eq!(AuthStrategy::select(&o), AuthStrategy::NoAuth);
    }
}

#[test]
fn incomplete_http_fields_fall_through_to_aliyun_ram() {
    let o = options(Some("nacos"), None, Some("ak"), Some("sk"), Some("r"));
    assert_eq!(
        AuthStrategy::select(&o),
        AuthStrategy::AliyunRam {
            access_key: text("ak"),
            access_secret: text("sk"),
            region: text("r"),
        }
    );
}

#[test]
fn empty_credentials_count_as_present() {
    let o = options(Some(""), Some(""), None, None, None);
    assert_eq!(
        AuthStrategy::select(&o),
        AuthStrategy::HttpBasic { username: text(""), password: text("") }
    );
}

#[test]
fn app_name_defaults_to_the_sdk_constant() {
    let o = options(None, None, None, None, None);
    let props = ClientProperties::resolve(o, ClientKind::Config);
    assert_eq!(props.app_name, "unknown");
    assert_eq!(props.app_name, nacos_sdk::api::constants::UNKNOWN);
}

#[test]
fn app_name_is_kept_when_given() {
    let mut o = options(None, None, None, None, None);
    o.app_name = Some(text("orders"));
    let props = ClientProperties::resolve(o, ClientKind::Naming);
    assert_eq!(props.app_name, "orders");
}

#[test]
fn address_and_namespace_are_not_validated() {
    let mut o = options(None, None, None, None, None);
    o.server_addr = text("   ");
    o.namespace = text("");
    let props = ClientProperties::resolve(o, ClientKind::Config);
    assert_eq!(props.server_addr, "   ");
    assert_eq!(props.namespace, "");
}

#[test]
fn naming_flags_default_to_true_and_false() {
    let o = options(None, None, None, None, None);
    let props = ClientProperties::resolve(o, ClientKind::Naming);
    assert!(props.naming_push_empty_protection);
    assert!(!props.naming_load_cache_at_start);
}

#[test]
fn naming_client_takes_the_flags_from_the_options() {
    let mut o = options(None, None, None, None, None);
    o.naming_push_empty_protection = Some(false);
    o.naming_load_cache_at_start = Some(true);
    let props = ClientProperties::resolve(o, ClientKind::Naming);
    assert!(!props.naming_push_empty_protection);
    assert!(props.naming_load_cache_at_start);
}

#[test]
fn config_client_keeps_the_default_flags() {
    let mut o = options(None, None, None, None, None);
    o.naming_push_empty_protection = Some(false);
    o.naming_load_cache_at_start = Some(true);
    let props = ClientProperties::resolve(o, ClientKind::Config);
    assert!(props.naming_push_empty_protection);
    assert!(!props.naming_load_cache_at_start);
}

#[test]
fn resolve_selects_the_strategy_of_the_options() {
    let o = options(Some("u"), Some("p"), Some("ak"), Some("sk"), Some("r"));
    let expected = AuthStrategy::select(&o);
    let props = ClientProperties::resolve(o, ClientKind::Naming);
    assert_eq!(props.auth, expected);
}
