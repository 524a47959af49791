//! Which authentication scheme a set of client options selects.

use vstd::prelude::*;
use crate::options::{ClientOptions, ClientOptionsView};

verus! {

/// The authentication scheme of a client. It is chosen once, when the client
/// is built, and exactly one scheme is active.
#[derive(Clone, Debug, PartialEq, Eq)]
pub enum AuthStrategy {
    /// No authentication.
    NoAuth,
    /// HTTP login with a user name and a password.
    HttpBasic { username: String, password: String },
    /// RAM authentication with an access key, its secret and a region.
    AliyunRam { access_key: String, access_secret: String, region: String },
}

/// `AuthStrategy` with each text as a sequence of characters.
pub enum AuthStrategyView {
    NoAuth,
    HttpBasic { username: Seq<char>, password: Seq<char> },
    AliyunRam { access_key: Seq<char>, access_secret: Seq<char>, region: Seq<char> },
}

impl View for AuthStrategy {
    type V = AuthStrategyView;

    open spec fn view(&self) -> AuthStrategyView {
        match self {
            AuthStrategy::NoAuth => AuthStrategyView::NoAuth,
            AuthStrategy::HttpBasic { username, password } => AuthStrategyView::HttpBasic {
                username: username@,
                password: password@,
            },
            AuthStrategy::AliyunRam { access_key, access_secret, region } => {
                AuthStrategyView::AliyunRam {
                    access_key: access_key@,
                    access_secret: access_secret@,
                    region: region@,
                }
            },
        }
    }
}

/// The scheme that the options select.
///
/// HTTP login needs the user name and the password. RAM authentication needs
/// the access key, the secret and the region. HTTP login is tried first, so
/// it wins where both groups are complete; an incomplete group selects
/// nothing, and is no error.
pub open spec fn spec_select(options: ClientOptionsView) -> AuthStrategyView {
    if options.username is Some && options.password is Some {
        AuthStrategyView::HttpBasic {
            username: options.username->0,
            password: options.password->0,
        }
    } else if options.access_key is Some && options.access_secret is Some
        && options.signature_region_id is Some {
        AuthStrategyView::AliyunRam {
            access_key: options.access_key->0,
            access_secret: options.access_secret->0,
            region: options.signature_region_id->0,
        }
    } else {
        AuthStrategyView::NoAuth
    }
}

impl AuthStrategy {
    /// Selects the scheme for the given options.
    pub fn select(options: &ClientOptions) -> (strategy: AuthStrategy)
        ensures
            strategy@ == spec_select(options@),
    {
        match (&options.username, &options.password) {
            (Some(username), Some(password)) => {
                return AuthStrategy::HttpBasic {
                    username: username.clone(),
                    password: password.clone(),
                };
            },
            _ => {},
        }
        match (&options.access_key, &options.access_secret, &options.signature_region_id) {
            (Some(access_key), Some(access_secret), Some(region)) => AuthStrategy::AliyunRam {
                access_key: access_key.clone(),
                access_secret: access_secret.clone(),
                region: region.clone(),
            },
            _ => AuthStrategy::NoAuth,
        }
    }
}

/// HTTP login takes precedence: where a user name and a password are both
/// present, the selected scheme is HTTP login with exactly these two,
/// whatever the access key, the secret and the region hold.
pub proof fn lemma_http_basic_precedence(options: ClientOptionsView)
    requires
        options.username is Some,
        options.password is Some,
    ensures
        spec_select(options) == (AuthStrategyView::HttpBasic {
            username: options.username->0,
            password: options.password->0,
        }),
{
}

/// An incomplete credential set is not rejected: with no complete group the
/// selection is `NoAuth`.
pub proof fn lemma_partial_credentials_select_none(options: ClientOptionsView)
    requires
        options.username is None || options.password is None,
        options.access_key is None || options.access_secret is None
            || options.signature_region_id is None,
    ensures
        spec_select(options) == AuthStrategyView::NoAuth,
{
}

} // verus!
