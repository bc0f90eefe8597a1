use std::collections::HashMap;

use vstd::prelude::*;

use crate::error::GraphQLError;
use crate::outside::{
    all_proxy, all_proxy_accepts, error_details, proxy_basic_auth, http_proxy, http_proxy_accepts, https_proxy,
    https_proxy_accepts,
};

verus! {

/// How a client is set up.
#[derive(Clone, Debug)]
pub struct ClientConfig {
    /// the address of the GraphQL server
    pub endpoint: String,
    /// the time a query may take, in seconds
    pub timeout: Option<u64>,
    /// headers sent with every request
    pub headers: Option<HashMap<String, String>>,
    /// the proxy that requests go through
    pub proxy: Option<GQLProxy>,
}

/// Which traffic a proxy takes.
#[derive(Clone, Copy, Debug, PartialEq, Eq)]
pub enum ProxyType {
    Http,
    Https,
    All,
}

/// Credentials for a proxy, sent as basic authentication.
#[derive(Clone, Debug)]
pub struct ProxyAuth {
    pub username: String,
    pub password: String,
}

/// A proxy for the client's requests.
#[derive(Clone, Debug)]
pub struct GQLProxy {
    /// the address of the proxy
    pub schema: String,
    /// which traffic goes through it
    pub type_: ProxyType,
    /// its credentials, if it asks for any
    pub auth: Option<ProxyAuth>,
}

/// The seconds a query may take where the configuration names no timeout.
pub const DEFAULT_TIMEOUT_SECS: u64 = 5;

/// Whether the transport accepts the address of a proxy of the given kind.
pub open spec fn proxy_accepted(kind: ProxyType, url: Seq<char>) -> bool {
    match kind {
        ProxyType::Http => http_proxy_accepts(url),
        ProxyType::Https => https_proxy_accepts(url),
        ProxyType::All => all_proxy_accepts(url),
    }
}

impl GQLProxy {
    /// The transport's proxy for this description, with its credentials where
    /// it has any; an error where the transport cannot use the address.
    pub fn to_proxy(&self) -> (r: Result<reqwest::Proxy, GraphQLError>)
        ensures
            r is Ok <==> proxy_accepted(self.type_, self.schema@),
            r is Err ==> r->Err_0@.json is None,
            r matches Ok(p) ==> (self.auth matches Some(a) ==> proxy_basic_auth(p) == Some(
                a.username@ + ":"@ + a.password@,
            )),
    {
        let made = match self.type_ {
            ProxyType::Http => http_proxy(self.schema.as_str()),
            ProxyType::Https => https_proxy(self.schema.as_str()),
            ProxyType::All => all_proxy(self.schema.as_str()),
        };
        match made {
            Ok(proxy) => match &self.auth {
                Some(auth) => Ok(proxy.basic_auth(auth.username.as_str(), auth.password.as_str())),
                None => Ok(proxy),
            },
            Err(e) => Err(GraphQLError::with_text(error_details(&e).as_str())),
        }
    }
}

} // verus!
