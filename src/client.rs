use std::collections::HashMap;

use vstd::prelude::*;
use vstd::string::StringExecFns;

use crate::error::{ErrorView, GraphQLError};
use crate::outside::{endpoint_parts, parse_endpoint, proxy_basic_auth, quote_json};
use crate::protocol::{request_body, result_view, text_error, OutboundRequest, QuerySession};
use crate::types::{proxy_accepted, ClientConfig, DEFAULT_TIMEOUT_SECS};

verus! {

/// A GraphQL client: its configuration, fixed once it is made.
#[derive(Clone, Debug)]
pub struct GQLClient {
    config: ClientConfig,
}

impl View for GQLClient {
    type V = ClientConfig;

    closed spec fn view(&self) -> ClientConfig {
        self.config
    }
}

/// What the transport is built with.
pub struct TransportSettings {
    /// the time a query may take, in seconds
    pub timeout_secs: u64,
    /// the proxy that requests go through
    pub proxy: Option<reqwest::Proxy>,
}

/// The start of the message of an endpoint that is no URL with a host.
pub open spec fn wrong_endpoint_message(endpoint: Seq<char>) -> Seq<char> {
    "Wrong endpoint: "@ + endpoint
}

/// The message of an unwrapping query whose response held no data.
pub open spec fn no_data_message(endpoint: Seq<char>) -> Seq<char> {
    "no data returned by server for this query, endpoint="@ + endpoint
}

/// What the unwrapping queries make of a query's result: data that is absent
/// becomes an error that names the endpoint.
pub open spec fn unwrapped<K>(endpoint: Seq<char>, r: Result<Option<K>, ErrorView>) -> Result<
    K,
    ErrorView,
> {
    match r {
        Ok(Some(v)) => Ok(v),
        Ok(None) => Err(text_error(no_data_message(endpoint))),
        Err(e) => Err(e),
    }
}

/// Whether an endpoint parses as a URL with a host.
pub open spec fn endpoint_usable(endpoint: Seq<char>) -> bool {
    endpoint_parts(endpoint) matches Some((_, Some(_)))
}

impl GQLClient {
    /// A client for `endpoint`, with no headers, the default timeout and no proxy.
    pub fn new(endpoint: &str) -> (r: Self)
        ensures
            r@.endpoint@ == endpoint@,
            r@.timeout is None,
            r@.headers is None,
            r@.proxy is None,
    {
        GQLClient {
            config: ClientConfig {
                endpoint: String::from_str(endpoint),
                timeout: None,
                headers: None,
                proxy: None,
            },
        }
    }

    /// A client for `endpoint` that sends `headers` with every request.
    pub fn new_with_headers(endpoint: &str, headers: HashMap<String, String>) -> (r: Self)
        ensures
            r@.endpoint@ == endpoint@,
            r@.timeout is None,
            r@.headers == Some(headers),
            r@.proxy is None,
    {
        GQLClient {
            config: ClientConfig {
                endpoint: String::from_str(endpoint),
                timeout: None,
                headers: Some(headers),
                proxy: None,
            },
        }
    }

    /// A client with the given configuration.
    pub fn new_with_config(config: ClientConfig) -> (r: Self)
        ensures
            r@ == config,
    {
        GQLClient { config }
    }

    /// The configuration of the client.
    pub fn config(&self) -> (r: &ClientConfig)
        ensures
            *r == self@,
    {
        &self.config
    }

    /// What the transport is built with: the configured timeout or the
    /// default one, and the configured proxy, turned into the transport's own.
    /// Fails where the transport cannot use the proxy's address.
    pub fn transport_settings(&self) -> (r: Result<TransportSettings, GraphQLError>)
        ensures
            r is Ok <==> match self@.proxy {
                Some(p) => proxy_accepted(p.type_, p.schema@),
                None => true,
            },
            r matches Ok(t) ==> t.timeout_secs == match self@.timeout {
                Some(n) => n,
                None => DEFAULT_TIMEOUT_SECS,
            } && (t.proxy is Some <==> self@.proxy is Some),
            r matches Ok(t) ==> (self@.proxy matches Some(gp) ==> (gp.auth matches Some(a) ==> (
            t.proxy matches Some(p) && proxy_basic_auth(p) == Some(a.username@ + ":"@ + a.password@)))),
            r matches Err(e) ==> e@.json is None,
    {
        let timeout_secs = match self.config.timeout {
            Some(n) => n,
            None => DEFAULT_TIMEOUT_SECS,
        };
        let proxy = match &self.config.proxy {
            Some(p) => match p.to_proxy() {
                Ok(made) => Some(made),
                Err(e) => {
                    return Err(e);
                },
            },
            None => None,
        };
        Ok(TransportSettings { timeout_secs, proxy })
    }

    /// Starts a query: reads the scheme and host of the endpoint, and writes the
    /// request body from the query and the JSON text of its variables. Fails
    /// where the endpoint is no URL with a host.
    pub fn start_query(&self, query: &str, variables: &str) -> (r: Result<QuerySession, GraphQLError>)
        ensures
            r is Ok <==> endpoint_usable(self@.endpoint@),
            r matches Ok(s) ==> {
                &&& endpoint_parts(self@.endpoint@) == Some((s.scheme@, Some(s.host@)))
                &&& s.original@ == self@.endpoint@
                &&& s.endpoint@ == self@.endpoint@
                &&& s.hops == 1
                &&& s.body@ == request_body(query@, variables@)
            },
            r matches Err(e) ==> e@.json is None && e@.message.len() >= wrong_endpoint_message(
                self@.endpoint@,
            ).len() && e@.message.subrange(
                0,
                wrong_endpoint_message(self@.endpoint@).len() as int,
            ) == wrong_endpoint_message(self@.endpoint@),
    {
        let endpoint = self.config.endpoint.as_str();
        let mut m = String::from_str("Wrong endpoint: ");
        m.append(endpoint);
        let ghost prefix = m@;
        match parse_endpoint(endpoint) {
            Err(details) => {
                m.append(". ");
                m.append(details.as_str());
                assert(m@.subrange(0, prefix.len() as int) =~= prefix);
                Err(GraphQLError::with_text(m.as_str()))
            },
            Ok((_, None)) => {
                assert(m@.subrange(0, prefix.len() as int) =~= prefix);
                Err(GraphQLError::with_text(m.as_str()))
            },
            Ok((scheme, Some(host))) => {
                let mut body = String::from_str("{\"query\":");
                let quoted = quote_json(query);
                body.append(quoted.as_str());
                body.append(",\"variables\":");
                body.append(variables);
                body.append("}");
                Ok(
                    QuerySession {
                        original: String::from_str(endpoint),
                        scheme,
                        host,
                        endpoint: String::from_str(endpoint),
                        hops: 1,
                        body,
                    },
                )
            },
        }
    }

    /// The request to send next in a session: to the session's endpoint, with
    /// its body and with the client's headers as they were configured.
    pub fn outbound(&self, session: &QuerySession) -> (r: OutboundRequest)
        ensures
            r.url@ == session.endpoint@,
            r.body@ == session.body@,
            r.headers is Some <==> self@.headers is Some,
            r.headers matches Some(h) ==> h@ == self@.headers->Some_0@,
    {
        let headers = match &self.config.headers {
            Some(h) => Some(h.clone()),
            None => None,
        };
        OutboundRequest {
            url: session.endpoint.clone(),
            body: session.body.clone(),
            headers,
        }
    }

    /// The result of an unwrapping query: absent data becomes an error that
    /// names the endpoint; anything else is kept.
    pub fn require_data<K>(&self, result: Result<Option<K>, GraphQLError>) -> (r: Result<K, GraphQLError>)
        ensures
            result_view(r) == unwrapped(self@.endpoint@, result_view(result)),
    {
        match result {
            Ok(Some(v)) => Ok(v),
            Ok(None) => {
                let mut m = String::from_str("no data returned by server for this query, endpoint=");
                m.append(self.config.endpoint.as_str());
                Err(GraphQLError::with_text(m.as_str()))
            },
            Err(e) => Err(e),
        }
    }
}

} // verus!
