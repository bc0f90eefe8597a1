//! Properties of the protocol that hold for every response.

use vstd::prelude::*;

use crate::client::{no_data_message, unwrapped};
use crate::error::{json_note, messages_view, ErrorView};
use crate::protocol::{
    classified, hops_after, is_success_status, status_message, text_error, ResponseEnvelope,
    MAX_REQUESTS,
};

verus! {

/// Under a success status, an error list that is present, empty or not, makes
/// the query fail with that list, and no data comes back, even where the
/// envelope holds data too.
pub proof fn errors_take_precedence<K>(status: u16, body: Seq<char>, env: ResponseEnvelope<K>)
    requires
        is_success_status(status),
        env.errors is Some,
    ensures
        classified(status, body, Ok::<ResponseEnvelope<K>, String>(env)) == Err::<Option<K>, ErrorView>(
            ErrorView { message: json_note(), json: Some(messages_view(env.errors->Some_0@)) },
        ),
{
}

/// Under a status that is no success, the query fails with an error that names
/// the status and keeps the server's error list, whatever the envelope holds.
pub proof fn status_takes_precedence<K>(status: u16, body: Seq<char>, env: ResponseEnvelope<K>)
    requires
        !is_success_status(status),
    ensures
        classified(status, body, Ok::<ResponseEnvelope<K>, String>(env)) matches Err(e) && e.message
            == status_message(status) && e.json == Some(
            match env.errors {
                Some(list) => messages_view(list@),
                None => Seq::empty(),
            },
        ),
{
}

/// An envelope with neither data nor errors, under a success status, is an
/// empty result for the plain queries and an error for the unwrapping ones.
pub proof fn missing_data_is_not_an_error<K>(
    status: u16,
    body: Seq<char>,
    endpoint: Seq<char>,
    env: ResponseEnvelope<K>,
)
    requires
        is_success_status(status),
        env.data is None,
        env.errors is None,
    ensures
        classified(status, body, Ok::<ResponseEnvelope<K>, String>(env)) == Ok::<
            Option<K>,
            ErrorView,
        >(None),
        unwrapped(endpoint, classified(status, body, Ok::<ResponseEnvelope<K>, String>(env)))
            == Err::<K, ErrorView>(text_error(no_data_message(endpoint))),
{
}

/// Where every response is a redirect, a query follows them while it has sent
/// fewer than ten requests, and gives up at the tenth redirect: it never loops
/// for ever.
pub proof fn redirects_are_bounded(n: nat)
    ensures
        n < MAX_REQUESTS ==> hops_after(1, n) == Some((n + 1) as u64),
        n >= MAX_REQUESTS ==> hops_after(1, n) is None,
    decreases n,
{
    if n > 0 {
        redirects_are_bounded((n - 1) as nat);
    }
}

} // verus!
