//! The per-request check of the `service_id` query parameter against the
//! deployment topology.

use vstd::prelude::*;

use crate::endpoint::Endpoint;

verus! {

#[verifier::external_type_specification]
#[verifier::external_body]
pub struct ExQueryPayloadError(actix_web::error::QueryPayloadError);

/// The decoded key/value pairs of a url-encoded query string, in order.
pub uninterp spec fn query_pairs(query: Seq<char>) -> Seq<(Seq<char>, Seq<char>)>;

/// Relies on `actix_web::web::Query::from_query`, read as a sequence of
/// string pairs: it holds the decoded pairs of the query string. Read this
/// way decoding cannot fail, since every key and value is taken as a string
/// and invalid UTF-8 is decoded lossily.
#[verifier::external_body]
fn decode_query(query_string: &str) -> (r: Result<
    Vec<(String, String)>,
    actix_web::error::QueryPayloadError,
>)
    ensures
        r is Ok,
        r is Ok ==> pair_views(r->Ok_0@) == query_pairs(query_string@),
{
    match actix_web::web::Query::<Vec<(String, String)>>::from_query(query_string) {
        Ok(query) => Ok(query.into_inner()),
        Err(err) => Err(err),
    }
}

/// Why a request was turned away before reaching its handler.
#[derive(Clone, Copy, Debug, PartialEq, Eq, Structural)]
pub enum RequestValidationError {
    /// The server was built without a deployment topology.
    StateNotFound,
    /// The query string could not be read as the expected parameters.
    MalformedQuery,
    /// A service id came with a request to a shared-ledger server.
    ServiceIdInSharedLedger,
    /// No service id came with a request to a circuit-scoped server.
    ServiceIdMissing,
}

impl RequestValidationError {
    /// The HTTP status the request is answered with.
    pub fn status_code(&self) -> (r: u16)
        ensures
            r == status_of(*self),
    {
        match self {
            RequestValidationError::StateNotFound => 500,
            _ => 400,
        }
    }

    /// The text of the response body.
    pub fn message(&self) -> (r: &'static str)
        ensures
            r@ == error_message(*self),
    {
        match self {
            RequestValidationError::StateNotFound => "App state not found",
            RequestValidationError::MalformedQuery => "Malformed query param",
            RequestValidationError::ServiceIdInSharedLedger => {
                "Circuit ID present, but grid is running in sawtooth mode"
            },
            RequestValidationError::ServiceIdMissing => {
                "Circuit ID is not present, but grid is running in splinter mode"
            },
        }
    }
}

/// The HTTP status of each rejection: a server without a topology is at
/// fault; every other rejection is the client's.
pub open spec fn status_of(e: RequestValidationError) -> u16 {
    if e is StateNotFound {
        500
    } else {
        400
    }
}

/// The response text of each rejection.
pub open spec fn error_message(e: RequestValidationError) -> Seq<char> {
    match e {
        RequestValidationError::StateNotFound => "App state not found"@,
        RequestValidationError::MalformedQuery => "Malformed query param"@,
        RequestValidationError::ServiceIdInSharedLedger => {
            "Circuit ID present, but grid is running in sawtooth mode"@
        },
        RequestValidationError::ServiceIdMissing => {
            "Circuit ID is not present, but grid is running in splinter mode"@
        },
    }
}

/// The name of the query parameter that carries the circuit id.
pub open spec fn service_id_key() -> Seq<char> {
    "service_id"@
}

/// The pairs of a decoded query, as character sequences.
pub open spec fn pair_views(pairs: Seq<(String, String)>) -> Seq<(Seq<char>, Seq<char>)> {
    pairs.map_values(|p: (String, String)| (p.0@, p.1@))
}

/// An optional string, as an optional character sequence.
pub open spec fn opt_view(o: Option<String>) -> Option<Seq<char>> {
    match o {
        Some(s) => Some(s@),
        None => None,
    }
}

/// How many pairs have the given key.
pub open spec fn key_count(pairs: Seq<(Seq<char>, Seq<char>)>, key: Seq<char>) -> nat
    decreases pairs.len(),
{
    if pairs.len() == 0 {
        0
    } else {
        key_count(pairs.drop_last(), key) + if pairs.last().0 == key {
            1nat
        } else {
            0nat
        }
    }
}

/// The value of the last pair with the given key, if any.
pub open spec fn value_of(pairs: Seq<(Seq<char>, Seq<char>)>, key: Seq<char>) -> Option<
    Seq<char>,
>
    decreases pairs.len(),
{
    if pairs.len() == 0 {
        None
    } else if pairs.last().0 == key {
        Some(pairs.last().1)
    } else {
        value_of(pairs.drop_last(), key)
    }
}

/// What a query's pairs give for the `service_id` field: `None` when the
/// field is repeated (the query is malformed), else the field's value if it
/// is present. Other keys are ignored.
pub open spec fn parsed_service_id(pairs: Seq<(Seq<char>, Seq<char>)>) -> Option<
    Option<Seq<char>>,
> {
    if key_count(pairs, service_id_key()) >= 2 {
        None
    } else {
        Some(value_of(pairs, service_id_key()))
    }
}

/// The validation matrix: a service id is accepted exactly when the server is
/// circuit-scoped, and its absence exactly when the ledger is shared.
pub open spec fn mode_decision(endpoint: Endpoint, service_id: Option<Seq<char>>) -> Result<
    Option<Seq<char>>,
    RequestValidationError,
> {
    match (service_id, endpoint) {
        (Some(_), Endpoint::SharedLedger) => Err(RequestValidationError::ServiceIdInSharedLedger),
        (None, Endpoint::CircuitScoped) => Err(RequestValidationError::ServiceIdMissing),
        _ => Ok(service_id),
    }
}

/// The whole decision for a request: a missing topology first, then a
/// malformed query, then the matrix.
pub open spec fn guard_decision(
    endpoint: Option<Endpoint>,
    parsed: Option<Option<Seq<char>>>,
) -> Result<Option<Seq<char>>, RequestValidationError> {
    match endpoint {
        None => Err(RequestValidationError::StateNotFound),
        Some(e) => match parsed {
            None => Err(RequestValidationError::MalformedQuery),
            Some(id) => mode_decision(e, id),
        },
    }
}

/// The query parameters the guard reads.
#[derive(Debug)]
pub struct QueryServiceId {
    pub service_id: Option<String>,
}

impl QueryServiceId {
    /// Reads the `service_id` field out of decoded query pairs.
    pub fn from_pairs(pairs: &Vec<(String, String)>) -> (r: Result<
        QueryServiceId,
        RequestValidationError,
    >)
        ensures
            match parsed_service_id(pair_views(pairs@)) {
                None => r == Err::<QueryServiceId, _>(RequestValidationError::MalformedQuery),
                Some(id) => r is Ok && opt_view(r->Ok_0.service_id) == id,
            },
    {
        let ghost pv = pair_views(pairs@);
        let key = "service_id".to_owned();
        let mut found: Option<String> = None;
        let mut seen: usize = 0;
        let mut i: usize = 0;
        while i < pairs.len()
            invariant
                i <= pairs.len(),
                pv == pair_views(pairs@),
                key@ == service_id_key(),
                seen <= 2,
                seen == (if key_count(pv.take(i as int), key@) >= 2 {
                    2
                } else {
                    key_count(pv.take(i as int), key@)
                }),
                opt_view(found) == value_of(pv.take(i as int), key@),
            decreases pairs.len() - i,
        {
            let ghost prefix = pv.take(i as int);
            assert(pv.take(i + 1).drop_last() =~= prefix);
            assert(pv.take(i + 1).last() == pv[i as int]);
            if pairs[i].0 == key {
                found = Some(pairs[i].1.clone());
                if seen < 2 {
                    seen = seen + 1;
                }
            }
            i = i + 1;
        }
        assert(pv.take(pairs.len() as int) =~= pv);
        if seen >= 2 {
            Err(RequestValidationError::MalformedQuery)
        } else {
            Ok(QueryServiceId { service_id: found })
        }
    }
}

impl QueryServiceId {
    /// Decodes a raw query string and reads its `service_id` field.
    pub fn from_query(query_string: &str) -> (r: Result<QueryServiceId, RequestValidationError>)
        ensures
            match parsed_service_id(query_pairs(query_string@)) {
                None => r == Err::<QueryServiceId, _>(RequestValidationError::MalformedQuery),
                Some(id) => r is Ok && opt_view(r->Ok_0.service_id) == id,
            },
    {
        match decode_query(query_string) {
            Ok(pairs) => QueryServiceId::from_pairs(&pairs),
            Err(_) => Err(RequestValidationError::MalformedQuery),
        }
    }
}

/// The token a request carries past the guard: the circuit it is scoped to,
/// if the server is circuit-scoped.
#[derive(Debug)]
pub struct AcceptServiceIdParam {
    pub service_id: Option<String>,
}

/// What the guard's result says, as character sequences.
pub open spec fn accepted_view(r: Result<AcceptServiceIdParam, RequestValidationError>) -> Result<
    Option<Seq<char>>,
    RequestValidationError,
> {
    match r {
        Ok(a) => Ok(opt_view(a.service_id)),
        Err(e) => Err(e),
    }
}

impl AcceptServiceIdParam {
    /// Applies the validation matrix to a request's parsed parameters.
    pub fn check(endpoint: Endpoint, query: QueryServiceId) -> (r: Result<
        AcceptServiceIdParam,
        RequestValidationError,
    >)
        ensures
            accepted_view(r) == mode_decision(endpoint, opt_view(query.service_id)),
    {
        let present = query.service_id.is_some();
        if present && endpoint.is_shared_ledger() {
            Err(RequestValidationError::ServiceIdInSharedLedger)
        } else if !present && !endpoint.is_shared_ledger() {
            Err(RequestValidationError::ServiceIdMissing)
        } else {
            Ok(AcceptServiceIdParam { service_id: query.service_id })
        }
    }

    /// Runs the guard on a request whose query is already decoded into pairs.
    pub fn from_pairs(endpoint: Option<Endpoint>, pairs: &Vec<(String, String)>) -> (r: Result<
        AcceptServiceIdParam,
        RequestValidationError,
    >)
        ensures
            accepted_view(r) == guard_decision(endpoint, parsed_service_id(pair_views(pairs@))),
    {
        match endpoint {
            None => Err(RequestValidationError::StateNotFound),
            Some(e) => match QueryServiceId::from_pairs(pairs) {
                Ok(query) => AcceptServiceIdParam::check(e, query),
                Err(err) => Err(err),
            },
        }
    }

    /// Runs the guard on a request: `endpoint` is the topology attached to
    /// the server, `query_string` the request's raw query string.
    pub fn from_request(endpoint: Option<Endpoint>, query_string: &str) -> (r: Result<
        AcceptServiceIdParam,
        RequestValidationError,
    >)
        ensures
            accepted_view(r) == guard_decision(
                endpoint,
                parsed_service_id(query_pairs(query_string@)),
            ),
    {
        match endpoint {
            None => Err(RequestValidationError::StateNotFound),
            Some(e) => match QueryServiceId::from_query(query_string) {
                Ok(query) => AcceptServiceIdParam::check(e, query),
                Err(err) => Err(err),
            },
        }
    }
}

/// The guard's matrix, case by case: a request passes exactly when it carries
/// a service id if and only if the server is circuit-scoped; a passing
/// request forwards its id unchanged; a service id sent to a shared-ledger
/// server and a missing one at a circuit-scoped server are each rejected
/// with their own error.
pub proof fn lemma_guard_matrix(endpoint: Endpoint, service_id: Option<Seq<char>>)
    ensures
        mode_decision(endpoint, service_id) is Ok <==> (service_id is Some
            <==> endpoint.requires_service_id()),
        mode_decision(endpoint, service_id) is Ok ==> mode_decision(endpoint, service_id)
            == Ok::<_, RequestValidationError>(service_id),
        service_id is Some && endpoint is SharedLedger ==> mode_decision(endpoint, service_id)
            == Err::<Option<Seq<char>>, _>(RequestValidationError::ServiceIdInSharedLedger),
        service_id is None && endpoint is CircuitScoped ==> mode_decision(endpoint, service_id)
            == Err::<Option<Seq<char>>, _>(RequestValidationError::ServiceIdMissing),
{
}

/// At a server with a topology, a request is accepted exactly when its query
/// is well formed and carries a service id if and only if the server is
/// circuit-scoped; every rejection there is a client error (400).
pub proof fn lemma_guard_rejections_are_client_errors(
    endpoint: Endpoint,
    parsed: Option<Option<Seq<char>>>,
)
    ensures
        guard_decision(Some(endpoint), parsed) is Ok <==> (parsed is Some && (parsed->Some_0 is Some
            <==> endpoint.requires_service_id())),
        guard_decision(Some(endpoint), parsed) is Err ==> status_of(
            guard_decision(Some(endpoint), parsed)->Err_0,
        ) == 400,
{
}

} // verus!
