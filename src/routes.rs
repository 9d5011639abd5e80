//! The dispatch table: which method and path each handler of the REST API
//! answers.

use vstd::prelude::*;

verus! {

#[derive(Clone, Copy, Debug, PartialEq, Eq, Structural)]
pub enum HttpMethod {
    Get,
    Post,
}

/// The handlers of the REST API, one per route.
#[derive(Clone, Copy, Debug, PartialEq, Eq, Structural)]
pub enum RouteKind {
    SubmitBatches,
    GetBatchStatuses,
    ListAgents,
    FetchAgent,
    ListOrganizations,
    FetchOrganization,
    ListProducts,
    FetchProduct,
    ListGridSchemas,
    FetchGridSchema,
    ListRecords,
    FetchRecord,
    FetchRecordProperty,
}

/// One entry of the table: requests with this method whose path matches
/// this pattern go to this handler.
#[derive(Clone, Copy, Debug)]
pub struct Route {
    pub method: HttpMethod,
    pub path: &'static str,
    pub kind: RouteKind,
    /// The name other handlers build links to this route by, if it has one.
    pub name: Option<&'static str>,
}

/// Every handler, in the order the table lists them.
pub open spec fn route_kinds() -> Seq<RouteKind> {
    seq![
        RouteKind::SubmitBatches,
        RouteKind::GetBatchStatuses,
        RouteKind::ListAgents,
        RouteKind::FetchAgent,
        RouteKind::ListOrganizations,
        RouteKind::FetchOrganization,
        RouteKind::ListProducts,
        RouteKind::FetchProduct,
        RouteKind::ListGridSchemas,
        RouteKind::FetchGridSchema,
        RouteKind::ListRecords,
        RouteKind::FetchRecord,
        RouteKind::FetchRecordProperty,
    ]
}

/// Batches are submitted with `POST`; everything else is read with `GET`.
pub open spec fn route_method(kind: RouteKind) -> HttpMethod {
    if kind is SubmitBatches {
        HttpMethod::Post
    } else {
        HttpMethod::Get
    }
}

/// The batch-status route is named, so that a submission can link to it.
pub open spec fn route_name(kind: RouteKind) -> Option<Seq<char>> {
    if kind is GetBatchStatuses {
        Some("batch_statuses"@)
    } else {
        None
    }
}

/// An optional string literal, as an optional character sequence.
pub open spec fn opt_str_view(o: Option<&'static str>) -> Option<Seq<char>> {
    match o {
        Some(s) => Some(s@),
        None => None,
    }
}

/// The path pattern of each handler; `{...}` segments are parameters.
pub open spec fn route_path(kind: RouteKind) -> Seq<char> {
    match kind {
        RouteKind::SubmitBatches => "/batches"@,
        RouteKind::GetBatchStatuses => "/batch_statuses"@,
        RouteKind::ListAgents => "/agent"@,
        RouteKind::FetchAgent => "/agent/{public_key}"@,
        RouteKind::ListOrganizations => "/organization"@,
        RouteKind::FetchOrganization => "/organization/{id}"@,
        RouteKind::ListProducts => "/product"@,
        RouteKind::FetchProduct => "/product/{id}"@,
        RouteKind::ListGridSchemas => "/schema"@,
        RouteKind::FetchGridSchema => "/schema/{name}"@,
        RouteKind::ListRecords => "/record"@,
        RouteKind::FetchRecord => "/record/{record_id}"@,
        RouteKind::FetchRecordProperty => "/record/{record_id}/property/{property_name}"@,
    }
}

impl Route {
    /// The table entry of a handler.
    pub fn of(kind: RouteKind) -> (r: Route)
        ensures
            r.kind == kind,
            r.method == route_method(kind),
            r.path@ == route_path(kind),
            opt_str_view(r.name) == route_name(kind),
    {
        let path = match kind {
            RouteKind::SubmitBatches => "/batches",
            RouteKind::GetBatchStatuses => "/batch_statuses",
            RouteKind::ListAgents => "/agent",
            RouteKind::FetchAgent => "/agent/{public_key}",
            RouteKind::ListOrganizations => "/organization",
            RouteKind::FetchOrganization => "/organization/{id}",
            RouteKind::ListProducts => "/product",
            RouteKind::FetchProduct => "/product/{id}",
            RouteKind::ListGridSchemas => "/schema",
            RouteKind::FetchGridSchema => "/schema/{name}",
            RouteKind::ListRecords => "/record",
            RouteKind::FetchRecord => "/record/{record_id}",
            RouteKind::FetchRecordProperty => "/record/{record_id}/property/{property_name}",
        };
        let method = match kind {
            RouteKind::SubmitBatches => HttpMethod::Post,
            _ => HttpMethod::Get,
        };
        let name = match kind {
            RouteKind::GetBatchStatuses => Some("batch_statuses"),
            _ => None,
        };
        Route { method, path, kind, name }
    }
}

fn kind_at(i: usize) -> (r: RouteKind)
    requires
        i < route_kinds().len(),
    ensures
        r == route_kinds()[i as int],
{
    match i {
        0 => RouteKind::SubmitBatches,
        1 => RouteKind::GetBatchStatuses,
        2 => RouteKind::ListAgents,
        3 => RouteKind::FetchAgent,
        4 => RouteKind::ListOrganizations,
        5 => RouteKind::FetchOrganization,
        6 => RouteKind::ListProducts,
        7 => RouteKind::FetchProduct,
        8 => RouteKind::ListGridSchemas,
        9 => RouteKind::FetchGridSchema,
        10 => RouteKind::ListRecords,
        11 => RouteKind::FetchRecord,
        _ => RouteKind::FetchRecordProperty,
    }
}

/// The whole table: one entry per handler, in the order of `route_kinds`.
pub fn route_table() -> (r: Vec<Route>)
    ensures
        r@.len() == route_kinds().len(),
        forall|i: int|
            0 <= i < r@.len() ==> {
                &&& #[trigger] r@[i].kind == route_kinds()[i]
                &&& r@[i].method == route_method(r@[i].kind)
                &&& r@[i].path@ == route_path(r@[i].kind)
                &&& opt_str_view(r@[i].name) == route_name(r@[i].kind)
            },
{
    let mut table: Vec<Route> = Vec::new();
    let n: usize = 13;
    let mut i: usize = 0;
    while i < n
        invariant
            n == route_kinds().len(),
            i <= n,
            table@.len() == i,
            forall|j: int|
                0 <= j < i ==> {
                    &&& #[trigger] table@[j].kind == route_kinds()[j]
                    &&& table@[j].method == route_method(table@[j].kind)
                    &&& table@[j].path@ == route_path(table@[j].kind)
                    &&& opt_str_view(table@[j].name) == route_name(table@[j].kind)
                },
        decreases n - i,
    {
        table.push(Route::of(kind_at(i)));
        i = i + 1;
    }
    table
}

/// The table is total and unambiguous: every handler has exactly one entry.
pub proof fn lemma_every_handler_once(kind: RouteKind)
    ensures
        route_kinds().contains(kind),
        route_kinds().no_duplicates(),
{
    let ks = route_kinds();
    let idx: int = match kind {
        RouteKind::SubmitBatches => 0,
        RouteKind::GetBatchStatuses => 1,
        RouteKind::ListAgents => 2,
        RouteKind::FetchAgent => 3,
        RouteKind::ListOrganizations => 4,
        RouteKind::FetchOrganization => 5,
        RouteKind::ListProducts => 6,
        RouteKind::FetchProduct => 7,
        RouteKind::ListGridSchemas => 8,
        RouteKind::FetchGridSchema => 9,
        RouteKind::ListRecords => 10,
        RouteKind::FetchRecord => 11,
        RouteKind::FetchRecordProperty => 12,
    };
    assert(ks[idx] == kind);
}

} // verus!
