//! Request validation, the dispatch table, database dispatch admission and
//! lifecycle decisions for the REST API of a ledger-backed supply-chain
//! service.

pub mod dispatch;
pub mod endpoint;
pub mod guard;
pub mod lifecycle;
pub mod routes;

pub use dispatch::{DispatchError, DispatchGate, DEFAULT_QUEUE_DEPTH, DEFAULT_WORKER_COUNT};
pub use endpoint::Endpoint;
pub use guard::{AcceptServiceIdParam, QueryServiceId, RequestValidationError};
pub use lifecycle::{RestApiServerError, ShutdownState};
pub use routes::{route_table, HttpMethod, Route, RouteKind};
