//! Core of a small HTTP service: a health probe and a demo insert/list
//! endpoint over a pooled, file-backed relational store.
//!
//! The request handlers' decisions, the error adapter, the JSON bodies the
//! service produces, the configuration checks, and a model of the demo table
//! are all here with contracts; the surrounding process (listener, pool,
//! static files) lives outside the library and hands plain values in.

pub mod api;
pub mod db;
pub mod json;

use vstd::prelude::*;
use vstd::string::StringExecFns;

verus! {

/// An HTTP method of the service's documented route surface.
#[derive(Clone, Copy, PartialEq, Eq, Structural, Debug)]
pub enum HttpMethod {
    Get,
    Post,
}

/// One documented route: a method and a path.
pub struct RouteDoc {
    pub method: HttpMethod,
    pub path: String,
}

/// The machine-readable description of the service's API surface.
///
/// The generated document must list exactly the two core routes below;
/// the response schemas it declares are the JSON shapes fixed by the
/// body spec functions in `api`.
pub struct ApiDoc;

impl ApiDoc {
    /// Exactly the two core routes: a GET health probe and a POST demo call.
    pub fn documented_routes() -> (r: Vec<RouteDoc>)
        ensures
            r@.len() == 2,
            r@[0].method == HttpMethod::Get,
            r@[0].path@ == "/api/v1/health"@,
            r@[1].method == HttpMethod::Post,
            r@[1].path@ == "/api/v1/db-demo"@,
    {
        let mut r: Vec<RouteDoc> = Vec::new();
        r.push(RouteDoc { method: HttpMethod::Get, path: String::from_str("/api/v1/health") });
        r.push(RouteDoc { method: HttpMethod::Post, path: String::from_str("/api/v1/db-demo") });
        r
    }

    /// The title under which the API describes itself.
    pub fn title() -> (r: String)
        ensures
            r@ == "Actix Web Starter API"@,
    {
        String::from_str("Actix Web Starter API")
    }

    /// The version the API documentation declares.
    pub fn version() -> (r: String)
        ensures
            r@ == "0.1.0"@,
    {
        String::from_str("0.1.0")
    }

    /// The names of the response schemas the documentation declares.
    pub fn schema_names() -> (r: Vec<String>)
        ensures
            r@.len() == 3,
            r@[0]@ == "HealthResponse"@,
            r@[1]@ == "DbDemoResponse"@,
            r@[2]@ == "ErrorResponse"@,
    {
        let mut r: Vec<String> = Vec::new();
        r.push(String::from_str("HealthResponse"));
        r.push(String::from_str("DbDemoResponse"));
        r.push(String::from_str("ErrorResponse"));
        r
    }
}

} // verus!
