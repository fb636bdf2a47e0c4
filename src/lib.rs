//! The request pipeline of a generated REST API client: credential
//! resolution, token refresh, conditional fetches through a response cache,
//! response classification and pagination, together with the templates the
//! generator emits and the per-service endpoint handles.

pub mod text;
pub mod link;
pub mod error;
pub mod auth;
pub mod cache;
pub mod payload;
pub mod address;
pub mod rate;
pub mod executor;
pub mod paginate;
pub mod laws;
pub mod generate;
pub mod calls;
pub mod admin;
pub mod drive;
pub mod ramp;
