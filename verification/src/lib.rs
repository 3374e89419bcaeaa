//! Request logic of the Annex back office service: bearer-token handling,
//! the sign-in decision, the MongoDB filters and aggregation pipelines that
//! each endpoint sends, and the decisions taken on what comes back.
pub mod bsondoc;
pub mod text;
pub mod plan;
pub mod auth;
pub mod stages;
pub mod customer;
pub mod ledger;
pub mod estimate;
pub mod invoice;
pub mod product;
pub mod settings;
pub mod storage;
