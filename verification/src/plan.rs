//! What a request handler does next: answer at once, or run a query on a
//! collection and answer from what it gives.
use crate::bsondoc::{self, Entries};
use bson::Document;
use vstd::prelude::*;

verus! {

/// A `find` (or `find_one`) query on a collection.
pub struct FindQuery {
    pub collection: &'static str,
    pub filter: Document,
    pub projection: Option<Document>,
    pub sort: Option<Document>,
    pub limit: Option<i64>,
}

/// The model of a `FindQuery`: the documents by their entries.
pub struct FindModel {
    pub collection: Seq<char>,
    pub filter: Entries,
    pub projection: Option<Entries>,
    pub sort: Option<Entries>,
    pub limit: Option<i64>,
}

/// The entries of an optional document.
pub open spec fn opt_entries(d: Option<Document>) -> Option<Entries> {
    match d {
        Some(x) => Some(bsondoc::doc_entries(x)),
        None => None,
    }
}

impl View for FindQuery {
    type V = FindModel;

    open spec fn view(&self) -> FindModel {
        FindModel {
            collection: self.collection@,
            filter: bsondoc::doc_entries(self.filter),
            projection: opt_entries(self.projection),
            sort: opt_entries(self.sort),
            limit: self.limit,
        }
    }
}

/// An aggregation pipeline to run on a collection.
pub struct Pipeline {
    pub collection: &'static str,
    pub stages: Vec<Document>,
}

/// The model of a `Pipeline`: its stages by their entries.
pub struct PipelineModel {
    pub collection: Seq<char>,
    pub stages: Seq<Entries>,
}

impl View for Pipeline {
    type V = PipelineModel;

    open spec fn view(&self) -> PipelineModel {
        PipelineModel {
            collection: self.collection@,
            stages: self.stages@.map_values(|d: Document| bsondoc::doc_entries(d)),
        }
    }
}

/// The next step of a handler: refuse the request, or run `Q`.
pub enum Plan<Q> {
    /// 401, no body.
    Unauthorized,
    /// 400, with this JSON body where there is one.
    BadRequest(Option<Document>),
    /// Run the query, then answer from its result.
    Run(Q),
}

/// An answer to send.
pub enum Reply {
    /// 401, no body.
    Unauthorized,
    /// 400, with this JSON body where there is one.
    BadRequest(Option<Document>),
    /// 200 with this document as JSON.
    Json(Document),
}

/// The characters of an optional string.
pub open spec fn opt_view(o: Option<String>) -> Option<Seq<char>> {
    match o {
        Some(s) => Some(s@),
        None => None,
    }
}

} // verus!
