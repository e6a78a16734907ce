//! The orchestrator's per-record decisions: turning one bookmark record into
//! a lookup request, and folding one lookup response into the growing output
//! collection.
//!
//! The surrounding program drives the loop in input-row order: for each
//! record it asks for the request URL, performs the HTTP request, and hands
//! the response body back.  Any error aborts the whole run — the collection
//! is all-or-nothing, a silently dropped bookmark being worse than a hard
//! stop.

use vstd::prelude::*;

use crate::extract::extract;
use crate::extract::extract_spec;
use crate::extract::ExtractResult;
use crate::extract::PlaceIdentifier;
use crate::feature::address_property;
use crate::feature::coordinate_texts;
use crate::feature::is_feature_of;
use crate::feature::title_property;
use crate::feature::to_feature;
use crate::feature::FeatureCollection;
use crate::lookup::build_place_details_url;
use crate::lookup::details_of;
use crate::lookup::details_url_text;
use crate::lookup::parse_place_details;
use crate::lookup::url_norm;
use crate::lookup::LookupError;

verus! {

/// One bookmark row, as handed over by the CSV-reading collaborator.
/// `url_path_segments` holds the path segments of the parsed bookmark URL —
/// what identifier extraction reads — and `url` its full text, kept for
/// error reporting.
#[derive(Debug)]
pub struct BookmarkRecord {
    pub title: String,
    pub note: Option<String>,
    pub url: String,
    pub url_path_segments: Vec<String>,
    pub comment: Option<String>,
}

/// A failure that aborts the whole run; once any record fails, no collection
/// is produced.
#[derive(Debug)]
pub enum PipelineError {
    /// The record's URL carries no extractable place identifier.  The title
    /// and URL of the offending record are carried along, so the source CSV
    /// can be fixed.
    MissingIdentifier { title: String, url: String },
    /// Building the request URL or parsing the lookup response failed for
    /// the named record.
    Lookup { title: String, url: String, error: LookupError },
}

/// Extracts the place identifier of one record, failing with
/// `MissingIdentifier` naming the record exactly when its URL carries none.
pub fn record_to_ftid(record: &BookmarkRecord) -> (r: Result<PlaceIdentifier, PipelineError>)
    ensures
        match r {
            Ok(id) => extract_spec(record.url_path_segments.deep_view()) == Some(id@)
                && id.wf(),
            Err(e) => extract_spec(record.url_path_segments.deep_view()) is None && (
            e matches PipelineError::MissingIdentifier { title, url } && title@
                == record.title@ && url@ == record.url@),
        },
{
    match extract(&record.url_path_segments) {
        ExtractResult::Found(id) => Ok(id),
        ExtractResult::NotFound => Err(
            PipelineError::MissingIdentifier {
                title: record.title.clone(),
                url: record.url.clone(),
            },
        ),
    }
}

/// The lookup request URL for one record: identifier extraction followed by
/// URL building, failing fast on a record without an identifier.
pub fn record_to_request_url(record: &BookmarkRecord, api_key: &str) -> (r: Result<
    String,
    PipelineError,
>)
    ensures
        match r {
            Ok(u) => (extract_spec(record.url_path_segments.deep_view()) matches Some(id)
                && url_norm(details_url_text(api_key@, id)) == Some(u@)),
            Err(e) => match e {
                PipelineError::MissingIdentifier { title, url } => extract_spec(
                    record.url_path_segments.deep_view(),
                ) is None && title@ == record.title@ && url@ == record.url@,
                PipelineError::Lookup { title, url, error } => error is InvalidRequestUrl
                    && title@ == record.title@ && url@ == record.url@ && (extract_spec(
                    record.url_path_segments.deep_view(),
                ) matches Some(id) && url_norm(details_url_text(api_key@, id)) is None),
            },
        },
{
    let ftid = match record_to_ftid(record) {
        Ok(id) => id,
        Err(e) => {
            return Err(e);
        },
    };
    match build_place_details_url(api_key, ftid.text.as_str()) {
        Ok(u) => Ok(u),
        Err(le) => Err(
            PipelineError::Lookup {
                title: record.title.clone(),
                url: record.url.clone(),
                error: le,
            },
        ),
    }
}

/// Parses one lookup response and appends its feature to the collection:
/// success exactly when the body has the expected shape, and the appended
/// feature is the feature of this very body's parsed fields, placed after all
/// features already collected, so the collection mirrors the input-row
/// order.  On failure the collection is left untouched — never a partial or
/// default feature — and the error names the offending record.
pub fn add_lookup_response(
    collection: &mut FeatureCollection,
    record: &BookmarkRecord,
    body: &str,
) -> (r: Result<(), PipelineError>)
    ensures
        old(collection).wf() ==> final(collection).wf(),
        match r {
            Ok(()) => details_of(body@) matches Some(fields)
                && final(collection).features@.len() == old(collection).features@.len() + 1
                && final(collection).features@.subrange(
                0,
                old(collection).features@.len() as int,
            ) == old(collection).features@
                && final(collection).features@.last().wf()
                && address_property(final(collection).features@.last()) == fields.0
                && title_property(final(collection).features@.last()) == fields.1
                && coordinate_texts(final(collection).features@.last()) == seq![
                fields.3,
                fields.2,
            ],
            Err(e) => final(collection).features@ == old(collection).features@
                && details_of(body@) is None && (
            e matches PipelineError::Lookup { title, url, error } && title@ == record.title@
                && url@ == record.url@ && error is MalformedResponse),
        },
{
    match parse_place_details(body) {
        Ok(d) => {
            let ghost dd = d;
            let f = to_feature(d);
            collection.push_feature(f);
            proof {
                assert(final(collection).features@.subrange(
                    0,
                    old(collection).features@.len() as int,
                ) =~= old(collection).features@);
                assert(is_feature_of(final(collection).features@.last(), dd));
                assert(coordinate_texts(final(collection).features@.last()) =~= seq![
                    dd.location.longitude@,
                    dd.location.latitude@,
                ]);
            }
            Ok(())
        },
        Err(e) => Err(
            PipelineError::Lookup {
                title: record.title.clone(),
                url: record.url.clone(),
                error: e,
            },
        ),
    }
}

} // verus!
