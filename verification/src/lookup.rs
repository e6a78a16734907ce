//! Place lookup: building the lookup request URL for an extracted identifier
//! and parsing the lookup service's JSON response into a typed result.
//!
//! The HTTP request itself is left to the surrounding program; this module
//! fixes what is sent (the request URL) and what is accepted back (the
//! response shape).

use vstd::prelude::*;
use vstd::string::StringExecFns;

verus! {

/// Coordinates of a looked-up place, held as the decimal text of the JSON
/// numbers in the service response.  The pipeline never computes with the
/// coordinates; it only carries them through, so their text is their value.
#[derive(Debug)]
pub struct PlaceLocation {
    pub latitude: String,
    pub longitude: String,
}

/// The typed contents of a successful place-lookup response.
#[derive(Debug)]
pub struct PlaceLookupResult {
    pub formatted_address: String,
    pub name: String,
    pub location: PlaceLocation,
}

/// What can go wrong between a place identifier and a typed lookup result,
/// aside from the transport itself, which the surrounding program handles.
#[derive(Debug)]
pub enum LookupError {
    /// The assembled request URL was rejected by the URL parser.
    InvalidRequestUrl,
    /// The response body is not a JSON document of the expected shape.
    MalformedResponse,
}

#[verifier::external_type_specification]
#[verifier::external_body]
pub struct ExJsonValue(serde_json::Value);

/// What the JSON parser makes of a piece of text: the parsed document, or
/// nothing when the text is not a JSON document.
pub uninterp spec fn json_doc(text: Seq<char>) -> Option<serde_json::Value>;

/// The member of a parsed JSON value under a key: present exactly when the
/// value is an object that has that key.
pub uninterp spec fn json_member(v: serde_json::Value, key: Seq<char>) -> Option<
    serde_json::Value,
>;

/// The text of a parsed JSON value: present exactly when the value is a
/// JSON string.
pub uninterp spec fn json_text(v: serde_json::Value) -> Option<Seq<char>>;

/// The decimal text of a parsed JSON value: present exactly when the value
/// is a JSON number.
pub uninterp spec fn json_number_string(v: serde_json::Value) -> Option<Seq<char>>;

/// Relies on serde_json::from_str::<serde_json::Value>: whether the text is
/// a JSON document, and which document, depends on the text alone.
#[verifier::external_body]
fn json_parse(body: &str) -> (r: Option<serde_json::Value>)
    ensures
        r == json_doc(body@),
{
    serde_json::from_str::<serde_json::Value>(body).ok()
}

/// Relies on serde_json::Value::get: the field of a JSON object under the
/// given key, present exactly when the value is an object that has the key.
#[verifier::external_body]
fn json_get<'a>(v: &'a serde_json::Value, key: &str) -> (r: Option<&'a serde_json::Value>)
    ensures
        match r {
            Some(m) => json_member(*v, key@) == Some(*m),
            None => json_member(*v, key@) is None,
        },
{
    v.get(key)
}

/// Relies on serde_json::Value::as_str: the text of a JSON string value,
/// present exactly when the value is a JSON string.
#[verifier::external_body]
fn json_as_string(v: &serde_json::Value) -> (r: Option<String>)
    ensures
        match r {
            Some(s) => json_text(*v) == Some(s@),
            None => json_text(*v) is None,
        },
{
    match v.as_str() {
        Some(s) => Some(s.to_string()),
        None => None,
    }
}

/// Relies on serde_json::Value::as_number and the display of
/// serde_json::Number: the decimal text of a JSON number value, present
/// exactly when the value is a JSON number, and a function of it alone.
#[verifier::external_body]
fn json_number_text(v: &serde_json::Value) -> (r: Option<String>)
    ensures
        match r {
            Some(t) => json_number_string(*v) == Some(t@),
            None => json_number_string(*v) is None,
        },
{
    match v.as_number() {
        Some(n) => Some(n.to_string()),
        None => None,
    }
}

/// The four field texts of a well-shaped place-details response body — the
/// formatted address, the name, and the `lat` and `lng` number texts under
/// `geometry.location` of the `result` object — or nothing when any step of
/// that shape is missing or of the wrong kind.  Members outside the shape
/// are never consulted.
pub open spec fn details_of(body: Seq<char>) -> Option<(Seq<char>, Seq<char>, Seq<char>, Seq<char>)> {
    match json_doc(body) {
        Some(doc) => match json_member(doc, "result"@) {
            Some(result) => match json_member(result, "formatted_address"@) {
                Some(av) => match json_text(av) {
                    Some(address) => match json_member(result, "name"@) {
                        Some(nv) => match json_text(nv) {
                            Some(name) => match json_member(result, "geometry"@) {
                                Some(geometry) => match json_member(geometry, "location"@) {
                                    Some(location) => match json_member(location, "lat"@) {
                                        Some(latv) => match json_number_string(latv) {
                                            Some(lat) => match json_member(location, "lng"@) {
                                                Some(lngv) => match json_number_string(lngv) {
                                                    Some(lng) => Some((address, name, lat, lng)),
                                                    None => None,
                                                },
                                                None => None,
                                            },
                                            None => None,
                                        },
                                        None => None,
                                    },
                                    None => None,
                                },
                                None => None,
                            },
                            None => None,
                        },
                        None => None,
                    },
                    None => None,
                },
                None => None,
            },
            None => None,
        },
        None => None,
    }
}

/// Parses a place-lookup response body.  The body must be a JSON object
/// holding a `result` object with a string `formatted_address`, a string
/// `name`, and a `geometry` object whose `location` object has numeric `lat`
/// and `lng` entries; anything else — a missing field as much as a type
/// mismatch — is a malformed response, never a partial result.
pub fn parse_place_details(body: &str) -> (r: Result<PlaceLookupResult, LookupError>)
    ensures
        match r {
            Ok(d) => details_of(body@) == Some(
                (d.formatted_address@, d.name@, d.location.latitude@, d.location.longitude@),
            ),
            Err(e) => e is MalformedResponse && details_of(body@) is None,
        },
{
    let parsed: serde_json::Value = match json_parse(body) {
        Some(v) => v,
        None => {
            return Err(LookupError::MalformedResponse);
        },
    };
    let result: &serde_json::Value = match json_get(&parsed, "result") {
        Some(v) => v,
        None => {
            return Err(LookupError::MalformedResponse);
        },
    };
    let formatted_address: String = match json_get(result, "formatted_address") {
        Some(v) => match json_as_string(v) {
            Some(s) => s,
            None => {
                return Err(LookupError::MalformedResponse);
            },
        },
        None => {
            return Err(LookupError::MalformedResponse);
        },
    };
    let name: String = match json_get(result, "name") {
        Some(v) => match json_as_string(v) {
            Some(s) => s,
            None => {
                return Err(LookupError::MalformedResponse);
            },
        },
        None => {
            return Err(LookupError::MalformedResponse);
        },
    };
    let geometry: &serde_json::Value = match json_get(result, "geometry") {
        Some(v) => v,
        None => {
            return Err(LookupError::MalformedResponse);
        },
    };
    let location: &serde_json::Value = match json_get(geometry, "location") {
        Some(v) => v,
        None => {
            return Err(LookupError::MalformedResponse);
        },
    };
    let latitude: String = match json_get(location, "lat") {
        Some(v) => match json_number_text(v) {
            Some(t) => t,
            None => {
                return Err(LookupError::MalformedResponse);
            },
        },
        None => {
            return Err(LookupError::MalformedResponse);
        },
    };
    let longitude: String = match json_get(location, "lng") {
        Some(v) => match json_number_text(v) {
            Some(t) => t,
            None => {
                return Err(LookupError::MalformedResponse);
            },
        },
        None => {
            return Err(LookupError::MalformedResponse);
        },
    };
    Ok(PlaceLookupResult { formatted_address, name, location: PlaceLocation { latitude, longitude } })
}

/// The text of the place-details request URL for a given credential and
/// identifier: the fixed endpoint with the credential, the identifier and a
/// fixed field selection as query parameters.  The field selection asks the
/// service for exactly the name, the geometry and the formatted address.
pub open spec fn details_url_text(api_key: Seq<char>, ftid: Seq<char>) -> Seq<char> {
    "https://maps.googleapis.com/maps/api/place/details/json?key="@ + api_key + "&ftid="@
        + ftid + "&fields=name,geometry,formatted_address"@
}

/// What the URL parser makes of a piece of text: the serialization of the
/// parsed URL, or nothing when the text is not an absolute URL.
pub uninterp spec fn url_norm(text: Seq<char>) -> Option<Seq<char>>;

/// Relies on url::Url::parse and url::Url::as_str: whether a piece of text
/// parses as an absolute URL, and the serialization of the parsed URL,
/// depend on the text alone.
#[verifier::external_body]
fn normalize_url(text: &str) -> (r: Option<String>)
    ensures
        r matches Some(u) ==> url_norm(text@) == Some(u@),
        r is None ==> url_norm(text@) is None,
{
    match url::Url::parse(text) {
        Ok(u) => Some(String::from(u.as_str())),
        Err(_) => None,
    }
}

/// Assembles the place-details request URL for the given credential and
/// identifier and runs it through the URL parser, exactly as
/// `details_url_text` and `url_norm` describe.
pub fn build_place_details_url(api_key: &str, ftid: &str) -> (r: Result<String, LookupError>)
    ensures
        match r {
            Ok(u) => url_norm(details_url_text(api_key@, ftid@)) == Some(u@),
            Err(e) => e is InvalidRequestUrl && url_norm(details_url_text(api_key@, ftid@))
                is None,
        },
{
    let mut text = String::new();
    text.append("https://maps.googleapis.com/maps/api/place/details/json?key=");
    text.append(api_key);
    text.append("&ftid=");
    text.append(ftid);
    text.append("&fields=name,geometry,formatted_address");
    proof {
        assert(text@ =~= details_url_text(api_key@, ftid@));
    }
    match normalize_url(text.as_str()) {
        Some(u) => Ok(u),
        None => Err(LookupError::InvalidRequestUrl),
    }
}

} // verus!
