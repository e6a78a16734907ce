//! Feature mapping: converts a typed lookup result into a geospatial point
//! feature, and accumulates features into an ordered collection.
//!
//! The property schema is fixed: a `Location` group holding the formatted
//! address under `Address`, and the place name under `Title`.  The geometry
//! is a point whose coordinates are `[longitude, latitude]` — longitude
//! first, per GeoJSON convention, and never the other way around.

use vstd::prelude::*;
use vstd::string::StringExecFns;

use crate::lookup::PlaceLookupResult;

verus! {

/// A property value of a feature: plain text, or a one-level group of named
/// texts (used for the nested address entry).
#[derive(Debug)]
pub enum PropertyValue {
    Text(String),
    Group(Vec<(String, String)>),
}

/// A point feature: coordinates as `[longitude, latitude]` and an ordered
/// list of named properties.  Each coordinate entry holds the decimal text
/// of the number, exactly as the lookup response carried it.
#[derive(Debug)]
pub struct GeoFeature {
    pub coordinates: Vec<String>,
    pub properties: Vec<(String, PropertyValue)>,
}

impl GeoFeature {
    /// The shape of every feature this crate produces: a two-entry
    /// coordinate pair and the fixed `Location.Address` / `Title` property
    /// schema.
    pub open spec fn wf(&self) -> bool {
        &&& self.coordinates@.len() == 2
        &&& self.properties@.len() == 2
        &&& self.properties@[0].0@ == "Location"@
        &&& (self.properties@[0].1 matches PropertyValue::Group(g) && g@.len() == 1
            && g@[0].0@ == "Address"@)
        &&& self.properties@[1].0@ == "Title"@
        &&& self.properties@[1].1 is Text
    }
}

/// The place name held under the feature's `Title` property.
pub open spec fn title_property(f: GeoFeature) -> Seq<char> {
    f.properties@[1].1->Text_0@
}

/// The formatted address held under the feature's nested `Location.Address`
/// property.
pub open spec fn address_property(f: GeoFeature) -> Seq<char> {
    f.properties@[0].1->Group_0@[0].1@
}

/// The coordinate texts of the feature, in serialized order.
pub open spec fn coordinate_texts(f: GeoFeature) -> Seq<Seq<char>> {
    seq![f.coordinates@[0]@, f.coordinates@[1]@]
}

/// The exact relation between a lookup result and the feature made from it:
/// point coordinates `[longitude, latitude]` taken unchanged from the
/// result's location, the formatted address under `Location.Address`, and
/// the place name under `Title`.
pub open spec fn is_feature_of(f: GeoFeature, d: PlaceLookupResult) -> bool {
    &&& f.coordinates@.len() == 2
    &&& f.coordinates@[0]@ == d.location.longitude@
    &&& f.coordinates@[1]@ == d.location.latitude@
    &&& f.properties@.len() == 2
    &&& f.properties@[0].0@ == "Location"@
    &&& (f.properties@[0].1 matches PropertyValue::Group(g) && g@.len() == 1
        && g@[0].0@ == "Address"@ && g@[0].1@ == d.formatted_address@)
    &&& f.properties@[1].0@ == "Title"@
    &&& (f.properties@[1].1 matches PropertyValue::Text(t) && t@ == d.name@)
}

/// Maps a validated lookup result to its feature.  Total: every lookup
/// result yields exactly the feature `is_feature_of` describes, with the
/// longitude before the latitude and no change to any value.
pub fn to_feature(d: PlaceLookupResult) -> (f: GeoFeature)
    ensures
        is_feature_of(f, d),
        f.wf(),
{
    let mut group: Vec<(String, String)> = Vec::new();
    group.push((String::from_str("Address"), d.formatted_address));
    let mut properties: Vec<(String, PropertyValue)> = Vec::new();
    properties.push((String::from_str("Location"), PropertyValue::Group(group)));
    properties.push((String::from_str("Title"), PropertyValue::Text(d.name)));
    let mut coordinates: Vec<String> = Vec::new();
    coordinates.push(d.location.longitude);
    coordinates.push(d.location.latitude);
    GeoFeature { coordinates, properties }
}

/// An ordered sequence of features, kept in input-row order.
#[derive(Debug)]
pub struct FeatureCollection {
    pub features: Vec<GeoFeature>,
}

impl FeatureCollection {
    /// Every feature in the collection has the fixed output shape.
    pub open spec fn wf(&self) -> bool {
        forall|i: int| 0 <= i < self.features@.len() ==> self.features@[i].wf()
    }

    /// The empty collection.
    pub fn new() -> (c: FeatureCollection)
        ensures
            c.features@.len() == 0,
            c.wf(),
    {
        FeatureCollection { features: Vec::new() }
    }

    /// Appends one feature.  The features already collected keep their
    /// places, so the collection always lists features in the order they
    /// were appended — which the orchestrator makes the input-row order.
    pub fn push_feature(&mut self, f: GeoFeature)
        ensures
            final(self).features@ == old(self).features@.push(f),
    {
        self.features.push(f);
    }

    /// How many features have been collected so far.
    pub fn len(&self) -> (n: usize)
        ensures
            n == self.features@.len(),
    {
        self.features.len()
    }
}

/// The feature's observable parts each depend on exactly one part of the
/// lookup result: the `Title` entries of two features agree exactly when the
/// place names do, the nested `Location.Address` entries agree exactly when
/// the formatted addresses do, and the coordinates agree exactly when the
/// locations do.  In particular, changing only the name changes only the
/// `Title` entry, and changing only the address changes only the nested
/// address entry, with the geometry unaffected by either.
pub proof fn lemma_feature_fields_independent(
    d1: PlaceLookupResult,
    d2: PlaceLookupResult,
    f1: GeoFeature,
    f2: GeoFeature,
)
    requires
        is_feature_of(f1, d1),
        is_feature_of(f2, d2),
    ensures
        title_property(f1) == title_property(f2) <==> d1.name@ == d2.name@,
        address_property(f1) == address_property(f2) <==> d1.formatted_address@
            == d2.formatted_address@,
        coordinate_texts(f1) == coordinate_texts(f2) <==> (d1.location.longitude@
            == d2.location.longitude@ && d1.location.latitude@ == d2.location.latitude@),
{
    if d1.location.longitude@ == d2.location.longitude@ && d1.location.latitude@
        == d2.location.latitude@ {
        assert(coordinate_texts(f1) =~= coordinate_texts(f2));
    }
    if coordinate_texts(f1) == coordinate_texts(f2) {
        assert(coordinate_texts(f1)[0] == coordinate_texts(f2)[0]);
        assert(coordinate_texts(f1)[1] == coordinate_texts(f2)[1]);
    }
}

} // verus!
