use saved_places::extract::extract;
use saved_places::extract::ExtractResult;
use saved_places::feature::to_feature;
use saved_places::feature::FeatureCollection;
use saved_places::feature::PropertyValue;
use saved_places::lookup::build_place_details_url;
use saved_places::lookup::parse_place_details;
use saved_places::lookup::PlaceLocation;
use saved_places::lookup::PlaceLookupResult;
use saved_places::pipeline::add_lookup_response;
use saved_places::pipeline::record_to_ftid;
use saved_places::pipeline::record_to_request_url;
use saved_places::pipeline::BookmarkRecord;
use saved_places::pipeline::PipelineError;

fn segments_of(url: &str) -> Vec<String> {
    let parsed = url::Url::parse(url).unwrap();
    match parsed.path_segments() {
        Some(segments) => segments.map(|s| s.to_string()).collect(),
        None => Vec::new(),
    }
}

fn bookmark(title: &str, url: &str) -> BookmarkRecord {
    BookmarkRecord {
        title: title.to_string(),
        note: None,
        url: url.to_string(),
        url_path_segments: segments_of(url),
        comment: None,
    }
}

#[test]
fn test_ftid_exists_in_url() {
    let segments = segments_of(
        "https://www.google.com/maps/place/E%26O+Kitchen+and+Bar/data=!4m2!3m1!1s0x8085808941977519:0x6a23af223bffdaf8",
    );
    match extract(&segments) {
        ExtractResult::Found(id) => {
            assert_eq!("0x8085808941977519:0x6a23af223bffdaf8", id.text)
        },
        ExtractResult::NotFound => panic!("expected an identifier"),
    }
}

#[test]
fn test_ftid_missing_when_no_data_in_url() {
    let segments = segments_of("https://www.google.com/maps/place/E%26O+Kitchen+and+Bar/");
    assert!(matches!(extract(&segments), ExtractResult::NotFound));
}

#[test]
fn test_build_place_details_url() {
    let api_key = "API_KEY";
    let ftid = "FTID";
    let expected = url::Url::parse(&format!(
        "https://maps.googleapis.com/maps/api/place/details/json?key={:}&ftid={:}&fields=name,geometry,formatted_address",
        api_key, ftid
    ))
    .unwrap();

    let actual = build_place_details_url(api_key, ftid).unwrap();

    assert_eq!(expected, url::Url::parse(&actual).unwrap());
    assert_eq!(
        "https://maps.googleapis.com/maps/api/place/details/json?key=API_KEY&ftid=FTID&fields=name,geometry,formatted_address",
        actual
    );
}

const EXAMPLE_PLACE_DETAILS_RESPONSE_BODY: &str = r#"
    {
        "html_attributions" : [],
        "result" : {
           "formatted_address" : "Calle Cruz de Piedra, 4, 03015 Alicante (Alacant), Alicante, Spain",
           "geometry" : {
              "location" : {
                 "lat" : 38.3642128,
                 "lng" : -0.4620302
              },
              "viewport" : {
                 "northeast" : {
                    "lat" : 38.3654640802915,
                    "lng" : -0.460755769708498
                 },
                 "southwest" : {
                    "lat" : 38.3627661197085,
                    "lng" : -0.4634537302915021
                 }
              }
           },
           "name" : "Calle Cruz de Piedra, 4"
        },
        "status" : "OK"
     }
    "#;

#[test]
fn test_places_response_body_place_details() {
    let details = parse_place_details(EXAMPLE_PLACE_DETAILS_RESPONSE_BODY).unwrap();
    assert_eq!(
        "Calle Cruz de Piedra, 4, 03015 Alicante (Alacant), Alicante, Spain",
        details.formatted_address
    );
    assert_eq!("Calle Cruz de Piedra, 4", details.name);
    assert_eq!("38.3642128", details.location.latitude);
    assert_eq!("-0.4620302", details.location.longitude);
}

#[test]
fn test_place_details_result_to_feature() {
    let place_details = PlaceLookupResult {
        formatted_address: "123 Fake St, Springfield".to_string(),
        name: "Paper Co".to_string(),
        location: PlaceLocation {
            latitude: "10.0".to_string(),
            longitude: "11.0".to_string(),
        },
    };

    let feature = to_feature(place_details);

    assert_eq!(
        vec!["11.0".to_string(), "10.0".to_string()],
        feature.coordinates
    );
    assert_eq!(2, feature.properties.len());
    assert_eq!("Location", feature.properties[0].0);
    match &feature.properties[0].1 {
        PropertyValue::Group(entries) => {
            assert_eq!(1, entries.len());
            assert_eq!("Address", entries[0].0);
            assert_eq!("123 Fake St, Springfield", entries[0].1);
        },
        PropertyValue::Text(_) => panic!("expected the nested address group"),
    }
    assert_eq!("Title", feature.properties[1].0);
    match &feature.properties[1].1 {
        PropertyValue::Text(name) => assert_eq!("Paper Co", name),
        PropertyValue::Group(_) => panic!("expected the place name"),
    }
}

#[test]
fn extract_strips_exactly_the_marker() {
    let segments = vec!["data=!4m2!3m1!1sXYZ".to_string()];
    match extract(&segments) {
        ExtractResult::Found(id) => assert_eq!("XYZ", id.text),
        ExtractResult::NotFound => panic!("expected an identifier"),
    }
}

#[test]
fn extract_keeps_segment_without_marker() {
    let segments = vec![
        "maps".to_string(),
        "place".to_string(),
        "Chubby+Noodle+North+Beach".to_string(),
    ];
    match extract(&segments) {
        ExtractResult::Found(id) => assert_eq!("Chubby+Noodle+North+Beach", id.text),
        ExtractResult::NotFound => panic!("expected the segment itself"),
    }
}

#[test]
fn extract_absent_path_is_not_found() {
    let segments: Vec<String> = Vec::new();
    assert!(matches!(extract(&segments), ExtractResult::NotFound));
}

#[test]
fn extract_bare_marker_is_not_found() {
    let segments = vec!["data=!4m2!3m1!1s".to_string()];
    assert!(matches!(extract(&segments), ExtractResult::NotFound));
}

#[test]
fn lookup_response_maps_to_feature() {
    let body = r#"{"result":{"formatted_address":"123 Fake St, Springfield","geometry":{"location":{"lat":10.0,"lng":11.0}},"name":"Paper Co"},"status":"OK"}"#;
    let details = parse_place_details(body).unwrap();
    let feature = to_feature(details);
    assert_eq!(
        vec!["11.0".to_string(), "10.0".to_string()],
        feature.coordinates
    );
    match &feature.properties[1].1 {
        PropertyValue::Text(name) => assert_eq!("Paper Co", name),
        PropertyValue::Group(_) => panic!("expected the place name"),
    }
    match &feature.properties[0].1 {
        PropertyValue::Group(entries) => assert_eq!("123 Fake St, Springfield", entries[0].1),
        PropertyValue::Text(_) => panic!("expected the nested address group"),
    }
}

#[test]
fn malformed_response_is_rejected() {
    assert!(matches!(
        parse_place_details("this is not json"),
        Err(saved_places::lookup::LookupError::MalformedResponse)
    ));
    assert!(matches!(
        parse_place_details(r#"{"result":{"formatted_address":"x","name":"y"}}"#),
        Err(saved_places::lookup::LookupError::MalformedResponse)
    ));
    assert!(matches!(
        parse_place_details(r#"{"result":{"formatted_address":7,"geometry":{"location":{"lat":1,"lng":2}},"name":"y"}}"#),
        Err(saved_places::lookup::LookupError::MalformedResponse)
    ));
}

#[test]
fn request_url_is_normalized_by_the_parser() {
    let actual = build_place_details_url("API_KEY", "FT<ID>").unwrap();
    assert!(actual.contains("ftid=FT%3CID%3E"));
    assert!(!actual.contains('<'));
}

#[test]
fn two_rows_collect_in_input_order() {
    let first = r#"{"result":{"formatted_address":"1 First St","geometry":{"location":{"lat":1.0,"lng":2.0}},"name":"First Place"},"status":"OK"}"#;
    let second = r#"{"result":{"formatted_address":"2 Second St","geometry":{"location":{"lat":3.0,"lng":4.0}},"name":"Second Place"},"status":"OK"}"#;
    let row1 = bookmark("First Place", "https://www.google.com/maps/place/First+Place/data=!4m2!3m1!1sone");
    let row2 = bookmark("Second Place", "https://www.google.com/maps/place/Second+Place/data=!4m2!3m1!1stwo");
    let mut collection = FeatureCollection::new();
    add_lookup_response(&mut collection, &row1, first).unwrap();
    add_lookup_response(&mut collection, &row2, second).unwrap();
    assert_eq!(2, collection.len());
    match &collection.features[0].properties[1].1 {
        PropertyValue::Text(name) => assert_eq!("First Place", name),
        PropertyValue::Group(_) => panic!("expected the place name"),
    }
    match &collection.features[1].properties[1].1 {
        PropertyValue::Text(name) => assert_eq!("Second Place", name),
        PropertyValue::Group(_) => panic!("expected the place name"),
    }
}

#[test]
fn failed_response_leaves_collection_untouched() {
    let good = r#"{"result":{"formatted_address":"1 First St","geometry":{"location":{"lat":1.0,"lng":2.0}},"name":"First Place"},"status":"OK"}"#;
    let row1 = bookmark("First Place", "https://www.google.com/maps/place/First+Place/data=!4m2!3m1!1sone");
    let row2 = bookmark("Broken Row", "https://www.google.com/maps/place/Broken+Row/data=!4m2!3m1!1stwo");
    let mut collection = FeatureCollection::new();
    add_lookup_response(&mut collection, &row1, good).unwrap();
    match add_lookup_response(&mut collection, &row2, "garbage") {
        Ok(()) => panic!("expected a malformed response"),
        Err(PipelineError::Lookup { title, url, error }) => {
            assert_eq!("Broken Row", title);
            assert_eq!(
                "https://www.google.com/maps/place/Broken+Row/data=!4m2!3m1!1stwo",
                url
            );
            assert!(matches!(
                error,
                saved_places::lookup::LookupError::MalformedResponse
            ));
        },
        Err(PipelineError::MissingIdentifier { .. }) => {
            panic!("expected a lookup failure")
        },
    }
    assert_eq!(1, collection.len());
}

#[test]
fn missing_identifier_aborts_run() {
    let records = vec![
        bookmark(
            "E&O Kitchen and Bar",
            "https://www.google.com/maps/place/E%26O+Kitchen+and+Bar/data=!4m2!3m1!1s0x8085808941977519:0x6a23af223bffdaf8",
        ),
        bookmark(
            "No Identifier Here",
            "https://www.google.com/maps/place/No+Identifier+Here/",
        ),
    ];
    // Drive the run the way the surrounding program does, stopping at the
    // first record whose URL carries no identifier: no collection survives.
    let mut aborted = false;
    let mut produced: Option<Vec<String>> = None;
    let mut urls: Vec<String> = Vec::new();
    for record in &records {
        match record_to_request_url(record, "API_KEY") {
            Ok(u) => urls.push(u),
            Err(e) => {
                match e {
                    PipelineError::MissingIdentifier { title, url } => {
                        assert_eq!("No Identifier Here", title);
                        assert_eq!(
                            "https://www.google.com/maps/place/No+Identifier+Here/",
                            url
                        );
                    },
                    PipelineError::Lookup { .. } => panic!("expected a missing identifier"),
                }
                aborted = true;
                break;
            },
        }
    }
    if !aborted {
        produced = Some(urls);
    }
    assert!(aborted);
    assert!(produced.is_none());
}

#[test]
fn missing_identifier_names_the_record() {
    let record = bookmark("Somewhere", "https://www.google.com/");
    match record_to_ftid(&record) {
        Ok(_) => panic!("expected a missing identifier"),
        Err(PipelineError::MissingIdentifier { title, url }) => {
            assert_eq!("Somewhere", title);
            assert_eq!("https://www.google.com/", url);
        },
        Err(PipelineError::Lookup { .. }) => panic!("expected a missing identifier"),
    }
}
