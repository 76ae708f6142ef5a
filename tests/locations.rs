use bingmaps::locations::{ContextParams, EntityType, FindPoint, LocationRequest};
use bingmaps::{ResourceSet, Response};

fn value(r: &LocationRequest, key: &str) -> Option<String> {
    r.params.get(key)
}

#[test]
fn point_from_coordinates_has_five_decimals() {
    assert_eq!(FindPoint::from_latlng(3973976, -10498707).point, "39.73976,-104.98707");
    assert_eq!(FindPoint::from_latlng(0, 0).point, "0.00000,0.00000");
    assert_eq!(FindPoint::from_latlng(-5, 5).point, "-0.00005,0.00005");
    assert_eq!(FindPoint::from_latlng(9000000, -18000000).point, "90.00000,-180.00000");
    assert_eq!(
        FindPoint::from_latlng(i64::MIN, i64::MAX).point,
        "-92233720368547.75808,92233720368547.75807"
    );
}

#[test]
fn point_from_text_is_kept() {
    let f = FindPoint::from_str("47.6,-122.3");
    assert_eq!(f.point, "47.6,-122.3");
    assert!(f.include_entity_types.is_empty());
    assert!(!f.include_neighborhood);
    assert!(!f.include_ciso2);
}

#[test]
fn point_request_path_and_flags() {
    let mut f = FindPoint::from_str("47.6,-122.3");
    f.include_entity_types = vec![EntityType::Address, EntityType::Postcode1, EntityType::RoadBlock];
    f.include_neighborhood = true;
    f.include_ciso2 = true;
    let r = LocationRequest::by_point(&f, &None);
    assert_eq!(r.path, "/Locations/47.6,-122.3");
    assert_eq!(r.params.len(), 3);
    assert_eq!(value(&r, "include_entity_types"), Some("Address,Postcode1,RoadBlock".to_string()));
    assert_eq!(value(&r, "inclnb"), Some("1".to_string()));
    assert_eq!(value(&r, "incl"), Some("ciso2".to_string()));
}

#[test]
fn plain_point_request_has_no_parameters() {
    let r = LocationRequest::by_point(&FindPoint::default(), &None);
    assert_eq!(r.path, "/Locations/");
    assert_eq!(r.params.len(), 0);
}

#[test]
fn user_location_is_lat_comma_lng() {
    let ctx = ContextParams {
        user_location: Some((47.6f64.to_string(), (-122.3f64).to_string())),
        ..Default::default()
    };
    let r = LocationRequest::by_query("Denver", &Some(ctx));
    assert_eq!(value(&r, "ul"), Some("47.6,-122.3".to_string()));
    assert_eq!(value(&r, "q"), Some("Denver".to_string()));
    assert_eq!(r.params.len(), 2);
}

#[test]
fn every_hint_is_sent() {
    let ctx = ContextParams {
        culture: Some("en-US".to_string()),
        user_map_view: Some(vec!["47.5".to_string(), "-122.4".to_string(), "47.7".to_string(), "-122.2".to_string()]),
        user_location: Some(("47.6".to_string(), "-122.3".to_string())),
        user_ip: Some("127.0.0.1".to_string()),
        user_region: Some("US-WA".to_string()),
    };
    let r = LocationRequest::by_point(&FindPoint::from_latlng(4760000, -12230000), &Some(ctx));
    assert_eq!(r.path, "/Locations/47.60000,-122.30000");
    assert_eq!(r.params.len(), 5);
    assert_eq!(value(&r, "c"), Some("en-US".to_string()));
    assert_eq!(value(&r, "umv"), Some("47.5,-122.4,47.7,-122.2".to_string()));
    assert_eq!(value(&r, "ul"), Some("47.6,-122.3".to_string()));
    assert_eq!(value(&r, "uip"), Some("127.0.0.1".to_string()));
    assert_eq!(value(&r, "ur"), Some("US-WA".to_string()));
}

#[test]
fn query_request_path() {
    let r = LocationRequest::by_query("1 Microsoft Way", &Some(ContextParams::default()));
    assert_eq!(r.path, "/Locations");
    assert_eq!(r.params.len(), 1);
    assert_eq!(value(&r, "q"), Some("1 Microsoft Way".to_string()));
}

#[test]
fn no_resource_set_gives_empty_list() {
    let by_point: Response<String> = Response { resource_sets: vec![] };
    assert!(by_point.first_resources().is_empty());
    let by_query: Response<u32> = Response { resource_sets: vec![] };
    assert_eq!(by_query.first_resources(), Vec::<u32>::new());
}

#[test]
fn first_resource_set_is_returned_in_order() {
    let response = Response {
        resource_sets: vec![
            ResourceSet { resources: vec!["Denver".to_string(), "Boulder".to_string()] },
            ResourceSet { resources: vec!["Other".to_string()] },
        ],
    };
    assert_eq!(response.first_resources(), vec!["Denver".to_string(), "Boulder".to_string()]);
}

#[test]
fn entity_names_match_the_service() {
    assert_eq!(EntityType::Address.name(), "Address");
    assert_eq!(EntityType::HigherEducationFacility.name(), "HigherEducationFacility");
    assert_eq!(EntityType::Island.name(), "Island");
}
