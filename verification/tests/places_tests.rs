use spider_worker::places::{
    GoogleDetailsResponse, GoogleDetailsResult, GoogleTextSearchResponseInit, GoogleTextSearchResults, PlaceRequest,
    PlaceSearch,
};

const TEXT_URL: &str = "https://maps.googleapis.com/maps/api/place/textsearch/json?query=dentists%20in%20Austin,%20TX&key=K";

fn page(ids: &[&str], token: Option<&str>) -> GoogleTextSearchResponseInit {
    GoogleTextSearchResponseInit {
        html_attributions: vec![],
        next_page_token: token.map(|t| t.to_string()),
        results: ids.iter().map(|i| GoogleTextSearchResults { name: format!("n{}", i), place_id: i.to_string() }).collect(),
        status: "OK".to_string(),
    }
}

fn details(website: Option<&str>) -> GoogleDetailsResponse {
    GoogleDetailsResponse {
        html_attributions: vec![],
        result: GoogleDetailsResult {
            formatted_address: None,
            formatted_phone_number: None,
            name: None,
            website: website.map(|w| w.to_string()),
        },
        status: "OK".to_string(),
    }
}

fn text_url(r: PlaceRequest) -> String {
    match r {
        PlaceRequest::TextPage { url } => url,
        _ => panic!("expected a text page"),
    }
}

fn details_url(r: PlaceRequest) -> String {
    match r {
        PlaceRequest::Details { url } => url,
        _ => panic!("expected details"),
    }
}

#[test]
fn search_pages_then_details() {
    let mut s = PlaceSearch::new("dentists", "Austin", "TX", "K");
    assert_eq!(text_url(s.next_request()), TEXT_URL);
    s.on_text_page(page(&["p1", "p2"], Some("T1")));
    assert_eq!(text_url(s.next_request()), format!("{}&pagetoken=T1", TEXT_URL));
    s.on_text_page(page(&["p3"], Some("T2")));
    assert_eq!(text_url(s.next_request()), format!("{}&pagetoken=T2", TEXT_URL));
    s.on_text_page(page(&["p4"], None));
    // Only the places of the first page are looked up.
    assert_eq!(
        details_url(s.next_request()),
        "https://maps.googleapis.com/maps/api/place/details/json?place_id=p1&fields=website,formatted_address,name,formatted_phone_number&key=K"
    );
    s.on_details(details(Some("https://one.example")));
    assert_eq!(
        details_url(s.next_request()),
        "https://maps.googleapis.com/maps/api/place/details/json?place_id=p2&fields=website,formatted_address,name,formatted_phone_number&key=K"
    );
    s.on_details(details(None));
    assert!(matches!(s.next_request(), PlaceRequest::Complete));
    let found = s.results();
    assert_eq!(found.len(), 1);
    assert_eq!(found[0].website, Some("https://one.example".to_string()));
}

#[test]
fn search_with_no_places_completes() {
    let mut s = PlaceSearch::new("a", "b", "c", "k");
    s.on_text_page(page(&[], None));
    assert!(matches!(s.next_request(), PlaceRequest::Complete));
    assert!(s.results().is_empty());
}
