use bson::oid::ObjectId;
use spider_worker::errors::Error;
use spider_worker::places::GoogleDetailsResult;
use spider_worker::taskstate::{finish_result, Checkable, Location, NewTask, SearchStep, TaskState};

fn oid(b: u8) -> ObjectId {
    ObjectId::from_bytes([b; 12])
}

fn loc(city: &str, state: &str) -> Location {
    Location { city: city.to_string(), state: state.to_string() }
}

fn task(industries: &[&str], locations: &[(&str, &str)]) -> TaskState {
    TaskState::new(NewTask {
        id: oid(1),
        uid: oid(2),
        campaign_id: oid(3),
        industries: industries.iter().map(|s| s.to_string()).collect(),
        locations: locations.iter().map(|(c, s)| loc(c, s)).collect(),
    })
}

fn expect_search(step: SearchStep) -> (String, String) {
    match step {
        SearchStep::Search { industry, location } => (industry, location.city),
        SearchStep::Finished => panic!("expected a search"),
    }
}

fn cities(v: &[Location]) -> Vec<String> {
    v.iter().map(|l| l.city.clone()).collect()
}

#[test]
fn new_task_queues_everything() {
    let t = task(&["dentists", "lawyers"], &[("Austin", "TX")]);
    let ind: Vec<String> = t.ind().into_iter().collect();
    assert_eq!(ind, vec!["dentists".to_string(), "lawyers".to_string()]);
    assert!(t.loc().is_empty());
    assert_eq!(t.id(), oid(1));
    assert_eq!(t.uid(), oid(2));
    assert_eq!(t.campaign_id(), oid(3));
}

#[test]
fn add_industry_and_location_queue_at_the_end() {
    let mut t = task(&["a"], &[]);
    t.add_industry("b".to_string());
    let ind: Vec<String> = t.ind().into_iter().collect();
    assert_eq!(ind, vec!["a".to_string(), "b".to_string()]);
    t.add_location(loc("Reno", "NV"));
    assert_eq!(expect_search(t.next_search()), ("a".to_string(), "Reno".to_string()));
    assert_eq!(cities(&t.loc()), vec!["Reno".to_string()]);
}

#[test]
fn next_search_walks_the_combinations() {
    let mut t = task(&["A", "B", "C"], &[("L1", "S"), ("L2", "S")]);
    // Without a current industry, each queued location takes its own industry.
    assert_eq!(expect_search(t.next_search()), ("A".to_string(), "L1".to_string()));
    assert_eq!(expect_search(t.next_search()), ("B".to_string(), "L2".to_string()));
    // Then the next industry becomes current, over the locations taken.
    assert_eq!(expect_search(t.next_search()), ("C".to_string(), "L1".to_string()));
    assert_eq!(expect_search(t.next_search()), ("C".to_string(), "L2".to_string()));
    assert_eq!(cities(&t.loc()), vec!["L1".to_string(), "L2".to_string(), "L2".to_string()]);
    assert!(matches!(t.next_search(), SearchStep::Finished));
    assert!(matches!(t.next_search(), SearchStep::Finished));
    assert!(t.ind().is_empty());
}

#[test]
fn next_search_finishes_without_locations() {
    let mut t = task(&["A"], &[]);
    assert!(matches!(t.next_search(), SearchStep::Finished));
    assert!(t.ind().is_empty());
    let report = Some(t).check().unwrap();
    assert_eq!(report.current_industry, Some("A".to_string()));
}

#[test]
fn next_search_finishes_without_industries() {
    let mut t = task(&[], &[("L1", "S")]);
    assert!(matches!(t.next_search(), SearchStep::Finished));
    assert_eq!(cities(&t.loc()), vec!["L1".to_string()]);
}

#[test]
fn check_reports_the_task() {
    let mut t = task(&["A", "B"], &[("L1", "S"), ("L2", "S")]);
    let _ = t.next_search();
    let report = Some(t).check().unwrap();
    assert_eq!(report.current_industry, None);
    assert_eq!(report.todo_industries, vec!["B".to_string()]);
    assert!(report.finished_industries.is_empty());
    assert_eq!(cities(&report.todo_locations), vec!["L1".to_string()]);
    assert_eq!(cities(&report.finised_locations), vec!["L1".to_string()]);
    let none: Option<TaskState> = None;
    assert!(none.check().is_none());
}

#[test]
fn company_record_fills_the_fields() {
    let t = task(&["dentists"], &[("Austin", "TX")]);
    let place = GoogleDetailsResult {
        formatted_address: Some("1 Main St".to_string()),
        formatted_phone_number: None,
        name: None,
        website: Some("https://smile.example".to_string()),
    };
    let r = t.company_record(&place, &"dentists".to_string(), &loc("Austin", "TX"));
    assert_eq!(r.campaign_id, oid(3));
    assert_eq!(r.uid, oid(2));
    assert_eq!(r.name, "");
    assert_eq!(r.website, "https://smile.example");
    assert_eq!(r.phone, None);
    assert_eq!(r.industry, Some("dentists".to_string()));
    assert_eq!(r.address, Some("1 Main St".to_string()));
    assert_eq!(r.state, Some("TX".to_string()));
    assert_eq!(r.city, Some("Austin".to_string()));
    assert_eq!(r.zip, None);
}

#[test]
fn finish_request_targets_the_web_server() {
    let t = task(&[], &[]);
    let r = t.finish_request("http://web:8000");
    assert_eq!(r.url, "http://web:8000/update-worker-state");
    assert_eq!(r.cid, oid(3));
    assert_eq!(r.worker_id, oid(1));
    assert_eq!(finish_result(true), Ok(()));
    assert_eq!(finish_result(false), Err(Error::FailedUpdateWorkerState));
}
