use bson::oid::ObjectId;
use spider_worker::cycle::{after_cycle, AfterCycle, CycleEvent, CyclePhase};
use spider_worker::errors::Error;
use spider_worker::places::GoogleDetailsResult;
use spider_worker::taskstate::{CycleCmd, Location, NewTask, TaskState};

fn task(industries: &[&str], locations: &[(&str, &str)]) -> TaskState {
    let id = ObjectId::from_bytes([7; 12]);
    TaskState::new(NewTask {
        id,
        uid: id,
        campaign_id: id,
        industries: industries.iter().map(|s| s.to_string()).collect(),
        locations: locations
            .iter()
            .map(|(c, s)| Location { city: c.to_string(), state: s.to_string() })
            .collect(),
    })
}

fn place(website: Option<&str>) -> GoogleDetailsResult {
    GoogleDetailsResult {
        formatted_address: None,
        formatted_phone_number: None,
        name: Some("x".to_string()),
        website: website.map(|w| w.to_string()),
    }
}

fn outcome(p: &CyclePhase) -> Option<Result<CycleCmd, Error>> {
    match p {
        CyclePhase::Done { outcome } => Some(*outcome),
        _ => None,
    }
}

#[test]
fn lookup_failure_continues() {
    let mut t = task(&["A"], &[("L", "S")]);
    let tr = t.cycle_step(CyclePhase::FindUncrawled, CycleEvent::LookupFailed);
    assert_eq!(outcome(&tr.phase), Some(Ok(CycleCmd::CONTINUE)));
    assert!(tr.log.is_none());
}

#[test]
fn crawl_path_logs_counts() {
    let mut t = task(&[], &[]);
    let tr = t.cycle_step(
        CyclePhase::FindUncrawled,
        CycleEvent::Uncrawled { website: "https://a.example".to_string(), log_line: "crawling a".to_string() },
    );
    assert_eq!(tr.log, Some("crawling a".to_string()));
    assert!(matches!(&tr.phase, CyclePhase::Crawl { website } if website == "https://a.example"));
    let tr = t.cycle_step(tr.phase, CycleEvent::Crawled { pages: 12 });
    assert_eq!(tr.log, Some("synthesizing 12 emails".to_string()));
    assert!(matches!(tr.phase, CyclePhase::ExtractProspects));
    let tr = t.cycle_step(tr.phase, CycleEvent::Extracted { prospects: 3 });
    assert_eq!(tr.log, Some("found 3 prospects".to_string()));
    assert!(matches!(tr.phase, CyclePhase::UpdateCompany));
    let tr = t.cycle_step(tr.phase, CycleEvent::Updated);
    assert_eq!(outcome(&tr.phase), Some(Ok(CycleCmd::OK)));
}

#[test]
fn crawl_without_pages_logs_nothing() {
    let mut t = task(&[], &[]);
    let tr = t.cycle_step(CyclePhase::Crawl { website: "w".to_string() }, CycleEvent::Crawled { pages: 0 });
    assert!(tr.log.is_none());
    let tr = t.cycle_step(tr.phase, CycleEvent::Extracted { prospects: 0 });
    assert!(tr.log.is_none());
    assert_eq!(outcome(&tr.phase), Some(Ok(CycleCmd::OK)));
}

#[test]
fn large_counts_are_written_in_decimal() {
    let mut t = task(&[], &[]);
    let tr = t.cycle_step(CyclePhase::ExtractProspects, CycleEvent::Extracted { prospects: 1050 });
    assert_eq!(tr.log, Some("found 1050 prospects".to_string()));
}

#[test]
fn failures_map_to_errors() {
    let mut t = task(&[], &[]);
    let tr = t.cycle_step(CyclePhase::Crawl { website: "w".to_string() }, CycleEvent::CrawlFailed);
    assert_eq!(outcome(&tr.phase), Some(Err(Error::FailedCrawl)));
    let tr = t.cycle_step(CyclePhase::ExtractProspects, CycleEvent::ExtractFailed);
    assert_eq!(outcome(&tr.phase), Some(Err(Error::FailedProspectExtraction)));
    let tr = t.cycle_step(CyclePhase::UpdateCompany, CycleEvent::UpdateFailed);
    assert_eq!(outcome(&tr.phase), Some(Err(Error::FailedToUdateCompany)));
}

#[test]
fn search_path_inserts_every_place() {
    let mut t = task(&["dentists"], &[("Austin", "TX")]);
    let tr = t.cycle_step(CyclePhase::FindUncrawled, CycleEvent::NoUncrawled);
    assert!(matches!(&tr.phase, CyclePhase::SearchPlaces { industry, location }
        if industry == "dentists" && location.city == "Austin"));
    let tr = t.cycle_step(tr.phase, CycleEvent::PlacesFound { places: vec![place(Some("a")), place(None)] });
    assert_eq!(tr.log, Some("finding dentists organizations in Austin, TX".to_string()));
    assert!(matches!(&tr.phase, CyclePhase::InsertCompanies { next: 0, .. }));
    let tr = t.cycle_step(tr.phase, CycleEvent::Inserted);
    assert!(matches!(&tr.phase, CyclePhase::InsertCompanies { next: 1, .. }));
    let tr = t.cycle_step(tr.phase, CycleEvent::Inserted);
    assert_eq!(outcome(&tr.phase), Some(Ok(CycleCmd::OK)));
}

#[test]
fn search_failures() {
    let mut t = task(&["d"], &[("A", "T")]);
    let tr = t.cycle_step(
        CyclePhase::SearchPlaces { industry: "d".to_string(), location: Location { city: "A".to_string(), state: "T".to_string() } },
        CycleEvent::SearchFailed,
    );
    assert_eq!(outcome(&tr.phase), Some(Ok(CycleCmd::CONTINUE)));
    let phase = CyclePhase::InsertCompanies {
        places: vec![place(None)],
        industry: "d".to_string(),
        location: Location { city: "A".to_string(), state: "T".to_string() },
        next: 0,
    };
    let tr = t.cycle_step(phase, CycleEvent::BuildFailed);
    assert_eq!(outcome(&tr.phase), Some(Err(Error::FailedToBuildCompany)));
    let phase = CyclePhase::InsertCompanies {
        places: vec![place(None)],
        industry: "d".to_string(),
        location: Location { city: "A".to_string(), state: "T".to_string() },
        next: 0,
    };
    let tr = t.cycle_step(phase, CycleEvent::InsertFailed);
    assert_eq!(outcome(&tr.phase), Some(Err(Error::FailedToInsertCompany)));
}

#[test]
fn no_places_ends_the_cycle() {
    let mut t = task(&[], &[]);
    let tr = t.cycle_step(
        CyclePhase::SearchPlaces { industry: "d".to_string(), location: Location { city: "A".to_string(), state: "T".to_string() } },
        CycleEvent::PlacesFound { places: vec![] },
    );
    assert_eq!(outcome(&tr.phase), Some(Ok(CycleCmd::OK)));
    assert_eq!(tr.log, Some("finding d organizations in A, T".to_string()));
}

#[test]
fn nothing_left_finishes() {
    let mut t = task(&[], &[]);
    let tr = t.cycle_step(CyclePhase::FindUncrawled, CycleEvent::NoUncrawled);
    assert_eq!(outcome(&tr.phase), Some(Ok(CycleCmd::FINISHED)));
    assert_eq!(after_cycle(&Ok(CycleCmd::FINISHED)), AfterCycle::Finish);
    assert_eq!(after_cycle(&Ok(CycleCmd::OK)), AfterCycle::Continue);
    assert_eq!(after_cycle(&Ok(CycleCmd::CONTINUE)), AfterCycle::Continue);
    assert_eq!(after_cycle(&Err(Error::FailedCrawl)), AfterCycle::Continue);
}

#[test]
fn unrelated_events_and_done_change_nothing() {
    let mut t = task(&["A"], &[("L", "S")]);
    let tr = t.cycle_step(CyclePhase::FindUncrawled, CycleEvent::Updated);
    assert!(matches!(tr.phase, CyclePhase::FindUncrawled));
    let tr = t.cycle_step(CyclePhase::Done { outcome: Ok(CycleCmd::OK) }, CycleEvent::NoUncrawled);
    assert_eq!(outcome(&tr.phase), Some(Ok(CycleCmd::OK)));
    // The queues were not touched.
    assert_eq!(t.ind().len(), 1);
    assert!(t.loc().is_empty());
}
