use vstd::prelude::*;
use crate::errors::Error;
use crate::places::GoogleDetailsResult;
use crate::taskstate::{CycleCmd, Location, SearchStep, TaskState, TaskView, next_search_spec};
use crate::text::{decimal, join, usize_to_decimal};

verus! {

/// Where a work cycle stands; all but `Done` name the work to do next.
pub enum CyclePhase {
    /// Look up, and mark as crawled, a company of the campaign not yet crawled.
    FindUncrawled,
    /// Crawl this website for contact pages.
    Crawl { website: String },
    /// Read prospects from the pages crawled.
    ExtractProspects,
    /// Store the prospects read on the company.
    UpdateCompany,
    /// Search places for companies of this industry in this location.
    SearchPlaces { industry: String, location: Location },
    /// Build and store the company of `places[next]`, found for this
    /// industry and location.
    InsertCompanies { places: Vec<GoogleDetailsResult>, industry: String, location: Location, next: usize },
    /// The cycle is over, with this outcome.
    Done { outcome: Result<CycleCmd, Error> },
}

/// What came of the work a phase asked for.
pub enum CycleEvent {
    /// The lookup of an uncrawled company failed.
    LookupFailed,
    /// Every company of the campaign has been crawled.
    NoUncrawled,
    /// A company not yet crawled, with its website and the line that
    /// describes it.
    Uncrawled { website: String, log_line: String },
    /// The website could not be crawled.
    CrawlFailed,
    /// The website was crawled; this many contact pages were found.
    Crawled { pages: usize },
    /// The prospects could not be read.
    ExtractFailed,
    /// This many prospects were read.
    Extracted { prospects: usize },
    /// The company could not be updated.
    UpdateFailed,
    /// The company was updated.
    Updated,
    /// The place search failed.
    SearchFailed,
    /// The place search found these places.
    PlacesFound { places: Vec<GoogleDetailsResult> },
    /// The company could not be built.
    BuildFailed,
    /// The company could not be stored.
    InsertFailed,
    /// The company was stored.
    Inserted,
}

/// The phase a cycle moves to, and the line to log on the way (if any).
pub struct Transition {
    pub phase: CyclePhase,
    pub log: Option<String>,
}

/// The line logged when contact pages were found.
pub open spec fn synthesizing_line(pages: nat) -> Seq<char> {
    "synthesizing "@ + decimal(pages) + " emails"@
}

/// The line logged when prospects were read.
pub open spec fn found_line(prospects: nat) -> Seq<char> {
    "found "@ + decimal(prospects) + " prospects"@
}

/// The line logged when a place search succeeded.
pub open spec fn finding_line(industry: Seq<char>, city: Seq<char>, state: Seq<char>) -> Seq<char> {
    "finding "@ + industry + " organizations in "@ + city + ", "@ + state
}

/// The phase that stores the places found, or the end of the cycle when
/// there are none.
pub open spec fn insert_phase(places: Vec<GoogleDetailsResult>, industry: String, location: Location, next: usize) -> CyclePhase {
    if next < places.len() {
        CyclePhase::InsertCompanies { places, industry, location, next }
    } else {
        CyclePhase::Done { outcome: Ok(CycleCmd::OK) }
    }
}

/// One step of a work cycle: the task, the phase and the line logged after
/// event `e` in phase `p` of task `t`. An event that does not answer the
/// phase's work changes nothing.
pub open spec fn step_spec(t: TaskView, p: CyclePhase, e: CycleEvent) -> (TaskView, CyclePhase, Option<Seq<char>>) {
    match p {
        CyclePhase::FindUncrawled => match e {
            CycleEvent::LookupFailed => (t, CyclePhase::Done { outcome: Ok(CycleCmd::CONTINUE) }, None),
            CycleEvent::NoUncrawled => {
                let (t2, s) = next_search_spec(t);
                match s {
                    None => (t2, CyclePhase::Done { outcome: Ok(CycleCmd::FINISHED) }, None),
                    Some((industry, location)) => (t2, CyclePhase::SearchPlaces { industry, location }, None),
                }
            },
            CycleEvent::Uncrawled { website, log_line } => (t, CyclePhase::Crawl { website }, Some(log_line@)),
            _ => (t, p, None),
        },
        CyclePhase::Crawl { .. } => match e {
            CycleEvent::CrawlFailed => (t, CyclePhase::Done { outcome: Err(Error::FailedCrawl) }, None),
            CycleEvent::Crawled { pages } => (
                t,
                CyclePhase::ExtractProspects,
                if pages > 0 { Some(synthesizing_line(pages as nat)) } else { None },
            ),
            _ => (t, p, None),
        },
        CyclePhase::ExtractProspects => match e {
            CycleEvent::ExtractFailed => (t, CyclePhase::Done { outcome: Err(Error::FailedProspectExtraction) }, None),
            CycleEvent::Extracted { prospects } => if prospects > 0 {
                (t, CyclePhase::UpdateCompany, Some(found_line(prospects as nat)))
            } else {
                (t, CyclePhase::Done { outcome: Ok(CycleCmd::OK) }, None)
            },
            _ => (t, p, None),
        },
        CyclePhase::UpdateCompany => match e {
            CycleEvent::UpdateFailed => (t, CyclePhase::Done { outcome: Err(Error::FailedToUdateCompany) }, None),
            CycleEvent::Updated => (t, CyclePhase::Done { outcome: Ok(CycleCmd::OK) }, None),
            _ => (t, p, None),
        },
        CyclePhase::SearchPlaces { industry, location } => match e {
            CycleEvent::SearchFailed => (t, CyclePhase::Done { outcome: Ok(CycleCmd::CONTINUE) }, None),
            CycleEvent::PlacesFound { places } => (
                t,
                insert_phase(places, industry, location, 0),
                Some(finding_line(industry@, location.city@, location.state@)),
            ),
            _ => (t, p, None),
        },
        CyclePhase::InsertCompanies { places, industry, location, next } => match e {
            CycleEvent::BuildFailed => (t, CyclePhase::Done { outcome: Err(Error::FailedToBuildCompany) }, None),
            CycleEvent::InsertFailed => (t, CyclePhase::Done { outcome: Err(Error::FailedToInsertCompany) }, None),
            CycleEvent::Inserted => if next + 1 < places.len() {
                (t, CyclePhase::InsertCompanies { places, industry, location, next: (next + 1) as usize }, None)
            } else {
                (t, CyclePhase::Done { outcome: Ok(CycleCmd::OK) }, None)
            },
            _ => (t, p, None),
        },
        CyclePhase::Done { .. } => (t, p, None),
    }
}

/// The well-formedness of a phase: a company to store is one of the places.
pub open spec fn phase_wf(p: CyclePhase) -> bool {
    match p {
        CyclePhase::InsertCompanies { places, next, .. } => next < places.len(),
        _ => true,
    }
}

/// The line whose characters are `s`, if any.
pub open spec fn line_of(l: Option<String>) -> Option<Seq<char>> {
    match l {
        Some(s) => Some(s@),
        None => None,
    }
}

/// What a worker does once a cycle is over.
#[derive(Debug, Clone, Copy, PartialEq, Eq, Structural)]
pub enum AfterCycle {
    /// Run another cycle.
    Continue,
    /// Mark the task finished and drop it.
    Finish,
}

/// The worker finishes its task exactly when a cycle reports that every
/// combination has been searched; failures and other outcomes lead to
/// another cycle.
pub fn after_cycle(outcome: &Result<CycleCmd, Error>) -> (a: AfterCycle)
    ensures
        (a == AfterCycle::Finish) <==> (*outcome == Ok::<CycleCmd, Error>(CycleCmd::FINISHED)),
{
    match outcome {
        Ok(CycleCmd::FINISHED) => AfterCycle::Finish,
        _ => AfterCycle::Continue,
    }
}

impl TaskState {
    /// Advances a work cycle of the task by the event `event` in phase
    /// `phase`, as `step_spec` describes.
    pub fn cycle_step(&mut self, phase: CyclePhase, event: CycleEvent) -> (tr: Transition)
        requires
            phase_wf(phase),
        ensures
            phase_wf(tr.phase),
            (final(self)@, tr.phase, line_of(tr.log)) == step_spec(old(self)@, phase, event),
    {
        match phase {
            CyclePhase::FindUncrawled => match event {
                CycleEvent::LookupFailed => Transition { phase: CyclePhase::Done { outcome: Ok(CycleCmd::CONTINUE) }, log: None },
                CycleEvent::NoUncrawled => match self.next_search() {
                    SearchStep::Finished => Transition { phase: CyclePhase::Done { outcome: Ok(CycleCmd::FINISHED) }, log: None },
                    SearchStep::Search { industry, location } => Transition { phase: CyclePhase::SearchPlaces { industry, location }, log: None },
                },
                CycleEvent::Uncrawled { website, log_line } => Transition { phase: CyclePhase::Crawl { website }, log: Some(log_line) },
                _ => Transition { phase: CyclePhase::FindUncrawled, log: None },
            },
            CyclePhase::Crawl { website } => match event {
                CycleEvent::CrawlFailed => Transition { phase: CyclePhase::Done { outcome: Err(Error::FailedCrawl) }, log: None },
                CycleEvent::Crawled { pages } => {
                    let log = if pages > 0 {
                        let l = join("synthesizing ", usize_to_decimal(pages).as_str());
                        Some(join(l.as_str(), " emails"))
                    } else {
                        None
                    };
                    Transition { phase: CyclePhase::ExtractProspects, log }
                },
                _ => Transition { phase: CyclePhase::Crawl { website }, log: None },
            },
            CyclePhase::ExtractProspects => match event {
                CycleEvent::ExtractFailed => Transition { phase: CyclePhase::Done { outcome: Err(Error::FailedProspectExtraction) }, log: None },
                CycleEvent::Extracted { prospects } => if prospects > 0 {
                    let l = join("found ", usize_to_decimal(prospects).as_str());
                    Transition { phase: CyclePhase::UpdateCompany, log: Some(join(l.as_str(), " prospects")) }
                } else {
                    Transition { phase: CyclePhase::Done { outcome: Ok(CycleCmd::OK) }, log: None }
                },
                _ => Transition { phase: CyclePhase::ExtractProspects, log: None },
            },
            CyclePhase::UpdateCompany => match event {
                CycleEvent::UpdateFailed => Transition { phase: CyclePhase::Done { outcome: Err(Error::FailedToUdateCompany) }, log: None },
                CycleEvent::Updated => Transition { phase: CyclePhase::Done { outcome: Ok(CycleCmd::OK) }, log: None },
                _ => Transition { phase: CyclePhase::UpdateCompany, log: None },
            },
            CyclePhase::SearchPlaces { industry, location } => match event {
                CycleEvent::SearchFailed => Transition { phase: CyclePhase::Done { outcome: Ok(CycleCmd::CONTINUE) }, log: None },
                CycleEvent::PlacesFound { places } => {
                    let l = join("finding ", industry.as_str());
                    let l = join(l.as_str(), " organizations in ");
                    let l = join(l.as_str(), location.city.as_str());
                    let l = join(l.as_str(), ", ");
                    let l = join(l.as_str(), location.state.as_str());
                    proof {
                        assert(l@ =~= finding_line(industry@, location.city@, location.state@));
                    }
                    let phase = if 0 < places.len() {
                        CyclePhase::InsertCompanies { places, industry, location, next: 0 }
                    } else {
                        CyclePhase::Done { outcome: Ok(CycleCmd::OK) }
                    };
                    Transition { phase, log: Some(l) }
                },
                _ => Transition { phase: CyclePhase::SearchPlaces { industry, location }, log: None },
            },
            CyclePhase::InsertCompanies { places, industry, location, next } => match event {
                CycleEvent::BuildFailed => Transition { phase: CyclePhase::Done { outcome: Err(Error::FailedToBuildCompany) }, log: None },
                CycleEvent::InsertFailed => Transition { phase: CyclePhase::Done { outcome: Err(Error::FailedToInsertCompany) }, log: None },
                CycleEvent::Inserted => if next + 1 < places.len() {
                    Transition { phase: CyclePhase::InsertCompanies { places, industry, location, next: next + 1 }, log: None }
                } else {
                    Transition { phase: CyclePhase::Done { outcome: Ok(CycleCmd::OK) }, log: None }
                },
                _ => Transition { phase: CyclePhase::InsertCompanies { places, industry, location, next }, log: None },
            },
            CyclePhase::Done { outcome } => Transition { phase: CyclePhase::Done { outcome }, log: None },
        }
    }
}

/// How far a phase is from the end of the cycle.
pub open spec fn stage(p: CyclePhase) -> nat {
    match p {
        CyclePhase::FindUncrawled => 4,
        CyclePhase::Crawl { .. } => 3,
        CyclePhase::SearchPlaces { .. } => 3,
        CyclePhase::ExtractProspects => 2,
        CyclePhase::InsertCompanies { .. } => 2,
        CyclePhase::UpdateCompany => 1,
        CyclePhase::Done { .. } => 0,
    }
}

/// The companies still to store in a phase.
pub open spec fn pending(p: CyclePhase) -> nat {
    match p {
        CyclePhase::InsertCompanies { places, next, .. } => (places.len() - next) as nat,
        _ => 0,
    }
}

/// A cycle always ends: an event either leaves the phase as it is, or moves
/// the cycle to a later stage, or, while storing companies, to fewer
/// companies left to store.
pub proof fn lemma_cycle_progress(t: TaskView, p: CyclePhase, e: CycleEvent)
    requires
        phase_wf(p),
    ensures
        ({
            let p2 = step_spec(t, p, e).1;
            p2 == p || stage(p2) < stage(p) || (stage(p2) == stage(p) && pending(p2) < pending(p))
        }),
{
}

/// A finished cycle stays finished: it ignores every event.
pub proof fn lemma_done_is_final(t: TaskView, outcome: Result<CycleCmd, Error>, e: CycleEvent)
    ensures
        step_spec(t, CyclePhase::Done { outcome }, e) == (t, CyclePhase::Done { outcome }, None::<Seq<char>>),
{
}

/// The task's queues change only when the cycle finds no company left to
/// crawl and takes the next combination to search.
pub proof fn lemma_cycle_touches_task_only_to_search(t: TaskView, p: CyclePhase, e: CycleEvent)
    ensures
        step_spec(t, p, e).0 != t ==> p is FindUncrawled && e is NoUncrawled,
        p is FindUncrawled && e is NoUncrawled ==> step_spec(t, p, e).0 == next_search_spec(t).0,
{
}

/// A cycle reports that every combination has been searched exactly when it
/// found no company to crawl and no combination was left.
pub proof fn lemma_cycle_finished(t: TaskView, p: CyclePhase, e: CycleEvent)
    ensures
        step_spec(t, p, e).1 == (CyclePhase::Done { outcome: Ok(CycleCmd::FINISHED) }) <==> (
            (p is FindUncrawled && e is NoUncrawled && next_search_spec(t).1 is None)
            || p == (CyclePhase::Done { outcome: Ok(CycleCmd::FINISHED) })
        ),
{
}

/// Looking for a company to crawl: a failed lookup ends the cycle to be
/// tried again; a company found is crawled next, its line logged; with no
/// company left, the task takes its next combination and the cycle searches
/// it, or the cycle reports the task finished. Other events change nothing.
pub proof fn lemma_cycle_find_uncrawled(t: TaskView, e: CycleEvent)
    ensures
        ({
            let (t2, p2, log) = step_spec(t, CyclePhase::FindUncrawled, e);
            &&& e is LookupFailed ==> t2 == t && p2 == (CyclePhase::Done { outcome: Ok(CycleCmd::CONTINUE) }) && log is None
            &&& (e matches CycleEvent::Uncrawled { website, log_line } ==>
                    t2 == t && p2 == (CyclePhase::Crawl { website }) && log == Some(log_line@))
            &&& e is NoUncrawled ==> {
                &&& t2 == next_search_spec(t).0
                &&& log is None
                &&& next_search_spec(t).1 is None ==> p2 == (CyclePhase::Done { outcome: Ok(CycleCmd::FINISHED) })
                &&& (next_search_spec(t).1 matches Some((i, l)) ==> p2 == (CyclePhase::SearchPlaces { industry: i, location: l }))
            }
            &&& !(e is LookupFailed || e is Uncrawled || e is NoUncrawled) ==>
                    t2 == t && p2 == CyclePhase::FindUncrawled && log is None
        }),
{
}

/// Crawling: a failed crawl ends the cycle with `FailedCrawl`; a crawl moves
/// on to reading prospects, logging the number of pages found when there are
/// any. Other events change nothing. The task is never touched.
pub proof fn lemma_cycle_crawl(t: TaskView, website: String, e: CycleEvent)
    ensures
        ({
            let (t2, p2, log) = step_spec(t, CyclePhase::Crawl { website }, e);
            &&& t2 == t
            &&& e is CrawlFailed ==> p2 == (CyclePhase::Done { outcome: Err(Error::FailedCrawl) }) && log is None
            &&& (e matches CycleEvent::Crawled { pages } ==> {
                &&& p2 == CyclePhase::ExtractProspects
                &&& (pages > 0 <==> log is Some)
                &&& pages > 0 ==> log == Some("synthesizing "@ + decimal(pages as nat) + " emails"@)
            })
            &&& !(e is CrawlFailed || e is Crawled) ==> p2 == (CyclePhase::Crawl { website }) && log is None
        }),
{
}

/// Reading prospects: a failure ends the cycle with
/// `FailedProspectExtraction`. When at least one prospect was read the cycle
/// goes on to store them on the company, logging their number; when none was
/// read the cycle is over with `OK` and nothing logged. Other events change
/// nothing. The task is never touched.
pub proof fn lemma_cycle_extract(t: TaskView, e: CycleEvent)
    ensures
        ({
            let (t2, p2, log) = step_spec(t, CyclePhase::ExtractProspects, e);
            &&& t2 == t
            &&& e is ExtractFailed ==> p2 == (CyclePhase::Done { outcome: Err(Error::FailedProspectExtraction) }) && log is None
            &&& (e matches CycleEvent::Extracted { prospects } ==> {
                &&& (p2 == CyclePhase::UpdateCompany <==> prospects > 0)
                &&& (p2 == (CyclePhase::Done { outcome: Ok(CycleCmd::OK) }) <==> prospects == 0)
                &&& (log is Some <==> prospects > 0)
                &&& prospects > 0 ==> log == Some("found "@ + decimal(prospects as nat) + " prospects"@)
            })
            &&& !(e is ExtractFailed || e is Extracted) ==> p2 == CyclePhase::ExtractProspects && log is None
        }),
{
}

/// Storing prospects: a failure ends the cycle with `FailedToUdateCompany`,
/// success with `OK`. Other events change nothing.
pub proof fn lemma_cycle_update(t: TaskView, e: CycleEvent)
    ensures
        ({
            let (t2, p2, log) = step_spec(t, CyclePhase::UpdateCompany, e);
            &&& t2 == t && log is None
            &&& e is UpdateFailed ==> p2 == (CyclePhase::Done { outcome: Err(Error::FailedToUdateCompany) })
            &&& e is Updated ==> p2 == (CyclePhase::Done { outcome: Ok(CycleCmd::OK) })
            &&& !(e is UpdateFailed || e is Updated) ==> p2 == CyclePhase::UpdateCompany
        }),
{
}

/// Searching places: a failed search ends the cycle to be tried again. A
/// search logs what was searched and goes on to store the first place found,
/// or ends the cycle with `OK` when nothing was found. Other events change
/// nothing. The task is never touched.
pub proof fn lemma_cycle_search(t: TaskView, industry: String, location: Location, e: CycleEvent)
    ensures
        ({
            let (t2, p2, log) = step_spec(t, CyclePhase::SearchPlaces { industry, location }, e);
            &&& t2 == t
            &&& e is SearchFailed ==> p2 == (CyclePhase::Done { outcome: Ok(CycleCmd::CONTINUE) }) && log is None
            &&& (e matches CycleEvent::PlacesFound { places } ==> {
                &&& log == Some("finding "@ + industry@ + " organizations in "@ + location.city@ + ", "@ + location.state@)
                &&& places.len() > 0 ==> p2 == (CyclePhase::InsertCompanies { places, industry, location, next: 0 })
                &&& places.len() == 0 ==> p2 == (CyclePhase::Done { outcome: Ok(CycleCmd::OK) })
            })
            &&& !(e is SearchFailed || e is PlacesFound) ==> p2 == (CyclePhase::SearchPlaces { industry, location }) && log is None
        }),
{
}

/// Storing companies: a company that cannot be built ends the cycle with
/// `FailedToBuildCompany`, one that cannot be stored with
/// `FailedToInsertCompany`; each company stored moves on to the next place,
/// and the last one ends the cycle with `OK`. Other events change nothing.
pub proof fn lemma_cycle_insert(t: TaskView, places: Vec<GoogleDetailsResult>, industry: String, location: Location, next: usize, e: CycleEvent)
    requires
        next < places.len(),
    ensures
        ({
            let p = CyclePhase::InsertCompanies { places, industry, location, next };
            let (t2, p2, log) = step_spec(t, p, e);
            &&& t2 == t && log is None
            &&& e is BuildFailed ==> p2 == (CyclePhase::Done { outcome: Err(Error::FailedToBuildCompany) })
            &&& e is InsertFailed ==> p2 == (CyclePhase::Done { outcome: Err(Error::FailedToInsertCompany) })
            &&& e is Inserted && next + 1 < places.len() ==>
                    p2 == (CyclePhase::InsertCompanies { places, industry, location, next: (next + 1) as usize })
            &&& e is Inserted && next + 1 == places.len() ==> p2 == (CyclePhase::Done { outcome: Ok(CycleCmd::OK) })
            &&& !(e is BuildFailed || e is InsertFailed || e is Inserted) ==> p2 == p
        }),
{
}

} // verus!
