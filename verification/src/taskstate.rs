use vstd::prelude::*;
use std::collections::VecDeque;
use bson::oid::ObjectId;
use crate::places::GoogleDetailsResult;
use crate::errors::Error;
use crate::text::join;

verus! {

/// Identifiers of tasks, users, campaigns and companies; carried through
/// unchanged.
#[verifier::external_type_specification]
#[verifier::external_body]
pub struct ExObjectId(ObjectId);

/// A place to search for companies in.
#[derive(Debug, Clone)]
pub struct Location {
    pub city: String,
    pub state: String,
}

impl Location {
    /// A copy of this location.
    pub fn duplicate(&self) -> (r: Location)
        ensures
            r == *self,
    {
        Location { city: self.city.clone(), state: self.state.clone() }
    }
}

/// A copy of a list of locations, element by element.
pub fn copy_locations(v: &Vec<Location>) -> (r: Vec<Location>)
    ensures
        r@ == v@,
{
    let mut r: Vec<Location> = Vec::new();
    let mut i: usize = 0;
    while i < v.len()
        invariant
            i <= v.len(),
            r@ == v@.take(i as int),
        decreases v.len() - i,
    {
        r.push(v[i].duplicate());
        i = i + 1;
        assert(r@ == v@.take(i as int));
    }
    assert(v@.take(v.len() as int) == v@);
    r
}

/// The request that starts a task: its identifiers, and the industries and
/// locations to combine.
pub struct NewTask {
    pub id: ObjectId,
    pub uid: ObjectId,
    pub campaign_id: ObjectId,
    pub industries: Vec<String>,
    pub locations: Vec<Location>,
}

/// Outcome of one work cycle.
#[derive(Debug, Clone, Copy, PartialEq, Eq, Structural)]
pub enum CycleCmd {
    /// The cycle did its work.
    OK,
    /// Every combination of industry and location has been searched.
    FINISHED,
    /// Nothing was done this time; try again.
    CONTINUE,
}

/// The state of a running task: which industries and locations are still
/// to be searched, and the locations already taken.
pub struct TaskState {
    id: ObjectId,
    uid: ObjectId,
    campaign_id: ObjectId,
    /// Industries not yet taken, front first.
    q_industries: VecDeque<String>,
    /// The industry of the current round over the locations.
    current_industry: Option<String>,
    finished_industries: Vec<String>,
    /// Locations still to be searched in this round, front first.
    q_locations: VecDeque<Location>,
    /// Locations taken so far, in the order taken.
    locations: Vec<Location>,
}

/// The abstract state of a task.
pub struct TaskView {
    pub id: ObjectId,
    pub uid: ObjectId,
    pub campaign_id: ObjectId,
    pub q_industries: Seq<String>,
    pub current_industry: Option<String>,
    pub finished_industries: Seq<String>,
    pub q_locations: Seq<Location>,
    pub locations: Seq<Location>,
}

impl View for TaskState {
    type V = TaskView;

    closed spec fn view(&self) -> TaskView {
        TaskView {
            id: self.id,
            uid: self.uid,
            campaign_id: self.campaign_id,
            q_industries: self.q_industries@,
            current_industry: self.current_industry,
            finished_industries: self.finished_industries@,
            q_locations: self.q_locations@,
            locations: self.locations@,
        }
    }
}

/// The state of a task just started from `nt`.
pub open spec fn new_task_spec(nt: NewTask) -> TaskView {
    TaskView {
        id: nt.id,
        uid: nt.uid,
        campaign_id: nt.campaign_id,
        q_industries: nt.industries@,
        current_industry: None,
        finished_industries: Seq::empty(),
        q_locations: nt.locations@,
        locations: Seq::empty(),
    }
}

/// The next combination to search, from the state `s` with its first
/// queued location `l` just taken: the current industry if there is one,
/// else the next queued industry, which is taken from the queue for this
/// location only.
pub open spec fn pick_industry(s: TaskView, l: Location) -> (TaskView, Option<(String, Location)>) {
    match s.current_industry {
        Some(c) => (s, Some((c, l))),
        None => if s.q_industries.len() == 0 {
            (s, None)
        } else {
            (TaskView { q_industries: s.q_industries.drop_first(), ..s }, Some((s.q_industries[0], l)))
        },
    }
}

/// One step through the combinations of industries and locations: the new
/// state, and the combination to search (`None`: the task is finished).
///
/// A queued location is taken and recorded among the taken locations. When no
/// location is queued, the next industry becomes the current one and the
/// taken locations are queued again for it; without a further industry, or
/// without any taken location, the task is finished.
pub open spec fn next_search_spec(s: TaskView) -> (TaskView, Option<(String, Location)>) {
    if s.q_locations.len() > 0 {
        let l = s.q_locations[0];
        pick_industry(
            TaskView { q_locations: s.q_locations.drop_first(), locations: s.locations.push(l), ..s },
            l,
        )
    } else if s.q_industries.len() == 0 {
        (s, None)
    } else {
        let r = TaskView {
            q_industries: s.q_industries.drop_first(),
            current_industry: Some(s.q_industries[0]),
            q_locations: s.locations,
            ..s
        };
        if r.q_locations.len() == 0 {
            (r, None)
        } else {
            pick_industry(TaskView { q_locations: r.q_locations.drop_first(), ..r }, r.q_locations[0])
        }
    }
}

/// What a step through the combinations asks for.
pub enum SearchStep {
    /// No combination is left.
    Finished,
    /// Search for companies of this industry in this location.
    Search { industry: String, location: Location },
}

impl SearchStep {
    pub open spec fn as_option(self) -> Option<(String, Location)> {
        match self {
            SearchStep::Finished => None,
            SearchStep::Search { industry, location } => Some((industry, location)),
        }
    }
}

/// A copy of a queue of strings, element by element.
fn copy_strings(q: &VecDeque<String>) -> (r: VecDeque<String>)
    ensures
        r@ == q@,
{
    let mut r: VecDeque<String> = VecDeque::new();
    let mut i: usize = 0;
    while i < q.len()
        invariant
            i <= q.len(),
            r@ == q@.take(i as int),
        decreases q.len() - i,
    {
        r.push_back(q[i].clone());
        i = i + 1;
        assert(r@ == q@.take(i as int));
    }
    assert(q@.take(q.len() as int) == q@);
    r
}

/// A queue holding the elements of `v` in order.
fn queue_of<T>(v: Vec<T>) -> (q: VecDeque<T>)
    ensures
        q@ == v@,
{
    let mut v = v;
    let mut q: VecDeque<T> = VecDeque::new();
    let ghost orig = v@;
    while v.len() > 0
        invariant
            orig == v@ + q@,
        decreases v.len(),
    {
        let ghost before_v = v@;
        let ghost before_q = q@;
        let x = v.pop().unwrap();
        q.push_front(x);
        assert(v@ + q@ =~= before_v + before_q);
    }
    assert(v@ + q@ =~= q@);
    q
}

impl TaskState {
    /// The state of a task just started: all industries and locations queued
    /// in the order given, no current industry, nothing taken yet.
    pub fn new(nts: NewTask) -> (t: TaskState)
        ensures
            t@ == new_task_spec(nts),
    {
        TaskState {
            id: nts.id,
            uid: nts.uid,
            campaign_id: nts.campaign_id,
            q_industries: queue_of(nts.industries),
            current_industry: None,
            finished_industries: Vec::new(),
            q_locations: queue_of(nts.locations),
            locations: Vec::new(),
        }
    }

    /// Queues one more industry, after those already queued.
    pub fn add_industry(&mut self, i: String)
        ensures
            final(self)@ == (TaskView { q_industries: old(self)@.q_industries.push(i), ..old(self)@ }),
    {
        self.q_industries.push_back(i);
    }

    /// Queues one more location, after those already queued.
    pub fn add_location(&mut self, i: Location)
        ensures
            final(self)@ == (TaskView { q_locations: old(self)@.q_locations.push(i), ..old(self)@ }),
    {
        self.q_locations.push_back(i);
    }

    /// The locations taken so far, in the order taken.
    pub fn loc(&self) -> (r: Vec<Location>)
        ensures
            r@ == self@.locations,
    {
        copy_locations(&self.locations)
    }

    /// The industries still queued, front first.
    pub fn ind(&self) -> (r: VecDeque<String>)
        ensures
            r@ == self@.q_industries,
    {
        copy_strings(&self.q_industries)
    }

    /// The identifier of the task.
    pub fn id(&self) -> (r: ObjectId)
        ensures
            r == self@.id,
    {
        self.id
    }

    /// The identifier of the user who owns the task.
    pub fn uid(&self) -> (r: ObjectId)
        ensures
            r == self@.uid,
    {
        self.uid
    }

    /// The identifier of the campaign the task works for.
    pub fn campaign_id(&self) -> (r: ObjectId)
        ensures
            r == self@.campaign_id,
    {
        self.campaign_id
    }

    /// Takes the next combination of industry and location to search, as
    /// `next_search_spec` describes.
    pub fn next_search(&mut self) -> (step: SearchStep)
        ensures
            (final(self)@, step.as_option()) == next_search_spec(old(self)@),
    {
        let location = match self.q_locations.pop_front() {
            Some(l) => {
                self.locations.push(l.duplicate());
                l
            },
            None => {
                let ci = match self.q_industries.pop_front() {
                    Some(ci) => ci,
                    None => {
                        return SearchStep::Finished;
                    },
                };
                self.current_industry = Some(ci);
                self.q_locations = queue_of(copy_locations(&self.locations));
                match self.q_locations.pop_front() {
                    Some(loc) => loc,
                    None => {
                        return SearchStep::Finished;
                    },
                }
            },
        };
        let industry = match &self.current_industry {
            Some(ci) => ci.clone(),
            None => match self.q_industries.pop_front() {
                Some(ci) => ci,
                None => {
                    return SearchStep::Finished;
                },
            },
        };
        SearchStep::Search { industry, location }
    }
}

/// A list of the strings of a queue, front first.
fn vec_of_strings(q: &VecDeque<String>) -> (r: Vec<String>)
    ensures
        r@ == q@,
{
    let mut r: Vec<String> = Vec::new();
    let mut i: usize = 0;
    while i < q.len()
        invariant
            i <= q.len(),
            r@ == q@.take(i as int),
        decreases q.len() - i,
    {
        r.push(q[i].clone());
        i = i + 1;
        assert(r@ == q@.take(i as int));
    }
    assert(q@.take(q.len() as int) == q@);
    r
}

/// A copy of a list of strings.
fn copy_string_vec(v: &Vec<String>) -> (r: Vec<String>)
    ensures
        r@ == v@,
{
    let mut r: Vec<String> = Vec::new();
    let mut i: usize = 0;
    while i < v.len()
        invariant
            i <= v.len(),
            r@ == v@.take(i as int),
        decreases v.len() - i,
    {
        r.push(v[i].clone());
        i = i + 1;
        assert(r@ == v@.take(i as int));
    }
    assert(v@.take(v.len() as int) == v@);
    r
}

/// A report on the progress of a task.
pub struct Check {
    pub current_industry: Option<String>,
    pub todo_industries: Vec<String>,
    pub finished_industries: Vec<String>,
    pub todo_locations: Vec<Location>,
    pub finised_locations: Vec<Location>,
}

/// Something that can report on the progress of a task.
pub trait Checkable {
    fn check(&self) -> Option<Check>;
}

impl Checkable for Option<TaskState> {
    /// The progress report of the running task, `None` when no task runs.
    /// Both location lists of the report hold the locations taken so far.
    fn check(&self) -> (r: Option<Check>)
        ensures
            match (self, r) {
                (None, None) => true,
                (Some(t), Some(c)) => {
                    &&& c.current_industry == t@.current_industry
                    &&& c.todo_industries@ == t@.q_industries
                    &&& c.finished_industries@ == t@.finished_industries
                    &&& c.todo_locations@ == t@.locations
                    &&& c.finised_locations@ == t@.locations
                },
                _ => false,
            },
    {
        match self {
            None => None,
            Some(ts) => {
                let current_industry = match &ts.current_industry {
                    Some(c) => Some(c.clone()),
                    None => None,
                };
                Some(Check {
                    current_industry,
                    todo_industries: vec_of_strings(&ts.q_industries),
                    finished_industries: copy_string_vec(&ts.finished_industries),
                    todo_locations: copy_locations(&ts.locations),
                    finised_locations: copy_locations(&ts.locations),
                })
            },
        }
    }
}

/// The company to store for a place found by a search.
pub struct CompanyRecord {
    pub campaign_id: ObjectId,
    pub uid: ObjectId,
    pub name: String,
    pub website: String,
    pub phone: Option<String>,
    pub industry: Option<String>,
    pub address: Option<String>,
    pub state: Option<String>,
    pub city: Option<String>,
    pub zip: Option<String>,
}

/// The characters of an optional text, none when absent.
pub open spec fn text_or_empty(o: Option<String>) -> Seq<char> {
    match o {
        Some(s) => s@,
        None => Seq::empty(),
    }
}

/// Whether `r` is the company to store for `place`, found by a search for
/// `industry` in `location` on behalf of the task `t`.
pub open spec fn is_company_record(r: CompanyRecord, t: TaskView, place: GoogleDetailsResult, industry: String, location: Location) -> bool {
    &&& r.campaign_id == t.campaign_id
    &&& r.uid == t.uid
    &&& r.name@ == text_or_empty(place.name)
    &&& r.website@ == text_or_empty(place.website)
    &&& r.phone == place.formatted_phone_number
    &&& r.industry == Some(industry)
    &&& r.address == place.formatted_address
    &&& r.state == Some(location.state)
    &&& r.city == Some(location.city)
    &&& r.zip is None
}

/// A copy of an optional text.
fn copy_opt(o: &Option<String>) -> (r: Option<String>)
    ensures
        r == *o,
{
    match o {
        Some(s) => Some(s.clone()),
        None => None,
    }
}

/// The text, or an empty one when absent.
fn text_or_default(o: &Option<String>) -> (r: String)
    ensures
        r@ == text_or_empty(*o),
{
    match o {
        Some(s) => s.clone(),
        None => String::new(),
    }
}

/// The request that marks a worker's task as finished on the web server.
pub struct FinishRequest {
    /// Where to send it.
    pub url: String,
    /// The campaign of the task.
    pub cid: ObjectId,
    /// The task.
    pub worker_id: ObjectId,
}

/// The outcome of marking the task finished, from whether the request was
/// sent.
pub fn finish_result(sent: bool) -> (r: Result<(), Error>)
    ensures
        sent ==> r is Ok,
        !sent ==> r == Err::<(), Error>(Error::FailedUpdateWorkerState),
{
    if sent {
        Ok(())
    } else {
        Err(Error::FailedUpdateWorkerState)
    }
}

impl TaskState {
    /// The company to store for `place`, found by a search for `industry`
    /// in `location`.
    pub fn company_record(&self, place: &GoogleDetailsResult, industry: &String, location: &Location) -> (r: CompanyRecord)
        ensures
            is_company_record(r, self@, *place, *industry, *location),
            r.campaign_id == self@.campaign_id,
            r.uid == self@.uid,
            place.name matches Some(n) ==> r.name@ == n@,
            place.name is None ==> r.name@.len() == 0,
            place.website matches Some(w) ==> r.website@ == w@,
            place.website is None ==> r.website@.len() == 0,
            r.phone == place.formatted_phone_number,
            r.industry == Some(*industry),
            r.address == place.formatted_address,
            r.state == Some(location.state),
            r.city == Some(location.city),
            r.zip is None,
    {
        CompanyRecord {
            campaign_id: self.campaign_id,
            uid: self.uid,
            name: text_or_default(&place.name),
            website: text_or_default(&place.website),
            phone: copy_opt(&place.formatted_phone_number),
            industry: Some(industry.clone()),
            address: copy_opt(&place.formatted_address),
            state: Some(location.state.clone()),
            city: Some(location.city.clone()),
            zip: None,
        }
    }

    /// The request that marks the task finished, sent to the web server at
    /// `web_server_url`.
    pub fn finish_request(&self, web_server_url: &str) -> (r: FinishRequest)
        ensures
            r.url@ == web_server_url@ + "/update-worker-state"@,
            r.cid == self@.campaign_id,
            r.worker_id == self@.id,
    {
        FinishRequest { url: join(web_server_url, "/update-worker-state"), cid: self.campaign_id, worker_id: self.id }
    }
}

/// How much is left of the combinations: the queued industries, then the
/// queued locations.
pub open spec fn queue_measure(t: TaskView) -> (nat, nat) {
    (t.q_industries.len(), t.q_locations.len())
}

/// Whether `a` is strictly below `b`, compared first by industries, then by
/// locations.
pub open spec fn measure_below(a: (nat, nat), b: (nat, nat)) -> bool {
    a.0 < b.0 || (a.0 == b.0 && a.1 < b.1)
}

/// Stepping through the combinations always ends: a step either leaves the
/// task as it is (then the task is finished and stays so) or leaves strictly
/// less to do. Once nothing is queued, every step reports the task finished
/// and changes nothing.
pub proof fn lemma_next_search_terminates(t: TaskView)
    ensures
        next_search_spec(t).0 == t || measure_below(queue_measure(next_search_spec(t).0), queue_measure(t)),
        next_search_spec(t).0 == t ==> next_search_spec(t).1 is None,
        t.q_industries.len() == 0 && t.q_locations.len() == 0 ==> next_search_spec(t) == (t, None::<(String, Location)>),
{
    if t.q_locations.len() > 0 {
        let t1 = TaskView { q_locations: t.q_locations.drop_first(), locations: t.locations.push(t.q_locations[0]), ..t };
        assert(t1.q_locations.len() < t.q_locations.len());
        assert(t1 != t);
    }
}

/// A step through the combinations keeps the identifiers of the task and its
/// finished industries.
pub proof fn lemma_next_search_keeps_identity(t: TaskView)
    ensures
        next_search_spec(t).0.id == t.id,
        next_search_spec(t).0.uid == t.uid,
        next_search_spec(t).0.campaign_id == t.campaign_id,
        next_search_spec(t).0.finished_industries == t.finished_industries,
{
}

/// Every location searched is recorded among the locations taken, and is
/// the first location queued when one was queued; the industry searched is
/// the current industry, or the first industry queued.
pub proof fn lemma_next_search_combination(t: TaskView)
    ensures
        match next_search_spec(t) {
            (t2, Some((i, l))) => {
                &&& t2.locations.contains(l)
                &&& t.q_locations.len() > 0 ==> l == t.q_locations[0]
                &&& (i == t2.current_industry->0 && t2.current_industry is Some)
                    || (t.q_industries.len() > 0 && i == t.q_industries[0])
            },
            (_, None) => true,
        },
{
    if t.q_locations.len() > 0 {
        let l = t.q_locations[0];
        assert(t.locations.push(l)[t.locations.len() as int] == l);
    } else if t.q_industries.len() > 0 && t.locations.len() > 0 {
        assert(t.locations[0] == t.locations[0]);
    }
}

/// A queued industry is reported back at the end of the queue.
pub proof fn lemma_add_industry_then_ind(t: TaskView, i: String)
    ensures
        (TaskView { q_industries: t.q_industries.push(i), ..t }).q_industries.last() == i,
        (TaskView { q_industries: t.q_industries.push(i), ..t }).q_industries.drop_last() == t.q_industries,
{
}

/// A task just started holds all its industries and locations queued in
/// the order given, has no current industry, and has taken nothing.
pub proof fn lemma_new_task(nt: NewTask)
    ensures
        new_task_spec(nt).q_industries == nt.industries@,
        new_task_spec(nt).q_locations == nt.locations@,
        new_task_spec(nt).current_industry is None,
        new_task_spec(nt).locations.len() == 0,
        new_task_spec(nt).finished_industries.len() == 0,
        new_task_spec(nt).id == nt.id,
        new_task_spec(nt).uid == nt.uid,
        new_task_spec(nt).campaign_id == nt.campaign_id,
{
}

/// A step with a location queued takes exactly that location: it leaves the
/// queue without its first location, records that location as taken, and
/// searches in it. The industry is the current one, which stays current and
/// leaves the industry queue alone; without a current industry it is the
/// first queued industry, taken off the queue for this location only; with
/// neither the task is finished.
pub proof fn lemma_next_search_with_location_queued(t: TaskView)
    requires
        t.q_locations.len() > 0,
    ensures
        ({
            let (t2, s) = next_search_spec(t);
            let l = t.q_locations[0];
            &&& t2.q_locations == t.q_locations.drop_first()
            &&& t2.locations == t.locations.push(l)
            &&& t2.current_industry == t.current_industry
            &&& t2.finished_industries == t.finished_industries
            &&& t2.id == t.id && t2.uid == t.uid && t2.campaign_id == t.campaign_id
            &&& (t.current_industry matches Some(c) ==> s == Some((c, l)) && t2.q_industries == t.q_industries)
            &&& (t.current_industry is None && t.q_industries.len() > 0 ==>
                    s == Some((t.q_industries[0], l)) && t2.q_industries == t.q_industries.drop_first())
            &&& (t.current_industry is None && t.q_industries.len() == 0 ==>
                    s is None && t2.q_industries == t.q_industries)
        }),
{
}

/// A step with no location queued starts a new round: exactly one industry,
/// the first queued, is taken off the queue and made current, and the
/// locations taken so far are queued again for it. The step searches that
/// industry in the first location taken, which leaves the queue; with no
/// location taken the task is finished. With no industry queued either, the
/// task is finished and left as it is.
pub proof fn lemma_next_search_new_round(t: TaskView)
    requires
        t.q_locations.len() == 0,
    ensures
        ({
            let (t2, s) = next_search_spec(t);
            &&& t.q_industries.len() == 0 ==> t2 == t && s is None
            &&& t.q_industries.len() > 0 ==> {
                &&& t2.q_industries == t.q_industries.drop_first()
                &&& t2.current_industry == Some(t.q_industries[0])
                &&& t2.locations == t.locations
                &&& t2.finished_industries == t.finished_industries
                &&& t2.id == t.id && t2.uid == t.uid && t2.campaign_id == t.campaign_id
                &&& t.locations.len() == 0 ==> s is None && t2.q_locations.len() == 0
                &&& t.locations.len() > 0 ==>
                        s == Some((t.q_industries[0], t.locations[0])) && t2.q_locations == t.locations.drop_first()
            }
        }),
{
}

} // verus!
