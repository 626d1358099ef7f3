use vstd::prelude::*;
use std::collections::VecDeque;
use crate::text::join;

verus! {

/// Reply of the place details service.
#[derive(Debug, Clone)]
pub struct GoogleDetailsResponse {
    pub html_attributions: Vec<String>,
    pub result: GoogleDetailsResult,
    pub status: String,
}

/// Details of one place.
#[derive(Debug, Clone)]
pub struct GoogleDetailsResult {
    pub formatted_address: Option<String>,
    pub formatted_phone_number: Option<String>,
    pub name: Option<String>,
    pub website: Option<String>,
}

/// One page of a text search for places.
#[derive(Debug, Clone)]
pub struct GoogleTextSearchResponseInit {
    pub html_attributions: Vec<String>,
    pub next_page_token: Option<String>,
    pub results: Vec<GoogleTextSearchResults>,
    pub status: String,
}

/// One place found by a text search.
#[derive(Debug, Clone)]
pub struct GoogleTextSearchResults {
    pub name: String,
    pub place_id: String,
}

/// The query text of a search for companies of `industry` in `city`, `state`.
pub open spec fn query_text(industry: Seq<char>, city: Seq<char>, state: Seq<char>) -> Seq<char> {
    industry + "%20in%20"@ + city + ",%20"@ + state
}

/// The address of the first page of a text search.
pub open spec fn text_search_url(query: Seq<char>, api_key: Seq<char>) -> Seq<char> {
    "https://maps.googleapis.com/maps/api/place/textsearch/json?query="@ + query + "&key="@ + api_key
}

/// The address of a further page of a text search.
pub open spec fn page_url(url: Seq<char>, token: Seq<char>) -> Seq<char> {
    url + "&pagetoken="@ + token
}

/// The address of the details of a place.
pub open spec fn details_url(place_id: Seq<char>, api_key: Seq<char>) -> Seq<char> {
    "https://maps.googleapis.com/maps/api/place/details/json?place_id="@ + place_id
        + "&fields=website,formatted_address,name,formatted_phone_number&key="@ + api_key
}

/// The identifiers of the places of a page, in order.
pub open spec fn place_ids_of(results: Seq<GoogleTextSearchResults>) -> Seq<String> {
    results.map_values(|r: GoogleTextSearchResults| r.place_id)
}

/// A search for the companies of an industry in a location.
///
/// The first page of the text search gives the places to look up; further
/// pages are requested while the service hands out continuation tokens, and
/// only their tokens are used. Then the details of each place of the first
/// page are requested in turn, and those with a website are kept.
pub struct PlaceSearch {
    url: String,
    api_key: String,
    first_page_seen: bool,
    page_tokens: VecDeque<String>,
    place_ids: Vec<String>,
    next_place: usize,
    found: Vec<GoogleDetailsResult>,
}

/// The abstract state of a place search.
pub struct PlaceSearchView {
    pub url: Seq<char>,
    pub api_key: Seq<char>,
    pub first_page_seen: bool,
    pub page_tokens: Seq<String>,
    pub place_ids: Seq<String>,
    pub next_place: nat,
    pub found: Seq<GoogleDetailsResult>,
}

impl View for PlaceSearch {
    type V = PlaceSearchView;

    closed spec fn view(&self) -> PlaceSearchView {
        PlaceSearchView {
            url: self.url@,
            api_key: self.api_key@,
            first_page_seen: self.first_page_seen,
            page_tokens: self.page_tokens@,
            place_ids: self.place_ids@,
            next_place: self.next_place as nat,
            found: self.found@,
        }
    }
}

/// What a place search asks for next.
pub enum PlaceRequest {
    /// Fetch a page of the text search at this address.
    TextPage { url: String },
    /// Fetch the details of a place at this address.
    Details { url: String },
    /// The search is complete.
    Complete,
}

impl PlaceRequest {
    pub open spec fn text_page(self) -> Option<Seq<char>> {
        match self {
            PlaceRequest::TextPage { url } => Some(url@),
            _ => None,
        }
    }

    pub open spec fn details(self) -> Option<Seq<char>> {
        match self {
            PlaceRequest::Details { url } => Some(url@),
            _ => None,
        }
    }
}

/// The request that follows the state `v`: the first page, then a page per
/// pending token, then the details of each place in turn.
pub open spec fn request_spec(v: PlaceSearchView) -> (Option<Seq<char>>, Option<Seq<char>>) {
    if !v.first_page_seen {
        (Some(v.url), None)
    } else if v.page_tokens.len() > 0 {
        (Some(page_url(v.url, v.page_tokens[0]@)), None)
    } else if v.next_place < v.place_ids.len() {
        (None, Some(details_url(v.place_ids[v.next_place as int]@, v.api_key)))
    } else {
        (None, None)
    }
}

/// The pending tokens after a page that carries `next`.
pub open spec fn with_token(tokens: Seq<String>, next: Option<String>) -> Seq<String> {
    match next {
        Some(t) => tokens.push(t),
        None => tokens,
    }
}

/// The state after a page of the text search arrives.
pub open spec fn text_page_spec(v: PlaceSearchView, page: GoogleTextSearchResponseInit) -> PlaceSearchView {
    if !v.first_page_seen {
        PlaceSearchView {
            first_page_seen: true,
            place_ids: place_ids_of(page.results@),
            page_tokens: with_token(v.page_tokens, page.next_page_token),
            ..v
        }
    } else if v.page_tokens.len() > 0 {
        PlaceSearchView { page_tokens: with_token(v.page_tokens.drop_first(), page.next_page_token), ..v }
    } else {
        v
    }
}

/// Whether the search waits for the details of a place.
pub open spec fn awaits_details(v: PlaceSearchView) -> bool {
    v.first_page_seen && v.page_tokens.len() == 0 && v.next_place < v.place_ids.len()
}

/// The state after the details of the awaited place arrive.
pub open spec fn details_spec(v: PlaceSearchView, d: GoogleDetailsResponse) -> PlaceSearchView {
    if awaits_details(v) {
        PlaceSearchView {
            next_place: v.next_place + 1,
            found: if d.result.website is Some { v.found.push(d.result) } else { v.found },
            ..v
        }
    } else {
        v
    }
}

/// Place identifiers of a page, in order.
fn collect_place_ids(results: &Vec<GoogleTextSearchResults>) -> (r: Vec<String>)
    ensures
        r@ == place_ids_of(results@),
{
    let mut r: Vec<String> = Vec::new();
    let mut i: usize = 0;
    while i < results.len()
        invariant
            i <= results.len(),
            r@ == place_ids_of(results@.take(i as int)),
        decreases results.len() - i,
    {
        r.push(results[i].place_id.clone());
        i = i + 1;
        assert(r@ =~= place_ids_of(results@.take(i as int)));
    }
    assert(results@.take(results.len() as int) == results@);
    r
}

impl PlaceSearch {
    /// The well-formedness of a search: the place to look up next is one of
    /// the places found.
    pub closed spec fn wf(self) -> bool {
        &&& self.next_place <= self.place_ids.len()
        &&& !self.first_page_seen ==> self.next_place == 0
    }

    /// A search for the companies of `industry` in `city`, `state`, with the
    /// key of the service; nothing fetched yet.
    pub fn new(industry: &str, city: &str, state: &str, api_key: &str) -> (s: PlaceSearch)
        ensures
            s.wf(),
            s@.url == text_search_url(query_text(industry@, city@, state@), api_key@),
            s@.api_key == api_key@,
            !s@.first_page_seen,
            s@.page_tokens.len() == 0,
            s@.place_ids.len() == 0,
            s@.next_place == 0,
            s@.found.len() == 0,
    {
        let q = join(industry, "%20in%20");
        let q = join(q.as_str(), city);
        let q = join(q.as_str(), ",%20");
        let q = join(q.as_str(), state);
        let u = join("https://maps.googleapis.com/maps/api/place/textsearch/json?query=", q.as_str());
        let u = join(u.as_str(), "&key=");
        let u = join(u.as_str(), api_key);
        proof {
            assert(u@ =~= text_search_url(query_text(industry@, city@, state@), api_key@));
        }
        PlaceSearch {
            url: u,
            api_key: api_key.to_owned(),
            first_page_seen: false,
            page_tokens: VecDeque::new(),
            place_ids: Vec::new(),
            next_place: 0,
            found: Vec::new(),
        }
    }

    /// The next request of the search, as `request_spec` describes.
    pub fn next_request(&self) -> (r: PlaceRequest)
        requires
            self.wf(),
        ensures
            (r.text_page(), r.details()) == request_spec(self@),
            r is Complete <==> request_spec(self@) == (None::<Seq<char>>, None::<Seq<char>>),
    {
        if !self.first_page_seen {
            PlaceRequest::TextPage { url: self.url.clone() }
        } else if self.page_tokens.len() > 0 {
            let u = join(self.url.as_str(), "&pagetoken=");
            let u = join(u.as_str(), self.page_tokens[0].as_str());
            PlaceRequest::TextPage { url: u }
        } else if self.next_place < self.place_ids.len() {
            let u = join("https://maps.googleapis.com/maps/api/place/details/json?place_id=", self.place_ids[self.next_place].as_str());
            let u = join(u.as_str(), "&fields=website,formatted_address,name,formatted_phone_number&key=");
            let u = join(u.as_str(), self.api_key.as_str());
            proof {
                assert(u@ =~= details_url(self.place_ids@[self.next_place as int]@, self.api_key@));
            }
            PlaceRequest::Details { url: u }
        } else {
            PlaceRequest::Complete
        }
    }

    /// Takes in a page of the text search: the first page gives the places
    /// to look up, a further page consumes the token it was requested with;
    /// each page's continuation token is queued.
    pub fn on_text_page(&mut self, page: GoogleTextSearchResponseInit)
        requires
            old(self).wf(),
        ensures
            final(self).wf(),
            final(self)@ == text_page_spec(old(self)@, page),
    {
        if !self.first_page_seen {
            self.place_ids = collect_place_ids(&page.results);
            self.first_page_seen = true;
        } else if self.page_tokens.len() > 0 {
            let _used = self.page_tokens.pop_front();
        } else {
            return;
        }
        match page.next_page_token {
            Some(t) => self.page_tokens.push_back(t),
            None => {},
        }
    }

    /// Takes in the details of the awaited place; it is kept when it has a
    /// website.
    pub fn on_details(&mut self, details: GoogleDetailsResponse)
        requires
            old(self).wf(),
        ensures
            final(self).wf(),
            final(self)@ == details_spec(old(self)@, details),
    {
        if self.first_page_seen && self.page_tokens.len() == 0 && self.next_place < self.place_ids.len() {
            self.next_place = self.next_place + 1;
            if details.result.website.is_some() {
                self.found.push(details.result);
            }
        }
    }

    /// The places found with a website, in the order looked up.
    pub fn results(self) -> (r: Vec<GoogleDetailsResult>)
        ensures
            r@ == self@.found,
    {
        self.found
    }
}

/// Whether every place kept has a website.
pub open spec fn all_with_website(found: Seq<GoogleDetailsResult>) -> bool {
    forall|k: int| 0 <= k < found.len() ==> (#[trigger] found[k]).website is Some
}

/// A search keeps only places with a website: pages of the text search
/// keep the places kept, and the details of a place add it only when it has
/// a website. Each details reply moves the search on by exactly one place.
pub proof fn lemma_search_keeps_places_with_website(v: PlaceSearchView, page: GoogleTextSearchResponseInit, d: GoogleDetailsResponse)
    requires
        all_with_website(v.found),
    ensures
        text_page_spec(v, page).found == v.found,
        all_with_website(details_spec(v, d).found),
        awaits_details(v) ==> details_spec(v, d).next_place == v.next_place + 1,
        awaits_details(v) ==> (details_spec(v, d).found.len() == v.found.len() + 1 <==> d.result.website is Some),
{
    if awaits_details(v) && d.result.website is Some {
        let f2 = v.found.push(d.result);
        assert forall|k: int| 0 <= k < f2.len() implies (#[trigger] f2[k]).website is Some by {
            if k < v.found.len() {
                assert(f2[k] == v.found[k]);
            }
        }
    }
}

/// A new search asks first for the text search of
/// `<industry>%20in%20<city>,%20<state>` with the key.
pub proof fn lemma_search_first_request(industry: Seq<char>, city: Seq<char>, state: Seq<char>, api_key: Seq<char>)
    ensures
        text_search_url(query_text(industry, city, state), api_key)
            == "https://maps.googleapis.com/maps/api/place/textsearch/json?query="@ + industry + "%20in%20"@ + city
                + ",%20"@ + state + "&key="@ + api_key,
{
    assert(text_search_url(query_text(industry, city, state), api_key)
        =~= "https://maps.googleapis.com/maps/api/place/textsearch/json?query="@ + industry + "%20in%20"@ + city
                + ",%20"@ + state + "&key="@ + api_key);
}

/// The requests of a search come in order: the first page until it has
/// arrived; then a page for the first pending token, at the first page's
/// address followed by `&pagetoken=` and the token; then the details of the
/// next place of the first page, with the key; then nothing.
pub proof fn lemma_search_requests(v: PlaceSearchView)
    ensures
        !v.first_page_seen ==> request_spec(v) == (Some(v.url), None::<Seq<char>>),
        v.first_page_seen && v.page_tokens.len() > 0 ==>
            request_spec(v) == (Some(v.url + "&pagetoken="@ + v.page_tokens[0]@), None::<Seq<char>>),
        awaits_details(v) ==> request_spec(v) == (None::<Seq<char>>, Some(
            "https://maps.googleapis.com/maps/api/place/details/json?place_id="@ + v.place_ids[v.next_place as int]@
                + "&fields=website,formatted_address,name,formatted_phone_number&key="@ + v.api_key)),
        v.first_page_seen && v.page_tokens.len() == 0 && v.next_place >= v.place_ids.len() ==>
            request_spec(v) == (None::<Seq<char>>, None::<Seq<char>>),
{
}

/// The first page gives the places to look up, one per result in order, and
/// queues its continuation token; a further page consumes the first pending
/// token and queues its own, its results unused. Neither touches the places
/// kept or the place to look up next.
pub proof fn lemma_search_text_page(v: PlaceSearchView, page: GoogleTextSearchResponseInit)
    ensures
        ({
            let v2 = text_page_spec(v, page);
            &&& v2.found == v.found && v2.next_place == v.next_place
            &&& v2.url == v.url && v2.api_key == v.api_key
            &&& v2.first_page_seen
            &&& !v.first_page_seen ==> {
                &&& v2.place_ids.len() == page.results@.len()
                &&& forall|k: int| 0 <= k < page.results@.len() ==> #[trigger] v2.place_ids[k] == page.results@[k].place_id
            }
            &&& v.first_page_seen ==> v2.place_ids == v.place_ids
            &&& !v.first_page_seen ==> (page.next_page_token matches Some(tk) ==> v2.page_tokens == v.page_tokens.push(tk))
            &&& !v.first_page_seen ==> (page.next_page_token is None ==> v2.page_tokens == v.page_tokens)
            &&& v.first_page_seen && v.page_tokens.len() > 0 ==>
                    (page.next_page_token matches Some(tk) ==> v2.page_tokens == v.page_tokens.drop_first().push(tk))
            &&& v.first_page_seen && v.page_tokens.len() > 0 ==>
                    (page.next_page_token is None ==> v2.page_tokens == v.page_tokens.drop_first())
        }),
{
}

/// The details of the awaited place move the search on by one place; when
/// they carry a website, they are kept exactly as received, after the places
/// kept before; otherwise nothing is kept. Details arriving when none are
/// awaited change nothing.
pub proof fn lemma_search_details(v: PlaceSearchView, d: GoogleDetailsResponse)
    ensures
        ({
            let v2 = details_spec(v, d);
            &&& awaits_details(v) ==> {
                &&& v2.next_place == v.next_place + 1
                &&& v2.place_ids == v.place_ids && v2.page_tokens == v.page_tokens
                &&& v2.url == v.url && v2.api_key == v.api_key && v2.first_page_seen == v.first_page_seen
                &&& d.result.website is Some ==> v2.found == v.found.push(d.result)
                &&& d.result.website is None ==> v2.found == v.found
            }
            &&& !awaits_details(v) ==> v2 == v
        }),
{
}

} // verus!
