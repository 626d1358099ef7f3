use vstd::prelude::*;
use crate::errors::Error;

verus! {

/// What the language model made of one contact page.
pub struct ProspectResp {
    pub firstname: Option<String>,
    pub lastname: Option<String>,
    pub jobtitle: Option<String>,
    pub employee_score: Option<i64>,
}

/// A person to contact, with the page their address was found on.
pub struct Prospect {
    pub email: String,
    pub context: String,
    pub first_name: Option<String>,
    pub last_name: Option<String>,
    pub job_title: Option<String>,
    pub score: Option<i64>,
}

/// A function call proposed by the language model.
pub struct FunctionCall {
    pub name: String,
    pub arguments: String,
}

/// The outcome of asking the language model about one contact page.
pub enum ChatReply {
    /// The request could not be made.
    Failed,
    /// The reply could not be read.
    Unreadable,
    /// The first choice of the reply.
    Answered { function_call: Option<FunctionCall>, content: Option<String> },
}

/// The arguments to read a prospect from: those of the proposed function
/// call, else the text of the message; an error when the model could not be
/// asked or its reply not read.
pub open spec fn arguments_spec(reply: ChatReply) -> Result<Option<String>, Error> {
    match reply {
        ChatReply::Answered { function_call: Some(f), content: _ } => Ok(Some(f.arguments)),
        ChatReply::Answered { function_call: None, content } => Ok(content),
        _ => Err(Error::FailedProspectExtraction),
    }
}

/// The arguments of a reply, as `arguments_spec` describes (`Ok(None)`: the
/// page is skipped).
pub fn prospect_arguments(reply: ChatReply) -> (r: Result<Option<String>, Error>)
    ensures
        r == arguments_spec(reply),
{
    match reply {
        ChatReply::Failed => Err(Error::FailedProspectExtraction),
        ChatReply::Unreadable => Err(Error::FailedProspectExtraction),
        ChatReply::Answered { function_call, content } => match function_call {
            Some(f) => Ok(Some(f.arguments)),
            None => Ok(content),
        },
    }
}

/// The prospect read from the page `html` found for the address `email`.
pub open spec fn prospect_spec(email: String, html: String, resp: ProspectResp) -> Prospect {
    Prospect {
        email,
        context: html,
        first_name: resp.firstname,
        last_name: resp.lastname,
        job_title: resp.jobtitle,
        score: resp.employee_score,
    }
}

/// Builds the prospect read from the page `html` found for `email`.
pub fn make_prospect(email: &String, html: &String, resp: ProspectResp) -> (p: Prospect)
    ensures
        p == prospect_spec(*email, *html, resp),
{
    Prospect {
        email: email.clone(),
        context: html.clone(),
        first_name: resp.firstname,
        last_name: resp.lastname,
        job_title: resp.jobtitle,
        score: resp.employee_score,
    }
}

/// The prospects gathered from the contact pages of one company.
pub struct Extraction {
    prospects: Vec<Prospect>,
}

impl View for Extraction {
    type V = Seq<Prospect>;

    closed spec fn view(&self) -> Seq<Prospect> {
        self.prospects@
    }
}

impl Extraction {
    /// No prospect gathered yet.
    pub fn new() -> (e: Extraction)
        ensures
            e@ == Seq::<Prospect>::empty(),
    {
        Extraction { prospects: Vec::new() }
    }

    /// Records what was read from the page `html` of `email`: a prospect when
    /// its arguments could be read (`Some`), nothing otherwise.
    pub fn record(&mut self, email: &String, html: &String, parsed: Option<ProspectResp>)
        ensures
            final(self)@ == match parsed {
                Some(resp) => old(self)@.push(prospect_spec(*email, *html, resp)),
                None => old(self)@,
            },
    {
        match parsed {
            Some(resp) => self.prospects.push(make_prospect(email, html, resp)),
            None => {},
        }
    }

    /// The prospects gathered, in the order the pages were read.
    pub fn prospects(self) -> (r: Vec<Prospect>)
        ensures
            r@ == self@,
    {
        self.prospects
    }
}

/// A reply carrying a function call is read from that call's arguments,
/// whatever text comes with it; a reply without one is read from its text,
/// and skipped when it has none; a model that could not be asked or whose
/// reply could not be read fails the extraction.
pub proof fn lemma_prospect_arguments(reply: ChatReply)
    ensures
        (reply matches ChatReply::Answered { function_call: Some(f), .. } ==> arguments_spec(reply) == Ok::<Option<String>, Error>(Some(f.arguments))),
        (reply matches ChatReply::Answered { function_call: None, content } ==> arguments_spec(reply) == Ok::<Option<String>, Error>(content)),
        (reply is Failed || reply is Unreadable) ==> arguments_spec(reply) == Err::<Option<String>, Error>(Error::FailedProspectExtraction),
{
}

/// A prospect holds the address and page it was read for, and the names,
/// title and score the model gave, unchanged.
pub proof fn lemma_prospect_fields(email: String, html: String, resp: ProspectResp)
    ensures
        prospect_spec(email, html, resp).email == email,
        prospect_spec(email, html, resp).context == html,
        prospect_spec(email, html, resp).first_name == resp.firstname,
        prospect_spec(email, html, resp).last_name == resp.lastname,
        prospect_spec(email, html, resp).job_title == resp.jobtitle,
        prospect_spec(email, html, resp).score == resp.employee_score,
{
}

} // verus!
