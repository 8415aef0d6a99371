//! One exchange with the site, from the URL to ask for to the parsed result.
//!
//! An exchange passes through three values, each made from the one before by
//! reporting what the network or the parser did: a [`Request`] says what to
//! ask for, an [`Accepted`] stands for a reply whose body is to be read, and a
//! [`Page`] holds the body that is to be parsed. A failure at any step ends
//! the exchange with the [`Error`] it stands for.

use vstd::prelude::*;
use vstd::string::StringExecFns;

use crate::error::{Error, ErrorModel};
use crate::query::{with_query, Field, Filters};
use crate::route::{decimal, decimal_string, resolved};
use crate::scraper::LodestoneScraper;

verus! {

/// What an exchange asks the site for.
#[derive(Clone, Copy, PartialEq, Eq, Structural, Debug)]
pub enum Target {
    /// The profile of the character with this identifier.
    Character(u64),
    /// The profile of the free company with this identifier.
    FreeCompany(u64),
    /// The linkshell with this identifier.
    Linkshell(u64),
    /// A list of characters.
    CharacterSearch,
    /// A list of free companies.
    FreeCompanySearch,
    /// A list of linkshells.
    LinkshellSearch,
}

impl Target {
    /// The relative route of this target, before any query string.
    pub open spec fn path(self) -> Seq<char> {
        match self {
            Target::Character(id) => "character/"@ + decimal(id as nat),
            Target::FreeCompany(id) => "freecompany/"@ + decimal(id as nat),
            Target::Linkshell(id) => "linkshell/"@ + decimal(id as nat),
            Target::CharacterSearch => "character/search"@,
            Target::FreeCompanySearch => "freecompany/search"@,
            Target::LinkshellSearch => "linkshell/search"@,
        }
    }

    /// The identifier that is looked up, where the target is a lookup.
    pub open spec fn ident(self) -> Option<u64> {
        match self {
            Target::Character(id) => Some(id),
            Target::FreeCompany(id) => Some(id),
            Target::Linkshell(id) => Some(id),
            _ => None,
        }
    }

    /// The relative route of this target, before any query string.
    pub fn path_string(self) -> (path: String)
        ensures
            path@ == self.path(),
    {
        match self {
            Target::Character(id) => numbered("character/", id),
            Target::FreeCompany(id) => numbered("freecompany/", id),
            Target::Linkshell(id) => numbered("linkshell/", id),
            Target::CharacterSearch => String::from_str("character/search"),
            Target::FreeCompanySearch => String::from_str("freecompany/search"),
            Target::LinkshellSearch => String::from_str("linkshell/search"),
        }
    }

    /// The identifier that is looked up, where the target is a lookup.
    pub fn id(self) -> (id: Option<u64>)
        ensures
            id == self.ident(),
    {
        match self {
            Target::Character(id) => Some(id),
            Target::FreeCompany(id) => Some(id),
            Target::Linkshell(id) => Some(id),
            _ => None,
        }
    }
}

fn numbered(prefix: &str, id: u64) -> (path: String)
    ensures
        path@ == prefix@ + decimal(id as nat),
{
    let mut path = String::from_str(prefix);
    let number = decimal_string(id);
    path.append(number.as_str());
    path
}

/// The URL to ask for `target` narrowed by `options`, or `None` where the
/// route does not resolve.
pub open spec fn address(target: Target, options: Map<Field, Seq<char>>) -> Option<Seq<char>> {
    resolved(with_query(target.path(), options))
}

/// Whether `r` is what planning the request for `target` narrowed by
/// `options` must give: the request for the resolved URL, or
/// [`Error::Url`] exactly where the route does not resolve.
pub open spec fn planned(
    r: Result<Request, Error>,
    target: Target,
    options: Map<Field, Seq<char>>,
) -> bool {
    match r {
        Ok(request) => request@.target == target && address(target, options) == Some(
            request@.url,
        ),
        Err(error) => address(target, options) is None && error@ == ErrorModel::Url,
    }
}

/// What a reply means for an exchange: the error it ends in, or `None` where
/// the body is to be read. `sent` is the status of the reply, or the cause for
/// which there was none.
pub open spec fn refusal(sent: Result<u16, Seq<char>>) -> Option<ErrorModel> {
    match sent {
        Err(cause) => Some(ErrorModel::Net(cause)),
        Ok(status) => if status == 200 {
            None
        } else if status == 404 {
            Some(ErrorModel::NotFound)
        } else {
            Some(ErrorModel::UnexpectedResponse(status))
        },
    }
}

/// What an attempt to send or to parse gave, with texts as sequences.
pub open spec fn report<T>(outcome: Result<T, String>) -> Result<T, Seq<char>> {
    match outcome {
        Ok(value) => Ok(value),
        Err(cause) => Err(cause@),
    }
}

/// What an attempt to read the body gave, with texts as sequences.
pub open spec fn body_report(read: Result<String, String>) -> Result<Seq<char>, Seq<char>> {
    match read {
        Ok(text) => Ok(text@),
        Err(cause) => Err(cause@),
    }
}

/// The mathematical content of a [`Request`].
pub struct RequestModel {
    pub target: Target,
    pub url: Seq<char>,
}

/// The mathematical content of a [`Page`].
pub struct PageModel {
    pub target: Target,
    pub text: Seq<char>,
}

impl RequestModel {
    /// Where the exchange stands once the reply is known: the target whose
    /// body is to be read, or the error that ends it.
    pub open spec fn after_reply(self, sent: Result<u16, Seq<char>>) -> Result<Target, ErrorModel> {
        match refusal(sent) {
            None => Ok(self.target),
            Some(error) => Err(error),
        }
    }
}

/// Where the exchange stands once the body was read, or could not be.
pub open spec fn after_body(target: Target, read: Result<Seq<char>, Seq<char>>) -> Result<
    PageModel,
    ErrorModel,
> {
    match read {
        Ok(text) => Ok(PageModel { target, text }),
        Err(cause) => Err(ErrorModel::Net(cause)),
    }
}

/// What the exchange returns once the parser has spoken.
pub open spec fn after_parse<T>(parsed: Result<T, Seq<char>>) -> Result<T, ErrorModel> {
    match parsed {
        Ok(value) => Ok(value),
        Err(message) => Err(ErrorModel::Parse(message)),
    }
}

/// What a whole exchange returns, given what each step would give: the
/// reply to the request, the reading of the body, the parsing of the page.
/// The later steps count only where the earlier ones let the exchange go on.
pub open spec fn concluded<T>(
    request: RequestModel,
    sent: Result<u16, Seq<char>>,
    read: Result<Seq<char>, Seq<char>>,
    parsed: Result<T, Seq<char>>,
) -> Result<T, ErrorModel> {
    match request.after_reply(sent) {
        Err(error) => Err(error),
        Ok(target) => match after_body(target, read) {
            Err(error) => Err(error),
            Ok(page) => after_parse(parsed),
        },
    }
}

/// Where the site answers 200, the body is read and the parser accepts the
/// page, the exchange returns what the parser made of it; and the page that
/// the parser is given is that of the target asked for, so that a lookup
/// hands on the identifier it was started with.
pub proof fn lemma_success_returns_the_parsed_value<T>(
    request: RequestModel,
    text: Seq<char>,
    value: T,
)
    ensures
        concluded(request, Ok(200), Ok(text), Ok::<T, Seq<char>>(value)) == Ok::<T, ErrorModel>(
            value,
        ),
        request.after_reply(Ok(200)) == Ok::<Target, ErrorModel>(request.target),
        after_body(request.target, Ok(text)) == Ok::<PageModel, ErrorModel>(
            (PageModel { target: request.target, text }),
        ),
{
}

/// A lookup hands the parser the identifier that was asked for.
pub proof fn lemma_lookup_keeps_its_identifier(id: u64)
    ensures
        Target::Character(id).ident() == Some(id),
        Target::FreeCompany(id).ident() == Some(id),
        Target::Linkshell(id).ident() == Some(id),
{
}

/// Where the site answers 404 the exchange ends with `NotFound`, whatever
/// was asked for, and neither the body nor the parser has a say.
pub proof fn lemma_not_found_ends_the_exchange<T>(
    request: RequestModel,
    read: Result<Seq<char>, Seq<char>>,
    parsed: Result<T, Seq<char>>,
)
    ensures
        request.after_reply(Ok(404)) == Err::<Target, ErrorModel>(ErrorModel::NotFound),
        concluded(request, Ok(404), read, parsed) == Err::<T, ErrorModel>(ErrorModel::NotFound),
{
}

/// Where the site answers with a status other than 200 and 404 the exchange
/// ends with `UnexpectedResponse` of exactly that status, and neither the
/// body nor the parser has a say.
pub proof fn lemma_other_status_is_reported<T>(
    request: RequestModel,
    status: u16,
    read: Result<Seq<char>, Seq<char>>,
    parsed: Result<T, Seq<char>>,
)
    requires
        status != 200,
        status != 404,
    ensures
        request.after_reply(Ok(status)) == Err::<Target, ErrorModel>(
            ErrorModel::UnexpectedResponse(status),
        ),
        concluded(request, Ok(status), read, parsed) == Err::<T, ErrorModel>(
            ErrorModel::UnexpectedResponse(status),
        ),
{
}

/// A GET request that is still to be made.
#[derive(Debug)]
pub struct Request {
    target: Target,
    url: String,
}

/// A reply with status 200, whose body is still to be read.
#[derive(Debug)]
pub struct Accepted {
    target: Target,
}

/// The body of a reply, still to be parsed.
#[derive(Debug)]
pub struct Page {
    target: Target,
    text: String,
}

impl View for Request {
    type V = RequestModel;

    closed spec fn view(&self) -> RequestModel {
        RequestModel { target: self.target, url: self.url@ }
    }
}

impl View for Accepted {
    type V = Target;

    closed spec fn view(&self) -> Target {
        self.target
    }
}

impl View for Page {
    type V = PageModel;

    closed spec fn view(&self) -> PageModel {
        PageModel { target: self.target, text: self.text@ }
    }
}

impl Request {
    /// Plans the request for `target`, narrowed by `filters`. Fails with
    /// [`Error::Url`] exactly where the route does not resolve to a URL.
    pub fn new(target: Target, filters: &Filters) -> (r: Result<Request, Error>)
        ensures
            planned(r, target, filters@),
    {
        let path = filters.append_to(target.path_string());
        match LodestoneScraper::route(path.as_str()) {
            Ok(url) => Ok(Request { target, url }),
            Err(error) => Err(error),
        }
    }

    /// What is asked for.
    pub fn target(&self) -> (target: Target)
        ensures
            target == self@.target,
    {
        self.target
    }

    /// The absolute URL to GET.
    pub fn url(&self) -> (url: &str)
        ensures
            url@ == self@.url,
    {
        self.url.as_str()
    }

    /// Takes note of what sending the request gave: the status of the reply,
    /// or the description of the failure for which there was no reply.
    ///
    /// Status 200 lets the exchange go on to the body. Status 404 ends it with
    /// [`Error::NotFound`], any other status with
    /// [`Error::UnexpectedResponse`] of that status, and a failure with
    /// [`Error::Net`] of its cause.
    pub fn responded(self, sent: Result<u16, String>) -> (r: Result<Accepted, Error>)
        ensures
            match r {
                Ok(accepted) => self@.after_reply(report(sent)) == Ok::<Target, ErrorModel>(
                    accepted@,
                ),
                Err(error) => self@.after_reply(report(sent)) == Err::<Target, ErrorModel>(
                    error@,
                ),
            },
    {
        match sent {
            Err(cause) => Err(Error::Net(cause)),
            Ok(status) => {
                if status == 200 {
                    Ok(Accepted { target: self.target })
                } else if status == 404 {
                    Err(Error::NotFound)
                } else {
                    Err(Error::UnexpectedResponse(status))
                }
            },
        }
    }
}

impl Accepted {
    /// What was asked for.
    pub fn target(&self) -> (target: Target)
        ensures
            target == self@,
    {
        self.target
    }

    /// Takes note of what reading the body gave: its text, or the description
    /// of the failure, which ends the exchange with [`Error::Net`].
    pub fn received(self, read: Result<String, String>) -> (r: Result<Page, Error>)
        ensures
            match r {
                Ok(page) => after_body(self@, body_report(read)) == Ok::<PageModel, ErrorModel>(
                    page@,
                ),
                Err(error) => after_body(self@, body_report(read)) == Err::<
                    PageModel,
                    ErrorModel,
                >(error@),
            },
    {
        match read {
            Ok(text) => Ok(Page { target: self.target, text }),
            Err(cause) => Err(Error::Net(cause)),
        }
    }
}

impl Page {
    /// What was asked for.
    pub fn target(&self) -> (target: Target)
        ensures
            target == self@.target,
    {
        self.target
    }

    /// The identifier to hand to the parser along with the text, where the
    /// page is that of a lookup.
    pub fn id(&self) -> (id: Option<u64>)
        ensures
            id == self@.target.ident(),
    {
        self.target.id()
    }

    /// The text to parse.
    pub fn text(&self) -> (text: &str)
        ensures
            text@ == self@.text,
    {
        self.text.as_str()
    }

    /// Takes note of what the parser made of the page: the parsed value, which
    /// is the result of the exchange, or the parser's message, which ends it
    /// with [`Error::Parse`].
    pub fn parsed<T>(self, outcome: Result<T, String>) -> (r: Result<T, Error>)
        ensures
            match r {
                Ok(value) => after_parse(report(outcome)) == Ok::<T, ErrorModel>(value),
                Err(error) => after_parse(report(outcome)) == Err::<T, ErrorModel>(error@),
            },
    {
        match outcome {
            Ok(value) => Ok(value),
            Err(message) => Err(Error::Parse(message)),
        }
    }
}

} // verus!
