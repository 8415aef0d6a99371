//! The entry point: lookups by identifier and the builders of searches.

use vstd::prelude::*;

use crate::builder::{
    CharacterSearchBuilder, FreeCompanySearchBuilder, LinkshellBuilder, LinkshellSearchBuilder,
};
use crate::error::{Error, ErrorModel};
use crate::query::{Field, Filters};
use crate::request::{planned, Request, Target};
use crate::route::{join_url, resolved, LODESTONE_URL};

verus! {

/// Whether `r` is what resolving the relative route `path` must give: the
/// resolved URL, or [`Error::Url`] exactly where the route does not resolve.
pub open spec fn routed(path: Seq<char>, r: Result<String, Error>) -> bool {
    match r {
        Ok(url) => resolved(path) == Some(url@),
        Err(error) => resolved(path) is None && error@ == ErrorModel::Url,
    }
}

/// Resolving a route depends on the route alone: whatever two resolutions of
/// the same path give, both are the same URL, or both fail alike.
pub proof fn lemma_route_is_pure(
    path: Seq<char>,
    first: Result<String, Error>,
    second: Result<String, Error>,
)
    requires
        routed(path, first),
        routed(path, second),
    ensures
        match (first, second) {
            (Ok(a), Ok(b)) => a@ == b@,
            (Err(a), Err(b)) => a@ == b@,
            _ => false,
        },
{
}

/// Plans the requests to the Lodestone.
#[derive(Clone, Copy, Debug, Default)]
pub struct LodestoneScraper {}

impl LodestoneScraper {
    /// Resolves a relative route against [`LODESTONE_URL`]. Fails with
    /// [`Error::Url`] exactly where the route does not resolve to a URL.
    pub fn route(path: &str) -> (r: Result<String, Error>)
        ensures
            routed(path@, r),
    {
        match join_url(LODESTONE_URL, path) {
            Ok(url) => Ok(url),
            Err(cause) => Err(Error::Url(cause)),
        }
    }

    /// Plans the lookup of the character with identifier `id`.
    pub fn character(&self, id: u64) -> (r: Result<Request, Error>)
        ensures
            planned(r, Target::Character(id), Map::<Field, Seq<char>>::empty()),
    {
        Request::new(Target::Character(id), &Filters::new())
    }

    /// Starts a search for characters, with no option set.
    pub fn character_search(&self) -> (builder: CharacterSearchBuilder)
        ensures
            builder@ == Map::<Field, Seq<char>>::empty(),
    {
        CharacterSearchBuilder::new()
    }

    /// Plans the lookup of the free company with identifier `id`.
    pub fn free_company(&self, id: u64) -> (r: Result<Request, Error>)
        ensures
            planned(r, Target::FreeCompany(id), Map::<Field, Seq<char>>::empty()),
    {
        Request::new(Target::FreeCompany(id), &Filters::new())
    }

    /// Starts a search for free companies, with no option set.
    pub fn free_company_search(&self) -> (builder: FreeCompanySearchBuilder)
        ensures
            builder@ == Map::<Field, Seq<char>>::empty(),
    {
        FreeCompanySearchBuilder::new()
    }

    /// Starts the lookup of the linkshell with identifier `id`, with no
    /// option set.
    pub fn linkshell(&self, id: u64) -> (builder: LinkshellBuilder)
        ensures
            builder.ident() == id,
            builder@ == Map::<Field, Seq<char>>::empty(),
    {
        LinkshellBuilder::new(id)
    }

    /// Starts a search for linkshells, with no option set.
    pub fn linkshell_search(&self) -> (builder: LinkshellSearchBuilder)
        ensures
            builder@ == Map::<Field, Seq<char>>::empty(),
    {
        LinkshellSearchBuilder::new()
    }
}

} // verus!
