//! The builders of the searches and of the linkshell lookup.
//!
//! A builder collects options through chained setters and is then sent.
//! Each option holds one value: a setter called again replaces what the
//! earlier call gave.

use vstd::prelude::*;

use crate::error::Error;
use crate::query::{Field, Filters};
use crate::request::{planned, Request, Target};
use crate::route::{decimal, decimal_string};

verus! {

/// A search for characters.
#[derive(Debug)]
pub struct CharacterSearchBuilder {
    filters: Filters,
}

/// A search for free companies.
#[derive(Debug)]
pub struct FreeCompanySearchBuilder {
    filters: Filters,
}

/// A search for linkshells.
#[derive(Debug)]
pub struct LinkshellSearchBuilder {
    filters: Filters,
}

/// The lookup of one linkshell, whose members are listed page by page.
#[derive(Debug)]
pub struct LinkshellBuilder {
    id: u64,
    filters: Filters,
}

impl View for CharacterSearchBuilder {
    type V = Map<Field, Seq<char>>;

    closed spec fn view(&self) -> Map<Field, Seq<char>> {
        self.filters@
    }
}

impl View for FreeCompanySearchBuilder {
    type V = Map<Field, Seq<char>>;

    closed spec fn view(&self) -> Map<Field, Seq<char>> {
        self.filters@
    }
}

impl View for LinkshellSearchBuilder {
    type V = Map<Field, Seq<char>>;

    closed spec fn view(&self) -> Map<Field, Seq<char>> {
        self.filters@
    }
}

impl View for LinkshellBuilder {
    type V = Map<Field, Seq<char>>;

    closed spec fn view(&self) -> Map<Field, Seq<char>> {
        self.filters@
    }
}

impl CharacterSearchBuilder {
    /// A search with no option set.
    pub fn new() -> (builder: Self)
        ensures
            builder@ == Map::<Field, Seq<char>>::empty(),
    {
        CharacterSearchBuilder { filters: Filters::new() }
    }

    /// Searches for characters of this name.
    pub fn name(&mut self, name: &str) -> (ret: &mut Self)
        ensures
            ret@ == old(self)@.insert(Field::Name, name@),
            *final(self) == *final(ret),
    {
        self.filters.set(Field::Name, name.to_owned());
        self
    }

    /// Searches on this world only.
    pub fn world(&mut self, world: &str) -> (ret: &mut Self)
        ensures
            ret@ == old(self)@.insert(Field::World, world@),
            *final(self) == *final(ret),
    {
        self.filters.set(Field::World, world.to_owned());
        self
    }

    /// Searches for characters of this class or job.
    pub fn class_job(&mut self, class_job: &str) -> (ret: &mut Self)
        ensures
            ret@ == old(self)@.insert(Field::ClassJob, class_job@),
            *final(self) == *final(ret),
    {
        self.filters.set(Field::ClassJob, class_job.to_owned());
        self
    }

    /// Searches for characters of this grand company.
    pub fn grand_company(&mut self, grand_company: &str) -> (ret: &mut Self)
        ensures
            ret@ == old(self)@.insert(Field::GrandCompany, grand_company@),
            *final(self) == *final(ret),
    {
        self.filters.set(Field::GrandCompany, grand_company.to_owned());
        self
    }

    /// Asks for this page of the results.
    pub fn page(&mut self, page: u64) -> (ret: &mut Self)
        ensures
            ret@ == old(self)@.insert(Field::Page, decimal(page as nat)),
            *final(self) == *final(ret),
    {
        self.filters.set(Field::Page, decimal_string(page));
        self
    }

    /// Plans the request of this search.
    pub fn send(&self) -> (r: Result<Request, Error>)
        ensures
            planned(r, Target::CharacterSearch, self@),
    {
        Request::new(Target::CharacterSearch, &self.filters)
    }
}

impl FreeCompanySearchBuilder {
    /// A search with no option set.
    pub fn new() -> (builder: Self)
        ensures
            builder@ == Map::<Field, Seq<char>>::empty(),
    {
        FreeCompanySearchBuilder { filters: Filters::new() }
    }

    /// Searches for free companies of this name.
    pub fn name(&mut self, name: &str) -> (ret: &mut Self)
        ensures
            ret@ == old(self)@.insert(Field::Name, name@),
            *final(self) == *final(ret),
    {
        self.filters.set(Field::Name, name.to_owned());
        self
    }

    /// Searches on this world only.
    pub fn world(&mut self, world: &str) -> (ret: &mut Self)
        ensures
            ret@ == old(self)@.insert(Field::World, world@),
            *final(self) == *final(ret),
    {
        self.filters.set(Field::World, world.to_owned());
        self
    }

    /// Searches for free companies of this grand company.
    pub fn grand_company(&mut self, grand_company: &str) -> (ret: &mut Self)
        ensures
            ret@ == old(self)@.insert(Field::GrandCompany, grand_company@),
            *final(self) == *final(ret),
    {
        self.filters.set(Field::GrandCompany, grand_company.to_owned());
        self
    }

    /// Asks for this page of the results.
    pub fn page(&mut self, page: u64) -> (ret: &mut Self)
        ensures
            ret@ == old(self)@.insert(Field::Page, decimal(page as nat)),
            *final(self) == *final(ret),
    {
        self.filters.set(Field::Page, decimal_string(page));
        self
    }

    /// Plans the request of this search.
    pub fn send(&self) -> (r: Result<Request, Error>)
        ensures
            planned(r, Target::FreeCompanySearch, self@),
    {
        Request::new(Target::FreeCompanySearch, &self.filters)
    }
}

impl LinkshellSearchBuilder {
    /// A search with no option set.
    pub fn new() -> (builder: Self)
        ensures
            builder@ == Map::<Field, Seq<char>>::empty(),
    {
        LinkshellSearchBuilder { filters: Filters::new() }
    }

    /// Searches for linkshells of this name.
    pub fn name(&mut self, name: &str) -> (ret: &mut Self)
        ensures
            ret@ == old(self)@.insert(Field::Name, name@),
            *final(self) == *final(ret),
    {
        self.filters.set(Field::Name, name.to_owned());
        self
    }

    /// Searches on this world only.
    pub fn world(&mut self, world: &str) -> (ret: &mut Self)
        ensures
            ret@ == old(self)@.insert(Field::World, world@),
            *final(self) == *final(ret),
    {
        self.filters.set(Field::World, world.to_owned());
        self
    }

    /// Asks for this page of the results.
    pub fn page(&mut self, page: u64) -> (ret: &mut Self)
        ensures
            ret@ == old(self)@.insert(Field::Page, decimal(page as nat)),
            *final(self) == *final(ret),
    {
        self.filters.set(Field::Page, decimal_string(page));
        self
    }

    /// Plans the request of this search.
    pub fn send(&self) -> (r: Result<Request, Error>)
        ensures
            planned(r, Target::LinkshellSearch, self@),
    {
        Request::new(Target::LinkshellSearch, &self.filters)
    }
}

impl LinkshellBuilder {
    /// The identifier of the linkshell that is looked up.
    pub closed spec fn ident(&self) -> u64 {
        self.id
    }

    /// The lookup of the linkshell with identifier `id`, with no option set.
    pub fn new(id: u64) -> (builder: Self)
        ensures
            builder.ident() == id,
            builder@ == Map::<Field, Seq<char>>::empty(),
    {
        LinkshellBuilder { id, filters: Filters::new() }
    }

    /// The identifier of the linkshell that is looked up.
    pub fn id(&self) -> (id: u64)
        ensures
            id == self.ident(),
    {
        self.id
    }

    /// Asks for this page of the members.
    pub fn page(&mut self, page: u64) -> (ret: &mut Self)
        ensures
            ret.ident() == old(self).ident(),
            ret@ == old(self)@.insert(Field::Page, decimal(page as nat)),
            *final(self) == *final(ret),
    {
        self.filters.set(Field::Page, decimal_string(page));
        self
    }

    /// Plans the request of this lookup.
    pub fn send(&self) -> (r: Result<Request, Error>)
        ensures
            planned(r, Target::Linkshell(self.ident()), self@),
    {
        Request::new(Target::Linkshell(self.id), &self.filters)
    }
}

} // verus!
