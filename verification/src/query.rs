//! The optional filters of a search and the query string they become.

use vstd::prelude::*;
use vstd::string::StringExecFns;

verus! {

/// An option that a search can be narrowed by.
#[derive(Clone, Copy, PartialEq, Eq, Structural, Debug)]
pub enum Field {
    Name,
    World,
    ClassJob,
    GrandCompany,
    Page,
}

impl Field {
    /// The name of the query parameter that carries this option.
    pub open spec fn key(self) -> Seq<char> {
        match self {
            Field::Name => "name"@,
            Field::World => "world"@,
            Field::ClassJob => "class_job"@,
            Field::GrandCompany => "grand_company"@,
            Field::Page => "page"@,
        }
    }

    /// The name of the query parameter that carries this option.
    pub fn key_str(self) -> (k: &'static str)
        ensures
            k@ == self.key(),
    {
        match self {
            Field::Name => "name",
            Field::World => "world",
            Field::ClassJob => "class_job",
            Field::GrandCompany => "grand_company",
            Field::Page => "page",
        }
    }
}

/// No two options share a query parameter.
pub proof fn lemma_keys_differ(f: Field, g: Field)
    ensures
        f.key() == g.key() <==> f == g,
{
    reveal_strlit("name");
    reveal_strlit("world");
    reveal_strlit("class_job");
    reveal_strlit("grand_company");
    reveal_strlit("page");
    if f != g {
        assert(f.key().len() != g.key().len() || f.key()[0] != g.key()[0]);
    }
}

/// The name/value pair that option `f` contributes to the query string.
pub open spec fn entry(m: Map<Field, Seq<char>>, f: Field) -> Seq<(Seq<char>, Seq<char>)> {
    if m.dom().contains(f) {
        seq![(f.key(), m[f])]
    } else {
        Seq::empty()
    }
}

/// The name/value pairs of the options that are set, in the order in which
/// they appear in the query string.
pub open spec fn pairs(m: Map<Field, Seq<char>>) -> Seq<(Seq<char>, Seq<char>)> {
    entry(m, Field::Name) + entry(m, Field::World) + entry(m, Field::ClassJob) + entry(
        m,
        Field::GrandCompany,
    ) + entry(m, Field::Page)
}

/// Setting an option twice is the same as setting it once, to the second
/// value: the first value leaves no trace in the options, nor in the pairs of
/// the query string.
pub proof fn lemma_last_value_wins(
    m: Map<Field, Seq<char>>,
    f: Field,
    first: Seq<char>,
    last: Seq<char>,
)
    ensures
        m.insert(f, first).insert(f, last) == m.insert(f, last),
        pairs(m.insert(f, first).insert(f, last)) == pairs(m.insert(f, last)),
{
    assert(m.insert(f, first).insert(f, last) =~= m.insert(f, last));
}

/// Once an option is set, the query string holds a pair under its name with
/// the value given, and no pair under that name with any other value.
pub proof fn lemma_set_value_is_sent(m: Map<Field, Seq<char>>, f: Field, value: Seq<char>)
    ensures
        pairs(m.insert(f, value)).contains((f.key(), value)),
        forall|i: int|
            0 <= i < pairs(m.insert(f, value)).len() && (#[trigger] pairs(
                m.insert(f, value),
            )[i]).0 == f.key() ==> pairs(m.insert(f, value))[i].1 == value,
{
    let n = m.insert(f, value);
    let q = pairs(n);
    let a = entry(n, Field::Name);
    let b = entry(n, Field::World);
    let c = entry(n, Field::ClassJob);
    let d = entry(n, Field::GrandCompany);
    let e = entry(n, Field::Page);
    assert(q == a + b + c + d + e);
    assert forall|i: int| 0 <= i < q.len() implies exists|g: Field|
        n.dom().contains(g) && #[trigger] q[i] == (g.key(), n[g]) by {
        if i < a.len() {
            assert(q[i] == (Field::Name.key(), n[Field::Name]));
        } else if i < a.len() + b.len() {
            assert(q[i] == (Field::World.key(), n[Field::World]));
        } else if i < a.len() + b.len() + c.len() {
            assert(q[i] == (Field::ClassJob.key(), n[Field::ClassJob]));
        } else if i < a.len() + b.len() + c.len() + d.len() {
            assert(q[i] == (Field::GrandCompany.key(), n[Field::GrandCompany]));
        } else {
            assert(q[i] == (Field::Page.key(), n[Field::Page]));
        }
    }
    assert forall|i: int| 0 <= i < q.len() && (#[trigger] q[i]).0 == f.key() implies q[i].1
        == value by {
        let g = choose|g: Field| n.dom().contains(g) && q[i] == (g.key(), n[g]);
        lemma_keys_differ(f, g);
    }
    let at: int = match f {
        Field::Name => 0,
        Field::World => a.len() as int,
        Field::ClassJob => (a.len() + b.len()) as int,
        Field::GrandCompany => (a.len() + b.len() + c.len()) as int,
        Field::Page => (a.len() + b.len() + c.len() + d.len()) as int,
    };
    assert(q[at] == (f.key(), value));
}

/// The values of the options that a search has been given so far. Each
/// option holds at most one value: setting it again replaces the value.
#[derive(Debug)]
pub struct Filters {
    name: Option<String>,
    world: Option<String>,
    class_job: Option<String>,
    grand_company: Option<String>,
    page: Option<String>,
}

impl Filters {
    spec fn slot(&self, field: Field) -> Option<String> {
        match field {
            Field::Name => self.name,
            Field::World => self.world,
            Field::ClassJob => self.class_job,
            Field::GrandCompany => self.grand_company,
            Field::Page => self.page,
        }
    }

    /// Starts with no option set.
    pub fn new() -> (filters: Filters)
        ensures
            filters@ == Map::<Field, Seq<char>>::empty(),
    {
        let filters = Filters {
            name: None,
            world: None,
            class_job: None,
            grand_company: None,
            page: None,
        };
        assert(filters@ =~= Map::<Field, Seq<char>>::empty());
        filters
    }

    /// Gives `field` the value `value`, in place of any value it had.
    pub fn set(&mut self, field: Field, value: String)
        ensures
            final(self)@ == old(self)@.insert(field, value@),
    {
        match field {
            Field::Name => {
                self.name = Some(value);
            },
            Field::World => {
                self.world = Some(value);
            },
            Field::ClassJob => {
                self.class_job = Some(value);
            },
            Field::GrandCompany => {
                self.grand_company = Some(value);
            },
            Field::Page => {
                self.page = Some(value);
            },
        }
        assert(self@ =~= old(self)@.insert(field, value@));
    }

    /// The value that `field` holds, if it was set.
    pub fn get(&self, field: Field) -> (value: Option<&String>)
        ensures
            match value {
                Some(v) => self@.dom().contains(field) && self@[field] == v@,
                None => !self@.dom().contains(field),
            },
    {
        match field {
            Field::Name => self.name.as_ref(),
            Field::World => self.world.as_ref(),
            Field::ClassJob => self.class_job.as_ref(),
            Field::GrandCompany => self.grand_company.as_ref(),
            Field::Page => self.page.as_ref(),
        }
    }
}

/// The `application/x-www-form-urlencoded` text of a list of name/value
/// pairs.
pub uninterp spec fn form_urlencoded(pairs: Seq<(Seq<char>, Seq<char>)>) -> Seq<char>;

/// Serializes `pairs` with `url::form_urlencoded::Serializer`: a fresh
/// serializer over an empty string, `extend_pairs`, then `finish`. The
/// contract claims only that the text is a function of the pairs.
#[verifier::external_body]
pub(crate) fn encode_pairs(pairs: &Vec<(String, String)>) -> (text: String)
    ensures
        text@ == form_urlencoded(pairs.deep_view()),
{
    url::form_urlencoded::Serializer::new(String::new()).extend_pairs(pairs).finish()
}

/// The relative route `path` with the options of `m` as its query string. A
/// search without options has no query string.
pub open spec fn with_query(path: Seq<char>, m: Map<Field, Seq<char>>) -> Seq<char> {
    if pairs(m).len() == 0 {
        path
    } else {
        path + "?"@ + form_urlencoded(pairs(m))
    }
}

fn push_entry(list: &mut Vec<(String, String)>, filters: &Filters, field: Field)
    ensures
        final(list).deep_view() == old(list).deep_view() + entry(filters@, field),
{
    let ghost before = list.deep_view();
    match filters.get(field) {
        Some(value) => {
            let key = String::from_str(field.key_str());
            list.push((key, value.clone()));
            assert(list.deep_view() =~= before + entry(filters@, field));
        },
        None => {
            assert(list.deep_view() =~= before + entry(filters@, field));
        },
    }
}

impl Filters {
    /// The name/value pairs of the options that are set.
    pub fn pairs(&self) -> (list: Vec<(String, String)>)
        ensures
            list.deep_view() == pairs(self@),
    {
        let mut list: Vec<(String, String)> = Vec::new();
        assert(list.deep_view() =~= Seq::empty());
        push_entry(&mut list, self, Field::Name);
        push_entry(&mut list, self, Field::World);
        push_entry(&mut list, self, Field::ClassJob);
        push_entry(&mut list, self, Field::GrandCompany);
        push_entry(&mut list, self, Field::Page);
        assert(list.deep_view() =~= pairs(self@));
        list
    }

    /// Appends the query string of these options to the relative route
    /// `path`.
    pub fn append_to(&self, path: String) -> (route: String)
        ensures
            route@ == with_query(path@, self@),
    {
        let list = self.pairs();
        if list.len() == 0 {
            path
        } else {
            let mut route = path;
            route.append("?");
            let query = encode_pairs(&list);
            route.append(query.as_str());
            route
        }
    }
}

impl View for Filters {
    type V = Map<Field, Seq<char>>;

    closed spec fn view(&self) -> Map<Field, Seq<char>> {
        Map::new(|f: Field| self.slot(f) is Some, |f: Field| self.slot(f).unwrap()@)
    }
}

} // verus!
