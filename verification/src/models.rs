use vstd::prelude::*;
use crate::constants;
use crate::time::Timestamp;

verus! {

/// The texts of a sequence of strings.
pub open spec fn texts(v: Seq<String>) -> Seq<Seq<char>> {
    v.map_values(|s: String| s@)
}

/// How a search pattern is applied to a line.
#[derive(Debug, Clone, Copy, PartialEq, Eq, Structural)]
pub enum SearchType {
    Regex,
    Contains,
    Wildcard,
}

impl SearchType {
    /// The code under which a match kind is stored.
    pub open spec fn code(self) -> int {
        match self {
            SearchType::Regex => 1,
            SearchType::Contains => 2,
            SearchType::Wildcard => 3,
        }
    }

    /// The code under which this match kind is stored.
    pub fn sql_code(&self) -> (code: i32)
        ensures
            code == self.code(),
    {
        match self {
            SearchType::Regex => constants::SEARCH_REGEX,
            SearchType::Contains => constants::SEARCH_CONTAINS,
            SearchType::Wildcard => constants::SEARCH_WILDCARD,
        }
    }

    /// The match kind stored under `code`, if there is one.
    pub open spec fn of_code(code: int) -> Option<SearchType> {
        if code == 1 {
            Some(SearchType::Regex)
        } else if code == 2 {
            Some(SearchType::Contains)
        } else if code == 3 {
            Some(SearchType::Wildcard)
        } else {
            None
        }
    }

    /// The match kind stored under `code`, if there is one.
    pub fn from_sql_code(code: i32) -> (stype: Option<SearchType>)
        ensures
            stype == SearchType::of_code(code as int),
    {
        if code == constants::SEARCH_REGEX {
            Some(SearchType::Regex)
        } else if code == constants::SEARCH_CONTAINS {
            Some(SearchType::Contains)
        } else if code == constants::SEARCH_WILDCARD {
            Some(SearchType::Wildcard)
        } else {
            None
        }
    }
}

/// Every match kind is found again under its stored code.
pub proof fn lemma_sql_code_round_trip(stype: SearchType)
    ensures
        SearchType::of_code(stype.code()) == Some(stype),
{
}

/// A code under which a match kind is found is the code of that kind.
pub proof fn lemma_sql_code_is_unique(code: int)
    ensures
        SearchType::of_code(code) matches Some(found) ==> found.code() == code,
{
}

/// One rule to evaluate: a pattern, how to apply it, and the locations to
/// apply it to, in order.
#[derive(Debug)]
pub struct Search {
    pub id: i32,
    pub name: String,
    pub stype: SearchType,
    pub search: String,
    pub locations: Vec<String>,
}

/// What a `Search` holds, as mathematical values.
pub struct SearchView {
    pub id: int,
    pub name: Seq<char>,
    pub stype: SearchType,
    pub search: Seq<char>,
    pub locations: Seq<Seq<char>>,
}

impl View for Search {
    type V = SearchView;

    open spec fn view(&self) -> SearchView {
        SearchView {
            id: self.id as int,
            name: self.name@,
            stype: self.stype,
            search: self.search@,
            locations: texts(self.locations@),
        }
    }
}

impl Search {
    /// A search definition made of the given parts.
    pub fn new(
        id: i32,
        name: String,
        stype: SearchType,
        search: String,
        locations: Vec<String>,
    ) -> (s: Search)
        ensures
            s.id == id,
            s.name == name,
            s.stype == stype,
            s.search == search,
            s.locations == locations,
    {
        Search { id, name, stype, search, locations }
    }
}

/// What one run of one search at one location found, as the agent reports it.
#[derive(Debug)]
pub struct ClientSearchResult {
    pub search_id: i32,
    pub search_name: String,
    pub found: Vec<String>,
    pub location: String,
    pub started: Timestamp,
}

/// What a `ClientSearchResult` holds, as mathematical values.
pub struct ClientSearchResultView {
    pub search_id: int,
    pub search_name: Seq<char>,
    pub found: Seq<Seq<char>>,
    pub location: Seq<char>,
    pub started: Timestamp,
}

impl View for ClientSearchResult {
    type V = ClientSearchResultView;

    open spec fn view(&self) -> ClientSearchResultView {
        ClientSearchResultView {
            search_id: self.search_id as int,
            search_name: self.search_name@,
            found: texts(self.found@),
            location: self.location@,
            started: self.started,
        }
    }
}

impl ClientSearchResult {
    /// A result for search `id` at `location` with no matched line yet,
    /// for a scan that started at `started`.
    pub fn new(id: i32, name: &str, location: &str, started: Timestamp) -> (r: ClientSearchResult)
        ensures
            r@ == (ClientSearchResultView {
                search_id: id as int,
                search_name: name@,
                found: Seq::empty(),
                location: location@,
                started: started,
            }),
    {
        let r = ClientSearchResult {
            search_id: id,
            search_name: name.to_owned(),
            found: Vec::new(),
            location: location.to_owned(),
            started,
        };
        assert(texts(r.found@) =~= Seq::<Seq<char>>::empty());
        r
    }
}

/// A reported result as the server keeps it: enriched with the names of the
/// agent and of the search.
#[derive(Debug)]
pub struct SearchResult {
    pub client_id: String,
    pub client_name: String,
    pub search_id: i32,
    pub search_name: String,
    pub found: Vec<String>,
    pub location: String,
    pub started: Timestamp,
}

/// What a `SearchResult` holds, as mathematical values.
pub struct SearchResultView {
    pub client_id: Seq<char>,
    pub client_name: Seq<char>,
    pub search_id: int,
    pub search_name: Seq<char>,
    pub found: Seq<Seq<char>>,
    pub location: Seq<char>,
    pub started: Timestamp,
}

impl View for SearchResult {
    type V = SearchResultView;

    open spec fn view(&self) -> SearchResultView {
        SearchResultView {
            client_id: self.client_id@,
            client_name: self.client_name@,
            search_id: self.search_id as int,
            search_name: self.search_name@,
            found: texts(self.found@),
            location: self.location@,
            started: self.started,
        }
    }
}

} // verus!
