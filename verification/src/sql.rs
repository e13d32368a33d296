use vstd::prelude::*;
use crate::models::{texts, ClientSearchResult, Search, SearchResult, SearchResultView, SearchType, SearchView};
use crate::sql::client::{client_position, find_client, ClientRecord};
use crate::text::str_eq;
use crate::time::{duration_nanos, Timestamp};

pub mod client;
pub mod user;
pub mod webhooks;

verus! {

/// Why an operation on the stored data failed.
#[derive(Debug)]
pub enum SqlError {
    /// A stored secret could not be checked, or a new one not hashed.
    Bcrypt(bcrypt::BcryptError),
    /// No operator has the given name.
    UserNotExist,
    /// The operator could not be created.
    UserCreateFailed,
    /// An agent of this display name exists already.
    ClientNameExists(String),
    /// No agent has this identifier.
    ClientNotExist(String),
    /// No usable scan schedule is stored for the search of this identifier;
    /// 0 stands for the one schedule that holds for all searches.
    NoSuchSchedule(i32),
    /// No search definition has this identifier.
    SearchNotExist(i32),
    /// No unused identifier was found for a new agent.
    ClientCreateFailed,
    /// A webhook of this name exists already.
    WebhookNameExists(String),
}

/// What is to be done to the database before it is used.
#[derive(Debug, Clone, Copy, PartialEq, Eq, Structural)]
pub enum DbAction {
    /// The database is empty: its tables are to be created.
    CreateTables,
    /// The database has the layout that this library works on.
    Nothing,
}

/// The version of the database layout, from whether the version table
/// exists and from its first row, if it has one. A database without the
/// table or without a row in it has version 0.
pub fn get_db_version(table_exists: bool, stored: Option<i32>) -> (dbver: i32)
    ensures
        dbver == match stored {
            Some(v) if table_exists => v,
            _ => 0,
        },
{
    if !table_exists {
        return 0;
    }
    match stored {
        Some(v) => v,
        None => 0,
    }
}

/// What a database of version `dbver` needs before it is used; `None` for a
/// version that this library does not know and must not touch.
pub fn initialize_db(dbver: i32) -> (action: Option<DbAction>)
    ensures
        action == match dbver {
            0 => Some(DbAction::CreateTables),
            1 => Some(DbAction::Nothing),
            _ => None::<DbAction>,
        },
{
    if dbver == 0 {
        Some(DbAction::CreateTables)
    } else if dbver == crate::constants::DB_VERSION {
        Some(DbAction::Nothing)
    } else {
        None
    }
}

/// The cadence of scheduled runs: the interval between two runs of an
/// agent, and the override that suspends scheduled runs for all agents.
#[derive(Debug, Clone, Copy)]
pub struct ScanSchedule {
    pub dur: std::time::Duration,
    pub manual: bool,
}

impl ScanSchedule {
    /// The interval between two scheduled runs, in nanoseconds.
    pub open spec fn interval_nanos(self) -> nat {
        duration_nanos(self.dur)
    }

    /// The interval between two scheduled runs of an agent.
    pub fn get_interval(&self) -> (dur: std::time::Duration)
        ensures
            dur == self.dur,
    {
        self.dur
    }

    /// Whether scheduled runs are suspended for all agents.
    pub fn is_manual(&self) -> (manual: bool)
        ensures
            manual == self.manual,
    {
        self.manual
    }
}

/// The scan schedule as it is stored: the interval in minutes, and the
/// override.
#[derive(Debug, Clone, Copy, PartialEq, Eq, Structural)]
pub struct ScheduleRow {
    pub minutes: i32,
    pub manual: bool,
}

/// The scan schedule that the stored `row` stands for. There is none where
/// no row is stored, and none that can be used where the interval is not
/// positive.
pub fn get_scan_schedule(row: Option<ScheduleRow>) -> (r: Result<ScanSchedule, SqlError>)
    ensures
        r is Ok <==> (row matches Some(stored) && stored.minutes > 0),
        r matches Ok(schedule) ==> (row matches Some(stored) && schedule.manual == stored.manual
            && schedule.interval_nanos() == stored.minutes * 60 * 1_000_000_000),
        r matches Err(e) ==> e matches SqlError::NoSuchSchedule(0),
{
    match row {
        Some(stored) => {
            if stored.minutes > 0 {
                let secs: u64 = (stored.minutes as u64) * 60;
                let dur = std::time::Duration::from_secs(secs);
                Ok(ScanSchedule { dur, manual: stored.manual })
            } else {
                Err(SqlError::NoSuchSchedule(0))
            }
        },
        None => Err(SqlError::NoSuchSchedule(0)),
    }
}

/// The row to store for a schedule of `schedule` minutes with the given
/// override. An interval that is not positive is refused.
pub fn set_search_schedule_minutes(schedule: i32, manual: bool) -> (r: Result<
    ScheduleRow,
    SqlError,
>)
    ensures
        r is Ok <==> schedule > 0,
        r matches Ok(row) ==> row == (ScheduleRow { minutes: schedule, manual }),
        r matches Err(e) ==> e matches SqlError::NoSuchSchedule(0),
{
    if schedule > 0 {
        Ok(ScheduleRow { minutes: schedule, manual })
    } else {
        Err(SqlError::NoSuchSchedule(0))
    }
}

/// A search definition as it is stored.
#[derive(Debug)]
pub struct SearchRow {
    pub id: i32,
    pub name: String,
    pub stype: i32,
    pub search: Option<String>,
    pub locations: Vec<String>,
    pub enabled: bool,
}

impl SearchRow {
    /// The search that the row defines, if it defines one: its kind of match
    /// is a known one and it has a pattern.
    pub open spec fn defines(self) -> Option<SearchView> {
        match (SearchType::of_code(self.stype as int), self.search) {
            (Some(stype), Some(pattern)) => Some(
                SearchView {
                    id: self.id as int,
                    name: self.name@,
                    stype: stype,
                    search: pattern@,
                    locations: texts(self.locations@),
                },
            ),
            _ => None,
        }
    }

    /// The search that the row defines, if it is one that agents are to
    /// run: a disabled definition is never handed out.
    pub open spec fn distributes(self) -> Option<SearchView> {
        if self.enabled {
            self.defines()
        } else {
            None
        }
    }

    /// The search that the row defines, if it defines one.
    pub fn to_search(&self) -> (search: Option<Search>)
        ensures
            search is Some <==> self.defines() is Some,
            search matches Some(s) ==> Some(s@) == self.defines(),
    {
        match SearchType::from_sql_code(self.stype) {
            None => None,
            Some(stype) => match &self.search {
                None => None,
                Some(pattern) => {
                    Some(
                        Search::new(
                            self.id,
                            self.name.clone(),
                            stype,
                            pattern.clone(),
                            self.locations.clone(),
                        ),
                    )
                },
            },
        }
    }
}

/// The row to store for a new search definition. It is stored enabled.
pub fn insert_search(id: i32, name: &str, stype: &SearchType, search: &str, locations: &Vec<String>) -> (row:
    SearchRow)
    ensures
        row.enabled,
        row.defines() == Some(
            SearchView {
                id: id as int,
                name: name@,
                stype: *stype,
                search: search@,
                locations: texts(locations@),
            },
        ),
{
    SearchRow {
        id,
        name: name.to_owned(),
        stype: stype.sql_code(),
        search: Some(search.to_owned()),
        locations: locations.clone(),
        enabled: true,
    }
}

/// The position of the first row of the given identifier.
pub open spec fn search_position(rows: Seq<SearchRow>, id: int) -> Option<int>
    decreases rows.len(),
{
    if rows.len() == 0 {
        None
    } else if rows[0].id == id {
        Some(0)
    } else {
        match search_position(rows.drop_first(), id) {
            Some(at) => Some(at + 1),
            None => None,
        }
    }
}

/// What `search_position` finds is the first row of that identifier, and it
/// finds none only where there is none.
pub proof fn lemma_search_position(rows: Seq<SearchRow>, id: int)
    ensures
        match search_position(rows, id) {
            Some(at) => 0 <= at < rows.len() && rows[at].id == id && forall|j: int|
                0 <= j < at ==> (#[trigger] rows[j]).id != id,
            None => forall|j: int| 0 <= j < rows.len() ==> (#[trigger] rows[j]).id != id,
        },
    decreases rows.len(),
{
    if rows.len() > 0 && rows[0].id != id {
        let rest = rows.drop_first();
        lemma_search_position(rest, id);
        match search_position(rest, id) {
            Some(at) => {
                assert forall|j: int| 0 <= j < at + 1 implies (#[trigger] rows[j]).id != id by {
                    if j > 0 {
                        assert(rest[j - 1].id != id);
                    }
                }
            },
            None => {
                assert forall|j: int| 0 <= j < rows.len() implies (#[trigger] rows[j]).id
                    != id by {
                    if j > 0 {
                        assert(rest[j - 1].id != id);
                    }
                }
            },
        }
    }
}

/// The first row of the given identifier, if there is one.
pub fn find_search(rows: &Vec<SearchRow>, id: i32) -> (at: Option<usize>)
    ensures
        at is Some <==> search_position(rows@, id as int) is Some,
        at matches Some(i) ==> search_position(rows@, id as int) == Some(i as int) && i
            < rows.len(),
{
    let mut i: usize = 0;
    proof {
        lemma_search_position(rows@, id as int);
    }
    while i < rows.len()
        invariant
            0 <= i <= rows.len(),
            forall|j: int| 0 <= j < i ==> (#[trigger] rows@[j]).id != id,
            match search_position(rows@, id as int) {
                Some(at) => 0 <= at < rows.len() && rows@[at].id == id && forall|j: int|
                    0 <= j < at ==> (#[trigger] rows@[j]).id != id,
                None => forall|j: int| 0 <= j < rows.len() ==> (#[trigger] rows@[j]).id != id,
            },
        decreases rows.len() - i,
    {
        if rows[i].id == id {
            return Some(i);
        }
        i += 1;
    }
    None
}

/// The search of the given identifier, from the stored definitions: the one
/// that the first row of that identifier defines.
pub fn get_search(rows: &Vec<SearchRow>, id: i32) -> (search: Option<Search>)
    ensures
        match search_position(rows@, id as int) {
            Some(at) => match rows@[at].defines() {
                Some(defined) => search matches Some(s) && s@ == defined,
                None => search is None,
            },
            None => search is None,
        },
{
    proof {
        lemma_search_position(rows@, id as int);
    }
    match find_search(rows, id) {
        Some(at) => rows[at].to_search(),
        None => None,
    }
}

/// The searches that agents are to run, from the stored definitions: every
/// enabled definition, in the stored order.
pub fn get_searches(rows: &Vec<SearchRow>) -> (searches: Vec<Search>)
    ensures
        searches@.map_values(|s: Search| s@) == rows@.filter_map(
            |row: SearchRow| row.distributes(),
        ),
{
    let mut searches: Vec<Search> = Vec::new();
    let mut i: usize = 0;
    let ghost view = |s: Search| s@;
    let ghost pick = |row: SearchRow| row.distributes();
    assert(searches@.map_values(view) =~= rows@.subrange(0, 0).filter_map(pick));
    while i < rows.len()
        invariant
            0 <= i <= rows.len(),
            view == |s: Search| s@,
            pick == |row: SearchRow| row.distributes(),
            searches@.map_values(view) == rows@.subrange(0, i as int).filter_map(pick),
        decreases rows.len() - i,
    {
        let ghost before = searches@;
        let ghost upto = rows@.subrange(0, i + 1);
        assert(upto.drop_last() =~= rows@.subrange(0, i as int));
        assert(upto.last() == rows@[i as int]);
        if rows[i].enabled {
            match rows[i].to_search() {
                Some(search) => {
                    searches.push(search);
                    assert(searches@.map_values(view) =~= before.map_values(view) + seq![
                        search@,
                    ]);
                },
                None => {},
            }
        }
        i += 1;
    }
    assert(rows@.subrange(0, i as int) =~= rows@);
    searches
}

/// Whether a search definition of the given identifier is stored.
pub open spec fn has_search(rows: Seq<SearchRow>, id: int) -> bool {
    exists|j: int| 0 <= j < rows.len() && (#[trigger] rows[j]).id == id
}

/// The stored search definitions without those of the given identifier.
pub open spec fn without_search(rows: Seq<SearchRow>, id: int) -> Seq<SearchRow> {
    rows.filter(|row: SearchRow| row.id != id)
}

/// Removes the search definition of the given identifier and says whether
/// one was there to remove.
pub fn delete_search(rows: &mut Vec<SearchRow>, id: i32) -> (removed: bool)
    ensures
        final(rows)@ == without_search(old(rows)@, id as int),
        removed == has_search(old(rows)@, id as int),
{
    let mut all: Vec<SearchRow> = Vec::new();
    std::mem::swap(rows, &mut all);
    let ghost was = all@;
    let mut removed = false;
    proof {
        reveal(Seq::filter);
        assert(rows@ =~= without_search(was.subrange(0, 0), id as int));
    }
    for row in it: all
        invariant
            it.seq() == was,
            rows@ == without_search(was.subrange(0, it.index() as int), id as int),
            removed == has_search(was.subrange(0, it.index() as int), id as int),
    {
        proof {
            reveal(Seq::filter);
            let upto = was.subrange(0, it.index() + 1);
            let before = was.subrange(0, it.index() as int);
            assert(upto.drop_last() =~= before);
            assert(upto.last() == row);
            if has_search(before, id as int) {
                let j = choose|j: int| 0 <= j < before.len() && (#[trigger] before[j]).id == id;
                assert(upto[j].id == id);
            }
            if row.id == id {
                assert(upto[it.index() as int].id == id);
            }
            if has_search(upto, id as int) && row.id != id {
                let j = choose|j: int| 0 <= j < upto.len() && (#[trigger] upto[j]).id == id;
                assert(before[j].id == id);
            }
        }
        if row.id == id {
            removed = true;
        } else {
            rows.push(row);
        }
    }
    assert(was.subrange(0, was.len() as int) =~= was);
    removed
}

/// A reported result as it is stored: with the identifiers of the agent and
/// of the search, not their names.
#[derive(Debug)]
pub struct StoredResult {
    pub client: String,
    pub search: i32,
    pub location: String,
    pub found: Vec<String>,
    pub started: Timestamp,
}

/// The row to store for a result that agent `clientid` reported. The
/// selected lines, the location and the start time are kept as reported.
pub fn insert_client_search_result(clientid: &str, result: ClientSearchResult) -> (row:
    StoredResult)
    ensures
        row.client@ == clientid@,
        row.search == result.search_id,
        row.location == result.location,
        row.found == result.found,
        row.started == result.started,
{
    StoredResult {
        client: clientid.to_owned(),
        search: result.search_id,
        location: result.location,
        found: result.found,
        started: result.started,
    }
}

/// The text of an optional string.
pub open spec fn opt_text(text: Option<String>) -> Option<Seq<char>> {
    match text {
        Some(t) => Some(t@),
        None => None,
    }
}

/// Whether a result passes the given filters: it is of the given agent,
/// its scan started after `before`, and its scan started before `after`.
/// A filter that is not given lets every result pass.
pub open spec fn is_selected(
    result: SearchResult,
    clientid: Option<Seq<char>>,
    before: Option<Timestamp>,
    after: Option<Timestamp>,
) -> bool {
    &&& clientid matches Some(id) ==> result.client_id@ == id
    &&& before matches Some(limit) ==> limit.total_nanos() < result.started.total_nanos()
    &&& after matches Some(limit) ==> result.started.total_nanos() < limit.total_nanos()
}

/// Whether a result passes the given filters, told from what it holds.
pub open spec fn is_selected_view(
    result: SearchResultView,
    clientid: Option<Seq<char>>,
    before: Option<Timestamp>,
    after: Option<Timestamp>,
) -> bool {
    &&& clientid matches Some(id) ==> result.client_id == id
    &&& before matches Some(limit) ==> limit.total_nanos() < result.started.total_nanos()
    &&& after matches Some(limit) ==> result.started.total_nanos() < limit.total_nanos()
}

/// The results that pass the given filters, in the given order. Results
/// are never changed, only left out.
pub fn get_search_results(
    results: Vec<SearchResult>,
    clientid: &Option<String>,
    before: Option<Timestamp>,
    after: Option<Timestamp>,
) -> (selected: Vec<SearchResult>)
    ensures
        selected@ == results@.filter(
            |r: SearchResult| is_selected(r, opt_text(*clientid), before, after),
        ),
{
    let mut selected: Vec<SearchResult> = Vec::new();
    let ghost all = results@;
    let ghost pass = |r: SearchResult| is_selected(r, opt_text(*clientid), before, after);
    proof {
        reveal(Seq::filter);
        assert(selected@ =~= all.subrange(0, 0).filter(pass));
    }
    for result in it: results
        invariant
            it.seq() == all,
            pass == |r: SearchResult| is_selected(r, opt_text(*clientid), before, after),
            selected@ == all.subrange(0, it.index() as int).filter(pass),
    {
        proof {
            reveal(Seq::filter);
            assert(all.subrange(0, it.index() + 1).drop_last() =~= all.subrange(
                0,
                it.index() as int,
            ));
        }
        let mut keep = true;
        match clientid {
            Some(id) => {
                if !str_eq(result.client_id.as_str(), id.as_str()) {
                    keep = false;
                }
            },
            None => {},
        }
        match before {
            Some(limit) => {
                if !limit.is_before(&result.started) {
                    keep = false;
                }
            },
            None => {},
        }
        match after {
            Some(limit) => {
                if !result.started.is_before(&limit) {
                    keep = false;
                }
            },
            None => {},
        }
        if keep {
            selected.push(result);
        }
    }
    assert(all.subrange(0, all.len() as int) =~= all);
    selected
}

/// A stored result with the names of its agent and of its search, where
/// both are still stored.
pub open spec fn enriched(
    row: StoredResult,
    searches: Seq<SearchRow>,
    clients: Seq<ClientRecord>,
) -> Option<SearchResultView> {
    match (search_position(searches, row.search as int), client_position(clients, row.client@)) {
        (Some(s), Some(c)) => Some(
            SearchResultView {
                client_id: row.client@,
                client_name: clients[c].name@,
                search_id: row.search as int,
                search_name: searches[s].name@,
                found: texts(row.found@),
                location: row.location@,
                started: row.started,
            },
        ),
        _ => None,
    }
}

/// One stored result with the names of its agent and of its search; `None`
/// where the agent or the search is no longer stored.
pub fn enrich_result(row: &StoredResult, searches: &Vec<SearchRow>, clients: &Vec<ClientRecord>) -> (r:
    Option<SearchResult>)
    ensures
        r is Some <==> enriched(*row, searches@, clients@) is Some,
        r matches Some(result) ==> Some(result@) == enriched(*row, searches@, clients@),
{
    let s = match find_search(searches, row.search) {
        Some(s) => s,
        None => {
            return None;
        },
    };
    let c = match find_client(clients, row.client.as_str()) {
        Some(c) => c,
        None => {
            return None;
        },
    };
    Some(
        SearchResult {
            client_id: row.client.clone(),
            client_name: clients[c].name.clone(),
            search_id: row.search,
            search_name: searches[s].name.clone(),
            found: row.found.clone(),
            location: row.location.clone(),
            started: row.started,
        },
    )
}

/// The stored results with the names of their agents and searches, in the
/// stored order. A result whose agent or search is no longer stored is
/// left out.
pub fn get_all_search_results(
    rows: &Vec<StoredResult>,
    searches: &Vec<SearchRow>,
    clients: &Vec<ClientRecord>,
) -> (results: Vec<SearchResult>)
    ensures
        results@.map_values(|r: SearchResult| r@) == rows@.filter_map(
            |row: StoredResult| enriched(row, searches@, clients@),
        ),
{
    let mut results: Vec<SearchResult> = Vec::new();
    let mut i: usize = 0;
    let ghost view = |r: SearchResult| r@;
    let ghost pick = |row: StoredResult| enriched(row, searches@, clients@);
    assert(results@.map_values(view) =~= rows@.subrange(0, 0).filter_map(pick));
    while i < rows.len()
        invariant
            0 <= i <= rows.len(),
            view == |r: SearchResult| r@,
            pick == |row: StoredResult| enriched(row, searches@, clients@),
            results@.map_values(view) == rows@.subrange(0, i as int).filter_map(pick),
        decreases rows.len() - i,
    {
        let ghost before = results@;
        let ghost upto = rows@.subrange(0, i + 1);
        assert(upto.drop_last() =~= rows@.subrange(0, i as int));
        assert(upto.last() == rows@[i as int]);
        match enrich_result(&rows[i], searches, clients) {
            Some(result) => {
                results.push(result);
                assert(results@.map_values(view) =~= before.map_values(view) + seq![result@]);
            },
            None => {},
        }
        i += 1;
    }
    assert(rows@.subrange(0, i as int) =~= rows@);
    results
}

} // verus!
