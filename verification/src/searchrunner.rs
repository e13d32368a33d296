use vstd::prelude::*;
use crate::models::{texts, ClientSearchResult, ClientSearchResultView, Search, SearchType};
use crate::patterns::{lemma_matching_lines_push, matching_lines, regex_compiles, Matcher};
use crate::time::Timestamp;
use crate::webclient::WebError;

verus! {

/// Why one search at one location, or a whole run, gave no result.
#[derive(Debug)]
pub enum SearchError {
    /// The location is read-only; the text is its path.
    FileReadOnly(String),
    /// Reading the location failed; the text says how.
    IO(String),
    /// Talking to the server failed.
    Web(WebError),
    /// The search's regular expression does not compile.
    Regex(regex::Error),
}

/// Whether `search` can be run at all: its pattern compiles if it is a
/// regular expression.
pub open spec fn search_compiles(search: Search) -> bool {
    search.stype == SearchType::Regex ==> regex_compiles(search.search@)
}

/// What `search` reports of a location at `path` that holds `lines`, scanned
/// from `started` on: every selected line as it stands, in the order of the
/// location.
pub open spec fn search_outcome(
    search: Search,
    path: Seq<char>,
    lines: Seq<Seq<char>>,
    started: Timestamp,
) -> ClientSearchResultView {
    ClientSearchResultView {
        search_id: search.id as int,
        search_name: search.name@,
        found: matching_lines(search.stype, search.search@, lines),
        location: path,
        started: started,
    }
}

/// Preflight of a location. `read_only` is what the file system says of it,
/// `None` where it says nothing. Only a location known to be read-only is
/// refused.
pub fn check_file_can_read(path: &str, read_only: Option<bool>) -> (r: Result<(), SearchError>)
    ensures
        r is Err <==> read_only == Some(true),
        r matches Err(e) ==> e matches SearchError::FileReadOnly(p) && p@ == path@,
{
    match read_only {
        Some(true) => Err(SearchError::FileReadOnly(path.to_owned())),
        _ => Ok(()),
    }
}

/// One search at one location, taking the location's lines one at a time.
pub struct SearchScan {
    matcher: Matcher,
    result: ClientSearchResult,
    seen: Ghost<Seq<Seq<char>>>,
}

impl SearchScan {
    #[verifier::type_invariant]
    spec fn well_formed(self) -> bool {
        texts(self.result.found@) == matching_lines(
            self.matcher.kind(),
            self.matcher.pattern(),
            self.seen@,
        )
    }

    /// The lines handed to the scan so far, in order.
    pub closed spec fn seen(self) -> Seq<Seq<char>> {
        self.seen@
    }

    /// The kind of the search that the scan runs.
    pub closed spec fn kind(self) -> SearchType {
        self.matcher.kind()
    }

    /// The pattern of the search that the scan runs.
    pub closed spec fn pattern(self) -> Seq<char> {
        self.matcher.pattern()
    }

    /// The result that the scan gives if no further line comes.
    pub closed spec fn result(self) -> ClientSearchResultView {
        self.result@
    }

    /// Whether the scan runs `search` at `path` since `started`.
    pub open spec fn runs(self, search: Search, path: Seq<char>, started: Timestamp) -> bool {
        &&& self.kind() == search.stype
        &&& self.pattern() == search.search@
        &&& self.result() == search_outcome(search, path, self.seen(), started)
    }

    /// Starts `search` at `path`. The location is refused when it is known
    /// to be read-only; after that the search is refused when its regular
    /// expression does not compile.
    pub fn begin(path: &str, search: &Search, read_only: Option<bool>, started: Timestamp) -> (r:
        Result<SearchScan, SearchError>)
        ensures
            read_only == Some(true) ==> (r matches Err(SearchError::FileReadOnly(p)) && p@ == path@),
            read_only != Some(true) && !search_compiles(*search) ==> r matches Err(
                SearchError::Regex(_),
            ),
            read_only != Some(true) && search_compiles(*search) ==> (r matches Ok(scan)
                && scan.runs(*search, path@, started) && scan.seen() == Seq::<Seq<char>>::empty()),
    {
        match check_file_can_read(path, read_only) {
            Err(e) => {
                return Err(e);
            },
            Ok(()) => {},
        }
        match Matcher::compile(search.stype, search.search.as_str()) {
            Err(e) => Err(SearchError::Regex(e)),
            Ok(matcher) => {
                let result = ClientSearchResult::new(
                    search.id,
                    search.name.as_str(),
                    path,
                    started,
                );
                proof {
                    lemma_matching_lines_push(
                        search.stype,
                        search.search@,
                        Seq::empty(),
                        Seq::empty(),
                    );
                }
                Ok(SearchScan { matcher, result, seen: Ghost(Seq::empty()) })
            },
        }
    }

    /// Takes the next line of the location and keeps it if the search
    /// selects it.
    pub fn feed(self, line: String) -> (next: SearchScan)
        ensures
            next.seen() == self.seen().push(line@),
            next.kind() == self.kind(),
            next.pattern() == self.pattern(),
            next.result() == (ClientSearchResultView {
                found: matching_lines(self.kind(), self.pattern(), next.seen()),
                ..self.result()
            }),
            self.result().found == matching_lines(self.kind(), self.pattern(), self.seen()),
    {
        proof {
            use_type_invariant(&self);
            lemma_matching_lines_push(
                self.matcher.kind(),
                self.matcher.pattern(),
                self.seen@,
                line@,
            );
        }
        let SearchScan { matcher, result, seen } = self;
        let mut result = result;
        let ghost before = result.found@;
        if matcher.is_match(line.as_str()) {
            result.found.push(line);
            assert(texts(result.found@) =~= texts(before).push(line@));
        }
        SearchScan { matcher, result, seen: Ghost(seen@.push(line@)) }
    }

    /// Ends the scan and hands out its result: the selected ones of the
    /// lines seen, in order.
    pub fn finish(self) -> (r: ClientSearchResult)
        ensures
            r@ == self.result(),
            r@.found == matching_lines(self.kind(), self.pattern(), self.seen()),
    {
        proof {
            use_type_invariant(&self);
        }
        self.result
    }
}

/// Runs `search` over the `lines` of the location at `path`. Fails with
/// `FileReadOnly` when the location is known to be read-only, else with
/// `Regex` when the search's regular expression does not compile; else the
/// result holds every selected line, in order.
pub fn run_search(
    path: &str,
    search: &Search,
    read_only: Option<bool>,
    lines: &Vec<String>,
    started: Timestamp,
) -> (r: Result<ClientSearchResult, SearchError>)
    ensures
        read_only == Some(true) ==> (r matches Err(SearchError::FileReadOnly(p)) && p@ == path@),
        read_only != Some(true) && !search_compiles(*search) ==> r matches Err(
            SearchError::Regex(_),
        ),
        read_only != Some(true) && search_compiles(*search) ==> (r matches Ok(found) && found@
            == search_outcome(*search, path@, texts(lines@), started)),
{
    let mut scan = match SearchScan::begin(path, search, read_only, started) {
        Err(e) => {
            return Err(e);
        },
        Ok(scan) => scan,
    };
    let mut i: usize = 0;
    while i < lines.len()
        invariant
            0 <= i <= lines.len(),
            scan.runs(*search, path@, started),
            scan.seen() == texts(lines@).subrange(0, i as int),
        decreases lines.len() - i,
    {
        let line = lines[i].clone();
        scan = scan.feed(line);
        assert(texts(lines@).subrange(0, i + 1) =~= texts(lines@).subrange(0, i as int).push(
            lines@[i as int]@,
        ));
        i += 1;
    }
    assert(texts(lines@).subrange(0, i as int) =~= texts(lines@));
    Ok(scan.finish())
}

/// Whether an outcome belongs in the batch that an agent reports: the search
/// ran at the location and selected at least one line.
pub open spec fn reportable(outcome: Result<ClientSearchResult, SearchError>) -> bool {
    outcome matches Ok(result) && result.found@.len() > 0
}

/// The batch that an agent reports after a run with the given outcomes: the
/// results that belong in it, in the order in which they came about.
pub open spec fn batch_of(outcomes: Seq<Result<ClientSearchResult, SearchError>>) -> Seq<
    ClientSearchResult,
> {
    outcomes.filter(|outcome: Result<ClientSearchResult, SearchError>| reportable(outcome))
        .map_values(|outcome: Result<ClientSearchResult, SearchError>| outcome->Ok_0)
}

/// A run without outcomes has an empty batch.
pub proof fn lemma_batch_of_empty()
    ensures
        batch_of(Seq::empty()) == Seq::<ClientSearchResult>::empty(),
{
    reveal(Seq::filter);
    assert(batch_of(Seq::empty()) =~= Seq::<ClientSearchResult>::empty());
}

/// One more outcome adds its result to the batch if it belongs there and
/// leaves the batch as it is if not.
pub proof fn lemma_batch_of_push(
    outcomes: Seq<Result<ClientSearchResult, SearchError>>,
    outcome: Result<ClientSearchResult, SearchError>,
)
    ensures
        batch_of(outcomes.push(outcome)) == if reportable(outcome) {
            batch_of(outcomes).push(outcome->Ok_0)
        } else {
            batch_of(outcomes)
        },
{
    reveal(Seq::filter);
    assert(outcomes.push(outcome).drop_last() =~= outcomes);
    let keep = |outcome: Result<ClientSearchResult, SearchError>| reportable(outcome);
    let value = |outcome: Result<ClientSearchResult, SearchError>| outcome->Ok_0;
    if reportable(outcome) {
        assert(outcomes.filter(keep).push(outcome).map_values(value) =~= outcomes.filter(keep)
            .map_values(value).push(outcome->Ok_0));
    }
}

/// Closes one run of an agent. `outcomes` holds, for each search and each
/// of its locations in turn, what running the search there gave. A failure
/// at one location takes nothing from the others. The batch holds every
/// result with at least one selected line; where no result has one there is
/// no batch, and nothing is to be sent.
pub fn run_once(outcomes: Vec<Result<ClientSearchResult, SearchError>>) -> (batch: Option<
    Vec<ClientSearchResult>,
>)
    ensures
        batch is Some <==> batch_of(outcomes@).len() > 0,
        batch matches Some(results) ==> results@ == batch_of(outcomes@),
{
    let mut results: Vec<ClientSearchResult> = Vec::new();
    let ghost all = outcomes@;
    proof {
        lemma_batch_of_empty();
    }
    for outcome in it: outcomes
        invariant
            it.seq() == all,
            results@ == batch_of(all.subrange(0, it.index() as int)),
    {
        proof {
            lemma_batch_of_push(all.subrange(0, it.index() as int), outcome);
            assert(all.subrange(0, it.index() + 1) =~= all.subrange(0, it.index() as int).push(
                outcome,
            ));
        }
        match outcome {
            Ok(result) => {
                if result.found.len() > 0 {
                    results.push(result);
                }
            },
            Err(_) => {},
        }
    }
    assert(all.subrange(0, all.len() as int) =~= all);
    if results.len() > 0 {
        Some(results)
    } else {
        None
    }
}

/// The batch of two stretches of outcomes is the batch of the first
/// followed by the batch of the second.
pub proof fn lemma_batch_of_add(
    first: Seq<Result<ClientSearchResult, SearchError>>,
    second: Seq<Result<ClientSearchResult, SearchError>>,
)
    ensures
        batch_of(first + second) == batch_of(first) + batch_of(second),
    decreases second.len(),
{
    if second.len() == 0 {
        lemma_batch_of_empty();
        assert(first + second =~= first);
        assert(batch_of(first) + Seq::<ClientSearchResult>::empty() =~= batch_of(first));
    } else {
        let rest = second.drop_last();
        let last = second.last();
        lemma_batch_of_add(first, rest);
        lemma_batch_of_push(first + rest, last);
        lemma_batch_of_push(rest, last);
        assert(second =~= rest.push(last));
        assert(first + second =~= (first + rest).push(last));
        if reportable(last) {
            assert((batch_of(first) + batch_of(rest)).push(last->Ok_0) =~= batch_of(first)
                + batch_of(rest).push(last->Ok_0));
        }
    }
}

/// A failure at one place is isolated: the batch is the one that the other
/// outcomes give without it.
pub proof fn lemma_failure_is_isolated(
    outcomes: Seq<Result<ClientSearchResult, SearchError>>,
    at: int,
)
    requires
        0 <= at < outcomes.len(),
        outcomes[at] is Err,
    ensures
        batch_of(outcomes) == batch_of(outcomes.remove(at)),
{
    let before = outcomes.subrange(0, at);
    let after = outcomes.subrange(at + 1, outcomes.len() as int);
    assert(outcomes =~= before.push(outcomes[at]) + after);
    assert(outcomes.remove(at) =~= before + after);
    lemma_batch_of_add(before.push(outcomes[at]), after);
    lemma_batch_of_add(before, after);
    lemma_batch_of_push(before, outcomes[at]);
}

/// A result with at least one selected line is in the batch, whatever the
/// other outcomes are.
pub proof fn lemma_match_is_reported(
    outcomes: Seq<Result<ClientSearchResult, SearchError>>,
    at: int,
)
    requires
        0 <= at < outcomes.len(),
        reportable(outcomes[at]),
    ensures
        batch_of(outcomes).contains(outcomes[at]->Ok_0),
{
    let before = outcomes.subrange(0, at);
    let after = outcomes.subrange(at + 1, outcomes.len() as int);
    assert(outcomes =~= before.push(outcomes[at]) + after);
    lemma_batch_of_add(before.push(outcomes[at]), after);
    lemma_batch_of_push(before, outcomes[at]);
    let head = batch_of(before).push(outcomes[at]->Ok_0);
    assert(head[batch_of(before).len() as int] == outcomes[at]->Ok_0);
    assert((head + batch_of(after))[batch_of(before).len() as int] == outcomes[at]->Ok_0);
}

/// Every result in the batch has at least one selected line and is the
/// result of one of the outcomes.
pub proof fn lemma_batch_holds_matches_only(
    outcomes: Seq<Result<ClientSearchResult, SearchError>>,
    k: int,
)
    requires
        0 <= k < batch_of(outcomes).len(),
    ensures
        batch_of(outcomes)[k].found@.len() > 0,
        outcomes.contains(Ok(batch_of(outcomes)[k])),
    decreases outcomes.len(),
{
    if outcomes.len() == 0 {
        lemma_batch_of_empty();
    } else {
        let rest = outcomes.drop_last();
        let last = outcomes.last();
        assert(outcomes =~= rest.push(last));
        lemma_batch_of_push(rest, last);
        if k < batch_of(rest).len() {
            lemma_batch_holds_matches_only(rest, k);
            let j = choose|j: int| 0 <= j < rest.len() && rest[j] == Ok::<
                ClientSearchResult,
                SearchError,
            >(batch_of(rest)[k]);
            assert(outcomes[j] == rest[j]);
        } else {
            assert(outcomes[outcomes.len() - 1] == last);
        }
    }
}

/// A run in which no search selected a line anywhere has an empty batch:
/// nothing is sent.
pub proof fn lemma_all_clear_sends_nothing(outcomes: Seq<Result<ClientSearchResult, SearchError>>)
    requires
        forall|i: int| 0 <= i < outcomes.len() ==> !reportable(#[trigger] outcomes[i]),
    ensures
        batch_of(outcomes).len() == 0,
    decreases outcomes.len(),
{
    if outcomes.len() == 0 {
        lemma_batch_of_empty();
    } else {
        let rest = outcomes.drop_last();
        assert(outcomes =~= rest.push(outcomes.last()));
        lemma_batch_of_push(rest, outcomes.last());
        lemma_all_clear_sends_nothing(rest);
    }
}

/// The places that one run visits: each search, in order, at each of its
/// locations, in order. A place is the index of the search and the index of
/// the location among that search's locations.
pub open spec fn targets_of(searches: Seq<Search>) -> Seq<(int, int)>
    decreases searches.len(),
{
    if searches.len() == 0 {
        Seq::empty()
    } else {
        targets_of(searches.drop_last()) + Seq::new(
            searches.last().locations@.len(),
            |j: int| (searches.len() - 1, j),
        )
    }
}

/// A run visits exactly the places that exist: a search without locations
/// is visited nowhere.
pub proof fn lemma_targets_are_the_locations(searches: Seq<Search>, search: int, location: int)
    ensures
        targets_of(searches).contains((search, location)) <==> (0 <= search < searches.len() && 0
            <= location < searches[search].locations@.len()),
    decreases searches.len(),
{
    if searches.len() > 0 {
        let rest = searches.drop_last();
        let tail = Seq::new(
            searches.last().locations@.len(),
            |j: int| (searches.len() - 1, j),
        );
        lemma_targets_are_the_locations(rest, search, location);
        let all = targets_of(rest) + tail;
        if targets_of(rest).contains((search, location)) {
            let k = choose|k: int| 0 <= k < targets_of(rest).len() && targets_of(rest)[k] == (
                search,
                location,
            );
            assert(all[k] == (search, location));
        } else if search == searches.len() - 1 && 0 <= location < tail.len() {
            assert(tail[location] == (search, location));
            assert(all[targets_of(rest).len() + location] == (search, location));
        }
        if all.contains((search, location)) {
            let k = choose|k: int| 0 <= k < all.len() && all[k] == (search, location);
            if k < targets_of(rest).len() {
                assert(targets_of(rest)[k] == (search, location));
            } else {
                assert(tail[k - targets_of(rest).len()] == (search, location));
            }
        }
    }
}

/// A run visits no place twice: each search produces at most one result for
/// each of its locations.
pub proof fn lemma_targets_are_distinct(searches: Seq<Search>)
    ensures
        targets_of(searches).no_duplicates(),
    decreases searches.len(),
{
    if searches.len() > 0 {
        let rest = searches.drop_last();
        let tail = Seq::new(
            searches.last().locations@.len(),
            |j: int| (searches.len() - 1, j),
        );
        lemma_targets_are_distinct(rest);
        let all = targets_of(rest) + tail;
        assert forall|i: int, j: int| 0 <= i < all.len() && 0 <= j < all.len() && i != j implies all[i]
            != all[j] by {
            let split = targets_of(rest).len();
            if i < split {
                lemma_targets_are_the_locations(rest, all[i].0, all[i].1);
                assert(targets_of(rest)[i] == all[i]);
                assert(all[i].0 < searches.len() - 1);
            } else {
                assert(all[i] == tail[i - split]);
            }
            if j < split {
                lemma_targets_are_the_locations(rest, all[j].0, all[j].1);
                assert(targets_of(rest)[j] == all[j]);
                assert(all[j].0 < searches.len() - 1);
            } else {
                assert(all[j] == tail[j - split]);
            }
        }
    }
}

/// Lists the places that one run visits, in the order in which it visits
/// them.
pub fn scan_targets(searches: &Vec<Search>) -> (targets: Vec<(usize, usize)>)
    ensures
        targets@.map_values(|t: (usize, usize)| (t.0 as int, t.1 as int)) == targets_of(
            searches@,
        ),
{
    let mut targets: Vec<(usize, usize)> = Vec::new();
    let ghost as_places = |t: (usize, usize)| (t.0 as int, t.1 as int);
    let mut i: usize = 0;
    assert(targets@.map_values(as_places) =~= targets_of(searches@.subrange(0, 0)));
    while i < searches.len()
        invariant
            0 <= i <= searches.len(),
            as_places == |t: (usize, usize)| (t.0 as int, t.1 as int),
            targets@.map_values(as_places) == targets_of(searches@.subrange(0, i as int)),
        decreases searches.len() - i,
    {
        let ghost done = targets@.map_values(as_places);
        let ghost upto = searches@.subrange(0, i + 1);
        assert(upto.drop_last() =~= searches@.subrange(0, i as int));
        assert(upto.last() == searches@[i as int]);
        let count = searches[i].locations.len();
        let mut j: usize = 0;
        while j < count
            invariant
                0 <= j <= count,
                i < searches.len(),
                count == searches@[i as int].locations@.len(),
                as_places == |t: (usize, usize)| (t.0 as int, t.1 as int),
                targets@.map_values(as_places) == done + Seq::new(j as nat, |k: int| (i as int, k)),
            decreases count - j,
        {
            let ghost was = targets@;
            targets.push((i, j));
            assert(targets@.map_values(as_places) =~= was.map_values(as_places).push(
                (i as int, j as int),
            ));
            assert(done + Seq::new((j + 1) as nat, |k: int| (i as int, k)) =~= (done + Seq::new(
                j as nat,
                |k: int| (i as int, k),
            )).push((i as int, j as int)));
            j += 1;
        }
        assert(Seq::new(count as nat, |k: int| (i as int, k)) =~= Seq::new(
            upto.last().locations@.len(),
            |k: int| (upto.len() - 1, k),
        ));
        i += 1;
    }
    assert(searches@.subrange(0, i as int) =~= searches@);
    targets
}

} // verus!
