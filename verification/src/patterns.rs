use vstd::prelude::*;
use crate::models::SearchType;
use crate::text::has_prefix;

verus! {

/// `regex::Regex`, a compiled regular expression: carried around, and
/// asked through `regex_is_match` only.
#[verifier::external_type_specification]
#[verifier::external_body]
pub struct ExRegex(regex::Regex);

/// `regex::Error`, the reason why a regular expression does not compile:
/// carried to the caller as it is.
#[verifier::external_type_specification]
#[verifier::external_body]
pub struct ExRegexError(regex::Error);

/// Whether `needle` stands in `hay` at position `at`.
pub open spec fn occurs_at(needle: Seq<char>, hay: Seq<char>, at: int) -> bool {
    &&& 0 <= at
    &&& at + needle.len() <= hay.len()
    &&& hay.subrange(at, at + needle.len()) == needle
}

/// Whether `needle` stands somewhere in `hay`, character for character.
pub open spec fn is_substring(needle: Seq<char>, hay: Seq<char>) -> bool {
    exists|at: int| occurs_at(needle, hay, at)
}

/// Whether the wildcard `pattern` describes the whole of `line`: `*` stands
/// for any run of characters, the empty one too, `?` for exactly one
/// character, and every other character for itself.
pub open spec fn wildcard_matches(pattern: Seq<char>, line: Seq<char>) -> bool
    decreases pattern.len(), line.len(),
{
    if pattern.len() == 0 {
        line.len() == 0
    } else if pattern[0] == '*' {
        wildcard_matches(pattern.drop_first(), line) || (line.len() > 0 && wildcard_matches(
            pattern,
            line.drop_first(),
        ))
    } else {
        line.len() > 0 && (pattern[0] == '?' || pattern[0] == line[0]) && wildcard_matches(
            pattern.drop_first(),
            line.drop_first(),
        )
    }
}

/// Whether `pattern` is a regular expression that `Regex::new` compiles.
pub uninterp spec fn regex_compiles(pattern: Seq<char>) -> bool;

/// Whether the regular expression compiled from `pattern` finds a match
/// anywhere in `line`.
pub uninterp spec fn regex_matches(pattern: Seq<char>, line: Seq<char>) -> bool;

/// Whether the compiled expression `re` finds a match anywhere in `line`:
/// what `Regex::is_match` returns.
pub uninterp spec fn regex_accepts(re: regex::Regex, line: Seq<char>) -> bool;

/// Whether a search of kind `stype` with `pattern` selects `line`.
pub open spec fn line_matches(stype: SearchType, pattern: Seq<char>, line: Seq<char>) -> bool {
    match stype {
        SearchType::Contains => is_substring(pattern, line),
        SearchType::Regex => regex_matches(pattern, line),
        SearchType::Wildcard => wildcard_matches(pattern, line),
    }
}

/// The lines that a search of kind `stype` with `pattern` selects, in order.
pub open spec fn matching_lines(
    stype: SearchType,
    pattern: Seq<char>,
    lines: Seq<Seq<char>>,
) -> Seq<Seq<char>> {
    lines.filter(|line: Seq<char>| line_matches(stype, pattern, line))
}

/// `str::contains` with a string pattern: true exactly when the pattern
/// equals some stretch of the text.
#[verifier::external_body]
fn str_contains(hay: &str, needle: &str) -> (b: bool)
    ensures
        b == is_substring(needle@, hay@),
{
    hay.contains(needle)
}

/// `Regex::new`: compiles `pattern` with the default options, or reports why
/// it cannot. What the compiled expression matches depends on the pattern
/// alone.
#[verifier::external_body]
fn regex_new(pattern: &str) -> (r: Result<regex::Regex, regex::Error>)
    ensures
        r is Ok <==> regex_compiles(pattern@),
        r matches Ok(re) ==> forall|line: Seq<char>| #[trigger]
            regex_accepts(re, line) == regex_matches(pattern@, line),
{
    regex::Regex::new(pattern)
}

/// `Regex::is_match`: whether the expression matches anywhere in `line`.
#[verifier::external_body]
fn regex_is_match(re: &regex::Regex, line: &str) -> (b: bool)
    ensures
        b == regex_accepts(*re, line@),
{
    re.is_match(line)
}

/// `WildMatch::new` followed by `WildMatch::matches`: whether the wildcard
/// pattern, with `*` for any run of characters and `?` for one character,
/// describes the whole line. Case is significant.
#[verifier::external_body]
fn wildmatch_matches(pattern: &str, line: &str) -> (b: bool)
    ensures
        b == wildcard_matches(pattern@, line@),
{
    wildmatch::WildMatch::new(pattern).matches(line)
}

/// A pattern made ready to be tried on many lines. A regular expression is
/// compiled once, when the matcher is made.
#[derive(Debug)]
pub struct Matcher {
    stype: SearchType,
    pattern: String,
    regex: Option<regex::Regex>,
}

impl Matcher {
    #[verifier::type_invariant]
    spec fn well_formed(self) -> bool {
        self.stype == SearchType::Regex ==> (self.regex matches Some(re) && forall|
            line: Seq<char>,
        | #[trigger] regex_accepts(re, line) == regex_matches(self.pattern@, line))
    }

    /// The kind of search the matcher was made for.
    pub closed spec fn kind(self) -> SearchType {
        self.stype
    }

    /// The pattern the matcher was made from.
    pub closed spec fn pattern(self) -> Seq<char> {
        self.pattern@
    }

    /// Whether the matcher selects `line`.
    pub open spec fn accepts(self, line: Seq<char>) -> bool {
        line_matches(self.kind(), self.pattern(), line)
    }

    /// Prepares `pattern` for a search of kind `stype`. Only a regular
    /// expression can be refused, and it is refused exactly when it does not
    /// compile.
    pub fn compile(stype: SearchType, pattern: &str) -> (r: Result<Matcher, regex::Error>)
        ensures
            r is Err <==> stype == SearchType::Regex && !regex_compiles(pattern@),
            r matches Ok(m) ==> m.kind() == stype && m.pattern() == pattern@,
    {
        match stype {
            SearchType::Regex => match regex_new(pattern) {
                Ok(re) => Ok(Matcher { stype, pattern: pattern.to_owned(), regex: Some(re) }),
                Err(e) => Err(e),
            },
            _ => Ok(Matcher { stype, pattern: pattern.to_owned(), regex: None }),
        }
    }

    /// Whether the matcher selects `line`.
    pub fn is_match(&self, line: &str) -> (b: bool)
        ensures
            b == self.accepts(line@),
    {
        proof {
            use_type_invariant(self);
        }
        match self.stype {
            SearchType::Contains => str_contains(line, self.pattern.as_str()),
            SearchType::Wildcard => wildmatch_matches(self.pattern.as_str(), line),
            SearchType::Regex => match &self.regex {
                Some(re) => regex_is_match(re, line),
                None => false,
            },
        }
    }
}

/// Whether a search of kind `stype` with `pattern` selects `line`; `None`
/// when the pattern is a regular expression that does not compile.
pub fn matches_line(stype: SearchType, pattern: &str, line: &str) -> (r: Option<bool>)
    ensures
        r is None <==> stype == SearchType::Regex && !regex_compiles(pattern@),
        r matches Some(b) ==> b == line_matches(stype, pattern@, line@),
{
    match Matcher::compile(stype, pattern) {
        Ok(m) => Some(m.is_match(line)),
        Err(_) => None,
    }
}

/// Taking one more line selects that line, after the ones selected before,
/// exactly when the search selects it.
pub proof fn lemma_matching_lines_push(
    stype: SearchType,
    pattern: Seq<char>,
    lines: Seq<Seq<char>>,
    line: Seq<char>,
)
    ensures
        matching_lines(stype, pattern, Seq::empty()) == Seq::<Seq<char>>::empty(),
        matching_lines(stype, pattern, lines.push(line)) == if line_matches(stype, pattern, line) {
            matching_lines(stype, pattern, lines).push(line)
        } else {
            matching_lines(stype, pattern, lines)
        },
{
    reveal(Seq::filter);
    assert(lines.push(line).drop_last() =~= lines);
}

/// Whether a wildcard pattern holds no wildcard.
pub open spec fn is_literal(pattern: Seq<char>) -> bool {
    forall|i: int| 0 <= i < pattern.len() ==> pattern[i] != '*' && pattern[i] != '?'
}

/// A pattern without wildcards describes one line only: the line that is
/// the pattern. A line that merely holds the pattern does not match.
pub proof fn lemma_literal_matches_itself_only(pattern: Seq<char>, line: Seq<char>)
    requires
        is_literal(pattern),
    ensures
        wildcard_matches(pattern, line) <==> line == pattern,
    decreases pattern.len(),
{
    if pattern.len() == 0 {
        assert(line.len() == 0 <==> line =~= pattern);
    } else if line.len() > 0 {
        lemma_literal_matches_itself_only(pattern.drop_first(), line.drop_first());
        if pattern[0] == line[0] && line.drop_first() == pattern.drop_first() {
            assert(line =~= seq![line[0]] + line.drop_first());
            assert(pattern =~= seq![pattern[0]] + pattern.drop_first());
        }
    }
}

/// A lone `*` describes every line, the empty one too.
pub proof fn lemma_star_matches_every_line(line: Seq<char>)
    ensures
        wildcard_matches(seq!['*'], line),
    decreases line.len(),
{
    let star = seq!['*'];
    if line.len() == 0 {
        assert(star.drop_first() =~= Seq::<char>::empty());
        assert(wildcard_matches(star.drop_first(), line));
    } else {
        lemma_star_matches_every_line(line.drop_first());
    }
}

/// A pattern that ends in its only wildcard, a `*`, describes exactly the
/// lines that begin with what stands before the `*`: the match is anchored
/// at the start of the line.
pub proof fn lemma_trailing_star_matches_prefix(prefix: Seq<char>, line: Seq<char>)
    requires
        is_literal(prefix),
    ensures
        wildcard_matches(prefix.push('*'), line) <==> has_prefix(line, prefix),
    decreases prefix.len(),
{
    let pattern = prefix.push('*');
    if prefix.len() == 0 {
        assert(pattern =~= seq!['*']);
        lemma_star_matches_every_line(line);
        assert(line.subrange(0, 0) =~= prefix);
    } else {
        assert(pattern[0] == prefix[0]);
        assert(pattern.drop_first() =~= prefix.drop_first().push('*'));
        if line.len() > 0 {
            lemma_trailing_star_matches_prefix(prefix.drop_first(), line.drop_first());
            let rest = prefix.drop_first();
            if has_prefix(line, prefix) {
                assert(line.subrange(0, prefix.len() as int)[0] == prefix[0]);
                assert(line.drop_first().subrange(0, rest.len() as int) =~= line.subrange(
                    0,
                    prefix.len() as int,
                ).drop_first());
            }
            if prefix[0] == line[0] && has_prefix(line.drop_first(), rest) {
                assert(line.subrange(0, prefix.len() as int) =~= seq![line[0]]
                    + line.drop_first().subrange(0, rest.len() as int));
                assert(prefix =~= seq![prefix[0]] + rest);
            }
        }
    }
}

} // verus!
