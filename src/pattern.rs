//! A compiled pattern and the operations that run it over text.
use vstd::prelude::*;
use crate::error::PatternError;
use crate::syntax::{node_json, SyntaxNode};
use crate::tree::{lemma_matching_trees_serialize_alike, parse, parsed_hir, parses, tree_matches};
use crate::value::{
    add_field, lemma_models_push, models, struct_fields, struct_head, Json, Value,
};

verus! {

#[verifier::external_type_specification]
#[verifier::external_body]
pub struct ExRegex(regex::Regex);

#[verifier::external_type_specification]
#[verifier::external_body]
pub struct ExRegexError(regex::Error);

/// Whether `regex::Regex::new` accepts the pattern.
pub uninterp spec fn compiles(pattern: Seq<char>) -> bool;

/// The span, in bytes, of the leftmost-first match of the compiled `pattern`
/// in `text` that starts at or after byte `start`, as `regex::Regex::find_at`
/// finds it.
pub uninterp spec fn leftmost_match(pattern: Seq<char>, text: Seq<char>, start: int) -> Option<(int, int)>;

/// The spans of the successive non-overlapping matches of `pattern` in
/// `text`, as `regex::Regex::find_iter` yields them.
pub uninterp spec fn all_matches(pattern: Seq<char>, text: Seq<char>) -> Seq<(int, int)>;

/// The text that `regex::Regex::replacen` gives: the first `limit` matches
/// replaced by the expansion of `rep`, every match where `limit` is 0.
pub uninterp spec fn replaced(pattern: Seq<char>, text: Seq<char>, limit: int, rep: Seq<char>) -> Seq<char>;

/// The bytes of a string in UTF-8.
pub open spec fn bytes_of(s: Seq<char>) -> Seq<u8> {
    vstd::utf8::encode_utf8(s)
}

/// Whether the leftmost-first match found from byte `start` begins there,
/// that is, whether some match begins exactly at `start`.
pub open spec fn begins_at(pattern: Seq<char>, text: Seq<char>, start: int) -> bool {
    leftmost_match(pattern, text, start) matches Some(s) && s.0 == start
}

/// Whether byte `i` of `text` begins a character or ends the text.
pub open spec fn boundary(text: Seq<char>, i: int) -> bool {
    0 <= i <= bytes_of(text).len() && vstd::utf8::is_char_boundary(bytes_of(text), i)
}

/// At most the first `limit` of `spans`, all of them where `limit` is 0.
pub open spec fn first_spans(spans: Seq<(int, int)>, limit: int) -> Seq<(int, int)> {
    if limit == 0 || limit >= spans.len() {
        spans
    } else {
        spans.take(limit)
    }
}

/// `text` with each of `spans` (in order, apart from each other) replaced
/// by `rep`.
pub open spec fn spliced(text: Seq<u8>, spans: Seq<(int, int)>, rep: Seq<u8>) -> Seq<u8>
    decreases spans.len(),
{
    if spans.len() == 0 {
        text
    } else {
        spliced(text.subrange(0, spans.last().0), spans.drop_last(), rep) + rep + text.subrange(
            spans.last().1,
            text.len() as int,
        )
    }
}

/// The pieces of `text` before, between and after `spans`, one more than
/// there are spans.
pub open spec fn pieces_between(text: Seq<u8>, spans: Seq<(int, int)>) -> Seq<Seq<u8>>
    decreases spans.len(),
{
    if spans.len() == 0 {
        seq![text]
    } else {
        pieces_between(text.subrange(0, spans.last().0), spans.drop_last()).push(
            text.subrange(spans.last().1, text.len() as int),
        )
    }
}

/// The pieces that splitting `text` at its first `limit - 1` matches gives:
/// none for a `limit` of 0.
pub open spec fn pieces_upto(text: Seq<u8>, spans: Seq<(int, int)>, limit: int) -> Seq<Seq<u8>> {
    if limit == 0 {
        seq![]
    } else if limit - 1 >= spans.len() {
        pieces_between(text, spans)
    } else {
        pieces_between(text, spans.take(limit - 1))
    }
}

pub proof fn lemma_pieces_len(text: Seq<u8>, spans: Seq<(int, int)>)
    ensures
        pieces_between(text, spans).len() == spans.len() + 1,
    decreases spans.len(),
{
    if spans.len() > 0 {
        lemma_pieces_len(text.subrange(0, spans.last().0), spans.drop_last());
    }
}

pub open spec fn strings_bytes(ss: Seq<String>) -> Seq<Seq<u8>> {
    ss.map_values(|s: String| bytes_of(s@))
}

/// The serialization of the tree that the parser builds for `pattern`.
pub open spec fn syntax_json(pattern: Seq<char>) -> Json {
    node_json(choose|n: SyntaxNode| tree_matches(n, parsed_hir(pattern)))
}

/// Parsing a pattern and serializing the tree gives one value, whichever
/// tree of the library's form holds the parser's tree: `syntax_json`.
pub proof fn lemma_parse_then_serialize_deterministic(pattern: Seq<char>, n: SyntaxNode)
    requires
        tree_matches(n, parsed_hir(pattern)),
    ensures
        node_json(n) == syntax_json(pattern),
{
    let m = choose|m: SyntaxNode| tree_matches(m, parsed_hir(pattern));
    lemma_matching_trees_serialize_alike(n, m, parsed_hir(pattern));
}

/// One match in a subject text: its span in bytes and the text it covers.
#[derive(Clone, Debug)]
pub struct Match {
    pub start: usize,
    pub end: usize,
    pub text: String,
}

impl Match {
    /// The match lies within `subject`, and its text is the bytes it spans.
    pub open spec fn within(self, subject: Seq<char>) -> bool {
        &&& self.start <= self.end <= bytes_of(subject).len()
        &&& bytes_of(self.text@) == bytes_of(subject).subrange(self.start as int, self.end as int)
    }

    pub open spec fn span(self) -> (int, int) {
        (self.start as int, self.end as int)
    }
}

pub open spec fn span_of(m: Option<Match>) -> Option<(int, int)> {
    match m {
        Some(m) => Some(m.span()),
        None => None,
    }
}

pub open spec fn spans(ms: Seq<Match>) -> Seq<(int, int)> {
    ms.map_values(|m: Match| m.span())
}

/// A pattern compiled once and then run, unchanged, over any number of texts.
pub struct RRegExp {
    regex: regex::Regex,
    source: String,
}

/// Relies on `regex::Regex::new`, which compiles the pattern or refuses it;
/// which one depends on the pattern alone.
#[verifier::external_body]
fn compile(pattern: &str) -> (r: Result<regex::Regex, regex::Error>)
    ensures
        r is Ok <==> compiles(pattern@),
{
    regex::Regex::new(pattern)
}

/// Relies on the `Display` impl of `regex::Error`, which renders the error
/// for a person to read.
#[verifier::external_body]
fn compile_error_message(e: &regex::Error) -> (r: String) {
    e.to_string()
}

/// Relies on `regex::Regex::find_at`: the leftmost-first match that starts
/// at or after `start`, whose bounds and text are those of
/// `regex::Match::start`, `end` and `as_str`.
#[verifier::external_body]
fn regex_find_at(re: &RRegExp, text: &str, start: usize) -> (r: Option<Match>)
    requires
        boundary(text@, start as int),
    ensures
        span_of(r) == leftmost_match(re.pattern(), text@, start as int),
        r matches Some(m) ==> start <= m.start && m.within(text@),
{
    match re.regex.find_at(text, start) {
        Some(m) => Some(Match { start: m.start(), end: m.end(), text: m.as_str().to_string() }),
        None => None,
    }
}

/// Relies on `regex::Regex::find_iter`: successive non-overlapping matches,
/// left to right, each of which bounds its own text. The first search is
/// `find_at` from offset 0; each later one starts past the previous match's
/// start (after an empty match, past its end; an empty match right where
/// the previous match ended is skipped).
#[verifier::external_body]
fn regex_find_iter(re: &RRegExp, text: &str) -> (r: Vec<Match>)
    ensures
        spans(r@) == all_matches(re.pattern(), text@),
        forall|i: int| 0 <= i < r@.len() ==> (#[trigger] r@[i]).within(text@),
        forall|i: int| 0 <= i < r@.len() - 1 ==> (#[trigger] r@[i]).end <= r@[i + 1].start,
        forall|i: int| 0 <= i < r@.len() - 1 ==> (#[trigger] r@[i]).start < r@[i + 1].start,
        r@.len() == 0 <==> leftmost_match(re.pattern(), text@, 0) is None,
        r@.len() > 0 ==> Some(r@[0].span()) == leftmost_match(re.pattern(), text@, 0),
{
    re.regex.find_iter(text).map(
        |m| Match { start: m.start(), end: m.end(), text: m.as_str().to_string() },
    ).collect()
}

/// Relies on `regex::Regex::replacen`, which hands the text back unchanged
/// where the pattern does not match it, stops only after the `limit`-th
/// match (so a `limit` past the number of matches acts as 0), and, for a
/// replacement without `$`, puts it in place of each of the first `limit`
/// matches of `find_iter` (of every one where `limit` is 0).
#[verifier::external_body]
fn regex_replacen(re: &RRegExp, text: &str, limit: usize, rep: &str) -> (r: String)
    ensures
        r@ == replaced(re.pattern(), text@, limit as int, rep@),
        all_matches(re.pattern(), text@).len() == 0 ==> r@ == text@,
        limit >= all_matches(re.pattern(), text@).len() ==> r@ == replaced(
            re.pattern(),
            text@,
            0,
            rep@,
        ),
        !rep@.contains('$') ==> bytes_of(r@) == spliced(
            bytes_of(text@),
            first_spans(all_matches(re.pattern(), text@), limit as int),
            bytes_of(rep@),
        ),
{
    re.regex.replacen(text, limit, rep).into_owned()
}

/// Relies on `regex::Regex::split`, which yields the text before, between
/// and after the matches of `find_iter`.
#[verifier::external_body]
fn regex_split(re: &RRegExp, text: &str) -> (r: Vec<String>)
    ensures
        strings_bytes(r@) == pieces_between(bytes_of(text@), all_matches(re.pattern(), text@)),
{
    re.regex.split(text).map(|s| s.to_string()).collect()
}

/// Relies on `regex::Regex::splitn`, which yields the pieces of `split` up
/// to the `limit - 1`-th match, then the rest of the text.
#[verifier::external_body]
fn regex_splitn(re: &RRegExp, text: &str, limit: usize) -> (r: Vec<String>)
    ensures
        strings_bytes(r@) == pieces_upto(
            bytes_of(text@),
            all_matches(re.pattern(), text@),
            limit as int,
        ),
{
    re.regex.splitn(text, limit).map(|s| s.to_string()).collect()
}

impl RRegExp {
    /// The pattern this was compiled from.
    pub closed spec fn pattern(&self) -> Seq<char> {
        self.source@
    }

    /// Compiles a pattern; fails, with the compiler's message, exactly on
    /// the patterns that the compiler refuses.
    pub fn new(re: &str) -> (r: Result<RRegExp, PatternError>)
        ensures
            r is Ok <==> compiles(re@),
            r matches Ok(x) ==> x.pattern() == re@,
    {
        match compile(re) {
            Ok(regex) => Ok(RRegExp { regex, source: re.to_owned() }),
            Err(e) => Err(PatternError { message: compile_error_message(&e) }),
        }
    }

    /// The pattern text.
    pub fn as_str(&self) -> (r: &str)
        ensures
            r@ == self.pattern(),
    {
        self.source.as_str()
    }

    /// The leftmost-first match that starts at or after byte `start`.
    pub fn find_at(&self, text: &str, start: usize) -> (r: Option<Match>)
        requires
            boundary(text@, start as int),
        ensures
            span_of(r) == leftmost_match(self.pattern(), text@, start as int),
            r matches Some(m) ==> start <= m.start && m.within(text@),
    {
        regex_find_at(self, text, start)
    }

    /// The leftmost-first match in the whole text.
    pub fn find(&self, text: &str) -> (r: Option<Match>)
        ensures
            span_of(r) == leftmost_match(self.pattern(), text@, 0),
            r matches Some(m) ==> m.within(text@),
    {
        proof {
            vstd::utf8::encode_utf8_valid_utf8(text@);
        }
        self.find_at(text, 0)
    }

    /// Whether the pattern matches anywhere in the text.
    pub fn is_match(&self, text: &str) -> (r: bool)
        ensures
            r == leftmost_match(self.pattern(), text@, 0) is Some,
    {
        self.find(text).is_some()
    }

    /// Whether a match begins exactly at byte `start`.
    pub fn is_match_at(&self, text: &str, start: usize) -> (r: bool)
        requires
            boundary(text@, start as int),
        ensures
            r == begins_at(self.pattern(), text@, start as int),
    {
        match self.find_at(text, start) {
            Some(m) => m.start == start,
            None => false,
        }
    }

    /// Every non-overlapping match, left to right; the first is the one that
    /// `find` returns, and each starts after the one before.
    pub fn find_all(&self, text: &str) -> (r: Vec<Match>)
        ensures
            spans(r@) == all_matches(self.pattern(), text@),
            forall|i: int| 0 <= i < r@.len() ==> (#[trigger] r@[i]).within(text@),
            forall|i: int| 0 <= i < r@.len() - 1 ==> (#[trigger] r@[i]).end <= r@[i + 1].start,
        forall|i: int| 0 <= i < r@.len() - 1 ==> (#[trigger] r@[i]).start < r@[i + 1].start,
        r@.len() == 0 <==> leftmost_match(self.pattern(), text@, 0) is None,
        r@.len() > 0 ==> Some(r@[0].span()) == leftmost_match(self.pattern(), text@, 0),
    {
        regex_find_iter(self, text)
    }

    /// Replaces the first `limit` matches by `rep`; a `limit` of 0 leaves the
    /// text as it is.
    pub fn replacen(&self, text: &str, limit: usize, rep: &str) -> (r: String)
        ensures
            limit == 0 ==> r@ == text@,
            limit > 0 ==> r@ == replaced(self.pattern(), text@, limit as int, rep@),
            limit > 0 && limit >= all_matches(self.pattern(), text@).len() ==> r@ == replaced(
                self.pattern(),
                text@,
                0,
                rep@,
            ),
            all_matches(self.pattern(), text@).len() == 0 ==> r@ == text@,
            limit > 0 && !rep@.contains('$') ==> bytes_of(r@) == spliced(
                bytes_of(text@),
                first_spans(all_matches(self.pattern(), text@), limit as int),
                bytes_of(rep@),
            ),
    {
        if limit == 0 {
            text.to_owned()
        } else {
            regex_replacen(self, text, limit, rep)
        }
    }

    /// Replaces the first match by `rep`.
    pub fn replace(&self, text: &str, rep: &str) -> (r: String)
        ensures
            r@ == replaced(self.pattern(), text@, 1, rep@),
            all_matches(self.pattern(), text@).len() == 0 ==> r@ == text@,
            !rep@.contains('$') ==> bytes_of(r@) == spliced(
                bytes_of(text@),
                first_spans(all_matches(self.pattern(), text@), 1),
                bytes_of(rep@),
            ),
    {
        self.replacen(text, 1, rep)
    }

    /// Replaces every match by `rep`.
    pub fn replace_all(&self, text: &str, rep: &str) -> (r: String)
        ensures
            r@ == replaced(self.pattern(), text@, 0, rep@),
            all_matches(self.pattern(), text@).len() == 0 ==> r@ == text@,
            !rep@.contains('$') ==> bytes_of(r@) == spliced(
                bytes_of(text@),
                all_matches(self.pattern(), text@),
                bytes_of(rep@),
            ),
    {
        regex_replacen(self, text, 0, rep)
    }

    /// The pieces of the text between the matches, one more than there are
    /// matches.
    pub fn split(&self, text: &str) -> (r: Vec<String>)
        ensures
            strings_bytes(r@) == pieces_between(bytes_of(text@), all_matches(self.pattern(), text@)),
            r@.len() == all_matches(self.pattern(), text@).len() + 1,
    {
        let r = regex_split(self, text);
        proof {
            lemma_pieces_len(bytes_of(text@), all_matches(self.pattern(), text@));
            assert(strings_bytes(r@).len() == r@.len());
        }
        r
    }

    /// The pieces of the text between the first `limit - 1` matches, the
    /// last holding the rest; at most `limit` of them.
    pub fn splitn(&self, text: &str, limit: usize) -> (r: Vec<String>)
        ensures
            strings_bytes(r@) == pieces_upto(
                bytes_of(text@),
                all_matches(self.pattern(), text@),
                limit as int,
            ),
            r@.len() <= limit,
    {
        let r = regex_splitn(self, text, limit);
        proof {
            let all = all_matches(self.pattern(), text@);
            lemma_pieces_len(bytes_of(text@), all);
            lemma_pieces_len(bytes_of(text@), all.take(limit - 1));
            assert(strings_bytes(r@).len() == r@.len());
        }
        r
    }

    /// The pattern's syntax tree, serialized; fails exactly where the
    /// parser refuses the pattern.
    pub fn syntax(&self) -> (r: Result<Value, PatternError>)
        ensures
            r is Ok <==> parses(self.pattern()),
            r matches Ok(v) ==> v.model() == syntax_json(self.pattern()),
    {
        match parse(self.source.as_str()) {
            Ok(n) => {
                proof {
                    lemma_parse_then_serialize_deterministic(self.pattern(), n);
                }
                Ok(n.to_value())
            },
            Err(e) => Err(e),
        }
    }
}

/// A string as a struct-shaped record that holds it.
pub open spec fn string_json(s: Seq<char>) -> Json {
    Json::Obj(struct_head("std::string::String"@).push(("@value"@, Json::Str(s))))
}

pub open spec fn match_json(m: Match) -> Json {
    Json::Obj(
        struct_head("regex::Match"@).push(("start"@, Json::Num(m.start as int))).push(
            ("end"@, Json::Num(m.end as int)),
        ).push(("as_str"@, string_json(m.text@))),
    )
}

pub open spec fn matches_json(ms: Seq<Match>) -> Seq<Json> {
    ms.map_values(|m: Match| match_json(m))
}

pub open spec fn strings_json(ss: Seq<String>) -> Seq<Json> {
    ss.map_values(|s: String| string_json(s@))
}

/// A string as a record that holds it.
pub fn string_value(s: &String) -> (r: Value)
    ensures
        r.model() == string_json(s@),
{
    let mut f = struct_fields("std::string::String");
    add_field(&mut f, "@value", Value::Str(s.clone()));
    Value::Object(f)
}

impl Match {
    /// The match as a record of its bounds and its text.
    pub fn to_value(&self) -> (r: Value)
        ensures
            r.model() == match_json(*self),
    {
        let mut f = struct_fields("regex::Match");
        add_field(&mut f, "start", Value::Number(self.start as u64));
        add_field(&mut f, "end", Value::Number(self.end as u64));
        add_field(&mut f, "as_str", string_value(&self.text));
        Value::Object(f)
    }
}

/// A match as a record, or null where there is none.
pub fn option(m: &Option<Match>) -> (r: Value)
    ensures
        r.model() == match m {
            Some(m) => match_json(*m),
            None => Json::Null,
        },
{
    match m {
        Some(m) => m.to_value(),
        None => Value::Null,
    }
}

/// Matches as an array of records, in order.
pub fn matches_value(ms: &Vec<Match>) -> (r: Value)
    ensures
        r.model() == Json::Arr(matches_json(ms@)),
{
    let mut out: Vec<Value> = Vec::new();
    let mut i: usize = 0;
    while i < ms.len()
        invariant
            i <= ms@.len(),
            models(out@) == matches_json(ms@.take(i as int)),
        decreases ms@.len() - i,
    {
        let v = ms[i].to_value();
        proof {
            lemma_models_push(out@, v);
            assert(ms@.take(i + 1) =~= ms@.take(i as int).push(ms@[i as int]));
            assert(matches_json(ms@.take(i + 1)) =~= matches_json(ms@.take(i as int)).push(
                match_json(ms@[i as int]),
            ));
        }
        out.push(v);
        i = i + 1;
    }
    assert(ms@.take(i as int) =~= ms@);
    Value::Array(out)
}

/// Strings as an array of records, in order.
pub fn strings_value(ss: &Vec<String>) -> (r: Value)
    ensures
        r.model() == Json::Arr(strings_json(ss@)),
{
    let mut out: Vec<Value> = Vec::new();
    let mut i: usize = 0;
    while i < ss.len()
        invariant
            i <= ss@.len(),
            models(out@) == strings_json(ss@.take(i as int)),
        decreases ss@.len() - i,
    {
        let v = string_value(&ss[i]);
        proof {
            lemma_models_push(out@, v);
            assert(ss@.take(i + 1) =~= ss@.take(i as int).push(ss@[i as int]));
            assert(strings_json(ss@.take(i + 1)) =~= strings_json(ss@.take(i as int)).push(
                string_json(ss@[i as int]@),
            ));
        }
        out.push(v);
        i = i + 1;
    }
    assert(ss@.take(i as int) =~= ss@);
    Value::Array(out)
}

/// `is_match_at` holds exactly where the match that `find_at` returns from
/// the same offset begins at that offset.
pub proof fn lemma_is_match_at_agrees_with_find_at(
    pattern: Seq<char>,
    text: Seq<char>,
    start: int,
    found: Option<Match>,
)
    requires
        span_of(found) == leftmost_match(pattern, text, start),
    ensures
        begins_at(pattern, text, start) <==> (found matches Some(m) && m.start == start),
{
}

} // verus!
