//! Finding the port a server really listens on, by reading the lines it prints.
//!
//! The server is started with a `PORT` variable, but many scripts choose their
//! own port. Each output line is matched against a fixed list of patterns; the
//! first port of at least 1024 that one of them captures is reported, once.

use vstd::prelude::*;
use crate::number::{parse_u16, parse_u16_spec};
use crate::text::chars_of;

verus! {

/// Whether `regex::Regex::new` accepts `pattern` (with the crate's default size limits).
pub uninterp spec fn regex_compiles(pattern: Seq<char>) -> bool;

/// The text of capture group `group` in the first (leftmost-first) match that a
/// regex built from `pattern` finds in `haystack`; `None` when there is no
/// match, when the regex has no such group, or when the group takes no part in
/// the match.
pub uninterp spec fn regex_group_text(pattern: Seq<char>, haystack: Seq<char>, group: nat) -> Option<Seq<char>>;

/// A `regex::Regex`, opaque to the proofs. Only `compile_regex` builds one and
/// only `capture_group` reads it, so what it matches is stated through the
/// pattern it was built from (its view).
#[verifier::external_body]
pub struct CompiledRegex {
    regex: regex::Regex,
}

/// The pattern `regex` was compiled from (`regex::Regex::as_str`).
pub uninterp spec fn compiled_source(regex: CompiledRegex) -> Seq<char>;

impl View for CompiledRegex {
    type V = Seq<char>;

    open spec fn view(&self) -> Seq<char> {
        compiled_source(*self)
    }
}

/// Compiles `pattern` with `regex::Regex::new`.
///
/// Trusted: the result is `Some` exactly when the crate accepts the pattern,
/// and then it is the regex compiled from `pattern`; the error itself is dropped.
#[verifier::external_body]
fn compile_regex(pattern: &str) -> (r: Option<CompiledRegex>)
    ensures
        r is Some <==> regex_compiles(pattern@),
        r matches Some(c) ==> compiled_source(c) == pattern@,
{
    match regex::Regex::new(pattern) {
        Ok(regex) => Some(CompiledRegex { regex }),
        Err(_) => None,
    }
}

/// Runs `regex::Regex::captures` on `haystack` and keeps the text of group
/// `group` (through `Captures::get` and `Match::as_str`).
///
/// Trusted: the result is the text of that group in the first match of
/// `regex`, the regex compiled from `regex@`; `None` when there is no match or
/// the group is absent from it.
#[verifier::external_body]
fn capture_group(regex: &CompiledRegex, haystack: &str, group: usize) -> (r: Option<String>)
    ensures
        match r {
            Some(g) => regex_group_text(compiled_source(*regex), haystack@, group as nat) == Some(g@),
            None => regex_group_text(compiled_source(*regex), haystack@, group as nat) is None,
        },
{
    match regex.regex.captures(haystack) {
        Some(caps) => match caps.get(group) {
            Some(m) => Some(m.as_str().to_string()),
            None => None,
        },
        None => None,
    }
}

/// A compiled regular expression together with the pattern it was built from.
pub struct PortPattern {
    source: String,
    regex: CompiledRegex,
}

impl View for PortPattern {
    type V = Seq<char>;

    closed spec fn view(&self) -> Seq<char> {
        self.source@
    }
}

impl PortPattern {
    /// The regex held is the one compiled from the source, which the regex
    /// crate accepted.
    #[verifier::type_invariant]
    closed spec fn compiled(&self) -> bool {
        &&& self.regex@ == self.source@
        &&& regex_compiles(self.source@)
    }

    /// Compiles `source`; `None` when the regex crate refuses it.
    pub fn compile(source: &str) -> (r: Option<PortPattern>)
        ensures
            match r {
                Some(p) => p@ == source@ && regex_compiles(source@),
                None => !regex_compiles(source@),
            },
    {
        match compile_regex(source) {
            Some(regex) => Some(PortPattern { source: source.to_owned(), regex }),
            None => None,
        }
    }

    /// The text of group 1 (the port) in the first match in `line`, if any.
    pub fn first_group(&self, line: &str) -> (r: Option<String>)
        ensures
            regex_compiles(self@),
            match r {
                Some(g) => regex_group_text(self@, line@, 1) == Some(g@),
                None => regex_group_text(self@, line@, 1) is None,
            },
    {
        proof {
            use_type_invariant(self);
        }
        capture_group(&self.regex, line, 1)
    }
}

/// The lowest port that counts as a server's port; lower captures are ignored.
pub const MIN_REPORTED_PORT: u16 = 1024;

/// The patterns tried on each output line, in order.
pub open spec fn port_pattern_sources() -> Seq<Seq<char>> {
    seq![
        "port\\s*[:=]\\s*(\\d{4,5})"@,
        "listening on.*?(\\d{4,5})"@,
        "started on.*?:\\s*(\\d{4,5})"@,
        "PORT\\s*=\\s*(\\d{4,5})"@,
        "Server running at.*?(\\d{4,5})"@,
        "Bun\\.serve.*?port\\s*:\\s*(\\d{4,5})"@,
        "localhost:(\\d{4,5})"@
    ]
}

/// The patterns of `sources` that compile, in order.
pub open spec fn compiling(sources: Seq<Seq<char>>) -> Seq<Seq<char>>
    decreases sources.len(),
{
    if sources.len() == 0 {
        sources
    } else {
        let rest = compiling(sources.drop_last());
        if regex_compiles(sources.last()) {
            rest.push(sources.last())
        } else {
            rest
        }
    }
}

/// The port a captured text names, when it parses as a `u16` of at least
/// `MIN_REPORTED_PORT`.
pub open spec fn accepted_port(group: Option<Seq<char>>) -> Option<u16> {
    match group {
        Some(t) => match parse_u16_spec(t) {
            Some(p) => if p >= MIN_REPORTED_PORT { Some(p) } else { None },
            None => None,
        },
        None => None,
    }
}

/// The port that a pattern's capture names: `None` unless the text parses as a
/// `u16` (an optional `+`, then ASCII digits) of at least `MIN_REPORTED_PORT`.
pub fn accepted_port_of(group: &Option<String>) -> (r: Option<u16>)
    ensures
        r == accepted_port(match group { Some(g) => Some(g@), None => None }),
{
    match group {
        Some(g) => {
            let digits = chars_of(g.as_str());
            match parse_u16(&digits) {
                Some(p) => if p >= MIN_REPORTED_PORT { Some(p) } else { None },
                None => None,
            }
        },
        None => None,
    }
}

/// The port that `line` reveals: the accepted port of the first pattern, in
/// order, whose capture is accepted.
pub open spec fn detect_port(patterns: Seq<Seq<char>>, line: Seq<char>) -> Option<u16>
    decreases patterns.len(),
{
    if patterns.len() == 0 {
        None
    } else {
        match accepted_port(regex_group_text(patterns[0], line, 1)) {
            Some(p) => Some(p),
            None => detect_port(patterns.drop_first(), line),
        }
    }
}

/// What a resolver reports for each of `lines` in turn, starting in the given
/// state: nothing once a port has been reported, else the port the line reveals.
pub open spec fn reports(patterns: Seq<Seq<char>>, reported: bool, lines: Seq<Seq<char>>) -> Seq<Option<u16>>
    decreases lines.len(),
{
    if lines.len() == 0 {
        Seq::empty()
    } else {
        let out = if reported { None } else { detect_port(patterns, lines[0]) };
        seq![out] + reports(patterns, reported || out is Some, lines.drop_first())
    }
}

/// Reads the output of one server run and reports its port once.
pub struct PortResolver {
    patterns: Vec<PortPattern>,
    reported: bool,
}

impl PortResolver {
    /// The patterns in use, in order.
    pub closed spec fn patterns(&self) -> Seq<Seq<char>> {
        self.patterns@.map_values(|p: PortPattern| p@)
    }

    /// Whether a port has already been reported.
    pub closed spec fn reported(&self) -> bool {
        self.reported
    }

    /// A resolver for a new run: every pattern of `port_pattern_sources` that
    /// compiles, in order, and nothing reported yet.
    pub fn new() -> (r: PortResolver)
        ensures
            r.patterns() == compiling(port_pattern_sources()),
            !r.reported(),
    {
        let sources: Vec<&str> = vec![
            "port\\s*[:=]\\s*(\\d{4,5})",
            "listening on.*?(\\d{4,5})",
            "started on.*?:\\s*(\\d{4,5})",
            "PORT\\s*=\\s*(\\d{4,5})",
            "Server running at.*?(\\d{4,5})",
            "Bun\\.serve.*?port\\s*:\\s*(\\d{4,5})",
            "localhost:(\\d{4,5})",
        ];
        let ghost want = port_pattern_sources();
        assert(sources@.map_values(|s: &str| s@) =~= want);
        let mut patterns: Vec<PortPattern> = Vec::new();
        for i in 0..sources.len()
            invariant
                sources@.map_values(|s: &str| s@) == want,
                patterns@.map_values(|p: PortPattern| p@) == compiling(want.take(i as int)),
        {
            let ghost before = patterns@.map_values(|p: PortPattern| p@);
            assert(want.take(i + 1).drop_last() =~= want.take(i as int));
            assert(want[i as int] == sources@[i as int]@);
            match PortPattern::compile(sources[i]) {
                Some(p) => {
                    patterns.push(p);
                    assert(patterns@.map_values(|p: PortPattern| p@) =~= before.push(want[i as int]));
                },
                None => {},
            }
        }
        assert(want.take(sources.len() as int) =~= want);
        PortResolver { patterns, reported: false }
    }

    /// Whether a port has already been reported.
    pub fn has_reported(&self) -> (b: bool)
        ensures
            b == self.reported(),
    {
        self.reported
    }

    /// The port that `line` reveals under these patterns, ignoring what was reported before.
    pub fn scan(&self, line: &str) -> (r: Option<u16>)
        ensures
            r == detect_port(self.patterns(), line@),
    {
        let ghost pats = self.patterns();
        let mut i: usize = 0;
        assert(pats.skip(0) =~= pats);
        while i < self.patterns.len()
            invariant
                pats == self.patterns@.map_values(|p: PortPattern| p@),
                i <= self.patterns@.len(),
                detect_port(pats, line@) == detect_port(pats.skip(i as int), line@),
            decreases self.patterns.len() - i,
        {
            let ghost rest = pats.skip(i as int);
            assert(rest[0] == self.patterns@[i as int]@);
            assert(rest.drop_first() =~= pats.skip(i + 1));
            let group = self.patterns[i].first_group(line);
            let found = accepted_port_of(&group);
            if found.is_some() {
                return found;
            }
            i += 1;
        }
        assert(pats.skip(i as int).len() == 0);
        None
    }

    /// Takes in one output line. Until a port has been reported, returns the
    /// port the line reveals and remembers that it was reported; afterwards,
    /// returns `None` and changes nothing.
    pub fn observe(&mut self, line: &str) -> (r: Option<u16>)
        ensures
            final(self).patterns() == old(self).patterns(),
            r == (if old(self).reported() { None } else { detect_port(old(self).patterns(), line@) }),
            final(self).reported() == (old(self).reported() || r is Some),
    {
        if self.reported {
            return None;
        }
        let r = self.scan(line);
        if r.is_some() {
            self.reported = true;
        }
        r
    }
}

/// A run reports at most one port, and it is the first one shown: starting
/// from a fresh resolver, the report for line `i` is a port exactly when line
/// `i` reveals one and no earlier line did, and then it is that line's port
/// and at least `MIN_REPORTED_PORT`.
pub proof fn lemma_reports_first_port_only(patterns: Seq<Seq<char>>, lines: Seq<Seq<char>>)
    ensures
        reports(patterns, false, lines).len() == lines.len(),
        forall|i: int| 0 <= i < lines.len() ==> {
            &&& (#[trigger] reports(patterns, false, lines)[i] is Some <==> (
                detect_port(patterns, lines[i]) is Some
                && forall|k: int| 0 <= k < i ==> detect_port(patterns, #[trigger] lines[k]) is None))
            &&& reports(patterns, false, lines)[i] is Some ==> reports(patterns, false, lines)[i]
                == detect_port(patterns, lines[i])
        },
    decreases lines.len(),
{
    lemma_reports_len(patterns, false, lines);
    if lines.len() > 0 {
        let first = detect_port(patterns, lines[0]);
        let tail = lines.drop_first();
        lemma_reports_len(patterns, first is Some, tail);
        if first is Some {
            lemma_reports_silent(patterns, tail);
        } else {
            lemma_reports_first_port_only(patterns, tail);
        }
        assert forall|i: int| 0 <= i < lines.len() implies {
            &&& (#[trigger] reports(patterns, false, lines)[i] is Some <==> (
                detect_port(patterns, lines[i]) is Some
                && forall|k: int| 0 <= k < i ==> detect_port(patterns, #[trigger] lines[k]) is None))
            &&& reports(patterns, false, lines)[i] is Some ==> reports(patterns, false, lines)[i]
                == detect_port(patterns, lines[i])
        } by {
            if i > 0 {
                assert(reports(patterns, false, lines)[i] == reports(patterns, first is Some, tail)[i - 1]);
                assert(lines[i] == tail[i - 1]);
                if first is None {
                    assert forall|k: int| 0 <= k < i && detect_port(patterns, #[trigger] lines[k]) is Some implies
                        exists|m: int| 0 <= m < i - 1 && detect_port(patterns, #[trigger] tail[m]) is Some by {
                        assert(k != 0);
                        assert(tail[k - 1] == lines[k]);
                    }
                    assert forall|m: int| 0 <= m < i - 1 && detect_port(patterns, #[trigger] tail[m]) is Some implies
                        exists|k: int| 0 <= k < i && detect_port(patterns, #[trigger] lines[k]) is Some by {
                        assert(tail[m] == lines[m + 1]);
                    }
                } else {
                    assert(detect_port(patterns, lines[0]) is Some);
                }
            }
        }
    }
}

proof fn lemma_reports_len(patterns: Seq<Seq<char>>, reported: bool, lines: Seq<Seq<char>>)
    ensures
        reports(patterns, reported, lines).len() == lines.len(),
    decreases lines.len(),
{
    if lines.len() > 0 {
        let out = if reported { None } else { detect_port(patterns, lines[0]) };
        lemma_reports_len(patterns, reported || out is Some, lines.drop_first());
    }
}

proof fn lemma_reports_silent(patterns: Seq<Seq<char>>, lines: Seq<Seq<char>>)
    ensures
        forall|i: int| 0 <= i < lines.len() ==> #[trigger] reports(patterns, true, lines)[i] is None,
    decreases lines.len(),
{
    lemma_reports_len(patterns, true, lines);
    if lines.len() > 0 {
        lemma_reports_silent(patterns, lines.drop_first());
        lemma_reports_len(patterns, true, lines.drop_first());
        assert forall|i: int| 0 <= i < lines.len() implies #[trigger] reports(patterns, true, lines)[i] is None by {
            if i > 0 {
                assert(reports(patterns, true, lines)[i] == reports(patterns, true, lines.drop_first())[i - 1]);
            }
        }
    }
}

/// The capture group that ends every pattern: four or five digits.
pub open spec fn port_digits_group() -> Seq<char> {
    "(\\d{4,5})"@
}

/// Every pattern that the resolver tries ends with the group `(\d{4,5})`,
/// which is its only group, so group 1 is always the four- or five-digit port
/// text; among them is `localhost:(\d{4,5})`, which reads the port of a
/// `localhost:` address. There are seven patterns.
pub proof fn lemma_patterns_capture_port_digits()
    ensures
        port_pattern_sources().len() == 7,
        forall|i: int| 0 <= i < port_pattern_sources().len() ==> {
            let p = #[trigger] port_pattern_sources()[i];
            let n = p.len() - port_digits_group().len();
            &&& n >= 0
            &&& p.subrange(n, p.len() as int) == port_digits_group()
            &&& forall|k: int| 0 <= k < n ==> p[k] != '(' && p[k] != ')'
        },
        port_pattern_sources().contains("localhost:(\\d{4,5})"@),
{
    reveal_strlit("(\\d{4,5})");
    reveal_strlit("port\\s*[:=]\\s*(\\d{4,5})");
    reveal_strlit("listening on.*?(\\d{4,5})");
    reveal_strlit("started on.*?:\\s*(\\d{4,5})");
    reveal_strlit("PORT\\s*=\\s*(\\d{4,5})");
    reveal_strlit("Server running at.*?(\\d{4,5})");
    reveal_strlit("Bun\\.serve.*?port\\s*:\\s*(\\d{4,5})");
    reveal_strlit("localhost:(\\d{4,5})");
    let s = port_pattern_sources();
    let g = port_digits_group();
    assert forall|i: int| 0 <= i < s.len() implies {
        let p = #[trigger] s[i];
        let n = p.len() - g.len();
        &&& n >= 0
        &&& p.subrange(n, p.len() as int) == g
        &&& forall|k: int| 0 <= k < n ==> p[k] != '(' && p[k] != ')'
    } by {
        let p = s[i];
        let n = p.len() - g.len();
        assert(p.subrange(n, p.len() as int) =~= g);
    }
    assert(s[6] == "localhost:(\\d{4,5})"@);
}

} // verus!
