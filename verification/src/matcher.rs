//! Ordered rule matching: the first rule whose pattern matches a line wins.

use vstd::prelude::*;
use vstd::string::*;
use regex::Regex;

verus! {

/// A compiled regular expression of the `regex` crate. Its contents are opaque here.
#[verifier::external_type_specification]
#[verifier::external_body]
pub struct ExRegex(regex::Regex);

/// The error that the `regex` crate reports for a pattern it cannot compile.
#[verifier::external_type_specification]
#[verifier::external_body]
pub struct ExRegexError(regex::Error);

/// Whether the regular expression that `Regex::new` compiles from `pattern`
/// finds a match anywhere in `haystack`.
pub uninterp spec fn pattern_matches(pattern: Seq<char>, haystack: Seq<char>) -> bool;

/// What `Regex::is_match` returns for the compiled expression `re` on `haystack`.
pub uninterp spec fn regex_accepts(re: Regex, haystack: Seq<char>) -> bool;

/// Whether `Regex::new` accepts `pattern`: it is well formed and what it
/// compiles to stays within the limits that `Regex::new` sets.
pub uninterp spec fn pattern_compiles(pattern: Seq<char>) -> bool;

/// How the error that `Regex::new` returns for `pattern` prints with
/// `Display`.
pub uninterp spec fn rejection_text(pattern: Seq<char>) -> Seq<char>;

/// `Regex::new`: whether the call succeeds depends on the pattern alone. An
/// expression that compiled matches exactly the haystacks that its pattern
/// matches; an error prints the text that belongs to the pattern.
pub assume_specification[ regex::Regex::new ](re: &str) -> (r: Result<regex::Regex, regex::Error>)
    ensures
        r is Ok <==> pattern_compiles(re@),
        r matches Ok(compiled) ==> forall|haystack: Seq<char>|
            #[trigger] regex_accepts(compiled, haystack) == pattern_matches(re@, haystack),
        r matches Err(error) ==> forall|text: String|
            #[trigger] to_string_from_display_ensures::<regex::Error>(&error, text) ==> text@
                == rejection_text(re@),
;

/// `Regex::is_match`: whether the expression matches somewhere in the haystack.
pub assume_specification[ regex::Regex::is_match ](re: &regex::Regex, haystack: &str) -> (b: bool)
    ensures
        b == regex_accepts(*re, haystack@),
;

/// One matching rule: a regular expression and the tag put in front of a
/// line that it matches.
#[derive(Debug)]
pub struct Rule {
    pub pattern: String,
    pub prefix: String,
}

impl Clone for Rule {
    fn clone(&self) -> (copy: Rule)
        ensures
            copy == *self,
    {
        Rule { pattern: self.pattern.clone(), prefix: self.prefix.clone() }
    }
}

/// The mathematical content of a [`Rule`].
pub struct RuleView {
    pub pattern: Seq<char>,
    pub prefix: Seq<char>,
}

impl View for Rule {
    type V = RuleView;

    open spec fn view(&self) -> RuleView {
        RuleView { pattern: self.pattern@, prefix: self.prefix@ }
    }
}

/// The views of a list of rules, in order.
pub open spec fn rule_views(rules: Seq<Rule>) -> Seq<RuleView> {
    Seq::new(rules.len(), |i: int| rules[i]@)
}

/// Rule `i` is the first rule of `rules` whose pattern matches `line`.
pub open spec fn is_first_match(rules: Seq<RuleView>, line: Seq<char>, i: int) -> bool {
    &&& 0 <= i < rules.len()
    &&& pattern_matches(rules[i].pattern, line)
    &&& forall|j: int| 0 <= j < i ==> !pattern_matches(#[trigger] rules[j].pattern, line)
}

/// No rule of `rules` matches `line`.
pub open spec fn no_match(rules: Seq<RuleView>, line: Seq<char>) -> bool {
    forall|j: int| 0 <= j < rules.len() ==> !pattern_matches(#[trigger] rules[j].pattern, line)
}

/// The index of the first rule that matches `line`, if any rule does.
pub open spec fn first_match(rules: Seq<RuleView>, line: Seq<char>) -> Option<int> {
    if exists|i: int| is_first_match(rules, line, i) {
        Some(choose|i: int| is_first_match(rules, line, i))
    } else {
        None
    }
}

/// The text reported for a match: the rule's prefix followed by the line.
/// With an empty prefix this is the line itself.
pub open spec fn prefixed_text(prefix: Seq<char>, line: Seq<char>) -> Seq<char> {
    prefix + line
}

/// What matching `line` against `rules` yields: the first matching rule's
/// index with the prefixed line, or nothing.
pub open spec fn match_result(rules: Seq<RuleView>, line: Seq<char>) -> Option<(int, Seq<char>)> {
    match first_match(rules, line) {
        Some(i) => Some((i, prefixed_text(rules[i].prefix, line))),
        None => None,
    }
}

/// The mathematical content of what [`Matcher::find_match`] returns.
pub open spec fn hit_view(hit: Option<(usize, String)>) -> Option<(int, Seq<char>)> {
    match hit {
        Some((i, text)) => Some((i as int, text@)),
        None => None,
    }
}

/// At most one index is the first match.
pub proof fn lemma_first_match_unique(rules: Seq<RuleView>, line: Seq<char>, a: int, b: int)
    requires
        is_first_match(rules, line, a),
        is_first_match(rules, line, b),
    ensures
        a == b,
{
    if a < b {
        assert(!pattern_matches(rules[a].pattern, line));
    } else if b < a {
        assert(!pattern_matches(rules[b].pattern, line));
    }
}

/// `first_match` is `Some(i)` exactly for the first matching index, and
/// `None` exactly when no rule matches.
pub proof fn lemma_first_match(rules: Seq<RuleView>, line: Seq<char>)
    ensures
        forall|i: int| is_first_match(rules, line, i) <==> first_match(rules, line) == Some(i),
        no_match(rules, line) <==> first_match(rules, line) is None,
{
    assert forall|i: int| is_first_match(rules, line, i) implies first_match(rules, line) == Some(
        i,
    ) by {
        let c = choose|k: int| is_first_match(rules, line, k);
        lemma_first_match_unique(rules, line, i, c);
    }
    if first_match(rules, line) is None {
        lemma_some_match_has_first(rules, line, rules.len() as int);
    }
    if no_match(rules, line) {
        if first_match(rules, line) is Some {
            let c = choose|k: int| is_first_match(rules, line, k);
            assert(pattern_matches(rules[c].pattern, line));
        }
    }
}

/// If any rule below `bound` matches, some rule is the first match.
proof fn lemma_some_match_has_first(rules: Seq<RuleView>, line: Seq<char>, bound: int)
    requires
        0 <= bound <= rules.len(),
    ensures
        (exists|i: int| is_first_match(rules, line, i)) || forall|j: int|
            0 <= j < bound ==> !pattern_matches(#[trigger] rules[j].pattern, line),
    decreases bound,
{
    if bound > 0 {
        lemma_some_match_has_first(rules, line, bound - 1);
        if !(exists|i: int| is_first_match(rules, line, i)) {
            if pattern_matches(rules[bound - 1].pattern, line) {
                assert(is_first_match(rules, line, bound - 1));
            }
        }
    }
}

/// First match wins: when rules `a` and `b`, with `a` before `b`, both match
/// `line`, the match carries an index no later than `a`, never `b`, together
/// with that rule's prefix; and where no rule before `a` matches, it is `a`
/// itself with `a`'s prefix.
pub proof fn first_match_wins(rules: Seq<RuleView>, line: Seq<char>, a: int, b: int)
    requires
        0 <= a < b < rules.len(),
        pattern_matches(rules[a].pattern, line),
        pattern_matches(rules[b].pattern, line),
    ensures
        match_result(rules, line) matches Some((i, text)) && 0 <= i <= a && i != b && text
            == rules[i].prefix + line,
        (forall|j: int| 0 <= j < a ==> !pattern_matches(#[trigger] rules[j].pattern, line))
            ==> match_result(rules, line) == Some((a, rules[a].prefix + line)),
{
    lemma_first_match(rules, line);
    lemma_some_match_has_first(rules, line, a + 1);
    let i = choose|i: int| is_first_match(rules, line, i);
    assert(is_first_match(rules, line, i));
    if i > a {
        assert(!pattern_matches(rules[a].pattern, line));
    }
    if forall|j: int| 0 <= j < a ==> !pattern_matches(#[trigger] rules[j].pattern, line) {
        assert(is_first_match(rules, line, a));
    }
}

/// Every pattern of `rules` compiles.
pub open spec fn all_compile(rules: Seq<RuleView>) -> bool {
    forall|i: int| 0 <= i < rules.len() ==> pattern_compiles(#[trigger] rules[i].pattern)
}

/// Rule `i` is the first rule of `rules` whose pattern does not compile.
pub open spec fn is_first_rejected(rules: Seq<RuleView>, i: int) -> bool {
    &&& 0 <= i < rules.len()
    &&& !pattern_compiles(rules[i].pattern)
    &&& forall|j: int| 0 <= j < i ==> pattern_compiles(#[trigger] rules[j].pattern)
}

/// The rules that stand for a list of bare patterns: each pattern with an
/// empty prefix.
pub open spec fn pattern_rules(patterns: Seq<String>) -> Seq<RuleView> {
    Seq::new(patterns.len(), |i: int| RuleView { pattern: patterns[i]@, prefix: Seq::empty() })
}

/// Why a list of rules could not be compiled.
#[derive(Debug)]
pub enum MatcherError {
    /// The pattern of the rule at `index` was rejected by the regex
    /// compiler; `cause` is the compiler's own description.
    InvalidPattern { index: usize, pattern: String, cause: String },
}

impl Clone for MatcherError {
    fn clone(&self) -> (copy: MatcherError)
        ensures
            copy == *self,
    {
        match self {
            MatcherError::InvalidPattern { index, pattern, cause } => {
                MatcherError::InvalidPattern {
                    index: *index,
                    pattern: pattern.clone(),
                    cause: cause.clone(),
                }
            },
        }
    }
}

impl MatcherError {
    /// This is the error owed for `rules`: it names the first rule whose
    /// pattern does not compile, with that pattern and with the text of
    /// the regex compiler's error for it.
    pub open spec fn rejects(self, rules: Seq<RuleView>) -> bool {
        &&& self matches MatcherError::InvalidPattern { index, pattern, cause }
        &&& is_first_rejected(rules, index as int)
        &&& pattern@ == rules[index as int].pattern
        &&& cause@ == rejection_text(rules[index as int].pattern)
    }

    /// The error for the rule at `index`, built from the compiler's error.
    pub fn invalid_pattern(index: usize, pattern: &str, error: &regex::Error) -> (e: MatcherError)
        ensures
            e matches MatcherError::InvalidPattern { index: i, pattern: p, cause } && i == index
                && p@ == pattern@ && to_string_from_display_ensures::<regex::Error>(error, cause),
    {
        MatcherError::InvalidPattern {
            index,
            pattern: pattern.to_owned(),
            cause: error.to_string(),
        }
    }

    /// The position of the offending rule in the list that was compiled.
    pub fn index(&self) -> (i: usize)
        ensures
            self matches MatcherError::InvalidPattern { index, .. } && i == index,
    {
        match self {
            MatcherError::InvalidPattern { index, .. } => *index,
        }
    }

    /// A one-line description: the offending pattern and the compiler's reason.
    pub fn message(&self) -> (text: String)
        ensures
            self matches MatcherError::InvalidPattern { pattern, cause, .. } && text@
                == "Invalid regex pattern '"@ + pattern@ + "': "@ + cause@,
    {
        match self {
            MatcherError::InvalidPattern { pattern, cause, .. } => {
                let mut text = "Invalid regex pattern '".to_owned();
                text.append(pattern.as_str());
                text.append("': ");
                text.append(cause.as_str());
                text
            },
        }
    }
}

/// An ordered list of compiled rules.
pub struct Matcher {
    regexes: Vec<Regex>,
    rules: Vec<Rule>,
}

impl Matcher {
    /// Every rule has its compiled expression, which matches what the
    /// rule's pattern matches.
    #[verifier::type_invariant]
    closed spec fn inv(&self) -> bool {
        &&& self.regexes.len() == self.rules.len()
        &&& forall|i: int, line: Seq<char>|
            0 <= i < self.regexes.len() ==> #[trigger] regex_accepts(self.regexes[i], line)
                == pattern_matches(self.rules[i].pattern@, line)
    }

    /// The rules of this matcher, in the order in which they are tried.
    pub closed spec fn rules(&self) -> Seq<RuleView> {
        rule_views(self.rules@)
    }

    /// Compiles `rules` in order. The result is a matcher exactly when
    /// every pattern compiles, and then it holds the given rules as they
    /// are. Otherwise the whole list is rejected: the error names the
    /// first rule whose pattern does not compile, with the regex
    /// compiler's description of what is wrong with it.
    pub fn compile(rules: &[Rule]) -> (r: Result<Matcher, MatcherError>)
        ensures
            r is Ok <==> all_compile(rule_views(rules@)),
            r matches Ok(m) ==> m.rules() == rule_views(rules@),
            r matches Err(e) ==> e.rejects(rule_views(rules@)),
    {
        let mut regexes: Vec<Regex> = Vec::new();
        let mut kept: Vec<Rule> = Vec::new();
        let mut i: usize = 0;
        while i < rules.len()
            invariant
                i <= rules@.len(),
                regexes.len() == i,
                kept.len() == i,
                forall|j: int| 0 <= j < i ==> (#[trigger] kept[j])@ == rules@[j]@,
                forall|j: int| 0 <= j < i ==> pattern_compiles(#[trigger] rule_views(rules@)[j].pattern),
                forall|j: int, line: Seq<char>|
                    0 <= j < i ==> #[trigger] regex_accepts(regexes[j], line) == pattern_matches(
                        rules@[j].pattern@,
                        line,
                    ),
            decreases rules@.len() - i,
        {
            let rule = &rules[i];
            assert(rule_views(rules@)[i as int].pattern == rule.pattern@);
            match Regex::new(rule.pattern.as_str()) {
                Ok(re) => {
                    regexes.push(re);
                    kept.push(rule.clone());
                },
                Err(e) => {
                    let error = MatcherError::invalid_pattern(i, rule.pattern.as_str(), &e);
                    assert(is_first_rejected(rule_views(rules@), i as int));
                    return Err(error);
                },
            }
            i += 1;
        }
        let m = Matcher { regexes, rules: kept };
        assert(m.rules() =~= rule_views(rules@));
        Ok(m)
    }

    /// Compiles `patterns` as rules without a prefix, so that a match
    /// reports the line unchanged. The result is a matcher exactly when
    /// every pattern compiles; otherwise the error names the first pattern
    /// that does not.
    pub fn new(patterns: &[String]) -> (r: Result<Matcher, MatcherError>)
        ensures
            r is Ok <==> all_compile(pattern_rules(patterns@)),
            r matches Ok(m) ==> m.rules() == pattern_rules(patterns@),
            r matches Err(e) ==> e.rejects(pattern_rules(patterns@)),
    {
        let mut rules: Vec<Rule> = Vec::new();
        let mut i: usize = 0;
        while i < patterns.len()
            invariant
                i <= patterns@.len(),
                rules.len() == i,
                forall|j: int|
                    0 <= j < i ==> (#[trigger] rules[j])@ == (RuleView {
                        pattern: patterns@[j]@,
                        prefix: Seq::empty(),
                    }),
            decreases patterns@.len() - i,
        {
            rules.push(Rule { pattern: patterns[i].clone(), prefix: String::new() });
            i += 1;
        }
        assert(rule_views(rules@) =~= pattern_rules(patterns@));
        Matcher::compile(rules.as_slice())
    }

    /// The number of rules.
    pub fn len(&self) -> (n: usize)
        ensures
            n == self.rules().len(),
    {
        proof {
            use_type_invariant(self);
        }
        self.rules.len()
    }

    /// Matches `line` against the rules in order and stops at the first
    /// rule whose pattern matches: the result is that rule's index and its
    /// prefix followed by the line. `None` means that no rule matches.
    pub fn find_match(&self, line: &str) -> (hit: Option<(usize, String)>)
        ensures
            hit_view(hit) == match_result(self.rules(), line@),
            hit matches Some((i, text)) ==> is_first_match(self.rules(), line@, i as int) && text@
                == self.rules()[i as int].prefix + line@,
            hit is None ==> no_match(self.rules(), line@),
    {
        proof {
            use_type_invariant(self);
            lemma_first_match(self.rules(), line@);
        }
        let mut i: usize = 0;
        while i < self.regexes.len()
            invariant
                i <= self.regexes.len(),
                self.regexes.len() == self.rules.len(),
                forall|k: int, l: Seq<char>|
                    0 <= k < self.regexes.len() ==> #[trigger] regex_accepts(self.regexes[k], l)
                        == pattern_matches(self.rules[k].pattern@, l),
                forall|j: int|
                    0 <= j < i ==> !pattern_matches(#[trigger] self.rules()[j].pattern, line@),
            decreases self.regexes.len() - i,
        {
            if self.regexes[i].is_match(line) {
                let mut text = self.rules[i].prefix.clone();
                text.append(line);
                assert(is_first_match(self.rules(), line@, i as int));
                return Some((i, text));
            }
            i += 1;
        }
        assert(no_match(self.rules(), line@));
        None
    }
}

} // verus!
