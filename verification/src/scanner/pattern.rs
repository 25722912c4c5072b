use crate::scanner::platform::Platform;
use crate::scanner::severity::Severity;
use regex::Regex;
use vstd::prelude::*;

verus! {

/// A compiled regular expression of the `regex` crate.
#[verifier::external_type_specification]
#[verifier::external_body]
pub struct ExRegex(regex::Regex);

/// Whether `Regex::new` compiles `pattern`: it does where the pattern is
/// valid in the crate's syntax and the compiled program is within the
/// crate's default size limit.
pub uninterp spec fn regex_accepts(pattern: Seq<char>) -> bool;

/// What `Regex::as_str` returns: the pattern text that the expression was
/// compiled from.
pub uninterp spec fn regex_source(re: Regex) -> Seq<char>;

/// What `Regex::is_match` returns: whether the expression matches anywhere
/// in `haystack`.
pub uninterp spec fn regex_finds(re: Regex, haystack: Seq<char>) -> bool;

/// Calls `Regex::new`. Believed, not proved: the call succeeds exactly on
/// the patterns that `regex_accepts` names, and the expression it returns
/// reports `pattern` as its source. Where the call fails, the engine's
/// words are handed on as a text of which nothing is claimed.
#[verifier::external_body]
fn compile(pattern: &str) -> (compiled: Result<Regex, String>)
    ensures
        compiled is Ok <==> regex_accepts(pattern@),
        compiled matches Ok(re) ==> regex_source(re) == pattern@,
{
    match Regex::new(pattern) {
        Ok(regex) => Ok(regex),
        Err(error) => Err(format!("{}", error)),
    }
}

/// Calls `Regex::is_match`. Believed, not proved: the result is the one
/// that `regex_finds` names.
#[verifier::external_body]
fn is_match(re: &Regex, haystack: &str) -> (found: bool)
    ensures
        found == regex_finds(*re, haystack@),
{
    re.is_match(haystack)
}

/// Calls `Regex::as_str`. Believed, not proved: the result is the text
/// that `regex_source` names.
#[verifier::external_body]
fn source_text(re: &Regex) -> (source: &str)
    ensures
        source@ == regex_source(*re),
{
    re.as_str()
}

/// A detection rule as it is written down: texts, severity and platform.
#[derive(Debug, Clone, Copy)]
pub struct PatternRule {
    pub name: &'static str,
    pub description: &'static str,
    pub source: &'static str,
    pub severity: Severity,
    pub platform: Platform,
}

/// A detection rule that is ready to use: its regular expression is
/// compiled.
pub struct VulnerabilityPattern {
    pub name: String,
    pub description: String,
    pub regex: Regex,
    pub severity: Severity,
    pub platform: Platform,
}

/// Why a rule could not be made ready: its pattern text was refused.
#[derive(Debug)]
pub struct PatternCompileError {
    /// Position of the rule in the list it came from.
    pub index: usize,
    /// Name of the rule.
    pub name: String,
    /// The pattern text that was refused.
    pub source: String,
    /// What the regular-expression engine said.
    pub reason: String,
}

impl VulnerabilityPattern {
    /// Whether this pattern is `rule` made ready.
    pub open spec fn built_from(&self, rule: PatternRule) -> bool {
        &&& self.name@ == rule.name@
        &&& self.description@ == rule.description@
        &&& regex_source(self.regex) == rule.source@
        &&& self.severity == rule.severity
        &&& self.platform == rule.platform
    }

    /// Whether this pattern reports `line` in a scan for `target`.
    pub open spec fn fires_on(&self, target: Platform, line: Seq<char>) -> bool {
        self.platform.applies_to(target) && regex_finds(self.regex, line)
    }

    /// Makes a rule ready. Fails, with the rule's texts and the engine's
    /// words, exactly where the engine refuses the pattern text.
    pub fn new(
        name: &str,
        description: &str,
        source: &str,
        severity: Severity,
        platform: Platform,
    ) -> (made: Result<VulnerabilityPattern, PatternCompileError>)
        ensures
            made is Ok <==> regex_accepts(source@),
            made matches Ok(p) ==> {
                &&& p.name@ == name@
                &&& p.description@ == description@
                &&& regex_source(p.regex) == source@
                &&& p.severity == severity
                &&& p.platform == platform
            },
            made matches Err(e) ==> e.index == 0 && e.name@ == name@ && e.source@ == source@,
    {
        match compile(source) {
            Ok(regex) => Ok(
                VulnerabilityPattern {
                    name: name.to_owned(),
                    description: description.to_owned(),
                    regex,
                    severity,
                    platform,
                },
            ),
            Err(reason) => Err(
                PatternCompileError {
                    index: 0,
                    name: name.to_owned(),
                    source: source.to_owned(),
                    reason,
                },
            ),
        }
    }

    /// The pattern text that the rule's expression was compiled from.
    pub fn source(&self) -> (text: &str)
        ensures
            text@ == regex_source(self.regex),
    {
        source_text(&self.regex)
    }

    /// Tells whether the rule's expression matches anywhere in `line`.
    pub fn matches(&self, line: &str) -> (found: bool)
        ensures
            found == regex_finds(self.regex, line@),
    {
        is_match(&self.regex, line)
    }

    /// Tells whether a scan for `target` uses this rule.
    pub fn applies(&self, target: &Platform) -> (used: bool)
        ensures
            used == self.platform.applies_to(*target),
    {
        self.platform.fires_for(target)
    }
}

/// Makes every rule of a list ready, in order. Succeeds exactly where the
/// engine accepts every pattern text; fails on the first one it refuses.
pub fn compile_rules(rules: &Vec<PatternRule>) -> (made: Result<
    Vec<VulnerabilityPattern>,
    PatternCompileError,
>)
    ensures
        made is Ok <==> forall|i: int| 0 <= i < rules.len() ==> regex_accepts(rules[i].source@),
        made matches Ok(patterns) ==> {
            &&& patterns.len() == rules.len()
            &&& forall|i: int|
                0 <= i < rules.len() ==> (#[trigger] patterns[i]).built_from(rules[i])
        },
        made matches Err(e) ==> {
            &&& e.index < rules.len()
            &&& !regex_accepts(rules[e.index as int].source@)
            &&& forall|i: int| 0 <= i < e.index ==> regex_accepts(rules[i].source@)
            &&& e.name@ == rules[e.index as int].name@
            &&& e.source@ == rules[e.index as int].source@
        },
{
    let mut patterns: Vec<VulnerabilityPattern> = Vec::new();
    let mut i: usize = 0;
    while i < rules.len()
        invariant
            i <= rules.len(),
            patterns.len() == i,
            forall|j: int| 0 <= j < i ==> regex_accepts(rules[j].source@),
            forall|j: int| 0 <= j < i ==> (#[trigger] patterns[j]).built_from(rules[j]),
        decreases rules.len() - i,
    {
        let rule = &rules[i];
        match VulnerabilityPattern::new(
            rule.name,
            rule.description,
            rule.source,
            rule.severity,
            rule.platform,
        ) {
            Ok(pattern) => {
                patterns.push(pattern);
            },
            Err(error) => {
                return Err(PatternCompileError { index: i, ..error });
            },
        }
        i += 1;
    }
    Ok(patterns)
}

} // verus!
