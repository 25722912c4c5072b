use crate::scanner::pattern::{regex_finds, VulnerabilityPattern};
use crate::scanner::platform::Platform;
use crate::scanner::severity::Severity;
use crate::text::{join_lines, join_range, lines_of, split_lines, texts_of};
use vstd::prelude::*;

verus! {

/// One reported match of a rule on one line of one file.
#[derive(Debug, Clone)]
pub struct Finding {
    /// Name of the rule that matched.
    pub vulnerability: String,
    /// Path of the file, as the caller gave it.
    pub file: String,
    /// Number of the matching line, counted from 1.
    pub line: usize,
    /// The matching line with up to two lines before and after it.
    pub code: String,
    /// Description of the rule that matched.
    pub description: String,
    /// Severity of the rule that matched.
    pub severity: Severity,
}

/// What a `Finding` holds, as mathematical values.
pub struct FindingView {
    pub vulnerability: Seq<char>,
    pub file: Seq<char>,
    pub line: nat,
    pub code: Seq<char>,
    pub description: Seq<char>,
    pub severity: Severity,
}

impl View for Finding {
    type V = FindingView;

    open spec fn view(&self) -> FindingView {
        FindingView {
            vulnerability: self.vulnerability@,
            file: self.file@,
            line: self.line as nat,
            code: self.code@,
            description: self.description@,
            severity: self.severity,
        }
    }
}

/// The views of a list of findings.
pub open spec fn views_of(findings: Seq<Finding>) -> Seq<FindingView> {
    Seq::new(findings.len(), |i: int| findings[i]@)
}

/// First line of the context of line `i`: two lines up, or the first line.
pub open spec fn context_start(i: int) -> int {
    if i >= 2 {
        i - 2
    } else {
        0
    }
}

/// End of the context of line `i` among `n` lines: the line after the second
/// line down, or `n`.
pub open spec fn context_end(i: int, n: int) -> int {
    if i + 3 <= n {
        i + 3
    } else {
        n
    }
}

/// The context of line `i`: the lines from `context_start` up to
/// `context_end`, joined by line feeds.
pub open spec fn context_of(lines: Seq<Seq<char>>, i: int) -> Seq<char> {
    join_lines(lines.subrange(context_start(i), context_end(i, lines.len() as int)))
}

/// The finding that `pattern` gives on line `i` (counted from 0) of `file`.
pub open spec fn finding_at(
    file: Seq<char>,
    lines: Seq<Seq<char>>,
    i: int,
    pattern: VulnerabilityPattern,
) -> FindingView {
    FindingView {
        vulnerability: pattern.name@,
        file: file,
        line: (i + 1) as nat,
        code: context_of(lines, i),
        description: pattern.description@,
        severity: pattern.severity,
    }
}

/// The findings on line `i` from the first `upto` patterns, in the order of
/// the patterns. `hits[j]` tells whether pattern `j` matches the line; a
/// pattern gives a finding where it matches and applies to `target`.
pub open spec fn line_findings(
    file: Seq<char>,
    lines: Seq<Seq<char>>,
    i: int,
    patterns: Seq<VulnerabilityPattern>,
    target: Platform,
    hits: Seq<bool>,
    upto: int,
) -> Seq<FindingView>
    decreases upto,
{
    if upto <= 0 {
        Seq::empty()
    } else {
        let before = line_findings(file, lines, i, patterns, target, hits, upto - 1);
        let pattern = patterns[upto - 1];
        if pattern.platform.applies_to(target) && hits[upto - 1] {
            before.push(finding_at(file, lines, i, pattern))
        } else {
            before
        }
    }
}

/// For each pattern, whether its expression matches `line`.
pub open spec fn hits_on(patterns: Seq<VulnerabilityPattern>, line: Seq<char>) -> Seq<bool> {
    Seq::new(patterns.len(), |j: int| regex_finds(patterns[j].regex, line))
}

/// The findings on the first `upto` lines of a file: line by line, and on
/// each line pattern by pattern.
pub open spec fn text_findings(
    file: Seq<char>,
    lines: Seq<Seq<char>>,
    patterns: Seq<VulnerabilityPattern>,
    target: Platform,
    upto: int,
) -> Seq<FindingView>
    decreases upto,
{
    if upto <= 0 {
        Seq::empty()
    } else {
        text_findings(file, lines, patterns, target, upto - 1) + line_findings(
            file,
            lines,
            upto - 1,
            patterns,
            target,
            hits_on(patterns, lines[upto - 1]),
            patterns.len() as int,
        )
    }
}

/// The context of line `i`: the line with up to two lines before it and up
/// to two lines after it, joined by line feeds.
pub fn context_window(lines: &Vec<String>, i: usize) -> (code: String)
    requires
        i < lines.len(),
    ensures
        code@ == context_of(texts_of(lines@), i as int),
        code@ == join_lines(
            texts_of(lines@).subrange(
                if i >= 2 {
                    i - 2
                } else {
                    0
                },
                if i + 3 <= lines.len() {
                    i + 3
                } else {
                    lines.len() as int
                },
            ),
        ),
{
    let start = if i >= 2 {
        i - 2
    } else {
        0
    };
    let end = if lines.len() - i >= 3 {
        i + 3
    } else {
        lines.len()
    };
    join_range(lines, start, end)
}

/// The finding of `pattern` on line `i` of `file`.
pub fn make_finding(file: &str, lines: &Vec<String>, i: usize, pattern: &VulnerabilityPattern) -> (finding:
    Finding)
    requires
        i < lines.len(),
    ensures
        finding@ == finding_at(file@, texts_of(lines@), i as int, *pattern),
        finding.line == i + 1,
        1 <= finding.line <= lines.len(),
{
    Finding {
        vulnerability: pattern.name.clone(),
        file: file.to_owned(),
        line: i + 1,
        code: context_window(lines, i),
        description: pattern.description.clone(),
        severity: pattern.severity,
    }
}

/// The findings on line `i`, given for each pattern whether it matches the
/// line: one finding for each pattern that matches and applies to `target`,
/// in the order of the patterns.
pub fn findings_on_line(
    file: &str,
    lines: &Vec<String>,
    i: usize,
    patterns: &Vec<VulnerabilityPattern>,
    target: Platform,
    hits: &Vec<bool>,
) -> (findings: Vec<Finding>)
    requires
        i < lines.len(),
        hits.len() == patterns.len(),
    ensures
        views_of(findings@) == line_findings(
            file@,
            texts_of(lines@),
            i as int,
            patterns@,
            target,
            hits@,
            patterns.len() as int,
        ),
{
    let mut findings: Vec<Finding> = Vec::new();
    let mut j: usize = 0;
    assert(views_of(findings@) =~= Seq::<FindingView>::empty());
    while j < patterns.len()
        invariant
            j <= patterns.len(),
            i < lines.len(),
            hits.len() == patterns.len(),
            views_of(findings@) == line_findings(
                file@,
                texts_of(lines@),
                i as int,
                patterns@,
                target,
                hits@,
                j as int,
            ),
        decreases patterns.len() - j,
    {
        let ghost before = views_of(findings@);
        if patterns[j].applies(&target) && hits[j] {
            let finding = make_finding(file, lines, i, &patterns[j]);
            findings.push(finding);
            assert(views_of(findings@) =~= before.push(finding@));
        }
        j += 1;
    }
    findings
}

/// For each pattern that applies to `target`, whether its expression matches
/// `line`. A pattern that does not apply is not tried and is marked `false`.
pub fn match_line(patterns: &Vec<VulnerabilityPattern>, target: Platform, line: &str) -> (hits: Vec<
    bool,
>)
    ensures
        hits.len() == patterns.len(),
        forall|j: int|
            0 <= j < patterns.len() ==> #[trigger] hits[j] == patterns[j].fires_on(target, line@),
{
    let mut hits: Vec<bool> = Vec::new();
    let mut j: usize = 0;
    while j < patterns.len()
        invariant
            j <= patterns.len(),
            hits.len() == j,
            forall|k: int| 0 <= k < j ==> #[trigger] hits[k] == patterns[k].fires_on(target, line@),
        decreases patterns.len() - j,
    {
        let hit = patterns[j].applies(&target) && patterns[j].matches(line);
        hits.push(hit);
        j += 1;
    }
    hits
}

/// Findings depend on `hits` only at the patterns that apply to `target`.
pub proof fn lemma_line_findings_hits(
    file: Seq<char>,
    lines: Seq<Seq<char>>,
    i: int,
    patterns: Seq<VulnerabilityPattern>,
    target: Platform,
    hits: Seq<bool>,
    other: Seq<bool>,
    upto: int,
)
    requires
        upto <= patterns.len(),
        forall|j: int|
            0 <= j < upto && patterns[j].platform.applies_to(target) ==> hits[j] == other[j],
    ensures
        line_findings(file, lines, i, patterns, target, hits, upto) == line_findings(
            file,
            lines,
            i,
            patterns,
            target,
            other,
            upto,
        ),
    decreases upto,
{
    if upto > 0 {
        lemma_line_findings_hits(file, lines, i, patterns, target, hits, other, upto - 1);
    }
}

/// Applies every pattern that applies to `target` to every line, and gives
/// the findings line by line, on each line in the order of the patterns.
pub fn scan_lines(
    file: &str,
    lines: &Vec<String>,
    patterns: &Vec<VulnerabilityPattern>,
    target: Platform,
) -> (findings: Vec<Finding>)
    ensures
        views_of(findings@) == text_findings(
            file@,
            texts_of(lines@),
            patterns@,
            target,
            lines.len() as int,
        ),
{
    let mut findings: Vec<Finding> = Vec::new();
    let mut i: usize = 0;
    assert(views_of(findings@) =~= Seq::<FindingView>::empty());
    while i < lines.len()
        invariant
            i <= lines.len(),
            views_of(findings@) == text_findings(
                file@,
                texts_of(lines@),
                patterns@,
                target,
                i as int,
            ),
        decreases lines.len() - i,
    {
        let ghost before = views_of(findings@);
        let hits = match_line(patterns, target, lines[i].as_str());
        let mut found = findings_on_line(file, lines, i, patterns, target, &hits);
        proof {
            lemma_line_findings_hits(
                file@,
                texts_of(lines@),
                i as int,
                patterns@,
                target,
                hits@,
                hits_on(patterns@, texts_of(lines@)[i as int]),
                patterns.len() as int,
            );
        }
        let ghost added = views_of(found@);
        findings.append(&mut found);
        assert(views_of(findings@) =~= before + added);
        i += 1;
    }
    findings
}

/// Scans the text of one file: splits it into lines and scans those.
pub fn scan_file(
    file: &str,
    content: &str,
    patterns: &Vec<VulnerabilityPattern>,
    target: Platform,
) -> (findings: Vec<Finding>)
    ensures
        views_of(findings@) == text_findings(
            file@,
            lines_of(content@),
            patterns@,
            target,
            lines_of(content@).len() as int,
        ),
{
    let lines = split_lines(content);
    scan_lines(file, &lines, patterns, target)
}

/// Number of patterns among the first `upto` that match the line and apply
/// to `target`.
pub open spec fn firing_count(
    patterns: Seq<VulnerabilityPattern>,
    target: Platform,
    hits: Seq<bool>,
    upto: int,
) -> nat
    decreases upto,
{
    if upto <= 0 {
        0
    } else if patterns[upto - 1].platform.applies_to(target) && hits[upto - 1] {
        firing_count(patterns, target, hits, upto - 1) + 1
    } else {
        firing_count(patterns, target, hits, upto - 1)
    }
}

/// The context of a line holds the line itself, at most five lines in all,
/// and never reaches outside the file.
pub proof fn lemma_context_bounds(i: int, n: int)
    requires
        0 <= i < n,
    ensures
        0 <= context_start(i) <= i < context_end(i, n) <= n,
        context_end(i, n) - context_start(i) <= 5,
        context_start(i) == if i - 2 >= 0 {
            i - 2
        } else {
            0
        },
        context_end(i, n) == if i + 3 <= n {
            i + 3
        } else {
            n
        },
{
}

/// On one line each pattern that matches and applies gives one finding of
/// its own: there are as many findings as such patterns, nothing is merged.
/// Each finding carries the line number `i + 1`, the file, the context of
/// line `i` and the texts and severity of its pattern.
pub proof fn lemma_line_findings(
    file: Seq<char>,
    lines: Seq<Seq<char>>,
    i: int,
    patterns: Seq<VulnerabilityPattern>,
    target: Platform,
    hits: Seq<bool>,
    upto: int,
)
    requires
        0 <= i < lines.len(),
        0 <= upto <= patterns.len(),
        hits.len() == patterns.len(),
    ensures
        line_findings(file, lines, i, patterns, target, hits, upto).len() == firing_count(
            patterns,
            target,
            hits,
            upto,
        ),
        forall|k: int|
            0 <= k < line_findings(file, lines, i, patterns, target, hits, upto).len() ==> {
                let found = #[trigger] line_findings(file, lines, i, patterns, target, hits, upto)[k];
                &&& found.line == i + 1
                &&& found.file == file
                &&& found.code == context_of(lines, i)
                &&& exists|j: int|
                    0 <= j < upto && patterns[j].platform.applies_to(target) && hits[j] && found
                        == finding_at(file, lines, i, #[trigger] patterns[j])
            },
        forall|j: int|
            0 <= j < upto && patterns[j].platform.applies_to(target) && hits[j] ==> line_findings(
                file,
                lines,
                i,
                patterns,
                target,
                hits,
                upto,
            ).contains(finding_at(file, lines, i, #[trigger] patterns[j])),
    decreases upto,
{
    if upto > 0 {
        lemma_line_findings(file, lines, i, patterns, target, hits, upto - 1);
        let before = line_findings(file, lines, i, patterns, target, hits, upto - 1);
        let now = line_findings(file, lines, i, patterns, target, hits, upto);
        let last = patterns[upto - 1];
        let fires = last.platform.applies_to(target) && hits[upto - 1];
        assert forall|k: int| 0 <= k < now.len() implies {
            let found = #[trigger] now[k];
            &&& found.line == i + 1
            &&& found.file == file
            &&& found.code == context_of(lines, i)
            &&& exists|j: int|
                0 <= j < upto && patterns[j].platform.applies_to(target) && hits[j] && found
                    == finding_at(file, lines, i, #[trigger] patterns[j])
        } by {
            if k < before.len() {
                assert(now[k] == before[k]);
                let j = choose|j: int|
                    0 <= j < upto - 1 && patterns[j].platform.applies_to(target) && hits[j]
                        && before[k] == finding_at(file, lines, i, #[trigger] patterns[j]);
                assert(0 <= j < upto && patterns[j].platform.applies_to(target) && hits[j] && now[k]
                    == finding_at(file, lines, i, patterns[j]));
            } else {
                assert(fires);
                assert(now[k] == finding_at(file, lines, i, patterns[upto - 1]));
            }
        }
        assert forall|j: int|
            0 <= j < upto && patterns[j].platform.applies_to(target)
                && hits[j] implies now.contains(
            finding_at(file, lines, i, #[trigger] patterns[j]),
        ) by {
            if j < upto - 1 {
                let f = finding_at(file, lines, i, patterns[j]);
                assert(before.contains(f));
                let k = before.index_of(f);
                assert(now[k] == f);
            } else {
                assert(now[now.len() - 1] == finding_at(file, lines, i, patterns[j]));
            }
        }
    }
}

/// In a scan of a whole text, a finding is reported for line `i` and pattern
/// `p` exactly where `p` applies to the target platform and its expression
/// matches line `i`. Every reported finding has a line number between 1 and
/// the number of lines, which is one more than the index of its line, and
/// carries the context of that line and the texts and severity of its
/// pattern.
pub proof fn lemma_text_findings(
    file: Seq<char>,
    lines: Seq<Seq<char>>,
    patterns: Seq<VulnerabilityPattern>,
    target: Platform,
    upto: int,
)
    requires
        0 <= upto <= lines.len(),
    ensures
        forall|k: int|
            0 <= k < text_findings(file, lines, patterns, target, upto).len() ==> {
                let found = #[trigger] text_findings(file, lines, patterns, target, upto)[k];
                &&& 1 <= found.line <= upto
                &&& found.file == file
                &&& found.code == context_of(lines, found.line - 1)
                &&& exists|j: int|
                    0 <= j < patterns.len() && patterns[j].fires_on(target, lines[found.line - 1])
                        && found == finding_at(file, lines, found.line - 1, #[trigger] patterns[j])
            },
        forall|i: int, j: int|
            0 <= i < upto && 0 <= j < patterns.len() && patterns[j].fires_on(target, lines[i])
                ==> text_findings(file, lines, patterns, target, upto).contains(
                #[trigger] finding_at(file, lines, i, patterns[j]),
            ),
    decreases upto,
{
    if upto > 0 {
        lemma_text_findings(file, lines, patterns, target, upto - 1);
        let i = upto - 1;
        let hits = hits_on(patterns, lines[i]);
        lemma_line_findings(file, lines, i, patterns, target, hits, patterns.len() as int);
        let before = text_findings(file, lines, patterns, target, upto - 1);
        let here = line_findings(file, lines, i, patterns, target, hits, patterns.len() as int);
        let now = text_findings(file, lines, patterns, target, upto);
        assert(now == before + here);
        assert forall|k: int| 0 <= k < now.len() implies {
            let found = #[trigger] now[k];
            &&& 1 <= found.line <= upto
            &&& found.file == file
            &&& found.code == context_of(lines, found.line - 1)
            &&& exists|j: int|
                0 <= j < patterns.len() && patterns[j].fires_on(target, lines[found.line - 1])
                    && found == finding_at(file, lines, found.line - 1, #[trigger] patterns[j])
        } by {
            if k < before.len() {
                assert(now[k] == before[k]);
            } else {
                let found = here[k - before.len()];
                assert(now[k] == found);
                let j = choose|j: int|
                    0 <= j < patterns.len() && patterns[j].platform.applies_to(target) && hits[j]
                        && found == finding_at(file, lines, i, #[trigger] patterns[j]);
                assert(patterns[j].fires_on(target, lines[found.line - 1]));
            }
        }
        assert forall|a: int, j: int|
            0 <= a < upto && 0 <= j < patterns.len() && patterns[j].fires_on(
                target,
                lines[a],
            ) implies now.contains(#[trigger] finding_at(file, lines, a, patterns[j])) by {
            let f = finding_at(file, lines, a, patterns[j]);
            if a < upto - 1 {
                assert(before.contains(f));
                let k = before.index_of(f);
                assert(now[k] == f);
            } else {
                assert(hits[j]);
                assert(here.contains(f));
                let k = here.index_of(f);
                assert(now[before.len() + k] == f);
            }
        }
    }
}

/// The text of one source file, with the path it was read from.
#[derive(Debug, Clone)]
pub struct SourceFile {
    pub path: String,
    pub content: String,
}

/// The findings in the first `upto` files: file by file, in each file line
/// by line, and on each line pattern by pattern.
pub open spec fn sources_findings(
    files: Seq<SourceFile>,
    patterns: Seq<VulnerabilityPattern>,
    target: Platform,
    upto: int,
) -> Seq<FindingView>
    decreases upto,
{
    if upto <= 0 {
        Seq::empty()
    } else {
        let file = files[upto - 1];
        sources_findings(files, patterns, target, upto - 1) + text_findings(
            file.path@,
            lines_of(file.content@),
            patterns,
            target,
            lines_of(file.content@).len() as int,
        )
    }
}

/// Scans the files of a walk in the order in which the walk met them.
pub fn scan_sources(
    files: &Vec<SourceFile>,
    patterns: &Vec<VulnerabilityPattern>,
    target: Platform,
) -> (findings: Vec<Finding>)
    ensures
        views_of(findings@) == sources_findings(files@, patterns@, target, files.len() as int),
{
    let mut findings: Vec<Finding> = Vec::new();
    let mut i: usize = 0;
    assert(views_of(findings@) =~= Seq::<FindingView>::empty());
    while i < files.len()
        invariant
            i <= files.len(),
            views_of(findings@) == sources_findings(files@, patterns@, target, i as int),
        decreases files.len() - i,
    {
        let ghost before = views_of(findings@);
        let mut found = scan_file(
            files[i].path.as_str(),
            files[i].content.as_str(),
            patterns,
            target,
        );
        let ghost added = views_of(found@);
        findings.append(&mut found);
        assert(views_of(findings@) =~= before + added);
        i += 1;
    }
    findings
}

} // verus!
