use crate::scanner::pattern::VulnerabilityPattern;
use crate::scanner::platform::Platform;
use crate::scanner::scan::{
    hits_on, lemma_line_findings, line_findings, text_findings, views_of, Finding, FindingView,
};
use crate::scanner::severity::Severity;
use crate::text::{decimal_text, to_decimal};
use vstd::prelude::*;

verus! {

/// The findings of one severity among the first `upto` findings, in the
/// order in which they were found.
pub open spec fn bucket(findings: Seq<FindingView>, severity: Severity, upto: int) -> Seq<
    FindingView,
>
    decreases upto,
{
    if upto <= 0 {
        Seq::empty()
    } else {
        let before = bucket(findings, severity, upto - 1);
        if findings[upto - 1].severity == severity {
            before.push(findings[upto - 1])
        } else {
            before
        }
    }
}

/// All findings of one severity, in the order in which they were found.
pub open spec fn bucket_of(findings: Seq<FindingView>, severity: Severity) -> Seq<FindingView> {
    bucket(findings, severity, findings.len() as int)
}

/// The whole report for a scan without findings.
pub open spec fn no_findings_text() -> Seq<char> {
    "No vulnerabilities found!\n"@
}

/// The summary line of one severity; nothing where it has no finding.
pub open spec fn summary_line(severity: Severity, count: nat) -> Seq<char> {
    if count == 0 {
        Seq::empty()
    } else {
        "  "@ + severity.label_of() + " : "@ + decimal_text(count) + "\n"@
    }
}

/// The summary: the number of findings, then one line for each severity
/// that has findings, from `High` down to `Info`.
pub open spec fn summary_text(findings: Seq<FindingView>) -> Seq<char> {
    "\nSummary:\n"@ + decimal_text(findings.len()) + " potential vulnerabilities found:\n"@
        + summary_line(Severity::High, bucket_of(findings, Severity::High).len())
        + summary_line(Severity::Medium, bucket_of(findings, Severity::Medium).len())
        + summary_line(Severity::Low, bucket_of(findings, Severity::Low).len()) + summary_line(
        Severity::Info,
        bucket_of(findings, Severity::Info).len(),
    )
}

/// The code block of a finding in a detailed report.
pub open spec fn code_text(code: Seq<char>) -> Seq<char> {
    "\nCode:\n"@ + code + "\n"@
}

/// The heading of a listed finding: its number, rule name and severity.
pub open spec fn entry_heading(number: nat, finding: FindingView) -> Seq<char> {
    "\n["@ + decimal_text(number) + "] "@ + finding.vulnerability + " ("@
        + finding.severity.label_of() + ")\n"@
}

/// Where a listed finding was made: file and line number.
pub open spec fn entry_place(finding: FindingView) -> Seq<char> {
    "File: "@ + finding.file + "\n"@ + "Line: "@ + decimal_text(finding.line) + "\n"@
}

/// What a listed finding means.
pub open spec fn entry_description(finding: FindingView) -> Seq<char> {
    "Description: "@ + finding.description + "\n"@
}

/// One finding as it is listed: `number` is its place within its severity,
/// counted from 1. The code is shown only in a detailed report.
pub open spec fn entry_text(number: nat, finding: FindingView, detailed: bool) -> Seq<char> {
    entry_heading(number, finding) + entry_place(finding) + entry_description(finding) + (
    if detailed {
        code_text(finding.code)
    } else {
        Seq::empty()
    })
}

/// The first `upto` findings of a bucket as they are listed.
pub open spec fn entries_text(entries: Seq<FindingView>, detailed: bool, upto: int) -> Seq<char>
    decreases upto,
{
    if upto <= 0 {
        Seq::empty()
    } else {
        entries_text(entries, detailed, upto - 1) + entry_text(
            upto as nat,
            entries[upto - 1],
            detailed,
        )
    }
}

/// All findings of one severity as they are listed.
pub open spec fn bucket_text(findings: Seq<FindingView>, severity: Severity, detailed: bool) -> Seq<
    char,
> {
    entries_text(
        bucket_of(findings, severity),
        detailed,
        bucket_of(findings, severity).len() as int,
    )
}

/// The list of findings, severity by severity from `High` down to `Info`.
pub open spec fn details_text(findings: Seq<FindingView>, detailed: bool) -> Seq<char> {
    "\nFindings:\n"@ + bucket_text(findings, Severity::High, detailed) + bucket_text(
        findings,
        Severity::Medium,
        detailed,
    ) + bucket_text(findings, Severity::Low, detailed) + bucket_text(
        findings,
        Severity::Info,
        detailed,
    )
}

/// The report of a scan.
pub open spec fn report_text(findings: Seq<FindingView>, detailed: bool) -> Seq<char> {
    if findings.len() == 0 {
        no_findings_text()
    } else {
        summary_text(findings) + details_text(findings, detailed)
    }
}

/// Every finding is in the bucket of exactly one severity: the sizes of the
/// four buckets add up to the number of findings.
pub proof fn lemma_buckets_partition(findings: Seq<FindingView>, upto: int)
    requires
        0 <= upto <= findings.len(),
    ensures
        bucket(findings, Severity::High, upto).len() + bucket(findings, Severity::Medium, upto).len()
            + bucket(findings, Severity::Low, upto).len() + bucket(
            findings,
            Severity::Info,
            upto,
        ).len() == upto,
    decreases upto,
{
    if upto > 0 {
        lemma_buckets_partition(findings, upto - 1);
    }
}

/// The summary counts every finding once: the numbers of findings of the
/// four severities add up to the number of findings.
pub proof fn lemma_summary_counts_all(findings: Seq<FindingView>)
    ensures
        bucket_of(findings, Severity::High).len() + bucket_of(findings, Severity::Medium).len()
            + bucket_of(findings, Severity::Low).len() + bucket_of(findings, Severity::Info).len()
            == findings.len(),
{
    lemma_buckets_partition(findings, findings.len() as int);
}

/// A text in which no pattern fires on any line has no findings, and its
/// report is the one line that says so.
pub proof fn lemma_no_match_report(
    file: Seq<char>,
    lines: Seq<Seq<char>>,
    patterns: Seq<VulnerabilityPattern>,
    target: Platform,
    detailed: bool,
    upto: int,
)
    requires
        0 <= upto <= lines.len(),
        forall|i: int, j: int|
            0 <= i < lines.len() && 0 <= j < patterns.len() ==> !(#[trigger] patterns[j]).fires_on(
                target,
                #[trigger] lines[i],
            ),
    ensures
        text_findings(file, lines, patterns, target, upto) == Seq::<FindingView>::empty(),
        report_text(text_findings(file, lines, patterns, target, upto), detailed)
            == "No vulnerabilities found!\n"@,
    decreases upto,
{
    if upto > 0 {
        lemma_no_match_report(file, lines, patterns, target, detailed, upto - 1);
        let i = upto - 1;
        let hits = hits_on(patterns, lines[i]);
        lemma_line_findings(file, lines, i, patterns, target, hits, patterns.len() as int);
        let here = line_findings(file, lines, i, patterns, target, hits, patterns.len() as int);
        if here.len() > 0 {
            let j = choose|j: int|
                0 <= j < patterns.len() && patterns[j].platform.applies_to(target) && hits[j]
                    && here[0] == crate::scanner::scan::finding_at(
                    file,
                    lines,
                    i,
                    #[trigger] patterns[j],
                );
            assert(patterns[j].fires_on(target, lines[i]));
            assert(false);
        }
        assert(here =~= Seq::<FindingView>::empty());
        assert(text_findings(file, lines, patterns, target, upto) =~= Seq::<FindingView>::empty());
    }
}

/// A bucket holds findings of its severity only, and keeps them in the
/// order in which they were found.
pub proof fn lemma_bucket_is_stable(findings: Seq<FindingView>, severity: Severity, upto: int)
    requires
        0 <= upto <= findings.len(),
    ensures
        forall|k: int|
            0 <= k < bucket(findings, severity, upto).len() ==> (#[trigger] bucket(
                findings,
                severity,
                upto,
            )[k]).severity == severity,
        bucket(findings, severity, upto) == findings.subrange(0, upto).filter(
            |f: FindingView| f.severity == severity,
        ),
    decreases upto,
{
    let keep = |f: FindingView| f.severity == severity;
    reveal(Seq::filter);
    if upto > 0 {
        lemma_bucket_is_stable(findings, severity, upto - 1);
        assert(findings.subrange(0, upto).drop_last() =~= findings.subrange(0, upto - 1));
        assert(findings.subrange(0, upto).last() == findings[upto - 1]);
    } else {
        assert(findings.subrange(0, upto) =~= Seq::<FindingView>::empty());
    }
}

/// The findings of one severity, in the order in which they were found.
pub fn select_bucket(findings: &Vec<Finding>, severity: Severity) -> (chosen: Vec<&Finding>)
    ensures
        chosen.len() == bucket_of(views_of(findings@), severity).len(),
        forall|k: int|
            0 <= k < chosen.len() ==> (#[trigger] chosen[k])@ == bucket_of(
                views_of(findings@),
                severity,
            )[k],
{
    let mut chosen: Vec<&Finding> = Vec::new();
    let mut i: usize = 0;
    while i < findings.len()
        invariant
            i <= findings.len(),
            chosen.len() == bucket(views_of(findings@), severity, i as int).len(),
            forall|k: int|
                0 <= k < chosen.len() ==> (#[trigger] chosen[k])@ == bucket(
                    views_of(findings@),
                    severity,
                    i as int,
                )[k],
        decreases findings.len() - i,
    {
        if findings[i].severity == severity {
            chosen.push(&findings[i]);
        }
        i += 1;
    }
    chosen
}

fn render_summary_line(out: &mut String, severity: Severity, count: usize)
    ensures
        final(out)@ == old(out)@ + summary_line(severity, count as nat),
{
    if count > 0 {
        let ghost start = out@;
        out.append("  ");
        out.append(severity.label());
        out.append(" : ");
        out.append(to_decimal(count as u64).as_str());
        out.append("\n");
        assert(out@ =~= start + summary_line(severity, count as nat));
    } else {
        assert(out@ =~= out@ + summary_line(severity, count as nat));
    }
}

fn heading_of(number: usize, finding: &Finding) -> (text: String)
    ensures
        text@ == entry_heading(number as nat, finding@),
{
    let mut text = String::new();
    text.append("\n[");
    text.append(to_decimal(number as u64).as_str());
    text.append("] ");
    text.append(finding.vulnerability.as_str());
    text.append(" (");
    text.append(finding.severity.label());
    text.append(")\n");
    assert(text@ =~= entry_heading(number as nat, finding@));
    text
}

fn place_of(finding: &Finding) -> (text: String)
    ensures
        text@ == entry_place(finding@),
{
    let mut text = String::new();
    text.append("File: ");
    text.append(finding.file.as_str());
    text.append("\n");
    text.append("Line: ");
    text.append(to_decimal(finding.line as u64).as_str());
    text.append("\n");
    assert(text@ =~= entry_place(finding@));
    text
}

fn description_of(finding: &Finding) -> (text: String)
    ensures
        text@ == entry_description(finding@),
{
    let mut text = String::new();
    text.append("Description: ");
    text.append(finding.description.as_str());
    text.append("\n");
    assert(text@ =~= entry_description(finding@));
    text
}

fn code_of(finding: &Finding) -> (text: String)
    ensures
        text@ == code_text(finding@.code),
{
    let mut text = String::new();
    text.append("\nCode:\n");
    text.append(finding.code.as_str());
    text.append("\n");
    assert(text@ =~= code_text(finding@.code));
    text
}

fn render_entry(out: &mut String, number: usize, finding: &Finding, detailed: bool)
    ensures
        final(out)@ == old(out)@ + entry_text(number as nat, finding@, detailed),
{
    let ghost start = out@;
    let mut entry = heading_of(number, finding);
    entry.append(place_of(finding).as_str());
    entry.append(description_of(finding).as_str());
    if detailed {
        entry.append(code_of(finding).as_str());
    }
    assert(entry@ =~= entry_text(number as nat, finding@, detailed));
    out.append(entry.as_str());
}

fn render_bucket(out: &mut String, findings: &Vec<Finding>, severity: Severity, detailed: bool)
    ensures
        final(out)@ == old(out)@ + bucket_text(views_of(findings@), severity, detailed),
{
    let chosen = select_bucket(findings, severity);
    let ghost start = out@;
    let ghost entries = bucket_of(views_of(findings@), severity);
    let mut k: usize = 0;
    assert(out@ =~= start + entries_text(entries, detailed, 0));
    while k < chosen.len()
        invariant
            k <= chosen.len(),
            chosen.len() == entries.len(),
            forall|j: int| 0 <= j < chosen.len() ==> (#[trigger] chosen[j])@ == entries[j],
            out@ == start + entries_text(entries, detailed, k as int),
        decreases chosen.len() - k,
    {
        render_entry(out, k + 1, chosen[k], detailed);
        assert(out@ =~= start + entries_text(entries, detailed, k + 1));
        k += 1;
    }
}

/// Writes the report of a scan. Without findings the report is the one line
/// that says so. Otherwise it holds the summary and then the findings,
/// grouped by severity from `High` down to `Info`; within a severity the
/// findings keep the order in which they were found and are numbered from
/// 1. The code of a finding is shown only where `detailed` is set.
pub fn render_findings(findings: &Vec<Finding>, detailed: bool) -> (report: String)
    ensures
        report@ == report_text(views_of(findings@), detailed),
        findings.len() == 0 ==> report@ == "No vulnerabilities found!\n"@,
{
    let ghost all = views_of(findings@);
    let mut out = String::new();
    if findings.len() == 0 {
        out.append("No vulnerabilities found!\n");
        assert(out@ =~= no_findings_text());
        return out;
    }
    out.append("\nSummary:\n");
    out.append(to_decimal(findings.len() as u64).as_str());
    out.append(" potential vulnerabilities found:\n");
    let high = select_bucket(findings, Severity::High);
    render_summary_line(&mut out, Severity::High, high.len());
    let medium = select_bucket(findings, Severity::Medium);
    render_summary_line(&mut out, Severity::Medium, medium.len());
    let low = select_bucket(findings, Severity::Low);
    render_summary_line(&mut out, Severity::Low, low.len());
    let info = select_bucket(findings, Severity::Info);
    render_summary_line(&mut out, Severity::Info, info.len());
    assert(out@ =~= summary_text(all));
    out.append("\nFindings:\n");
    render_bucket(&mut out, findings, Severity::High, detailed);
    render_bucket(&mut out, findings, Severity::Medium, detailed);
    render_bucket(&mut out, findings, Severity::Low, detailed);
    render_bucket(&mut out, findings, Severity::Info, detailed);
    assert(out@ =~= summary_text(all) + details_text(all, detailed));
    out
}

} // verus!
