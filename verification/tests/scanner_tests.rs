use rust_smart_contracts_vulns::scanner::checklist::{
    checklist_content, checklist_for_lowercase, GENERAL_CHECKLIST, SOLANA_CHECKLIST,
};
use rust_smart_contracts_vulns::scanner::pattern::{compile_rules, PatternRule, VulnerabilityPattern};
use rust_smart_contracts_vulns::scanner::platform::Platform;
use rust_smart_contracts_vulns::scanner::registry::{
    builtin_rule_list, create_vulnerability_patterns, ACCESS_SOURCE, OVERFLOW_DESCRIPTION,
    OVERFLOW_NAME, OVERFLOW_SOURCE, OWNERSHIP_SOURCE, REENTRANCY_DESCRIPTION, REENTRANCY_NAME,
    REENTRANCY_SOURCE, RETURN_SOURCE,
};
use rust_smart_contracts_vulns::scanner::report::{render_findings, select_bucket};
use rust_smart_contracts_vulns::scanner::scan::{
    context_window, findings_on_line, make_finding, match_line, scan_file, scan_lines,
    scan_sources, Finding, SourceFile,
};
use rust_smart_contracts_vulns::scanner::severity::Severity;
use rust_smart_contracts_vulns::scanner::walk::{
    classify_entry, classify_root, is_excluded_dir, is_source_file, skipped_path_message,
    EntryAction, RootAction,
};
use rust_smart_contracts_vulns::text::{join_range, same_text, split_lines, to_decimal};

fn pattern(name: &str, source: &str, severity: Severity, platform: Platform) -> VulnerabilityPattern {
    VulnerabilityPattern::new(name, "what it means", source, severity, platform).unwrap()
}

fn lines(texts: &[&str]) -> Vec<String> {
    texts.iter().map(|t| t.to_string()).collect()
}

fn finding(name: &str, line: usize, severity: Severity) -> Finding {
    Finding {
        vulnerability: name.to_string(),
        file: "src/lib.rs".to_string(),
        line,
        code: "let a = 1;\nlet b = 2;".to_string(),
        description: "Look at this.".to_string(),
        severity,
    }
}

#[test]
fn decimal_of_numbers() {
    assert_eq!(to_decimal(0), "0");
    assert_eq!(to_decimal(7), "7");
    assert_eq!(to_decimal(10), "10");
    assert_eq!(to_decimal(1234567890), "1234567890");
    assert_eq!(to_decimal(u64::MAX), "18446744073709551615");
}

#[test]
fn lines_are_split_as_text_lines() {
    assert_eq!(split_lines(""), Vec::<String>::new());
    assert_eq!(split_lines("a"), vec!["a".to_string()]);
    assert_eq!(split_lines("a\n"), vec!["a".to_string()]);
    assert_eq!(split_lines("a\n\n"), vec!["a".to_string(), "".to_string()]);
    assert_eq!(split_lines("\n"), vec!["".to_string()]);
    assert_eq!(split_lines("a\r\nb\r"), vec!["a".to_string(), "b\r".to_string()]);
    assert_eq!(split_lines("a\r\r\nb"), vec!["a\r".to_string(), "b".to_string()]);
    assert_eq!(split_lines("x\ry\nz"), vec!["x\ry".to_string(), "z".to_string()]);
    assert_eq!(split_lines("\r\n\r"), vec!["".to_string(), "\r".to_string()]);
    assert_eq!(split_lines("é\nü"), vec!["é".to_string(), "ü".to_string()]);
}

#[test]
fn lines_are_split_as_the_standard_library_does() {
    for text in ["", "a", "a\n", "\n\n", "a\r\nb", "a\rb\r\n", "\r", "\r\r\n\n\r\nx\r", "one\ntwo\n"] {
        let expected: Vec<String> = text.lines().map(|l| l.to_string()).collect();
        assert_eq!(split_lines(text), expected);
    }
}

#[test]
fn lines_are_joined_with_line_feeds() {
    let all = lines(&["a", "", "c"]);
    assert_eq!(join_range(&all, 0, 3), "a\n\nc");
    assert_eq!(join_range(&all, 1, 2), "");
    assert_eq!(join_range(&all, 2, 3), "c");
    assert_eq!(join_range(&all, 1, 1), "");
    assert!(same_text("abc", "abc"));
    assert!(!same_text("abc", "abd"));
    assert!(!same_text("abc", "ab"));
}

#[test]
fn builtin_registry_loads_five_rules_in_order() {
    let patterns = create_vulnerability_patterns().unwrap();
    let names: Vec<&str> = patterns.iter().map(|p| p.name.as_str()).collect();
    assert_eq!(
        names,
        vec![
            "Reentrancy Vulnerability",
            "Integer Overflow",
            "Missing Ownership Check",
            "Missing Access Control",
            "Unchecked Return Value"
        ]
    );
    let severities: Vec<Severity> = patterns.iter().map(|p| p.severity).collect();
    assert_eq!(
        severities,
        vec![Severity::High, Severity::Medium, Severity::High, Severity::High, Severity::Medium]
    );
    let platforms: Vec<Platform> = patterns.iter().map(|p| p.platform).collect();
    assert_eq!(
        platforms,
        vec![Platform::Solana, Platform::All, Platform::Solana, Platform::All, Platform::Solana]
    );
    let sources: Vec<&str> = patterns.iter().map(|p| p.source()).collect();
    assert_eq!(
        sources,
        vec![REENTRANCY_SOURCE, OVERFLOW_SOURCE, OWNERSHIP_SOURCE, ACCESS_SOURCE, RETURN_SOURCE]
    );
    assert_eq!(patterns[0].description, REENTRANCY_DESCRIPTION);
    assert_eq!(patterns[1].description, OVERFLOW_DESCRIPTION);
    // The registry is the same on every call.
    let again = create_vulnerability_patterns().unwrap();
    let names_again: Vec<&str> = again.iter().map(|p| p.name.as_str()).collect();
    assert_eq!(names, names_again);
}

#[test]
fn builtin_rules_are_five_in_their_order() {
    let rules = builtin_rule_list();
    let names: Vec<&str> = rules.iter().map(|r| r.name).collect();
    assert_eq!(
        names,
        vec![
            "Reentrancy Vulnerability",
            "Integer Overflow",
            "Missing Ownership Check",
            "Missing Access Control",
            "Unchecked Return Value"
        ]
    );
    let ready = compile_rules(&rules).unwrap();
    assert_eq!(ready.len(), 5);
    assert_eq!(ready[0].name, REENTRANCY_NAME);
    assert_eq!(ready[0].source(), REENTRANCY_SOURCE);
    assert_eq!(ready[1].name, OVERFLOW_NAME);
    assert_eq!(ready[1].severity, Severity::Medium);
    assert_eq!(ready[1].platform, Platform::All);
}

#[test]
fn two_line_file_gives_a_call_finding_and_an_arithmetic_finding() {
    let patterns = create_vulnerability_patterns().unwrap();
    let findings =
        scan_file("a.rs", "invoke_signed(x);\nbalance += amount;", &patterns, Platform::All);
    let seen: Vec<(usize, &str)> =
        findings.iter().map(|f| (f.line, f.vulnerability.as_str())).collect();
    // The rule that asks for an assignment after the call on the same line
    // does not fire: the call stands alone on its line, and is found by the
    // rule for a dropped result.
    assert_eq!(seen, vec![(1, "Unchecked Return Value"), (2, "Integer Overflow")]);
    assert_eq!(findings[0].severity, Severity::Medium);
    assert_eq!(findings[0].code, "invoke_signed(x);\nbalance += amount;");
    assert_eq!(findings[1].severity, Severity::Medium);
    assert_eq!(
        render_findings(&findings, false),
        "\nSummary:\n2 potential vulnerabilities found:\n  MEDIUM : 2\n\nFindings:\n\
\n[1] Unchecked Return Value (MEDIUM)\nFile: a.rs\nLine: 1\n\
Description: Return value from external call is not checked. \
Always check the result of external calls.\n\
\n[2] Integer Overflow (MEDIUM)\nFile: a.rs\nLine: 2\n\
Description: Potential integer overflow. \
Consider using checked, saturating, or wrapping operations.\n"
    );
    // With call and assignment on one line three rules fire, in their order.
    let findings =
        scan_file("a.rs", "invoke_signed(x); balance += amount;", &patterns, Platform::All);
    let seen: Vec<&str> = findings.iter().map(|f| f.vulnerability.as_str()).collect();
    assert_eq!(seen, vec!["Reentrancy Vulnerability", "Integer Overflow", "Unchecked Return Value"]);
    // A scan for another platform leaves the Solana rules out.
    let findings =
        scan_file("a.rs", "invoke_signed(x);\nbalance += amount;", &patterns, Platform::Near);
    let seen: Vec<(usize, &str)> =
        findings.iter().map(|f| (f.line, f.vulnerability.as_str())).collect();
    assert_eq!(seen, vec![(2, "Integer Overflow")]);
}

fn fires(source: &str, line: &str) -> bool {
    pattern("rule", source, Severity::Low, Platform::All).matches(line)
}

#[test]
fn ownership_rule_asks_for_no_owner_after_the_semicolon() {
    let cases = [
        ("let a = next_account_info(iter)?;", true),
        ("let a = next_account_info(iter)?; // owner checked below", false),
        // The last semicolon counts: nothing names the owner after it.
        ("let a = next_account_info(iter)?; check(a.owner);", true),
        ("let a = next_account_info(iter)? // owner", false),
        ("let acc = next_account_info(it)?; let o = acc.owne;", true),
        ("let acc = next_account_info(it)?;  oowner", false),
        ("x = next_account_info(it)?;", false),
        ("let   acc=next_account_info(it); // OWNER", true),
        ("let acc = next_account_info(it)?; ownerowner;", true),
    ];
    for (line, expected) in cases {
        assert_eq!(fires(OWNERSHIP_SOURCE, line), expected, "{}", line);
    }
}

#[test]
fn return_rule_asks_for_no_question_mark_after_the_call() {
    let cases = [
        ("invoke_signed(x);", true),
        ("invoke(&ix, accounts)?;", false),
        ("invoke(a); ?", false),
        ("invoke(a);?", false),
        ("invoke(a); // done", true),
        ("invoke(a);  ", true),
        ("invoke_signed(a, b); x();?", true),
        ("invoke(a)", false),
        ("reinvoke(a);\t?", false),
        ("invoke(a);;?", true),
    ];
    for (line, expected) in cases {
        assert_eq!(fires(RETURN_SOURCE, line), expected, "{}", line);
    }
}

#[test]
fn access_rule_asks_for_no_check_after_the_brace() {
    let cases = [
        ("pub fn withdraw(ctx: Context<W>, amount: u64) -> Result<()> {", true),
        ("pub fn f(a: u8) { require(a > 0); }", false),
        ("pub fn f(a: u8) { assert(a > 0); }", false),
        // The second brace counts: no check stands after it.
        ("pub fn f(a: u8) { if a == 0 { return; } }", true),
        ("pub fn f(a: u8) { if a == 0 }", false),
        ("pub fn f() { x = y == z }", true),
        ("pub fn f() { verify (a) }", true),
        ("pub fn f() { if(a == b) }", true),
        ("pub fn f() { elif\ta.b()==c }", false),
        ("pub fn f() { assert (a) }", true),
        ("pub fn f() { if a = =b; requires(x) }", true),
        ("fn f() {", false),
        ("pub fn f()", false),
        ("pub  fn  g(x) -> u8 { reassert( }", false),
        ("pub fn f() { if a { b } == c }", true),
        ("pub fn f() { iff a == b }", true),
        ("pub fn f() { if a; require_(x); assert!(y); }", true),
    ];
    for (line, expected) in cases {
        assert_eq!(fires(ACCESS_SOURCE, line), expected, "{}", line);
    }
}

/// Every text made of up to `count` of the given pieces.
fn texts_of_pieces(pieces: &[&str], count: usize) -> Vec<String> {
    let mut all = vec![String::new()];
    let mut last = vec![String::new()];
    for _ in 0..count {
        let mut next = Vec::new();
        for text in last.iter() {
            for piece in pieces {
                next.push(format!("{}{}", text, piece));
            }
        }
        all.extend(next.iter().cloned());
        last = next;
    }
    all
}

/// Whether the text holds `if`, a blank, and `==` somewhere after the blank.
fn has_checked_if(text: &str) -> bool {
    let chars: Vec<char> = text.chars().collect();
    for i in 0..chars.len() {
        if i + 2 < chars.len()
            && chars[i] == 'i'
            && chars[i + 1] == 'f'
            && chars[i + 2].is_whitespace()
        {
            let rest: String = chars[i + 3..].iter().collect();
            if rest.contains("==") {
                return true;
            }
        }
    }
    false
}

#[test]
fn access_rule_agrees_with_its_description_on_many_lines() {
    let rule = pattern("rule", ACCESS_SOURCE, Severity::Low, Platform::All);
    let pieces = [
        "require(", "assert(", "if ", "if\t", "if", "==", "=", "(", " ", "r", "e", "requir",
        "asser", "i", "f", "x", "require", "assert", "t",
    ];
    let mut fired = 0;
    let tails = texts_of_pieces(&pieces, 4);
    for tail in tails.iter() {
        let expected =
            !tail.contains("require(") && !tail.contains("assert(") && !has_checked_if(tail);
        let line = format!("pub fn f(a: u8) {{{}", tail);
        assert_eq!(rule.matches(&line), expected, "{}", line);
        if expected {
            fired += 1;
        }
    }
    assert!(fired > 1000 && fired < tails.len() - 1000);
}

#[test]
fn ownership_rule_agrees_with_its_description_on_many_lines() {
    let rule = pattern("rule", OWNERSHIP_SOURCE, Severity::Low, Platform::All);
    let pieces = ["owner", "owne", "own", "o", "w", "n", "e", "r", " ", "x", "oowner", "wner", ")"];
    let mut fired = 0;
    let tails = texts_of_pieces(&pieces, 5);
    for tail in tails.iter() {
        let expected = !tail.contains("owner");
        let line = format!("let a = next_account_info(it);{}", tail);
        assert_eq!(rule.matches(&line), expected, "{}", line);
        if expected {
            fired += 1;
        }
    }
    assert!(fired > 1000 && fired < tails.len() - 1000);
}

#[test]
fn return_rule_agrees_with_its_description_on_many_lines() {
    let rule = pattern("rule", RETURN_SOURCE, Severity::Low, Platform::All);
    let pieces = ["?", " ", "\t", "x", ")", "(", "/"];
    let mut fired = 0;
    let tails = texts_of_pieces(&pieces, 5);
    for tail in tails.iter() {
        let expected = !tail.trim_start().starts_with('?');
        let line = format!("invoke(a);{}", tail);
        assert_eq!(rule.matches(&line), expected, "{}", line);
        if expected {
            fired += 1;
        }
    }
    assert!(fired > 1000 && fired < tails.len() - 1000);
}

#[test]
fn reentrancy_and_overflow_rules_on_single_lines() {
    let cases = [
        ("invoke(&ix, accounts); balance -= amount;", true),
        ("invoke_signed(a); x = 1", true),
        ("invoke_signed(a);", false),
        ("balance -= amount; invoke(&ix, accounts);", false),
    ];
    for (line, expected) in cases {
        assert_eq!(fires(REENTRANCY_SOURCE, line), expected, "{}", line);
    }
    let cases = [
        ("balance += amount;", true),
        ("let total = price * count;", true),
        ("total = price;", false),
        ("let total = checked(price);", false),
    ];
    for (line, expected) in cases {
        assert_eq!(fires(OVERFLOW_SOURCE, line), expected, "{}", line);
    }
}

#[test]
fn a_refused_rule_is_named_with_its_place() {
    let rules = vec![
        PatternRule {
            name: "good",
            description: "d",
            source: "a+",
            severity: Severity::Low,
            platform: Platform::All,
        },
        PatternRule {
            name: "bad",
            description: "d",
            source: "a(",
            severity: Severity::Low,
            platform: Platform::All,
        },
        PatternRule {
            name: "worse",
            description: "d",
            source: "(",
            severity: Severity::Low,
            platform: Platform::All,
        },
    ];
    let error = compile_rules(&rules).err().unwrap();
    assert_eq!(error.index, 1);
    assert_eq!(error.name, "bad");
    assert_eq!(error.source, "a(");
    let error =
        VulnerabilityPattern::new("n", "d", "[", Severity::Info, Platform::Near).err().unwrap();
    assert_eq!(error.index, 0);
    assert_eq!(error.name, "n");
}

#[test]
fn a_pattern_matches_anywhere_in_the_line() {
    let p = pattern("p", r"b+c", Severity::Low, Platform::Near);
    assert!(p.matches("aabbbcd"));
    assert!(!p.matches("aabbd"));
    assert!(!p.matches(""));
    assert_eq!(p.source(), "b+c");
    // A pattern that handed back its argument would not tell lines apart.
    assert_eq!(match_line(&vec![p], Platform::Near, "xbc"), vec![true]);
}

#[test]
fn platform_filter_over_all_pairs() {
    let all = [
        Platform::Solana,
        Platform::Near,
        Platform::CosmWasm,
        Platform::Substrate,
        Platform::All,
    ];
    for own in all {
        for target in all {
            let expected = own == target || own == Platform::All || target == Platform::All;
            assert_eq!(own.fires_for(&target), expected);
            let p = pattern("p", "x", Severity::Low, own);
            assert_eq!(p.applies(&target), expected);
            let found = scan_file("f.rs", "x", &vec![p], target);
            assert_eq!(found.len(), if expected { 1 } else { 0 });
        }
    }
}

#[test]
fn platform_names_are_read_in_any_case() {
    assert_eq!(Platform::from_string("solana"), Platform::Solana);
    assert_eq!(Platform::from_string("SOLANA"), Platform::Solana);
    assert_eq!(Platform::from_string("Near"), Platform::Near);
    assert_eq!(Platform::from_string("CosmWasm"), Platform::CosmWasm);
    assert_eq!(Platform::from_string("substrate"), Platform::Substrate);
    assert_eq!(Platform::from_string("all"), Platform::All);
    // An unknown name stands for all platforms.
    assert_eq!(Platform::from_string("solanaa"), Platform::All);
    assert_eq!(Platform::from_string(""), Platform::All);
    assert_eq!(Platform::from_lowercase("SOLANA"), Platform::All);
    assert_eq!(Platform::from_lowercase("near"), Platform::Near);
}

#[test]
fn severities_rank_from_high_to_info() {
    assert_eq!(Severity::High.rank(), 0);
    assert_eq!(Severity::Medium.rank(), 1);
    assert_eq!(Severity::Low.rank(), 2);
    assert_eq!(Severity::Info.rank(), 3);
    assert!(Severity::High.outranks(&Severity::Medium));
    assert!(Severity::Medium.outranks(&Severity::Low));
    assert!(Severity::Low.outranks(&Severity::Info));
    assert!(!Severity::Info.outranks(&Severity::Info));
    assert!(!Severity::Low.outranks(&Severity::High));
    assert_eq!(Severity::High.label(), "HIGH");
    assert_eq!(Severity::Medium.label(), "MEDIUM");
    assert_eq!(Severity::Low.label(), "LOW");
    assert_eq!(Severity::Info.label(), "INFO");
    assert_eq!(Severity::from_rank(0), Some(Severity::High));
    assert_eq!(Severity::from_rank(3), Some(Severity::Info));
    assert_eq!(Severity::from_rank(4), None);
}

#[test]
fn context_is_clipped_at_both_ends_of_the_file() {
    let all = lines(&["l0", "l1", "l2", "l3", "l4", "l5", "l6"]);
    // No leading context at the first line.
    assert_eq!(context_window(&all, 0), "l0\nl1\nl2");
    assert_eq!(context_window(&all, 1), "l0\nl1\nl2\nl3");
    // The full window of five lines in the middle.
    assert_eq!(context_window(&all, 3), "l1\nl2\nl3\nl4\nl5");
    assert_eq!(context_window(&all, 5), "l3\nl4\nl5\nl6");
    // No trailing context at the last line.
    assert_eq!(context_window(&all, 6), "l4\nl5\nl6");
    let one = lines(&["only"]);
    assert_eq!(context_window(&one, 0), "only");
    let two = lines(&["a", "b"]);
    assert_eq!(context_window(&two, 1), "a\nb");
}

#[test]
fn a_finding_copies_its_pattern_and_counts_lines_from_one() {
    let all = lines(&["l0", "l1", "l2", "l3"]);
    let p = VulnerabilityPattern::new("rule", "meaning", "l", Severity::High, Platform::Near).unwrap();
    let f = make_finding("dir/f.rs", &all, 2, &p);
    assert_eq!(f.vulnerability, "rule");
    assert_eq!(f.description, "meaning");
    assert_eq!(f.severity, Severity::High);
    assert_eq!(f.file, "dir/f.rs");
    assert_eq!(f.line, 3);
    assert_eq!(f.code, "l0\nl1\nl2\nl3");
    assert_eq!(make_finding("f", &all, 0, &p).line, 1);
    assert_eq!(make_finding("f", &all, 3, &p).line, 4);
}

#[test]
fn two_patterns_on_one_line_give_two_findings() {
    let patterns = vec![
        pattern("first", "a", Severity::Low, Platform::All),
        pattern("other platform", "a", Severity::Low, Platform::Near),
        pattern("no match", "z", Severity::Low, Platform::All),
        pattern("second", "a", Severity::Low, Platform::Solana),
        pattern("same again", "a", Severity::Low, Platform::All),
    ];
    let all = lines(&["xax"]);
    let hits = match_line(&patterns, Platform::Solana, "xax");
    assert_eq!(hits, vec![true, false, false, true, true]);
    let found = findings_on_line("f.rs", &all, 0, &patterns, Platform::Solana, &hits);
    let names: Vec<&str> = found.iter().map(|f| f.vulnerability.as_str()).collect();
    assert_eq!(names, vec!["first", "second", "same again"]);
    // Hits of patterns that do not apply are passed over.
    let found =
        findings_on_line("f.rs", &all, 0, &patterns, Platform::Solana, &vec![true; 5]);
    let names: Vec<&str> = found.iter().map(|f| f.vulnerability.as_str()).collect();
    assert_eq!(names, vec!["first", "no match", "second", "same again"]);
    let found = findings_on_line("f.rs", &all, 0, &patterns, Platform::Solana, &vec![false; 5]);
    assert!(found.is_empty());
}

#[test]
fn findings_come_line_by_line_then_pattern_by_pattern() {
    let patterns = vec![
        pattern("has a", "a", Severity::Low, Platform::All),
        pattern("has b", "b", Severity::High, Platform::All),
    ];
    let all = lines(&["b", "-", "ab", "a"]);
    let found = scan_lines("f.rs", &all, &patterns, Platform::All);
    let seen: Vec<(usize, &str)> =
        found.iter().map(|f| (f.line, f.vulnerability.as_str())).collect();
    assert_eq!(seen, vec![(1, "has b"), (3, "has a"), (3, "has b"), (4, "has a")]);
    assert_eq!(found[1].code, "b\n-\nab\na");
    assert_eq!(found[3].code, "-\nab\na");
    assert!(scan_lines("f.rs", &Vec::new(), &patterns, Platform::All).is_empty());
    assert!(scan_lines("f.rs", &all, &Vec::new(), Platform::All).is_empty());
}

#[test]
fn files_are_scanned_in_the_order_of_the_walk() {
    let patterns = vec![pattern("has a", "a", Severity::Low, Platform::All)];
    let files = vec![
        SourceFile { path: "z.rs".to_string(), content: "a\n".to_string() },
        SourceFile { path: "empty.rs".to_string(), content: "".to_string() },
        SourceFile { path: "b.rs".to_string(), content: "-\r\na".to_string() },
    ];
    let found = scan_sources(&files, &patterns, Platform::All);
    let seen: Vec<(&str, usize)> = found.iter().map(|f| (f.file.as_str(), f.line)).collect();
    assert_eq!(seen, vec![("z.rs", 1), ("b.rs", 2)]);
    assert_eq!(found[1].code, "-\na");
}

#[test]
fn overflow_rule_fires_on_compound_assignment() {
    let patterns = vec![
        VulnerabilityPattern::new(
            REENTRANCY_NAME,
            REENTRANCY_DESCRIPTION,
            REENTRANCY_SOURCE,
            Severity::High,
            Platform::Solana,
        )
        .unwrap(),
        VulnerabilityPattern::new(
            OVERFLOW_NAME,
            OVERFLOW_DESCRIPTION,
            OVERFLOW_SOURCE,
            Severity::Medium,
            Platform::All,
        )
        .unwrap(),
    ];
    // The call and the assignment stand on two lines: the rules are applied
    // line by line, so only the assignment is found.
    let findings = scan_file(
        "a.rs",
        "invoke_signed(x);\nbalance += amount;",
        &patterns,
        Platform::All,
    );
    assert_eq!(findings.len(), 1);
    assert_eq!(findings[0].vulnerability, "Integer Overflow");
    assert_eq!(findings[0].line, 2);
    assert_eq!(findings[0].code, "invoke_signed(x);\nbalance += amount;");
    assert_eq!(findings[0].severity, Severity::Medium);
    assert_eq!(findings[0].description, OVERFLOW_DESCRIPTION);
    // On one line both rules fire, each with a finding of its own.
    let findings =
        scan_file("a.rs", "invoke_signed(x); balance += amount;", &patterns, Platform::All);
    let seen: Vec<(usize, &str)> =
        findings.iter().map(|f| (f.line, f.vulnerability.as_str())).collect();
    assert_eq!(seen, vec![(1, "Reentrancy Vulnerability"), (1, "Integer Overflow")]);
    // A scan for another platform leaves the Solana rule out.
    let findings =
        scan_file("a.rs", "invoke_signed(x); balance += amount;", &patterns, Platform::Near);
    let seen: Vec<&str> = findings.iter().map(|f| f.vulnerability.as_str()).collect();
    assert_eq!(seen, vec!["Integer Overflow"]);
}

#[test]
fn report_without_findings_is_one_line() {
    assert_eq!(render_findings(&Vec::new(), false), "No vulnerabilities found!\n");
    assert_eq!(render_findings(&Vec::new(), true), "No vulnerabilities found!\n");
    let patterns = vec![pattern("has a", "a", Severity::Low, Platform::All)];
    let found = scan_file("f.rs", "b\nc\n", &patterns, Platform::All);
    assert_eq!(render_findings(&found, true), "No vulnerabilities found!\n");
}

#[test]
fn report_groups_by_severity_in_fixed_order() {
    let findings = vec![
        finding("low one", 9, Severity::Low),
        finding("high one", 3, Severity::High),
        finding("medium one", 12, Severity::Medium),
        finding("high two", 1, Severity::High),
    ];
    let report = render_findings(&findings, false);
    let expected = "\nSummary:\n\
4 potential vulnerabilities found:\n  HIGH : 2\n  MEDIUM : 1\n  LOW : 1\n\
\nFindings:\n\
\n[1] high one (HIGH)\nFile: src/lib.rs\nLine: 3\nDescription: Look at this.\n\
\n[2] high two (HIGH)\nFile: src/lib.rs\nLine: 1\nDescription: Look at this.\n\
\n[1] medium one (MEDIUM)\nFile: src/lib.rs\nLine: 12\nDescription: Look at this.\n\
\n[1] low one (LOW)\nFile: src/lib.rs\nLine: 9\nDescription: Look at this.\n";
    assert_eq!(report, expected);
    assert!(!report.contains("INFO"));
    let high: Vec<&str> = select_bucket(&findings, Severity::High)
        .iter()
        .map(|f| f.vulnerability.as_str())
        .collect();
    assert_eq!(high, vec!["high one", "high two"]);
    assert!(select_bucket(&findings, Severity::Info).is_empty());
}

#[test]
fn detailed_report_shows_the_code() {
    let findings = vec![finding("info one", 2, Severity::Info)];
    let report = render_findings(&findings, true);
    let expected = "\nSummary:\n1 potential vulnerabilities found:\n  INFO : 1\n\
\nFindings:\n\
\n[1] info one (INFO)\nFile: src/lib.rs\nLine: 2\nDescription: Look at this.\n\
\nCode:\nlet a = 1;\nlet b = 2;\n";
    assert_eq!(report, expected);
}

#[test]
fn walk_leaves_out_hidden_and_build_directories() {
    assert_eq!(classify_entry("target", true), EntryAction::Skip);
    assert_eq!(classify_entry(".git", true), EntryAction::Skip);
    assert_eq!(classify_entry(".", true), EntryAction::Skip);
    assert_eq!(classify_entry("src", true), EntryAction::Descend);
    assert_eq!(classify_entry("targets", true), EntryAction::Descend);
    assert_eq!(classify_entry("", true), EntryAction::Descend);
    assert_eq!(classify_entry("lib.rs", true), EntryAction::Descend);
    assert_eq!(classify_entry("foo.rs", false), EntryAction::Scan);
    // A file named like the build directory or a hidden file is judged by
    // its extension alone.
    assert_eq!(classify_entry("target", false), EntryAction::Skip);
    assert_eq!(classify_entry(".hidden.rs", false), EntryAction::Scan);
    assert_eq!(classify_entry("foo.RS", false), EntryAction::Skip);
    assert_eq!(classify_entry("foo.rs.bak", false), EntryAction::Skip);
    assert_eq!(classify_entry(".rs", false), EntryAction::Skip);
    assert_eq!(classify_entry("rs", false), EntryAction::Skip);
    assert_eq!(classify_entry("a.rs", false), EntryAction::Scan);
    assert_eq!(classify_entry("é.rs", false), EntryAction::Scan);
    assert!(is_excluded_dir("target"));
    assert!(is_excluded_dir(".cargo"));
    assert!(!is_excluded_dir("Target"));
    assert!(is_source_file("main.rs"));
    assert!(!is_source_file("main.rss"));
}

#[test]
fn walk_starts_from_a_directory_or_a_source_file() {
    assert_eq!(classify_root("target", true, false), RootAction::Walk);
    assert_eq!(classify_root(".git", true, false), RootAction::Walk);
    assert_eq!(classify_root("lib.rs", false, true), RootAction::Scan);
    assert_eq!(classify_root("lib.txt", false, true), RootAction::Report);
    assert_eq!(classify_root("lib.rs", false, false), RootAction::Report);
    assert_eq!(
        skipped_path_message("notes.txt"),
        "Path is not a Rust file or directory: notes.txt"
    );
}

#[test]
fn a_scan_passes_over_what_the_walk_leaves_out() {
    // The entries of a tree with ./target/foo.rs, ./.git/bar.rs and
    // ./src/foo.rs, as a walk meets them.
    let patterns = vec![pattern("has a", "a", Severity::Low, Platform::All)];
    let tree = [("target", vec!["foo.rs"]), (".git", vec!["bar.rs"]), ("src", vec!["foo.rs"])];
    let mut files = Vec::new();
    for (dir, entries) in tree.iter() {
        if classify_entry(dir, true) == EntryAction::Descend {
            for entry in entries {
                if classify_entry(entry, false) == EntryAction::Scan {
                    files.push(SourceFile {
                        path: format!("./{}/{}", dir, entry),
                        content: "a".to_string(),
                    });
                }
            }
        }
    }
    let found = scan_sources(&files, &patterns, Platform::All);
    assert_eq!(found.len(), 1);
    assert_eq!(found[0].file, "./src/foo.rs");
}

#[test]
fn checklist_is_chosen_by_platform() {
    assert_eq!(checklist_content("solana"), SOLANA_CHECKLIST);
    assert_eq!(checklist_content("Solana"), SOLANA_CHECKLIST);
    assert_eq!(checklist_content("near"), GENERAL_CHECKLIST);
    assert_eq!(checklist_content("all"), GENERAL_CHECKLIST);
    assert_eq!(checklist_for_lowercase("Solana"), GENERAL_CHECKLIST);
    assert!(SOLANA_CHECKLIST.starts_with("# Solana-Specific Security Checklist\n\n"));
    assert!(GENERAL_CHECKLIST.starts_with("# General Rust Smart Contract Security Checklist\n\n"));
}
