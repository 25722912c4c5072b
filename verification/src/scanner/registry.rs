use crate::scanner::pattern::{
    compile_rules, regex_accepts, PatternCompileError, PatternRule, VulnerabilityPattern,
};
use crate::scanner::platform::Platform;
use crate::scanner::severity::Severity;
use vstd::prelude::*;

verus! {

// The rule for a call into another program followed by an assignment on the same line.

pub const REENTRANCY_NAME: &'static str = "Reentrancy Vulnerability";

pub const REENTRANCY_DESCRIPTION: &'static str =
    "Potential reentrancy vulnerability detected. Consider implementing a reentrancy guard or following the checks-effects-interactions pattern.";

pub const REENTRANCY_SOURCE: &'static str = r"invoke(_signed)?\(.*\).*;\s*.*\w+\s*[-+*\/]?=";

// The rule for arithmetic that is assigned without a check.

pub const OVERFLOW_NAME: &'static str = "Integer Overflow";

pub const OVERFLOW_DESCRIPTION: &'static str =
    "Potential integer overflow. Consider using checked, saturating, or wrapping operations.";

pub const OVERFLOW_SOURCE: &'static str =
    r"\w+\s*[+\-*\/]=\s*\w+|let\s+\w+\s*=\s*\w+\s*[+\-*\/]\s*\w+";

// The rule for an account that is fetched and used without a look at its owner.

pub const OWNERSHIP_NAME: &'static str = "Missing Ownership Check";

pub const OWNERSHIP_DESCRIPTION: &'static str =
    "Account ownership is not verified. Always check account.owner before using account data.";

/// An account is fetched, and after a semicolon that follows the call the
/// line does not name `owner` any more. The text is written in the
/// engine's verbose form: blanks and comments in it do not count.
pub const OWNERSHIP_SOURCE: &'static str = r"(?x)
    let\s+\w+\s*=\s*next_account_info\(.*\).*;
    # Up to the end of the line no `r` comes after `owne`.
    (?:
        (?: [^r]* (?: [^re]
                   | [^rn]e | [^rw]ne | [^ro]wne
            )
          | e | ne | wne
        )?
        r
    )*
    [^r]*
    $
";

// The rule for a public function without a check of who is calling.

pub const ACCESS_NAME: &'static str = "Missing Access Control";

pub const ACCESS_DESCRIPTION: &'static str =
    "Potential missing access control. Verify that only authorized users can call this function.";

/// A public function is opened, and after an opening brace the line holds
/// neither `require(` nor `assert(`, nor an `if` with a blank after it and
/// `==` further on. The text is written in the engine's verbose form:
/// blanks and comments in it do not count.
pub const ACCESS_SOURCE: &'static str = r"(?x)
    pub\s+fn\s+\w+\(.*\).*\{
    # Up to a first `if` with a blank after it: no bracket after `require`
    # or `assert`, and no blank after `if`.
    (?:
        (?: [^(\s]* (?: [^(\set]
                   | [^(\sr]e | [^(\si]re | [^(\su]ire | [^(\sq]uire | [^(\se]quire | [^(\sr]equire
                   | [^(\sr]t | [^(\se]rt | [^(\ss]ert | [^(\ss]sert | [^(\sa]ssert
            )
          | e | re | ire | uire | quire | equire
          | t | rt | ert | sert | ssert
        )?
        \(
      |
        (?: [^(\s]* (?: [^(\sf]
                   | [^(\si]f
            )
          | f
        )?
        \s
    )*
    [^(\s]*
    # After such an `if`, up to the end of the line: no bracket after
    # `require` or `assert`, and no `=` after `=`.
    (?:
        if\s =?
        (?:
            (?: [^(=]* (?: [^(=et]
                       | [^(=r]e | [^(=i]re | [^(=u]ire | [^(=q]uire | [^(=e]quire | [^(=r]equire
                       | [^(=r]t | [^(=e]rt | [^(=s]ert | [^(=s]sert | [^(=a]ssert
                )
              | e | re | ire | uire | quire | equire
              | t | rt | ert | sert | ssert
            )?
            \( =?
          | [^(=]+ =
        )*
        [^(=]*
    )?
    $
";

// The rule for a call into another program whose result is dropped.

pub const RETURN_NAME: &'static str = "Unchecked Return Value";

pub const RETURN_DESCRIPTION: &'static str =
    "Return value from external call is not checked. Always check the result of external calls.";

/// A call into another program ends in `);`, and what follows, blanks
/// aside, is not a question mark.
pub const RETURN_SOURCE: &'static str = r"invoke(_signed)?\(.*\);\s*(?:[^\s?]|$)";

/// The built-in detection rules, in the order in which they are applied.
pub open spec fn builtin_rules() -> Seq<PatternRule> {
    seq![
        PatternRule {
            name: REENTRANCY_NAME,
            description: REENTRANCY_DESCRIPTION,
            source: REENTRANCY_SOURCE,
            severity: Severity::High,
            platform: Platform::Solana,
        },
        PatternRule {
            name: OVERFLOW_NAME,
            description: OVERFLOW_DESCRIPTION,
            source: OVERFLOW_SOURCE,
            severity: Severity::Medium,
            platform: Platform::All,
        },
        PatternRule {
            name: OWNERSHIP_NAME,
            description: OWNERSHIP_DESCRIPTION,
            source: OWNERSHIP_SOURCE,
            severity: Severity::High,
            platform: Platform::Solana,
        },
        PatternRule {
            name: ACCESS_NAME,
            description: ACCESS_DESCRIPTION,
            source: ACCESS_SOURCE,
            severity: Severity::High,
            platform: Platform::All,
        },
        PatternRule {
            name: RETURN_NAME,
            description: RETURN_DESCRIPTION,
            source: RETURN_SOURCE,
            severity: Severity::Medium,
            platform: Platform::Solana,
        },
    ]
}

/// The built-in detection rules as they are written down.
pub fn builtin_rule_list() -> (rules: Vec<PatternRule>)
    ensures
        rules@ == builtin_rules(),
{
    let mut rules: Vec<PatternRule> = Vec::new();
    rules.push(
        PatternRule {
            name: REENTRANCY_NAME,
            description: REENTRANCY_DESCRIPTION,
            source: REENTRANCY_SOURCE,
            severity: Severity::High,
            platform: Platform::Solana,
        },
    );
    rules.push(
        PatternRule {
            name: OVERFLOW_NAME,
            description: OVERFLOW_DESCRIPTION,
            source: OVERFLOW_SOURCE,
            severity: Severity::Medium,
            platform: Platform::All,
        },
    );
    rules.push(
        PatternRule {
            name: OWNERSHIP_NAME,
            description: OWNERSHIP_DESCRIPTION,
            source: OWNERSHIP_SOURCE,
            severity: Severity::High,
            platform: Platform::Solana,
        },
    );
    rules.push(
        PatternRule {
            name: ACCESS_NAME,
            description: ACCESS_DESCRIPTION,
            source: ACCESS_SOURCE,
            severity: Severity::High,
            platform: Platform::All,
        },
    );
    rules.push(
        PatternRule {
            name: RETURN_NAME,
            description: RETURN_DESCRIPTION,
            source: RETURN_SOURCE,
            severity: Severity::Medium,
            platform: Platform::Solana,
        },
    );
    assert(rules@ =~= builtin_rules());
    rules
}

/// Makes the built-in detection rules ready to use. This succeeds exactly
/// where the regular-expression engine accepts all five pattern texts, and
/// then gives the five rules in their order. Where it refuses one, the error
/// names the first such rule. The texts use no look-around and no
/// back-reference, so an engine for regular languages can take them all.
pub fn create_vulnerability_patterns() -> (made: Result<
    Vec<VulnerabilityPattern>,
    PatternCompileError,
>)
    ensures
        made is Ok <==> forall|i: int|
            0 <= i < builtin_rules().len() ==> regex_accepts(builtin_rules()[i].source@),
        made matches Ok(patterns) ==> {
            &&& patterns.len() == builtin_rules().len()
            &&& forall|i: int|
                0 <= i < patterns.len() ==> (#[trigger] patterns[i]).built_from(builtin_rules()[i])
        },
        made matches Err(e) ==> {
            &&& e.index < builtin_rules().len()
            &&& !regex_accepts(builtin_rules()[e.index as int].source@)
            &&& forall|i: int| 0 <= i < e.index ==> regex_accepts(builtin_rules()[i].source@)
            &&& e.name@ == builtin_rules()[e.index as int].name@
            &&& e.source@ == builtin_rules()[e.index as int].source@
        },
{
    let rules = builtin_rule_list();
    compile_rules(&rules)
}

} // verus!
