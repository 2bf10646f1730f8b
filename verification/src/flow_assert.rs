//! Checking a flow assertion against a rendered screen. Patterns are regular
//! expressions of the `regex` crate; what they match is that crate's.
use vstd::prelude::*;
use crate::flow::FlowAssertion;
use crate::text::{owned, push_str, str_eq, strings_view};

verus! {

/// The error text `regex::Regex::new` gives for a pattern, or `None` when
/// the pattern compiles.
pub uninterp spec fn regex_error(pattern: Seq<char>) -> Option<Seq<char>>;

/// Whether the compiled pattern matches somewhere in the haystack
/// (`regex::Regex::is_match`).
pub uninterp spec fn regex_finds(pattern: Seq<char>, haystack: Seq<char>) -> bool;

/// Compiling a pattern and searching a haystack: the error text, or whether
/// it matched.
pub open spec fn regex_outcome(pattern: Seq<char>, haystack: Seq<char>) -> Result<bool, Seq<char>> {
    match regex_error(pattern) {
        Some(e) => Err(e),
        None => Ok(regex_finds(pattern, haystack)),
    }
}

/// `regex::Regex::new` on the pattern, then `Regex::is_match` on the
/// haystack; a compile error comes back as its display text. Both results
/// are named (`regex_error`, `regex_finds`): the regular-expression
/// semantics and the error texts are the crate's and are not restated.
#[verifier::external_body]
fn regex_search(pattern: &str, haystack: &str) -> (r: Result<bool, String>)
    ensures
        match r {
            Ok(m) => regex_error(pattern@) is None && m == regex_finds(pattern@, haystack@),
            Err(e) => regex_error(pattern@) == Some(e@),
        },
{
    match regex::Regex::new(pattern) {
        Ok(re) => Ok(re.is_match(haystack)),
        Err(e) => Err(e.to_string()),
    }
}

/// The failure a pattern check reports, given how compiling and searching
/// went: an invalid pattern, a pattern that should match but does not, or
/// one that should not match but does.
pub open spec fn failure_text(
    label: Seq<char>,
    pattern: Seq<char>,
    outcome: Result<bool, Seq<char>>,
    should_match: bool,
) -> Seq<Seq<char>> {
    match outcome {
        Err(e) => seq!["invalid regex "@ + label + ": "@ + e],
        Ok(m) => if should_match && !m {
            seq![label + " missing /"@ + pattern + "/"@]
        } else if !should_match && m {
            seq![label + " matched /"@ + pattern + "/"@]
        } else {
            Seq::empty()
        },
    }
}

/// The failures of a list of patterns on a haystack, in order.
pub open spec fn pattern_failures(
    patterns: Seq<Seq<char>>,
    haystack: Seq<char>,
    should_match: bool,
    label: Seq<char>,
) -> Seq<Seq<char>>
    decreases patterns.len(),
{
    if patterns.len() == 0 {
        Seq::empty()
    } else {
        pattern_failures(patterns.drop_last(), haystack, should_match, label) + failure_text(
            label,
            patterns.last(),
            regex_outcome(patterns.last(), haystack),
            should_match,
        )
    }
}

/// The failure of the exact UI signature check, if any.
pub open spec fn signature_failure(expected: Option<String>, actual: Seq<char>) -> Seq<Seq<char>> {
    match expected {
        Some(e) => if e@ != actual {
            seq!["ui_signature_key expected '"@ + e@ + "' got '"@ + actual + "'"@]
        } else {
            Seq::empty()
        },
        None => Seq::empty(),
    }
}

/// Every failure of an assertion on a screen, in the order checked.
pub open spec fn assertion_failures(
    a: FlowAssertion,
    plain: Seq<char>,
    mask: Seq<char>,
    layout: Seq<char>,
    ui_key: Seq<char>,
) -> Seq<Seq<char>> {
    pattern_failures(strings_view(a.plain_contains@), plain, true, "plain_contains"@)
        + pattern_failures(strings_view(a.plain_not_contains@), plain, false, "plain_not_contains"@)
        + pattern_failures(strings_view(a.mask_contains@), mask, true, "mask_contains"@)
        + pattern_failures(strings_view(a.mask_not_contains@), mask, false, "mask_not_contains"@)
        + pattern_failures(strings_view(a.layout_contains@), layout, true, "layout_contains"@)
        + pattern_failures(strings_view(a.layout_not_contains@), layout, false, "layout_not_contains"@)
        + signature_failure(a.ui_signature_key, ui_key) + pattern_failures(
        strings_view(a.ui_signature_contains@),
        ui_key,
        true,
        "ui_signature_contains"@,
    ) + pattern_failures(
        strings_view(a.ui_signature_not_contains@),
        ui_key,
        false,
        "ui_signature_not_contains"@,
    )
}

/// The failures of a flow assertion.
#[derive(Debug, Clone)]
pub struct FlowAssertError {
    pub failures: Vec<String>,
}

impl FlowAssertError {
    pub fn new(failures: Vec<String>) -> (r: Self)
        ensures
            r.failures == failures,
    {
        FlowAssertError { failures }
    }
}

/// The failure one pattern check reports, given how compiling the pattern
/// and searching went (`Err` with the compile error's text, or whether it
/// matched).
pub fn pattern_failure(
    label: &str,
    pattern: &str,
    outcome: &Result<bool, String>,
    should_match: bool,
) -> (r: Option<String>)
    ensures
        match r {
            Some(s) => failure_text(
                label@,
                pattern@,
                match outcome {
                    Ok(m) => Ok::<bool, Seq<char>>(*m),
                    Err(e) => Err::<bool, Seq<char>>(e@),
                },
                should_match,
            ) == seq![s@],
            None => failure_text(
                label@,
                pattern@,
                match outcome {
                    Ok(m) => Ok::<bool, Seq<char>>(*m),
                    Err(e) => Err::<bool, Seq<char>>(e@),
                },
                should_match,
            ) == Seq::<Seq<char>>::empty(),
        },
{
    match outcome {
        Err(e) => {
            let mut s = owned("invalid regex ");
            push_str(&mut s, label);
            push_str(&mut s, ": ");
            push_str(&mut s, e.as_str());
            Some(s)
        },
        Ok(m) => {
            if should_match && !*m {
                let mut s = owned(label);
                push_str(&mut s, " missing /");
                push_str(&mut s, pattern);
                push_str(&mut s, "/");
                Some(s)
            } else if !should_match && *m {
                let mut s = owned(label);
                push_str(&mut s, " matched /");
                push_str(&mut s, pattern);
                push_str(&mut s, "/");
                Some(s)
            } else {
                None
            }
        },
    }
}

/// Appends the failures of a list of patterns on a haystack.
fn check_patterns(
    failures: &mut Vec<String>,
    patterns: &Vec<String>,
    haystack: &str,
    should_match: bool,
    label: &str,
)
    ensures
        strings_view(final(failures)@) == strings_view(old(failures)@) + pattern_failures(
            strings_view(patterns@),
            haystack@,
            should_match,
            label@,
        ),
{
    let ghost start = strings_view(failures@);
    let ghost pv = strings_view(patterns@);
    let mut i: usize = 0;
    proof {
        assert(pv.subrange(0, 0) =~= Seq::<Seq<char>>::empty());
        assert(start + Seq::<Seq<char>>::empty() =~= start);
    }
    while i < patterns.len()
        invariant
            i <= patterns@.len(),
            pv == strings_view(patterns@),
            strings_view(failures@) == start + pattern_failures(
                pv.subrange(0, i as int),
                haystack@,
                should_match,
                label@,
            ),
        decreases patterns@.len() - i,
    {
        let pattern = &patterns[i];
        let outcome = regex_search(pattern.as_str(), haystack);
        let f = pattern_failure(label, pattern.as_str(), &outcome, should_match);
        let ghost before = strings_view(failures@);
        proof {
            let pre = pv.subrange(0, i + 1);
            assert(pre.drop_last() =~= pv.subrange(0, i as int));
            assert(pre.last() == pattern@);
        }
        match f {
            Some(s) => {
                failures.push(s);
                proof {
                    assert(strings_view(failures@) =~= before + seq![s@]);
                }
            },
            None => {},
        }
        proof {
            let pre = pv.subrange(0, i + 1);
            assert(strings_view(failures@) =~= start + pattern_failures(
                pre,
                haystack@,
                should_match,
                label@,
            ));
        }
        i += 1;
    }
    proof {
        assert(pv.subrange(0, pv.len() as int) =~= pv);
    }
}

/// Checks an assertion on a rendered screen: its plain text, style mask,
/// layout signature and UI signature key. Every failed check is reported,
/// in order.
pub fn assert_flow(
    assertion: &FlowAssertion,
    plain: &str,
    mask: &str,
    layout_signature: &str,
    ui_signature_key: &str,
) -> (r: Result<(), FlowAssertError>)
    ensures
        assertion_failures(*assertion, plain@, mask@, layout_signature@, ui_signature_key@).len()
            == 0 ==> r is Ok,
        assertion_failures(*assertion, plain@, mask@, layout_signature@, ui_signature_key@).len()
            > 0 ==> (r matches Err(e) && strings_view(e.failures@) == assertion_failures(
            *assertion,
            plain@,
            mask@,
            layout_signature@,
            ui_signature_key@,
        )),
{
    let mut failures: Vec<String> = Vec::new();
    check_patterns(&mut failures, &assertion.plain_contains, plain, true, "plain_contains");
    check_patterns(&mut failures, &assertion.plain_not_contains, plain, false, "plain_not_contains");
    check_patterns(&mut failures, &assertion.mask_contains, mask, true, "mask_contains");
    check_patterns(&mut failures, &assertion.mask_not_contains, mask, false, "mask_not_contains");
    check_patterns(&mut failures, &assertion.layout_contains, layout_signature, true, "layout_contains");
    check_patterns(
        &mut failures,
        &assertion.layout_not_contains,
        layout_signature,
        false,
        "layout_not_contains",
    );
    let ghost before = strings_view(failures@);
    match &assertion.ui_signature_key {
        Some(expected) => {
            if !str_eq(expected.as_str(), ui_signature_key) {
                let mut s = owned("ui_signature_key expected '");
                push_str(&mut s, expected.as_str());
                push_str(&mut s, "' got '");
                push_str(&mut s, ui_signature_key);
                push_str(&mut s, "'");
                failures.push(s);
                proof {
                    assert(strings_view(failures@) =~= before + signature_failure(
                        assertion.ui_signature_key,
                        ui_signature_key@,
                    ));
                }
            } else {
                proof {
                    assert(strings_view(failures@) =~= before + signature_failure(
                        assertion.ui_signature_key,
                        ui_signature_key@,
                    ));
                }
            }
        },
        None => {
            proof {
                assert(strings_view(failures@) =~= before + signature_failure(
                    assertion.ui_signature_key,
                    ui_signature_key@,
                ));
            }
        },
    }
    check_patterns(
        &mut failures,
        &assertion.ui_signature_contains,
        ui_signature_key,
        true,
        "ui_signature_contains",
    );
    check_patterns(
        &mut failures,
        &assertion.ui_signature_not_contains,
        ui_signature_key,
        false,
        "ui_signature_not_contains",
    );
    proof {
        assert(strings_view(failures@) =~= assertion_failures(
            *assertion,
            plain@,
            mask@,
            layout_signature@,
            ui_signature_key@,
        ));
    }
    if failures.len() == 0 {
        Ok(())
    } else {
        Err(FlowAssertError::new(failures))
    }
}

/// An assertion with no checks passes on every screen.
pub proof fn law_empty_assertion_passes(
    a: FlowAssertion,
    plain: Seq<char>,
    mask: Seq<char>,
    layout: Seq<char>,
    ui_key: Seq<char>,
)
    requires
        a.is_empty_spec(),
    ensures
        assertion_failures(a, plain, mask, layout, ui_key).len() == 0,
{
    assert(strings_view(a.plain_contains@) =~= Seq::<Seq<char>>::empty());
    assert(strings_view(a.plain_not_contains@) =~= Seq::<Seq<char>>::empty());
    assert(strings_view(a.mask_contains@) =~= Seq::<Seq<char>>::empty());
    assert(strings_view(a.mask_not_contains@) =~= Seq::<Seq<char>>::empty());
    assert(strings_view(a.layout_contains@) =~= Seq::<Seq<char>>::empty());
    assert(strings_view(a.layout_not_contains@) =~= Seq::<Seq<char>>::empty());
    assert(strings_view(a.ui_signature_contains@) =~= Seq::<Seq<char>>::empty());
    assert(strings_view(a.ui_signature_not_contains@) =~= Seq::<Seq<char>>::empty());
}


/// A pattern behaves as the check wants: it compiles, and it matches the
/// haystack exactly when it should.
pub open spec fn pattern_ok(pattern: Seq<char>, haystack: Seq<char>, should_match: bool) -> bool {
    regex_outcome(pattern, haystack) == Ok::<bool, Seq<char>>(should_match)
}

/// How many patterns of the list do not behave (see `pattern_ok`).
pub open spec fn violations(patterns: Seq<Seq<char>>, haystack: Seq<char>, should_match: bool) -> nat
    decreases patterns.len(),
{
    if patterns.len() == 0 {
        0
    } else {
        violations(patterns.drop_last(), haystack, should_match) + if pattern_ok(
            patterns.last(),
            haystack,
            should_match,
        ) {
            0nat
        } else {
            1nat
        }
    }
}

/// Law: a list of patterns reports one failure for each pattern that does
/// not behave, and none exactly when every pattern behaves.
pub proof fn law_one_failure_per_violation(
    patterns: Seq<Seq<char>>,
    haystack: Seq<char>,
    should_match: bool,
    label: Seq<char>,
)
    ensures
        pattern_failures(patterns, haystack, should_match, label).len() == violations(
            patterns,
            haystack,
            should_match,
        ),
        violations(patterns, haystack, should_match) == 0 <==> forall|k: int|
            0 <= k < patterns.len() ==> pattern_ok(#[trigger] patterns[k], haystack, should_match),
    decreases patterns.len(),
{
    if patterns.len() > 0 {
        let init = patterns.drop_last();
        law_one_failure_per_violation(init, haystack, should_match, label);
        assert forall|k: int| 0 <= k < init.len() implies #[trigger] init[k] == patterns[k] by {}
        if violations(patterns, haystack, should_match) == 0 {
            assert forall|k: int| 0 <= k < patterns.len() implies pattern_ok(
                #[trigger] patterns[k],
                haystack,
                should_match,
            ) by {
                if k < init.len() {
                    assert(init[k] == patterns[k]);
                }
            }
        }
        if forall|k: int| 0 <= k < patterns.len() ==> pattern_ok(#[trigger] patterns[k], haystack, should_match) {
            assert(pattern_ok(patterns[patterns.len() - 1], haystack, should_match));
            assert forall|k: int| 0 <= k < init.len() implies pattern_ok(#[trigger] init[k], haystack, should_match) by {
                assert(init[k] == patterns[k]);
                assert(pattern_ok(patterns[k], haystack, should_match));
            }
        }
    }
}

/// Every pattern of the list behaves.
pub open spec fn all_ok(patterns: Seq<Seq<char>>, haystack: Seq<char>, should_match: bool) -> bool {
    forall|k: int| 0 <= k < patterns.len() ==> pattern_ok(#[trigger] patterns[k], haystack, should_match)
}

/// Law: an assertion passes on a screen exactly when every "contains"
/// pattern compiles and matches its text, every "not contains" pattern
/// compiles and does not, and the exact UI signature key, when given, is
/// the screen's.
pub proof fn law_assertion_passes_iff(
    a: FlowAssertion,
    plain: Seq<char>,
    mask: Seq<char>,
    layout: Seq<char>,
    ui_key: Seq<char>,
)
    ensures
        assertion_failures(a, plain, mask, layout, ui_key).len() == 0 <==> {
            &&& all_ok(strings_view(a.plain_contains@), plain, true)
            &&& all_ok(strings_view(a.plain_not_contains@), plain, false)
            &&& all_ok(strings_view(a.mask_contains@), mask, true)
            &&& all_ok(strings_view(a.mask_not_contains@), mask, false)
            &&& all_ok(strings_view(a.layout_contains@), layout, true)
            &&& all_ok(strings_view(a.layout_not_contains@), layout, false)
            &&& match a.ui_signature_key {
                Some(e) => e@ == ui_key,
                None => true,
            }
            &&& all_ok(strings_view(a.ui_signature_contains@), ui_key, true)
            &&& all_ok(strings_view(a.ui_signature_not_contains@), ui_key, false)
        },
{
    law_one_failure_per_violation(strings_view(a.plain_contains@), plain, true, "plain_contains"@);
    law_one_failure_per_violation(strings_view(a.plain_not_contains@), plain, false, "plain_not_contains"@);
    law_one_failure_per_violation(strings_view(a.mask_contains@), mask, true, "mask_contains"@);
    law_one_failure_per_violation(strings_view(a.mask_not_contains@), mask, false, "mask_not_contains"@);
    law_one_failure_per_violation(strings_view(a.layout_contains@), layout, true, "layout_contains"@);
    law_one_failure_per_violation(strings_view(a.layout_not_contains@), layout, false, "layout_not_contains"@);
    law_one_failure_per_violation(strings_view(a.ui_signature_contains@), ui_key, true, "ui_signature_contains"@);
    law_one_failure_per_violation(
        strings_view(a.ui_signature_not_contains@),
        ui_key,
        false,
        "ui_signature_not_contains"@,
    );
}

} // verus!
