//! Accessibility rule checker for HTML-like element trees.
//!
//! The crate models WAI-ARIA roles, properties and HTML tag semantics as
//! closed enumerations with pure lookup tables, evaluates a fixed registry
//! of lint rules over ingested elements, and aggregates the resulting
//! diagnostics into a deterministically ordered report. Extracting
//! elements from host source, discovering files, and rendering reports are
//! left to outside callers, which feed `check_project` the per-unit
//! extraction results.

pub mod dom;
pub mod element;
pub mod lints;
pub mod prelude;
pub mod rules;
pub mod text;

use crate::element::{HtmlElement, ParseError};
use crate::lints::{diag_views, unit_diags, DiagView, LintDiagnostic, Rule, Severity};
use crate::text::{lemma_lex_le_total, lemma_lex_le_trans, lex_le, str_le};
use vstd::prelude::*;

verus! {

// ---------------------------------------------------------------------------
// The diagnostic order
// ---------------------------------------------------------------------------

/// The total order of the report: by source unit, then line, then column.
/// Diagnostics at the same position keep their discovery order.
pub open spec fn diag_le(a: DiagView, b: DiagView) -> bool {
    lex_le(a.file, b.file) && (lex_le(b.file, a.file) ==> (a.line < b.line || (a.line == b.line
        && a.column <= b.column)))
}

/// `diag_le` is total.
pub proof fn lemma_diag_le_total(a: DiagView, b: DiagView)
    ensures
        diag_le(a, b) || diag_le(b, a),
{
    lemma_lex_le_total(a.file, b.file);
}

/// `diag_le` is transitive.
pub proof fn lemma_diag_le_trans(a: DiagView, b: DiagView, c: DiagView)
    requires
        diag_le(a, b),
        diag_le(b, c),
    ensures
        diag_le(a, c),
{
    lemma_lex_le_trans(a.file, b.file, c.file);
    if lex_le(c.file, a.file) {
        lemma_lex_le_trans(c.file, a.file, b.file);
        lemma_lex_le_trans(b.file, c.file, a.file);
    }
}

/// Decides `diag_le` on two diagnostics.
pub fn diag_le_exec(a: &LintDiagnostic, b: &LintDiagnostic) -> (r: bool)
    ensures
        r == diag_le(a@, b@),
{
    if !str_le(a.file.as_str(), b.file.as_str()) {
        return false;
    }
    if str_le(b.file.as_str(), a.file.as_str()) {
        a.line < b.line || (a.line == b.line && a.column <= b.column)
    } else {
        true
    }
}

/// Whether a sequence of diagnostics is in report order.
pub open spec fn diags_sorted(s: Seq<DiagView>) -> bool {
    forall|i: int, j: int| 0 <= i < j < s.len() ==> diag_le(#[trigger] s[i], #[trigger] s[j])
}

// ---------------------------------------------------------------------------
// Stable sorting
// ---------------------------------------------------------------------------

/// Inserts `d` after every element it compares less-or-equal with, so that
/// equal positions keep their discovery order.
pub open spec fn sorted_insert(s: Seq<DiagView>, d: DiagView) -> Seq<DiagView>
    decreases s.len(),
{
    if s.len() == 0 {
        seq![d]
    } else if diag_le(s.last(), d) {
        s + seq![d]
    } else {
        sorted_insert(s.drop_last(), d) + seq![s.last()]
    }
}

/// The stable sort of a diagnostic sequence by `diag_le`.
pub open spec fn sort_diags(s: Seq<DiagView>) -> Seq<DiagView>
    decreases s.len(),
{
    if s.len() == 0 {
        Seq::empty()
    } else {
        sorted_insert(sort_diags(s.drop_last()), s.last())
    }
}

/// The elements of `sorted_insert(s, d)` are those of `s` plus `d`.
proof fn lemma_sorted_insert_contains(s: Seq<DiagView>, d: DiagView, x: DiagView)
    ensures
        sorted_insert(s, d).contains(x) <==> (s.contains(x) || x == d),
    decreases s.len(),
{
    if s.len() == 0 {
    } else if diag_le(s.last(), d) {
        assert(sorted_insert(s, d) == s + seq![d]);
        assert forall|y: DiagView| #[trigger] (s + seq![d]).contains(y) implies s.contains(y) || y
            == d by {
            let k = choose|k: int| 0 <= k < (s + seq![d]).len() && (s + seq![d])[k] == y;
            if k < s.len() {
                assert(s[k] == y);
            }
        }
        if s.contains(x) {
            let k = choose|k: int| 0 <= k < s.len() && s[k] == x;
            assert((s + seq![d])[k] == x);
        }
        if x == d {
            assert((s + seq![d])[s.len() as int] == x);
        }
    } else {
        lemma_sorted_insert_contains(s.drop_last(), d, x);
        let inner = sorted_insert(s.drop_last(), d);
        assert forall|y: DiagView| #[trigger] (inner + seq![s.last()]).contains(y) implies
            inner.contains(y) || y == s.last() by {
            let k = choose|k: int|
                0 <= k < (inner + seq![s.last()]).len() && (inner + seq![s.last()])[k] == y;
            if k < inner.len() {
                assert(inner[k] == y);
            }
        }
        if inner.contains(x) {
            let k = choose|k: int| 0 <= k < inner.len() && inner[k] == x;
            assert((inner + seq![s.last()])[k] == x);
        }
        if x == s.last() {
            assert((inner + seq![s.last()])[inner.len() as int] == x);
        }
        if s.contains(x) {
            let k = choose|k: int| 0 <= k < s.len() && s[k] == x;
            if k < s.len() - 1 {
                assert(s.drop_last()[k] == x);
            }
        }
        if s.drop_last().contains(x) {
            let k = choose|k: int| 0 <= k < s.drop_last().len() && s.drop_last()[k] == x;
            assert(s[k] == x);
        }
    }
}

/// Inserting into a sorted sequence keeps it sorted.
proof fn lemma_sorted_insert_sorted(s: Seq<DiagView>, d: DiagView)
    requires
        diags_sorted(s),
    ensures
        diags_sorted(sorted_insert(s, d)),
    decreases s.len(),
{
    if s.len() == 0 {
    } else if diag_le(s.last(), d) {
        let r = s + seq![d];
        assert forall|i: int, j: int| 0 <= i < j < r.len() implies diag_le(
            #[trigger] r[i],
            #[trigger] r[j],
        ) by {
            if j < s.len() {
                assert(diag_le(s[i], s[j]));
            } else {
                if i < s.len() - 1 {
                    assert(diag_le(s[i], s.last()));
                    lemma_diag_le_trans(s[i], s.last(), d);
                }
            }
        }
    } else {
        assert(diags_sorted(s.drop_last())) by {
            assert(forall|i: int, j: int|
                0 <= i < j < s.drop_last().len() ==> diag_le(
                    #[trigger] s.drop_last()[i],
                    #[trigger] s.drop_last()[j],
                ));
        }
        lemma_sorted_insert_sorted(s.drop_last(), d);
        lemma_diag_le_total(s.last(), d);
        let inner = sorted_insert(s.drop_last(), d);
        let r = inner + seq![s.last()];
        assert forall|i: int, j: int| 0 <= i < j < r.len() implies diag_le(
            #[trigger] r[i],
            #[trigger] r[j],
        ) by {
            if j < inner.len() {
                assert(diag_le(inner[i], inner[j]));
            } else {
                assert(inner.contains(inner[i]));
                lemma_sorted_insert_contains(s.drop_last(), d, inner[i]);
                if inner[i] == d {
                    assert(diag_le(d, s.last()));
                } else {
                    let k = choose|k: int|
                        0 <= k < s.drop_last().len() && s.drop_last()[k] == inner[i];
                    assert(s[k] == inner[i]);
                    assert(diag_le(s[k], s.last()));
                }
            }
        }
    }
}

/// The stable sort is sorted.
pub proof fn lemma_sort_diags_sorted(s: Seq<DiagView>)
    ensures
        diags_sorted(sort_diags(s)),
    decreases s.len(),
{
    if s.len() > 0 {
        lemma_sort_diags_sorted(s.drop_last());
        lemma_sorted_insert_sorted(sort_diags(s.drop_last()), s.last());
    }
}

/// Where `sorted_insert` places the new element: right after the last
/// element that compares less-or-equal with it.
proof fn lemma_sorted_insert_at(s: Seq<DiagView>, d: DiagView, pos: int)
    requires
        0 <= pos <= s.len(),
        forall|j: int| pos <= j < s.len() ==> !diag_le(#[trigger] s[j], d),
        pos > 0 ==> diag_le(s[pos - 1], d),
    ensures
        sorted_insert(s, d) == s.take(pos) + seq![d] + s.skip(pos),
    decreases s.len(),
{
    if s.len() == 0 {
        assert(sorted_insert(s, d) =~= s.take(pos) + seq![d] + s.skip(pos));
    } else if diag_le(s.last(), d) {
        assert(pos == s.len());
        assert(sorted_insert(s, d) =~= s.take(pos) + seq![d] + s.skip(pos));
    } else {
        assert(pos <= s.len() - 1);
        lemma_sorted_insert_at(s.drop_last(), d, pos);
        assert(sorted_insert(s, d) =~= s.take(pos) + seq![d] + s.skip(pos)) by {
            assert(s.drop_last().take(pos) =~= s.take(pos));
            assert(s.drop_last().skip(pos) + seq![s.last()] =~= s.skip(pos));
        }
    }
}

/// Sorts diagnostics by unit, line and column, stably: diagnostics at the
/// same position keep their relative order.
#[verifier::loop_isolation(false)]
pub fn sort_diagnostics(input: Vec<LintDiagnostic>) -> (r: Vec<LintDiagnostic>)
    ensures
        diag_views(r@) == sort_diags(diag_views(input@)),
{
    let ghost orig = diag_views(input@);
    let mut v = input;
    let mut out: Vec<LintDiagnostic> = Vec::new();
    assert(diag_views(out@) =~= sort_diags(orig.take(0)));
    while v.len() > 0
        invariant
            v@.len() <= orig.len(),
            diag_views(v@) == orig.skip(orig.len() - v@.len()),
            diag_views(out@) == sort_diags(orig.take(orig.len() - v@.len())),
        decreases v@.len(),
    {
        let ghost p = orig.len() - v@.len();
        let ghost prev = v@;
        let d = v.remove(0);
        proof {
            assert(diag_views(prev)[0] == prev[0]@);
            assert(d@ == orig[p]);
            assert forall|k: int| 0 <= k < v@.len() implies #[trigger] diag_views(v@)[k]
                == orig.skip(p + 1)[k] by {
                assert(diag_views(v@)[k] == v@[k]@);
                assert(v@[k] == prev[k + 1]);
                assert(diag_views(prev)[k + 1] == prev[k + 1]@);
            }
            assert(diag_views(v@) =~= orig.skip(p + 1));
        }
        let mut pos: usize = out.len();
        while pos > 0 && !diag_le_exec(&out[pos - 1], &d)
            invariant
                0 <= pos <= out@.len(),
                forall|j: int|
                    pos <= j < out@.len() ==> !diag_le(#[trigger] diag_views(out@)[j], d@),
            decreases pos,
        {
            assert(!diag_le(diag_views(out@)[pos - 1], d@));
            pos -= 1;
        }
        let ghost before = diag_views(out@);
        proof {
            if pos > 0 {
                assert(diag_le(before[pos as int - 1], d@));
            }
            lemma_sorted_insert_at(before, d@, pos as int);
        }
        out.insert(pos, d);
        proof {
            assert(diag_views(out@) =~= before.take(pos as int) + seq![d@] + before.skip(
                pos as int,
            ));
            assert(orig.take(p + 1).drop_last() =~= orig.take(p));
            assert(orig.take(p + 1).last() == orig[p]);
        }
    }
    assert(orig.take(orig.len() as int) =~= orig);
    out
}

// ---------------------------------------------------------------------------
// The run summary
// ---------------------------------------------------------------------------

/// Summary of one whole check run: every diagnostic found, every unit that
/// could not be extracted, and how many units held lintable elements.
pub struct LintSummary {
    /// All lint diagnostics found, sorted by unit, line and column.
    pub diagnostics: Vec<LintDiagnostic>,
    /// Units that could not be parsed.
    pub parse_errors: Vec<ParseError>,
    /// Number of units that contained at least one lintable element.
    pub files_checked: usize,
}

/// The diagnostics of every successfully extracted unit, in unit order.
pub open spec fn all_diags_from(
    units: Seq<Result<Vec<HtmlElement>, ParseError>>,
    i: int,
) -> Seq<DiagView>
    decreases units.len() - i,
{
    if i < 0 || i >= units.len() {
        Seq::empty()
    } else {
        (match units[i] {
            Ok(elems) => unit_diags(elems@),
            Err(_) => Seq::empty(),
        }) + all_diags_from(units, i + 1)
    }
}

/// The extraction failures, in unit order.
pub open spec fn errs_from(units: Seq<Result<Vec<HtmlElement>, ParseError>>, i: int) -> Seq<
    ParseError,
>
    decreases units.len() - i,
{
    if i < 0 || i >= units.len() {
        Seq::empty()
    } else {
        (match units[i] {
            Ok(_) => Seq::empty(),
            Err(e) => seq![e],
        }) + errs_from(units, i + 1)
    }
}

/// How many units held at least one element.
pub open spec fn files_from(units: Seq<Result<Vec<HtmlElement>, ParseError>>, i: int) -> int
    decreases units.len() - i,
{
    if i < 0 || i >= units.len() {
        0
    } else {
        (match units[i] {
            Ok(elems) => if elems@.len() > 0 {
                1int
            } else {
                0int
            },
            Err(_) => 0int,
        }) + files_from(units, i + 1)
    }
}

/// Checks a whole project from its per-unit extraction results: runs every
/// rule over every element, merges the per-unit diagnostics in unit order,
/// and sorts them by unit, line and column with discovery order as the
/// tie-break.
#[verifier::loop_isolation(false)]
pub fn check_project(units: Vec<Result<Vec<HtmlElement>, ParseError>>) -> (r: LintSummary)
    ensures
        diag_views(r.diagnostics@) == sort_diags(all_diags_from(units@, 0)),
        diags_sorted(diag_views(r.diagnostics@)),
        r.parse_errors@ == errs_from(units@, 0),
        r.files_checked as int == files_from(units@, 0),
{
    let ghost orig = units@;
    let mut v = units;
    let total = v.len();
    let mut diagnostics: Vec<LintDiagnostic> = Vec::new();
    let mut parse_errors: Vec<ParseError> = Vec::new();
    let mut files_checked: usize = 0;
    assert(diag_views(diagnostics@) =~= Seq::<DiagView>::empty());
    while v.len() > 0
        invariant
            v@.len() <= orig.len(),
            total == orig.len(),
            v@ == orig.skip(orig.len() - v@.len()),
            files_checked <= orig.len() - v@.len(),
            all_diags_from(orig, 0) == diag_views(diagnostics@) + all_diags_from(
                orig,
                orig.len() - v@.len(),
            ),
            errs_from(orig, 0) == parse_errors@ + errs_from(orig, orig.len() - v@.len()),
            files_from(orig, 0) == files_checked + files_from(orig, orig.len() - v@.len()),
        decreases v@.len(),
    {
        let ghost p = orig.len() - v@.len();
        let u = v.remove(0);
        proof {
            assert(v@ =~= orig.skip(p + 1));
        }
        match u {
            Ok(elems) => {
                if elems.len() > 0 {
                    files_checked += 1;
                }
                let mut ds = crate::lints::run_all_lints(&elems);
                let ghost pre = diag_views(diagnostics@);
                let ghost dsv = diag_views(ds@);
                diagnostics.append(&mut ds);
                proof {
                    assert(diag_views(diagnostics@) =~= pre + dsv);
                    assert(pre + dsv + all_diags_from(orig, p + 1) =~= pre + (dsv + all_diags_from(
                        orig,
                        p + 1,
                    )));
                    assert(parse_errors@ =~= parse_errors@ + Seq::<ParseError>::empty());
                }
            },
            Err(e) => {
                let ghost pre = parse_errors@;
                parse_errors.push(e);
                proof {
                    assert(parse_errors@ =~= pre + seq![orig[p]->Err_0]);
                    assert(diag_views(diagnostics@) =~= diag_views(diagnostics@) + Seq::<
                        DiagView,
                    >::empty());
                }
            },
        }
    }
    assert(all_diags_from(orig, orig.len() as int) =~= Seq::<DiagView>::empty());
    let diagnostics = sort_diagnostics(diagnostics);
    proof {
        lemma_sort_diags_sorted(all_diags_from(orig, 0));
        assert(diag_views(diagnostics@) + Seq::<DiagView>::empty() =~= diag_views(diagnostics@));
    }
    LintSummary { diagnostics, parse_errors, files_checked }
}

// ---------------------------------------------------------------------------
// Run statistics and filters
// ---------------------------------------------------------------------------

/// How many diagnostics carry the given severity.
pub open spec fn count_severity(s: Seq<DiagView>, sev: Severity) -> int
    decreases s.len(),
{
    if s.len() == 0 {
        0
    } else {
        count_severity(s.drop_last(), sev) + (if s.last().severity == sev {
            1int
        } else {
            0int
        })
    }
}

/// Counts the errors, warnings and notes of a report.
#[verifier::loop_isolation(false)]
pub fn severity_counts(diags: &Vec<LintDiagnostic>) -> (r: (usize, usize, usize))
    ensures
        r.0 as int == count_severity(diag_views(diags@), Severity::Error),
        r.1 as int == count_severity(diag_views(diags@), Severity::Warning),
        r.2 as int == count_severity(diag_views(diags@), Severity::Info),
{
    let ghost dv = diag_views(diags@);
    let mut errors: usize = 0;
    let mut warnings: usize = 0;
    let mut infos: usize = 0;
    let mut i: usize = 0;
    while i < diags.len()
        invariant
            0 <= i <= dv.len(),
            errors + warnings + infos <= i,
            errors as int == count_severity(dv.take(i as int), Severity::Error),
            warnings as int == count_severity(dv.take(i as int), Severity::Warning),
            infos as int == count_severity(dv.take(i as int), Severity::Info),
        decreases dv.len() - i,
    {
        proof {
            assert(dv.take(i + 1).drop_last() =~= dv.take(i as int));
            assert(dv.take(i + 1).last() == dv[i as int]);
        }
        match diags[i].severity {
            Severity::Error => {
                errors += 1;
            },
            Severity::Warning => {
                warnings += 1;
            },
            Severity::Info => {
                infos += 1;
            },
        }
        i += 1;
    }
    assert(dv.take(dv.len() as int) =~= dv);
    (errors, warnings, infos)
}

/// Whether any diagnostic is an error: the failure signal of a run.
pub open spec fn any_error(s: Seq<DiagView>) -> bool {
    exists|i: int| 0 <= i < s.len() && (#[trigger] s[i]).severity == Severity::Error
}

/// Whether the run found any error-severity diagnostic.
#[verifier::loop_isolation(false)]
pub fn has_errors(diags: &Vec<LintDiagnostic>) -> (r: bool)
    ensures
        r == any_error(diag_views(diags@)),
{
    let ghost dv = diag_views(diags@);
    let mut i: usize = 0;
    while i < diags.len()
        invariant
            0 <= i <= dv.len(),
            forall|j: int| 0 <= j < i ==> (#[trigger] dv[j]).severity != Severity::Error,
        decreases dv.len() - i,
    {
        if matches!(diags[i].severity, Severity::Error) {
            assert(dv[i as int].severity == Severity::Error);
            return true;
        }
        assert(dv[i as int].severity != Severity::Error);
        i += 1;
    }
    false
}

/// Whether a diagnostic passes the caller's filters: an optional rule
/// allow-list, an optional rule deny-list, and an errors-only switch.
pub open spec fn keeps(
    d: DiagView,
    only: Option<Seq<Rule>>,
    skip: Option<Seq<Rule>>,
    only_errors: bool,
) -> bool {
    (match only {
        Some(o) => o.contains(d.rule),
        None => true,
    }) && (match skip {
        Some(sk) => !sk.contains(d.rule),
        None => true,
    }) && (!only_errors || d.severity == Severity::Error)
}

/// The diagnostics that pass the filters, in order.
pub open spec fn filtered(
    s: Seq<DiagView>,
    only: Option<Seq<Rule>>,
    skip: Option<Seq<Rule>>,
    only_errors: bool,
) -> Seq<DiagView>
    decreases s.len(),
{
    if s.len() == 0 {
        Seq::empty()
    } else {
        filtered(s.drop_last(), only, skip, only_errors) + (if keeps(
            s.last(),
            only,
            skip,
            only_errors,
        ) {
            seq![s.last()]
        } else {
            Seq::empty()
        })
    }
}

/// Whether `rules` holds `x`.
#[verifier::loop_isolation(false)]
fn rules_contain(rules: &Vec<Rule>, x: Rule) -> (r: bool)
    ensures
        r == rules@.contains(x),
{
    let mut i: usize = 0;
    while i < rules.len()
        invariant
            0 <= i <= rules@.len(),
            forall|j: int| 0 <= j < i ==> rules@[j] != x,
        decreases rules@.len() - i,
    {
        if rules[i] == x {
            assert(rules@[i as int] == x);
            return true;
        }
        i += 1;
    }
    false
}

/// Keeps the diagnostics that pass the caller's filters: rules named in
/// `only` (all, when absent), not named in `skip`, and only errors when
/// `only_errors` is set. Order is preserved.
#[verifier::loop_isolation(false)]
pub fn filter_diagnostics(
    diags: Vec<LintDiagnostic>,
    only: Option<Vec<Rule>>,
    skip: Option<Vec<Rule>>,
    only_errors: bool,
) -> (r: Vec<LintDiagnostic>)
    ensures
        diag_views(r@) == filtered(
            diag_views(diags@),
            match only {
                Some(o) => Some(o@),
                None => None,
            },
            match skip {
                Some(sk) => Some(sk@),
                None => None,
            },
            only_errors,
        ),
{
    let ghost dv = diag_views(diags@);
    let ghost onlyv: Option<Seq<Rule>> = match only {
        Some(ref o) => Some(o@),
        None => None,
    };
    let ghost skipv: Option<Seq<Rule>> = match skip {
        Some(ref sk) => Some(sk@),
        None => None,
    };
    let mut v = diags;
    let mut out: Vec<LintDiagnostic> = Vec::new();
    assert(diag_views(out@) =~= filtered(dv.take(0), onlyv, skipv, only_errors));
    while v.len() > 0
        invariant
            v@.len() <= dv.len(),
            diag_views(v@) == dv.skip(dv.len() - v@.len()),
            diag_views(out@) == filtered(dv.take(dv.len() - v@.len()), onlyv, skipv, only_errors),
            match only {
                Some(ref o) => onlyv == Some(o@),
                None => onlyv is None,
            },
            match skip {
                Some(ref sk) => skipv == Some(sk@),
                None => skipv is None,
            },
        decreases v@.len(),
    {
        let ghost p = dv.len() - v@.len();
        let ghost prev = v@;
        let d = v.remove(0);
        proof {
            assert(diag_views(prev)[0] == prev[0]@);
            assert(d@ == dv[p]);
            assert forall|k: int| 0 <= k < v@.len() implies #[trigger] diag_views(v@)[k]
                == dv.skip(p + 1)[k] by {
                assert(diag_views(v@)[k] == v@[k]@);
                assert(v@[k] == prev[k + 1]);
                assert(diag_views(prev)[k + 1] == prev[k + 1]@);
            }
            assert(diag_views(v@) =~= dv.skip(p + 1));
            assert(dv.take(p + 1).drop_last() =~= dv.take(p));
            assert(dv.take(p + 1).last() == dv[p]);
        }
        let pass_only = match &only {
            Some(o) => rules_contain(o, d.rule),
            None => true,
        };
        let pass_skip = match &skip {
            Some(sk) => !rules_contain(sk, d.rule),
            None => true,
        };
        let pass_sev = !only_errors || matches!(d.severity, Severity::Error);
        if pass_only && pass_skip && pass_sev {
            assert(keeps(d@, onlyv, skipv, only_errors));
            let ghost pre = diag_views(out@);
            out.push(d);
            proof {
                assert(diag_views(out@) =~= pre + seq![dv[p]]);
            }
        } else {
            assert(!keeps(d@, onlyv, skipv, only_errors));
            assert(diag_views(out@) =~= diag_views(out@) + Seq::<DiagView>::empty());
        }
    }
    assert(dv.take(dv.len() as int) =~= dv);
    out
}

// ---------------------------------------------------------------------------
// Laws of the pipeline
// ---------------------------------------------------------------------------

/// Evaluating the full rule registry twice over the same immutable element
/// sequence yields identical diagnostic sets, and sorting them yields the
/// identical final order.
pub proof fn lemma_lint_run_idempotent(
    elems: Seq<HtmlElement>,
    r1: Seq<DiagView>,
    r2: Seq<DiagView>,
)
    requires
        r1 == unit_diags(elems),
        r2 == unit_diags(elems),
    ensures
        r1 == r2,
        sort_diags(r1) == sort_diags(r2),
{
}

/// In any report `check_project` hands back, every diagnostic compares
/// `diag_le` with every later one: the order by unit, line and column is
/// total over the output.
pub proof fn lemma_report_totally_ordered(s: Seq<DiagView>, i: int, j: int)
    requires
        diags_sorted(s),
        0 <= i < j < s.len(),
    ensures
        diag_le(s[i], s[j]),
{
}

} // verus!
