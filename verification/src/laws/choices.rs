//! What is chosen from many, and in which order.
use vstd::prelude::*;
use crate::accessibility::{AccessibilitySelectorCandidateView, NodeView};
use crate::collections::{ascending, lookup, put_all, put_ascending, put_lookup};
use crate::definition::{AccessibilityTargetView, AutomationDefinitionView, Platform};
use crate::executor::{error_messages, PreflightReport};
use crate::interpolate::Failure;
use crate::resolve::{run_failure, undeclared_failure, variables_failure, ResolvedVariable, Sources};
use crate::run::{PreflightDiagnosticView, PreflightSeverity, RunConfigView};
use crate::selectors::{
    candidate_fits, child_candidates, distinct, has_target, node_fits, offered, own_candidates,
    ranked, ranked_in, repair_candidates,
};
use crate::text::joined;
use crate::validate::definition_problem;
use crate::value::{Json, Tree};
use crate::views::views;

verus! {

type Candidates = Seq<AccessibilitySelectorCandidateView>;

/// The candidates of one score, in their order.
pub open spec fn of_score(all: Candidates, score: u8) -> Candidates
    decreases all.len(),
{
    if all.len() == 0 {
        Seq::empty()
    } else if all.last().score == score {
        of_score(all.drop_last(), score).push(all.last())
    } else {
        of_score(all.drop_last(), score)
    }
}

proof fn ranking_one_keeps_order(
    sorted: Candidates,
    c: AccessibilitySelectorCandidateView,
    score: u8,
)
    requires
        crate::selectors::descending(sorted),
    ensures
        of_score(ranked_in(sorted, c), score) == if c.score == score {
            of_score(sorted, score).push(c)
        } else {
            of_score(sorted, score)
        },
    decreases sorted.len(),
{
    if sorted.len() == 0 || sorted.last().score >= c.score {
        assert(sorted.push(c).drop_last() =~= sorted);
    } else {
        let front = sorted.drop_last();
        assert forall|i: int, j: int| 0 <= i < j < front.len() implies (#[trigger] front[i]).score
            >= (#[trigger] front[j]).score by {
            assert(front[i] == sorted[i] && front[j] == sorted[j]);
        }
        ranking_one_keeps_order(front, c, score);
        let rest = ranked_in(front, c);
        assert(rest.push(sorted.last()).drop_last() =~= rest);
        if c.score == score && sorted.last().score == score {
            assert(false);
        }
    }
}

/// Ranking keeps candidates of one score in the order in which they came.
pub proof fn ranking_keeps_the_order_of_equals(all: Candidates, score: u8)
    ensures
        of_score(ranked(all), score) == of_score(all, score),
    decreases all.len(),
{
    if all.len() > 0 {
        ranking_keeps_the_order_of_equals(all.drop_last(), score);
        crate::selectors::ranked_is_sorted(all.drop_last());
        ranking_one_keeps_order(ranked(all.drop_last()), all.last(), score);
    }
}

/// Of the candidates with one target the first is kept, and those kept stay in their order.
pub proof fn the_first_of_a_target_is_kept(all: Candidates, i: int) -> (at: int)
    requires
        0 <= i < distinct(all).len(),
    ensures
        0 <= at < all.len(),
        distinct(all)[i] == all[at],
        forall|j: int| 0 <= j < at ==> (#[trigger] all[j]).target != all[at].target,
    decreases all.len(),
{
    let front = all.drop_last();
    let kept = distinct(front);
    crate::selectors::distinct_keeps_each_target_once(front);
    if i < kept.len() {
        let at = the_first_of_a_target_is_kept(front, i);
        assert forall|j: int| 0 <= j < at implies (#[trigger] all[j]).target
            != all[at].target by {
            assert(front[j] == all[j]);
        }
        at
    } else {
        let at = all.len() - 1;
        assert forall|j: int| 0 <= j < at implies (#[trigger] all[j]).target
            != all[at].target by {
            assert(front[j] == all[j]);
            if all[j].target == all[at].target {
                assert(has_target(front, all[at].target));
                assert(has_target(kept, all[at].target));
            }
        }
        at
    }
}

/// As many candidates are offered as there are, up to twenty, and they are the best.
pub proof fn the_best_twenty_are_offered(all: Candidates, i: int)
    ensures
        distinct(ranked(all)).len() <= 20 ==> offered(all).len() == distinct(ranked(all)).len(),
        distinct(ranked(all)).len() > 20 ==> offered(all).len() == 20,
        0 <= i < offered(all).len() ==> offered(all)[i] == distinct(ranked(all))[i],
{
}

/// Whether a candidate of an element may take the place of a selector: on macOS where the element
/// is the one that the selector asks for, elsewhere where the candidate has something in common
/// with the selector.
pub open spec fn eligible(
    platform: Platform,
    n: NodeView,
    c: AccessibilitySelectorCandidateView,
    desired: Option<AccessibilityTargetView>,
) -> bool {
    if platform == Platform::MacOs {
        desired is Some ==> node_fits(n, desired->0)
    } else {
        candidate_fits(c, desired)
    }
}

proof fn own_candidates_are_eligible(
    platform: Platform,
    n: NodeView,
    desired: Option<AccessibilityTargetView>,
    k: nat,
    c: AccessibilitySelectorCandidateView,
)
    requires
        k <= n.selector_candidates.len(),
    ensures
        own_candidates(platform, n, desired, k).contains(c) <==> exists|i: int|
            0 <= i < k && #[trigger] n.selector_candidates[i] == c && eligible(
                platform,
                n,
                c,
                desired,
            ),
    decreases k,
{
    let all = own_candidates(platform, n, desired, k);
    if k > 0 {
        let m = (k - 1) as nat;
        own_candidates_are_eligible(platform, n, desired, m, c);
        let front = own_candidates(platform, n, desired, m);
        let last = n.selector_candidates[k - 1];
        if front.contains(c) {
            let i = choose|i: int| 0 <= i < front.len() && front[i] == c;
            assert(all[i] == c);
        }
        if last == c && eligible(platform, n, c, desired) {
            assert(all[all.len() - 1] == c);
        }
        if all.contains(c) && !front.contains(c) {
            let i = choose|i: int| 0 <= i < all.len() && all[i] == c;
            if i < front.len() {
                assert(front[i] == c);
            }
            assert(n.selector_candidates[k - 1] == c);
        }
    }
}

proof fn candidates_of_children(
    platform: Platform,
    children: Seq<NodeView>,
    k: nat,
    desired: Option<AccessibilityTargetView>,
    c: AccessibilitySelectorCandidateView,
)
    requires
        k <= children.len(),
    ensures
        child_candidates(platform, children, k, desired).contains(c) <==> exists|i: int|
            0 <= i < k && repair_candidates(platform, #[trigger] children[i], desired).contains(c),
    decreases k,
{
    if k > 0 {
        let m = (k - 1) as nat;
        candidates_of_children(platform, children, m, desired, c);
        let front = child_candidates(platform, children, m, desired);
        let last = repair_candidates(platform, children[k - 1], desired);
        in_either(front, last, c);
        assert(child_candidates(platform, children, k, desired) == front + last);
    }
}

proof fn in_either(a: Candidates, b: Candidates, c: AccessibilitySelectorCandidateView)
    ensures
        (a + b).contains(c) <==> a.contains(c) || b.contains(c),
{
    if a.contains(c) {
        let i = choose|i: int| 0 <= i < a.len() && a[i] == c;
        assert((a + b)[i] == c);
    }
    if b.contains(c) {
        let i = choose|i: int| 0 <= i < b.len() && b[i] == c;
        assert((a + b)[a.len() + i] == c);
    }
    if (a + b).contains(c) {
        let i = choose|i: int| 0 <= i < (a + b).len() && (a + b)[i] == c;
        if i < a.len() {
            assert(a[i] == c);
        } else {
            assert(b[i - a.len()] == c);
        }
    }
}

/// What comes into question for a repair are the eligible candidates of an element, and what comes
/// into question in each element inside it.
pub proof fn repairs_look_at_every_element(
    platform: Platform,
    n: NodeView,
    desired: Option<AccessibilityTargetView>,
    c: AccessibilitySelectorCandidateView,
)
    ensures
        repair_candidates(platform, n, desired).contains(c) <==> {
            ||| exists|i: int|
                0 <= i < n.selector_candidates.len() && #[trigger] n.selector_candidates[i] == c
                    && eligible(platform, n, c, desired)
            ||| exists|i: int|
                0 <= i < n.children.len() && repair_candidates(
                    platform,
                    #[trigger] n.children[i],
                    desired,
                ).contains(c)
        },
{
    let own = own_candidates(platform, n, desired, n.selector_candidates.len());
    let inside = child_candidates(platform, n.children, n.children.len(), desired);
    own_candidates_are_eligible(platform, n, desired, n.selector_candidates.len(), c);
    candidates_of_children(platform, n.children, n.children.len(), desired, c);
    in_either(own, inside, c);
}

proof fn errors_of_both(a: Seq<PreflightDiagnosticView>, b: Seq<PreflightDiagnosticView>)
    ensures
        error_messages(a + b) == error_messages(a) + error_messages(b),
    decreases b.len(),
{
    if b.len() == 0 {
        assert(a + b =~= a);
        assert(error_messages(a) + error_messages(b) =~= error_messages(a));
    } else {
        errors_of_both(a, b.drop_last());
        assert((a + b).drop_last() =~= a + b.drop_last());
        assert((a + b).last() == b.last());
        assert(error_messages(a + b) =~= error_messages(a) + error_messages(b));
    }
}

/// The summary of a preflight is made of the messages of its errors, in order; its warnings do not
/// show.
pub proof fn summaries_name_the_errors(
    report: &PreflightReport,
    r: String,
    before: Seq<PreflightDiagnosticView>,
    one: PreflightDiagnosticView,
    behind: Seq<PreflightDiagnosticView>,
)
    requires
        call_ensures(PreflightReport::error_summary, (report,), r),
    ensures
        r@ == joined(error_messages(views(report.diagnostics@)), "; "@),
        one.severity == PreflightSeverity::Error ==> error_messages(before + seq![one] + behind)
            == error_messages(before) + seq![one.message] + error_messages(behind),
        one.severity == PreflightSeverity::Warning ==> error_messages(before + seq![one] + behind)
            == error_messages(before) + error_messages(behind),
        error_messages(Seq::empty()) == Seq::<Seq<char>>::empty(),
{
    errors_of_both(before + seq![one], behind);
    errors_of_both(before, seq![one]);
    assert(seq![one].drop_last() =~= Seq::empty());
    assert(seq![one].last() == one);
    assert(error_messages(Seq::empty()) =~= Seq::empty());
    if one.severity == PreflightSeverity::Error {
        assert(error_messages(seq![one]) =~= seq![one.message]);
    } else {
        assert(error_messages(seq![one]) =~= Seq::empty());
        assert(error_messages(before) + Seq::<Seq<char>>::empty() =~= error_messages(before));
    }
}

/// The latest binding of a key counts.
pub proof fn the_latest_binding_counts<V>(
    entries: Seq<(Seq<char>, V)>,
    more: Seq<(Seq<char>, V)>,
    i: int,
    key: Seq<char>,
)
    requires
        ascending(entries),
    ensures
        ascending(put_all(entries, more)),
        0 <= i < more.len() && more[i].0 == key && (forall|j: int|
            i < j < more.len() ==> (#[trigger] more[j]).0 != key) ==> lookup(
            put_all(entries, more),
            key,
        ) == Some(more[i].1),
        (forall|j: int| 0 <= j < more.len() ==> (#[trigger] more[j]).0 != key) ==> lookup(
            put_all(entries, more),
            key,
        ) == lookup(entries, key),
    decreases more.len(),
{
    if more.len() > 0 {
        let front = more.drop_last();
        let last = more.last();
        the_latest_binding_counts(entries, front, i, key);
        put_ascending(put_all(entries, front), last.0, last.1);
        put_lookup(put_all(entries, front), last.0, last.1, key);
        assert(more[more.len() - 1] == last);
        if forall|j: int| 0 <= j < more.len() ==> (#[trigger] more[j]).0 != key {
            assert forall|j: int| 0 <= j < front.len() implies (#[trigger] front[j]).0 != key by {
                assert(front[j] == more[j]);
            }
        }
        if 0 <= i < front.len() && forall|j: int|
            i < j < more.len() ==> (#[trigger] more[j]).0 != key {
            assert forall|j: int| i < j < front.len() implies (#[trigger] front[j]).0 != key by {
                assert(front[j] == more[j]);
            }
        }
    }
}

/// A value for a variable that is not declared keeps a run from being resolved, once the variables
/// that are declared stand for something.
pub proof fn undeclared_values_are_refused(
    d: AutomationDefinitionView,
    c: RunConfigView,
    s: Sources,
    i: int,
)
    requires
        definition_problem(d) is None,
        variables_failure(s, s.definitions.len()) is None,
        0 <= i < s.overrides.len(),
        lookup(s.definitions, s.overrides[i].0) is None,
        forall|j: int|
            0 <= j < i ==> lookup(s.definitions, (#[trigger] s.overrides[j]).0) is Some,
    ensures
        run_failure(d, c, s) == Some(Failure::UndeclaredVariable(s.overrides[i].0)),
{
    none_before(s, i as nat, i);
    first_undeclared(s, s.overrides.len(), i);
}

proof fn none_before(s: Sources, n: nat, i: int)
    requires
        n <= i < s.overrides.len(),
        forall|j: int|
            0 <= j < i ==> lookup(s.definitions, (#[trigger] s.overrides[j]).0) is Some,
    ensures
        undeclared_failure(s, n) is None,
    decreases n,
{
    if n > 0 {
        none_before(s, (n - 1) as nat, i);
        assert(lookup(s.definitions, s.overrides[n - 1].0) is Some);
    }
}

proof fn first_undeclared(s: Sources, n: nat, i: int)
    requires
        0 <= i < n <= s.overrides.len(),
        lookup(s.definitions, s.overrides[i].0) is None,
        undeclared_failure(s, i as nat) is None,
    ensures
        undeclared_failure(s, n) == Some(Failure::UndeclaredVariable(s.overrides[i].0)),
    decreases n,
{
    if n > i + 1 {
        first_undeclared(s, (n - 1) as nat, i);
    }
}

/// What is shown of a secret is a mark; what is no secret is shown as it is.
pub proof fn secrets_are_shown_as_a_mark(
    variable: &ResolvedVariable,
    secret: bool,
    value: &Json,
    shown: Json,
)
    requires
        call_ensures(ResolvedVariable::is_secret, (variable,), secret),
        call_ensures(ResolvedVariable::value, (variable,), value),
        call_ensures(ResolvedVariable::redacted_value, (variable,), shown),
    ensures
        secret ==> shown@ == Tree::Text("[REDACTED]"@),
        !secret ==> shown@ == value@,
{
}

} // verus!
