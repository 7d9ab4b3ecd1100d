//! A model of the firewall, and what installing and removing rules comes to
//! on it.
//!
//! The firewall is taken to keep its rules in a list and to answer
//! truthfully. On such a host an installation always succeeds and hands back
//! exactly the rules that it added; a second installation of the same rules
//! adds nothing; and removing what an installation handed back leaves the
//! host as it was before that installation.

use crate::iptables::{
    cleanup_start, route_rules, setup_start, AddPhase, CommandOutcome, RoutingCleanupView,
    RoutingSetupError, RoutingSetupView, RuleOp, RuleView,
};
use vstd::prelude::*;

verus! {

/// A host that keeps its rules in a list and answers truthfully: a check
/// succeeds where the rule is listed, an append lists the rule once more, at
/// the end, and a delete takes the first listing of the rule away and fails
/// where there is none.
pub open spec fn host_run(host: Seq<RuleView>, op: RuleOp, rule: RuleView) -> (
    CommandOutcome,
    Seq<RuleView>,
) {
    match op {
        RuleOp::Check => (
            if host.contains(rule) {
                CommandOutcome::Succeeded
            } else {
                CommandOutcome::Failed
            },
            host,
        ),
        RuleOp::Append => (CommandOutcome::Succeeded, host.push(rule)),
        RuleOp::Delete => match host.index_of_first(rule) {
            Some(i) => (CommandOutcome::Succeeded, host.remove(i)),
            None => (CommandOutcome::Failed, host),
        },
    }
}

/// How many commands the rule in progress may still take after this one.
pub open spec fn phase_rank(phase: AddPhase) -> nat {
    match phase {
        AddPhase::Checking => 1,
        AddPhase::Appending => 0,
    }
}

/// An installation carried through on a truthful host: each command is run
/// on the host and its outcome recorded, until no command is left. The result
/// is the progress reached and the host's rules at that point.
pub open spec fn run_setup(setup: RoutingSetupView, host: Seq<RuleView>) -> (
    RoutingSetupView,
    Seq<RuleView>,
)
    decreases setup.rules.len() - setup.next, phase_rank(setup.phase),
{
    match setup.command() {
        None => (setup, host),
        Some((op, rule)) => {
            let (outcome, host_after) = host_run(host, op, rule);
            let after = setup.record(outcome);
            if after.failed is Some {
                (after, host_after)
            } else {
                run_setup(after, host_after)
            }
        },
    }
}

/// A removal carried through on a truthful host, in the same way.
pub open spec fn run_cleanup(cleanup: RoutingCleanupView, host: Seq<RuleView>) -> (
    RoutingCleanupView,
    Seq<RuleView>,
)
    decreases cleanup.rules.len() - cleanup.next,
{
    match cleanup.command() {
        None => (cleanup, host),
        Some((op, rule)) => {
            let (outcome, host_after) = host_run(host, op, rule);
            let after = cleanup.record(outcome);
            if after.failed is Some {
                (after, host_after)
            } else {
                run_cleanup(after, host_after)
            }
        },
    }
}

/// The progress in which every rule is in place, `added` being the rules
/// that had to be appended on the way there.
pub open spec fn setup_complete(setup: RoutingSetupView, added: Seq<RuleView>) -> RoutingSetupView {
    RoutingSetupView {
        installed: setup.installed + added,
        next: setup.rules.len(),
        phase: AddPhase::Checking,
        failed: None,
        ..setup
    }
}

/// The progress in which every rule is removed.
pub open spec fn cleanup_complete(cleanup: RoutingCleanupView) -> RoutingCleanupView {
    RoutingCleanupView { next: cleanup.rules.len(), failed: None, ..cleanup }
}

/// The host lists none of these rules.
pub open spec fn lists_none(host: Seq<RuleView>, rules: Seq<RuleView>) -> bool {
    forall|i: int| 0 <= i < rules.len() ==> !host.contains(#[trigger] rules[i])
}

/// On a truthful host an installation succeeds. What it appended, and
/// nothing else, is new on the host, at the end of its list and in the order
/// of the plan, and none of it was listed before. After it the host lists
/// every rule that was still to install.
pub proof fn lemma_run_setup_installs(setup: RoutingSetupView, host: Seq<RuleView>)
    requires
        setup.wf(),
        setup.failed is None,
        setup.phase is Checking,
    ensures
        ({
            let (end, after) = run_setup(setup, host);
            let added = after.skip(host.len() as int);
            &&& host.len() <= after.len()
            &&& after == host + added
            &&& end == setup_complete(setup, added)
            &&& lists_none(host, added)
            &&& forall|j: int|
                setup.next <= j < setup.rules.len() ==> after.contains(#[trigger] setup.rules[j])
        }),
    decreases setup.rules.len() - setup.next,
{
    let (end, after) = run_setup(setup, host);
    let added = after.skip(host.len() as int);
    if setup.next < setup.rules.len() {
        let rule = setup.rules[setup.next as int];
        if host.contains(rule) {
            let found = RoutingSetupView {
                next: setup.next + 1,
                phase: AddPhase::Checking,
                ..setup
            };
            lemma_run_setup_installs(found, host);
            let k = choose|k: int| 0 <= k < host.len() && host[k] == rule;
            assert(after[k] == rule);
        } else {
            let appending = RoutingSetupView { phase: AddPhase::Appending, ..setup };
            let appended = RoutingSetupView {
                installed: setup.installed.push(rule),
                next: setup.next + 1,
                phase: AddPhase::Checking,
                ..setup
            };
            let grown = host.push(rule);
            assert(run_setup(appending, host) == run_setup(appended, grown));
            lemma_run_setup_installs(appended, grown);
            let later = after.skip(grown.len() as int);
            assert(appended.installed + later == setup.installed + added);
            assert forall|i: int| 0 <= i < added.len() implies !host.contains(
                #[trigger] added[i],
            ) by {
                if i > 0 {
                    assert(added[i] == later[i - 1]);
                    if host.contains(added[i]) {
                        let k = choose|k: int| 0 <= k < host.len() && host[k] == added[i];
                        assert(grown[k] == added[i]);
                    }
                }
            }
            assert forall|j: int| setup.next <= j < setup.rules.len() implies after.contains(
                #[trigger] setup.rules[j],
            ) by {
                if j == setup.next {
                    assert(after[host.len() as int] == rule);
                }
            }
        }
    }
}

/// On a host that lists every rule still to install, an installation
/// succeeds, appends nothing and leaves the host's rules as they are.
pub proof fn lemma_run_setup_adds_nothing(setup: RoutingSetupView, host: Seq<RuleView>)
    requires
        setup.wf(),
        setup.failed is None,
        setup.phase is Checking,
        forall|j: int| setup.next <= j < setup.rules.len() ==> host.contains(setup.rules[j]),
    ensures
        run_setup(setup, host) == (setup_complete(setup, Seq::empty()), host),
    decreases setup.rules.len() - setup.next,
{
    if setup.next < setup.rules.len() {
        let found = RoutingSetupView {
            next: setup.next + 1,
            phase: AddPhase::Checking,
            ..setup
        };
        lemma_run_setup_adds_nothing(found, host);
    }
}

/// On a truthful host whose list ends with rules that it did not list
/// before, removing those rules succeeds and leaves what was listed before.
pub proof fn lemma_run_cleanup_removes(cleanup: RoutingCleanupView, host: Seq<RuleView>)
    requires
        cleanup.wf(),
        cleanup.failed is None,
        lists_none(host, cleanup.rules),
    ensures
        run_cleanup(cleanup, host + cleanup.rules.skip(cleanup.next as int)) == (
            cleanup_complete(cleanup),
            host,
        ),
    decreases cleanup.rules.len() - cleanup.next,
{
    let rest = cleanup.rules.skip(cleanup.next as int);
    let listed = host + rest;
    if cleanup.next < cleanup.rules.len() {
        let rule = cleanup.rules[cleanup.next as int];
        let removed = RoutingCleanupView { next: cleanup.next + 1, ..cleanup };
        assert(listed[host.len() as int] == rule);
        listed.index_of_first_ensures(rule);
        let at = listed.index_of_first(rule)->Some_0;
        assert(at == host.len()) by {
            if at < host.len() {
                assert(host[at] == rule);
                assert(host.contains(rule));
            }
        }
        assert(listed.remove(at) == host + cleanup.rules.skip(cleanup.next as int + 1));
        lemma_run_cleanup_removes(removed, host);
    }
}

/// Installing is idempotent: on a truthful host, whatever it lists, a first
/// installation hands back exactly the rules that it added to the host, and
/// a second installation of the same rules succeeds, adds no rule and hands
/// back none, so the host lists as many rules after it as before.
pub proof fn lemma_setup_idempotent(rules: Seq<RuleView>, host: Seq<RuleView>)
    ensures
        ({
            let (first, host_once) = run_setup(setup_start(rules), host);
            let (second, host_twice) = run_setup(setup_start(rules), host_once);
            &&& first.result() matches Ok(handed_back) && host_once == host + handed_back
            &&& second.result() == Ok::<Seq<RuleView>, RoutingSetupError>(Seq::empty())
            &&& host_twice == host_once
            &&& host_twice.len() == host_once.len()
        }),
{
    let setup = setup_start(rules);
    lemma_run_setup_installs(setup, host);
    let host_once = run_setup(setup, host).1;
    lemma_run_setup_adds_nothing(setup, host_once);
}

/// Removing what an installation handed back restores the host: on a
/// truthful host, whatever it lists, the rules handed back are exactly those
/// that were not listed before, and removing them succeeds and leaves the
/// host's list as it was before the installation. Rules that were in place
/// before are not touched.
pub proof fn lemma_cleanup_restores_host(rules: Seq<RuleView>, host: Seq<RuleView>)
    ensures
        ({
            let (installed, host_after) = run_setup(setup_start(rules), host);
            &&& installed.result() matches Ok(handed_back) && lists_none(host, handed_back) && {
                let (removed, host_restored) = run_cleanup(
                    cleanup_start(handed_back),
                    host_after,
                );
                &&& removed.result() == Ok::<(), RoutingSetupError>(())
                &&& host_restored == host
            }
        }),
{
    let setup = setup_start(rules);
    lemma_run_setup_installs(setup, host);
    let host_after = run_setup(setup, host).1;
    let added = host_after.skip(host.len() as int);
    assert(added.skip(0) == added);
    lemma_run_cleanup_removes(cleanup_start(added), host);
}

/// Routing is idempotent: planned twice for the same two interfaces and
/// carried through on a truthful host, the second installation adds no rule
/// and hands back none.
pub proof fn lemma_route_to_interface_idempotent(
    main_interface: Seq<char>,
    vpn_interface: Seq<char>,
    host: Seq<RuleView>,
)
    ensures
        ({
            let setup = setup_start(route_rules(main_interface, vpn_interface));
            let (first, host_once) = run_setup(setup, host);
            let (second, host_twice) = run_setup(setup, host_once);
            &&& first.result() is Ok
            &&& second.result() == Ok::<Seq<RuleView>, RoutingSetupError>(Seq::empty())
            &&& host_twice == host_once
            &&& host_twice.len() == host_once.len()
        }),
{
    lemma_setup_idempotent(route_rules(main_interface, vpn_interface), host);
}

} // verus!
