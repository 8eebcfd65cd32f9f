use vstd::prelude::*;

use crate::config::{ConfigSnapshot, PluginStatus};

verus! {

/// The textual result of one failed check. Ordering is significant: problems
/// are reported in the order the checks were evaluated.
#[derive(Debug)]
pub struct Problem {
    pub message: String,
}

impl View for Problem {
    type V = Seq<char>;

    open spec fn view(&self) -> Seq<char> {
        self.message@
    }
}

/// The message reported for a plugin that is not installed.
pub open spec fn missing_plugin_message(name: Seq<char>) -> Seq<char> {
    "plugin "@ + name + " is not installed"@
}

/// The fixed hint reported when shell integration is not active.
pub open spec fn activation_message() -> Seq<char> {
    "rtx is not activated, run `rtx help activate` for setup instructions"@
}

/// The problems contributed by the per-plugin checks, in discovery order:
/// one problem per plugin that is not installed.
pub open spec fn plugin_problems(plugins: Seq<PluginStatus>) -> Seq<Seq<char>>
    decreases plugins.len(),
{
    if plugins.len() == 0 {
        Seq::empty()
    } else {
        plugin_problems(plugins.drop_last()) + if plugins.last().installed {
            Seq::<Seq<char>>::empty()
        } else {
            seq![missing_plugin_message(plugins.last().name@)]
        }
    }
}

/// The number of plugins marked not installed.
pub open spec fn not_installed_count(plugins: Seq<PluginStatus>) -> nat
    decreases plugins.len(),
{
    if plugins.len() == 0 {
        0
    } else {
        not_installed_count(plugins.drop_last()) + if plugins.last().installed {
            0nat
        } else {
            1nat
        }
    }
}

/// Every problem the fixed check set finds on a snapshot, in evaluation
/// order: the per-plugin checks first, then the activation check.
pub open spec fn problems_spec(plugins: Seq<PluginStatus>, activated: bool) -> Seq<Seq<char>> {
    plugin_problems(plugins) + if activated {
        Seq::<Seq<char>>::empty()
    } else {
        seq![activation_message()]
    }
}

/// Builds the not-installed message for one plugin.
pub fn missing_plugin_problem(name: &String) -> (m: String)
    ensures
        m@ == missing_plugin_message(name@),
{
    let mut m = String::from_str("plugin ");
    m.append(name.as_str());
    m.append(" is not installed");
    proof {
        assert(m@ =~= missing_plugin_message(name@));
    }
    m
}

/// Builds the activation hint.
pub fn activation_problem() -> (m: String)
    ensures
        m@ == activation_message(),
{
    String::from_str("rtx is not activated, run `rtx help activate` for setup instructions")
}

/// Evaluates the fixed check list against a snapshot.
///
/// The result is exactly `problems_spec` of the snapshot: each plugin that
/// is not installed contributes one problem, in discovery order, and a
/// missing activation contributes one more at the end. No error is ever
/// raised; failure is represented entirely by a non-empty result.
pub fn evaluate(snapshot: &ConfigSnapshot) -> (problems: Vec<Problem>)
    ensures
        problems@.map_values(|p: Problem| p@) == problems_spec(
            snapshot.plugins@,
            snapshot.activated,
        ),
{
    let mut problems: Vec<Problem> = Vec::new();
    let n = snapshot.plugins.len();
    let mut i: usize = 0;
    while i < n
        invariant
            i <= n,
            n == snapshot.plugins@.len(),
            problems@.map_values(|p: Problem| p@) == plugin_problems(
                snapshot.plugins@.take(i as int),
            ),
        decreases n - i,
    {
        let plugin = &snapshot.plugins[i];
        if !plugin.installed {
            let message = missing_plugin_problem(&plugin.name);
            problems.push(Problem { message });
        }
        proof {
            let s = snapshot.plugins@;
            assert(s.take(i as int + 1).drop_last() =~= s.take(i as int));
            assert(s.take(i as int + 1).last() == s[i as int]);
            assert(problems@.map_values(|p: Problem| p@) =~= plugin_problems(
                s.take(i as int + 1),
            ));
        }
        i = i + 1;
    }
    proof {
        assert(snapshot.plugins@.take(snapshot.plugins@.len() as int) =~= snapshot.plugins@);
    }
    if !snapshot.activated {
        let message = activation_problem();
        problems.push(Problem { message });
    }
    proof {
        assert(problems@.map_values(|p: Problem| p@) =~= problems_spec(
            snapshot.plugins@,
            snapshot.activated,
        ));
    }
    problems
}

/// With every plugin installed, the per-plugin checks find nothing.
pub proof fn lemma_all_installed_no_plugin_problems(plugins: Seq<PluginStatus>)
    requires
        forall|i: int| 0 <= i < plugins.len() ==> plugins[i].installed,
    ensures
        plugin_problems(plugins).len() == 0,
    decreases plugins.len(),
{
    if plugins.len() > 0 {
        assert(forall|i: int|
            0 <= i < plugins.drop_last().len() ==> plugins.drop_last()[i].installed);
        lemma_all_installed_no_plugin_problems(plugins.drop_last());
        assert(plugins.last().installed);
    }
}

/// A snapshot with every plugin installed and activation in place yields an
/// empty problem sequence, so the run reports success.
pub proof fn lemma_healthy_snapshot_no_problems(plugins: Seq<PluginStatus>)
    requires
        forall|i: int| 0 <= i < plugins.len() ==> plugins[i].installed,
    ensures
        problems_spec(plugins, true).len() == 0,
{
    lemma_all_installed_no_plugin_problems(plugins);
}

/// The per-plugin checks contribute exactly one problem per not-installed
/// plugin.
pub proof fn lemma_plugin_problem_count(plugins: Seq<PluginStatus>)
    ensures
        plugin_problems(plugins).len() == not_installed_count(plugins),
    decreases plugins.len(),
{
    if plugins.len() > 0 {
        lemma_plugin_problem_count(plugins.drop_last());
    }
}

/// A snapshot with `k` not-installed plugins and no activation yields
/// exactly `k + 1` problems.
pub proof fn lemma_unactivated_problem_count(plugins: Seq<PluginStatus>)
    ensures
        problems_spec(plugins, false).len() == not_installed_count(plugins) + 1,
{
    lemma_plugin_problem_count(plugins);
}

/// Evaluating the same snapshot twice yields identical sequences: the
/// problem list is fixed by the snapshot alone, in order and in wording.
pub proof fn lemma_evaluate_deterministic(
    r1: Seq<Problem>,
    r2: Seq<Problem>,
    snapshot: ConfigSnapshot,
)
    requires
        r1.map_values(|p: Problem| p@) == problems_spec(snapshot.plugins@, snapshot.activated),
        r2.map_values(|p: Problem| p@) == problems_spec(snapshot.plugins@, snapshot.activated),
    ensures
        r1.len() == r2.len(),
        forall|i: int| 0 <= i < r1.len() ==> r1[i]@ == r2[i]@,
{
    assert(r1.len() == r1.map_values(|p: Problem| p@).len());
    assert(r2.len() == r2.map_values(|p: Problem| p@).len());
    assert forall|i: int| 0 <= i < r1.len() implies r1[i]@ == r2[i]@ by {
        assert(r1.map_values(|p: Problem| p@)[i] == r1[i]@);
        assert(r2.map_values(|p: Problem| p@)[i] == r2[i]@);
    }
}

} // verus!
