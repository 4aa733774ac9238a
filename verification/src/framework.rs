//! How a framework server looks up a resource or a prompt among its providers: it asks
//! them in the order they were registered, and the first that succeeds answers.
//!
//! Asking a provider is outside work, so the lookup is a step function: the caller asks
//! the provider that a step names and hands the outcome back for the next step.

use vstd::prelude::*;

verus! {

/// What a lookup does next.
#[derive(Debug, Clone, Copy, PartialEq, Eq, Structural)]
pub enum ProviderStep {
    /// Ask the provider at this position.
    Ask(usize),
    /// The provider at this position succeeded: its answer is the lookup's.
    Found(usize),
    /// No provider succeeded.
    NotFound,
}

/// The step after `last`, the position of the provider asked last and whether it
/// succeeded (`None` before any was asked), among `count` providers.
pub open spec fn provider_step_view(count: usize, last: Option<(usize, bool)>) -> ProviderStep {
    match last {
        None => if count == 0 { ProviderStep::NotFound } else { ProviderStep::Ask(0) },
        Some((i, true)) => ProviderStep::Found(i),
        Some((i, false)) => if i + 1 < count { ProviderStep::Ask((i + 1) as usize) } else { ProviderStep::NotFound },
    }
}

/// The next step of a lookup among `count` providers, given the outcome of the last
/// provider asked.
pub fn next_provider_step(count: usize, last: Option<(usize, bool)>) -> (r: ProviderStep)
    requires
        last matches Some((i, _)) ==> i < count,
    ensures
        r == provider_step_view(count, last),
{
    match last {
        None => if count == 0 { ProviderStep::NotFound } else { ProviderStep::Ask(0) },
        Some((i, true)) => ProviderStep::Found(i),
        Some((i, false)) => if i + 1 < count { ProviderStep::Ask(i + 1) } else { ProviderStep::NotFound },
    }
}

/// Whether some provider at a position from `from` on succeeds.
pub open spec fn succeeds_from(outcomes: Seq<bool>, from: int) -> bool {
    exists|k: int| from <= k < outcomes.len() && outcomes[k]
}

/// The position of the first provider that succeeds, where one does.
pub open spec fn first_success(outcomes: Seq<bool>) -> Option<int> {
    if succeeds_from(outcomes, 0) {
        Some(choose|k: int| 0 <= k < outcomes.len() && outcomes[k] && forall|j: int| 0 <= j < k ==> !outcomes[j])
    } else {
        None
    }
}

/// Runs a lookup from `step` for at most `fuel` more steps, answering each `Ask(i)`
/// with `outcomes[i]`.
pub open spec fn run_lookup(outcomes: Seq<bool>, step: ProviderStep, fuel: nat) -> ProviderStep
    decreases fuel,
{
    if fuel == 0 {
        step
    } else {
        match step {
            ProviderStep::Ask(i) => if i < outcomes.len() {
                run_lookup(outcomes, provider_step_view(outcomes.len() as usize, Some((i, outcomes[i as int]))), (fuel - 1) as nat)
            } else {
                step
            },
            _ => step,
        }
    }
}

proof fn lemma_run_from(outcomes: Seq<bool>, i: int)
    requires
        0 <= i < outcomes.len() <= usize::MAX,
        forall|j: int| 0 <= j < i ==> !outcomes[j],
    ensures
        run_lookup(outcomes, ProviderStep::Ask(i as usize), (outcomes.len() - i) as nat) == (
            if succeeds_from(outcomes, i) {
                ProviderStep::Found(first_success(outcomes)->Some_0 as usize)
            } else {
                ProviderStep::NotFound
            }),
        succeeds_from(outcomes, i) ==> first_success(outcomes) is Some,
    decreases outcomes.len() - i,
{
    let n = outcomes.len();
    let fuel = (n - i) as nat;
    let next = provider_step_view(n as usize, Some((i as usize, outcomes[i])));
    if succeeds_from(outcomes, i) {
        let w = choose|k: int| i <= k < n && outcomes[k];
        lemma_first_exists(outcomes, w);
    }
    assert(run_lookup(outcomes, ProviderStep::Ask(i as usize), fuel) == run_lookup(outcomes, next, (fuel - 1) as nat));
    if outcomes[i] {
        assert(succeeds_from(outcomes, i));
        assert(succeeds_from(outcomes, 0));
        let k = first_success(outcomes)->Some_0;
        assert(0 <= i && outcomes[i] && forall|j: int| 0 <= j < i ==> !outcomes[j]);
        assert(0 <= k < n && outcomes[k] && forall|j: int| 0 <= j < k ==> !outcomes[j]);
        assert(k == i) by {
            if k < i {
                assert(!outcomes[k]);
            } else if k > i {
                assert(!outcomes[i]);
            }
        }
        assert(next == ProviderStep::Found(i as usize));
        if fuel > 1 {
            assert(run_lookup(outcomes, next, (fuel - 1) as nat) == next);
        }
    } else if i + 1 < n {
        assert(next == ProviderStep::Ask((i + 1) as usize));
        lemma_run_from(outcomes, i + 1);
        assert(succeeds_from(outcomes, i) == succeeds_from(outcomes, i + 1)) by {
            if succeeds_from(outcomes, i) {
                let k = choose|k: int| i <= k < n && outcomes[k];
                assert(k != i);
            }
        }
    } else {
        assert(next == ProviderStep::NotFound);
        assert(!succeeds_from(outcomes, i)) by {
            if succeeds_from(outcomes, i) {
                let k = choose|k: int| i <= k < n && outcomes[k];
                assert(k == i);
            }
        }
    }
}

/// A lookup that asks the providers in order, answering each request for provider `i`
/// with that provider's outcome, ends within one step per provider: with the first
/// provider that succeeds, or with no provider found when none does.
pub proof fn lemma_lookup_finds_first_success(outcomes: Seq<bool>)
    requires
        outcomes.len() <= usize::MAX,
    ensures
        run_lookup(outcomes, provider_step_view(outcomes.len() as usize, None), outcomes.len() as nat) == (
            match first_success(outcomes) {
                Some(k) => ProviderStep::Found(k as usize),
                None => ProviderStep::NotFound,
            }),
        first_success(outcomes) matches Some(k) ==> 0 <= k < outcomes.len() && outcomes[k]
            && forall|j: int| 0 <= j < k ==> !outcomes[j],
{
    let n = outcomes.len();
    if n == 0 {
        assert(!succeeds_from(outcomes, 0));
    } else {
        lemma_run_from(outcomes, 0);
    }
    if succeeds_from(outcomes, 0) {
        let w = choose|k: int| 0 <= k < n && outcomes[k];
        lemma_first_exists(outcomes, w);
    }
}

proof fn lemma_first_exists(outcomes: Seq<bool>, w: int)
    requires
        0 <= w < outcomes.len(),
        outcomes[w],
    ensures
        exists|k: int| 0 <= k < outcomes.len() && outcomes[k] && forall|j: int| 0 <= j < k ==> !outcomes[j],
    decreases w,
{
    if exists|j: int| 0 <= j < w && outcomes[j] {
        let j = choose|j: int| 0 <= j < w && outcomes[j];
        lemma_first_exists(outcomes, j);
    } else {
        assert(forall|j: int| 0 <= j < w ==> !outcomes[j]);
    }
}

} // verus!
