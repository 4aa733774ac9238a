use solidmcp::framework::{next_provider_step, ProviderStep};

/// Runs a lookup among providers whose outcomes are given, and counts the providers
/// asked.
fn lookup(outcomes: &[bool]) -> (ProviderStep, usize) {
    let mut asked = 0;
    let mut step = next_provider_step(outcomes.len(), None);
    while let ProviderStep::Ask(i) = step {
        asked += 1;
        step = next_provider_step(outcomes.len(), Some((i, outcomes[i])));
    }
    (step, asked)
}

#[test]
fn lookup_without_providers_finds_nothing() {
    assert_eq!(lookup(&[]), (ProviderStep::NotFound, 0));
}

#[test]
fn lookup_stops_at_the_first_success() {
    assert_eq!(lookup(&[false, true, true]), (ProviderStep::Found(1), 2));
    assert_eq!(lookup(&[true, false]), (ProviderStep::Found(0), 1));
}

#[test]
fn lookup_asks_every_provider_when_all_fail() {
    assert_eq!(lookup(&[false, false, false]), (ProviderStep::NotFound, 3));
}

#[test]
fn lookup_steps_are_exact() {
    assert_eq!(next_provider_step(2, None), ProviderStep::Ask(0));
    assert_eq!(next_provider_step(2, Some((0, false))), ProviderStep::Ask(1));
    assert_eq!(next_provider_step(2, Some((1, false))), ProviderStep::NotFound);
    assert_eq!(next_provider_step(2, Some((1, true))), ProviderStep::Found(1));
}
