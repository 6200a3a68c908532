use mc_auth::clock::current_unix_seconds;
use mc_auth::config::Config;
use mc_auth::exchange::{PollBudget, TokenChain};

fn hop_names() -> Vec<String> {
    vec![
        String::from("device_code"),
        String::from("microsoft_token"),
        String::from("xbox_live"),
        String::from("xsts"),
        String::from("minecraft_token"),
    ]
}

#[test]
fn chain_walks_hops_strictly_in_order() {
    let mut chain = TokenChain::begin(hop_names());
    let expected = hop_names();
    for name in &expected {
        assert!(!chain.is_complete());
        assert_eq!(chain.current_step().unwrap(), name);
        chain.record_success();
    }
    assert!(chain.is_complete());
    assert!(chain.current_step().is_none());
    assert!(chain.into_failure().is_none());
}

#[test]
fn failed_hop_aborts_and_names_itself() {
    let mut chain = TokenChain::begin(hop_names());
    chain.record_success();
    chain.record_success();
    assert_eq!(chain.current_step().unwrap(), "xbox_live");
    chain.record_failure(String::from("identity service unreachable"));
    assert!(chain.current_step().is_none());
    assert!(!chain.is_complete());
    let err = chain.into_failure().unwrap();
    assert_eq!(err.step, "xbox_live");
    assert_eq!(err.cause, "identity service unreachable");
}

#[test]
fn empty_chain_is_complete_at_once() {
    let chain = TokenChain::begin(Vec::new());
    assert!(chain.is_complete());
    assert!(chain.current_step().is_none());
}

#[test]
fn poll_budget_is_spent_then_refuses() {
    let mut budget = PollBudget::new(2);
    assert!(budget.try_spend());
    assert!(budget.try_spend());
    assert!(!budget.try_spend());
    assert!(!budget.try_spend());
}

#[test]
fn default_config_enables_caching() {
    let c = Config::default();
    assert!(c.cache_enabled);
    assert_eq!(c.server_url, "localhost:25565");
}

#[test]
fn clock_reads_a_plausible_instant() {
    let first = current_unix_seconds();
    let second = current_unix_seconds();
    // Two immediate reads land within a minute of each other.
    assert!(second + 60 >= first && first + 60 >= second);
}
