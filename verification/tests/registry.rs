use token_purchaser::error::ContractError;
use token_purchaser::registry::{ChainRegistry, ChainSetting};

fn setting(compass: &str, main: &str) -> ChainSetting {
    ChainSetting { compass_job_id: compass.to_string(), main_job_id: main.to_string() }
}

#[test]
fn empty_registry_finds_nothing() {
    let registry = ChainRegistry::new();
    assert_eq!(registry.get(&"eth-main".to_string()), Err(ContractError::NotFound));
    assert!(!registry.contains(&"eth-main".to_string()));
}

#[test]
fn set_then_get_gives_the_setting() {
    let mut registry = ChainRegistry::new();
    registry.set("eth-main".to_string(), setting("compass_eth", "main_eth"));
    assert_eq!(registry.get(&"eth-main".to_string()), Ok(setting("compass_eth", "main_eth")));
    assert!(registry.contains(&"eth-main".to_string()));
    assert_eq!(registry.get(&"bnb-main".to_string()), Err(ContractError::NotFound));
}

#[test]
fn set_overwrites_the_setting_of_a_chain() {
    let mut registry = ChainRegistry::new();
    registry.set("eth-main".to_string(), setting("a", "b"));
    registry.set("bnb-main".to_string(), setting("c", "d"));
    registry.set("eth-main".to_string(), setting("e", "f"));
    assert_eq!(registry.get(&"eth-main".to_string()), Ok(setting("e", "f")));
    assert_eq!(registry.get(&"bnb-main".to_string()), Ok(setting("c", "d")));
}

#[test]
fn chain_identifiers_are_compared_exactly() {
    let mut registry = ChainRegistry::new();
    registry.set("eth-main".to_string(), setting("a", "b"));
    assert_eq!(registry.get(&"ETH-MAIN".to_string()), Err(ContractError::NotFound));
    assert_eq!(registry.get(&"eth-main ".to_string()), Err(ContractError::NotFound));
    assert_eq!(registry.get(&String::new()), Err(ContractError::NotFound));
}

#[test]
fn any_job_identifier_is_accepted() {
    let mut registry = ChainRegistry::new();
    registry.set(String::new(), setting("", ""));
    assert_eq!(registry.get(&String::new()), Ok(setting("", "")));
}
