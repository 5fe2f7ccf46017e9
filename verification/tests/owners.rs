use token_purchaser::addr::Addr;
use token_purchaser::error::ContractError;
use token_purchaser::owners::OwnerSet;

fn addr(text: &str) -> Addr {
    Addr::unchecked(text.to_string())
}

#[test]
fn new_set_is_empty() {
    let set = OwnerSet::new();
    assert_eq!(set.len(), 0);
    assert!(!set.is_owner(&addr("alice")));
    assert_eq!(set.to_vec(), Vec::<Addr>::new());
}

#[test]
fn add_keeps_insertion_order() {
    let mut set = OwnerSet::new();
    set.add(addr("carol"));
    set.add(addr("alice"));
    set.add(addr("bob"));
    assert_eq!(set.to_vec(), vec![addr("carol"), addr("alice"), addr("bob")]);
    assert_eq!(set.len(), 3);
}

#[test]
fn adding_a_member_again_changes_nothing() {
    let mut set = OwnerSet::new();
    set.add(addr("alice"));
    set.add(addr("bob"));
    let before = set.clone();
    set.add(addr("alice"));
    set.add(addr("alice"));
    assert_eq!(set, before);
    assert_eq!(set.len(), 2);
    assert_eq!(set.to_vec(), vec![addr("alice"), addr("bob")]);
}

#[test]
fn add_all_adds_each_once() {
    let mut set = OwnerSet::new();
    set.add(addr("bob"));
    set.add_all(&vec![addr("alice"), addr("bob"), addr("alice"), addr("carol")]);
    assert_eq!(set.to_vec(), vec![addr("bob"), addr("alice"), addr("carol")]);
}

#[test]
fn from_list_drops_repeats() {
    let set = OwnerSet::from_list(&vec![addr("a"), addr("b"), addr("a"), addr("c"), addr("b")]);
    assert_eq!(set.to_vec(), vec![addr("a"), addr("b"), addr("c")]);
    assert_eq!(set.len(), 3);
}

#[test]
fn membership_is_exact_text_equality() {
    let set = OwnerSet::from_list(&vec![addr("alice")]);
    assert!(set.is_owner(&addr("alice")));
    assert!(!set.is_owner(&addr("Alice")));
    assert!(!set.is_owner(&addr("alice ")));
    assert!(!set.is_owner(&addr("")));
}

#[test]
fn authorize_refuses_strangers() {
    let set = OwnerSet::from_list(&vec![addr("alice")]);
    assert_eq!(set.authorize(&addr("alice")), Ok(()));
    assert_eq!(set.authorize(&addr("mallory")), Err(ContractError::Unauthorized));
}

#[test]
fn removing_a_stranger_is_not_found() {
    let mut set = OwnerSet::from_list(&vec![addr("alice"), addr("bob")]);
    let before = set.clone();
    assert_eq!(set.remove(&addr("mallory")), Err(ContractError::NotFound));
    assert_eq!(set, before);
}

#[test]
fn remove_keeps_the_order_of_the_others() {
    let mut set = OwnerSet::from_list(&vec![addr("a"), addr("b"), addr("c"), addr("d")]);
    assert_eq!(set.remove(&addr("b")), Ok(()));
    assert_eq!(set.to_vec(), vec![addr("a"), addr("c"), addr("d")]);
    assert!(!set.is_owner(&addr("b")));
    assert_eq!(set.remove(&addr("b")), Err(ContractError::NotFound));
    assert_eq!(set.remove(&addr("d")), Ok(()));
    assert_eq!(set.remove(&addr("a")), Ok(()));
    assert_eq!(set.to_vec(), vec![addr("c")]);
}

#[test]
fn the_last_owner_can_be_removed() {
    let mut set = OwnerSet::from_list(&vec![addr("alice")]);
    assert_eq!(set.remove(&addr("alice")), Ok(()));
    assert_eq!(set.len(), 0);
    assert_eq!(set.authorize(&addr("alice")), Err(ContractError::Unauthorized));
}

#[test]
fn addr_keeps_its_text() {
    let alice = addr("paloma1alice");
    assert_eq!(alice.as_str(), "paloma1alice");
    assert!(alice.same(&addr("paloma1alice")));
    assert!(!alice.same(&addr("paloma1bob")));
    assert_eq!(alice.clone().into_string(), "paloma1alice".to_string());
}
