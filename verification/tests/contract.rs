use identity::state::Identity;

#[test]
fn default_works() {
    let identity = Identity::default();
    assert_eq!(identity.get(), false);
}

#[test]
fn it_works() {
    let mut identity = Identity::new(false);
    assert_eq!(identity.get(), false);
    identity.flip();
    assert_eq!(identity.get(), true);
}

#[test]
fn new_true_toggles_back_and_forth() {
    let mut contract = Identity::new(true);
    assert_eq!(contract.get(), true);
    contract.flip();
    assert_eq!(contract.get(), false);
    contract.flip();
    assert_eq!(contract.get(), true);
}

#[test]
fn four_flips_restore_initial_value() {
    let mut contract = Identity::new(false);
    contract.flip();
    contract.flip();
    contract.flip();
    contract.flip();
    assert_eq!(contract.get(), false);
}

#[test]
fn get_is_pure() {
    let contract = Identity::new(true);
    assert_eq!(contract.get(), true);
    assert_eq!(contract.get(), true);
}

#[test]
fn instances_are_isolated() {
    let mut a = Identity::new(true);
    let b = Identity::new(false);
    a.flip();
    assert_eq!(a.get(), false);
    assert_eq!(b.get(), false);
}
