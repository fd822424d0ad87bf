use hapi::{AccountId, Category, Hapi, Registry, RegistryError, StorageKey};

fn account(s: &str) -> AccountId {
    AccountId::parse(s).unwrap()
}

#[test]
fn set_report_address() {
    let admin_account: AccountId = account("carol_near");
    let alice_account: AccountId = account("alice_near");
    let bob_account: AccountId = account("bob_near");
    let mut contract = Hapi::new(admin_account.clone());

    contract
        .report_address(&admin_account, alice_account.clone(), Category::Safe)
        .unwrap();

    assert_eq!(
        contract.get_address_category(alice_account.clone()).unwrap(),
        Category::Safe
    );

    assert!(contract.get_address_category(alice_account).unwrap() != Category::TerroristFinancing);

    assert_eq!(contract.get_address_category(bob_account), None);
}

#[test]
fn owner_reports_then_lookup() {
    let mut r = Registry::uninitialized();
    r.initialize(account("carol")).unwrap();
    assert_eq!(r.report(&account("carol"), account("alice"), Category::Safe), Ok(()));
    assert_eq!(r.lookup(&account("alice")), Ok(Some(Category::Safe)));
    assert!(r.lookup(&account("alice")) != Ok(Some(Category::TerroristFinancing)));
    assert_eq!(r.lookup(&account("bob")), Ok(None));
}

#[test]
fn non_owner_is_denied() {
    let mut r = Registry::uninitialized();
    r.initialize(account("carol")).unwrap();
    assert_eq!(
        r.report(&account("bob"), account("alice"), Category::Scam),
        Err(RegistryError::AccessDenied)
    );
    assert_eq!(r.lookup(&account("alice")), Ok(None));
}

#[test]
fn non_owner_leaves_existing_label() {
    let mut h = Hapi::new(account("carol"));
    h.report_address(&account("carol"), account("alice"), Category::Mixer).unwrap();
    assert_eq!(
        h.report_address(&account("bob"), account("alice"), Category::Safe),
        Err(RegistryError::AccessDenied)
    );
    assert_eq!(h.lookup(&account("alice")), Some(Category::Mixer));
}

#[test]
fn second_initialize_is_refused() {
    let mut r = Registry::uninitialized();
    r.initialize(account("carol")).unwrap();
    r.report(&account("carol"), account("alice"), Category::Gambling).unwrap();
    assert_eq!(r.initialize(account("bob")), Err(RegistryError::AlreadyInitialized));
    assert_eq!(r.owner_id().unwrap().as_str(), "carol");
    assert_eq!(r.lookup(&account("alice")), Ok(Some(Category::Gambling)));
    assert_eq!(
        r.report(&account("bob"), account("alice"), Category::Safe),
        Err(RegistryError::AccessDenied)
    );
}

#[test]
fn operations_before_initialize_fail() {
    let mut r = Registry::uninitialized();
    assert_eq!(r.lookup(&account("alice")), Err(RegistryError::NotInitialized));
    assert_eq!(
        r.report(&account("carol"), account("alice"), Category::Safe),
        Err(RegistryError::NotInitialized)
    );
    assert!(r.owner_id().is_err());
    assert_eq!(r.lookup(&account("alice")), Err(RegistryError::NotInitialized));
}

#[test]
fn last_report_wins() {
    let mut h = Hapi::new(account("carol"));
    let owner = account("carol");
    h.report_address(&owner, account("x1"), Category::Safe).unwrap();
    h.report_address(&owner, account("x1"), Category::Scam).unwrap();
    assert_eq!(h.lookup(&account("x1")), Some(Category::Scam));
}

#[test]
fn owner_may_label_itself() {
    let mut h = Hapi::new(account("carol"));
    h.report_address(&account("carol"), account("carol"), Category::Sanctions).unwrap();
    assert_eq!(h.get_address_category(account("carol")), Some(Category::Sanctions));
    assert_eq!(h.owner_id().as_str(), "carol");
}

#[test]
fn many_targets_keep_their_labels() {
    let mut h = Hapi::new(account("owner"));
    let owner = account("owner");
    h.report_address(&owner, account("a1"), Category::DeFi).unwrap();
    h.report_address(&owner, account("b2"), Category::ATM).unwrap();
    h.report_address(&owner, account("c3"), Category::Theft).unwrap();
    h.report_address(&owner, account("b2"), Category::ChildAbuse).unwrap();
    assert_eq!(h.lookup(&account("a1")), Some(Category::DeFi));
    assert_eq!(h.lookup(&account("b2")), Some(Category::ChildAbuse));
    assert_eq!(h.lookup(&account("c3")), Some(Category::Theft));
    assert_eq!(h.lookup(&account("d4")), None);
}

#[test]
fn authorize_compares_identities() {
    assert_eq!(hapi::authorize(&account("carol"), &account("carol")), Ok(()));
    assert_eq!(
        hapi::authorize(&account("bob"), &account("carol")),
        Err(RegistryError::AccessDenied)
    );
}

#[test]
fn storage_prefix_is_one_byte() {
    assert_eq!(StorageKey::Reports.storage_prefix(), vec![0u8]);
}
