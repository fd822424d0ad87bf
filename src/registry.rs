//! The registry: one owner who may label accounts, and unrestricted lookup.

use vstd::prelude::*;

use crate::account::AccountId;
use crate::category::Category;

verus! {

/// Why a registry operation was refused.
#[derive(Clone, Copy, Debug, PartialEq, Eq, Structural)]
pub enum RegistryError {
    /// The registry has not been initialized yet.
    NotInitialized,
    /// The registry was initialized before.
    AlreadyInitialized,
    /// Only the owner may write labels.
    AccessDenied,
}

/// Keys of the persistent collections the registry keeps in host storage.
#[derive(Clone, Copy, Debug, PartialEq, Eq, Structural)]
pub enum StorageKey {
    /// The account-to-category labels.
    Reports,
}

impl StorageKey {
    /// The storage prefix of the collection: the key's index as one byte.
    pub fn storage_prefix(&self) -> (r: Vec<u8>)
        ensures
            r@ == seq![0u8],
    {
        let mut r: Vec<u8> = Vec::new();
        match self {
            StorageKey::Reports => r.push(0),
        }
        assert(r@ =~= seq![0u8]);
        r
    }
}

/// The label of `k` in `labels`, or `None` if it has none.
pub open spec fn label_of(labels: Map<Seq<char>, Category>, k: Seq<char>) -> Option<Category> {
    if labels.contains_key(k) {
        Some(labels[k])
    } else {
        None
    }
}

/// The outcome of the access check: only the owner may write.
pub open spec fn authorization(caller: Seq<char>, owner: Seq<char>) -> Result<(), RegistryError> {
    if caller == owner {
        Ok(())
    } else {
        Err(RegistryError::AccessDenied)
    }
}

/// The labels after `caller` reports `target` as `category`: the owner's report
/// replaces any earlier label of `target`; anyone else's changes nothing.
pub open spec fn labels_after_report(
    owner: Seq<char>,
    labels: Map<Seq<char>, Category>,
    caller: Seq<char>,
    target: Seq<char>,
    category: Category,
) -> Map<Seq<char>, Category> {
    if caller == owner {
        labels.insert(target, category)
    } else {
        labels
    }
}

/// The labels of a fresh registry of `owner` after the reports in `calls`, each
/// given as caller, target and category, in order.
pub open spec fn labels_after_reports(
    owner: Seq<char>,
    calls: Seq<(Seq<char>, Seq<char>, Category)>,
) -> Map<Seq<char>, Category>
    decreases calls.len(),
{
    if calls.len() == 0 {
        Map::empty()
    } else {
        let last = calls.last();
        labels_after_report(
            owner,
            labels_after_reports(owner, calls.drop_last()),
            last.0,
            last.1,
            last.2,
        )
    }
}

/// Checks that `caller_id` is the owner.
pub fn authorize(caller_id: &AccountId, owner_id: &AccountId) -> (r: Result<(), RegistryError>)
    ensures
        r == authorization(caller_id@, owner_id@),
{
    if caller_id.same_as(owner_id) {
        Ok(())
    } else {
        Err(RegistryError::AccessDenied)
    }
}

/// An active registry: its owner and the label of each reported account.
pub struct Hapi {
    owner_id: AccountId,
    reports: Vec<(AccountId, Category)>,
    labels: Ghost<Map<Seq<char>, Category>>,
}

impl Hapi {
    /// The owner, the one account that may write labels.
    pub closed spec fn owner(&self) -> Seq<char> {
        self.owner_id@
    }

    /// The label of each account that has one.
    pub closed spec fn labels(&self) -> Map<Seq<char>, Category> {
        self.labels@
    }

    /// The stored pairs have distinct accounts and hold exactly `labels`.
    pub closed spec fn wf(&self) -> bool {
        &&& forall|i: int, j: int|
            0 <= i < j < self.reports@.len() ==> (#[trigger] self.reports@[i]).0@
                != (#[trigger] self.reports@[j]).0@
        &&& forall|i: int|
            0 <= i < self.reports@.len() ==> self.labels@.contains_key(
                (#[trigger] self.reports@[i]).0@,
            ) && self.labels@[self.reports@[i].0@] == self.reports@[i].1
        &&& forall|k: Seq<char>|
            #[trigger] self.labels@.contains_key(k) ==> exists|i: int|
                0 <= i < self.reports@.len() && (#[trigger] self.reports@[i]).0@ == k
    }

    /// A registry owned by `owner_id`, with no labels.
    pub fn new(owner_id: AccountId) -> (r: Hapi)
        ensures
            r.wf(),
            r.owner() == owner_id@,
            r.labels() == Map::<Seq<char>, Category>::empty(),
    {
        Hapi { owner_id, reports: Vec::new(), labels: Ghost(Map::empty()) }
    }

    /// The owner's identifier.
    pub fn owner_id(&self) -> (r: &AccountId)
        ensures
            r@ == self.owner(),
    {
        &self.owner_id
    }

    /// Where `account_id` is stored, if it has a label.
    fn position_of(&self, account_id: &AccountId) -> (r: Option<usize>)
        requires
            self.wf(),
        ensures
            match r {
                Some(i) => i < self.reports@.len() && self.reports@[i as int].0@ == account_id@,
                None => !self.labels().contains_key(account_id@),
            },
    {
        let mut i: usize = 0;
        while i < self.reports.len()
            invariant
                i <= self.reports@.len(),
                forall|j: int| 0 <= j < i ==> (#[trigger] self.reports@[j]).0@ != account_id@,
            decreases self.reports@.len() - i,
        {
            if self.reports[i].0.same_as(account_id) {
                return Some(i);
            }
            i = i + 1;
        }
        None
    }

    /// The label of `account_id`, or `None` if it was never reported.
    pub fn lookup(&self, account_id: &AccountId) -> (r: Option<Category>)
        requires
            self.wf(),
        ensures
            r == label_of(self.labels(), account_id@),
    {
        match self.position_of(account_id) {
            Some(i) => Some(self.reports[i].1),
            None => None,
        }
    }

    /// The label of `account_id`, or `None` if it was never reported.
    pub fn get_address_category(&self, account_id: AccountId) -> (r: Option<Category>)
        requires
            self.wf(),
        ensures
            r == label_of(self.labels(), account_id@),
    {
        self.lookup(&account_id)
    }

    /// `caller_id` labels `account_id` as `category`, replacing any earlier label.
    /// Anyone but the owner is refused with `AccessDenied`, and nothing changes.
    pub fn report_address(
        &mut self,
        caller_id: &AccountId,
        account_id: AccountId,
        category: Category,
    ) -> (r: Result<(), RegistryError>)
        requires
            old(self).wf(),
        ensures
            final(self).wf(),
            final(self).owner() == old(self).owner(),
            r == authorization(caller_id@, old(self).owner()),
            final(self).labels() == labels_after_report(
                old(self).owner(),
                old(self).labels(),
                caller_id@,
                account_id@,
                category,
            ),
    {
        authorize(caller_id, &self.owner_id)?;
        let ghost key = account_id@;
        let ghost before = self.reports@;
        let ghost mut w: int = 0;
        match self.position_of(&account_id) {
            Some(i) => {
                self.reports.set(i, (account_id, category));
                proof {
                    w = i as int;
                }
            },
            None => {
                proof {
                    w = before.len() as int;
                }
                self.reports.push((account_id, category));
            },
        }
        self.labels = Ghost(self.labels@.insert(key, category));
        proof {
            assert(self.reports@[w].0@ == key);
            assert forall|k: Seq<char>| #[trigger] self.labels@.contains_key(k) implies exists|
                j: int,
            | 0 <= j < self.reports@.len() && (#[trigger] self.reports@[j]).0@ == k by {
                if k != key {
                    let j = choose|j: int|
                        0 <= j < before.len() && (#[trigger] before[j]).0@ == k;
                    assert(self.reports@[j] == before[j]);
                }
            }
        }
        Ok(())
    }
}

/// A registry through its lifecycle: uninitialized until `initialize`, active after.
pub struct Registry {
    state: Option<Hapi>,
}

impl Registry {
    /// Whether `initialize` has succeeded.
    pub closed spec fn is_active(&self) -> bool {
        self.state is Some
    }

    /// The owner of an active registry.
    pub closed spec fn owner(&self) -> Seq<char> {
        self.state->0.owner()
    }

    /// The labels of an active registry.
    pub closed spec fn labels(&self) -> Map<Seq<char>, Category> {
        self.state->0.labels()
    }

    /// The state of an active registry is well formed.
    pub closed spec fn wf(&self) -> bool {
        self.state is Some ==> self.state->0.wf()
    }

    /// A registry awaiting initialization.
    pub fn uninitialized() -> (r: Registry)
        ensures
            r.wf(),
            !r.is_active(),
    {
        Registry { state: None }
    }

    /// Makes the registry active with owner `owner_id` and no labels.
    /// A second call fails with `AlreadyInitialized` and changes nothing.
    pub fn initialize(&mut self, owner_id: AccountId) -> (r: Result<(), RegistryError>)
        requires
            old(self).wf(),
        ensures
            final(self).wf(),
            old(self).is_active() ==> r == Err::<(), RegistryError>(RegistryError::AlreadyInitialized)
                && final(self).is_active() && final(self).owner() == old(self).owner()
                && final(self).labels() == old(self).labels(),
            !old(self).is_active() ==> r == Ok::<(), RegistryError>(()) && final(self).is_active()
                && final(self).owner() == owner_id@ && final(self).labels() == Map::<
                Seq<char>,
                Category,
            >::empty(),
    {
        if self.state.is_some() {
            return Err(RegistryError::AlreadyInitialized);
        }
        self.state = Some(Hapi::new(owner_id));
        Ok(())
    }

    /// `caller_id` labels `target_id` as `category`, as `Hapi::report_address` does;
    /// before initialization it fails with `NotInitialized` and changes nothing.
    pub fn report(&mut self, caller_id: &AccountId, target_id: AccountId, category: Category) -> (r:
        Result<(), RegistryError>)
        requires
            old(self).wf(),
        ensures
            final(self).wf(),
            final(self).is_active() == old(self).is_active(),
            !old(self).is_active() ==> r == Err::<(), RegistryError>(RegistryError::NotInitialized),
            old(self).is_active() ==> r == authorization(caller_id@, old(self).owner())
                && final(self).owner() == old(self).owner() && final(self).labels()
                == labels_after_report(
                old(self).owner(),
                old(self).labels(),
                caller_id@,
                target_id@,
                category,
            ),
    {
        match &mut self.state {
            Some(h) => h.report_address(caller_id, target_id, category),
            None => Err(RegistryError::NotInitialized),
        }
    }

    /// The label of `target_id`; before initialization it fails with `NotInitialized`.
    pub fn lookup(&self, target_id: &AccountId) -> (r: Result<Option<Category>, RegistryError>)
        requires
            self.wf(),
        ensures
            !self.is_active() ==> r == Err::<Option<Category>, RegistryError>(
                RegistryError::NotInitialized,
            ),
            self.is_active() ==> r == Ok::<Option<Category>, RegistryError>(
                label_of(self.labels(), target_id@),
            ),
    {
        match &self.state {
            Some(h) => Ok(h.lookup(target_id)),
            None => Err(RegistryError::NotInitialized),
        }
    }

    /// The owner's identifier; before initialization it fails with `NotInitialized`.
    pub fn owner_id(&self) -> (r: Result<&AccountId, RegistryError>)
        ensures
            !self.is_active() ==> r == Err::<&AccountId, RegistryError>(
                RegistryError::NotInitialized,
            ),
            self.is_active() ==> r is Ok && r->Ok_0@ == self.owner(),
    {
        match &self.state {
            Some(h) => Ok(h.owner_id()),
            None => Err(RegistryError::NotInitialized),
        }
    }
}

/// An account that no successful report has named has no label: for any reports
/// made on a fresh registry, if none by the owner targets `target`, `target`
/// remains unlabelled.
pub proof fn lemma_unreported_has_no_label(
    owner: Seq<char>,
    calls: Seq<(Seq<char>, Seq<char>, Category)>,
    target: Seq<char>,
)
    requires
        forall|i: int| 0 <= i < calls.len() && (#[trigger] calls[i]).0 == owner ==> calls[i].1 != target,
    ensures
        label_of(labels_after_reports(owner, calls), target) is None,
    decreases calls.len(),
{
    if calls.len() > 0 {
        let rest = calls.drop_last();
        assert forall|i: int| 0 <= i < rest.len() && (#[trigger] rest[i]).0 == owner implies rest[i].1
            != target by {
            assert(rest[i] == calls[i]);
        }
        lemma_unreported_has_no_label(owner, rest, target);
        assert(calls.last() == calls[calls.len() - 1]);
    }
}

/// A report by the owner is read back at once: the target's label is the
/// category just reported.
pub proof fn lemma_read_after_write(
    owner: Seq<char>,
    labels: Map<Seq<char>, Category>,
    target: Seq<char>,
    category: Category,
)
    ensures
        authorization(owner, owner) is Ok,
        label_of(labels_after_report(owner, labels, owner, target, category), target) == Some(
            category,
        ),
{
}

/// A report by anyone but the owner is refused with `AccessDenied` and leaves
/// every label as it was.
pub proof fn lemma_non_owner_denied(
    owner: Seq<char>,
    labels: Map<Seq<char>, Category>,
    caller: Seq<char>,
    target: Seq<char>,
    category: Category,
)
    requires
        caller != owner,
    ensures
        authorization(caller, owner) == Err::<(), RegistryError>(RegistryError::AccessDenied),
        labels_after_report(owner, labels, caller, target, category) == labels,
        forall|k: Seq<char>|
            label_of(#[trigger] labels_after_report(owner, labels, caller, target, category), k)
                == label_of(labels, k),
{
}

/// The last report wins: two reports by the owner on one target leave the labels
/// as the second alone would, and the target reads as the second category.
pub proof fn lemma_last_report_wins(
    owner: Seq<char>,
    labels: Map<Seq<char>, Category>,
    target: Seq<char>,
    first: Category,
    second: Category,
)
    ensures
        labels_after_report(
            owner,
            labels_after_report(owner, labels, owner, target, first),
            owner,
            target,
            second,
        ) == labels_after_report(owner, labels, owner, target, second),
        label_of(
            labels_after_report(
                owner,
                labels_after_report(owner, labels, owner, target, first),
                owner,
                target,
                second,
            ),
            target,
        ) == Some(second),
{
    assert(labels.insert(target, first).insert(target, second) =~= labels.insert(target, second));
}

} // verus!
