//! The account index of a transaction: its static keys, followed by the
//! writable and then the readonly keys that address lookup tables supplied.
//!
//! Instructions name their accounts by position in that concatenation. The
//! index borrows the three lists from the transaction record it was built
//! from and must not outlive it.
use vstd::prelude::*;

verus! {

/// The accounts of a checked token transfer with a single owner or
/// delegate.
pub struct TransferCheckedAccounts {
    /// The source account.
    pub source: [u8; 32],
    /// The token mint.
    pub mint: [u8; 32],
    /// The destination account.
    pub destination: [u8; 32],
    /// The owner or the delegate of the source account.
    pub authority: [u8; 32],
}

/// A checked token transfer with its accounts.
pub struct TransferCheckedInstruction {
    pub accounts: TransferCheckedAccounts,
    pub amount: u64,
    pub decimals: u8,
}

/// The keys that an optional list holds; an absent list holds none.
pub open spec fn segment<T>(list: Option<&[T]>) -> Seq<T> {
    match list {
        Some(keys) => keys@,
        None => Seq::empty(),
    }
}

/// Whether `account` is one of `keys`, compared as text.
pub open spec fn holds_key(keys: Seq<String>, account: Seq<char>) -> bool {
    exists|i: int| 0 <= i < keys.len() && (#[trigger] keys[i])@ == account
}

/// A key is in a concatenation exactly when it is in one of the two parts.
pub proof fn lemma_holds_key_concat(front: Seq<String>, back: Seq<String>, account: Seq<char>)
    ensures
        holds_key(front + back, account) <==> holds_key(front, account) || holds_key(
            back,
            account,
        ),
{
    let all = front + back;
    if holds_key(front, account) {
        let i = choose|i: int| 0 <= i < front.len() && (#[trigger] front[i])@ == account;
        assert(all[i] == front[i]);
    }
    if holds_key(back, account) {
        let i = choose|i: int| 0 <= i < back.len() && (#[trigger] back[i])@ == account;
        assert(all[front.len() + i] == back[i]);
    }
    if holds_key(all, account) {
        let i = choose|i: int| 0 <= i < all.len() && (#[trigger] all[i])@ == account;
        if i < front.len() {
            assert(front[i] == all[i]);
        } else {
            assert(back[i - front.len()] == all[i]);
        }
    }
}

/// The three lists of an index that has at least one loaded key.
pub struct DynamicTransactionAccounts<'a, AccountType> {
    account_keys: Option<&'a [AccountType]>,
    loaded_writable_accounts: Option<&'a [AccountType]>,
    loaded_readonly_accounts: Option<&'a [AccountType]>,
}

impl<'a, AccountType> DynamicTransactionAccounts<'a, AccountType> {
    /// The static keys, which take the first positions.
    pub closed spec fn static_keys(&self) -> Seq<AccountType> {
        segment(self.account_keys)
    }

    /// The loaded writable keys, which follow the static keys.
    pub closed spec fn writable_keys(&self) -> Seq<AccountType> {
        segment(self.loaded_writable_accounts)
    }

    /// The loaded readonly keys, which come last.
    pub closed spec fn readonly_keys(&self) -> Seq<AccountType> {
        segment(self.loaded_readonly_accounts)
    }
}

/// The account index of one transaction.
pub enum TransactionAccounts<'a, AccountType> {
    /// Only static keys.
    Static(Option<&'a [AccountType]>),
    /// Static keys and keys loaded from lookup tables.
    Dynamic(DynamicTransactionAccounts<'a, AccountType>),
}

impl<'a, AccountType> View for TransactionAccounts<'a, AccountType> {
    type V = Seq<AccountType>;

    /// Every key of the index by position: static, then writable, then
    /// readonly.
    open spec fn view(&self) -> Seq<AccountType> {
        self.static_keys() + self.writable_keys() + self.readonly_keys()
    }
}

impl<'a, AccountType> TransactionAccounts<'a, AccountType> {
    /// The static keys.
    pub open spec fn static_keys(&self) -> Seq<AccountType> {
        match self {
            TransactionAccounts::Static(keys) => segment(*keys),
            TransactionAccounts::Dynamic(d) => d.static_keys(),
        }
    }

    /// The loaded writable keys; a static index has none.
    pub open spec fn writable_keys(&self) -> Seq<AccountType> {
        match self {
            TransactionAccounts::Static(_) => Seq::empty(),
            TransactionAccounts::Dynamic(d) => d.writable_keys(),
        }
    }

    /// The loaded readonly keys; a static index has none.
    pub open spec fn readonly_keys(&self) -> Seq<AccountType> {
        match self {
            TransactionAccounts::Static(_) => Seq::empty(),
            TransactionAccounts::Dynamic(d) => d.readonly_keys(),
        }
    }

    /// Builds the index of a transaction. It is static exactly when no key
    /// was loaded: when both loaded lists are absent or empty.
    pub fn from_accounts(
        account_keys: Option<&'a [AccountType]>,
        loaded_writable_accounts: Option<&'a [AccountType]>,
        loaded_readonly_accounts: Option<&'a [AccountType]>,
    ) -> (index: Self)
        ensures
            index is Static <==> segment(loaded_writable_accounts).len() == 0 && segment(
                loaded_readonly_accounts,
            ).len() == 0,
            index is Static ==> index->Static_0 == account_keys,
            index.static_keys() == segment(account_keys),
            index.writable_keys() == segment(loaded_writable_accounts),
            index.readonly_keys() == segment(loaded_readonly_accounts),
            index@ == segment(account_keys) + segment(loaded_writable_accounts) + segment(
                loaded_readonly_accounts,
            ),
    {
        let no_readonly = match loaded_readonly_accounts {
            Some(keys) => keys.len() == 0,
            None => true,
        };
        let no_writable = match loaded_writable_accounts {
            Some(keys) => keys.len() == 0,
            None => true,
        };
        if no_readonly && no_writable {
            Self::Static(account_keys)
        } else {
            Self::Dynamic(
                DynamicTransactionAccounts {
                    account_keys,
                    loaded_writable_accounts,
                    loaded_readonly_accounts,
                },
            )
        }
    }

    /// The key at `index`, or `None` past the last key.
    pub fn get(&self, index: usize) -> (key: Option<&'a AccountType>)
        ensures
            index < self@.len() ==> key == Some(&self@[index as int]),
            index >= self@.len() ==> key is None,
    {
        match self {
            TransactionAccounts::Static(keys) => Self::segment_get(*keys, index),
            TransactionAccounts::Dynamic(d) => {
                let account_keys_len = Self::segment_len(d.account_keys);
                if index < account_keys_len {
                    return Self::segment_get(d.account_keys, index);
                }
                let next_index = index - account_keys_len;
                let writable_len = Self::segment_len(d.loaded_writable_accounts);
                if next_index < writable_len {
                    return Self::segment_get(d.loaded_writable_accounts, next_index);
                }
                let next_index = next_index - writable_len;
                Self::segment_get(d.loaded_readonly_accounts, next_index)
            },
        }
    }

    /// The number of keys in the index.
    pub fn accounts_num(&self) -> (num: usize)
        requires
            self@.len() <= usize::MAX,
        ensures
            num == self@.len(),
    {
        match self {
            TransactionAccounts::Static(keys) => Self::segment_len(*keys),
            TransactionAccounts::Dynamic(d) => {
                let accounts_len = Self::segment_len(d.account_keys);
                let write_len = Self::segment_len(d.loaded_writable_accounts);
                let read_len = Self::segment_len(d.loaded_readonly_accounts);
                accounts_len + write_len + read_len
            },
        }
    }

    /// Every key of the index, in the order of their positions.
    pub fn all_accounts(&self) -> (all: Vec<&AccountType>)
        ensures
            all@.len() == self@.len(),
            forall|i: int| 0 <= i < all@.len() ==> *(#[trigger] all@[i]) == self@[i],
    {
        let mut ret: Vec<&AccountType> = Vec::new();
        match self {
            TransactionAccounts::Static(keys) => {
                Self::push_segment(&mut ret, *keys);
            },
            TransactionAccounts::Dynamic(d) => {
                Self::push_segment(&mut ret, d.account_keys);
                Self::push_segment(&mut ret, d.loaded_writable_accounts);
                Self::push_segment(&mut ret, d.loaded_readonly_accounts);
            },
        }
        ret
    }

    /// The length of an optional list.
    fn segment_len(list: Option<&'a [AccountType]>) -> (len: usize)
        ensures
            len == segment(list).len(),
    {
        match list {
            Some(keys) => keys.len(),
            None => 0,
        }
    }

    /// The key at `index` of an optional list.
    fn segment_get(list: Option<&'a [AccountType]>, index: usize) -> (key: Option<&'a AccountType>)
        ensures
            index < segment(list).len() ==> key == Some(&segment(list)[index as int]),
            index >= segment(list).len() ==> key is None,
    {
        match list {
            Some(keys) => if index < keys.len() {
                Some(&keys[index])
            } else {
                None
            },
            None => None,
        }
    }

    /// Appends a reference to each key of an optional list.
    fn push_segment<'b>(ret: &mut Vec<&'b AccountType>, list: Option<&'b [AccountType]>)
        ensures
            final(ret)@.len() == old(ret)@.len() + segment(list).len(),
            forall|i: int| 0 <= i < old(ret)@.len() ==> final(ret)@[i] == old(ret)@[i],
            forall|i: int|
                old(ret)@.len() <= i < final(ret)@.len() ==> *(#[trigger] final(ret)@[i]) == segment(
                    list,
                )[i - old(ret)@.len()],
    {
        if let Some(keys) = list {
            let mut i: usize = 0;
            while i < keys.len()
                invariant
                    i <= keys@.len(),
                    ret@.len() == old(ret)@.len() + i,
                    forall|j: int| 0 <= j < old(ret)@.len() ==> ret@[j] == old(ret)@[j],
                    forall|j: int|
                        old(ret)@.len() <= j < ret@.len() ==> *(#[trigger] ret@[j]) == keys@[j
                            - old(ret)@.len()],
                decreases keys@.len() - i,
            {
                ret.push(&keys[i]);
                i += 1;
            }
        }
    }
}

impl<'a> TransactionAccounts<'a, String> {
    /// Whether `account` is a key of the index, whatever its position.
    pub open spec fn holds(&self, account: Seq<char>) -> bool {
        holds_key(self.static_keys(), account) || holds_key(self.writable_keys(), account)
            || holds_key(self.readonly_keys(), account)
    }

    /// A key is in the index exactly when it stands at one of its
    /// positions: `contains` finds what `all_accounts` lists, and nothing
    /// else.
    pub proof fn lemma_holds_iff_listed(&self, account: Seq<char>)
        ensures
            self.holds(account) <==> holds_key(self@, account),
    {
        lemma_holds_key_concat(self.static_keys(), self.writable_keys(), account);
        lemma_holds_key_concat(
            self.static_keys() + self.writable_keys(),
            self.readonly_keys(),
            account,
        );
    }

    /// What `contains` returns for a key is whether the key is among what
    /// `all_accounts` returns.
    pub proof fn lemma_contains_agrees_with_all_accounts(
        &self,
        account: &String,
        found: bool,
        all: Seq<&String>,
    )
        requires
            found == self.holds(account@),
            all.len() == self@.len(),
            forall|i: int| 0 <= i < all.len() ==> *(#[trigger] all[i]) == self@[i],
        ensures
            found <==> exists|i: int| 0 <= i < all.len() && (#[trigger] all[i])@ == account@,
    {
        self.lemma_holds_iff_listed(account@);
        if found {
            let i = choose|i: int| 0 <= i < self@.len() && (#[trigger] self@[i])@ == account@;
            assert(all[i]@ == account@);
        }
        if exists|i: int| 0 <= i < all.len() && (#[trigger] all[i])@ == account@ {
            let i = choose|i: int| 0 <= i < all.len() && (#[trigger] all[i])@ == account@;
        }
    }

    /// Looks for `account` in the static, the writable and the readonly
    /// keys, in that order.
    pub fn contains(&self, account: &String) -> (found: bool)
        ensures
            found == self.holds(account@),
    {
        match self {
            TransactionAccounts::Static(keys) => match keys {
                Some(keys) => Self::slice_contains(keys, account),
                None => false,
            },
            TransactionAccounts::Dynamic(d) => {
                if let Some(accounts) = d.account_keys {
                    if Self::slice_contains(accounts, account) {
                        return true;
                    }
                }
                if let Some(loaded_writable_accounts) = d.loaded_writable_accounts {
                    if Self::slice_contains(loaded_writable_accounts, account) {
                        return true;
                    }
                }
                if let Some(loaded_readonly_accounts) = d.loaded_readonly_accounts {
                    if Self::slice_contains(loaded_readonly_accounts, account) {
                        return true;
                    }
                }
                false
            },
        }
    }

    /// Whether `account` is one of the keys of `slice`.
    pub fn slice_contains(slice: &[String], account: &String) -> (found: bool)
        ensures
            found == holds_key(slice@, account@),
    {
        let mut i: usize = 0;
        while i < slice.len()
            invariant
                i <= slice@.len(),
                forall|j: int| 0 <= j < i ==> (#[trigger] slice@[j])@ != account@,
            decreases slice@.len() - i,
        {
            if slice[i] == *account {
                return true;
            }
            i += 1;
        }
        false
    }
}

} // verus!
