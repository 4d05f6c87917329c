//! Accounts of Solana programs, read without copying their data.

use vstd::prelude::*;

verus! {

/// The state of a bet account, as it is serialized for clients.
#[derive(Debug, Copy, Clone, PartialEq, Eq, Structural)]
pub enum SerializedBetState {
    Uninitialized,
    Initiated,
    Applied,
    Won,
}

/// The state of a challenge account, as it is serialized for clients.
#[derive(Debug, Copy, Clone, PartialEq, Eq, Structural)]
pub enum SerializedChallengeState {
    Uninitialized,
    Initiated,
    Active,
}

/// The address of a Solana account.
pub type Pubkey = [u8; 32];

/// A Solana account as the chain returns it.
pub struct SolanaAccount {
    pub lamports: u64,
    pub data: Vec<u8>,
    pub owner: Pubkey,
    pub executable: bool,
    pub rent_epoch: u64,
}

/// An account of a program whose data starts with the 8-byte discriminator
/// of its type, followed by the value itself.
pub struct SolanaProgramAccount {
    account: SolanaAccount,
}

/// Whether two addresses are equal.
pub fn pubkey_eq(a: &Pubkey, b: &Pubkey) -> (r: bool)
    ensures
        r == (a@ == b@),
{
    let mut i: usize = 0;
    while i < 32
        invariant
            0 <= i <= 32,
            forall|j: int| 0 <= j < i ==> a@[j] == b@[j],
        decreases 32 - i,
    {
        if a[i] != b[i] {
            return false;
        }
        i = i + 1;
    }
    assert(a@ =~= b@);
    true
}

impl SolanaProgramAccount {
    /// The data of the account.
    pub closed spec fn data(&self) -> Seq<u8> {
        self.account.data@
    }

    /// The owner of the account.
    pub closed spec fn owner(&self) -> Seq<u8> {
        self.account.owner@
    }

    /// The whole account.
    pub closed spec fn account_view(&self) -> SolanaAccount {
        self.account
    }

    // CONSTRUCTORS -----------------------------------------------------------

    pub fn new(account: SolanaAccount) -> (r: SolanaProgramAccount)
        ensures
            r.account_view() == account,
            r.data() == account.data@,
            r.owner() == account.owner@,
    {
        SolanaProgramAccount { account }
    }

    // GETTERS ----------------------------------------------------------------

    pub fn account(&self) -> (r: &SolanaAccount)
        ensures
            *r == self.account_view(),
            r.data@ == self.data(),
            r.owner@ == self.owner(),
    {
        &self.account
    }

    // METHODS ----------------------------------------------------------------

    /// The bytes of the value this account holds, when the account starts
    /// with `discriminator`; `None` when it holds a value of another type.
    /// An account of the type holds exactly `size` bytes after the
    /// discriminator.
    pub fn load_data(&self, discriminator: &[u8; 8], size: usize) -> (r: Option<&[u8]>)
        requires
            self.data().len() >= 8,
            self.data().subrange(0, 8) == discriminator@ ==> self.data().len() == 8 + size,
        ensures
            r is Some <==> self.data().subrange(0, 8) == discriminator@,
            r matches Some(bytes) ==> bytes@ == self.data().subrange(8, self.data().len() as int),
    {
        let data = self.account.data.as_slice();
        let mut i: usize = 0;
        while i < 8
            invariant
                0 <= i <= 8,
                data@ == self.data(),
                data@.len() >= 8,
                forall|j: int| 0 <= j < i ==> data@[j] == discriminator@[j],
            decreases 8 - i,
        {
            if data[i] != discriminator[i] {
                assert(data@.subrange(0, 8)[i as int] != discriminator@[i as int]);
                return None;
            }
            i = i + 1;
        }
        assert(data@.subrange(0, 8) =~= discriminator@);
        let (_, payload) = data.split_at(8);
        Some(payload)
    }
}

/// Pairs each requested address with its account, keeping only the accounts
/// that `program` owns; the pairs stop with the shorter of the two lists.
pub fn accounts_owned_by(
    keys: Vec<Pubkey>,
    accounts: Vec<Option<SolanaAccount>>,
    program: &Pubkey,
) -> (r: Vec<Option<(Pubkey, SolanaProgramAccount)>>)
    ensures
        r@.len() == if keys@.len() <= accounts@.len() { keys@.len() } else { accounts@.len() },
        forall|i: int| 0 <= i < r@.len() ==> match #[trigger] r@[i] {
            Some((key, account)) => {
                &&& key == keys@[i]
                &&& accounts@[i] matches Some(a) && a.owner@ == program@
                &&& account.account_view() == accounts@[i]->Some_0
                &&& account.owner() == program@
            },
            None => accounts@[i] matches Some(a) ==> a.owner@ != program@,
        },
{
    let n = if keys.len() <= accounts.len() { keys.len() } else { accounts.len() };
    let ghost keys0 = keys@;
    let ghost accounts0 = accounts@;
    let mut result: Vec<Option<(Pubkey, SolanaProgramAccount)>> = Vec::new();
    let mut keys = keys;
    let mut accounts = accounts;
    let mut i: usize = 0;
    while i < n
        invariant
            n == if keys0.len() <= accounts0.len() { keys0.len() } else { accounts0.len() },
            0 <= i <= n,
            keys@ == keys0.subrange(i as int, keys0.len() as int),
            accounts@ == accounts0.subrange(i as int, accounts0.len() as int),
            result@.len() == i,
            forall|j: int| 0 <= j < i ==> match #[trigger] result@[j] {
                Some((key, account)) => {
                    &&& key == keys0[j]
                    &&& accounts0[j] matches Some(a) && a.owner@ == program@
                    &&& account.account_view() == accounts0[j]->Some_0
                    &&& account.owner() == program@
                },
                None => accounts0[j] matches Some(a) ==> a.owner@ != program@,
            },
        decreases n - i,
    {
        let key = keys.remove(0);
        let account = accounts.remove(0);
        let item = match account {
            Some(account) => {
                if pubkey_eq(&account.owner, program) {
                    Some((key, SolanaProgramAccount::new(account)))
                } else {
                    None
                }
            },
            None => None,
        };
        result.push(item);
        i = i + 1;
    }
    result
}

} // verus!
