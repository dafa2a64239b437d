use vstd::prelude::*;

verus! {

/// A 32-byte account identity (a public key or a derived address).
#[derive(Clone, Copy, Debug)]
pub struct Pubkey {
    pub bytes: [u8; 32],
}

impl Pubkey {
    pub fn new(bytes: [u8; 32]) -> (r: Pubkey)
        ensures
            r.bytes == bytes,
    {
        Pubkey { bytes }
    }

    /// Byte-wise comparison of two identities.
    pub fn same(&self, other: &Pubkey) -> (r: bool)
        ensures
            r == (*self == *other),
    {
        let mut i: usize = 0;
        while i < 32
            invariant
                0 <= i <= 32,
                forall|j: int| 0 <= j < i ==> self.bytes[j] == other.bytes[j],
            decreases 32 - i,
        {
            if self.bytes[i] != other.bytes[i] {
                return false;
            }
            i = i + 1;
        }
        proof {
            assert(self.bytes =~= other.bytes);
        }
        true
    }
}

impl PartialEq for Pubkey {
    fn eq(&self, other: &Pubkey) -> (r: bool) {
        self.same(other)
    }
}

impl vstd::std_specs::cmp::PartialEqSpecImpl for Pubkey {
    open spec fn obeys_eq_spec() -> bool {
        true
    }

    open spec fn eq_spec(&self, other: &Pubkey) -> bool {
        *self == *other
    }
}

impl Eq for Pubkey {
}

/// The token account view the vault logic reads: where it lives, who owns
/// it, which asset it holds and its balance.
#[derive(Clone, Copy, Debug, PartialEq, Eq)]
pub struct TokenAccount {
    pub address: Pubkey,
    pub owner: Pubkey,
    pub mint: Pubkey,
    pub amount: u64,
}

/// Persistent accounting state of one vault (one per owner and asset).
#[derive(Clone, Copy, Debug, PartialEq, Eq)]
pub struct VaultState {
    /// The only signer allowed to deposit and withdraw freely.
    pub owner: Pubkey,
    /// The asset this vault accepts.
    pub mint: Pubkey,
    /// The custody account that holds the vault's balance.
    pub vault_ata: Pubkey,
    /// Lifetime deposits.
    pub total_deposited: u64,
    /// Lifetime withdrawals, by the owner and by delegates.
    pub total_withdrawn: u64,
    /// Largest single deposit (0 = unlimited).
    pub max_deposit: u64,
    /// Largest amount the owner may withdraw in one window (0 = unlimited).
    pub daily_withdraw_limit: u64,
    /// Amount the owner has withdrawn in the current window.
    pub withdrawn_today: u64,
    /// Start of the current window, in seconds.
    pub window_start: i64,
    /// Bump of the vault's derived signing authority.
    pub bump: u8,
    /// Reentrancy guard: set while a transfer is in flight.
    pub locked: bool,
}

impl VaultState {
    /// The daily counter stays within a configured limit.
    pub open spec fn wf(&self) -> bool {
        self.daily_withdraw_limit > 0 ==> self.withdrawn_today <= self.daily_withdraw_limit
    }
}

/// Withdrawal rights granted to one delegate of one vault.
#[derive(Clone, Copy, Debug, PartialEq, Eq)]
pub struct DelegateRecord {
    /// Address of the vault state this grant belongs to.
    pub vault: Pubkey,
    /// The grantee.
    pub delegate: Pubkey,
    /// Largest cumulative amount the delegate may withdraw.
    pub allowance: u64,
    /// Cumulative amount already withdrawn.
    pub used: u64,
    /// Time from which the grant is void, in seconds.
    pub expires_at: i64,
    pub bump: u8,
}

impl DelegateRecord {
    /// Usage never passes the allowance.
    pub open spec fn wf(&self) -> bool {
        self.used <= self.allowance
    }
}

/// A token movement that the vault asks the transfer substrate to perform.
#[derive(Clone, Copy, Debug, PartialEq, Eq)]
pub struct Transfer {
    pub from: Pubkey,
    pub to: Pubkey,
    /// Who authorises the movement.
    pub authority: Pubkey,
    /// True when the authority is the vault's own derived address, which
    /// signs with the seeds of `owner`, `mint` and `bump`.
    pub vault_signs: bool,
    pub amount: u64,
}

} // verus!
