//! The order record: the durable representation of a committed intent.
//!
//! An [`OrderIntent`] is the owner's declared exchange: sell a fixed amount
//! of one token for a buy amount that decays from a ceiling to a floor over
//! an auction window. An [`Order`] is the persisted record of a committed
//! intent together with its lifecycle flag and the identity entitled to the
//! storage deposit refund.

use vstd::prelude::*;

verus! {

/// A 32-byte account address.
pub type Pubkey = [u8; 32];

/// Marks types with a fixed serialized length.
pub trait DataLen {
    /// The exact number of bytes of the type's canonical encoding.
    spec fn spec_len() -> usize;

    /// Executable access to the same length.
    fn data_len() -> (n: usize)
        ensures
            n == Self::spec_len(),
    ;
}

/// Marks records that carry a lifecycle flag.
pub trait Initialized {
    /// Whether the record's lifecycle flag is set.
    fn is_initialized(&self) -> bool;
}

/// Compares two account addresses byte for byte.
pub fn pubkey_eq(a: &Pubkey, b: &Pubkey) -> (r: bool)
    ensures
        r <==> a@ == b@,
{
    let mut i: usize = 0;
    while i < 32
        invariant
            i <= 32,
            forall|j: int| 0 <= j < i ==> a@[j] == b@[j],
        decreases 32 - i,
    {
        if a[i] != b[i] {
            return false;
        }
        i += 1;
    }
    proof {
        assert(a@ =~= b@);
    }
    true
}

/// The mathematical value of an [`OrderIntent`].
#[verifier::ext_equal]
pub ghost struct OrderIntentV {
    pub owner: Seq<u8>,
    pub sell_token: Seq<u8>,
    pub buy_token: Seq<u8>,
    pub from_token_account: Seq<u8>,
    pub to_token_account: Seq<u8>,
    pub sell_amount: u64,
    pub buy_amount_ceiling: u64,
    pub buy_amount_floor: u64,
    pub referral_fee: u64,
    pub referral_token_account: Seq<u8>,
    pub start_time: u64,
    pub deadline: u64,
}

impl OrderIntentV {
    /// Every address field is exactly 32 bytes.
    pub open spec fn wf(self) -> bool {
        &&& self.owner.len() == 32
        &&& self.sell_token.len() == 32
        &&& self.buy_token.len() == 32
        &&& self.from_token_account.len() == 32
        &&& self.to_token_account.len() == 32
        &&& self.referral_token_account.len() == 32
    }

    /// The auction schedule is well formed: the ceiling is at least the
    /// floor and the deadline lies strictly after the start.
    pub open spec fn valid_window(self) -> bool {
        &&& self.buy_amount_floor <= self.buy_amount_ceiling
        &&& self.start_time < self.deadline
    }
}

/// An owner's declared want: sell `sell_amount` of `sell_token` from
/// `from_token_account`, in exchange for a decaying buy amount of
/// `buy_token` delivered to `to_token_account`.
#[derive(Clone, Copy, Debug)]
pub struct OrderIntent {
    /// The identity that committed (and may cancel) the order.
    pub owner: Pubkey,
    /// The token being sold.
    pub sell_token: Pubkey,
    /// The token being bought.
    pub buy_token: Pubkey,
    /// The account the sell-side funds come from (escrow custody while the
    /// order is committed).
    pub from_token_account: Pubkey,
    /// The account the bought funds must be delivered to.
    pub to_token_account: Pubkey,
    /// The fixed quantity offered.
    pub sell_amount: u64,
    /// The most generous buy amount, required before the auction starts.
    pub buy_amount_ceiling: u64,
    /// The minimum acceptable buy amount, required from the deadline on.
    pub buy_amount_floor: u64,
    /// Referral reward paid out of a successful settlement; ignored if zero.
    pub referral_fee: u64,
    /// Where the referral reward goes.
    pub referral_token_account: Pubkey,
    /// Auction start, in monotonic clock units.
    pub start_time: u64,
    /// Auction deadline, strictly after the start.
    pub deadline: u64,
}

impl View for OrderIntent {
    type V = OrderIntentV;

    open spec fn view(&self) -> OrderIntentV {
        OrderIntentV {
            owner: self.owner@,
            sell_token: self.sell_token@,
            buy_token: self.buy_token@,
            from_token_account: self.from_token_account@,
            to_token_account: self.to_token_account@,
            sell_amount: self.sell_amount,
            buy_amount_ceiling: self.buy_amount_ceiling,
            buy_amount_floor: self.buy_amount_floor,
            referral_fee: self.referral_fee,
            start_time: self.start_time,
            deadline: self.deadline,
            referral_token_account: self.referral_token_account@,
        }
    }
}

impl OrderIntent {
    /// Executable check of the auction-window rule.
    pub fn has_valid_window(&self) -> (r: bool)
        ensures
            r == self@.valid_window(),
    {
        self.buy_amount_floor <= self.buy_amount_ceiling && self.start_time < self.deadline
    }
}

/// Compares two intents field by field.
pub fn intent_eq(a: &OrderIntent, b: &OrderIntent) -> (r: bool)
    ensures
        r <==> a@ == b@,
{
    let r = pubkey_eq(&a.owner, &b.owner) && pubkey_eq(&a.sell_token, &b.sell_token)
        && pubkey_eq(&a.buy_token, &b.buy_token)
        && pubkey_eq(&a.from_token_account, &b.from_token_account)
        && pubkey_eq(&a.to_token_account, &b.to_token_account)
        && a.sell_amount == b.sell_amount && a.buy_amount_ceiling == b.buy_amount_ceiling
        && a.buy_amount_floor == b.buy_amount_floor && a.referral_fee == b.referral_fee
        && pubkey_eq(&a.referral_token_account, &b.referral_token_account)
        && a.start_time == b.start_time && a.deadline == b.deadline;
    r
}

/// The mathematical value of an [`Order`] record.
#[verifier::ext_equal]
pub ghost struct OrderV {
    pub is_initialized: bool,
    pub intent: OrderIntentV,
    pub rent_payer: Seq<u8>,
}

impl OrderV {
    /// A record as it may legitimately exist in storage: flag set, addresses
    /// the right size, auction window well formed.
    pub open spec fn wf(self) -> bool {
        &&& self.is_initialized
        &&& self.intent.wf()
        &&& self.rent_payer.len() == 32
        &&& self.intent.valid_window()
    }
}

/// The durable record of a committed intent.
#[derive(Clone, Copy, Debug)]
pub struct Order {
    /// Lifecycle flag: set exactly while the order is committed.
    pub is_initialized: bool,
    /// The committed intent, byte-identical to what was advertised.
    pub intent: OrderIntent,
    /// The identity entitled to the storage-deposit refund on close.
    pub rent_payer: Pubkey,
}

impl View for Order {
    type V = OrderV;

    open spec fn view(&self) -> OrderV {
        OrderV {
            is_initialized: self.is_initialized,
            intent: self.intent@,
            rent_payer: self.rent_payer@,
        }
    }
}

impl Initialized for Order {
    /// Whether the record's lifecycle flag is set.
    fn is_initialized(&self) -> (r: bool)
        ensures
            r == self@.is_initialized,
    {
        self.is_initialized
    }
}

impl Order {
    /// Writes a fresh committed record for `intent`, funded by `rent_payer`.
    pub fn init(&mut self, intent: OrderIntent, rent_payer: Pubkey)
        ensures
            final(self)@ == (OrderV {
                is_initialized: true,
                intent: intent@,
                rent_payer: rent_payer@,
            }),
    {
        self.is_initialized = true;
        self.intent = intent;
        self.rent_payer = rent_payer;
    }
}

/// Compares two records field by field.
pub fn order_eq(a: &Order, b: &Order) -> (r: bool)
    ensures
        r <==> a@ == b@,
{
    a.is_initialized == b.is_initialized && intent_eq(&a.intent, &b.intent) && pubkey_eq(
        &a.rent_payer,
        &b.rent_payer,
    )
}

} // verus!
