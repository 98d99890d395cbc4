//! Plain data model of the gateway: accounts, statuses, persisted records and
//! the inputs of the orchestration layer. Every field is a plain value so the
//! contracts of the other modules can speak about it directly.

use vstd::prelude::*;

verus! {

/// Identifier of the tenant (API service) that owns addresses and records.
#[derive(Clone, Copy, Debug, PartialEq, Eq, Structural)]
pub struct ServiceId {
    pub value: u64,
}

/// A ledger account: a workchain id and the hex-encoded address hash.
pub struct AccountAddress {
    pub workchain_id: i32,
    pub hex: String,
}

impl AccountAddress {
    /// The mathematical key of an account: workchain and address characters.
    pub open spec fn key(&self) -> (int, Seq<char>) {
        (self.workchain_id as int, self.hex@)
    }

    /// Copy that provably keeps the account value.
    pub fn duplicate(&self) -> (r: AccountAddress)
        ensures
            r == *self,
            r.key() == self.key(),
    {
        AccountAddress { workchain_id: self.workchain_id, hex: self.hex.clone() }
    }

    /// Key equality of two accounts.
    pub fn same_account(&self, other: &AccountAddress) -> (r: bool)
        ensures
            r == (self.key() == other.key()),
    {
        let r = self.workchain_id == other.workchain_id && self.hex == other.hex;
        proof {
            if r {
                assert(self.key().1 == other.key().1);
            }
        }
        r
    }
}

/// A textual account address as supplied by an API caller.
pub struct Address(pub String);

/// Extracted tenant identity of an authenticated request.
pub struct IdExtractor(pub ServiceId);

/// Webhook-delivery axis of a persisted record's lifecycle.
#[derive(Clone, Copy, Debug, PartialEq, Eq, Structural)]
pub enum TonEventStatus {
    New,
    Notified,
    Error,
}

/// Ledger-confirmation axis of a transaction record's lifecycle.
#[derive(Clone, Copy, Debug, PartialEq, Eq, Structural)]
pub enum TonTransactionStatus {
    New,
    Confirmed,
    Error,
    Aborted,
}

/// Ledger-confirmation axis of a token-transaction record's lifecycle.
#[derive(Clone, Copy, Debug, PartialEq, Eq, Structural)]
pub enum TonTokenTransactionStatus {
    New,
    Confirmed,
    Error,
    Aborted,
}

/// Direction of a transfer with respect to the watched account.
#[derive(Clone, Copy, Debug, PartialEq, Eq, Structural)]
pub enum TonTransactionDirection {
    Send,
    Receive,
}

/// Terminal resolution delivered through a pending send's completion handle.
#[derive(Clone, Copy, Debug, PartialEq, Eq, Structural)]
pub enum MessageStatus {
    Confirmed,
    Expired,
    Error,
}

/// Revision of a token wallet contract kept in the whitelist.
#[derive(Clone, Copy, Debug, PartialEq, Eq, Structural)]
pub enum TokenWalletVersionDb {
    OldTip3v4,
    Tip3,
}

/// Errors surfaced by the orchestration layer.
#[derive(Debug)]
pub enum ServiceError {
    /// The caller handed in something unparseable or inconsistent.
    WrongInput(String),
    /// The requested record, address or callback row does not exist.
    NotFound,
    /// A record with the same unique key already exists.
    Duplicate,
}

/// Duplicate of an optional string, provably value-preserving.
pub fn duplicate_opt(s: &Option<String>) -> (r: Option<String>)
    ensures
        r == *s,
{
    match s {
        Option::Some(v) => Option::Some(v.clone()),
        Option::None => Option::None,
    }
}

/// Persisted transaction record: a domain event plus its two lifecycle axes.
pub struct TransactionDb {
    pub id: u64,
    pub service_id: ServiceId,
    pub message_hash: String,
    pub transaction_hash: Option<String>,
    pub account_workchain_id: i32,
    pub account_hex: String,
    pub value: u128,
    pub direction: TonTransactionDirection,
    pub status: TonTransactionStatus,
    pub error: Option<String>,
    pub aborted: bool,
}

/// Mathematical image of a `TransactionDb`.
pub struct TransactionDbV {
    pub id: int,
    pub service_id: int,
    pub message_hash: Seq<char>,
    pub transaction_hash: Option<Seq<char>>,
    pub account_workchain_id: int,
    pub account_hex: Seq<char>,
    pub value: int,
    pub direction: TonTransactionDirection,
    pub status: TonTransactionStatus,
    pub error: Option<Seq<char>>,
    pub aborted: bool,
}

/// The view of an optional string.
pub open spec fn opt_view(s: Option<String>) -> Option<Seq<char>> {
    match s {
        Option::Some(v) => Option::Some(v@),
        Option::None => Option::None,
    }
}

impl View for TransactionDb {
    type V = TransactionDbV;

    open spec fn view(&self) -> TransactionDbV {
        TransactionDbV {
            id: self.id as int,
            service_id: self.service_id.value as int,
            message_hash: self.message_hash@,
            transaction_hash: opt_view(self.transaction_hash),
            account_workchain_id: self.account_workchain_id as int,
            account_hex: self.account_hex@,
            value: self.value as int,
            direction: self.direction,
            status: self.status,
            error: opt_view(self.error),
            aborted: self.aborted,
        }
    }
}

impl TransactionDb {
    /// Copy whose view provably equals this record's view.
    pub fn duplicate(&self) -> (r: TransactionDb)
        ensures
            r@ == self@,
    {
        TransactionDb {
            id: self.id,
            service_id: self.service_id,
            message_hash: self.message_hash.clone(),
            transaction_hash: duplicate_opt(&self.transaction_hash),
            account_workchain_id: self.account_workchain_id,
            account_hex: self.account_hex.clone(),
            value: self.value,
            direction: self.direction,
            status: self.status,
            error: duplicate_opt(&self.error),
            aborted: self.aborted,
        }
    }
}

/// Persisted webhook-delivery record of one transaction.
pub struct TransactionEventDb {
    pub id: u64,
    pub service_id: ServiceId,
    pub transaction_id: u64,
    pub message_hash: String,
    pub account_workchain_id: i32,
    pub account_hex: String,
    pub transaction_direction: TonTransactionDirection,
    pub transaction_status: TonTransactionStatus,
    pub event_status: TonEventStatus,
}

/// Mathematical image of a `TransactionEventDb`.
pub struct TransactionEventDbV {
    pub id: int,
    pub service_id: int,
    pub transaction_id: int,
    pub message_hash: Seq<char>,
    pub account_workchain_id: int,
    pub account_hex: Seq<char>,
    pub transaction_direction: TonTransactionDirection,
    pub transaction_status: TonTransactionStatus,
    pub event_status: TonEventStatus,
}

impl View for TransactionEventDb {
    type V = TransactionEventDbV;

    open spec fn view(&self) -> TransactionEventDbV {
        TransactionEventDbV {
            id: self.id as int,
            service_id: self.service_id.value as int,
            transaction_id: self.transaction_id as int,
            message_hash: self.message_hash@,
            account_workchain_id: self.account_workchain_id as int,
            account_hex: self.account_hex@,
            transaction_direction: self.transaction_direction,
            transaction_status: self.transaction_status,
            event_status: self.event_status,
        }
    }
}

impl TransactionEventDb {
    /// Copy whose view provably equals this record's view.
    pub fn duplicate(&self) -> (r: TransactionEventDb)
        ensures
            r@ == self@,
    {
        TransactionEventDb {
            id: self.id,
            service_id: self.service_id,
            transaction_id: self.transaction_id,
            message_hash: self.message_hash.clone(),
            account_workchain_id: self.account_workchain_id,
            account_hex: self.account_hex.clone(),
            transaction_direction: self.transaction_direction,
            transaction_status: self.transaction_status,
            event_status: self.event_status,
        }
    }
}

/// Persisted token-transaction record, scoped to a token root address.
pub struct TokenTransactionFromDb {
    pub id: u64,
    pub service_id: ServiceId,
    pub message_hash: String,
    pub account_workchain_id: i32,
    pub account_hex: String,
    pub value: u128,
    pub root_address: String,
    pub direction: TonTransactionDirection,
    pub status: TonTokenTransactionStatus,
    pub error: Option<String>,
}

/// Mathematical image of a `TokenTransactionFromDb`.
pub struct TokenTransactionFromDbV {
    pub id: int,
    pub service_id: int,
    pub message_hash: Seq<char>,
    pub account_workchain_id: int,
    pub account_hex: Seq<char>,
    pub value: int,
    pub root_address: Seq<char>,
    pub direction: TonTransactionDirection,
    pub status: TonTokenTransactionStatus,
    pub error: Option<Seq<char>>,
}

impl View for TokenTransactionFromDb {
    type V = TokenTransactionFromDbV;

    open spec fn view(&self) -> TokenTransactionFromDbV {
        TokenTransactionFromDbV {
            id: self.id as int,
            service_id: self.service_id.value as int,
            message_hash: self.message_hash@,
            account_workchain_id: self.account_workchain_id as int,
            account_hex: self.account_hex@,
            value: self.value as int,
            root_address: self.root_address@,
            direction: self.direction,
            status: self.status,
            error: opt_view(self.error),
        }
    }
}

impl TokenTransactionFromDb {
    /// Copy whose view provably equals this record's view.
    pub fn duplicate(&self) -> (r: TokenTransactionFromDb)
        ensures
            r@ == self@,
    {
        TokenTransactionFromDb {
            id: self.id,
            service_id: self.service_id,
            message_hash: self.message_hash.clone(),
            account_workchain_id: self.account_workchain_id,
            account_hex: self.account_hex.clone(),
            value: self.value,
            root_address: self.root_address.clone(),
            direction: self.direction,
            status: self.status,
            error: duplicate_opt(&self.error),
        }
    }
}

/// Persisted webhook-delivery record of one token transaction.
pub struct TokenTransactionEventDb {
    pub id: u64,
    pub service_id: ServiceId,
    pub token_transaction_id: u64,
    pub message_hash: String,
    pub account_workchain_id: i32,
    pub account_hex: String,
    pub value: u128,
    pub root_address: String,
    pub transaction_direction: TonTransactionDirection,
    pub transaction_status: TonTokenTransactionStatus,
    pub event_status: TonEventStatus,
}

/// Mathematical image of a `TokenTransactionEventDb`.
pub struct TokenTransactionEventDbV {
    pub id: int,
    pub service_id: int,
    pub token_transaction_id: int,
    pub message_hash: Seq<char>,
    pub account_workchain_id: int,
    pub account_hex: Seq<char>,
    pub value: int,
    pub root_address: Seq<char>,
    pub transaction_direction: TonTransactionDirection,
    pub transaction_status: TonTokenTransactionStatus,
    pub event_status: TonEventStatus,
}

impl View for TokenTransactionEventDb {
    type V = TokenTransactionEventDbV;

    open spec fn view(&self) -> TokenTransactionEventDbV {
        TokenTransactionEventDbV {
            id: self.id as int,
            service_id: self.service_id.value as int,
            token_transaction_id: self.token_transaction_id as int,
            message_hash: self.message_hash@,
            account_workchain_id: self.account_workchain_id as int,
            account_hex: self.account_hex@,
            value: self.value as int,
            root_address: self.root_address@,
            transaction_direction: self.transaction_direction,
            transaction_status: self.transaction_status,
            event_status: self.event_status,
        }
    }
}

impl TokenTransactionEventDb {
    /// Copy whose view provably equals this record's view.
    pub fn duplicate(&self) -> (r: TokenTransactionEventDb)
        ensures
            r@ == self@,
    {
        TokenTransactionEventDb {
            id: self.id,
            service_id: self.service_id,
            token_transaction_id: self.token_transaction_id,
            message_hash: self.message_hash.clone(),
            account_workchain_id: self.account_workchain_id,
            account_hex: self.account_hex.clone(),
            value: self.value,
            root_address: self.root_address.clone(),
            transaction_direction: self.transaction_direction,
            transaction_status: self.transaction_status,
            event_status: self.event_status,
        }
    }
}

/// Persisted ledger address owned by a tenant.
pub struct AddressDb {
    pub id: u64,
    pub service_id: ServiceId,
    pub workchain_id: i32,
    pub hex: String,
    pub balance: u128,
}

/// Mathematical image of an `AddressDb`.
pub struct AddressDbV {
    pub id: int,
    pub service_id: int,
    pub workchain_id: int,
    pub hex: Seq<char>,
    pub balance: int,
}

impl View for AddressDb {
    type V = AddressDbV;

    open spec fn view(&self) -> AddressDbV {
        AddressDbV {
            id: self.id as int,
            service_id: self.service_id.value as int,
            workchain_id: self.workchain_id as int,
            hex: self.hex@,
            balance: self.balance as int,
        }
    }
}

impl AddressDb {
    /// Copy whose view provably equals this record's view.
    pub fn duplicate(&self) -> (r: AddressDb)
        ensures
            r@ == self@,
    {
        AddressDb {
            id: self.id,
            service_id: self.service_id,
            workchain_id: self.workchain_id,
            hex: self.hex.clone(),
            balance: self.balance,
        }
    }
}

/// Persisted token balance row, the owner table of token accounts.
pub struct TokenBalanceFromDb {
    pub service_id: ServiceId,
    pub account_workchain_id: i32,
    pub account_hex: String,
    pub balance: u128,
    pub root_address: String,
}

/// Mathematical image of a `TokenBalanceFromDb`.
pub struct TokenBalanceFromDbV {
    pub service_id: int,
    pub account_workchain_id: int,
    pub account_hex: Seq<char>,
    pub balance: int,
    pub root_address: Seq<char>,
}

impl View for TokenBalanceFromDb {
    type V = TokenBalanceFromDbV;

    open spec fn view(&self) -> TokenBalanceFromDbV {
        TokenBalanceFromDbV {
            service_id: self.service_id.value as int,
            account_workchain_id: self.account_workchain_id as int,
            account_hex: self.account_hex@,
            balance: self.balance as int,
            root_address: self.root_address@,
        }
    }
}

impl TokenBalanceFromDb {
    /// Copy whose view provably equals this record's view.
    pub fn duplicate(&self) -> (r: TokenBalanceFromDb)
        ensures
            r@ == self@,
    {
        TokenBalanceFromDb {
            service_id: self.service_id,
            account_workchain_id: self.account_workchain_id,
            account_hex: self.account_hex.clone(),
            balance: self.balance,
            root_address: self.root_address.clone(),
        }
    }
}

/// Configured webhook endpoint of one tenant.
pub struct ApiServiceCallbackDb {
    pub service_id: ServiceId,
    pub callback: String,
}

/// A whitelisted token root contract.
pub struct TokenWhitelistFromDb {
    pub name: String,
    pub address: String,
    pub version: TokenWalletVersionDb,
}

/// Ledger-prepared payload of an outbound native message.
pub struct PreparedMessage {
    pub message_hash: String,
    pub account_workchain_id: i32,
    pub account_hex: String,
    pub value: u128,
    pub expire_at: u32,
}

/// Ledger-prepared payload of an outbound token message.
pub struct PreparedTokenMessage {
    pub message_hash: String,
    pub account_workchain_id: i32,
    pub account_hex: String,
    pub value: u128,
    pub root_address: String,
    pub expire_at: u32,
}

/// Inbound domain event turned into a record-creation request.
pub struct CreateReceiveTransaction {
    pub message_hash: String,
    pub transaction_hash: Option<String>,
    pub account_workchain_id: i32,
    pub account_hex: String,
    pub value: u128,
    pub direction: TonTransactionDirection,
    pub status: TonTransactionStatus,
    pub error: Option<String>,
    pub aborted: bool,
}

/// Inbound token domain event turned into a record-creation request.
pub struct CreateReceiveTokenTransaction {
    pub message_hash: String,
    pub account_workchain_id: i32,
    pub account_hex: String,
    pub value: u128,
    pub root_address: String,
    pub status: TonTokenTransactionStatus,
}

/// Status correction applied to an already persisted outbound transaction.
pub struct UpdateSendTransaction {
    pub transaction_hash: Option<String>,
    pub status: TonTransactionStatus,
    pub error: Option<String>,
}

impl UpdateSendTransaction {
    /// The update recorded after a failed broadcast.
    pub fn error(e: String) -> (r: UpdateSendTransaction)
        ensures
            r.transaction_hash is None,
            r.status == TonTransactionStatus::Error,
            r.error == Option::Some(e),
    {
        UpdateSendTransaction {
            transaction_hash: Option::None,
            status: TonTransactionStatus::Error,
            error: Option::Some(e),
        }
    }
}

/// Status correction applied to an already persisted outbound token
/// transaction.
pub struct UpdateSendTokenTransaction {
    pub status: TonTokenTransactionStatus,
    pub error: Option<String>,
}

impl UpdateSendTokenTransaction {
    /// The update recorded after a failed broadcast.
    pub fn error(e: String) -> (r: UpdateSendTokenTransaction)
        ensures
            r.status == TonTokenTransactionStatus::Error,
            r.error == Option::Some(e),
    {
        UpdateSendTokenTransaction {
            status: TonTokenTransactionStatus::Error,
            error: Option::Some(e),
        }
    }
}

/// A confirmation observed on the ledger for a previously sent message.
pub struct UpdateSentTransaction {
    pub message_hash: String,
    pub account_workchain_id: i32,
    pub account_hex: String,
    pub input: UpdateSendTransaction,
}

/// A transaction caught on the ledger: either an unsolicited inbound event
/// or the confirmation of a message this process sent.
pub enum CaughtTonTransaction {
    Create(CreateReceiveTransaction),
    UpdateSent(UpdateSentTransaction),
}

} // verus!
