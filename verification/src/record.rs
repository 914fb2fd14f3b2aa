//! The data model: the durable record, the slot context a caller hands in,
//! the descriptor handed back, and the error taxonomy.
use vstd::prelude::*;
use anchor_lang::prelude::ProgramError;
use anchor_lang::prelude::Pubkey;
use crate::fingerprint::fingerprint;

verus! {

/// Largest accepted text, in bytes.
pub const MAX_TEXT_LEN: usize = 200;

/// The bytes a text occupies in storage and under the fingerprint: its UTF-8
/// encoding.
pub open spec fn text_bytes(text: Seq<char>) -> Seq<u8> {
    vstd::utf8::encode_utf8(text)
}

/// Footprint of a serialized record whose text is `text_len` bytes long:
/// 8-byte tag, 4-byte length prefix and the text, 16-byte fingerprint,
/// 8-byte timestamp, 32-byte owner, 8-byte cost.
pub open spec fn record_size(text_len: nat) -> nat {
    8 + (4 + text_len) + 16 + 8 + 32 + 8
}

/// Why a request was turned down before anything was read from or written to
/// the ledger.
#[derive(Clone, Copy, Debug, PartialEq, Eq, Structural)]
pub enum ErrorCode {
    /// The designated slot already holds a record.
    AlreadyExists,
    /// The text has no characters.
    EmptyString,
    /// The text is longer than `MAX_TEXT_LEN` bytes.
    StringTooLong,
}

/// The human-readable message that belongs to each error code.
pub open spec fn message_text(code: ErrorCode) -> Seq<char> {
    match code {
        ErrorCode::AlreadyExists => "该字符串已经上链，不能重复提交"@,
        ErrorCode::EmptyString => "字符串不能为空"@,
        ErrorCode::StringTooLong => "字符串长度超过限制"@,
    }
}

impl ErrorCode {
    /// Looks up the message for this code. The code itself stays the
    /// machine-matchable part; the message is for people.
    pub fn message(&self) -> (msg: &'static str)
        ensures
            msg@ == message_text(*self),
    {
        match self {
            ErrorCode::AlreadyExists => "该字符串已经上链，不能重复提交",
            ErrorCode::EmptyString => "字符串不能为空",
            ErrorCode::StringTooLong => "字符串长度超过限制",
        }
    }
}

/// Every way a store request can fail.
#[derive(Debug, PartialEq, Eq)]
pub enum StoreError {
    /// The request itself is unacceptable.
    Rejected(ErrorCode),
    /// The ledger runtime failed; its error is passed on untouched.
    Substrate(ProgramError),
    /// The reservation deposit, or the deposit plus the transaction fee, does
    /// not fit in 64 bits.
    CostOverflow,
}

/// The durable unit: one text with its fingerprint and commit metadata.
#[derive(Debug, PartialEq, Eq)]
pub struct StringRecord {
    /// The text as submitted.
    pub original_string: String,
    /// Fingerprint of the text's bytes.
    pub signature: [u8; 16],
    /// Seconds since the epoch at commit.
    pub timestamp: i64,
    /// The principal that submitted and paid.
    pub owner: Pubkey,
    /// Reservation deposit plus transaction fee, in lamports.
    pub cost_lamports: u64,
}

impl StringRecord {
    /// Fixed capacity reserved for every record: the footprint of a record
    /// carrying the longest accepted text.
    pub const LEN: usize = 8 + 4 + 200 + 16 + 8 + 32 + 8;

    /// What every committed record satisfies: the text is between 1 and
    /// `MAX_TEXT_LEN` bytes, and the fingerprint is that of the text.
    pub open spec fn is_valid(&self) -> bool {
        &&& 1 <= text_bytes(self.original_string@).len() <= MAX_TEXT_LEN
        &&& self.signature@ == fingerprint(text_bytes(self.original_string@))
    }

    /// The record that a commit of `text` by `owner` at `timestamp` for
    /// `cost` produces, and no other.
    pub open spec fn holds(&self, text: Seq<char>, timestamp: i64, owner: Pubkey, cost: u64) -> bool {
        &&& self.original_string@ == text
        &&& self.signature@ == fingerprint(text_bytes(text))
        &&& self.timestamp == timestamp
        &&& self.owner == owner
        &&& self.cost_lamports == cost
    }

    /// Serialized footprint of this record in bytes.
    pub fn size(&self) -> (n: usize)
        requires
            self.is_valid(),
        ensures
            n == record_size(text_bytes(self.original_string@).len()),
            n <= Self::LEN,
    {
        8 + 4 + self.original_string.as_str().len() + 16 + 8 + 32 + 8
    }
}

/// What a caller hands in to store a text: the designated slot with its
/// current contents, the slot's address, and the paying principal.
#[derive(Debug, PartialEq, Eq)]
pub struct StoreString {
    /// Contents of the slot: `None` while it is unoccupied.
    pub record: Option<StringRecord>,
    /// Address of the slot.
    pub record_address: Pubkey,
    /// The authenticated principal that pays for the reservation.
    pub payer: Pubkey,
}

impl StoreString {
    /// A context over an unoccupied slot at `record_address`, paid by `payer`.
    pub fn new(record_address: Pubkey, payer: Pubkey) -> (ctx: StoreString)
        ensures
            ctx.record is None,
            ctx.record_address == record_address,
            ctx.payer == payer,
    {
        StoreString { record: None, record_address, payer }
    }
}

/// What a caller hands in to ask whether a slot holds a record.
#[derive(Debug, PartialEq, Eq)]
pub struct QueryString {
    /// Contents of the slot: `None` if nothing was committed there.
    pub record: Option<StringRecord>,
}

impl QueryString {
    /// Whether the slot holds a committed record.
    pub fn is_stored(&self) -> (stored: bool)
        ensures
            stored == (self.record is Some),
    {
        self.record.is_some()
    }
}

/// What a successful store hands back. It is not persisted.
#[derive(Debug, PartialEq, Eq)]
pub struct StoreResult {
    /// Fingerprint of the stored text.
    pub signature: [u8; 16],
    /// Address of the slot that now holds the record.
    pub record_address: Pubkey,
    /// Lamports charged: reservation deposit plus transaction fee.
    pub cost_lamports: u64,
}

} // verus!
