//! The binary record codec: fixed-width serialization for the three persisted
//! record types. The layout is flat and versionless — one byte for the
//! initialization flag (0 or 1), then fixed-width fields in declaration
//! order, integers little-endian. The layout is a wire/storage contract:
//! PlatformState is 41 bytes (1+32+8), TokenState 73 bytes (1+32+32+8),
//! ListerState 113 bytes (1+32+32+32+8+8).

use vstd::prelude::*;
use vstd::bytes::{
    lemma_auto_spec_u64_to_from_le_bytes,
    spec_u64_from_le_bytes,
    spec_u64_to_le_bytes,
    u64_from_le_bytes,
    u64_to_le_bytes,
};
use vstd::slice::{slice_index_get, slice_subrange};
use crate::addr::Address;
use crate::error::EscrowError;

verus! {

/// Encoded size of a `PlatformState` record.
pub const PLATFORM_STATE_LEN: usize = 41;

/// Encoded size of a `TokenState` record.
pub const TOKEN_STATE_LEN: usize = 73;

/// Encoded size of a `ListerState` record.
pub const LISTER_STATE_LEN: usize = 113;

/// The byte an initialization flag is stored as.
pub open spec fn spec_init_byte(b: bool) -> u8 {
    if b {
        1u8
    } else {
        0u8
    }
}

/// Reads the 32-byte address stored at `offset`.
fn read_address(src: &[u8], offset: usize) -> (r: Address)
    requires
        offset + 32 <= src@.len(),
    ensures
        r@ == src@.subrange(offset as int, offset as int + 32),
{
    let mut bytes: [u8; 32] = [0u8; 32];
    let n = src.len();
    let mut i: usize = 0;
    while i < 32
        invariant
            i <= 32,
            n == src@.len(),
            offset + 32 <= n,
            forall|j: int| 0 <= j < i ==> bytes@[j] == src@[offset + j],
        decreases 32 - i,
    {
        bytes[i] = *slice_index_get(src, offset + i);
        i += 1;
    }
    let r = Address { bytes };
    proof {
        assert(r@ =~= src@.subrange(offset as int, offset as int + 32));
    }
    r
}

/// Appends the 32 bytes of an address.
fn push_address(out: &mut Vec<u8>, a: &Address)
    ensures
        final(out)@ == old(out)@ + a@,
{
    let mut i: usize = 0;
    while i < 32
        invariant
            i <= 32,
            out@ == old(out)@ + a@.subrange(0, i as int),
        decreases 32 - i,
    {
        out.push(a.bytes[i]);
        proof {
            assert(a@.subrange(0, i as int + 1) =~= a@.subrange(0, i as int) + seq![a@[i as int]]);
            assert(out@ =~= old(out)@ + a@.subrange(0, i as int + 1));
        }
        i += 1;
    }
    proof {
        assert(a@.subrange(0, 32) =~= a@);
        assert(out@ =~= old(out)@ + a@);
    }
}

/// Appends a u64 as 8 little-endian bytes.
fn push_u64_le(out: &mut Vec<u8>, x: u64)
    ensures
        final(out)@ == old(out)@ + spec_u64_to_le_bytes(x),
{
    let mut bytes = u64_to_le_bytes(x);
    out.append(&mut bytes);
}

/// A platform record: the singleton configuration of the deployment. The
/// treasury receives the platform's percentage fee on every trade.
#[derive(Debug, Clone, Copy, PartialEq, Eq)]
pub struct PlatformState {
    pub is_initialized: bool,
    pub treasury_account: Address,
    pub platform_fee_percent: u64,
}

/// The mathematical contents of a `PlatformState` record.
#[verifier::ext_equal]
pub struct PlatformStateView {
    pub is_initialized: bool,
    pub treasury_account: Seq<u8>,
    pub platform_fee_percent: u64,
}

impl View for PlatformState {
    type V = PlatformStateView;

    open spec fn view(&self) -> PlatformStateView {
        PlatformStateView {
            is_initialized: self.is_initialized,
            treasury_account: self.treasury_account@,
            platform_fee_percent: self.platform_fee_percent,
        }
    }
}

/// The exact 41-byte encoding of a platform record.
pub open spec fn spec_pack_platform(v: PlatformStateView) -> Seq<u8> {
    seq![spec_init_byte(v.is_initialized)] + v.treasury_account + spec_u64_to_le_bytes(
        v.platform_fee_percent,
    )
}

/// What decoding a platform record yields: its fields, or a rejection when
/// the buffer is not exactly 41 bytes or the flag byte is neither 0 nor 1.
pub open spec fn spec_unpack_platform(src: Seq<u8>) -> Result<PlatformStateView, EscrowError> {
    if src.len() != 41 {
        Err(EscrowError::InvalidAccountData)
    } else if src[0] == 0 || src[0] == 1 {
        Ok(
            PlatformStateView {
                is_initialized: src[0] == 1,
                treasury_account: src.subrange(1, 33),
                platform_fee_percent: spec_u64_from_le_bytes(src.subrange(33, 41)),
            },
        )
    } else {
        Err(EscrowError::InvalidAccountData)
    }
}

/// Decoding that additionally demands the record be initialized.
pub open spec fn spec_unpack_platform_checked(src: Seq<u8>) -> Result<
    PlatformStateView,
    EscrowError,
> {
    match spec_unpack_platform(src) {
        Ok(v) => if v.is_initialized {
            Ok(v)
        } else {
            Err(EscrowError::UninitializedAccount)
        },
        Err(e) => Err(e),
    }
}

impl PlatformState {
    /// Whether this record holds live data.
    pub fn is_initialized(&self) -> (r: bool)
        ensures
            r == self@.is_initialized,
    {
        self.is_initialized
    }

    /// Decodes a platform record from its fixed-size buffer.
    pub fn unpack_from_slice(src: &[u8]) -> (r: Result<Self, EscrowError>)
        ensures
            (match r {
                Ok(s) => spec_unpack_platform(src@) == Ok::<PlatformStateView, EscrowError>(s@),
                Err(e) => spec_unpack_platform(src@) == Err::<PlatformStateView, EscrowError>(e),
            }),
    {
        if src.len() != PLATFORM_STATE_LEN {
            return Err(EscrowError::InvalidAccountData);
        }
        let flag = *slice_index_get(src, 0);
        if flag > 1 {
            return Err(EscrowError::InvalidAccountData);
        }
        let s = PlatformState {
            is_initialized: flag == 1,
            treasury_account: read_address(src, 1),
            platform_fee_percent: u64_from_le_bytes(slice_subrange(src, 33, 41)),
        };
        Ok(s)
    }

    /// Decodes a platform record and demands that it be initialized.
    pub fn unpack(src: &[u8]) -> (r: Result<Self, EscrowError>)
        ensures
            (match r {
                Ok(s) => spec_unpack_platform_checked(src@) == Ok::<
                    PlatformStateView,
                    EscrowError,
                >(s@),
                Err(e) => spec_unpack_platform_checked(src@) == Err::<
                    PlatformStateView,
                    EscrowError,
                >(e),
            }),
    {
        match Self::unpack_from_slice(src) {
            Ok(s) => if s.is_initialized() {
                Ok(s)
            } else {
                Err(EscrowError::UninitializedAccount)
            },
            Err(e) => Err(e),
        }
    }

    /// Encodes this record into its fixed-size buffer.
    pub fn pack(&self) -> (r: Vec<u8>)
        ensures
            r@ == spec_pack_platform(self@),
            r@.len() == PLATFORM_STATE_LEN,
    {
        let mut out: Vec<u8> = Vec::new();
        out.push(if self.is_initialized {
            1
        } else {
            0
        });
        push_address(&mut out, &self.treasury_account);
        push_u64_le(&mut out, self.platform_fee_percent);
        proof {
            lemma_auto_spec_u64_to_from_le_bytes();
            assert(out@ =~= spec_pack_platform(self@));
        }
        out
    }

    /// Overwrites a staged fixed-size buffer with this record's encoding.
    pub fn pack_into_slice(&self, dst: &mut Vec<u8>)
        requires
            old(dst)@.len() == 41,
        ensures
            final(dst)@ == spec_pack_platform(self@),
    {
        let packed = self.pack();
        *dst = packed;
    }
}

/// Round trip: encoding a platform record and decoding the buffer
/// reproduces the record's field values exactly.
pub proof fn lemma_platform_round_trip(v: PlatformStateView)
    requires
        v.treasury_account.len() == 32,
    ensures
        spec_unpack_platform(spec_pack_platform(v)) == Ok::<PlatformStateView, EscrowError>(v),
{
    lemma_auto_spec_u64_to_from_le_bytes();
    let s = spec_pack_platform(v);
    assert(s.len() == 41);
    assert(s.subrange(1, 33) =~= v.treasury_account);
    assert(s.subrange(33, 41) =~= spec_u64_to_le_bytes(v.platform_fee_percent));
    assert(spec_unpack_platform(s) matches Ok(d) && d =~= v);
}

/// A token record: one per token mint listed on the platform. It carries the
/// aggregate quantity currently escrowed across all listings for that mint.
#[derive(Debug, Clone, Copy, PartialEq, Eq)]
pub struct TokenState {
    pub is_initialized: bool,
    pub owner_pubkey: Address,
    pub token_mint: Address,
    pub total_no_of_tokens_listed: u64,
}

/// The mathematical contents of a `TokenState` record.
#[verifier::ext_equal]
pub struct TokenStateView {
    pub is_initialized: bool,
    pub owner_pubkey: Seq<u8>,
    pub token_mint: Seq<u8>,
    pub total_no_of_tokens_listed: u64,
}

impl View for TokenState {
    type V = TokenStateView;

    open spec fn view(&self) -> TokenStateView {
        TokenStateView {
            is_initialized: self.is_initialized,
            owner_pubkey: self.owner_pubkey@,
            token_mint: self.token_mint@,
            total_no_of_tokens_listed: self.total_no_of_tokens_listed,
        }
    }
}

/// The exact 73-byte encoding of a token record.
pub open spec fn spec_pack_token(v: TokenStateView) -> Seq<u8> {
    seq![spec_init_byte(v.is_initialized)] + v.owner_pubkey + v.token_mint + spec_u64_to_le_bytes(
        v.total_no_of_tokens_listed,
    )
}

/// What decoding a token record yields: its fields, or a rejection when the
/// buffer is not exactly 73 bytes or the flag byte is neither 0 nor 1.
pub open spec fn spec_unpack_token(src: Seq<u8>) -> Result<TokenStateView, EscrowError> {
    if src.len() != 73 {
        Err(EscrowError::InvalidAccountData)
    } else if src[0] == 0 || src[0] == 1 {
        Ok(
            TokenStateView {
                is_initialized: src[0] == 1,
                owner_pubkey: src.subrange(1, 33),
                token_mint: src.subrange(33, 65),
                total_no_of_tokens_listed: spec_u64_from_le_bytes(src.subrange(65, 73)),
            },
        )
    } else {
        Err(EscrowError::InvalidAccountData)
    }
}

/// Decoding that additionally demands the record be initialized.
pub open spec fn spec_unpack_token_checked(src: Seq<u8>) -> Result<TokenStateView, EscrowError> {
    match spec_unpack_token(src) {
        Ok(v) => if v.is_initialized {
            Ok(v)
        } else {
            Err(EscrowError::UninitializedAccount)
        },
        Err(e) => Err(e),
    }
}

impl TokenState {
    /// Whether this record holds live data.
    pub fn is_initialized(&self) -> (r: bool)
        ensures
            r == self@.is_initialized,
    {
        self.is_initialized
    }

    /// Decodes a token record from its fixed-size buffer.
    pub fn unpack_from_slice(src: &[u8]) -> (r: Result<Self, EscrowError>)
        ensures
            (match r {
                Ok(s) => spec_unpack_token(src@) == Ok::<TokenStateView, EscrowError>(s@),
                Err(e) => spec_unpack_token(src@) == Err::<TokenStateView, EscrowError>(e),
            }),
    {
        if src.len() != TOKEN_STATE_LEN {
            return Err(EscrowError::InvalidAccountData);
        }
        let flag = *slice_index_get(src, 0);
        if flag > 1 {
            return Err(EscrowError::InvalidAccountData);
        }
        let s = TokenState {
            is_initialized: flag == 1,
            owner_pubkey: read_address(src, 1),
            token_mint: read_address(src, 33),
            total_no_of_tokens_listed: u64_from_le_bytes(slice_subrange(src, 65, 73)),
        };
        Ok(s)
    }

    /// Decodes a token record and demands that it be initialized.
    pub fn unpack(src: &[u8]) -> (r: Result<Self, EscrowError>)
        ensures
            (match r {
                Ok(s) => spec_unpack_token_checked(src@) == Ok::<TokenStateView, EscrowError>(s@),
                Err(e) => spec_unpack_token_checked(src@) == Err::<TokenStateView, EscrowError>(e),
            }),
    {
        match Self::unpack_from_slice(src) {
            Ok(s) => if s.is_initialized() {
                Ok(s)
            } else {
                Err(EscrowError::UninitializedAccount)
            },
            Err(e) => Err(e),
        }
    }

    /// Encodes this record into its fixed-size buffer.
    pub fn pack(&self) -> (r: Vec<u8>)
        ensures
            r@ == spec_pack_token(self@),
            r@.len() == TOKEN_STATE_LEN,
    {
        let mut out: Vec<u8> = Vec::new();
        out.push(if self.is_initialized {
            1
        } else {
            0
        });
        push_address(&mut out, &self.owner_pubkey);
        push_address(&mut out, &self.token_mint);
        push_u64_le(&mut out, self.total_no_of_tokens_listed);
        proof {
            lemma_auto_spec_u64_to_from_le_bytes();
            assert(out@ =~= spec_pack_token(self@));
        }
        out
    }

    /// Overwrites a staged fixed-size buffer with this record's encoding.
    pub fn pack_into_slice(&self, dst: &mut Vec<u8>)
        requires
            old(dst)@.len() == 73,
        ensures
            final(dst)@ == spec_pack_token(self@),
    {
        let packed = self.pack();
        *dst = packed;
    }
}

/// Round trip: encoding a token record and decoding the buffer reproduces
/// the original field values exactly.
pub proof fn lemma_token_round_trip(v: TokenStateView)
    requires
        v.owner_pubkey.len() == 32,
        v.token_mint.len() == 32,
    ensures
        spec_unpack_token(spec_pack_token(v)) == Ok::<TokenStateView, EscrowError>(v),
{
    lemma_auto_spec_u64_to_from_le_bytes();
    let s = spec_pack_token(v);
    assert(s.len() == 73);
    assert(s.subrange(1, 33) =~= v.owner_pubkey);
    assert(s.subrange(33, 65) =~= v.token_mint);
    assert(s.subrange(65, 73) =~= spec_u64_to_le_bytes(v.total_no_of_tokens_listed));
    assert(spec_unpack_token(s) matches Ok(d) && d =~= v);
}

/// A listing record: one active offer by a seller of a quantity of one token
/// mint at a fixed unit price, backed by escrowed custody.
#[derive(Debug, Clone, Copy, PartialEq, Eq)]
pub struct ListerState {
    pub is_initialized: bool,
    pub seller_pubkey: Address,
    pub token_mint: Address,
    pub token_account_pubkey: Address,
    pub token_amount: u64,
    pub expected_amount_per_token: u64,
}

/// The mathematical contents of a `ListerState` record.
#[verifier::ext_equal]
pub struct ListerStateView {
    pub is_initialized: bool,
    pub seller_pubkey: Seq<u8>,
    pub token_mint: Seq<u8>,
    pub token_account_pubkey: Seq<u8>,
    pub token_amount: u64,
    pub expected_amount_per_token: u64,
}

impl View for ListerState {
    type V = ListerStateView;

    open spec fn view(&self) -> ListerStateView {
        ListerStateView {
            is_initialized: self.is_initialized,
            seller_pubkey: self.seller_pubkey@,
            token_mint: self.token_mint@,
            token_account_pubkey: self.token_account_pubkey@,
            token_amount: self.token_amount,
            expected_amount_per_token: self.expected_amount_per_token,
        }
    }
}

/// The exact 113-byte encoding of a listing record.
pub open spec fn spec_pack_lister(v: ListerStateView) -> Seq<u8> {
    seq![spec_init_byte(v.is_initialized)] + v.seller_pubkey + v.token_mint
        + v.token_account_pubkey + spec_u64_to_le_bytes(v.token_amount) + spec_u64_to_le_bytes(
        v.expected_amount_per_token,
    )
}

/// What decoding a listing record yields: its fields, or a rejection when
/// the buffer is not exactly 113 bytes or the flag byte is neither 0 nor 1.
pub open spec fn spec_unpack_lister(src: Seq<u8>) -> Result<ListerStateView, EscrowError> {
    if src.len() != 113 {
        Err(EscrowError::InvalidAccountData)
    } else if src[0] == 0 || src[0] == 1 {
        Ok(
            ListerStateView {
                is_initialized: src[0] == 1,
                seller_pubkey: src.subrange(1, 33),
                token_mint: src.subrange(33, 65),
                token_account_pubkey: src.subrange(65, 97),
                token_amount: spec_u64_from_le_bytes(src.subrange(97, 105)),
                expected_amount_per_token: spec_u64_from_le_bytes(src.subrange(105, 113)),
            },
        )
    } else {
        Err(EscrowError::InvalidAccountData)
    }
}

/// Decoding that additionally demands the record be initialized.
pub open spec fn spec_unpack_lister_checked(src: Seq<u8>) -> Result<ListerStateView, EscrowError> {
    match spec_unpack_lister(src) {
        Ok(v) => if v.is_initialized {
            Ok(v)
        } else {
            Err(EscrowError::UninitializedAccount)
        },
        Err(e) => Err(e),
    }
}

impl ListerState {
    /// Whether this listing still holds unsold, escrowed tokens.
    pub fn is_initialized(&self) -> (r: bool)
        ensures
            r == self@.is_initialized,
    {
        self.is_initialized
    }

    /// Decodes a listing record from its fixed-size buffer.
    pub fn unpack_from_slice(src: &[u8]) -> (r: Result<Self, EscrowError>)
        ensures
            (match r {
                Ok(s) => spec_unpack_lister(src@) == Ok::<ListerStateView, EscrowError>(s@),
                Err(e) => spec_unpack_lister(src@) == Err::<ListerStateView, EscrowError>(e),
            }),
    {
        if src.len() != LISTER_STATE_LEN {
            return Err(EscrowError::InvalidAccountData);
        }
        let flag = *slice_index_get(src, 0);
        if flag > 1 {
            return Err(EscrowError::InvalidAccountData);
        }
        let s = ListerState {
            is_initialized: flag == 1,
            seller_pubkey: read_address(src, 1),
            token_mint: read_address(src, 33),
            token_account_pubkey: read_address(src, 65),
            token_amount: u64_from_le_bytes(slice_subrange(src, 97, 105)),
            expected_amount_per_token: u64_from_le_bytes(slice_subrange(src, 105, 113)),
        };
        Ok(s)
    }

    /// Decodes a listing record and demands that it be initialized.
    pub fn unpack(src: &[u8]) -> (r: Result<Self, EscrowError>)
        ensures
            (match r {
                Ok(s) => spec_unpack_lister_checked(src@) == Ok::<ListerStateView, EscrowError>(
                    s@,
                ),
                Err(e) => spec_unpack_lister_checked(src@) == Err::<ListerStateView, EscrowError>(
                    e,
                ),
            }),
    {
        match Self::unpack_from_slice(src) {
            Ok(s) => if s.is_initialized() {
                Ok(s)
            } else {
                Err(EscrowError::UninitializedAccount)
            },
            Err(e) => Err(e),
        }
    }

    /// Encodes this record into its fixed-size buffer.
    pub fn pack(&self) -> (r: Vec<u8>)
        ensures
            r@ == spec_pack_lister(self@),
            r@.len() == LISTER_STATE_LEN,
    {
        let mut out: Vec<u8> = Vec::new();
        out.push(if self.is_initialized {
            1
        } else {
            0
        });
        push_address(&mut out, &self.seller_pubkey);
        push_address(&mut out, &self.token_mint);
        push_address(&mut out, &self.token_account_pubkey);
        push_u64_le(&mut out, self.token_amount);
        push_u64_le(&mut out, self.expected_amount_per_token);
        proof {
            lemma_auto_spec_u64_to_from_le_bytes();
            assert(out@ =~= spec_pack_lister(self@));
        }
        out
    }

    /// Overwrites a staged fixed-size buffer with this record's encoding.
    pub fn pack_into_slice(&self, dst: &mut Vec<u8>)
        requires
            old(dst)@.len() == 113,
        ensures
            final(dst)@ == spec_pack_lister(self@),
    {
        let packed = self.pack();
        *dst = packed;
    }
}

/// Round trip: encoding a listing record and decoding the buffer reproduces
/// the original field values exactly.
pub proof fn lemma_lister_round_trip(v: ListerStateView)
    requires
        v.seller_pubkey.len() == 32,
        v.token_mint.len() == 32,
        v.token_account_pubkey.len() == 32,
    ensures
        spec_unpack_lister(spec_pack_lister(v)) == Ok::<ListerStateView, EscrowError>(v),
{
    lemma_auto_spec_u64_to_from_le_bytes();
    let s = spec_pack_lister(v);
    assert(s.len() == 113);
    assert(s.subrange(1, 33) =~= v.seller_pubkey);
    assert(s.subrange(33, 65) =~= v.token_mint);
    assert(s.subrange(65, 97) =~= v.token_account_pubkey);
    assert(s.subrange(97, 105) =~= spec_u64_to_le_bytes(v.token_amount));
    assert(s.subrange(105, 113) =~= spec_u64_to_le_bytes(v.expected_amount_per_token));
    assert(spec_unpack_lister(s) matches Ok(d) && d =~= v);
}

} // verus!
