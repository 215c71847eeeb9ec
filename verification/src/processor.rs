//! The settlement engine: the five operation handlers. Each handler
//! validates the claimed program identity and the ordered account list,
//! re-derives the custody addresses it needs, performs the operation's
//! arithmetic, and returns the exact record updates and sub-transfers to
//! perform as a typed effect. The host-facing shell executes the effect
//! against the ledger runtime; because each request runs as one atomic unit,
//! an error here aborts the request with zero observable state change.

use vstd::prelude::*;
use crate::addr::Address;
use crate::error::EscrowError;
use crate::instruction::{spec_unpack, EscrowInstruction};
use crate::pda::{pda_of, seed_bytes, try_derive_address};
use crate::state::{
    lemma_lister_round_trip,
    spec_pack_lister,
    spec_unpack_lister,
    spec_unpack_lister_checked,
    spec_unpack_platform_checked,
    spec_unpack_token,
    spec_unpack_token_checked,
    ListerState,
    ListerStateView,
    PlatformState,
    PlatformStateView,
    TokenState,
    TokenStateView,
};

verus! {

/// The fixed scaling applied to every fungible-token transfer amount: the
/// engine assumes each mint keeps two decimal places of on-chain precision,
/// so a listed quantity of `q` moves `q * 100` base units. The assumption is
/// wrong for mints configured otherwise; it is isolated here so a per-mint
/// lookup could replace it.
pub const TOKEN_UNIT_SCALE: u64 = 100;

/// The token base units that a quantity of whole tokens moves.
pub open spec fn spec_scaled(quantity: u64) -> int {
    quantity * TOKEN_UNIT_SCALE
}

/// Converts a quantity of whole tokens to transferable base units.
pub fn scaled_token_amount(quantity: u64) -> (r: u64)
    requires
        spec_scaled(quantity) <= u64::MAX,
    ensures
        r == spec_scaled(quantity),
{
    quantity * TOKEN_UNIT_SCALE
}

/// What the engine reads of one host account: its address, the program that
/// owns it, whether it signed the request, and its stored record bytes.
pub struct Account {
    pub key: Address,
    pub owner: Address,
    pub is_signer: bool,
    pub data: Vec<u8>,
}

/// The effect of creating the platform record: allocate the platform
/// account (payer: the administrator, account 0; new account: account 1;
/// size: the platform record length; owner: this program) and store the
/// record.
#[derive(Debug)]
pub struct CreatePlatformEffect {
    pub record: PlatformState,
}

/// The mathematical contents of a `CreatePlatformEffect`.
#[verifier::ext_equal]
pub struct CreatePlatformEffectView {
    pub record: PlatformStateView,
}

impl View for CreatePlatformEffect {
    type V = CreatePlatformEffectView;

    open spec fn view(&self) -> CreatePlatformEffectView {
        CreatePlatformEffectView { record: self.record@ }
    }
}

/// The effect of creating a token record: allocate the token-state account
/// (payer: the administrator, account 0; new account: account 2; size: the
/// token record length; owner: this program), authorized by the custody
/// seeds (platform account, token mint, bump), and store the record.
#[derive(Debug)]
pub struct CreateTokenStateEffect {
    pub bump: u8,
    pub record: TokenState,
}

/// The mathematical contents of a `CreateTokenStateEffect`.
#[verifier::ext_equal]
pub struct CreateTokenStateEffectView {
    pub bump: u8,
    pub record: TokenStateView,
}

impl View for CreateTokenStateEffect {
    type V = CreateTokenStateEffectView;

    open spec fn view(&self) -> CreateTokenStateEffectView {
        CreateTokenStateEffectView { bump: self.bump, record: self.record@ }
    }
}

/// The effect of listing tokens, in execution order: if
/// `create_record_account` is set, allocate the listing record account
/// (payer: the seller, account 0; new account: account 3; size: the listing
/// record length; owner: this program), authorized by the custody seeds
/// (seller, token mint, token-state account, bump); transfer
/// `escrow_deposit` token base units from the seller's token account
/// (account 1) into the listing's custody token account (account 4),
/// authorized by the seller; store the listing record (account 3) and the
/// token record (account 7).
#[derive(Debug)]
pub struct ListTokenEffect {
    pub create_record_account: bool,
    pub bump: u8,
    pub escrow_deposit: u64,
    pub lister: ListerState,
    pub token_state: TokenState,
}

/// The mathematical contents of a `ListTokenEffect`.
#[verifier::ext_equal]
pub struct ListTokenEffectView {
    pub create_record_account: bool,
    pub bump: u8,
    pub escrow_deposit: u64,
    pub lister: ListerStateView,
    pub token_state: TokenStateView,
}

impl View for ListTokenEffect {
    type V = ListTokenEffectView;

    open spec fn view(&self) -> ListTokenEffectView {
        ListTokenEffectView {
            create_record_account: self.create_record_account,
            bump: self.bump,
            escrow_deposit: self.escrow_deposit,
            lister: self.lister@,
            token_state: self.token_state@,
        }
    }
}

/// The effect of a purchase, in execution order: transfer
/// `seller_proceeds` settlement base units from the taker (account 0) to
/// the seller (account 5); transfer `platform_fee` settlement base units
/// from the taker to the treasury (account 10); transfer `token_payout`
/// token base units from the listing's custody token account (account 3) to
/// the taker's token account (account 4), authorized by the custody seeds
/// (seller, token mint, token-state account, bump); store the listing
/// record (account 2) and the token record (account 7).
#[derive(Debug)]
pub struct ExchangeEffect {
    pub seller_proceeds: u64,
    pub platform_fee: u64,
    pub token_payout: u64,
    pub bump: u8,
    pub lister: ListerState,
    pub token_state: TokenState,
}

/// The mathematical contents of an `ExchangeEffect`.
#[verifier::ext_equal]
pub struct ExchangeEffectView {
    pub seller_proceeds: u64,
    pub platform_fee: u64,
    pub token_payout: u64,
    pub bump: u8,
    pub lister: ListerStateView,
    pub token_state: TokenStateView,
}

impl View for ExchangeEffect {
    type V = ExchangeEffectView;

    open spec fn view(&self) -> ExchangeEffectView {
        ExchangeEffectView {
            seller_proceeds: self.seller_proceeds,
            platform_fee: self.platform_fee,
            token_payout: self.token_payout,
            bump: self.bump,
            lister: self.lister@,
            token_state: self.token_state@,
        }
    }
}

/// The effect of cancelling a listing, in execution order: transfer
/// `refund` token base units from the listing's custody token account
/// (account 3) back to the seller's token account (account 2), authorized
/// by the custody seeds (seller, token mint, token-state account, bump);
/// store the listing record (account 4) and the token record (account 5).
#[derive(Debug)]
pub struct CancelEffect {
    pub refund: u64,
    pub bump: u8,
    pub lister: ListerState,
    pub token_state: TokenState,
}

/// The mathematical contents of a `CancelEffect`.
#[verifier::ext_equal]
pub struct CancelEffectView {
    pub refund: u64,
    pub bump: u8,
    pub lister: ListerStateView,
    pub token_state: TokenStateView,
}

impl View for CancelEffect {
    type V = CancelEffectView;

    open spec fn view(&self) -> CancelEffectView {
        CancelEffectView {
            refund: self.refund,
            bump: self.bump,
            lister: self.lister@,
            token_state: self.token_state@,
        }
    }
}

/// What one decoded request asks the host to perform.
#[derive(Debug)]
pub enum Effect {
    CreatePlatform(CreatePlatformEffect),
    CreateTokenState(CreateTokenStateEffect),
    ListToken(ListTokenEffect),
    Exchange(ExchangeEffect),
    Cancel(CancelEffect),
}

/// The mathematical contents of an `Effect`.
#[verifier::ext_equal]
pub enum EffectView {
    CreatePlatform(CreatePlatformEffectView),
    CreateTokenState(CreateTokenStateEffectView),
    ListToken(ListTokenEffectView),
    Exchange(ExchangeEffectView),
    Cancel(CancelEffectView),
}

impl View for Effect {
    type V = EffectView;

    open spec fn view(&self) -> EffectView {
        match self {
            Effect::CreatePlatform(e) => EffectView::CreatePlatform(e@),
            Effect::CreateTokenState(e) => EffectView::CreateTokenState(e@),
            Effect::ListToken(e) => EffectView::ListToken(e@),
            Effect::Exchange(e) => EffectView::Exchange(e@),
            Effect::Cancel(e) => EffectView::Cancel(e@),
        }
    }
}

/// What creating the platform record yields. Accounts, in order: the
/// administrator, the platform account, the system program, the treasury.
/// Only the configured administrator may create it.
pub open spec fn spec_create_platform_state(
    accounts: Seq<Account>,
    amount: u64,
    admin_identity: Address,
) -> Result<CreatePlatformEffectView, EscrowError> {
    if accounts.len() < 1 {
        Err(EscrowError::NotEnoughAccountKeys)
    } else if accounts[0].key@ != admin_identity@ {
        Err(EscrowError::InvalidAccountData)
    } else if accounts.len() < 4 {
        Err(EscrowError::NotEnoughAccountKeys)
    } else {
        Ok(
            CreatePlatformEffectView {
                record: PlatformStateView {
                    is_initialized: true,
                    treasury_account: accounts[3].key@,
                    platform_fee_percent: amount,
                },
            },
        )
    }
}

/// What creating a token record yields. Accounts, in order: the
/// administrator, the platform account, the token-state account, the token
/// mint, the system program. The token-state account must sit at the
/// custody address derived from (platform account, token mint); any other
/// supplied address is rejected.
pub open spec fn spec_create_token_state(
    accounts: Seq<Account>,
    program_id: Address,
    admin_identity: Address,
) -> Result<CreateTokenStateEffectView, EscrowError> {
    if accounts.len() < 1 {
        Err(EscrowError::NotEnoughAccountKeys)
    } else if accounts[0].key@ != admin_identity@ {
        Err(EscrowError::InvalidAccountData)
    } else if accounts.len() < 2 {
        Err(EscrowError::NotEnoughAccountKeys)
    } else if accounts[1].owner@ != program_id@ {
        Err(EscrowError::IncorrectProgramId)
    } else if accounts.len() < 5 {
        Err(EscrowError::NotEnoughAccountKeys)
    } else {
        match pda_of(seq![accounts[1].key@, accounts[3].key@], program_id@) {
            None => Err(EscrowError::InvalidAccountData),
            Some(p) => if p.0 != accounts[2].key@ {
                Err(EscrowError::InvalidAccountData)
            } else {
                Ok(
                    CreateTokenStateEffectView {
                        bump: p.1,
                        record: TokenStateView {
                            is_initialized: true,
                            owner_pubkey: accounts[0].key@,
                            token_mint: accounts[3].key@,
                            total_no_of_tokens_listed: 0,
                        },
                    },
                )
            },
        }
    }
}

/// A freshly allocated record buffer: all bytes zero.
pub open spec fn spec_zeroed(len: nat) -> Seq<u8> {
    Seq::new(len, |i: int| 0u8)
}

/// The listing record bytes a listing operation reads: the staged bytes of
/// the record account, or a fresh zeroed buffer when that account is not
/// yet owned by this program and is therefore about to be allocated.
pub open spec fn spec_list_record_data(accounts: Seq<Account>, program_id: Address) -> Seq<u8> {
    if accounts[3].owner@ != program_id@ {
        spec_zeroed(113)
    } else {
        accounts[3].data@
    }
}

/// What listing tokens yields. Accounts, in order: the seller, the seller's
/// token account, the token mint, the listing record account, the listing's
/// custody token account, the token program, the system program, the
/// token-state account. The record account must sit at the custody address
/// derived from (seller, token mint, token-state account); an active record
/// there must not be overwritten.
pub open spec fn spec_list_token(accounts: Seq<Account>, args: (u64, u64), program_id: Address) -> Result<
    ListTokenEffectView,
    EscrowError,
> {
    if accounts.len() < 1 {
        Err(EscrowError::NotEnoughAccountKeys)
    } else if !accounts[0].is_signer {
        Err(EscrowError::MissingRequiredSignature)
    } else if accounts.len() < 8 {
        Err(EscrowError::NotEnoughAccountKeys)
    } else {
        match pda_of(
            seq![accounts[0].key@, accounts[2].key@, accounts[7].key@],
            program_id@,
        ) {
            None => Err(EscrowError::InvalidAccountData),
            Some(p) => if p.0 != accounts[3].key@ {
                Err(EscrowError::InvalidAccountData)
            } else {
                match spec_unpack_lister(spec_list_record_data(accounts, program_id)) {
                    Err(e) => Err(e),
                    Ok(l) => match spec_unpack_token(accounts[7].data@) {
                        Err(e) => Err(e),
                        Ok(t) => if l.is_initialized {
                            Err(EscrowError::AccountAlreadyInitialized)
                        } else {
                            Ok(
                                ListTokenEffectView {
                                    create_record_account: accounts[3].owner@ != program_id@,
                                    bump: p.1,
                                    escrow_deposit: spec_scaled(args.0) as u64,
                                    lister: ListerStateView {
                                        is_initialized: true,
                                        seller_pubkey: accounts[0].key@,
                                        token_mint: accounts[2].key@,
                                        token_account_pubkey: accounts[4].key@,
                                        token_amount: args.0,
                                        expected_amount_per_token: args.1,
                                    },
                                    token_state: TokenStateView {
                                        is_initialized: t.is_initialized,
                                        owner_pubkey: t.owner_pubkey,
                                        token_mint: t.token_mint,
                                        total_no_of_tokens_listed: (t.total_no_of_tokens_listed
                                            + args.0) as u64,
                                    },
                                },
                            )
                        },
                    },
                }
            },
        }
    }
}

/// The bounds a listing request must satisfy wherever its arithmetic is
/// reached: the deposit scaling and the aggregate increment must fit in
/// u64. The host shell checks these before handing the request in.
pub open spec fn spec_list_args_ok(accounts: Seq<Account>, args: (u64, u64), program_id: Address) -> bool {
    (accounts.len() >= 8 && accounts[0].is_signer) ==> (spec_unpack_lister(
        spec_list_record_data(accounts, program_id),
    ) matches Ok(l) ==> (spec_unpack_token(accounts[7].data@) matches Ok(t) ==> (
    !l.is_initialized ==> {
        &&& spec_scaled(args.0) <= u64::MAX
        &&& t.total_no_of_tokens_listed + args.0 <= u64::MAX
    })))
}

/// What a purchase yields. Accounts, in order: the taker, the platform
/// account, the listing record account, the listing's custody token
/// account, the taker's token account, the seller, the token mint, the
/// token-state account, the token program, the system program, the
/// treasury. The record account must sit at the custody address derived
/// from (seller, token mint, token-state account); listing, platform and
/// token records must all be initialized; the claimed seller and treasury
/// must match the stored records.
pub open spec fn spec_exchange(accounts: Seq<Account>, amount: u64, program_id: Address) -> Result<
    ExchangeEffectView,
    EscrowError,
> {
    if accounts.len() < 1 {
        Err(EscrowError::NotEnoughAccountKeys)
    } else if !accounts[0].is_signer {
        Err(EscrowError::MissingRequiredSignature)
    } else if accounts.len() < 2 {
        Err(EscrowError::NotEnoughAccountKeys)
    } else if accounts[1].owner@ != program_id@ {
        Err(EscrowError::IncorrectProgramId)
    } else if accounts.len() < 8 {
        Err(EscrowError::NotEnoughAccountKeys)
    } else {
        match pda_of(
            seq![accounts[5].key@, accounts[6].key@, accounts[7].key@],
            program_id@,
        ) {
            None => Err(EscrowError::InvalidAccountData),
            Some(p) => if p.0 != accounts[2].key@ {
                Err(EscrowError::InvalidAccountData)
            } else if accounts[2].owner@ != program_id@ {
                Err(EscrowError::IncorrectProgramId)
            } else {
                match spec_unpack_lister_checked(accounts[2].data@) {
                    Err(e) => Err(e),
                    Ok(l) => match spec_unpack_platform_checked(accounts[1].data@) {
                        Err(e) => Err(e),
                        Ok(pl) => match spec_unpack_token_checked(accounts[7].data@) {
                            Err(e) => Err(e),
                            Ok(t) => {
                                let total = (amount * l.expected_amount_per_token) as u64;
                                let fee = spec_platform_fee(total, pl.platform_fee_percent) as u64;
                                let proceeds = (total - fee) as u64;
                                if l.seller_pubkey != accounts[5].key@ {
                                    Err(EscrowError::InvalidAccountData)
                                } else if accounts.len() < 11 {
                                    Err(EscrowError::NotEnoughAccountKeys)
                                } else if pl.treasury_account != accounts[10].key@ {
                                    Err(EscrowError::InvalidAccountData)
                                } else {
                                    Ok(
                                        ExchangeEffectView {
                                            seller_proceeds: proceeds,
                                            platform_fee: fee,
                                            token_payout: spec_scaled(amount) as u64,
                                            bump: p.1,
                                            lister: ListerStateView {
                                                is_initialized: l.token_amount != amount,
                                                seller_pubkey: l.seller_pubkey,
                                                token_mint: l.token_mint,
                                                token_account_pubkey: l.token_account_pubkey,
                                                token_amount: (l.token_amount - amount) as u64,
                                                expected_amount_per_token:
                                                    l.expected_amount_per_token,
                                            },
                                            token_state: TokenStateView {
                                                is_initialized: t.is_initialized,
                                                owner_pubkey: t.owner_pubkey,
                                                token_mint: t.token_mint,
                                                total_no_of_tokens_listed: (
                                                t.total_no_of_tokens_listed - amount) as u64,
                                            },
                                        },
                                    )
                                }
                            },
                        },
                    },
                }
            },
        }
    }
}

/// The platform's cut of a trade: the total cost times the fee percentage,
/// rounded down to whole settlement base units.
pub open spec fn spec_platform_fee(total_cost: u64, fee_percent: u64) -> int {
    total_cost * fee_percent / 100
}

/// The seller's take of a trade: whatever the fee leaves of the total cost.
pub open spec fn spec_seller_proceeds(total_cost: u64, fee_percent: u64) -> int {
    total_cost - spec_platform_fee(total_cost, fee_percent)
}

/// The bounds a purchase request must satisfy wherever its arithmetic is
/// reached: the cost, fee and payout products fit in u64, the fee does not
/// exceed the total, and the purchase does not exceed the listed or
/// aggregate quantities. The host shell checks these before handing the
/// request in.
pub open spec fn spec_exchange_args_ok(accounts: Seq<Account>, amount: u64, program_id: Address) -> bool {
    (accounts.len() >= 8 && accounts[0].is_signer && accounts[1].owner@ == program_id@) ==> (
    spec_unpack_lister_checked(accounts[2].data@) matches Ok(l) ==> (
    spec_unpack_platform_checked(accounts[1].data@) matches Ok(pl) ==> (
    spec_unpack_token_checked(accounts[7].data@) matches Ok(t) ==> {
        let total = amount * l.expected_amount_per_token;
        &&& total <= u64::MAX
        &&& total * pl.platform_fee_percent <= u64::MAX
        &&& total * pl.platform_fee_percent / 100 <= total
        &&& ((l.seller_pubkey == accounts[5].key@ && accounts.len() >= 11 && pl.treasury_account
            == accounts[10].key@) ==> {
            &&& spec_scaled(amount) <= u64::MAX
            &&& amount <= l.token_amount
            &&& amount <= t.total_no_of_tokens_listed
        })
    })))
}

/// What cancelling a listing yields. Accounts, in order: the seller, the
/// token mint, the seller's token account, the listing's custody token
/// account, the listing record account, the token-state account, the token
/// program. Only the seller recorded in the listing may cancel it; the
/// whole remaining quantity is refunded and the record is retired.
pub open spec fn spec_cancel(accounts: Seq<Account>, program_id: Address) -> Result<
    CancelEffectView,
    EscrowError,
> {
    if accounts.len() < 6 {
        Err(EscrowError::NotEnoughAccountKeys)
    } else {
        match pda_of(
            seq![accounts[0].key@, accounts[1].key@, accounts[5].key@],
            program_id@,
        ) {
            None => Err(EscrowError::InvalidAccountData),
            Some(p) => if p.0 != accounts[4].key@ {
                Err(EscrowError::InvalidAccountData)
            } else if accounts[4].owner@ != program_id@ {
                Err(EscrowError::IncorrectProgramId)
            } else {
                match spec_unpack_lister_checked(accounts[4].data@) {
                    Err(e) => Err(e),
                    Ok(l) => if l.seller_pubkey != accounts[0].key@ {
                        Err(EscrowError::InvalidAccountData)
                    } else if l.token_account_pubkey != accounts[3].key@ {
                        Err(EscrowError::InvalidAccountData)
                    } else if accounts.len() < 7 {
                        Err(EscrowError::NotEnoughAccountKeys)
                    } else {
                        match spec_unpack_token(accounts[5].data@) {
                            Err(e) => Err(e),
                            Ok(t) => Ok(
                                CancelEffectView {
                                    refund: spec_scaled(l.token_amount) as u64,
                                    bump: p.1,
                                    lister: ListerStateView {
                                        is_initialized: false,
                                        seller_pubkey: l.seller_pubkey,
                                        token_mint: l.token_mint,
                                        token_account_pubkey: l.token_account_pubkey,
                                        token_amount: l.token_amount,
                                        expected_amount_per_token: l.expected_amount_per_token,
                                    },
                                    token_state: TokenStateView {
                                        is_initialized: t.is_initialized,
                                        owner_pubkey: t.owner_pubkey,
                                        token_mint: t.token_mint,
                                        total_no_of_tokens_listed: (t.total_no_of_tokens_listed
                                            - l.token_amount) as u64,
                                    },
                                },
                            ),
                        }
                    },
                }
            },
        }
    }
}

/// The bounds a cancel request must satisfy wherever its arithmetic is
/// reached: the refund scaling fits in u64 and the aggregate holds at least
/// the listing's remaining quantity. The host shell checks these before
/// handing the request in.
pub open spec fn spec_cancel_args_ok(accounts: Seq<Account>, program_id: Address) -> bool {
    (accounts.len() >= 7 && accounts[4].owner@ == program_id@) ==> (spec_unpack_lister_checked(
        accounts[4].data@,
    ) matches Ok(l) ==> (spec_unpack_token(accounts[5].data@) matches Ok(t) ==> ((
    l.seller_pubkey == accounts[0].key@ && l.token_account_pubkey == accounts[3].key@) ==> {
        &&& spec_scaled(l.token_amount) <= u64::MAX
        &&& l.token_amount <= t.total_no_of_tokens_listed
    })))
}

/// What a whole request yields: the effect of the operation its payload
/// decodes to, or the decoding error.
pub open spec fn spec_process(
    accounts: Seq<Account>,
    instruction_data: Seq<u8>,
    program_id: Address,
    admin_identity: Address,
) -> Result<EffectView, EscrowError> {
    match spec_unpack(instruction_data) {
        Err(e) => Err(e),
        Ok(ins) => match ins {
            EscrowInstruction::CreatePlatformState { amount } => match spec_create_platform_state(
                accounts,
                amount,
                admin_identity,
            ) {
                Ok(e) => Ok(EffectView::CreatePlatform(e)),
                Err(e) => Err(e),
            },
            EscrowInstruction::CreateTokenstate => match spec_create_token_state(
                accounts,
                program_id,
                admin_identity,
            ) {
                Ok(e) => Ok(EffectView::CreateTokenState(e)),
                Err(e) => Err(e),
            },
            EscrowInstruction::ListToken { args } => match spec_list_token(
                accounts,
                args,
                program_id,
            ) {
                Ok(e) => Ok(EffectView::ListToken(e)),
                Err(e) => Err(e),
            },
            EscrowInstruction::Exchange { amount } => match spec_exchange(
                accounts,
                amount,
                program_id,
            ) {
                Ok(e) => Ok(EffectView::Exchange(e)),
                Err(e) => Err(e),
            },
            EscrowInstruction::Cancel => match spec_cancel(accounts, program_id) {
                Ok(e) => Ok(EffectView::Cancel(e)),
                Err(e) => Err(e),
            },
        },
    }
}

/// The bounds a whole request must satisfy: those of the operation its
/// payload decodes to.
pub open spec fn spec_process_args_ok(
    accounts: Seq<Account>,
    instruction_data: Seq<u8>,
    program_id: Address,
) -> bool {
    &&& (spec_unpack(instruction_data) matches Ok(EscrowInstruction::ListToken { args })
        ==> spec_list_args_ok(accounts, args, program_id))
    &&& (spec_unpack(instruction_data) matches Ok(EscrowInstruction::Exchange { amount })
        ==> spec_exchange_args_ok(accounts, amount, program_id))
    &&& (spec_unpack(instruction_data) matches Ok(EscrowInstruction::Cancel)
        ==> spec_cancel_args_ok(accounts, program_id))
}

/// The engine. Handlers are associated functions; each takes the ordered
/// account list the host staged for the request.
pub struct Processor;

impl Processor {
    /// The single entry point: decodes the request payload and performs the
    /// operation it names against the ordered account list, returning the
    /// effect to execute or the error that aborts the request.
    pub fn process(
        program_id: &Address,
        accounts: &Vec<Account>,
        instruction_data: &[u8],
        admin_identity: &Address,
    ) -> (r: Result<Effect, EscrowError>)
        requires
            spec_process_args_ok(accounts@, instruction_data@, *program_id),
        ensures
            (match r {
                Ok(e) => spec_process(accounts@, instruction_data@, *program_id, *admin_identity)
                    == Ok::<EffectView, EscrowError>(e@),
                Err(e) => spec_process(accounts@, instruction_data@, *program_id, *admin_identity)
                    == Err::<EffectView, EscrowError>(e),
            }),
    {
        let instruction = match EscrowInstruction::unpack(instruction_data) {
            Ok(ins) => ins,
            Err(e) => {
                return Err(e);
            },
        };
        match instruction {
            EscrowInstruction::CreatePlatformState { amount } => {
                match Self::process_create_platform_state(
                    accounts,
                    amount,
                    program_id,
                    admin_identity,
                ) {
                    Ok(e) => Ok(Effect::CreatePlatform(e)),
                    Err(e) => Err(e),
                }
            },
            EscrowInstruction::CreateTokenstate => {
                match Self::process_create_token_state(accounts, program_id, admin_identity) {
                    Ok(e) => Ok(Effect::CreateTokenState(e)),
                    Err(e) => Err(e),
                }
            },
            EscrowInstruction::ListToken { args } => {
                match Self::process_init_escrow(accounts, args, program_id) {
                    Ok(e) => Ok(Effect::ListToken(e)),
                    Err(e) => Err(e),
                }
            },
            EscrowInstruction::Exchange { amount } => {
                match Self::process_exchange(accounts, amount, program_id) {
                    Ok(e) => Ok(Effect::Exchange(e)),
                    Err(e) => Err(e),
                }
            },
            EscrowInstruction::Cancel => {
                match Self::process_cancel(accounts, program_id) {
                    Ok(e) => Ok(Effect::Cancel(e)),
                    Err(e) => Err(e),
                }
            },
        }
    }

    /// Creates the platform record: the configured administrator allocates
    /// the singleton platform account and stores the treasury address and
    /// the platform fee percentage.
    pub fn process_create_platform_state(
        accounts: &Vec<Account>,
        amount: u64,
        program_id: &Address,
        admin_identity: &Address,
    ) -> (r: Result<CreatePlatformEffect, EscrowError>)
        ensures
            (match r {
                Ok(e) => spec_create_platform_state(accounts@, amount, *admin_identity) == Ok::<
                    CreatePlatformEffectView,
                    EscrowError,
                >(e@),
                Err(e) => spec_create_platform_state(accounts@, amount, *admin_identity) == Err::<
                    CreatePlatformEffectView,
                    EscrowError,
                >(e),
            }),
    {
        let _ = program_id;
        if accounts.len() < 1 {
            return Err(EscrowError::NotEnoughAccountKeys);
        }
        if !accounts[0].key.eq_addr(admin_identity) {
            return Err(EscrowError::InvalidAccountData);
        }
        if accounts.len() < 4 {
            return Err(EscrowError::NotEnoughAccountKeys);
        }
        let record = PlatformState {
            is_initialized: true,
            treasury_account: accounts[3].key,
            platform_fee_percent: amount,
        };
        Ok(CreatePlatformEffect { record })
    }

    /// Creates a token record for one mint: verifies the administrator and
    /// the platform account, re-derives the token-state custody address from
    /// (platform account, token mint), and allocates and initializes the
    /// record at that address.
    pub fn process_create_token_state(
        accounts: &Vec<Account>,
        program_id: &Address,
        admin_identity: &Address,
    ) -> (r: Result<CreateTokenStateEffect, EscrowError>)
        ensures
            (match r {
                Ok(e) => spec_create_token_state(accounts@, *program_id, *admin_identity) == Ok::<
                    CreateTokenStateEffectView,
                    EscrowError,
                >(e@),
                Err(e) => spec_create_token_state(accounts@, *program_id, *admin_identity)
                    == Err::<CreateTokenStateEffectView, EscrowError>(e),
            }),
    {
        if accounts.len() < 1 {
            return Err(EscrowError::NotEnoughAccountKeys);
        }
        if !accounts[0].key.eq_addr(admin_identity) {
            return Err(EscrowError::InvalidAccountData);
        }
        if accounts.len() < 2 {
            return Err(EscrowError::NotEnoughAccountKeys);
        }
        if !accounts[1].owner.eq_addr(program_id) {
            return Err(EscrowError::IncorrectProgramId);
        }
        if accounts.len() < 5 {
            return Err(EscrowError::NotEnoughAccountKeys);
        }
        let mut seeds: Vec<Address> = Vec::new();
        seeds.push(accounts[1].key);
        seeds.push(accounts[3].key);
        proof {
            assert(seed_bytes(seeds@) =~= seq![accounts@[1].key@, accounts@[3].key@]);
        }
        let derived = try_derive_address(&seeds, program_id);
        match derived {
            None => Err(EscrowError::InvalidAccountData),
            Some(p) => {
                if !p.0.eq_addr(&accounts[2].key) {
                    return Err(EscrowError::InvalidAccountData);
                }
                let record = TokenState {
                    is_initialized: true,
                    owner_pubkey: accounts[0].key,
                    token_mint: accounts[3].key,
                    total_no_of_tokens_listed: 0,
                };
                Ok(CreateTokenStateEffect { bump: p.1, record })
            },
        }
    }

    /// Lists tokens for sale: verifies the seller signed, re-derives the
    /// listing record's custody address from (seller, token mint,
    /// token-state account), allocates the record account if this program
    /// does not own it yet, refuses to overwrite an active listing, escrows
    /// the deposit, and stores the listing and the updated aggregate.
    pub fn process_init_escrow(
        accounts: &Vec<Account>,
        args: (u64, u64),
        program_id: &Address,
    ) -> (r: Result<ListTokenEffect, EscrowError>)
        requires
            spec_list_args_ok(accounts@, args, *program_id),
        ensures
            (match r {
                Ok(e) => spec_list_token(accounts@, args, *program_id) == Ok::<
                    ListTokenEffectView,
                    EscrowError,
                >(e@),
                Err(e) => spec_list_token(accounts@, args, *program_id) == Err::<
                    ListTokenEffectView,
                    EscrowError,
                >(e),
            }),
    {
        if accounts.len() < 1 {
            return Err(EscrowError::NotEnoughAccountKeys);
        }
        if !accounts[0].is_signer {
            return Err(EscrowError::MissingRequiredSignature);
        }
        if accounts.len() < 8 {
            return Err(EscrowError::NotEnoughAccountKeys);
        }
        let mut seeds: Vec<Address> = Vec::new();
        seeds.push(accounts[0].key);
        seeds.push(accounts[2].key);
        seeds.push(accounts[7].key);
        proof {
            assert(seed_bytes(seeds@) =~= seq![
                accounts@[0].key@,
                accounts@[2].key@,
                accounts@[7].key@,
            ]);
        }
        let derived = try_derive_address(&seeds, program_id);
        match derived {
            None => Err(EscrowError::InvalidAccountData),
            Some(p) => {
                if !p.0.eq_addr(&accounts[3].key) {
                    return Err(EscrowError::InvalidAccountData);
                }
                let create_needed = !accounts[3].owner.eq_addr(program_id);
                let lister_active: bool;
                if create_needed {
                    proof {
                        assert(spec_list_record_data(accounts@, *program_id) == spec_zeroed(113));
                        assert(spec_unpack_lister(spec_zeroed(113)) matches Ok(l)
                            && !l.is_initialized);
                    }
                    lister_active = false;
                } else {
                    match ListerState::unpack_from_slice(accounts[3].data.as_slice()) {
                        Ok(l) => {
                            lister_active = l.is_initialized();
                        },
                        Err(e) => {
                            return Err(e);
                        },
                    }
                }
                let staged_token_state = match TokenState::unpack_from_slice(
                    accounts[7].data.as_slice(),
                ) {
                    Ok(t) => t,
                    Err(e) => {
                        return Err(e);
                    },
                };
                if lister_active {
                    return Err(EscrowError::AccountAlreadyInitialized);
                }
                let lister = ListerState {
                    is_initialized: true,
                    seller_pubkey: accounts[0].key,
                    token_mint: accounts[2].key,
                    token_account_pubkey: accounts[4].key,
                    token_amount: args.0,
                    expected_amount_per_token: args.1,
                };
                let token_state = TokenState {
                    is_initialized: staged_token_state.is_initialized,
                    owner_pubkey: staged_token_state.owner_pubkey,
                    token_mint: staged_token_state.token_mint,
                    total_no_of_tokens_listed: staged_token_state.total_no_of_tokens_listed
                        + args.0,
                };
                Ok(
                    ListTokenEffect {
                        create_record_account: create_needed,
                        bump: p.1,
                        escrow_deposit: scaled_token_amount(args.0),
                        lister,
                        token_state,
                    },
                )
            },
        }
    }

    /// Executes a purchase against a listing: verifies the taker signed and
    /// the platform and listing records, re-derives the listing's custody
    /// address, computes the cost, fee and proceeds, pays the seller and the
    /// treasury, releases the purchased tokens from custody, and stores the
    /// reduced listing and aggregate; a listing sold out by the purchase is
    /// retired.
    pub fn process_exchange(
        accounts: &Vec<Account>,
        expected_token_amount_by_taker: u64,
        program_id: &Address,
    ) -> (r: Result<ExchangeEffect, EscrowError>)
        requires
            spec_exchange_args_ok(accounts@, expected_token_amount_by_taker, *program_id),
        ensures
            (match r {
                Ok(e) => spec_exchange(accounts@, expected_token_amount_by_taker, *program_id)
                    == Ok::<ExchangeEffectView, EscrowError>(e@),
                Err(e) => spec_exchange(accounts@, expected_token_amount_by_taker, *program_id)
                    == Err::<ExchangeEffectView, EscrowError>(e),
            }),
    {
        let amount = expected_token_amount_by_taker;
        if accounts.len() < 1 {
            return Err(EscrowError::NotEnoughAccountKeys);
        }
        if !accounts[0].is_signer {
            return Err(EscrowError::MissingRequiredSignature);
        }
        if accounts.len() < 2 {
            return Err(EscrowError::NotEnoughAccountKeys);
        }
        if !accounts[1].owner.eq_addr(program_id) {
            return Err(EscrowError::IncorrectProgramId);
        }
        if accounts.len() < 8 {
            return Err(EscrowError::NotEnoughAccountKeys);
        }
        let mut seeds: Vec<Address> = Vec::new();
        seeds.push(accounts[5].key);
        seeds.push(accounts[6].key);
        seeds.push(accounts[7].key);
        proof {
            assert(seed_bytes(seeds@) =~= seq![
                accounts@[5].key@,
                accounts@[6].key@,
                accounts@[7].key@,
            ]);
        }
        let derived = try_derive_address(&seeds, program_id);
        match derived {
            None => Err(EscrowError::InvalidAccountData),
            Some(p) => {
                if !p.0.eq_addr(&accounts[2].key) {
                    return Err(EscrowError::InvalidAccountData);
                }
                if !accounts[2].owner.eq_addr(program_id) {
                    return Err(EscrowError::IncorrectProgramId);
                }
                let staged_lister = match ListerState::unpack(accounts[2].data.as_slice()) {
                    Ok(l) => l,
                    Err(e) => {
                        return Err(e);
                    },
                };
                let staged_platform = match PlatformState::unpack(accounts[1].data.as_slice()) {
                    Ok(pl) => pl,
                    Err(e) => {
                        return Err(e);
                    },
                };
                let staged_token_state = match TokenState::unpack(accounts[7].data.as_slice()) {
                    Ok(t) => t,
                    Err(e) => {
                        return Err(e);
                    },
                };
                let total_cost = amount * staged_lister.expected_amount_per_token;
                let fee = (total_cost * staged_platform.platform_fee_percent) / 100;
                let proceeds = total_cost - fee;
                if !staged_lister.seller_pubkey.eq_addr(&accounts[5].key) {
                    return Err(EscrowError::InvalidAccountData);
                }
                if accounts.len() < 11 {
                    return Err(EscrowError::NotEnoughAccountKeys);
                }
                if !staged_platform.treasury_account.eq_addr(&accounts[10].key) {
                    return Err(EscrowError::InvalidAccountData);
                }
                let remaining = staged_lister.token_amount - amount;
                let lister = ListerState {
                    is_initialized: remaining != 0,
                    seller_pubkey: staged_lister.seller_pubkey,
                    token_mint: staged_lister.token_mint,
                    token_account_pubkey: staged_lister.token_account_pubkey,
                    token_amount: remaining,
                    expected_amount_per_token: staged_lister.expected_amount_per_token,
                };
                let token_state = TokenState {
                    is_initialized: staged_token_state.is_initialized,
                    owner_pubkey: staged_token_state.owner_pubkey,
                    token_mint: staged_token_state.token_mint,
                    total_no_of_tokens_listed: staged_token_state.total_no_of_tokens_listed
                        - amount,
                };
                Ok(
                    ExchangeEffect {
                        seller_proceeds: proceeds,
                        platform_fee: fee,
                        token_payout: scaled_token_amount(amount),
                        bump: p.1,
                        lister,
                        token_state,
                    },
                )
            },
        }
    }

    /// Cancels a listing: verifies the caller is the recorded seller and the
    /// supplied custody token account is the recorded one, re-derives the
    /// listing's custody address, refunds the whole remaining quantity, and
    /// retires the record while releasing its quantity from the aggregate.
    pub fn process_cancel(accounts: &Vec<Account>, program_id: &Address) -> (r: Result<
        CancelEffect,
        EscrowError,
    >)
        requires
            spec_cancel_args_ok(accounts@, *program_id),
        ensures
            (match r {
                Ok(e) => spec_cancel(accounts@, *program_id) == Ok::<
                    CancelEffectView,
                    EscrowError,
                >(e@),
                Err(e) => spec_cancel(accounts@, *program_id) == Err::<
                    CancelEffectView,
                    EscrowError,
                >(e),
            }),
    {
        if accounts.len() < 6 {
            return Err(EscrowError::NotEnoughAccountKeys);
        }
        let mut seeds: Vec<Address> = Vec::new();
        seeds.push(accounts[0].key);
        seeds.push(accounts[1].key);
        seeds.push(accounts[5].key);
        proof {
            assert(seed_bytes(seeds@) =~= seq![
                accounts@[0].key@,
                accounts@[1].key@,
                accounts@[5].key@,
            ]);
        }
        let derived = try_derive_address(&seeds, program_id);
        match derived {
            None => Err(EscrowError::InvalidAccountData),
            Some(p) => {
                if !p.0.eq_addr(&accounts[4].key) {
                    return Err(EscrowError::InvalidAccountData);
                }
                if !accounts[4].owner.eq_addr(program_id) {
                    return Err(EscrowError::IncorrectProgramId);
                }
                let staged_lister = match ListerState::unpack(accounts[4].data.as_slice()) {
                    Ok(l) => l,
                    Err(e) => {
                        return Err(e);
                    },
                };
                if !staged_lister.seller_pubkey.eq_addr(&accounts[0].key) {
                    return Err(EscrowError::InvalidAccountData);
                }
                if !staged_lister.token_account_pubkey.eq_addr(&accounts[3].key) {
                    return Err(EscrowError::InvalidAccountData);
                }
                if accounts.len() < 7 {
                    return Err(EscrowError::NotEnoughAccountKeys);
                }
                let staged_token_state = match TokenState::unpack_from_slice(
                    accounts[5].data.as_slice(),
                ) {
                    Ok(t) => t,
                    Err(e) => {
                        return Err(e);
                    },
                };
                let lister = ListerState {
                    is_initialized: false,
                    seller_pubkey: staged_lister.seller_pubkey,
                    token_mint: staged_lister.token_mint,
                    token_account_pubkey: staged_lister.token_account_pubkey,
                    token_amount: staged_lister.token_amount,
                    expected_amount_per_token: staged_lister.expected_amount_per_token,
                };
                let token_state = TokenState {
                    is_initialized: staged_token_state.is_initialized,
                    owner_pubkey: staged_token_state.owner_pubkey,
                    token_mint: staged_token_state.token_mint,
                    total_no_of_tokens_listed: staged_token_state.total_no_of_tokens_listed
                        - staged_lister.token_amount,
                };
                Ok(
                    CancelEffect {
                        refund: scaled_token_amount(staged_lister.token_amount),
                        bump: p.1,
                        lister,
                        token_state,
                    },
                )
            },
        }
    }
}

/// Fee split law: for any fee percentage up to 100, the platform fee and
/// the seller proceeds partition the total cost exactly — the fee is
/// rounded down and the remainder goes to the seller.
pub proof fn lemma_fee_split_exact(total_cost: u64, fee_percent: u64)
    requires
        fee_percent <= 100,
    ensures
        spec_platform_fee(total_cost, fee_percent) + spec_seller_proceeds(total_cost, fee_percent)
            == total_cost,
        0 <= spec_platform_fee(total_cost, fee_percent),
        spec_platform_fee(total_cost, fee_percent) <= total_cost,
{
    assert(0 <= total_cost * fee_percent / 100 && total_cost * fee_percent / 100 <= total_cost)
        by (nonlinear_arith)
        requires
            0 <= total_cost,
            0 <= fee_percent,
            fee_percent <= 100,
    ;
}

/// Exchange outcome law: a successful purchase reduces the listed quantity
/// by exactly the purchased quantity, retires the listing precisely when
/// the whole quantity was bought, and splits the total cost exactly
/// between the seller's proceeds and the platform fee.
pub proof fn lemma_exchange_outcome(
    accounts: Seq<Account>,
    amount: u64,
    program_id: Address,
    e: ExchangeEffectView,
)
    requires
        spec_exchange_args_ok(accounts, amount, program_id),
        spec_exchange(accounts, amount, program_id) == Ok::<ExchangeEffectView, EscrowError>(e),
    ensures
        spec_unpack_lister_checked(accounts[2].data@) matches Ok(l) && {
            &&& e.lister.token_amount == l.token_amount - amount
            &&& (e.lister.is_initialized <==> amount != l.token_amount)
            &&& e.seller_proceeds + e.platform_fee == amount * l.expected_amount_per_token
        },
{
    let l = spec_unpack_lister_checked(accounts[2].data@)->Ok_0;
    let total = amount * l.expected_amount_per_token;
    assert(0 <= total * spec_unpack_platform_checked(
        accounts[1].data@,
    )->Ok_0.platform_fee_percent) by (nonlinear_arith)
        requires
            0 <= total,
            0 <= spec_unpack_platform_checked(accounts[1].data@)->Ok_0.platform_fee_percent,
    ;
}

/// Rejection law: a purchase that presents any listing record account
/// other than the one at the re-derived custody address is rejected with
/// `InvalidAccountData`.
pub proof fn lemma_wrong_custody_rejected(accounts: Seq<Account>, amount: u64, program_id: Address)
    requires
        accounts.len() >= 8,
        accounts[0].is_signer,
        accounts[1].owner@ == program_id@,
        pda_of(seq![accounts[5].key@, accounts[6].key@, accounts[7].key@], program_id@)
            matches Some(p) && p.0 != accounts[2].key@,
    ensures
        spec_exchange(accounts, amount, program_id) == Err::<ExchangeEffectView, EscrowError>(
            EscrowError::InvalidAccountData,
        ),
{
}

/// Rejection law: a purchase against a listing record that is not
/// initialized — already fully sold or cancelled — fails, whatever else
/// the request presents, and so leaves every balance untouched.
pub proof fn lemma_exchange_uninitialized_rejected(
    accounts: Seq<Account>,
    amount: u64,
    program_id: Address,
)
    requires
        spec_unpack_lister(accounts[2].data@) matches Ok(l) && !l.is_initialized,
    ensures
        spec_exchange(accounts, amount, program_id) is Err,
{
}

/// Listing round-trip law: listing a quantity and immediately cancelling
/// refunds exactly the base units the listing escrowed, and leaves the
/// listing record uninitialized — the seller's external token balance is
/// unchanged by the pair of operations.
pub proof fn lemma_list_then_cancel(
    list_accounts: Seq<Account>,
    cancel_accounts: Seq<Account>,
    args: (u64, u64),
    program_id: Address,
    le: ListTokenEffectView,
    ce: CancelEffectView,
)
    requires
        spec_list_token(list_accounts, args, program_id) == Ok::<ListTokenEffectView, EscrowError>(
            le,
        ),
        cancel_accounts[4].data@ == spec_pack_lister(le.lister),
        spec_cancel(cancel_accounts, program_id) == Ok::<CancelEffectView, EscrowError>(ce),
    ensures
        ce.refund == le.escrow_deposit,
        !ce.lister.is_initialized,
        ce.lister.token_amount == args.0,
{
    lemma_lister_round_trip(le.lister);
}

} // verus!
