//! Tests for the binary record codec: exact byte layout, round trips, and
//! the rejection of malformed buffers.

use token_escrow::addr::Address;
use token_escrow::error::EscrowError;
use token_escrow::state::{
    ListerState, PlatformState, TokenState, LISTER_STATE_LEN, PLATFORM_STATE_LEN, TOKEN_STATE_LEN,
};

fn addr(b: u8) -> Address {
    Address::new([b; 32])
}

#[test]
fn platform_layout_exact() {
    let s = PlatformState {
        is_initialized: true,
        treasury_account: addr(9),
        platform_fee_percent: 5,
    };
    let bytes = s.pack();
    assert_eq!(bytes.len(), PLATFORM_STATE_LEN);
    assert_eq!(bytes[0], 1);
    assert_eq!(&bytes[1..33], &[9u8; 32]);
    assert_eq!(&bytes[33..41], &5u64.to_le_bytes());
}

#[test]
fn platform_round_trip() {
    let s = PlatformState {
        is_initialized: true,
        treasury_account: addr(3),
        platform_fee_percent: u64::MAX,
    };
    let bytes = s.pack();
    assert_eq!(PlatformState::unpack_from_slice(&bytes), Ok(s));
}

#[test]
fn token_layout_exact() {
    let s = TokenState {
        is_initialized: false,
        owner_pubkey: addr(1),
        token_mint: addr(2),
        total_no_of_tokens_listed: 0x0102_0304_0506_0708,
    };
    let bytes = s.pack();
    assert_eq!(bytes.len(), TOKEN_STATE_LEN);
    assert_eq!(bytes[0], 0);
    assert_eq!(&bytes[1..33], &[1u8; 32]);
    assert_eq!(&bytes[33..65], &[2u8; 32]);
    assert_eq!(&bytes[65..73], &0x0102_0304_0506_0708u64.to_le_bytes());
}

#[test]
fn token_round_trip() {
    let s = TokenState {
        is_initialized: true,
        owner_pubkey: addr(4),
        token_mint: addr(5),
        total_no_of_tokens_listed: 123456789,
    };
    let bytes = s.pack();
    assert_eq!(TokenState::unpack_from_slice(&bytes), Ok(s));
}

#[test]
fn lister_layout_exact() {
    let s = ListerState {
        is_initialized: true,
        seller_pubkey: addr(1),
        token_mint: addr(2),
        token_account_pubkey: addr(3),
        token_amount: 100,
        expected_amount_per_token: 10,
    };
    let bytes = s.pack();
    assert_eq!(bytes.len(), LISTER_STATE_LEN);
    assert_eq!(bytes[0], 1);
    assert_eq!(&bytes[1..33], &[1u8; 32]);
    assert_eq!(&bytes[33..65], &[2u8; 32]);
    assert_eq!(&bytes[65..97], &[3u8; 32]);
    assert_eq!(&bytes[97..105], &100u64.to_le_bytes());
    assert_eq!(&bytes[105..113], &10u64.to_le_bytes());
}

#[test]
fn lister_round_trip() {
    let s = ListerState {
        is_initialized: false,
        seller_pubkey: addr(7),
        token_mint: addr(8),
        token_account_pubkey: addr(9),
        token_amount: 60,
        expected_amount_per_token: 10,
    };
    let bytes = s.pack();
    assert_eq!(ListerState::unpack_from_slice(&bytes), Ok(s));
}

#[test]
fn bad_flag_byte_rejected() {
    let s = PlatformState {
        is_initialized: true,
        treasury_account: addr(9),
        platform_fee_percent: 5,
    };
    let mut bytes = s.pack();
    bytes[0] = 2;
    assert_eq!(PlatformState::unpack_from_slice(&bytes), Err(EscrowError::InvalidAccountData));
    let mut lister_bytes = vec![0u8; LISTER_STATE_LEN];
    lister_bytes[0] = 255;
    assert_eq!(
        ListerState::unpack_from_slice(&lister_bytes),
        Err(EscrowError::InvalidAccountData)
    );
}

#[test]
fn wrong_length_rejected() {
    assert_eq!(
        PlatformState::unpack_from_slice(&[0u8; 40]),
        Err(EscrowError::InvalidAccountData)
    );
    assert_eq!(TokenState::unpack_from_slice(&[0u8; 74]), Err(EscrowError::InvalidAccountData));
    assert_eq!(ListerState::unpack_from_slice(&[]), Err(EscrowError::InvalidAccountData));
}

#[test]
fn checked_unpack_demands_initialized() {
    let s = ListerState {
        is_initialized: false,
        seller_pubkey: addr(7),
        token_mint: addr(8),
        token_account_pubkey: addr(9),
        token_amount: 60,
        expected_amount_per_token: 10,
    };
    let bytes = s.pack();
    assert_eq!(ListerState::unpack(&bytes), Err(EscrowError::UninitializedAccount));
    assert_eq!(ListerState::unpack_from_slice(&bytes), Ok(s));
}

#[test]
fn pack_into_slice_overwrites_buffer() {
    let s = PlatformState {
        is_initialized: true,
        treasury_account: addr(6),
        platform_fee_percent: 42,
    };
    let mut dst = vec![0xFFu8; PLATFORM_STATE_LEN];
    s.pack_into_slice(&mut dst);
    assert_eq!(dst, s.pack());
}

#[test]
fn error_descriptions_distinct() {
    let a = EscrowError::InvalidInstructionData.describe();
    let b = EscrowError::InvalidAccountData.describe();
    assert_ne!(a, b);
    assert!(!a.is_empty());
}
