use test4::program::{
    BuyRequest, BuySize, SellRequest, MINT_SUPPLY,
};
use test4::seeds::mint_seeds;
use test4::{
    buy, create_token, init_program, sell, settle_sale, AmiErrorCode, Counter, TokenTradeStatus,
};

fn open_status() -> TokenTradeStatus {
    TokenTradeStatus { trade_status: false }
}

fn closed_status() -> TokenTradeStatus {
    TokenTradeStatus { trade_status: true }
}

#[test]
fn init_program_sets_up_fresh_counter() {
    let mut c = Counter { count: 42, is_initialized: false };
    assert_eq!(init_program(&mut c), Ok(()));
    assert_eq!(c, Counter { count: 0, is_initialized: true });
}

#[test]
fn init_program_keeps_initialized_counter() {
    let mut c = Counter { count: 7, is_initialized: true };
    assert_eq!(init_program(&mut c), Ok(()));
    assert_eq!(c, Counter { count: 7, is_initialized: true });
}

#[test]
fn init_program_twice_is_once() {
    let mut once = Counter { count: 9, is_initialized: false };
    init_program(&mut once).unwrap();
    let mut twice = once;
    init_program(&mut twice).unwrap();
    assert_eq!(once, twice);
}

#[test]
fn create_token_counts_and_plans_launch() {
    let mut c = Counter { count: 3, is_initialized: true };
    let launch = create_token(&mut c, 254, "Ami".to_string(), "AMI".to_string(), "https://x/y.json".to_string());
    assert_eq!(c, Counter { count: 4, is_initialized: true });
    assert_eq!(launch.mint_amount, 1_000_000_000_000_000_000u64);
    assert_eq!(launch.mint_amount, MINT_SUPPLY);
    assert_eq!(launch.metadata.name, "Ami");
    assert_eq!(launch.metadata.symbol, "AMI");
    assert_eq!(launch.metadata.uri, "https://x/y.json");
    assert_eq!(launch.metadata.seller_fee_basis_points, 0);
    assert!(!launch.metadata.is_mutable);
    assert!(launch.metadata.creators.is_none());
    assert!(launch.metadata.collection.is_none());
    assert!(launch.metadata.uses.is_none());
    assert!(launch.metadata.collection_details.is_none());
    assert!(!launch.metadata.update_authority_is_signer);
    assert!(launch.metadata.passes_rent_sysvar);
    assert_eq!(launch.signer_seeds, vec![b"authority_pda".to_vec(), vec![254u8]]);
}

#[test]
fn create_token_twice_counts_two() {
    let mut c = Counter { count: 0, is_initialized: true };
    create_token(&mut c, 1, "A".to_string(), "A".to_string(), "u".to_string());
    create_token(&mut c, 1, "B".to_string(), "B".to_string(), "u".to_string());
    assert_eq!(c.count, 2);
}

#[test]
fn buy_plain_request() {
    let mut s = open_status();
    let r = buy(&mut s, BuyRequest { above_max_amount: false, reaches_cap: false });
    assert_eq!(r, Ok(BuySize::Requested));
    assert!(!s.trade_status);
}

#[test]
fn buy_at_cap_closes_trading() {
    let mut s = open_status();
    let r = buy(&mut s, BuyRequest { above_max_amount: false, reaches_cap: true });
    assert_eq!(r, Ok(BuySize::CapRemainder));
    assert!(s.trade_status);
}

#[test]
fn buy_above_max_is_invalid_amount() {
    let mut s = open_status();
    let r = buy(&mut s, BuyRequest { above_max_amount: true, reaches_cap: true });
    assert_eq!(r, Err(AmiErrorCode::InvalidAmount));
    assert!(!s.trade_status);
}

#[test]
fn buy_after_close_is_refused_first() {
    let mut s = closed_status();
    let r = buy(&mut s, BuyRequest { above_max_amount: true, reaches_cap: false });
    assert_eq!(r, Err(AmiErrorCode::InvalidTradeStatus));
    assert!(s.trade_status);
}

#[test]
fn closed_curve_stays_closed() {
    let mut s = open_status();
    buy(&mut s, BuyRequest { above_max_amount: false, reaches_cap: true }).unwrap();
    for req in [
        BuyRequest { above_max_amount: false, reaches_cap: false },
        BuyRequest { above_max_amount: false, reaches_cap: true },
        BuyRequest { above_max_amount: true, reaches_cap: false },
    ] {
        assert_eq!(buy(&mut s, req), Err(AmiErrorCode::InvalidTradeStatus));
        assert!(s.trade_status);
    }
    let live = SellRequest { above_max_amount: false, status_lamports: 1_000_000, status_data_len: 9, above_vault_balance: false };
    assert_eq!(sell(&s, live), Err(AmiErrorCode::InvalidTradeStatus));
}

#[test]
fn sell_admitted() {
    let req = SellRequest { above_max_amount: false, status_lamports: 1_000_000, status_data_len: 9, above_vault_balance: false };
    assert_eq!(sell(&open_status(), req), Ok(()));
}

#[test]
fn sell_above_max_is_checked_first() {
    let req = SellRequest { above_max_amount: true, status_lamports: 1, status_data_len: 9, above_vault_balance: true };
    assert_eq!(sell(&closed_status(), req), Err(AmiErrorCode::InvalidAmount));
}

#[test]
fn sell_on_closed_curve_is_refused() {
    let req = SellRequest { above_max_amount: false, status_lamports: 1, status_data_len: 9, above_vault_balance: true };
    assert_eq!(sell(&closed_status(), req), Err(AmiErrorCode::InvalidTradeStatus));
}

#[test]
fn sell_without_live_status_account_ignores_status() {
    let no_lamports = SellRequest { above_max_amount: false, status_lamports: 0, status_data_len: 9, above_vault_balance: false };
    assert_eq!(sell(&closed_status(), no_lamports), Ok(()));
    let no_data = SellRequest { above_max_amount: false, status_lamports: 5, status_data_len: 0, above_vault_balance: false };
    assert_eq!(sell(&closed_status(), no_data), Ok(()));
}

#[test]
fn sell_above_vault_is_insufficient_funds() {
    let req = SellRequest { above_max_amount: false, status_lamports: 1, status_data_len: 9, above_vault_balance: true };
    assert_eq!(sell(&open_status(), req), Err(AmiErrorCode::InsufficientFunds));
}

#[test]
fn settle_sale_moves_lamports() {
    assert_eq!(settle_sale(3_000_000_000, 500, 1_500_000_000), (1_500_000_000, 1_500_000_500));
}

#[test]
fn settle_sale_conserves_lamports() {
    let (v, s) = settle_sale(10, 20, 10);
    assert_eq!((v, s), (0, 30));
    assert_eq!(v + s, 30);
}

#[test]
fn launches_from_fresh_counter_count_and_use_distinct_mints() {
    let mut c = Counter { count: 99, is_initialized: false };
    init_program(&mut c).unwrap();
    let mut mints: Vec<Vec<u8>> = Vec::new();
    for i in 0..3u64 {
        mints.push(mint_seeds(c.count).concat());
        let launch = create_token(&mut c, 3, format!("T{}", i), "T".to_string(), "u".to_string());
        assert_eq!(launch.mint_amount, 1_000_000_000_000_000_000u64);
    }
    assert_eq!(c.count, 3);
    assert_ne!(mints[0], mints[1]);
    assert_ne!(mints[1], mints[2]);
    assert_ne!(mints[0], mints[2]);
}
