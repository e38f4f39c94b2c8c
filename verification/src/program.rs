//! The program's instructions, as decisions on plain account state.
//!
//! Sol amounts reach the program as floating-point numbers; the comparisons
//! made on them arrive here as their outcomes, and the instructions decide
//! from those outcomes which error, if any, a request gets, how the accounts
//! change and what the token transfers carry.
use vstd::prelude::*;

use crate::error::AmiErrorCode;
use crate::metadata::TokenMetadata;
use crate::seeds::{authority_signer_seeds, spec_authority_signer_seeds, spec_mint_seeds};
use crate::state::{Counter, TokenTradeStatus};

verus! {

/// Raw units minted into the program's token account when a token is
/// created (10^18, a billion tokens of nine decimals).
pub const MINT_SUPPLY: u64 = 1_000_000_000_000_000_000;

/// The counter as `init_program` leaves it.
pub open spec fn initialized_counter(c: Counter) -> Counter {
    if c.is_initialized {
        c
    } else {
        Counter { count: 0, is_initialized: true }
    }
}

/// Sets up the launch counter: a counter that is already initialised is
/// left as it is; otherwise it starts at zero, marked initialised.
pub fn init_program(counter: &mut Counter) -> (r: Result<(), AmiErrorCode>)
    ensures
        r is Ok,
        *final(counter) == initialized_counter(*old(counter)),
{
    if counter.is_initialized {
        return Ok(());
    }
    counter.count = 0;
    counter.is_initialized = true;
    Ok(())
}

/// What creating a token hands to the token and metadata programs.
pub struct TokenLaunch {
    /// Raw units minted into the program's token account.
    pub mint_amount: u64,
    /// The metadata account's contents.
    pub metadata: TokenMetadata,
    /// Seeds with which the program signs both calls as its authority.
    pub signer_seeds: Vec<Vec<u8>>,
}

/// The counter after `n` launches from `c`.
pub open spec fn counter_after_launches(c: Counter, n: nat) -> Counter
    decreases n,
{
    if n == 0 {
        c
    } else {
        let prev = counter_after_launches(c, (n - 1) as nat);
        Counter { count: (prev.count + 1) as u64, is_initialized: prev.is_initialized }
    }
}

/// Creates a token: the whole supply is minted to the program, the metadata
/// is fixed (the given name, symbol and uri, no seller fee, no creators,
/// collection, uses or collection details, immutable, the update authority
/// not signing, the rent sysvar passed), both calls are signed with the
/// authority's seeds (`authority_bump` being its bump), and the launch
/// counter moves on by one.
pub fn create_token(
    counter: &mut Counter,
    authority_bump: u8,
    name: String,
    symbol: String,
    uri: String,
) -> (launch: TokenLaunch)
    requires
        old(counter).count < u64::MAX,
    ensures
        final(counter).count == old(counter).count + 1,
        final(counter).is_initialized == old(counter).is_initialized,
        *final(counter) == counter_after_launches(*old(counter), 1),
        launch.mint_amount == MINT_SUPPLY,
        launch.metadata.name == name,
        launch.metadata.symbol == symbol,
        launch.metadata.uri == uri,
        launch.metadata.seller_fee_basis_points == 0,
        launch.metadata.creators is None,
        launch.metadata.collection is None,
        launch.metadata.uses is None,
        !launch.metadata.is_mutable,
        launch.metadata.collection_details is None,
        !launch.metadata.update_authority_is_signer,
        launch.metadata.passes_rent_sysvar,
        launch.signer_seeds.deep_view() == spec_authority_signer_seeds(authority_bump),
{
    let metadata = TokenMetadata {
        name,
        symbol,
        uri,
        seller_fee_basis_points: 0,
        creators: None,
        collection: None,
        uses: None,
        is_mutable: false,
        collection_details: None,
        update_authority_is_signer: false,
        passes_rent_sysvar: true,
    };
    counter.count = counter.count + 1;
    let signer_seeds = authority_signer_seeds(authority_bump);
    proof {
        reveal_with_fuel(counter_after_launches, 2);
    }
    TokenLaunch { mint_amount: MINT_SUPPLY, metadata, signer_seeds }
}

/// The outcomes of the comparisons made on a buy request.
#[derive(Clone, Copy, Debug, PartialEq, Eq, Structural)]
pub struct BuyRequest {
    /// The requested sol amount is above the per-trade maximum of 5 sol.
    pub above_max_amount: bool,
    /// The requested amount and the vault's sol together reach the launch
    /// cap of 59 sol.
    pub reaches_cap: bool,
}

/// Which sol amount a buy pays.
#[derive(Clone, Copy, Debug, PartialEq, Eq, Structural)]
pub enum BuySize {
    /// The requested amount.
    Requested,
    /// The launch cap less the requested amount (the buy that closes
    /// trading).
    CapRemainder,
}

/// What a buy request comes to, given whether trading has closed.
pub open spec fn buy_outcome(closed: bool, req: BuyRequest) -> Result<BuySize, AmiErrorCode> {
    if closed {
        Err(AmiErrorCode::InvalidTradeStatus)
    } else if req.above_max_amount {
        Err(AmiErrorCode::InvalidAmount)
    } else if req.reaches_cap {
        Ok(BuySize::CapRemainder)
    } else {
        Ok(BuySize::Requested)
    }
}

/// Whether trading is closed after a buy request.
pub open spec fn closed_after_buy(closed: bool, req: BuyRequest) -> bool {
    closed || (!req.above_max_amount && req.reaches_cap)
}

/// Admits or refuses a buy. A token that has left the curve refuses every
/// buy; otherwise a request above the maximum is refused; a buy that
/// reaches the cap is admitted, pays the cap remainder and closes trading.
pub fn buy(status: &mut TokenTradeStatus, req: BuyRequest) -> (r: Result<BuySize, AmiErrorCode>)
    ensures
        r == buy_outcome(old(status).trade_status, req),
        final(status).trade_status == closed_after_buy(old(status).trade_status, req),
{
    if status.trade_status {
        return Err(AmiErrorCode::InvalidTradeStatus);
    }
    if req.above_max_amount {
        return Err(AmiErrorCode::InvalidAmount);
    }
    if req.reaches_cap {
        status.trade_status = true;
        Ok(BuySize::CapRemainder)
    } else {
        Ok(BuySize::Requested)
    }
}

/// The outcomes of the comparisons made on a sell request, with the size of
/// the trade status account.
#[derive(Clone, Copy, Debug, PartialEq, Eq, Structural)]
pub struct SellRequest {
    /// The sol amount asked for is above the per-trade maximum of 5 sol.
    pub above_max_amount: bool,
    /// Lamports held by the token's trade status account.
    pub status_lamports: u64,
    /// Length of the trade status account's data.
    pub status_data_len: usize,
    /// The sol amount asked for is above what the vault holds.
    pub above_vault_balance: bool,
}

/// The trade status account exists: it holds lamports and data.
pub open spec fn status_account_live(req: SellRequest) -> bool {
    req.status_lamports > 0 && req.status_data_len > 0
}

/// What a sell request comes to, given whether trading has closed.
pub open spec fn sell_outcome(closed: bool, req: SellRequest) -> Result<(), AmiErrorCode> {
    if req.above_max_amount {
        Err(AmiErrorCode::InvalidAmount)
    } else if status_account_live(req) && closed {
        Err(AmiErrorCode::InvalidTradeStatus)
    } else if req.above_vault_balance {
        Err(AmiErrorCode::InsufficientFunds)
    } else {
        Ok(())
    }
}

/// Admits or refuses a sell: a request above the maximum is refused; a
/// token that has left the curve, with a live status account, refuses it;
/// a request for more sol than the vault holds is refused.
pub fn sell(status: &TokenTradeStatus, req: SellRequest) -> (r: Result<(), AmiErrorCode>)
    ensures
        r == sell_outcome(status.trade_status, req),
{
    if req.above_max_amount {
        return Err(AmiErrorCode::InvalidAmount);
    }
    if req.status_lamports > 0 && req.status_data_len > 0 {
        if status.trade_status {
            return Err(AmiErrorCode::InvalidTradeStatus);
        }
    }
    if req.above_vault_balance {
        return Err(AmiErrorCode::InsufficientFunds);
    }
    Ok(())
}

/// Pays out a sale: `amount` lamports leave the vault for the seller.
/// Returns the vault's and the seller's new balances.
pub fn settle_sale(vault_lamports: u64, seller_lamports: u64, amount: u64) -> (r: (u64, u64))
    requires
        amount <= vault_lamports,
        seller_lamports + amount <= u64::MAX,
    ensures
        r.0 == vault_lamports - amount,
        r.1 == seller_lamports + amount,
        r.0 + r.1 == vault_lamports + seller_lamports,
{
    (vault_lamports - amount, seller_lamports + amount)
}

/// Setting up the counter twice is setting it up once, and a counter that is
/// already set up keeps its count.
pub proof fn lemma_init_program_idempotent(c: Counter)
    ensures
        initialized_counter(initialized_counter(c)) == initialized_counter(c),
        initialized_counter(c).is_initialized,
        c.is_initialized ==> initialized_counter(c) == c,
        !c.is_initialized ==> initialized_counter(c).count == 0,
{
}

/// On an open curve, a sell within the per-trade maximum is refused with
/// `InsufficientFunds` exactly when it asks for more sol than the vault
/// holds, and is admitted otherwise, whatever the status account holds.
pub proof fn lemma_open_curve_sell_checks_vault(closed: bool, req: SellRequest)
    ensures
        !closed && !req.above_max_amount ==> (sell_outcome(closed, req) == Err::<(), AmiErrorCode>(
            AmiErrorCode::InsufficientFunds,
        ) <==> req.above_vault_balance),
        !closed && !req.above_max_amount && !req.above_vault_balance ==> sell_outcome(closed, req)
            == Ok::<(), AmiErrorCode>(()),
        req.above_vault_balance ==> sell_outcome(closed, req) is Err,
{
}

/// On an open curve, a buy within the per-trade maximum is admitted; it pays
/// the cap remainder exactly when it reaches the cap, and the requested
/// amount otherwise.
pub proof fn lemma_open_curve_buy_admitted(b: BuyRequest)
    ensures
        !b.above_max_amount ==> buy_outcome(false, b) is Ok,
        !b.above_max_amount ==> (buy_outcome(false, b) == Ok::<BuySize, AmiErrorCode>(
            BuySize::CapRemainder,
        ) <==> b.reaches_cap),
        !b.above_max_amount && !b.reaches_cap ==> buy_outcome(false, b) == Ok::<
            BuySize,
            AmiErrorCode,
        >(BuySize::Requested),
        !b.above_max_amount && !b.reaches_cap ==> !closed_after_buy(false, b),
{
}

/// Once a token has left the curve it stays closed: every buy is refused
/// with `InvalidTradeStatus` and leaves it closed, and every sell that passes
/// the amount check, with a live status account, is refused likewise.
pub proof fn lemma_closed_trading_is_final(b: BuyRequest, s: SellRequest)
    ensures
        buy_outcome(true, b) == Err::<BuySize, AmiErrorCode>(AmiErrorCode::InvalidTradeStatus),
        closed_after_buy(true, b),
        !s.above_max_amount && status_account_live(s) ==> sell_outcome(true, s) == Err::<
            (),
            AmiErrorCode,
        >(AmiErrorCode::InvalidTradeStatus),
{
}

/// A buy closes trading exactly when it is admitted at the cap (paying the
/// cap less the requested amount), and a buy on an open curve that is refused changes nothing.
pub proof fn lemma_buy_closes_only_at_cap(closed: bool, req: BuyRequest)
    ensures
        (!closed && closed_after_buy(closed, req)) <==> (!closed && buy_outcome(closed, req)
            == Ok::<BuySize, AmiErrorCode>(BuySize::CapRemainder)),
        buy_outcome(closed, req) is Err ==> closed_after_buy(closed, req) == closed,
{
}

/// A buy is refused for its amount exactly when the curve is open and the
/// amount is above the maximum (a closed curve refuses it for its status
/// first); a sell is refused for its amount exactly when the amount is above
/// the maximum, whatever the state of trading.
pub proof fn lemma_refusal_order(closed: bool, b: BuyRequest, s: SellRequest)
    ensures
        buy_outcome(closed, b) == Err::<BuySize, AmiErrorCode>(AmiErrorCode::InvalidAmount) <==> (
        !closed && b.above_max_amount),
        sell_outcome(closed, s) == Err::<(), AmiErrorCode>(AmiErrorCode::InvalidAmount)
            <==> s.above_max_amount,
{
}

/// From a counter that `init_program` set up fresh, `n` launches leave the
/// count at `n`; the launch made at count `k` derives its mint from
/// `spec_mint_seeds(k)`, so no two of the `n` launches share a mint.
pub proof fn lemma_launches_count_and_mints(c: Counter, n: nat)
    requires
        !c.is_initialized,
        n <= u64::MAX,
    ensures
        counter_after_launches(initialized_counter(c), n).count == n,
        counter_after_launches(initialized_counter(c), n).is_initialized,
        forall|j: nat, k: nat|
            j < n && k < n && j != k ==> spec_mint_seeds(
                #[trigger] counter_after_launches(initialized_counter(c), j).count,
            ).flatten() != spec_mint_seeds(
                #[trigger] counter_after_launches(initialized_counter(c), k).count,
            ).flatten(),
{
    lemma_launch_count(initialized_counter(c), n);
    assert forall|j: nat, k: nat|
        j < n && k < n && j != k implies spec_mint_seeds(
        #[trigger] counter_after_launches(initialized_counter(c), j).count,
    ).flatten() != spec_mint_seeds(
        #[trigger] counter_after_launches(initialized_counter(c), k).count,
    ).flatten() by {
        lemma_launch_count(initialized_counter(c), j);
        lemma_launch_count(initialized_counter(c), k);
        crate::seeds::lemma_mint_seeds_distinct(
            counter_after_launches(initialized_counter(c), j).count,
            counter_after_launches(initialized_counter(c), k).count,
        );
    }
}

/// `n` launches add `n` to the count and keep the counter's set-up flag,
/// where the count does not overflow.
pub proof fn lemma_launch_count(c: Counter, n: nat)
    requires
        c.count + n <= u64::MAX,
    ensures
        counter_after_launches(c, n).count == c.count + n,
        counter_after_launches(c, n).is_initialized == c.is_initialized,
    decreases n,
{
    if n > 0 {
        lemma_launch_count(c, (n - 1) as nat);
    }
}

/// A trade on one token's curve.
pub enum TradeOp {
    Buy(BuyRequest),
    Sell(SellRequest),
}

/// Whether trading is closed after one trade. Sells do not change the
/// trade status; the counter instructions do not touch it.
pub open spec fn closed_after_trade(closed: bool, op: TradeOp) -> bool {
    match op {
        TradeOp::Buy(req) => closed_after_buy(closed, req),
        TradeOp::Sell(_) => closed,
    }
}

/// Whether trading is closed after a run of trades.
pub open spec fn closed_after_trades(closed: bool, ops: Seq<TradeOp>) -> bool
    decreases ops.len(),
{
    if ops.len() == 0 {
        closed
    } else {
        closed_after_trades(closed_after_trade(closed, ops[0]), ops.drop_first())
    }
}

proof fn lemma_closed_after_trades_stays(ops: Seq<TradeOp>)
    ensures
        closed_after_trades(true, ops),
    decreases ops.len(),
{
    if ops.len() > 0 {
        lemma_closed_after_trades_stays(ops.drop_first());
    }
}

/// After a token leaves the curve, whatever trades follow: it is closed
/// before each of them and after all of them, each buy among them is refused
/// with `InvalidTradeStatus`, and so is each sell that passes the amount
/// check with a live status account.
pub proof fn lemma_closed_curve_refuses_all_trades(ops: Seq<TradeOp>)
    ensures
        closed_after_trades(true, ops),
        forall|i: int| 0 <= i < ops.len() ==> #[trigger] closed_after_trades(true, ops.take(i)),
        forall|i: int|
            0 <= i < ops.len() && ops[i] is Buy ==> buy_outcome(
                closed_after_trades(true, ops.take(i)),
                #[trigger] ops[i]->Buy_0,
            ) == Err::<BuySize, AmiErrorCode>(AmiErrorCode::InvalidTradeStatus),
        forall|i: int|
            0 <= i < ops.len() && ops[i] is Sell && !ops[i]->Sell_0.above_max_amount
                && status_account_live(ops[i]->Sell_0) ==> sell_outcome(
                closed_after_trades(true, ops.take(i)),
                #[trigger] ops[i]->Sell_0,
            ) == Err::<(), AmiErrorCode>(AmiErrorCode::InvalidTradeStatus),
{
    lemma_closed_after_trades_stays(ops);
    assert forall|i: int| 0 <= i < ops.len() implies #[trigger] closed_after_trades(
        true,
        ops.take(i),
    ) by {
        lemma_closed_after_trades_stays(ops.take(i));
    }
    assert forall|i: int| 0 <= i < ops.len() && ops[i] is Buy implies buy_outcome(
        closed_after_trades(true, ops.take(i)),
        #[trigger] ops[i]->Buy_0,
    ) == Err::<BuySize, AmiErrorCode>(AmiErrorCode::InvalidTradeStatus) by {
        lemma_closed_after_trades_stays(ops.take(i));
    }
    assert forall|i: int|
        0 <= i < ops.len() && ops[i] is Sell && !ops[i]->Sell_0.above_max_amount
            && status_account_live(ops[i]->Sell_0) implies sell_outcome(
        closed_after_trades(true, ops.take(i)),
        #[trigger] ops[i]->Sell_0,
    ) == Err::<(), AmiErrorCode>(AmiErrorCode::InvalidTradeStatus) by {
        lemma_closed_after_trades_stays(ops.take(i));
    }
}

} // verus!
