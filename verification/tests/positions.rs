use pencil::asset_pool::approve_asset_pool;
use pencil::asset_pool::create_asset_pool;
use pencil::asset_pool::initialize_related_accounts;
use pencil::errors::PencilError;
use pencil::funding::complete_funding;
use pencil::funding::distribute_junior_nft;
use pencil::funding::distribute_senior_token;
use pencil::funding::finalize_token_distribution;
use pencil::funding::subscribe_junior;
use pencil::funding::subscribe_senior;
use pencil::repayment::claim_junior_interest;
use pencil::repayment::early_exit_senior;
use pencil::repayment::repay;
use pencil::repayment::withdraw_principal;
use pencil::state::AssetPool;
use pencil::state::AssetWhitelist;
use pencil::state::FirstLossPool;
use pencil::state::Funding;
use pencil::state::JuniorInterestPool;
use pencil::state::JuniorNFTMetadata;
use pencil::state::PoolState;
use pencil::state::PoolStatus;
use pencil::state::SeniorPool;
use pencil::state::Subscription;
use pencil::state::SubscriptionStatus;
use pencil::state::SystemConfig;
use pencil::state::Tranche;
use pencil::system_config::initialize_system_config;
use pencil::tokens::burn_grow_token;
use pencil::tokens::mint_grow_token;
use pencil::tokens::mint_junior_nft;

fn config() -> SystemConfig {
    initialize_system_config(1, 2, 200, 300, 500, 400, 2000).unwrap()
}

fn whitelist() -> AssetWhitelist {
    AssetWhitelist { system_config: 99, assets: vec![7] }
}

fn fresh_sub() -> Subscription {
    Subscription {
        user: 0,
        subscription_type: Tranche::Senior,
        amount: 0,
        status: SubscriptionStatus::Pending,
        subscribed_at: 0,
    }
}

fn funded_with_subs() -> (PoolState, Subscription, Subscription) {
    let c = config();
    let wl = whitelist();
    let mut pool = create_asset_pool(
        &c,
        &wl,
        5,
        7,
        99,
        b"alpha".to_vec(),
        200,
        300,
        500,
        400,
        2000,
        500,
        800,
        30,
        10,
        100_000,
        5_000,
        1_000,
        87_400,
        500,
    )
    .unwrap();
    approve_asset_pool(&c, &mut pool, 1).unwrap();
    let mut state = initialize_related_accounts(pool, 11, 12).unwrap();
    let mut ssub = fresh_sub();
    let mut jsub = fresh_sub();
    subscribe_senior(&c, &wl, &mut state, &mut ssub, 21, 70_000, 2_000).unwrap();
    subscribe_junior(&c, &wl, &mut state, &mut jsub, 22, 30_000, 2_000).unwrap();
    complete_funding(&mut state, 87_401).unwrap();
    (state, ssub, jsub)
}

/// A completed pool holding `vault` with a first-loss ledger of
/// `total_deposits` junior shares, none consumed, and `grow_supply` senior
/// yield tokens outstanding.
fn completed_state(vault: u64, total_deposits: u64, grow_supply: u64) -> PoolState {
    PoolState {
        pool: AssetPool {
            name: b"manual".to_vec(),
            status: PoolStatus::Completed,
            asset_address: 7,
            system_config: 99,
            platform_fee: 200,
            senior_early_before_exit_fee: 300,
            senior_early_after_exit_fee: 500,
            junior_early_before_exit_fee: 400,
            min_junior_ratio: 2000,
            repayment_rate: 500,
            senior_fixed_rate: 800,
            repayment_period: 30,
            repayment_count: 10,
            total_amount: 100_000,
            min_amount: 5_000,
            funding_start_time: 1_000,
            funding_end_time: 87_400,
            senior_amount: 70_000,
            junior_amount: total_deposits,
            repaid_amount: 150_000,
            creator: 5,
            created_at: 500,
            related_accounts_initialized: true,
        },
        funding: Funding { asset_address: 7, senior_total: 0, junior_total: 0, status: 0 },
        senior_pool: SeniorPool { grow_token: 11, total_deposits: 70_000, repaid_amount: 0 },
        first_loss_pool: FirstLossPool {
            junior_nft: 12,
            total_deposits,
            repaid_amount: 0,
        },
        junior_interest_pool: JuniorInterestPool {
            junior_nft: 12,
            total_interest: 0,
            distributed_interest: 0,
        },
        records: vec![],
        vault_balance: vault,
        grow_supply,
    }
}

fn position(nft_id: u64, owner: u64, principal: u64) -> JuniorNFTMetadata {
    JuniorNFTMetadata {
        nft_id,
        owner,
        principal,
        claimed_interest: 0,
        principal_withdrawn: false,
        created_at: 0,
    }
}

#[test]
fn distribution_confirms_subscriptions() {
    let (mut state, mut ssub, mut jsub) = funded_with_subs();
    let minted = distribute_senior_token(&mut state, &mut ssub).unwrap();
    assert_eq!(minted, 70_000);
    assert_eq!(state.grow_supply, 70_000);
    assert_eq!(ssub.status, SubscriptionStatus::Confirmed);
    // a confirmed subscription cannot be distributed twice
    assert_eq!(
        distribute_senior_token(&mut state, &mut ssub),
        Err(PencilError::InvalidSubscriptionStatus)
    );
    let nft = distribute_junior_nft(&state, &mut jsub, 1, 90_000).unwrap();
    assert_eq!(nft.owner, 22);
    assert_eq!(nft.principal, 30_000);
    assert_eq!(nft.claimed_interest, 0);
    assert!(!nft.principal_withdrawn);
    assert_eq!(nft.created_at, 90_000);
    assert_eq!(jsub.status, SubscriptionStatus::Confirmed);
    // the junior record cannot mint senior tokens
    assert_eq!(
        distribute_senior_token(&mut state, &mut jsub),
        Err(PencilError::InvalidSubscriptionStatus)
    );
    let ev = finalize_token_distribution(&state, 1, 1, 90_001).unwrap();
    assert_eq!(ev.senior_amount, 70_000);
    assert_eq!(ev.junior_count, 1);
}

#[test]
fn token_mint_and_burn_track_supply() {
    let (mut state, _, _) = funded_with_subs();
    assert_eq!(mint_grow_token(&mut state, 0), Err(PencilError::InvalidSubscriptionAmount));
    mint_grow_token(&mut state, 500).unwrap();
    assert_eq!(state.grow_supply, 500);
    assert_eq!(
        burn_grow_token(&mut state, 100, 200),
        Err(PencilError::InsufficientBalance)
    );
    burn_grow_token(&mut state, 200, 200).unwrap();
    assert_eq!(state.grow_supply, 300);
    // burning more than the supply is refused
    assert_eq!(
        burn_grow_token(&mut state, 400, 400),
        Err(PencilError::InsufficientBalance)
    );
    let nft = mint_junior_nft(&state, 9, 44, 1_234, 90_000).unwrap();
    assert_eq!(nft.nft_id, 9);
    assert_eq!(nft.owner, 44);
    assert_eq!(nft.principal, 1_234);
    assert_eq!(
        mint_junior_nft(&state, 9, 44, 0, 90_000),
        Err(PencilError::InvalidSubscriptionAmount)
    );
    let idle = completed_state(0, 1_000, 0);
    assert_eq!(mint_grow_token(&mut idle.clone(), 5), Err(PencilError::InvalidAssetPoolStatus));
    assert_eq!(
        mint_junior_nft(&idle, 9, 44, 10, 90_000),
        Err(PencilError::InvalidAssetPoolStatus)
    );
}

#[test]
fn interest_claim_is_pro_rata_and_once() {
    let c = config();
    let wl = whitelist();
    let (mut state, _, _) = funded_with_subs();
    repay(&c, &wl, &mut state, 15_000, 1, 87_401).unwrap();
    assert_eq!(state.junior_interest_pool.total_interest, 2_100);
    // a position holding half the junior principal
    let mut nft = position(1, 31, 15_000);
    let ev = claim_junior_interest(&c, &mut state, &mut nft, 31, 90_000).unwrap();
    assert_eq!(ev.amount, 2_100 * 15_000 / 30_000);
    assert_eq!(nft.claimed_interest, 1_050);
    assert_eq!(state.junior_interest_pool.distributed_interest, 1_050);
    // nothing more to claim until the next repayment
    assert_eq!(
        claim_junior_interest(&c, &mut state, &mut nft, 31, 90_001),
        Err(PencilError::NoInterestToClaim)
    );
    repay(&c, &wl, &mut state, 15_000, 2, 87_400 + 60).unwrap();
    let ev = claim_junior_interest(&c, &mut state, &mut nft, 31, 90_002).unwrap();
    assert_eq!(ev.amount, 1_050);
    assert_eq!(nft.claimed_interest, 2_100);
    assert_eq!(state.junior_interest_pool.distributed_interest, 2_100);
}

#[test]
fn interest_claim_rejects_bad_requests() {
    let c = config();
    let mut state = completed_state(10_000, 1_000, 0);
    state.junior_interest_pool.total_interest = 100;
    let mut nft = position(1, 31, 500);
    assert_eq!(
        claim_junior_interest(&c, &mut state, &mut nft, 32, 1),
        Err(PencilError::Unauthorized)
    );
    // an empty junior ledger cannot be shared
    let mut empty = completed_state(10_000, 0, 0);
    assert_eq!(
        claim_junior_interest(&c, &mut empty, &mut nft, 31, 1),
        Err(PencilError::InvalidPrincipalCalculation)
    );
    // share 100 * 500 / 1000 = 50, but only 40 is undistributed
    state.junior_interest_pool.distributed_interest = 60;
    assert_eq!(
        claim_junior_interest(&c, &mut state, &mut nft, 31, 1),
        Err(PencilError::InsufficientPoolFunds)
    );
    // the vault cannot pay the claim
    state.junior_interest_pool.distributed_interest = 0;
    state.vault_balance = 10;
    assert_eq!(
        claim_junior_interest(&c, &mut state, &mut nft, 31, 1),
        Err(PencilError::InsufficientVaultBalance)
    );
    assert_eq!(nft.claimed_interest, 0);
}

#[test]
fn principal_redemption_is_pro_rata_with_fixed_shares() {
    let c = config();
    // two positions of 300 and 700 against a vault of 500
    let mut state = completed_state(500, 1_000, 0);
    let mut first = position(1, 41, 300);
    let mut second = position(2, 42, 700);
    let ev = withdraw_principal(&c, &mut state, &mut first, 41, 1).unwrap();
    assert_eq!(ev.amount, 500 * 300 / 1_000);
    assert!(first.principal_withdrawn);
    assert_eq!(state.first_loss_pool.repaid_amount, 300);
    assert_eq!(state.vault_balance, 350);
    // the second claimant divides by its own remaining shares, 700
    let ev = withdraw_principal(&c, &mut state, &mut second, 42, 2).unwrap();
    assert_eq!(ev.amount, 350 * 700 / 700);
    assert_eq!(state.first_loss_pool.repaid_amount, 1_000);
    assert_eq!(state.vault_balance, 0);
}

#[test]
fn principal_redemption_rejects_bad_requests() {
    let c = config();
    let mut state = completed_state(500, 1_000, 0);
    let mut nft = position(1, 41, 300);
    assert_eq!(
        withdraw_principal(&c, &mut state, &mut nft, 40, 1),
        Err(PencilError::Unauthorized)
    );
    let mut repaying = completed_state(500, 1_000, 0);
    repaying.pool.status = PoolStatus::Repaying;
    assert_eq!(
        withdraw_principal(&c, &mut repaying, &mut nft, 41, 1),
        Err(PencilError::InvalidAssetPoolStatus)
    );
    let mut zero = position(2, 41, 0);
    assert_eq!(
        withdraw_principal(&c, &mut state, &mut zero, 41, 1),
        Err(PencilError::InvalidPrincipalCalculation)
    );
    // once withdrawn, never again
    withdraw_principal(&c, &mut state, &mut nft, 41, 1).unwrap();
    assert_eq!(
        withdraw_principal(&c, &mut state, &mut nft, 41, 2),
        Err(PencilError::NoPrincipalToWithdraw)
    );
    // a drained share ledger cannot divide
    let mut drained = completed_state(500, 1_000, 0);
    drained.first_loss_pool.repaid_amount = 1_000;
    let mut late = position(3, 43, 100);
    assert_eq!(
        withdraw_principal(&c, &mut drained, &mut late, 43, 1),
        Err(PencilError::InvalidPrincipalCalculation)
    );
    // a payout larger than the vault is refused
    let mut skewed = completed_state(50, 2_100, 0);
    skewed.first_loss_pool.repaid_amount = 2_000;
    let mut big = position(4, 44, 2_000);
    big.principal_withdrawn = false;
    assert_eq!(
        withdraw_principal(&c, &mut skewed, &mut big, 44, 1),
        Err(PencilError::InsufficientVaultBalance)
    );
}

#[test]
fn early_exit_charges_the_rate_for_its_time() {
    let c = config();
    let wl = whitelist();
    let (mut state, mut ssub, _) = funded_with_subs();
    distribute_senior_token(&mut state, &mut ssub).unwrap();
    repay(&c, &wl, &mut state, 15_000, 1, 87_401).unwrap();
    let vault_before = state.vault_balance;
    // after the window closed the after-close rate applies: 5%
    let ev = early_exit_senior(&c, &mut state, 21, 70_000, 1_000, 87_401).unwrap();
    assert_eq!(ev.fee, 50);
    assert_eq!(ev.net_amount, 950);
    assert_eq!(state.grow_supply, 69_000);
    assert_eq!(state.senior_pool.total_deposits, 69_000);
    assert_eq!(state.vault_balance, vault_before - 1_000);
    // before the window closes the before-close rate applies: 3%
    let ev = early_exit_senior(&c, &mut state, 21, 69_000, 1_000, 87_000).unwrap();
    assert_eq!(ev.fee, 30);
    assert_eq!(ev.net_amount, 970);
}

#[test]
fn completed_exit_is_pure_pro_rata() {
    let c = config();
    let mut state = completed_state(500, 1_000, 1_000);
    let ev = early_exit_senior(&c, &mut state, 21, 300, 300, 90_000).unwrap();
    assert_eq!(ev.fee, 0);
    assert_eq!(ev.net_amount, 500 * 300 / 1_000);
    assert_eq!(state.grow_supply, 700);
    assert_eq!(state.vault_balance, 350);
    assert_eq!(state.senior_pool.total_deposits, 70_000 - 150);
    // burning more than the supply is refused
    let mut small = completed_state(500, 1_000, 100);
    assert_eq!(
        early_exit_senior(&c, &mut small, 21, 300, 200, 90_000),
        Err(PencilError::InsufficientBalance)
    );
    // no tokens outstanding: nothing to redeem against
    let mut none = completed_state(500, 1_000, 0);
    assert_eq!(
        early_exit_senior(&c, &mut none, 21, 300, 300, 90_000),
        Err(PencilError::InvalidPrincipalCalculation)
    );
}

#[test]
fn early_exit_rejects_bad_requests() {
    let c = config();
    let (mut state, mut ssub, _) = funded_with_subs();
    distribute_senior_token(&mut state, &mut ssub).unwrap();
    assert_eq!(
        early_exit_senior(&c, &mut state, 21, 70_000, 0, 87_401),
        Err(PencilError::InvalidEarlyExitAmount)
    );
    assert_eq!(
        early_exit_senior(&c, &mut state, 21, 100, 200, 87_401),
        Err(PencilError::InsufficientBalance)
    );
    let mut approved = state.clone();
    approved.pool.status = PoolStatus::Approved;
    assert_eq!(
        early_exit_senior(&c, &mut approved, 21, 70_000, 1_000, 87_401),
        Err(PencilError::InvalidAssetPoolStatus)
    );
    // the vault cannot cover the fee plus the refund
    let mut poor = state.clone();
    poor.vault_balance = 100;
    poor.first_loss_pool.repaid_amount = poor.first_loss_pool.total_deposits;
    assert_eq!(
        early_exit_senior(&c, &mut poor, 21, 70_000, 1_000, 87_401),
        Err(PencilError::InsufficientVaultBalance)
    );
}

#[test]
fn one_run_conserves_value_and_keeps_counters_monotone() {
    let c = config();
    let wl = whitelist();
    let (mut state, mut ssub, _) = funded_with_subs();
    // flows into the vault: two subscriptions and one repayment
    let flows_in: u64 = 70_000 + 30_000 + 15_000;
    distribute_senior_token(&mut state, &mut ssub).unwrap();
    let repaid_0 = state.pool.repaid_amount;
    let ev = repay(&c, &wl, &mut state, 15_000, 1, 87_401).unwrap();
    assert!(state.pool.repaid_amount >= repaid_0);
    let fee_out = ev.platform_fee;
    let mut nft = position(1, 31, 15_000);
    let claimed_0 = nft.claimed_interest;
    let distributed_0 = state.junior_interest_pool.distributed_interest;
    let claim_ev = claim_junior_interest(&c, &mut state, &mut nft, 31, 90_000).unwrap();
    assert!(nft.claimed_interest >= claimed_0);
    assert!(state.junior_interest_pool.distributed_interest >= distributed_0);
    let exit_ev = early_exit_senior(&c, &mut state, 21, 70_000, 1_000, 87_401).unwrap();
    let flows_out: u64 = fee_out + claim_ev.amount + exit_ev.fee + exit_ev.net_amount;
    // nothing was minted: what left the vault is covered by what entered
    assert!(flows_out <= flows_in);
    assert_eq!(state.vault_balance, flows_in - flows_out);
}
