use anchor_lang::prelude::Pubkey;
use nft_staking::address::Address;
use nft_staking::constants::{config_tag, rewards_tag, stake_tag, user_tag, vault_tag};
use nft_staking::custody::{
    Authority, Collection, Holder, MetadataAccount, RewardMint, TokenAccount,
};
use nft_staking::error::ErrorCode;
use nft_staking::instructions::claim::Claim;
use nft_staking::instructions::initialize_config::{InitializeConfig, InitializeConfigBumps};
use nft_staking::instructions::initialize_user_accounts::{Initialize, InitializeBumps};
use nft_staking::instructions::stake::{Stake, StakeBumps};
use nft_staking::instructions::unstake::Unstake;
use nft_staking::seeds::{
    find_config_bumps, find_stake_bumps, find_user_bumps, find_vault, signer_seeds,
};
use nft_staking::state::stake_account::StakeAccount;
use nft_staking::state::stake_config::StakeConfig;
use nft_staking::state::user_accounts::UserAccount;
use nft_staking::{
    claim, initialize_config, initialize_config_with, initialize_user, initialize_user_with, stake,
    stake_with, unstake,
};

fn addr(n: u8) -> Address {
    Address::new([n; 32])
}

fn program() -> Address {
    let mut bytes = [0u8; 32];
    for (i, b) in bytes.iter_mut().enumerate() {
        *b = (i as u8).wrapping_mul(7).wrapping_add(3);
    }
    Address::new(bytes)
}

fn key(a: &Address) -> Pubkey {
    Pubkey::new_from_array(a.to_bytes())
}

fn stake_request(asset: u8) -> Stake {
    Stake {
        user: addr(1),
        mint: addr(asset),
        collection_mint: addr(9),
        mint_ata: TokenAccount { mint: addr(asset), owner: addr(1) },
        metadata: MetadataAccount { collection: Some(Collection { key: addr(9), verified: true }) },
        config: Some(StakeConfig {
            points_per_stake: 10,
            max_stake: 2,
            freeze_period: 100,
            rewards_bump: 254,
            bump: 255,
        }),
        stake_account: None,
        user_account: Some(UserAccount { points: 0, amount_staked: 0, bump: 250 }),
    }
}

#[test]
fn tags_spell_their_names() {
    assert_eq!(config_tag(), b"config".to_vec());
    assert_eq!(rewards_tag(), b"rewards".to_vec());
    assert_eq!(user_tag(), b"user".to_vec());
    assert_eq!(stake_tag(), b"stake".to_vec());
    assert_eq!(vault_tag(), b"vault".to_vec());
}

#[test]
fn signer_seeds_of_each_authority() {
    assert_eq!(signer_seeds(&Authority::Owner), Vec::<Vec<u8>>::new());
    assert_eq!(
        signer_seeds(&Authority::Config { bump: 253 }),
        vec![b"config".to_vec(), vec![253u8]]
    );
}

#[test]
fn config_signer_seeds_give_the_config_address() {
    let program = program();
    let (config, bump) = Pubkey::find_program_address(&[b"config"], &key(&program));
    let bumps = find_config_bumps(&program).unwrap();
    assert_eq!(bumps.config, bump);
    let seeds = signer_seeds(&Authority::Config { bump: bumps.config });
    let parts: Vec<&[u8]> = seeds.iter().map(|s| s.as_slice()).collect();
    assert_eq!(Pubkey::create_program_address(&parts, &key(&program)), Ok(config));
}

#[test]
fn config_bumps_follow_the_config_address() {
    let program = program();
    let (config, bump) = Pubkey::find_program_address(&[b"config"], &key(&program));
    let (_, rewards_bump) =
        Pubkey::find_program_address(&[b"rewards", config.as_ref()], &key(&program));
    assert_eq!(
        find_config_bumps(&program),
        Some(InitializeConfigBumps { config: bump, rewards_mint: rewards_bump })
    );
}

#[test]
fn user_bump_depends_on_the_user() {
    let program = program();
    for n in [1u8, 2, 3, 200] {
        let user = addr(n);
        let (_, bump) = Pubkey::find_program_address(&[b"user", &user.to_bytes()], &key(&program));
        assert_eq!(find_user_bumps(&program, &user), Some(InitializeBumps { user_account: bump }));
    }
}

#[test]
fn stake_bump_depends_on_asset_and_config() {
    let program = program();
    let (config, _) = Pubkey::find_program_address(&[b"config"], &key(&program));
    for n in [10u8, 11, 12, 13] {
        let mint = addr(n);
        let (_, bump) = Pubkey::find_program_address(
            &[b"stake", &mint.to_bytes(), config.as_ref()],
            &key(&program),
        );
        assert_eq!(find_stake_bumps(&program, &mint), Some(StakeBumps { stake_account: bump }));
    }
}

#[test]
fn vault_address_is_derived_from_the_asset() {
    let program = program();
    let mint = addr(42);
    let (vault, _) = Pubkey::find_program_address(&[b"vault", &mint.to_bytes()], &key(&program));
    let found = find_vault(&program, &mint).unwrap();
    assert_eq!(found.to_bytes(), vault.to_bytes());
    assert_ne!(found, program);
    assert_ne!(found, mint);
    assert_ne!(find_vault(&program, &addr(43)).unwrap(), found);
    assert_ne!(find_vault(&addr(5), &mint).unwrap(), found);
    assert_eq!(find_vault(&program, &mint), Some(found));
}

#[test]
fn initialize_config_stores_the_derived_bumps() {
    let program = program();
    let bumps = find_config_bumps(&program).unwrap();
    let mut accounts = InitializeConfig { admin: addr(7), config: None };
    let r = initialize_config(&program, &mut accounts, 10, 2, 100);
    assert_eq!(
        r,
        Ok(RewardMint {
            decimals: 6,
            authority: Authority::Config { bump: bumps.config },
            bump: bumps.rewards_mint,
        })
    );
    assert_eq!(
        accounts.config,
        Some(StakeConfig {
            points_per_stake: 10,
            max_stake: 2,
            freeze_period: 100,
            rewards_bump: bumps.rewards_mint,
            bump: bumps.config,
        })
    );
    let before = accounts;
    assert_eq!(
        initialize_config(&program, &mut accounts, 1, 1, 1),
        Err(ErrorCode::AlreadyExists)
    );
    assert_eq!(accounts, before);
}

#[test]
fn initialize_config_without_bumps_is_not_found() {
    let mut accounts = InitializeConfig { admin: addr(7), config: None };
    assert_eq!(
        initialize_config_with(&mut accounts, None, 10, 2, 100),
        Err(ErrorCode::NotFound)
    );
    assert_eq!(accounts.config, None);
    let bumps = InitializeConfigBumps { config: 4, rewards_mint: 5 };
    assert!(initialize_config_with(&mut accounts, Some(bumps), 10, 2, 100).is_ok());
    assert_eq!(accounts.config.unwrap().bump, 4);
    assert_eq!(accounts.config.unwrap().rewards_bump, 5);
    assert_eq!(
        initialize_config_with(&mut accounts, None, 10, 2, 100),
        Err(ErrorCode::NotFound)
    );
}

#[test]
fn initialize_user_stores_the_derived_bump() {
    let program = program();
    let mut accounts = Initialize { user: addr(1), user_account: None };
    assert_eq!(initialize_user(&program, &mut accounts), Ok(()));
    let bump = find_user_bumps(&program, &addr(1)).unwrap().user_account;
    assert_eq!(accounts.user_account, Some(UserAccount { points: 0, amount_staked: 0, bump }));
    assert_eq!(initialize_user(&program, &mut accounts), Err(ErrorCode::AlreadyExists));

    let mut other = Initialize { user: addr(1), user_account: None };
    assert_eq!(initialize_user_with(&mut other, None), Err(ErrorCode::NotFound));
    assert_eq!(other.user_account, None);
    assert_eq!(
        initialize_user_with(&mut other, Some(InitializeBumps { user_account: 9 })),
        Ok(())
    );
    assert_eq!(other.user_account.unwrap().bump, 9);
}

#[test]
fn stake_stores_the_derived_bump() {
    let program = program();
    let mut accounts = stake_request(20);
    let r = stake(&program, &mut accounts, 77);
    assert_eq!(r.unwrap().to, Holder::Vault);
    let bump = find_stake_bumps(&program, &addr(20)).unwrap().stake_account;
    assert_eq!(
        accounts.stake_account,
        Some(StakeAccount { owner: addr(1), mint: addr(20), staked_at: 77, bump })
    );
    assert_eq!(accounts.user_account.unwrap().amount_staked, 1);
    let before = accounts;
    assert_eq!(stake(&program, &mut accounts, 78), Err(ErrorCode::AlreadyExists));
    assert_eq!(accounts, before);

    let mut other = stake_request(21);
    assert_eq!(stake_with(&mut other, None, 5), Err(ErrorCode::NotFound));
    assert_eq!(other.stake_account, None);
    assert!(stake_with(&mut other, Some(StakeBumps { stake_account: 6 }), 5).is_ok());
    assert_eq!(other.stake_account.unwrap().bump, 6);
}

#[test]
fn unstake_and_claim_through_the_program() {
    let program = program();
    let mut staked = stake_request(20);
    stake(&program, &mut staked, 0).unwrap();
    let mut back = Unstake {
        user: addr(1),
        user_account: staked.user_account,
        config: staked.config,
        nft_mint: addr(20),
        stake_account: staked.stake_account,
        user_nft_ata: TokenAccount { mint: addr(20), owner: addr(1) },
    };
    assert_eq!(unstake(&mut back, 99), Err(ErrorCode::NotElapsed));
    let release = unstake(&mut back, 100).unwrap();
    assert_eq!(release.transfer.authority, Authority::Config { bump: 255 });
    assert_eq!(back.stake_account, None);

    let mut redeem = Claim {
        user: addr(1),
        user_account: back.user_account,
        config: back.config,
        reward_mint: addr(8),
        user_reward_ata: TokenAccount { mint: addr(8), owner: addr(1) },
    };
    assert_eq!(claim(&mut redeem).unwrap().amount, 10);
    assert_eq!(redeem.user_account.unwrap().points, 0);
    assert_eq!(claim(&mut redeem), Err(ErrorCode::LimitExceeded));
}
