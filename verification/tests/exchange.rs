use escrow::authority::EscrowSeeds;
use escrow::error::{ErrorKind, EscrowError};
use escrow::identity::Identity;
use escrow::instructions::exchange::{process_exchange, ExchangeStage};
use escrow::ledger::{Account, AccountMeta, Action};
use escrow::state::Escrow;
use solana_program::program_option::COption;
use solana_program::program_pack::Pack;
use solana_program::pubkey::Pubkey;
use spl_token::instruction::TokenInstruction;
use spl_token::state::{Account as TokenAccount, AccountState, Mint};

fn key(n: u8) -> Pubkey {
    Pubkey::new_from_array([n; 32])
}

fn id(key: &Pubkey) -> Identity {
    Identity::new(key.to_bytes())
}

fn mint_data(decimals: u8) -> Vec<u8> {
    let mint = Mint {
        mint_authority: COption::None,
        supply: 1_000_000,
        decimals,
        is_initialized: true,
        freeze_authority: COption::Some(key(98)),
    };
    let mut data = vec![0u8; Mint::LEN];
    Mint::pack(mint, &mut data).unwrap();
    data
}

fn token_data(mint: &Pubkey, owner: &Pubkey, amount: u64) -> Vec<u8> {
    let account = TokenAccount {
        mint: *mint,
        owner: *owner,
        amount,
        delegate: COption::None,
        state: AccountState::Initialized,
        is_native: COption::None,
        delegated_amount: 0,
        close_authority: COption::None,
    };
    let mut data = vec![0u8; TokenAccount::LEN];
    TokenAccount::pack(account, &mut data).unwrap();
    data
}

fn account(key: &Pubkey, is_signer: bool, lamports: u64, data: Vec<u8>) -> Account {
    Account { key: id(key), is_signer, lamports, data }
}

fn program() -> Identity {
    id(&key(200))
}

// Roles: 1 maker, 2 taker, 3 asset B (paid by the taker), 4 asset A (held in
// custody), 5 taker's B, 6 taker's A, 7 maker's receive account, 8 escrow,
// 9 custody.
fn record() -> Escrow {
    Escrow::new(true, id(&key(1)), id(&key(4)), id(&key(3)), 100, 50, id(&key(7)), 253)
}

fn accounts() -> Vec<Account> {
    vec![
        account(&key(1), false, 5_000, vec![]),
        account(&key(2), true, 1, vec![]),
        account(&key(3), false, 1, mint_data(9)),
        account(&key(4), false, 1, mint_data(6)),
        account(&key(5), false, 1, token_data(&key(3), &key(2), 500)),
        account(&key(6), false, 1, token_data(&key(4), &key(2), 0)),
        account(&key(7), false, 1, token_data(&key(3), &key(1), 0)),
        account(&key(8), false, 1_907_040, record().to_bytes()),
        account(&key(9), false, 2_039_280, token_data(&key(4), &key(8), 100)),
        account(&spl_token::id(), false, 1, vec![]),
        account(&solana_program::system_program::id(), false, 1, vec![]),
    ]
}

fn seeds() -> EscrowSeeds {
    EscrowSeeds { maker: id(&key(1)), sell_mint: id(&key(4)), bump: 253 }
}

fn start(accounts: &[Account], sell_amount: u64, buy_amount: u64) -> Result<(), EscrowError> {
    process_exchange(accounts, sell_amount, buy_amount, &program(), &ExchangeStage::Start).map(|_| ())
}

#[test]
fn exchange_first_leg_pays_the_maker() {
    let step = process_exchange(&accounts(), 50, 100, &program(), &ExchangeStage::Start).unwrap();
    assert_eq!(step.next, Some(ExchangeStage::MakerPaid { seeds: seeds() }));
    match step.action {
        Action::Invoke { instruction, accounts, signer } => {
            assert_eq!(instruction.program_id, id(&spl_token::id()));
            assert_eq!(
                TokenInstruction::unpack(&instruction.data).unwrap(),
                TokenInstruction::TransferChecked { amount: 50, decimals: 9 }
            );
            assert_eq!(instruction.data, vec![12u8, 50, 0, 0, 0, 0, 0, 0, 0, 9]);
            assert_eq!(
                instruction.accounts,
                vec![
                    AccountMeta { key: id(&key(5)), is_signer: false, is_writable: true },
                    AccountMeta { key: id(&key(3)), is_signer: false, is_writable: false },
                    AccountMeta { key: id(&key(7)), is_signer: false, is_writable: true },
                    AccountMeta { key: id(&key(2)), is_signer: false, is_writable: false },
                    AccountMeta { key: id(&key(2)), is_signer: true, is_writable: false },
                ]
            );
            assert_eq!(accounts, vec![4, 2, 6, 1, 9]);
            assert_eq!(signer, None);
        }
        other => panic!("unexpected action {:?}", other),
    }
}

#[test]
fn exchange_second_leg_pays_the_taker_out_of_custody() {
    let stage = ExchangeStage::MakerPaid { seeds: seeds() };
    let step = process_exchange(&accounts(), 50, 100, &program(), &stage).unwrap();
    assert_eq!(step.next, Some(ExchangeStage::TakerPaid { seeds: seeds() }));
    match step.action {
        Action::Invoke { instruction, accounts, signer } => {
            assert_eq!(instruction.program_id, id(&spl_token::id()));
            assert_eq!(
                TokenInstruction::unpack(&instruction.data).unwrap(),
                TokenInstruction::TransferChecked { amount: 100, decimals: 6 }
            );
            assert_eq!(
                instruction.accounts,
                vec![
                    AccountMeta { key: id(&key(9)), is_signer: false, is_writable: true },
                    AccountMeta { key: id(&key(4)), is_signer: false, is_writable: false },
                    AccountMeta { key: id(&key(6)), is_signer: false, is_writable: true },
                    AccountMeta { key: id(&key(8)), is_signer: false, is_writable: false },
                    AccountMeta { key: id(&key(8)), is_signer: true, is_writable: false },
                ]
            );
            assert_eq!(accounts, vec![8, 3, 5, 7, 9]);
            assert_eq!(signer, Some(seeds()));
        }
        other => panic!("unexpected action {:?}", other),
    }
}

#[test]
fn exchange_third_leg_closes_the_custody_account() {
    let stage = ExchangeStage::TakerPaid { seeds: seeds() };
    let step = process_exchange(&accounts(), 50, 100, &program(), &stage).unwrap();
    assert_eq!(step.next, Some(ExchangeStage::CustodyClosed));
    match step.action {
        Action::Invoke { instruction, accounts, signer } => {
            assert_eq!(instruction.program_id, id(&spl_token::id()));
            assert_eq!(instruction.data, vec![9u8]);
            assert_eq!(
                TokenInstruction::unpack(&instruction.data).unwrap(),
                TokenInstruction::CloseAccount
            );
            assert_eq!(
                instruction.accounts,
                vec![
                    AccountMeta { key: id(&key(9)), is_signer: false, is_writable: true },
                    AccountMeta { key: id(&key(1)), is_signer: false, is_writable: true },
                    AccountMeta { key: id(&key(8)), is_signer: false, is_writable: false },
                    AccountMeta { key: id(&key(8)), is_signer: true, is_writable: false },
                ]
            );
            assert_eq!(accounts, vec![8, 7, 0, 9]);
            assert_eq!(signer, Some(seeds()));
        }
        other => panic!("unexpected action {:?}", other),
    }
}

#[test]
fn exchange_last_leg_returns_the_balance_to_the_maker() {
    let step =
        process_exchange(&accounts(), 50, 100, &program(), &ExchangeStage::CustodyClosed).unwrap();
    assert_eq!(step.next, None);
    assert_eq!(step.action, Action::Reclaim { from: 7, to: 0, lamports: 5_000 + 1_907_040 });
}

#[test]
fn exchange_refuses_a_balance_that_would_overflow() {
    let mut accounts = accounts();
    accounts[0].lamports = u64::MAX - 1_907_040 + 1;
    let refused = process_exchange(&accounts, 50, 100, &program(), &ExchangeStage::CustodyClosed);
    assert_eq!(refused, Err(EscrowError::AmountOverflow));
    assert_eq!(EscrowError::AmountOverflow.kind(), ErrorKind::Resource);
    accounts[0].lamports = u64::MAX - 1_907_040;
    let step =
        process_exchange(&accounts, 50, 100, &program(), &ExchangeStage::CustodyClosed).unwrap();
    assert_eq!(step.action, Action::Reclaim { from: 7, to: 0, lamports: u64::MAX });
}

#[test]
fn exchange_refuses_a_short_account_list() {
    let all = accounts();
    for n in [0usize, 1, 2, 6, 7, 8, 9, 10] {
        assert_eq!(start(&all[..n], 50, 100), Err(EscrowError::NotEnoughAccountKeys), "with {}", n);
    }
    for stage in [
        ExchangeStage::MakerPaid { seeds: seeds() },
        ExchangeStage::TakerPaid { seeds: seeds() },
        ExchangeStage::CustodyClosed,
    ] {
        assert_eq!(
            process_exchange(&all[..10], 50, 100, &program(), &stage),
            Err(EscrowError::NotEnoughAccountKeys)
        );
    }
}

#[test]
fn exchange_refuses_an_unsigned_taker() {
    let mut accounts = accounts();
    accounts[1].is_signer = false;
    assert_eq!(start(&accounts, 50, 100), Err(EscrowError::MissingRequiredSignature));
    assert_eq!(start(&accounts[..2], 50, 100), Err(EscrowError::MissingRequiredSignature));
    assert_eq!(EscrowError::MissingRequiredSignature.kind(), ErrorKind::Authorization);
    // The maker's signature is not asked for.
    let mut accounts = self::accounts();
    accounts[0].is_signer = true;
    assert_eq!(start(&accounts, 50, 100), Ok(()));
}

#[test]
fn exchange_is_exact_in_the_amount_paid() {
    assert_eq!(start(&accounts(), 50, 100), Ok(()));
    assert_eq!(start(&accounts(), 49, 100), Err(EscrowError::ExpectedAmountMismatch));
    assert_eq!(start(&accounts(), 51, 100), Err(EscrowError::ExpectedAmountMismatch));
    assert_eq!(start(&accounts(), 0, 100), Err(EscrowError::ExpectedAmountMismatch));
    assert_eq!(EscrowError::ExpectedAmountMismatch.kind(), ErrorKind::Validation);
}

#[test]
fn exchange_is_exact_in_the_amount_expected() {
    assert_eq!(start(&accounts(), 50, 99), Err(EscrowError::ExpectedAmountMismatch));
    assert_eq!(start(&accounts(), 50, 101), Err(EscrowError::ExpectedAmountMismatch));
    // The custody balance decides, not the amount that the record remembers.
    let mut accounts = accounts();
    accounts[8].data = token_data(&key(4), &key(8), 99);
    assert_eq!(start(&accounts, 50, 100), Err(EscrowError::ExpectedAmountMismatch));
    assert_eq!(start(&accounts, 50, 99), Ok(()));
}

#[test]
fn exchange_in_the_maker_s_terms_is_refused() {
    // The maker locked 100 and asked for 50: a taker who names the amounts the
    // other way round expects 50 out of a custody that holds 100.
    assert_eq!(start(&accounts(), 100, 50), Err(EscrowError::ExpectedAmountMismatch));
}

#[test]
fn exchange_reports_the_custody_balance_before_the_record() {
    let mut accounts = accounts();
    accounts[7].data = vec![0u8; 10];
    assert_eq!(start(&accounts, 50, 101), Err(EscrowError::ExpectedAmountMismatch));
    assert_eq!(start(&accounts, 50, 100), Err(EscrowError::DecodeFailed));
    assert_eq!(EscrowError::DecodeFailed.kind(), ErrorKind::Decode);
}

#[test]
fn exchange_is_bound_to_the_registered_receive_account() {
    // Another token account of the maker, for the same asset, with all amounts
    // as asked.
    let mut accounts = accounts();
    accounts[6].key = id(&key(70));
    assert_eq!(start(&accounts, 50, 100), Err(EscrowError::InvalidAccountData));
    assert_eq!(EscrowError::InvalidAccountData.kind(), ErrorKind::Validation);
}

#[test]
fn exchange_is_bound_to_the_maker_of_the_record() {
    let mut accounts = accounts();
    accounts[6].data = token_data(&key(3), &key(2), 0);
    assert_eq!(start(&accounts, 50, 100), Err(EscrowError::InvalidAccountData));
}

#[test]
fn exchange_refuses_accounts_that_are_no_token_accounts() {
    for place in [6usize, 8] {
        let mut accounts = accounts();
        accounts[place].data = vec![0u8; 164];
        assert_eq!(start(&accounts, 50, 100), Err(EscrowError::InvalidAccountData));
        accounts[place].data = vec![0u8; 165];
        assert_eq!(start(&accounts, 50, 100), Err(EscrowError::UninitializedAccount));
        for (offset, value) in [(72usize, 2u8), (73, 1), (108, 3), (109, 2), (112, 1), (129, 2)] {
            let mut accounts = self::accounts();
            accounts[place].data[offset] = value;
            assert_eq!(
                start(&accounts, 50, 100),
                Err(EscrowError::InvalidAccountData),
                "place {} offset {}",
                place,
                offset
            );
        }
    }
    // A frozen account is still a token account.
    let mut accounts = self::accounts();
    accounts[6].data[108] = 2;
    assert_eq!(start(&accounts, 50, 100), Ok(()));
}

#[test]
fn exchange_reads_owner_and_amount_where_they_stand() {
    // The owner stands at 32 and the amount at 64 of a token account.
    let mut accounts = accounts();
    accounts[6].data[32] ^= 1;
    assert_eq!(start(&accounts, 50, 100), Err(EscrowError::InvalidAccountData));
    let mut accounts = self::accounts();
    accounts[8].data[65] = 1;
    assert_eq!(start(&accounts, 50, 100), Err(EscrowError::ExpectedAmountMismatch));
    assert_eq!(start(&accounts, 50, 356), Ok(()));
}

#[test]
fn exchange_refuses_assets_that_are_no_mints() {
    let mut accounts = accounts();
    accounts[2].data = vec![];
    assert_eq!(start(&accounts, 50, 100), Err(EscrowError::InvalidAccountData));
    accounts[2].data = vec![0u8; 82];
    assert_eq!(start(&accounts, 50, 100), Err(EscrowError::UninitializedAccount));
    let stage = ExchangeStage::MakerPaid { seeds: seeds() };
    let mut accounts = self::accounts();
    accounts[3].data = vec![1u8; 82];
    assert_eq!(
        process_exchange(&accounts, 50, 100, &program(), &stage),
        Err(EscrowError::InvalidAccountData)
    );
    accounts[3].data = vec![0u8; 82];
    assert_eq!(
        process_exchange(&accounts, 50, 100, &program(), &stage),
        Err(EscrowError::UninitializedAccount)
    );
}

#[test]
fn exchange_refuses_another_token_service() {
    let mut accounts = accounts();
    accounts[9].key = id(&spl_associated_token_account::id());
    assert_eq!(start(&accounts, 50, 100), Err(EscrowError::IncorrectProgramId));
    for stage in
        [ExchangeStage::MakerPaid { seeds: seeds() }, ExchangeStage::TakerPaid { seeds: seeds() }]
    {
        assert_eq!(
            process_exchange(&accounts, 50, 100, &program(), &stage),
            Err(EscrowError::IncorrectProgramId)
        );
    }
}

#[test]
fn exchange_signs_with_the_seeds_of_the_record() {
    let mut accounts = accounts();
    let mut record = record();
    record.sell_mint = id(&key(44));
    record.bump = 7;
    accounts[7].data = record.to_bytes();
    let step = process_exchange(&accounts, 50, 100, &program(), &ExchangeStage::Start).unwrap();
    assert_eq!(
        step.next,
        Some(ExchangeStage::MakerPaid {
            seeds: EscrowSeeds { maker: id(&key(1)), sell_mint: id(&key(44)), bump: 7 }
        })
    );
}

#[test]
fn exchange_with_oneself_is_not_refused() {
    // The maker may take the own offer: nothing compares the two parties.
    let mut accounts = accounts();
    accounts[1] = account(&key(1), true, 5_000, vec![]);
    accounts[4].data = token_data(&key(3), &key(1), 500);
    accounts[5].data = token_data(&key(4), &key(1), 0);
    assert_eq!(start(&accounts, 50, 100), Ok(()));
}

#[test]
fn exchange_of_nothing_for_nothing_is_not_refused() {
    let mut accounts = accounts();
    let mut record = record();
    record.sell_amount = 0;
    record.buy_amount = 0;
    accounts[7].data = record.to_bytes();
    accounts[8].data = token_data(&key(4), &key(8), 0);
    assert_eq!(start(&accounts, 0, 0), Ok(()));
    assert_eq!(start(&accounts, 1, 0), Err(EscrowError::ExpectedAmountMismatch));
    assert_eq!(start(&accounts, 0, 1), Err(EscrowError::ExpectedAmountMismatch));
}
