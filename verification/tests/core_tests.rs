use cloud_cli::bench::BenchProgress;
use cloud_cli::cmd::{Command, HandlerKind};
use cloud_cli::codec::{CloudNormalTransaction, CloudUtxoTransaction};
use cloud_cli::context::{resolve_addr, Context};
use cloud_cli::crypto::{hash_data, verify, Account, Algorithm};
use cloud_cli::errors::CliError;
use cloud_cli::evm;
use cloud_cli::evm::UntilBlock;
use cloud_cli::transaction::{
    NormalTransactionSenderBehaviour, RawTransaction, SignerBehaviour, TransactionParams, UtxoType,
    UtxoTransactionSenderBehaviour,
};

fn leaf(name: &str, id: u64) -> Command {
    Command::new(name).handler(HandlerKind::Terminal(id))
}

#[test]
fn duplicate_subcommand_is_rejected() {
    let root = Command::new("cldi").subcommand(Command::new("account")).unwrap();
    let r = root.subcommand(Command::new("account"));
    match r {
        Err(CliError::DuplicateSubcommand(n)) => assert_eq!(n, "account"),
        _ => panic!("a duplicate child name must be a build-time error"),
    }
}

#[test]
fn duplicate_in_batch_is_rejected() {
    let r = Command::new("cldi").subcommands(vec![leaf("a", 1), leaf("b", 2), leaf("a", 3)]);
    assert!(matches!(r, Err(CliError::DuplicateSubcommand(_))));
}

#[test]
fn dispatch_reaches_leaf_handler() {
    let root = Command::new("cldi")
        .subcommand(
            Command::new("account")
                .subcommands(vec![leaf("create", 21), leaf("login", 22)])
                .unwrap(),
        )
        .unwrap();
    let path = vec!["account".to_string(), "create".to_string()];
    assert_eq!(root.dispatch_subcmd(&path).unwrap(), vec![21]);
    let path = vec!["account".to_string(), "login".to_string()];
    assert_eq!(root.dispatch_subcmd(&path).unwrap(), vec![22]);
}

#[test]
fn dispatch_runs_prefix_handlers_in_order() {
    let root = Command::new("cldi")
        .handler(HandlerKind::PrefixThenDelegate(1))
        .subcommand(leaf("send", 2))
        .unwrap();
    let path = vec!["send".to_string()];
    assert_eq!(root.dispatch_subcmd(&path).unwrap(), vec![1, 2]);
}

#[test]
fn dispatch_of_unknown_name_is_an_error() {
    let root = Command::new("cldi").subcommand(leaf("send", 2)).unwrap();
    let path = vec!["nope".to_string()];
    match root.dispatch_subcmd(&path) {
        Err(CliError::NoSubcommandHandler(n)) => assert_eq!(n, "nope"),
        _ => panic!("an unmatched name must be a dispatch error, not a no-op"),
    }
}

#[test]
fn dispatch_of_empty_path_is_a_noop() {
    let root = Command::new("cldi").subcommand(leaf("send", 2)).unwrap();
    assert_eq!(root.dispatch_subcmd(&Vec::new()).unwrap(), Vec::<u64>::new());
}

#[test]
fn rename_subcommand_renames() {
    let mut root = Command::new("cldi").subcommands(vec![leaf("foo", 1), leaf("x", 2)]).unwrap();
    root.rename_subcommand("foo", "bar").unwrap();
    assert!(root.get_subcommand("foo").is_none());
    let renamed = root.get_subcommand("bar").unwrap();
    assert_eq!(renamed.get_name(), "bar");
    assert_eq!(renamed.handler, HandlerKind::Terminal(1));
}

#[test]
fn rename_subcommand_missing_old_fails_and_keeps_tree() {
    let mut root = Command::new("cldi").subcommand(leaf("x", 2)).unwrap();
    let r = root.rename_subcommand("foo", "bar");
    match r {
        Err(CliError::SubcommandNotFound(n)) => assert_eq!(n, "foo"),
        _ => panic!("renaming an absent child must fail with a not-found error"),
    }
    assert!(root.get_subcommand("x").is_some());
    assert!(root.get_subcommand("bar").is_none());
}

#[test]
fn rename_subcommand_refuses_collision() {
    let mut root = Command::new("cldi").subcommands(vec![leaf("a", 1), leaf("b", 2)]).unwrap();
    assert!(matches!(
        root.rename_subcommand("a", "b"),
        Err(CliError::DuplicateSubcommand(_))
    ));
    assert!(root.get_subcommand("a").is_some());
}

#[test]
fn command_builder_keeps_metadata() {
    let c = Command::new("send").about("Send transaction").alias("s");
    assert_eq!(c.get_name(), "send");
    assert_eq!(c.about, "Send transaction");
    assert_eq!(c.get_all_aliases().len(), 1);
    assert_eq!(c.get_all_aliases()[0], "s");
    let c = c.aliases(&vec!["snd".to_string(), "tx".to_string()]);
    assert_eq!(c.get_all_aliases().len(), 3);
    assert_eq!(c.get_all_aliases()[2], "tx");
    let c = c.name("transfer");
    assert_eq!(c.get_name(), "transfer");
    assert_eq!(c.about, "Send transaction");
}

fn params() -> TransactionParams {
    TransactionParams {
        version: 1,
        chain_id: vec![9u8; 32],
        nonce: "nonce".to_string(),
        quota: 3_000_000,
        valid_until_block: 95,
    }
}

#[test]
fn normal_tx_signing_yields_one_valid_witness() {
    let account = Account::from_secret(Algorithm::Eth, vec![1u8; 32]).unwrap();
    let tx = CloudNormalTransaction {
        version: 1,
        to: vec![2u8; 20],
        nonce: "n".to_string(),
        quota: 100,
        valid_until_block: 5,
        data: vec![1, 2, 3],
        value: vec![0u8; 32],
        chain_id: vec![9u8; 32],
    };
    let encoded = tx.encode();
    let raw = account.sign_raw_tx(tx).unwrap();
    match raw {
        RawTransaction::NormalTx(u) => {
            // The signed hash is the hash of the encoded unsigned body.
            assert_eq!(u.transaction_hash.to_vec(), hash_data(Algorithm::Eth, &encoded));
            assert_eq!(u.witness.sender.to_vec(), account.address.to_vec());
            // Exactly one witness, and it verifies against the content hash.
            let ok = verify(
                &u.witness.sender,
                &u.transaction_hash.to_vec(),
                &u.witness.signature,
            )
            .unwrap();
            assert!(ok);
        },
        RawTransaction::UtxoTx(_) => panic!("normal signing must yield a normal transaction"),
    }
}

#[test]
fn utxo_tx_signing_yields_exactly_one_witness() {
    let account = Account::from_secret(Algorithm::Sm, vec![3u8; 32]).unwrap();
    let utxo = CloudUtxoTransaction {
        version: 1,
        pre_tx_hash: vec![0u8; 32],
        output: vec![1],
        lock_id: 1005,
    };
    let encoded = utxo.encode();
    let raw = account.sign_raw_utxo(utxo).unwrap();
    match raw {
        RawTransaction::UtxoTx(u) => {
            assert_eq!(u.witnesses.len(), 1);
            assert_eq!(u.transaction_hash.to_vec(), hash_data(Algorithm::Sm, &encoded));
            let w = &u.witnesses[0];
            assert_eq!(w.sender.to_vec(), account.address.to_vec());
            let ok = verify(&w.sender, &u.transaction_hash.to_vec(), &w.signature).unwrap();
            assert!(ok);
        },
        RawTransaction::NormalTx(_) => panic!("utxo signing must yield a utxo transaction"),
    }
}

#[test]
fn utxo_type_lock_ids() {
    assert_eq!(UtxoType::Admin.lock_id(), 1002);
    assert_eq!(UtxoType::BlockInterval.lock_id(), 1003);
    assert_eq!(UtxoType::Validators.lock_id(), 1004);
    assert_eq!(UtxoType::EmergencyBrake.lock_id(), 1005);
}

#[test]
fn send_tx_builds_the_given_body() {
    let account = Account::from_secret(Algorithm::Eth, vec![1u8; 32]).unwrap();
    let raw = account.send_tx(params(), vec![2u8; 20], vec![0xca, 0xfe], vec![0u8; 32]).unwrap();
    match raw {
        RawTransaction::NormalTx(u) => {
            assert_eq!(u.transaction.version, 1);
            assert_eq!(u.transaction.to, vec![2u8; 20]);
            assert_eq!(u.transaction.data, vec![0xca, 0xfe]);
            assert_eq!(u.transaction.quota, 3_000_000);
            assert_eq!(u.transaction.valid_until_block, 95);
        },
        RawTransaction::UtxoTx(_) => panic!("send_tx must build a normal transaction"),
    }
}

#[test]
fn send_utxo_builds_the_given_body() {
    let account = Account::from_secret(Algorithm::Eth, vec![1u8; 32]).unwrap();
    let raw = account.send_utxo(1, vec![0u8; 32], vec![7], UtxoType::Validators).unwrap();
    match raw {
        RawTransaction::UtxoTx(u) => {
            assert_eq!(u.transaction.lock_id, 1004);
            assert_eq!(u.transaction.output, vec![7]);
            assert_eq!(u.witnesses.len(), 1);
        },
        RawTransaction::NormalTx(_) => panic!("send_utxo must build a utxo transaction"),
    }
}

#[test]
fn context_requires_an_account_before_signing() {
    let mut ctx = Context::new("localhost:50004".to_string(), "localhost:50002".to_string());
    assert!(matches!(ctx.current_account(), Err(CliError::NoAccount)));
    let account = Account::from_secret(Algorithm::Eth, vec![1u8; 32]).unwrap();
    let addr = account.address.to_vec();
    ctx.set_account(account);
    assert_eq!(ctx.current_account().unwrap().address.to_vec(), addr);
}

#[test]
fn handler_failures_carry_the_command_name() {
    let e = CliError::NoAccount.in_command("send");
    match e {
        CliError::InCommand(name, inner) => {
            assert_eq!(name, "send");
            assert!(matches!(*inner, CliError::NoAccount));
        },
        _ => panic!("the failure must be wrapped with the originating command"),
    }
    assert!(CliError::AlgorithmMismatch.is_protocol_mismatch());
    assert!(!CliError::NoAccount.is_protocol_mismatch());
}

#[test]
fn resolve_addr_precedence() {
    let flag = Some("flag:1".to_string());
    let env = Some("env:2".to_string());
    let default_value = "default:3".to_string();
    assert_eq!(resolve_addr(flag.clone(), env.clone(), default_value.clone()), "flag:1");
    assert_eq!(resolve_addr(None, env, default_value.clone()), "env:2");
    assert_eq!(resolve_addr(None, None, default_value), "default:3");
}

#[test]
fn bench_zero_requested_finishes_without_polling() {
    let progress = BenchProgress::begin(0, 10);
    assert!(progress.is_done());
    assert_eq!(progress.observed, 0);
}

#[test]
fn bench_tracks_five_transactions_over_two_heights() {
    let mut progress = BenchProgress::begin(5, 10);
    assert!(!progress.is_done());
    // The chain has not advanced: nothing to fetch, keep waiting.
    assert_eq!(progress.heights_to_fetch(10), Vec::<u64>::new());
    // The chain advances to 12: fetch exactly the two new heights.
    assert_eq!(progress.heights_to_fetch(12), vec![11, 12]);
    progress.record_block(11, 2);
    assert_eq!(progress.observed, 2);
    assert!(!progress.is_done());
    // The watermark advanced past the fetched height only.
    assert_eq!(progress.heights_to_fetch(12), vec![12]);
    progress.record_block(12, 3);
    assert_eq!(progress.observed, 5);
    assert!(progress.is_done());
}

#[test]
fn evm_command_names_and_handlers() {
    assert_eq!(evm::get_receipt().get_name(), "get-receipt");
    assert_eq!(evm::get_code().get_name(), "get-code");
    assert_eq!(evm::get_balance().get_name(), "get-balance");
    assert_eq!(evm::get_account_nonce().get_name(), "get-account-nonce");
    assert_eq!(evm::get_contract_abi().get_name(), "get-contract-abi");
    let store = evm::store_contract_abi();
    assert_eq!(store.get_name(), "store-contract-abi");
    assert_eq!(
        store.handler,
        HandlerKind::Terminal(evm::HANDLER_STORE_CONTRACT_ABI)
    );
}

#[test]
fn store_abi_tx_targets_the_reserved_address() {
    let account = Account::from_secret(Algorithm::Eth, vec![1u8; 32]).unwrap();
    let tx = evm::build_store_abi_tx(params(), &account.address, b"[]");
    let mut expected_to = vec![0xffu8; 17];
    expected_to.extend_from_slice(&[0x01, 0x00, 0x01]);
    assert_eq!(tx.to, expected_to);
    let mut expected_data = account.address.to_vec();
    expected_data.extend_from_slice(b"[]");
    assert_eq!(tx.data, expected_data);
    assert!(tx.value.is_empty());
}

#[test]
fn parse_until_accepts_both_forms() {
    assert_eq!(evm::parse_until(b"+95").unwrap(), UntilBlock::Relative(95));
    assert_eq!(evm::parse_until(b"95").unwrap(), UntilBlock::Absolute(95));
    assert!(matches!(
        evm::parse_until(b"+"),
        Err(CliError::InvalidInput(_))
    ));
    assert!(matches!(
        evm::parse_until(b"9a"),
        Err(CliError::InvalidInput(_))
    ));
}

#[test]
fn resolve_until_adds_relative_offsets() {
    assert_eq!(evm::resolve_until(UntilBlock::Relative(95), 100).unwrap(), 195);
    assert_eq!(evm::resolve_until(UntilBlock::Absolute(95), 100).unwrap(), 95);
    assert!(matches!(
        evm::resolve_until(UntilBlock::Relative(1), u64::MAX),
        Err(CliError::InvalidInput(_))
    ));
}
