use rust_decimal::Decimal;
use std::str::FromStr;
use trx_service::{Amount, EngineError, Input, Ledger, State, Transaction, Type};

fn decimal(s: &str) -> Decimal {
    Decimal::from_str(s).expect("bad decimal literal")
}

fn money(s: &str) -> Amount {
    let d = decimal(s);
    Amount::from_parts(d.mantissa(), d.scale(), d.is_sign_negative()).expect("not a decimal")
}

fn worth(a: Amount) -> Decimal {
    Decimal::from_i128_with_scale(a.mantissa(), a.scale())
}

/// An input fixture for the tests below.
fn record(trx_type: Type, client: u16, tx: u32, amount: Option<Amount>) -> Input {
    Input { transaction_type: trx_type, client, tx, amount }
}

#[test]
fn process_trx_successful_deposit_dispute_resolve_chargeback() {
    let client_id = 0;
    let tx_id = 1;
    let amount = money("1500");
    let trxs = vec![
        record(Type::Deposit, client_id, tx_id, Some(amount)),
        record(Type::Dispute, client_id, tx_id, None),
        record(Type::Resolve, client_id, tx_id, None),
        record(Type::Chargeback, client_id, tx_id, None),
    ];
    let mut ledger = Ledger::new();
    for t in trxs.into_iter() {
        let _ = ledger.process_trx(&t);
    }
    let account = ledger.get_account(client_id).expect("account not found");
    assert_eq!(account.client, client_id);
    assert_eq!(worth(account.available()), decimal("1500"));
    assert_eq!(worth(account.held()), -decimal("1500"));
    assert_eq!(worth(account.total()), decimal("0"));
    assert!(account.locked());
}

#[test]
fn process_trx_successful_after_dispute_resolve() {
    let client_id = 0;
    let tx = 1;
    let amount_deposit = money("1500");
    let amount_withdrawal = money("500");
    let trxs = vec![
        record(Type::Deposit, client_id, tx, Some(amount_deposit)),
        record(Type::Withdrawal, client_id, 2, Some(amount_withdrawal)),
        record(Type::Dispute, client_id, tx, None),
        record(Type::Resolve, client_id, tx, None),
        record(Type::Deposit, client_id, 3, Some(amount_deposit)),
        record(Type::Withdrawal, client_id, 4, Some(amount_withdrawal)),
    ];
    let mut ledger = Ledger::new();
    for trx in trxs.into_iter() {
        let _ = ledger.process_trx(&trx);
    }
    let account = ledger.get_account(client_id).expect("account not found");
    assert_eq!(account.client, client_id);
    assert_eq!(worth(account.available()), decimal("2000"));
    assert_eq!(worth(account.held()), decimal("0"));
    assert_eq!(worth(account.total()), decimal("2000"));
    assert!(!account.locked());

    assert_eq!(4, ledger.transaction_count());
    let trx1 = ledger.get_transaction(tx).expect("transaction 1 not found");
    assert_eq!(trx1.amount, Some(amount_deposit));
    assert_eq!(trx1.state, State::Undisputed);
    assert_eq!(trx1.client, client_id);

    let trx2 = ledger.get_transaction(2).expect("transaction 2 not found");
    assert_eq!(trx2.amount, Some(amount_withdrawal));
    assert_eq!(trx2.state, State::Undisputed);
    assert_eq!(trx2.client, client_id);

    let trx3 = ledger.get_transaction(3).expect("transaction 3 not found");
    assert_eq!(trx3.amount, Some(amount_deposit));
    assert_eq!(trx3.state, State::Undisputed);
    assert_eq!(trx3.client, client_id);

    let trx4 = ledger.get_transaction(4).expect("transaction 4 not found");
    assert_eq!(trx4.amount, Some(amount_withdrawal));
    assert_eq!(trx4.state, State::Undisputed);
    assert_eq!(trx4.client, client_id);
}

#[test]
fn process_trx_ignore_all_operations_after_chargeback() {
    let client_id = 0;
    let tx_id = 1;
    let amount = money("1500");
    let trxs = vec![
        record(Type::Deposit, client_id, tx_id, Some(amount)),
        record(Type::Dispute, client_id, tx_id, None),
        record(Type::Chargeback, client_id, tx_id, None),
        record(Type::Deposit, client_id, 2, Some(amount)),
        record(Type::Withdrawal, client_id, 3, Some(amount)),
        record(Type::Dispute, client_id, 4, None),
        record(Type::Resolve, client_id, 5, None),
    ];
    let mut ledger = Ledger::new();
    for t in trxs.into_iter() {
        let _ = ledger.process_trx(&t);
    }
    let account = ledger.get_account(client_id).expect("account not found");
    assert_eq!(account.client, client_id);
    assert_eq!(worth(account.available()), decimal("0"));
    assert_eq!(worth(account.held()), decimal("0"));
    assert_eq!(worth(account.total()), decimal("0"));
    assert!(account.locked());

    assert_eq!(1, ledger.transaction_count());
    let trx = ledger.get_transaction(tx_id).expect("transaction not found");
    assert_eq!(trx.amount, Some(amount));
    assert_eq!(trx.state, State::Chargeback);
    assert_eq!(trx.client, client_id);
}

#[test]
fn process_trx_deposit_fail_when_trx_already_processed() {
    let tx = 123456789;
    let client = 1234;
    let input = record(Type::Deposit, client, tx, Some(money("1500")));
    let mut ledger = Ledger::new();
    let result = ledger.process_trx(&input);
    assert!(result.is_ok());
    assert!(ledger.get_transaction(tx).is_some());
    assert!(ledger.get_account(client).is_some());

    let result = ledger.process_trx(&input);
    assert!(result.is_err());
    assert_eq!(result.unwrap_err().message(), EngineError::TrxAlreadyProcessed.message());
}

#[test]
fn process_trx_deposit_fail_when_amount_is_not_present() {
    let input = record(Type::Deposit, 1234, 123456789, None);
    let mut ledger = Ledger::new();
    let result = ledger.process_trx(&input);
    assert!(result.is_err());
    assert_eq!(result.unwrap_err().message(), EngineError::TrxInvalidAmount.message());
}

#[test]
fn process_trx_deposit_fail_when_account_method_returns_error() {
    let input = record(Type::Deposit, 1234, 123456789, Some(money("-1500")));
    let mut ledger = Ledger::new();
    let result = ledger.process_trx(&input);
    assert!(result.is_err());
    assert_eq!(result.unwrap_err().message(), EngineError::NegativeAmount.message());
}

#[test]
fn process_trx_withdrawal_fail_when_trx_already_processed() {
    let tx_deposit = 123;
    let tx = 123456789;
    let client = 1234;
    let amount = Some(money("1500"));
    let input_deposit = record(Type::Deposit, client, tx_deposit, amount);
    let input_withdrawal = record(Type::Withdrawal, client, tx, amount);
    let mut ledger = Ledger::new();
    let result = ledger.process_trx(&input_deposit);
    assert!(result.is_ok());
    assert!(ledger.get_transaction(tx_deposit).is_some());
    assert!(ledger.get_account(client).is_some());

    let result = ledger.process_trx(&input_withdrawal);
    assert!(result.is_ok());
    assert!(ledger.get_transaction(tx).is_some());
    assert!(ledger.get_account(client).is_some());

    let result = ledger.process_trx(&input_withdrawal);
    assert!(result.is_err());
    assert_eq!(result.unwrap_err().message(), EngineError::TrxAlreadyProcessed.message());
}

#[test]
fn process_trx_withdrawal_fail_when_amount_is_not_present() {
    let input = record(Type::Withdrawal, 1234, 123456789, None);
    let mut ledger = Ledger::new();
    let result = ledger.process_trx(&input);
    assert!(result.is_err());
    assert_eq!(result.unwrap_err().message(), EngineError::TrxInvalidAmount.message());
}

#[test]
fn process_trx_withdrawal_fail_when_account_method_returns_error() {
    let input = record(Type::Withdrawal, 1234, 123456789, Some(money("-1500")));
    let mut ledger = Ledger::new();
    let result = ledger.process_trx(&input);
    assert!(result.is_err());
    assert_eq!(result.unwrap_err().message(), EngineError::NegativeAmount.message());
}

#[test]
fn process_trx_dispute_fail_when_disputed_trx_not_found() {
    let input = record(Type::Dispute, 1234, 123456789, None);
    let mut ledger = Ledger::new();
    let result = ledger.process_trx(&input);
    assert!(result.is_err());
    assert_eq!(result.unwrap_err().message(), EngineError::TrxNotFound.message());
}

#[test]
fn process_trx_dispute_fail_when_disputed_trx_belongs_to_another_user() {
    let tx = 123456789;
    let client_deposit = 1;
    let client = 1234;
    let input_deposit = record(Type::Deposit, client_deposit, tx, Some(money("1500")));
    let input_dispute = record(Type::Dispute, client, tx, None);
    let mut ledger = Ledger::new();
    let result = ledger.process_trx(&input_deposit);
    assert!(result.is_ok());
    assert!(ledger.get_transaction(tx).is_some());
    assert!(ledger.get_account(client_deposit).is_some());

    let result = ledger.process_trx(&input_dispute);
    assert!(result.is_err());
    assert_eq!(result.unwrap_err().message(), EngineError::TrxClientIdInconsistency.message());
}

#[test]
fn process_trx_dispute_fail_when_transaction_type_not_valid() {
    let invalid_inputs = [
        record(Type::Withdrawal, 0, 0, Some(money("10.0"))),
        record(Type::Dispute, 0, 1, None),
        record(Type::Resolve, 0, 2, None),
        record(Type::Chargeback, 0, 3, None),
    ];
    for (index, invalid_input) in invalid_inputs.iter().enumerate() {
        let index = u32::try_from(index).expect("error while converting from usize to u32");
        // an erroneous transaction stored in the ledger beforehand
        let trx = Transaction::new(invalid_input);
        let mut ledger = Ledger::new();
        ledger.seed_transaction(index, trx);

        let input_dispute = record(Type::Dispute, 0, index, None);
        let result = ledger.process_trx(&input_dispute);
        assert!(result.is_err());
        assert_eq!(result.unwrap_err().message(), EngineError::TrxNotDisputable.message());
    }
}

#[test]
fn process_trx_dispute_fail_when_transaction_to_be_disputed_is_not_in_a_disputable_state() {
    let input_invalid = record(Type::Deposit, 0, 1, None);
    let input_dispute = record(Type::Dispute, 0, 1, None);
    // an erroneous transaction stored in the ledger beforehand
    let mut trx = Transaction::new(&input_invalid);
    trx.state = State::Chargeback;
    let mut ledger = Ledger::new();
    ledger.seed_transaction(1, trx);

    let result = ledger.process_trx(&input_dispute);
    assert!(result.is_err());
    assert_eq!(result.unwrap_err().message(), EngineError::TrxNotInDisputableState.message());
}

#[test]
fn process_trx_resolve_fail_when_disputed_trx_not_found() {
    let input = record(Type::Resolve, 1234, 123456789, None);
    let mut ledger = Ledger::new();
    let result = ledger.process_trx(&input);
    assert!(result.is_err());
    assert_eq!(result.unwrap_err().message(), EngineError::TrxNotFound.message());
}

#[test]
fn process_trx_resolve_fail_when_resolved_trx_not_in_dispute_state() {
    let tx = 123456789;
    let client = 1234;
    let input_deposit = record(Type::Deposit, client, tx, Some(money("1500")));
    let input_resolve = record(Type::Resolve, client, tx, None);
    let mut ledger = Ledger::new();
    let result = ledger.process_trx(&input_deposit);
    assert!(result.is_ok());
    assert!(ledger.get_transaction(tx).is_some());
    assert!(ledger.get_account(client).is_some());

    let result = ledger.process_trx(&input_resolve);
    assert!(result.is_err());
    assert_eq!(result.unwrap_err().message(), EngineError::TrxNotInDispute.message());
}

#[test]
fn process_trx_resolve_fail_when_resolved_trx_belongs_to_another_user() {
    let tx = 123456789;
    let client = 1234;
    let client_deposit = 1;
    let input_deposit = record(Type::Deposit, client_deposit, tx, Some(money("1500")));
    let input_dispute = record(Type::Dispute, client_deposit, tx, None);
    let input_resolve = record(Type::Resolve, client, tx, None);
    let mut ledger = Ledger::new();
    let result = ledger.process_trx(&input_deposit);
    assert!(result.is_ok());
    assert!(ledger.get_transaction(tx).is_some());
    assert!(ledger.get_account(client_deposit).is_some());

    let result = ledger.process_trx(&input_dispute);
    assert!(result.is_ok());
    assert!(ledger.get_transaction(tx).is_some());
    assert!(ledger.get_account(client_deposit).is_some());

    let result = ledger.process_trx(&input_resolve);
    assert!(result.is_err());
    assert_eq!(result.unwrap_err().message(), EngineError::TrxClientIdInconsistency.message());
}

#[test]
fn process_trx_chargeback_fail_when_disputed_trx_not_found() {
    let input = record(Type::Chargeback, 1234, 123456789, None);
    let mut ledger = Ledger::new();
    let result = ledger.process_trx(&input);
    assert!(result.is_err());
    assert_eq!(result.unwrap_err().message(), EngineError::TrxNotFound.message());
}

#[test]
fn process_trx_chargeback_fail_when_chargeback_trx_belongs_to_another_user() {
    let tx = 123456789;
    let client = 1234;
    let client_deposit = 1;
    let input_deposit = record(Type::Deposit, client_deposit, tx, Some(money("1500")));
    let input_dispute = record(Type::Dispute, client_deposit, tx, None);
    let input_resolve = record(Type::Resolve, client_deposit, tx, None);
    let input_chargeback = record(Type::Chargeback, client, tx, None);
    let mut ledger = Ledger::new();
    let result = ledger.process_trx(&input_deposit);
    assert!(result.is_ok());
    assert!(ledger.get_transaction(tx).is_some());
    assert!(ledger.get_account(client_deposit).is_some());

    let result = ledger.process_trx(&input_dispute);
    assert!(result.is_ok());
    assert!(ledger.get_transaction(tx).is_some());
    assert!(ledger.get_account(client_deposit).is_some());

    let result = ledger.process_trx(&input_resolve);
    assert!(result.is_ok());
    assert!(ledger.get_transaction(tx).is_some());
    assert!(ledger.get_account(client_deposit).is_some());

    let result = ledger.process_trx(&input_chargeback);
    assert!(result.is_err());
    assert_eq!(result.unwrap_err().message(), EngineError::TrxClientIdInconsistency.message());
}
