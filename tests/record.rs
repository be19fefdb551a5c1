use payments_engine::engine::{Engine, Transaction};
use payments_engine::record::{transaction_of, ProcessError, RowError, TransactionRaw};
use payments_engine::types::Currency;

fn raw(typ: &str, client: u16, tx: u32, amount: Option<&str>) -> TransactionRaw {
    TransactionRaw {
        typ: typ.to_string(),
        client,
        tx,
        amount: amount.map(|a| a.to_string()),
    }
}

#[test]
fn parse_reads_decimals_at_four_places() {
    assert_eq!(Currency::parse("10"), Some(Currency { units: 100_000 }));
    assert_eq!(Currency::parse("10.0"), Some(Currency { units: 100_000 }));
    assert_eq!(Currency::parse("1.5"), Some(Currency { units: 15_000 }));
    assert_eq!(Currency::parse("0.0001"), Some(Currency { units: 1 }));
    assert_eq!(Currency::parse("-2.25"), Some(Currency { units: -22_500 }));
}

#[test]
fn parse_rounds_extra_places() {
    assert_eq!(Currency::parse("1.23456"), Some(Currency { units: 12_346 }));
}

#[test]
fn parse_refuses_non_decimals() {
    assert_eq!(Currency::parse("abc"), None);
    assert_eq!(Currency::parse(""), None);
    assert_eq!(Currency::parse("1.2.3"), None);
}

#[test]
fn from_scaled_needs_four_places_and_range() {
    assert_eq!(Currency::from_scaled(15, 4), Some(Currency { units: 15 }));
    assert_eq!(Currency::from_scaled(15, 3), None);
    assert_eq!(Currency::from_scaled(i128::MAX, 4), None);
}

#[test]
fn rows_of_each_kind() {
    assert_eq!(
        raw("deposit", 2, 5, Some("1.5")).to_transaction(),
        Ok((2, Transaction::Deposit { id: 5, amount: Currency { units: 15_000 } }))
    );
    assert_eq!(
        raw("withdrawal", 2, 6, Some("0.25")).to_transaction(),
        Ok((2, Transaction::Withdrawal { id: 6, amount: Currency { units: 2_500 } }))
    );
    assert_eq!(
        raw("dispute", 3, 5, None).to_transaction(),
        Ok((3, Transaction::Dispute { id: 5 }))
    );
    assert_eq!(
        raw("resolve", 3, 5, None).to_transaction(),
        Ok((3, Transaction::Resolve { id: 5 }))
    );
    assert_eq!(
        raw("chargeback", 3, 5, None).to_transaction(),
        Ok((3, Transaction::Chargeback { id: 5 }))
    );
}

#[test]
fn rows_of_the_wrong_shape() {
    let shape = Err(RowError::InvalidTransactionShape);
    assert_eq!(raw("deposit", 1, 1, None).to_transaction(), shape);
    assert_eq!(raw("withdrawal", 1, 1, None).to_transaction(), shape);
    assert_eq!(raw("dispute", 1, 1, Some("1.0")).to_transaction(), shape);
    assert_eq!(raw("Deposit", 1, 1, Some("1.0")).to_transaction(), shape);
    assert_eq!(raw("transfer", 1, 1, None).to_transaction(), shape);
}

#[test]
fn unreadable_amount_is_malformed() {
    assert_eq!(
        raw("deposit", 1, 1, Some("ten")).to_transaction(),
        Err(RowError::MalformedRow)
    );
    assert_eq!(
        raw("dispute", 1, 1, Some("ten")).to_transaction(),
        Err(RowError::MalformedRow)
    );
}

#[test]
fn transaction_of_takes_an_amount_already_read() {
    let typ = "withdrawal".to_string();
    assert_eq!(
        transaction_of(&typ, 4, 8, Some(Currency { units: 3 })),
        Ok((4, Transaction::Withdrawal { id: 8, amount: Currency { units: 3 } }))
    );
    assert_eq!(transaction_of(&typ, 4, 8, None), Err(RowError::InvalidTransactionShape));
}

#[test]
fn malformed_row_between_deposits_changes_nothing() {
    let mut e = Engine::empty();

    assert_eq!(e.process_row(&raw("deposit", 1, 1, Some("1.0"))), Ok(()));
    assert_eq!(
        e.process_row(&raw("deposit", 1, 2, Some("not-a-number"))),
        Err(ProcessError::Row(RowError::MalformedRow))
    );
    assert_eq!(e.process_row(&raw("deposit", 1, 3, Some("2.0"))), Ok(()));

    let rows = e.report();
    assert_eq!(rows.len(), 1);
    assert_eq!(rows[0].client, 1);
    assert_eq!(rows[0].total, Currency { units: 30_000 });
    assert_eq!(rows[0].available, Currency { units: 30_000 });
    assert_eq!(rows[0].held, Currency { units: 0 });
}

#[test]
fn refused_row_reports_its_account() {
    let mut e = Engine::empty();

    assert!(matches!(
        e.process_row(&raw("withdrawal", 5, 1, Some("1.0"))),
        Err(ProcessError::Refused(err)) if err.account == 5
    ));
}
