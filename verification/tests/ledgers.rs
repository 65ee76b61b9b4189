use tally_export::alias::NameMap;
use tally_export::dates::{get_dates, Date};
use tally_export::error::ExportError;
use tally_export::ledger::{export_ledger, ledger_document, Account, CAccount, LanguageName, Name};
use tally_export::query::{get_query, queries_for, QueryKind};

fn held(name: &str, account_type: &str) -> CAccount {
    CAccount { name: name.to_string(), account_type: account_type.to_string() }
}

fn day(year: i32, month: u32, day: u32) -> Date {
    Date { year, month, day }
}

fn ledger(name: &str, group: &str) -> Account {
    Account::new(
        name.to_string(),
        group.to_string(),
        LanguageName { language_name: Name { lang_name: name.to_string() } },
    )
}

#[test]
fn account_new_keeps_its_parts() {
    let account = ledger("Petty Cash", "Cash");
    assert_eq!(account.account, "Petty Cash");
    assert_eq!(account.account_type, "Cash");
    assert_eq!(account.language_name.language_name.lang_name, "Petty Cash");
}

#[test]
fn ledgers_are_exported_under_the_name_of_their_type() {
    let accounts = vec![held("Petty Cash", "CASH"), held("HDFC", "BANK_ACCOUNT")];
    let document = export_ledger(&accounts, "auditplus,tally\nCash,Cash-in-hand\n").unwrap();
    let messages = document.envelope.body.import_data.request_data.items;
    assert_eq!(messages.len(), 2);
    assert_eq!(messages[0].items, vec![ledger("Petty Cash", "Cash-in-hand")]);
    assert_eq!(messages[1].items, vec![ledger("HDFC", "Bank Account")]);
}

#[test]
fn one_unknown_account_type_fails_the_ledger_export() {
    let accounts = vec![held("Petty Cash", "CASH"), held("Odd", "BOGUS")];
    assert_eq!(export_ledger(&accounts, ""), Err(ExportError::UnknownAccountType));
    assert_eq!(ledger_document(&accounts, &Vec::new()), Err(ExportError::UnknownAccountType));
}

#[test]
fn a_malformed_alias_table_fails_the_ledger_export() {
    let accounts = vec![held("Petty Cash", "CASH")];
    assert_eq!(
        export_ledger(&accounts, "from,to\nCash,Cash-in-hand\n"),
        Err(ExportError::MalformedAliasTable)
    );
    assert_eq!(
        export_ledger(&Vec::new(), "auditplus,tally\nCash\n"),
        Err(ExportError::MalformedAliasTable)
    );
}

#[test]
fn no_accounts_give_an_empty_ledger_document() {
    let table = vec![NameMap { auditplus: "Cash".to_string(), tally: "X".to_string() }];
    let document = ledger_document(&Vec::new(), &table).unwrap();
    assert!(document.envelope.body.import_data.request_data.items.is_empty());
}

#[test]
fn dates_are_one_range_for_each_day() {
    let first = day(2022, 4, 29);
    assert_eq!(get_dates(first, first), Some(vec![(first, first)]));
    assert_eq!(
        get_dates(first, day(2022, 5, 2)),
        Some(vec![
            (day(2022, 4, 29), day(2022, 4, 29)),
            (day(2022, 4, 30), day(2022, 4, 30)),
            (day(2022, 5, 1), day(2022, 5, 1)),
            (day(2022, 5, 2), day(2022, 5, 2)),
        ])
    );
}

#[test]
fn dates_cross_the_end_of_february_and_of_the_year() {
    assert_eq!(
        get_dates(day(2024, 2, 28), day(2024, 3, 1)),
        Some(vec![
            (day(2024, 2, 28), day(2024, 2, 28)),
            (day(2024, 2, 29), day(2024, 2, 29)),
            (day(2024, 3, 1), day(2024, 3, 1)),
        ])
    );
    assert_eq!(
        get_dates(day(2023, 2, 28), day(2023, 3, 1)),
        Some(vec![(day(2023, 2, 28), day(2023, 2, 28)), (day(2023, 3, 1), day(2023, 3, 1))])
    );
    assert_eq!(
        get_dates(day(2022, 12, 31), day(2023, 1, 1)),
        Some(vec![(day(2022, 12, 31), day(2022, 12, 31)), (day(2023, 1, 1), day(2023, 1, 1))])
    );
    assert_eq!(get_dates(day(2022, 4, 1), day(2023, 3, 31)).unwrap().len(), 365);
}

#[test]
fn dates_of_a_period_that_ends_before_it_starts() {
    assert_eq!(get_dates(day(2022, 4, 2), day(2022, 4, 1)), Some(Vec::new()));
    assert_eq!(get_dates(day(2023, 1, 1), day(2022, 1, 1)), Some(Vec::new()));
}

#[test]
fn dates_that_are_no_dates() {
    assert_eq!(get_dates(day(2022, 2, 30), day(2022, 3, 1)), None);
    assert_eq!(get_dates(day(2022, 1, 1), day(2022, 13, 1)), None);
    assert_eq!(get_dates(day(2022, 0, 1), day(2022, 0, 1)), None);
    assert_eq!(get_dates(day(2022, 4, 31), day(2022, 4, 31)), None);
}

#[test]
fn only_sales_tell_cash_from_credit() {
    assert_eq!(get_query("sales", Some(true)), QueryKind::CashSales);
    assert_eq!(get_query("sales", Some(false)), QueryKind::CreditSales);
    assert_eq!(get_query("sales", None), QueryKind::CreditSales);
    assert_eq!(get_query("purchases", Some(true)), QueryKind::Plain);
    assert_eq!(get_query("vouchers", None), QueryKind::Plain);
    assert_eq!(get_query("Sales", Some(true)), QueryKind::Plain);
    assert_eq!(get_query("", Some(true)), QueryKind::Plain);
}

#[test]
fn sales_are_queried_cash_first() {
    assert_eq!(queries_for("sales"), vec![QueryKind::CashSales, QueryKind::CreditSales]);
    assert_eq!(queries_for("purchases"), vec![QueryKind::Plain]);
    assert_eq!(queries_for("gst_vouchers"), vec![QueryKind::Plain]);
}
