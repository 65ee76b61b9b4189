use tally_export::document::{
    assemble_document, is_consistent, wrap_items, Body, Envelope, ExportData, ImportData,
    RequestData, TallyMessage,
};
use tally_export::entry::LedgerEntry;
use tally_export::error::ExportError;
use tally_export::export::{export_data, Failure};
use tally_export::voucher::{AGVoucher, DirectoryEntry, Transaction, Voucher};

fn leg_of(account: &str, amount: i64, account_type: &str) -> Transaction {
    Transaction {
        account: account.to_string(),
        amount,
        account_type: account_type.to_string(),
    }
}

fn dated(date: &str, number: Option<&str>, voucher_type: &str, trns: Vec<Transaction>) -> AGVoucher {
    AGVoucher {
        date: date.to_string(),
        bill_date: None,
        ref_no: None,
        narration: None,
        voucher_type: voucher_type.to_string(),
        voucher_no: number.map(|n| n.to_string()),
        trns,
        lut: None,
        rcm: None,
    }
}

fn books() -> Vec<DirectoryEntry> {
    [("a1", "Cash"), ("a2", "Sales Income"), ("a3", "Bank")]
        .iter()
        .map(|(id, name)| DirectoryEntry { id: id.to_string(), name: name.to_string() })
        .collect()
}

fn plain(party: &str, entries: Vec<LedgerEntry>) -> Voucher {
    Voucher::new(
        "2022-04-01".to_string(),
        None,
        None,
        "Sales".to_string(),
        party.to_string(),
        None,
        entries,
    )
}

#[test]
fn a_failed_voucher_does_not_stop_the_others() {
    let vouchers = vec![
        dated("2022-04-01", Some("S1"), "SALE", vec![leg_of("a1", 118, "CASH"), leg_of("a2", -118, "DIRECT_INCOME")]),
        dated("2022-04-02", Some("S2"), "SALE", vec![leg_of("a1", 50, "BOGUS"), leg_of("a2", -50, "DIRECT_INCOME")]),
        dated("2022-04-03", None, "CONTRA", vec![leg_of("a3", 10, "BANK_ACCOUNT"), leg_of("a1", -10, "CASH")]),
    ];
    let run = export_data(&vouchers, &books(), &Vec::new(), &Vec::new());
    assert_eq!(run.succeeded(), 2);
    assert_eq!(run.failed(), 1);
    assert_eq!(
        run.failures,
        vec![Failure {
            date: "2022-04-02".to_string(),
            voucher_no: Some("S2".to_string()),
            error: ExportError::UnknownAccountType,
        }]
    );
    let messages = &run.data.envelope.body.import_data.request_data.items;
    assert_eq!(messages.len(), 2);
    assert_eq!(messages[0].items.len(), 1);
    assert_eq!(messages[0].items[0].date, "2022-04-01");
    assert_eq!(messages[0].items[0].party_ledger, "Cash");
    assert_eq!(messages[1].items.len(), 1);
    assert_eq!(messages[1].items[0].date, "2022-04-03");
    assert_eq!(messages[1].items[0].party_ledger, "Bank");
}

#[test]
fn every_kind_of_failure_is_reported_in_order() {
    let vouchers = vec![
        dated("d1", None, "NOPE", Vec::new()),
        dated("d2", Some("2"), "SALE", vec![leg_of("zz", 1, "CASH")]),
        dated("d3", Some("3"), "SALE", vec![leg_of("a2", 1, "DIRECT_INCOME")]),
        dated("d4", Some("4"), "JOURNAL", vec![leg_of("a2", 1, "nope")]),
    ];
    let run = export_data(&vouchers, &books(), &Vec::new(), &Vec::new());
    assert_eq!(run.succeeded(), 0);
    assert_eq!(run.failed(), 4);
    let errors: Vec<(&str, ExportError)> =
        run.failures.iter().map(|f| (f.date.as_str(), f.error)).collect();
    assert_eq!(
        errors,
        vec![
            ("d1", ExportError::UnknownVoucherType),
            ("d2", ExportError::UnknownAccount),
            ("d3", ExportError::NoPartyCandidate),
            ("d4", ExportError::UnknownAccountType),
        ]
    );
    assert_eq!(run.failures[0].voucher_no, None);
    assert_eq!(run.failures[3].voucher_no, Some("4".to_string()));
}

#[test]
fn a_run_over_nothing_is_an_empty_document() {
    let run = export_data(&Vec::new(), &books(), &Vec::new(), &Vec::new());
    assert_eq!(run.succeeded(), 0);
    assert_eq!(run.failed(), 0);
    assert!(run.data.envelope.body.import_data.request_data.items.is_empty());
}

#[test]
fn the_document_keeps_the_order_of_the_vouchers() {
    let mut vouchers = Vec::new();
    for day in ["d5", "d1", "d9", "d3"] {
        vouchers.push(dated(day, None, "JOURNAL", vec![leg_of("a1", 1, "CASH")]));
    }
    let run = export_data(&vouchers, &books(), &Vec::new(), &Vec::new());
    let days: Vec<&str> = run
        .data
        .envelope
        .body
        .import_data
        .request_data
        .items
        .iter()
        .map(|m| m.items[0].date.as_str())
        .collect();
    assert_eq!(days, vec!["d5", "d1", "d9", "d3"]);
}

#[test]
fn two_runs_over_the_same_input_agree() {
    let vouchers = vec![
        dated("d1", None, "SALE", vec![leg_of("a1", 5, "CASH"), leg_of("a3", -5, "BANK_ACCOUNT")]),
        dated("d2", None, "SALE", vec![leg_of("a9", 5, "CASH")]),
    ];
    let first = export_data(&vouchers, &books(), &Vec::new(), &Vec::new());
    let second = export_data(&vouchers, &books(), &Vec::new(), &Vec::new());
    assert_eq!(first, second);
}

#[test]
fn every_exported_voucher_is_consistent() {
    let vouchers = vec![
        dated("d1", None, "SALE", vec![leg_of("a1", 5, "CASH"), leg_of("a3", -5, "BANK_ACCOUNT")]),
        dated("d2", None, "PAYMENT", vec![leg_of("a1", 5, "CASH")]),
        dated("d3", None, "JOURNAL", vec![leg_of("a2", 5, "SALE")]),
    ];
    let run = export_data(&vouchers, &books(), &Vec::new(), &Vec::new());
    assert_eq!(run.succeeded(), 3);
    for message in &run.data.envelope.body.import_data.request_data.items {
        assert!(is_consistent(&message.items[0]));
    }
}

#[test]
fn wrapping_nests_one_message_for_each_voucher() {
    let first = plain("Cash", vec![LedgerEntry::new("Cash".to_string(), 1)]);
    let second = plain("", Vec::new());
    let document = wrap_items(vec![first.clone(), second.clone()]);
    let expected = ExportData::new(Envelope::new(Body::new(ImportData::new(RequestData::new(vec![
        TallyMessage::new(first),
        TallyMessage::new(second),
    ])))));
    assert_eq!(document, expected);
    assert_eq!(document.envelope.body.import_data.request_data.items[1].items.len(), 1);
}

#[test]
fn assembling_accepts_consistent_vouchers() {
    let vouchers = vec![
        plain("Cash", vec![LedgerEntry::new("Bank".to_string(), -1), LedgerEntry::new("Cash".to_string(), 1)]),
        plain("", vec![LedgerEntry::new("Bank".to_string(), -1)]),
        plain("", Vec::new()),
    ];
    assert_eq!(assemble_document(vouchers.clone()), Ok(wrap_items(vouchers)));
    assert_eq!(assemble_document(Vec::new()), Ok(wrap_items(Vec::new())));
}

#[test]
fn assembling_rejects_a_party_that_is_no_entry() {
    let stray = plain("Nobody", vec![LedgerEntry::new("Cash".to_string(), 1)]);
    assert!(!is_consistent(&stray));
    assert_eq!(
        assemble_document(vec![plain("", Vec::new()), stray]),
        Err(ExportError::ConsistencyViolation)
    );
    assert_eq!(
        assemble_document(vec![plain("Cash", Vec::new())]),
        Err(ExportError::ConsistencyViolation)
    );
}
