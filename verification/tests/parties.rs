use tally_export::classify::AccountType;
use tally_export::error::ExportError;
use tally_export::party::{
    last_credit, last_debit, magnitude_of, resolve_party, top_candidate, PartyLeg,
};

fn leg(name: &str, amount: i64, account_type: AccountType) -> PartyLeg {
    PartyLeg { ledger_name: name.to_string(), amount, account_type }
}

#[test]
fn contra_takes_the_last_credit() {
    let legs = vec![
        leg("Bank A", 500, AccountType::BankAccount),
        leg("Bank B", 300, AccountType::BankAccount),
        leg("Cash", -800, AccountType::Cash),
    ];
    assert_eq!(resolve_party("Contra", &legs), Ok("Bank B".to_string()));
    assert_eq!(last_credit(&legs), Some(1));
}

#[test]
fn receipt_takes_the_last_credit() {
    let legs = vec![
        leg("Customer", 250, AccountType::TradeReceivable),
        leg("Cash", -250, AccountType::Cash),
    ];
    assert_eq!(resolve_party("Receipt", &legs), Ok("Customer".to_string()));
}

#[test]
fn payment_takes_the_last_debit() {
    let legs = vec![
        leg("Bank", -100, AccountType::BankAccount),
        leg("Supplier", 100, AccountType::TradePayable),
    ];
    assert_eq!(resolve_party("Payment", &legs), Ok("Bank".to_string()));
    let two = vec![
        leg("Bank", -60, AccountType::BankAccount),
        leg("Supplier", 100, AccountType::TradePayable),
        leg("Cash", -40, AccountType::Cash),
    ];
    assert_eq!(resolve_party("Payment", &two), Ok("Cash".to_string()));
    assert_eq!(last_debit(&two), Some(2));
}

#[test]
fn per_leg_rules_leave_the_party_empty_without_a_match() {
    let credits = vec![leg("A", 10, AccountType::Cash), leg("B", 0, AccountType::Cash)];
    assert_eq!(resolve_party("Payment", &credits), Ok(String::new()));
    let debits = vec![leg("A", -10, AccountType::Cash), leg("B", 0, AccountType::Cash)];
    assert_eq!(resolve_party("Contra", &debits), Ok(String::new()));
    assert_eq!(resolve_party("Receipt", &debits), Ok(String::new()));
    assert_eq!(resolve_party("Payment", &Vec::new()), Ok(String::new()));
    assert_eq!(resolve_party("Receipt", &Vec::new()), Ok(String::new()));
    assert_eq!(last_credit(&debits), None);
    assert_eq!(last_debit(&credits), None);
}

#[test]
fn journal_takes_the_first_leg() {
    let legs = vec![leg("A", -50, AccountType::DirectExpense), leg("B", 50, AccountType::Cash)];
    assert_eq!(resolve_party("Journal", &legs), Ok("A".to_string()));
}

#[test]
fn journal_without_legs_has_no_party() {
    assert_eq!(resolve_party("Journal", &Vec::new()), Err(ExportError::NoPartyCandidate));
}

#[test]
fn trade_takes_the_largest_party_leg() {
    let legs = vec![
        leg("Sales", -1000, AccountType::Sale),
        leg("Cash", 200, AccountType::Cash),
        leg("Customer", -800, AccountType::TradeReceivable),
        leg("Tax", 1600, AccountType::GstPayable),
    ];
    for name in ["Sales", "Purchase", "Credit Note", "Debit Note"] {
        assert_eq!(resolve_party(name, &legs), Ok("Customer".to_string()));
    }
    assert_eq!(top_candidate(&legs), Some(2));
}

#[test]
fn trade_takes_the_first_among_equal_sizes() {
    let legs = vec![
        leg("Income", 900, AccountType::DirectIncome),
        leg("Bank", -450, AccountType::BankAccount),
        leg("Cash", 450, AccountType::Cash),
        leg("Card", 450, AccountType::EftAccount),
    ];
    assert_eq!(resolve_party("Sales", &legs), Ok("Bank".to_string()));
}

#[test]
fn trade_without_a_party_leg_fails() {
    let legs = vec![leg("Sales", -10, AccountType::Sale), leg("Tax", 10, AccountType::GstPayable)];
    for name in ["Sales", "Purchase", "Credit Note", "Debit Note"] {
        assert_eq!(resolve_party(name, &legs), Err(ExportError::NoPartyCandidate));
        assert_eq!(resolve_party(name, &Vec::new()), Err(ExportError::NoPartyCandidate));
    }
    assert_eq!(top_candidate(&legs), None);
}

#[test]
fn trade_measures_the_smallest_amount_by_its_size() {
    let legs = vec![
        leg("Cash", i64::MAX, AccountType::Cash),
        leg("Bank", i64::MIN, AccountType::BankAccount),
    ];
    assert_eq!(resolve_party("Purchase", &legs), Ok("Bank".to_string()));
    assert_eq!(magnitude_of(i64::MIN), 9_223_372_036_854_775_808u64);
    assert_eq!(magnitude_of(i64::MAX), 9_223_372_036_854_775_807u64);
    assert_eq!(magnitude_of(-118), 118);
    assert_eq!(magnitude_of(0), 0);
}

#[test]
fn trade_with_a_candidate_of_zero() {
    let legs = vec![leg("Sales", -10, AccountType::Sale), leg("Cash", 0, AccountType::Cash)];
    assert_eq!(resolve_party("Sales", &legs), Ok("Cash".to_string()));
}

#[test]
fn other_names_have_no_party() {
    let legs = vec![leg("A", -50, AccountType::Cash), leg("B", 50, AccountType::Cash)];
    for name in ["", "Sale", "SALE", "sales", "GST Sales", "journal", "Contra "] {
        assert_eq!(resolve_party(name, &legs), Ok(String::new()));
    }
}

#[test]
fn party_is_empty_or_one_of_the_legs() {
    let legs = vec![
        leg("Bank", -100, AccountType::BankAccount),
        leg("Supplier", 100, AccountType::TradePayable),
        leg("Rent", 0, AccountType::IndirectExpense),
    ];
    for name in ["Sales", "Purchase", "Credit Note", "Debit Note", "Payment", "Receipt", "Journal", "Contra", "Other"] {
        let party = resolve_party(name, &legs).unwrap();
        assert!(party.is_empty() || legs.iter().any(|l| l.ledger_name == party));
    }
}
