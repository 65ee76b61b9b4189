use tally_export::classify::{get_account_type, get_voucher_type, AccountType, VoucherType};
use tally_export::error::ExportError;

#[test]
fn every_account_type_code_has_its_name() {
    let expected = [
        ("DIRECT_INCOME", "Direct Income"),
        ("INDIRECT_INCOME", "Indirect Income"),
        ("SALE", "Sale"),
        ("DIRECT_EXPENSE", "Direct Expense"),
        ("INDIRECT_EXPENSE", "Indirect Expense"),
        ("PURCHASE", "Purchase"),
        ("FIXED_ASSET", "Fixed Asset"),
        ("CURRENT_ASSET", "Current Asset"),
        ("LONGTERM_LIABILITY", "LongTerm Liability"),
        ("CURRENT_LIABILITY", "Current Liability"),
        ("EQUITY", "Equity"),
        ("CASH", "Cash"),
        ("STOCK", "Stock"),
        ("UNDEPOSITED_FUNDS", "Undeposited Funds"),
        ("BANK_ACCOUNT", "Bank Account"),
        ("BANK_OD_ACCOUNT", "Bank OD Account"),
        ("GST_PAYABLE", "Direct Income"),
        ("GST_RECEIVABLE", "Indirect Income"),
        ("EFT_ACCOUNT", "Sale"),
        ("PAYABLE", "Payable"),
        ("RECEIVABLE", "Receivable"),
        ("ACCOUNT_PAYABLE", "Account Payable"),
        ("ACCOUNT_RECEIVABLE", "Account Receivable"),
        ("TRADE_PAYABLE", "Trade Payable"),
        ("TRADE_RECEIVABLE", "Trade Receivable"),
        ("BRANCH_TRANSFER", "Branch Transfer"),
    ];
    for (code, name) in expected {
        assert_eq!(get_account_type(code, &Vec::new()), Ok(name.to_string()));
        assert_eq!(AccountType::from_code(code).unwrap().canonical_name(), name);
    }
}

#[test]
fn every_voucher_type_code_has_its_name() {
    let expected = [
        ("SALE", "Sales"),
        ("CREDIT_NOTE", "Credit Note"),
        ("PURCHASE", "Purchase"),
        ("DEBIT_NOTE", "Debit Note"),
        ("PAYMENT", "Payment"),
        ("RECEIPT", "Receipt"),
        ("JOURNAL", "Journal"),
        ("CONTRA", "Contra"),
    ];
    for (code, name) in expected {
        assert_eq!(get_voucher_type(code, &Vec::new()), Ok(name.to_string()));
        assert_eq!(VoucherType::from_code(code).unwrap().canonical_name(), name);
    }
}

#[test]
fn unknown_account_type_code_is_an_error() {
    assert_eq!(get_account_type("BOGUS", &Vec::new()), Err(ExportError::UnknownAccountType));
    assert_eq!(get_account_type("", &Vec::new()), Err(ExportError::UnknownAccountType));
    assert_eq!(get_account_type("cash", &Vec::new()), Err(ExportError::UnknownAccountType));
    assert_eq!(get_account_type("Cash", &Vec::new()), Err(ExportError::UnknownAccountType));
    assert_eq!(AccountType::from_code("JOURNAL"), None);
}

#[test]
fn unknown_voucher_type_code_is_an_error() {
    assert_eq!(get_voucher_type("BOGUS", &Vec::new()), Err(ExportError::UnknownVoucherType));
    assert_eq!(get_voucher_type("Sales", &Vec::new()), Err(ExportError::UnknownVoucherType));
    assert_eq!(get_voucher_type("", &Vec::new()), Err(ExportError::UnknownVoucherType));
    assert_eq!(VoucherType::from_code("CASH"), None);
}

#[test]
fn party_accounts_are_customers_suppliers_cash_and_banks() {
    let party = [
        "TRADE_RECEIVABLE",
        "TRADE_PAYABLE",
        "ACCOUNT_RECEIVABLE",
        "ACCOUNT_PAYABLE",
        "CASH",
        "BANK_ACCOUNT",
        "BANK_OD_ACCOUNT",
        "EFT_ACCOUNT",
    ];
    let other = [
        "DIRECT_INCOME",
        "INDIRECT_INCOME",
        "SALE",
        "DIRECT_EXPENSE",
        "INDIRECT_EXPENSE",
        "PURCHASE",
        "FIXED_ASSET",
        "CURRENT_ASSET",
        "LONGTERM_LIABILITY",
        "CURRENT_LIABILITY",
        "EQUITY",
        "STOCK",
        "UNDEPOSITED_FUNDS",
        "GST_PAYABLE",
        "GST_RECEIVABLE",
        "PAYABLE",
        "RECEIVABLE",
        "BRANCH_TRANSFER",
    ];
    for code in party {
        assert!(AccountType::from_code(code).unwrap().is_party_candidate());
    }
    for code in other {
        assert!(!AccountType::from_code(code).unwrap().is_party_candidate());
    }
}

#[test]
fn error_kinds_have_their_names() {
    assert_eq!(ExportError::UnknownAccountType.kind(), "UnknownAccountType");
    assert_eq!(ExportError::UnknownVoucherType.kind(), "UnknownVoucherType");
    assert_eq!(ExportError::UnknownAccount.kind(), "UnknownAccount");
    assert_eq!(ExportError::NoPartyCandidate.kind(), "NoPartyCandidate");
    assert_eq!(ExportError::MalformedAliasTable.kind(), "MalformedAliasTable");
    assert_eq!(ExportError::ConsistencyViolation.kind(), "ConsistencyViolation");
}
