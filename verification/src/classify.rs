//! The closed sets of account type and voucher type codes, and the names
//! under which each code is exported.

use vstd::prelude::*;
use crate::alias::{resolve, resolved, NameMap};
use crate::error::ExportError;
use crate::text::same_text;

verus! {

/// The kinds of account that a leg can be booked on.
#[derive(Clone, Copy, Debug, PartialEq, Eq, Structural)]
pub enum AccountType {
    DirectIncome,
    IndirectIncome,
    Sale,
    DirectExpense,
    IndirectExpense,
    Purchase,
    FixedAsset,
    CurrentAsset,
    LongTermLiability,
    CurrentLiability,
    Equity,
    Cash,
    Stock,
    UndepositedFunds,
    BankAccount,
    BankOdAccount,
    GstPayable,
    GstReceivable,
    EftAccount,
    Payable,
    Receivable,
    AccountPayable,
    AccountReceivable,
    TradePayable,
    TradeReceivable,
    BranchTransfer,
}

/// The kinds of voucher that can be exported.
#[derive(Clone, Copy, Debug, PartialEq, Eq, Structural)]
pub enum VoucherType {
    Sale,
    CreditNote,
    Purchase,
    DebitNote,
    Payment,
    Receipt,
    Journal,
    Contra,
}

/// The account type that `code` stands for, if it is a known code.
pub open spec fn account_type_of(code: Seq<char>) -> Option<AccountType> {
    if code == "DIRECT_INCOME"@ {
        Some(AccountType::DirectIncome)
    } else if code == "INDIRECT_INCOME"@ {
        Some(AccountType::IndirectIncome)
    } else if code == "SALE"@ {
        Some(AccountType::Sale)
    } else if code == "DIRECT_EXPENSE"@ {
        Some(AccountType::DirectExpense)
    } else if code == "INDIRECT_EXPENSE"@ {
        Some(AccountType::IndirectExpense)
    } else if code == "PURCHASE"@ {
        Some(AccountType::Purchase)
    } else if code == "FIXED_ASSET"@ {
        Some(AccountType::FixedAsset)
    } else if code == "CURRENT_ASSET"@ {
        Some(AccountType::CurrentAsset)
    } else if code == "LONGTERM_LIABILITY"@ {
        Some(AccountType::LongTermLiability)
    } else if code == "CURRENT_LIABILITY"@ {
        Some(AccountType::CurrentLiability)
    } else if code == "EQUITY"@ {
        Some(AccountType::Equity)
    } else if code == "CASH"@ {
        Some(AccountType::Cash)
    } else if code == "STOCK"@ {
        Some(AccountType::Stock)
    } else if code == "UNDEPOSITED_FUNDS"@ {
        Some(AccountType::UndepositedFunds)
    } else if code == "BANK_ACCOUNT"@ {
        Some(AccountType::BankAccount)
    } else if code == "BANK_OD_ACCOUNT"@ {
        Some(AccountType::BankOdAccount)
    } else if code == "GST_PAYABLE"@ {
        Some(AccountType::GstPayable)
    } else if code == "GST_RECEIVABLE"@ {
        Some(AccountType::GstReceivable)
    } else if code == "EFT_ACCOUNT"@ {
        Some(AccountType::EftAccount)
    } else if code == "PAYABLE"@ {
        Some(AccountType::Payable)
    } else if code == "RECEIVABLE"@ {
        Some(AccountType::Receivable)
    } else if code == "ACCOUNT_PAYABLE"@ {
        Some(AccountType::AccountPayable)
    } else if code == "ACCOUNT_RECEIVABLE"@ {
        Some(AccountType::AccountReceivable)
    } else if code == "TRADE_PAYABLE"@ {
        Some(AccountType::TradePayable)
    } else if code == "TRADE_RECEIVABLE"@ {
        Some(AccountType::TradeReceivable)
    } else if code == "BRANCH_TRANSFER"@ {
        Some(AccountType::BranchTransfer)
    } else {
        None
    }
}

/// The voucher type that `code` stands for, if it is a known code.
pub open spec fn voucher_type_of(code: Seq<char>) -> Option<VoucherType> {
    if code == "SALE"@ {
        Some(VoucherType::Sale)
    } else if code == "CREDIT_NOTE"@ {
        Some(VoucherType::CreditNote)
    } else if code == "PURCHASE"@ {
        Some(VoucherType::Purchase)
    } else if code == "DEBIT_NOTE"@ {
        Some(VoucherType::DebitNote)
    } else if code == "PAYMENT"@ {
        Some(VoucherType::Payment)
    } else if code == "RECEIPT"@ {
        Some(VoucherType::Receipt)
    } else if code == "JOURNAL"@ {
        Some(VoucherType::Journal)
    } else if code == "CONTRA"@ {
        Some(VoucherType::Contra)
    } else {
        None
    }
}

impl AccountType {
    /// The name under which accounts of this type are grouped on export.
    /// Several types share a name.
    pub open spec fn name(self) -> Seq<char> {
        match self {
            AccountType::DirectIncome => "Direct Income"@,
            AccountType::IndirectIncome => "Indirect Income"@,
            AccountType::Sale => "Sale"@,
            AccountType::DirectExpense => "Direct Expense"@,
            AccountType::IndirectExpense => "Indirect Expense"@,
            AccountType::Purchase => "Purchase"@,
            AccountType::FixedAsset => "Fixed Asset"@,
            AccountType::CurrentAsset => "Current Asset"@,
            AccountType::LongTermLiability => "LongTerm Liability"@,
            AccountType::CurrentLiability => "Current Liability"@,
            AccountType::Equity => "Equity"@,
            AccountType::Cash => "Cash"@,
            AccountType::Stock => "Stock"@,
            AccountType::UndepositedFunds => "Undeposited Funds"@,
            AccountType::BankAccount => "Bank Account"@,
            AccountType::BankOdAccount => "Bank OD Account"@,
            AccountType::GstPayable => "Direct Income"@,
            AccountType::GstReceivable => "Indirect Income"@,
            AccountType::EftAccount => "Sale"@,
            AccountType::Payable => "Payable"@,
            AccountType::Receivable => "Receivable"@,
            AccountType::AccountPayable => "Account Payable"@,
            AccountType::AccountReceivable => "Account Receivable"@,
            AccountType::TradePayable => "Trade Payable"@,
            AccountType::TradeReceivable => "Trade Receivable"@,
            AccountType::BranchTransfer => "Branch Transfer"@,
        }
    }

    /// Whether a leg on an account of this type can stand for the other
    /// side of a sale or a purchase: a customer, a supplier, cash or a
    /// bank.
    pub open spec fn is_party(self) -> bool {
        self == AccountType::TradeReceivable || self == AccountType::TradePayable || self
            == AccountType::AccountReceivable || self == AccountType::AccountPayable || self
            == AccountType::Cash || self == AccountType::BankAccount || self
            == AccountType::BankOdAccount || self == AccountType::EftAccount
    }

    /// Reads an account type code. Codes are matched exactly, in upper
    /// case.
    pub fn from_code(code: &str) -> (out: Option<AccountType>)
        ensures
            out == account_type_of(code@),
    {
        if same_text(code, "DIRECT_INCOME") {
            Some(AccountType::DirectIncome)
        } else if same_text(code, "INDIRECT_INCOME") {
            Some(AccountType::IndirectIncome)
        } else if same_text(code, "SALE") {
            Some(AccountType::Sale)
        } else if same_text(code, "DIRECT_EXPENSE") {
            Some(AccountType::DirectExpense)
        } else if same_text(code, "INDIRECT_EXPENSE") {
            Some(AccountType::IndirectExpense)
        } else if same_text(code, "PURCHASE") {
            Some(AccountType::Purchase)
        } else if same_text(code, "FIXED_ASSET") {
            Some(AccountType::FixedAsset)
        } else if same_text(code, "CURRENT_ASSET") {
            Some(AccountType::CurrentAsset)
        } else if same_text(code, "LONGTERM_LIABILITY") {
            Some(AccountType::LongTermLiability)
        } else if same_text(code, "CURRENT_LIABILITY") {
            Some(AccountType::CurrentLiability)
        } else if same_text(code, "EQUITY") {
            Some(AccountType::Equity)
        } else if same_text(code, "CASH") {
            Some(AccountType::Cash)
        } else if same_text(code, "STOCK") {
            Some(AccountType::Stock)
        } else if same_text(code, "UNDEPOSITED_FUNDS") {
            Some(AccountType::UndepositedFunds)
        } else if same_text(code, "BANK_ACCOUNT") {
            Some(AccountType::BankAccount)
        } else if same_text(code, "BANK_OD_ACCOUNT") {
            Some(AccountType::BankOdAccount)
        } else if same_text(code, "GST_PAYABLE") {
            Some(AccountType::GstPayable)
        } else if same_text(code, "GST_RECEIVABLE") {
            Some(AccountType::GstReceivable)
        } else if same_text(code, "EFT_ACCOUNT") {
            Some(AccountType::EftAccount)
        } else if same_text(code, "PAYABLE") {
            Some(AccountType::Payable)
        } else if same_text(code, "RECEIVABLE") {
            Some(AccountType::Receivable)
        } else if same_text(code, "ACCOUNT_PAYABLE") {
            Some(AccountType::AccountPayable)
        } else if same_text(code, "ACCOUNT_RECEIVABLE") {
            Some(AccountType::AccountReceivable)
        } else if same_text(code, "TRADE_PAYABLE") {
            Some(AccountType::TradePayable)
        } else if same_text(code, "TRADE_RECEIVABLE") {
            Some(AccountType::TradeReceivable)
        } else if same_text(code, "BRANCH_TRANSFER") {
            Some(AccountType::BranchTransfer)
        } else {
            None
        }
    }

    /// The name under which accounts of this type are grouped on export.
    pub fn canonical_name(self) -> (out: &'static str)
        ensures
            out@ == self.name(),
    {
        match self {
            AccountType::DirectIncome => "Direct Income",
            AccountType::IndirectIncome => "Indirect Income",
            AccountType::Sale => "Sale",
            AccountType::DirectExpense => "Direct Expense",
            AccountType::IndirectExpense => "Indirect Expense",
            AccountType::Purchase => "Purchase",
            AccountType::FixedAsset => "Fixed Asset",
            AccountType::CurrentAsset => "Current Asset",
            AccountType::LongTermLiability => "LongTerm Liability",
            AccountType::CurrentLiability => "Current Liability",
            AccountType::Equity => "Equity",
            AccountType::Cash => "Cash",
            AccountType::Stock => "Stock",
            AccountType::UndepositedFunds => "Undeposited Funds",
            AccountType::BankAccount => "Bank Account",
            AccountType::BankOdAccount => "Bank OD Account",
            AccountType::GstPayable => "Direct Income",
            AccountType::GstReceivable => "Indirect Income",
            AccountType::EftAccount => "Sale",
            AccountType::Payable => "Payable",
            AccountType::Receivable => "Receivable",
            AccountType::AccountPayable => "Account Payable",
            AccountType::AccountReceivable => "Account Receivable",
            AccountType::TradePayable => "Trade Payable",
            AccountType::TradeReceivable => "Trade Receivable",
            AccountType::BranchTransfer => "Branch Transfer",
        }
    }

    /// Whether a leg on an account of this type can be the party of a
    /// sale or a purchase.
    pub fn is_party_candidate(self) -> (out: bool)
        ensures
            out == self.is_party(),
    {
        match self {
            AccountType::TradeReceivable
            | AccountType::TradePayable
            | AccountType::AccountReceivable
            | AccountType::AccountPayable
            | AccountType::Cash
            | AccountType::BankAccount
            | AccountType::BankOdAccount
            | AccountType::EftAccount => true,
            _ => false,
        }
    }
}

impl VoucherType {
    /// The name under which vouchers of this type are exported.
    pub open spec fn name(self) -> Seq<char> {
        match self {
            VoucherType::Sale => "Sales"@,
            VoucherType::CreditNote => "Credit Note"@,
            VoucherType::Purchase => "Purchase"@,
            VoucherType::DebitNote => "Debit Note"@,
            VoucherType::Payment => "Payment"@,
            VoucherType::Receipt => "Receipt"@,
            VoucherType::Journal => "Journal"@,
            VoucherType::Contra => "Contra"@,
        }
    }

    /// Reads a voucher type code. Codes are matched exactly, in upper
    /// case.
    pub fn from_code(code: &str) -> (out: Option<VoucherType>)
        ensures
            out == voucher_type_of(code@),
    {
        if same_text(code, "SALE") {
            Some(VoucherType::Sale)
        } else if same_text(code, "CREDIT_NOTE") {
            Some(VoucherType::CreditNote)
        } else if same_text(code, "PURCHASE") {
            Some(VoucherType::Purchase)
        } else if same_text(code, "DEBIT_NOTE") {
            Some(VoucherType::DebitNote)
        } else if same_text(code, "PAYMENT") {
            Some(VoucherType::Payment)
        } else if same_text(code, "RECEIPT") {
            Some(VoucherType::Receipt)
        } else if same_text(code, "JOURNAL") {
            Some(VoucherType::Journal)
        } else if same_text(code, "CONTRA") {
            Some(VoucherType::Contra)
        } else {
            None
        }
    }

    /// The name under which vouchers of this type are exported.
    pub fn canonical_name(self) -> (out: &'static str)
        ensures
            out@ == self.name(),
    {
        match self {
            VoucherType::Sale => "Sales",
            VoucherType::CreditNote => "Credit Note",
            VoucherType::Purchase => "Purchase",
            VoucherType::DebitNote => "Debit Note",
            VoucherType::Payment => "Payment",
            VoucherType::Receipt => "Receipt",
            VoucherType::Journal => "Journal",
            VoucherType::Contra => "Contra",
        }
    }
}

/// The exported name of the account type `account_type`: its canonical
/// name, renamed by `account_type_map` where the table has an entry for
/// it. Fails on a code outside the known set.
pub fn get_account_type(account_type: &str, account_type_map: &Vec<NameMap>) -> (out: Result<
    String,
    ExportError,
>)
    ensures
        match out {
            Ok(name) => account_type_of(account_type@) matches Some(kind) && name@ == resolved(
                account_type_map.deep_view(),
                kind.name(),
            ),
            Err(e) => e == ExportError::UnknownAccountType && account_type_of(account_type@)
                is None,
        },
{
    match AccountType::from_code(account_type) {
        Some(kind) => Ok(resolve(account_type_map, kind.canonical_name())),
        None => Err(ExportError::UnknownAccountType),
    }
}

/// The exported name of the voucher type `voucher_type`: its canonical
/// name, renamed by `voucher_type_map` where the table has an entry for
/// it. Fails on a code outside the known set.
pub fn get_voucher_type(voucher_type: &str, voucher_type_map: &Vec<NameMap>) -> (out: Result<
    String,
    ExportError,
>)
    ensures
        match out {
            Ok(name) => voucher_type_of(voucher_type@) matches Some(kind) && name@ == resolved(
                voucher_type_map.deep_view(),
                kind.name(),
            ),
            Err(e) => e == ExportError::UnknownVoucherType && voucher_type_of(voucher_type@)
                is None,
        },
{
    match VoucherType::from_code(voucher_type) {
        Some(kind) => Ok(resolve(voucher_type_map, kind.canonical_name())),
        None => Err(ExportError::UnknownVoucherType),
    }
}

} // verus!
