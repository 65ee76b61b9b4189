//! Ledger entries: one account and one amount of a voucher.

use vstd::prelude::*;

verus! {

/// One line of a voucher: the ledger it is booked on and the amount, a
/// whole number of the smallest currency unit. A positive amount is a
/// credit, a negative one a debit.
#[derive(Clone, Debug, PartialEq, Eq)]
pub struct LedgerEntry {
    pub ledger_name: String,
    pub is_deemed_positive: bool,
    pub amount: i64,
}

/// What a [`LedgerEntry`] holds, as plain values.
pub ghost struct LedgerEntryModel {
    pub ledger_name: Seq<char>,
    pub is_deemed_positive: bool,
    pub amount: int,
}

impl View for LedgerEntry {
    type V = LedgerEntryModel;

    open spec fn view(&self) -> LedgerEntryModel {
        LedgerEntryModel {
            ledger_name: self.ledger_name@,
            is_deemed_positive: self.is_deemed_positive,
            amount: self.amount as int,
        }
    }
}

impl DeepView for LedgerEntry {
    type V = LedgerEntryModel;

    open spec fn deep_view(&self) -> LedgerEntryModel {
        self@
    }
}

/// The entry for `amount` on the ledger `ledger_name`. The importing side
/// deems an entry positive exactly when its amount is below zero.
pub open spec fn entry_for(ledger_name: Seq<char>, amount: int) -> LedgerEntryModel {
    LedgerEntryModel { ledger_name, is_deemed_positive: amount < 0, amount }
}

impl LedgerEntryModel {
    /// Whether the entry carries the flag that its amount asks for: it is
    /// deemed positive exactly when the amount is below zero.
    pub open spec fn well_formed(self) -> bool {
        self.is_deemed_positive == (self.amount < 0)
    }
}

/// Whether every entry of `entries` carries the flag that its amount asks
/// for.
pub open spec fn flags_follow_amounts(entries: Seq<LedgerEntryModel>) -> bool {
    forall|i: int| 0 <= i < entries.len() ==> (#[trigger] entries[i]).well_formed()
}

impl LedgerEntry {
    /// Builds the entry for `amount` on `ledger_name`. The name is taken
    /// as it is: nothing is looked up or renamed here.
    pub fn new(ledger_name: String, amount: i64) -> (out: LedgerEntry)
        ensures
            out@ == entry_for(ledger_name@, amount as int),
            out@.well_formed(),
    {
        LedgerEntry { ledger_name, is_deemed_positive: amount < 0, amount }
    }

    /// The flag as the import format spells it: `Yes` or `No`.
    pub fn deemed_positive_text(&self) -> (out: &'static str)
        ensures
            out@ == if self.is_deemed_positive {
                "Yes"@
            } else {
                "No"@
            },
    {
        if self.is_deemed_positive {
            "Yes"
        } else {
            "No"
        }
    }
}

} // verus!
