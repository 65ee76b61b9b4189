//! Choosing the party ledger of a voucher: the one leg that stands for the
//! other side of the transaction.

use vstd::prelude::*;
use crate::classify::AccountType;
use crate::error::ExportError;
use crate::text::same_text;

verus! {

/// What the party rules read of one leg: the ledger it is booked on, under
/// its exported name, its amount and the type of its account.
#[derive(Clone, Debug, PartialEq, Eq)]
pub struct PartyLeg {
    pub ledger_name: String,
    pub amount: i64,
    pub account_type: AccountType,
}

/// What a [`PartyLeg`] holds, as plain values.
pub ghost struct PartyLegModel {
    pub ledger_name: Seq<char>,
    pub amount: int,
    pub account_type: AccountType,
}

impl View for PartyLeg {
    type V = PartyLegModel;

    open spec fn view(&self) -> PartyLegModel {
        PartyLegModel {
            ledger_name: self.ledger_name@,
            amount: self.amount as int,
            account_type: self.account_type,
        }
    }
}

impl DeepView for PartyLeg {
    type V = PartyLegModel;

    open spec fn deep_view(&self) -> PartyLegModel {
        self@
    }
}

/// The size of an amount, whatever its sign.
pub open spec fn magnitude(amount: int) -> int {
    if amount < 0 {
        -amount
    } else {
        amount
    }
}

/// Whether leg `i` is a credit and no later leg is.
pub open spec fn is_last_credit(legs: Seq<PartyLegModel>, i: int) -> bool {
    &&& 0 <= i < legs.len()
    &&& legs[i].amount > 0
    &&& forall|j: int| i < j < legs.len() ==> (#[trigger] legs[j]).amount <= 0
}

/// Whether leg `i` is a debit and no later leg is.
pub open spec fn is_last_debit(legs: Seq<PartyLegModel>, i: int) -> bool {
    &&& 0 <= i < legs.len()
    &&& legs[i].amount < 0
    &&& forall|j: int| i < j < legs.len() ==> (#[trigger] legs[j]).amount >= 0
}

/// Whether leg `i` is the candidate of the largest size: a leg on a party
/// account that no candidate exceeds in size, and that no earlier
/// candidate equals.
pub open spec fn is_top_candidate(legs: Seq<PartyLegModel>, i: int) -> bool {
    &&& 0 <= i < legs.len()
    &&& legs[i].account_type.is_party()
    &&& forall|j: int|
        0 <= j < legs.len() && (#[trigger] legs[j]).account_type.is_party() ==> magnitude(
            legs[j].amount,
        ) <= magnitude(legs[i].amount)
    &&& forall|j: int|
        0 <= j < i && (#[trigger] legs[j]).account_type.is_party() ==> magnitude(legs[j].amount)
            < magnitude(legs[i].amount)
}

/// Whether vouchers called `kind_name` take their party from the legs on
/// party accounts: sales, purchases and the notes that amend them.
pub open spec fn is_trade(kind_name: Seq<char>) -> bool {
    kind_name == "Sales"@ || kind_name == "Purchase"@ || kind_name == "Credit Note"@ || kind_name
        == "Debit Note"@
}

/// Whether vouchers called `kind_name` take their party from the last
/// credit: contra vouchers and receipts.
pub open spec fn is_inflow(kind_name: Seq<char>) -> bool {
    kind_name == "Contra"@ || kind_name == "Receipt"@
}

/// Whether `party` is what the party rules give for a voucher called
/// `kind_name` with the legs `legs`, in leg order.
///
/// The rule is chosen by the exported name of the voucher type, after
/// renaming. A trade voucher takes the largest leg on a party account,
/// the earliest among equals, and fails without such a leg. A journal
/// takes its first leg, and fails without legs. A payment takes its last
/// debit, a contra voucher or a receipt its last credit; without one the
/// party stays empty. Under any other name the party is empty.
pub open spec fn is_party_of(
    kind_name: Seq<char>,
    legs: Seq<PartyLegModel>,
    party: Result<Seq<char>, ExportError>,
) -> bool {
    if is_trade(kind_name) {
        match party {
            Ok(name) => exists|i: int| #[trigger]
                is_top_candidate(legs, i) && name == legs[i].ledger_name,
            Err(e) => e == ExportError::NoPartyCandidate && forall|i: int|
                0 <= i < legs.len() ==> !(#[trigger] legs[i]).account_type.is_party(),
        }
    } else if kind_name == "Journal"@ {
        match party {
            Ok(name) => legs.len() > 0 && name == legs[0].ledger_name,
            Err(e) => e == ExportError::NoPartyCandidate && legs.len() == 0,
        }
    } else if kind_name == "Payment"@ {
        match party {
            Ok(name) => (exists|i: int| #[trigger]
                is_last_debit(legs, i) && name == legs[i].ledger_name) || (name.len() == 0
                && forall|i: int| 0 <= i < legs.len() ==> (#[trigger] legs[i]).amount >= 0),
            Err(_) => false,
        }
    } else if is_inflow(kind_name) {
        match party {
            Ok(name) => (exists|i: int| #[trigger]
                is_last_credit(legs, i) && name == legs[i].ledger_name) || (name.len() == 0
                && forall|i: int| 0 <= i < legs.len() ==> (#[trigger] legs[i]).amount <= 0),
            Err(_) => false,
        }
    } else {
        party matches Ok(name) && name.len() == 0
    }
}

/// The names that choose a rule are all different, so one voucher falls
/// under one rule at most.
pub proof fn rules_exclude_each_other(kind_name: Seq<char>)
    ensures
        !(is_trade(kind_name) && is_inflow(kind_name)),
        !(is_trade(kind_name) && kind_name == "Journal"@),
        !(is_trade(kind_name) && kind_name == "Payment"@),
        !(is_inflow(kind_name) && kind_name == "Journal"@),
        !(is_inflow(kind_name) && kind_name == "Payment"@),
        !(kind_name == "Journal"@ && kind_name == "Payment"@),
{
    reveal_strlit("Sales");
    reveal_strlit("Purchase");
    reveal_strlit("Credit Note");
    reveal_strlit("Debit Note");
    reveal_strlit("Journal");
    reveal_strlit("Payment");
    reveal_strlit("Contra");
    reveal_strlit("Receipt");
    // The names differ in length or in their first or third character.
    if kind_name.len() > 2 {
        let first = kind_name[0];
        let third = kind_name[2];
    }
}

/// The text of a party, or the error in its place.
pub open spec fn party_text(party: Result<String, ExportError>) -> Result<
    Seq<char>,
    ExportError,
> {
    match party {
        Ok(name) => Ok(name@),
        Err(e) => Err(e),
    }
}

/// The party rules leave no choice: one voucher has one party, or one
/// error.
pub proof fn party_is_unique(
    kind_name: Seq<char>,
    legs: Seq<PartyLegModel>,
    first: Result<Seq<char>, ExportError>,
    second: Result<Seq<char>, ExportError>,
)
    requires
        is_party_of(kind_name, legs, first),
        is_party_of(kind_name, legs, second),
    ensures
        first == second,
{
    if is_trade(kind_name) {
        match (first, second) {
            (Ok(a), Ok(b)) => {
                let i = choose|i: int| #[trigger]
                    is_top_candidate(legs, i) && a == legs[i].ledger_name;
                let j = choose|j: int| #[trigger]
                    is_top_candidate(legs, j) && b == legs[j].ledger_name;
                assert(i == j);
            },
            (Ok(a), Err(_)) => {
                let i = choose|i: int| #[trigger]
                    is_top_candidate(legs, i) && a == legs[i].ledger_name;
                assert(legs[i].account_type.is_party());
            },
            (Err(_), Ok(b)) => {
                let j = choose|j: int| #[trigger]
                    is_top_candidate(legs, j) && b == legs[j].ledger_name;
                assert(legs[j].account_type.is_party());
            },
            (Err(_), Err(_)) => {},
        }
    } else if kind_name == "Journal"@ {
    } else if kind_name == "Payment"@ {
        let a = first->Ok_0;
        let b = second->Ok_0;
        if exists|i: int| #[trigger] is_last_debit(legs, i) && a == legs[i].ledger_name {
            let i = choose|i: int| #[trigger] is_last_debit(legs, i) && a == legs[i].ledger_name;
            assert(legs[i].amount < 0);
            let j = choose|j: int| #[trigger] is_last_debit(legs, j) && b == legs[j].ledger_name;
            assert(i == j);
        } else if exists|j: int| #[trigger] is_last_debit(legs, j) && b == legs[j].ledger_name {
            let j = choose|j: int| #[trigger] is_last_debit(legs, j) && b == legs[j].ledger_name;
            assert(legs[j].amount < 0);
        } else {
            assert(a =~= b);
        }
    } else if is_inflow(kind_name) {
        let a = first->Ok_0;
        let b = second->Ok_0;
        if exists|i: int| #[trigger] is_last_credit(legs, i) && a == legs[i].ledger_name {
            let i = choose|i: int| #[trigger] is_last_credit(legs, i) && a == legs[i].ledger_name;
            assert(legs[i].amount > 0);
            let j = choose|j: int| #[trigger] is_last_credit(legs, j) && b == legs[j].ledger_name;
            assert(i == j);
        } else if exists|j: int| #[trigger] is_last_credit(legs, j) && b == legs[j].ledger_name {
            let j = choose|j: int| #[trigger] is_last_credit(legs, j) && b == legs[j].ledger_name;
            assert(legs[j].amount > 0);
        } else {
            assert(a =~= b);
        }
    } else {
        assert(first->Ok_0 =~= second->Ok_0);
    }
}

/// A party is never invented: it is empty, or the ledger name of one of
/// the legs.
pub proof fn party_is_a_leg(
    kind_name: Seq<char>,
    legs: Seq<PartyLegModel>,
    party: Result<Seq<char>, ExportError>,
)
    requires
        is_party_of(kind_name, legs, party),
    ensures
        party matches Ok(name) ==> name.len() == 0 || exists|i: int|
            0 <= i < legs.len() && name == (#[trigger] legs[i]).ledger_name,
{
    if let Ok(name) = party {
        if is_trade(kind_name) {
            let i = choose|i: int| #[trigger]
                is_top_candidate(legs, i) && name == legs[i].ledger_name;
            assert(name == legs[i].ledger_name);
        } else if kind_name == "Journal"@ {
            assert(name == legs[0].ledger_name);
        } else if kind_name == "Payment"@ {
            if name.len() != 0 {
                let i = choose|i: int| #[trigger]
                    is_last_debit(legs, i) && name == legs[i].ledger_name;
                assert(name == legs[i].ledger_name);
            }
        } else if is_inflow(kind_name) {
            if name.len() != 0 {
                let i = choose|i: int| #[trigger]
                    is_last_credit(legs, i) && name == legs[i].ledger_name;
                assert(name == legs[i].ledger_name);
            }
        }
    }
}

/// The size of `amount`. It always fits: the largest size is that of the
/// smallest `i64`.
pub fn magnitude_of(amount: i64) -> (out: u64)
    ensures
        out == magnitude(amount as int),
{
    if amount >= 0 {
        amount as u64
    } else {
        let wide: i128 = -(amount as i128);
        wide as u64
    }
}

/// The last leg with an amount above zero. Legs are read in order, and a
/// later credit replaces an earlier one.
pub fn last_credit(legs: &Vec<PartyLeg>) -> (out: Option<usize>)
    ensures
        match out {
            Some(i) => is_last_credit(legs.deep_view(), i as int),
            None => forall|i: int|
                0 <= i < legs.len() ==> (#[trigger] legs.deep_view()[i]).amount <= 0,
        },
{
    let ghost model = legs.deep_view();
    let mut found: Option<usize> = None;
    let mut k: usize = 0;
    while k < legs.len()
        invariant
            k <= legs.len(),
            model == legs.deep_view(),
            match found {
                Some(f) => f < k && model[f as int].amount > 0 && forall|j: int|
                    f < j < k ==> (#[trigger] model[j]).amount <= 0,
                None => forall|j: int| 0 <= j < k ==> (#[trigger] model[j]).amount <= 0,
            },
        decreases legs.len() - k,
    {
        assert(model[k as int] == legs@[k as int]@);
        if legs[k].amount > 0 {
            found = Some(k);
        }
        k += 1;
    }
    found
}

/// The last leg with an amount below zero. Legs are read in order, and a
/// later debit replaces an earlier one.
pub fn last_debit(legs: &Vec<PartyLeg>) -> (out: Option<usize>)
    ensures
        match out {
            Some(i) => is_last_debit(legs.deep_view(), i as int),
            None => forall|i: int|
                0 <= i < legs.len() ==> (#[trigger] legs.deep_view()[i]).amount >= 0,
        },
{
    let ghost model = legs.deep_view();
    let mut found: Option<usize> = None;
    let mut k: usize = 0;
    while k < legs.len()
        invariant
            k <= legs.len(),
            model == legs.deep_view(),
            match found {
                Some(f) => f < k && model[f as int].amount < 0 && forall|j: int|
                    f < j < k ==> (#[trigger] model[j]).amount >= 0,
                None => forall|j: int| 0 <= j < k ==> (#[trigger] model[j]).amount >= 0,
            },
        decreases legs.len() - k,
    {
        assert(model[k as int] == legs@[k as int]@);
        if legs[k].amount < 0 {
            found = Some(k);
        }
        k += 1;
    }
    found
}

/// The leg on a party account with the largest size of amount; among
/// equals, the one that comes first. `None` where no leg is on a party
/// account.
pub fn top_candidate(legs: &Vec<PartyLeg>) -> (out: Option<usize>)
    ensures
        match out {
            Some(i) => is_top_candidate(legs.deep_view(), i as int),
            None => forall|i: int|
                0 <= i < legs.len() ==> !(#[trigger] legs.deep_view()[i]).account_type.is_party(),
        },
{
    let ghost model = legs.deep_view();
    let mut best: Option<usize> = None;
    let mut best_size: u64 = 0;
    let mut k: usize = 0;
    while k < legs.len()
        invariant
            k <= legs.len(),
            model == legs.deep_view(),
            match best {
                Some(b) => {
                    &&& b < k
                    &&& model[b as int].account_type.is_party()
                    &&& best_size == magnitude(model[b as int].amount)
                    &&& forall|j: int|
                        0 <= j < k && (#[trigger] model[j]).account_type.is_party() ==> magnitude(
                            model[j].amount,
                        ) <= best_size
                    &&& forall|j: int|
                        0 <= j < b && (#[trigger] model[j]).account_type.is_party() ==> magnitude(
                            model[j].amount,
                        ) < best_size
                },
                None => forall|j: int|
                    0 <= j < k ==> !(#[trigger] model[j]).account_type.is_party(),
            },
        decreases legs.len() - k,
    {
        assert(model[k as int] == legs@[k as int]@);
        if legs[k].account_type.is_party_candidate() {
            let size = magnitude_of(legs[k].amount);
            let larger = match best {
                Some(_) => size > best_size,
                None => true,
            };
            if larger {
                best = Some(k);
                best_size = size;
            }
        }
        k += 1;
    }
    best
}

/// Chooses the party ledger of a voucher called `voucher_type_name` from
/// its legs, which are given in leg order.
pub fn resolve_party(voucher_type_name: &str, legs: &Vec<PartyLeg>) -> (out: Result<
    String,
    ExportError,
>)
    ensures
        is_party_of(voucher_type_name@, legs.deep_view(), party_text(out)),
{
    let ghost model = legs.deep_view();
    if same_text(voucher_type_name, "Sales") || same_text(voucher_type_name, "Purchase")
        || same_text(voucher_type_name, "Credit Note") || same_text(
        voucher_type_name,
        "Debit Note",
    ) {
        match top_candidate(legs) {
            Some(i) => {
                assert(model[i as int] == legs@[i as int]@);
                Ok(legs[i].ledger_name.clone())
            },
            None => Err(ExportError::NoPartyCandidate),
        }
    } else if same_text(voucher_type_name, "Journal") {
        if legs.len() == 0 {
            Err(ExportError::NoPartyCandidate)
        } else {
            assert(model[0] == legs@[0]@);
            Ok(legs[0].ledger_name.clone())
        }
    } else if same_text(voucher_type_name, "Payment") {
        match last_debit(legs) {
            Some(i) => {
                assert(model[i as int] == legs@[i as int]@);
                Ok(legs[i].ledger_name.clone())
            },
            None => Ok(String::new()),
        }
    } else if same_text(voucher_type_name, "Contra") || same_text(voucher_type_name, "Receipt") {
        match last_credit(legs) {
            Some(i) => {
                assert(model[i as int] == legs@[i as int]@);
                Ok(legs[i].ledger_name.clone())
            },
            None => Ok(String::new()),
        }
    } else {
        Ok(String::new())
    }
}

} // verus!
