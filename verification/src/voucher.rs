//! From the legs of one transaction to the voucher that is exported for
//! it.

use vstd::prelude::*;
use crate::alias::{resolve, resolved, NameMap, NameMapModel};
use crate::classify::{account_type_of, get_voucher_type, voucher_type_of, AccountType};
use crate::entry::{entry_for, flags_follow_amounts, LedgerEntry, LedgerEntryModel};
use crate::error::ExportError;
use crate::party::{
    is_party_of, party_is_a_leg, party_is_unique, resolve_party, PartyLeg, PartyLegModel,
};
use crate::sorting::{
    is_stable_descending, sort_descending, stable_descending_holds_legs,
    stable_descending_is_unique,
};
use crate::text::{copy_optional, same_text};

verus! {

/// One leg of a transaction: the id of the account, the amount (credit
/// less debit, in the smallest currency unit) and the code of the
/// account's type.
#[derive(Clone, Debug, PartialEq, Eq)]
pub struct Transaction {
    pub account: String,
    pub amount: i64,
    pub account_type: String,
}

/// What a [`Transaction`] holds, as plain values.
pub ghost struct TransactionModel {
    pub account: Seq<char>,
    pub amount: int,
    pub account_type: Seq<char>,
}

impl View for Transaction {
    type V = TransactionModel;

    open spec fn view(&self) -> TransactionModel {
        TransactionModel {
            account: self.account@,
            amount: self.amount as int,
            account_type: self.account_type@,
        }
    }
}

impl DeepView for Transaction {
    type V = TransactionModel;

    open spec fn deep_view(&self) -> TransactionModel {
        self@
    }
}

/// One transaction as the books hold it, with its legs in order.
#[derive(Clone, Debug, PartialEq, Eq)]
pub struct AGVoucher {
    pub date: String,
    pub bill_date: Option<String>,
    pub ref_no: Option<String>,
    pub narration: Option<String>,
    pub voucher_type: String,
    pub voucher_no: Option<String>,
    pub trns: Vec<Transaction>,
    pub lut: Option<bool>,
    pub rcm: Option<bool>,
}

/// What an [`AGVoucher`] holds, as plain values.
pub ghost struct AGVoucherModel {
    pub date: Seq<char>,
    pub bill_date: Option<Seq<char>>,
    pub ref_no: Option<Seq<char>>,
    pub narration: Option<Seq<char>>,
    pub voucher_type: Seq<char>,
    pub voucher_no: Option<Seq<char>>,
    pub trns: Seq<TransactionModel>,
    pub lut: Option<bool>,
    pub rcm: Option<bool>,
}

impl DeepView for AGVoucher {
    type V = AGVoucherModel;

    open spec fn deep_view(&self) -> AGVoucherModel {
        AGVoucherModel {
            date: self.date@,
            bill_date: self.bill_date.deep_view(),
            ref_no: self.ref_no.deep_view(),
            narration: self.narration.deep_view(),
            voucher_type: self.voucher_type@,
            voucher_no: self.voucher_no.deep_view(),
            trns: self.trns.deep_view(),
            lut: self.lut,
            rcm: self.rcm,
        }
    }
}

/// One account of the account directory: its id and its name.
#[derive(Clone, Debug, PartialEq, Eq)]
pub struct DirectoryEntry {
    pub id: String,
    pub name: String,
}

/// What a [`DirectoryEntry`] holds, as plain text.
pub ghost struct DirectoryEntryModel {
    pub id: Seq<char>,
    pub name: Seq<char>,
}

impl View for DirectoryEntry {
    type V = DirectoryEntryModel;

    open spec fn view(&self) -> DirectoryEntryModel {
        DirectoryEntryModel { id: self.id@, name: self.name@ }
    }
}

impl DeepView for DirectoryEntry {
    type V = DirectoryEntryModel;

    open spec fn deep_view(&self) -> DirectoryEntryModel {
        self@
    }
}

/// One exported voucher. The entries are in the order in which the voucher
/// shows them.
#[derive(Clone, Debug, PartialEq, Eq)]
pub struct Voucher {
    pub date: String,
    pub ref_no: Option<String>,
    pub ref_date: Option<String>,
    pub voucher_type: String,
    pub party_ledger: String,
    pub voucher_no: Option<String>,
    pub ledger_entries: Vec<LedgerEntry>,
}

/// What a [`Voucher`] holds, as plain values.
pub ghost struct VoucherModel {
    pub date: Seq<char>,
    pub ref_no: Option<Seq<char>>,
    pub ref_date: Option<Seq<char>>,
    pub voucher_type: Seq<char>,
    pub party_ledger: Seq<char>,
    pub voucher_no: Option<Seq<char>>,
    pub ledger_entries: Seq<LedgerEntryModel>,
}

impl DeepView for Voucher {
    type V = VoucherModel;

    open spec fn deep_view(&self) -> VoucherModel {
        VoucherModel {
            date: self.date@,
            ref_no: self.ref_no.deep_view(),
            ref_date: self.ref_date.deep_view(),
            voucher_type: self.voucher_type@,
            party_ledger: self.party_ledger@,
            voucher_no: self.voucher_no.deep_view(),
            ledger_entries: self.ledger_entries.deep_view(),
        }
    }
}

impl Voucher {
    /// Puts a voucher together from its parts, each taken as it is.
    pub fn new(
        date: String,
        ref_no: Option<String>,
        ref_date: Option<String>,
        voucher_type: String,
        party_ledger: String,
        voucher_no: Option<String>,
        ledger_entries: Vec<LedgerEntry>,
    ) -> (out: Voucher)
        ensures
            out == (Voucher {
                date,
                ref_no,
                ref_date,
                voucher_type,
                party_ledger,
                voucher_no,
                ledger_entries,
            }),
    {
        Voucher { date, ref_no, ref_date, voucher_type, party_ledger, voucher_no, ledger_entries }
    }
}

/// The name of the account `id`: that of the first directory entry with
/// this id, if there is one.
pub open spec fn account_name_of(directory: Seq<DirectoryEntryModel>, id: Seq<char>) -> Option<
    Seq<char>,
>
    decreases directory.len(),
{
    if directory.len() == 0 {
        None
    } else if directory[0].id == id {
        Some(directory[0].name)
    } else {
        account_name_of(directory.drop_first(), id)
    }
}

/// An id that the directory holds has a name, and an id that it does not
/// hold has none.
pub proof fn account_name_is_known(directory: Seq<DirectoryEntryModel>, id: Seq<char>)
    ensures
        account_name_of(directory, id) is Some <==> exists|i: int|
            0 <= i < directory.len() && (#[trigger] directory[i]).id == id,
    decreases directory.len(),
{
    if directory.len() > 0 {
        let rest = directory.drop_first();
        account_name_is_known(rest, id);
        if directory[0].id != id {
            if account_name_of(rest, id) is Some {
                let i = choose|i: int| 0 <= i < rest.len() && (#[trigger] rest[i]).id == id;
                assert(directory[i + 1].id == id);
            }
            if exists|i: int| 0 <= i < directory.len() && (#[trigger] directory[i]).id == id {
                let i = choose|i: int|
                    0 <= i < directory.len() && (#[trigger] directory[i]).id == id;
                assert(rest[i - 1].id == id);
            }
        }
    }
}

/// What the party rules read of the leg `trn`: its ledger is the account's
/// name from the directory, renamed by `account_map`. An account id that
/// the directory lacks is an error, and so is an unknown account type
/// code; where both are wrong, the account is reported.
pub open spec fn leg_of(
    trn: TransactionModel,
    directory: Seq<DirectoryEntryModel>,
    account_map: Seq<NameMapModel>,
) -> Result<PartyLegModel, ExportError> {
    match account_name_of(directory, trn.account) {
        None => Err(ExportError::UnknownAccount),
        Some(name) => match account_type_of(trn.account_type) {
            None => Err(ExportError::UnknownAccountType),
            Some(kind) => Ok(
                PartyLegModel {
                    ledger_name: resolved(account_map, name),
                    amount: trn.amount,
                    account_type: kind,
                },
            ),
        },
    }
}

/// Whether every leg of `trns` names a known account and a known account
/// type.
pub open spec fn all_legs_known(
    trns: Seq<TransactionModel>,
    directory: Seq<DirectoryEntryModel>,
    account_map: Seq<NameMapModel>,
) -> bool {
    forall|i: int| 0 <= i < trns.len() ==> leg_of(#[trigger] trns[i], directory, account_map) is Ok
}

/// Whether leg `i` is the first that cannot be read.
pub open spec fn is_first_bad_leg(
    trns: Seq<TransactionModel>,
    directory: Seq<DirectoryEntryModel>,
    account_map: Seq<NameMapModel>,
    i: int,
) -> bool {
    &&& 0 <= i < trns.len()
    &&& leg_of(trns[i], directory, account_map) is Err
    &&& forall|j: int| 0 <= j < i ==> leg_of(#[trigger] trns[j], directory, account_map) is Ok
}

/// The legs of `trns` as the party rules read them, in leg order.
pub open spec fn legs_of(
    trns: Seq<TransactionModel>,
    directory: Seq<DirectoryEntryModel>,
    account_map: Seq<NameMapModel>,
) -> Seq<PartyLegModel> {
    Seq::new(trns.len(), |i: int| leg_of(trns[i], directory, account_map)->Ok_0)
}

/// The ledger entries of `legs`, one for each leg, in leg order.
pub open spec fn entries_of(legs: Seq<PartyLegModel>) -> Seq<LedgerEntryModel> {
    Seq::new(legs.len(), |i: int| entry_for(legs[i].ledger_name, legs[i].amount))
}

/// Whether `out` is what exporting `raw` gives, with the account
/// directory `directory` and the two alias tables.
///
/// An unknown voucher type code fails the voucher. Otherwise the first
/// leg that cannot be read fails it, with that leg's error. Otherwise the
/// party rules decide, on the legs in leg order and under the exported
/// name of the voucher type, and their error fails the voucher. A voucher
/// that is exported keeps the date, the reference, the bill date and the
/// number of `raw`; its entries are those of the legs, in leg order for a
/// voucher exported as `Journal`, and else largest amount first with
/// equal amounts in leg order.
pub open spec fn is_voucher_of(
    raw: AGVoucherModel,
    directory: Seq<DirectoryEntryModel>,
    account_map: Seq<NameMapModel>,
    voucher_type_map: Seq<NameMapModel>,
    out: Result<VoucherModel, ExportError>,
) -> bool {
    match voucher_type_of(raw.voucher_type) {
        None => out matches Err(e) && e == ExportError::UnknownVoucherType,
        Some(kind) => {
            let kind_name = resolved(voucher_type_map, kind.name());
            let legs = legs_of(raw.trns, directory, account_map);
            if all_legs_known(raw.trns, directory, account_map) {
                match out {
                    Ok(v) => {
                        &&& v.date == raw.date
                        &&& v.ref_no == raw.ref_no
                        &&& v.ref_date == raw.bill_date
                        &&& v.voucher_type == kind_name
                        &&& v.voucher_no == raw.voucher_no
                        &&& is_party_of(kind_name, legs, Ok(v.party_ledger))
                        &&& if kind_name == "Journal"@ {
                            v.ledger_entries == entries_of(legs)
                        } else {
                            is_stable_descending(v.ledger_entries, entries_of(legs))
                        }
                    },
                    Err(e) => is_party_of(kind_name, legs, Err(e)),
                }
            } else {
                out matches Err(e) && exists|i: int| #[trigger]
                    is_first_bad_leg(raw.trns, directory, account_map, i) && leg_of(
                        raw.trns[i],
                        directory,
                        account_map,
                    ) == Err::<PartyLegModel, ExportError>(e)
            }
        },
    }
}

/// Every entry of an exported voucher is deemed positive exactly when its
/// amount is below zero.
pub proof fn exported_flags_follow_amounts(
    raw: AGVoucherModel,
    directory: Seq<DirectoryEntryModel>,
    account_map: Seq<NameMapModel>,
    voucher_type_map: Seq<NameMapModel>,
    v: VoucherModel,
)
    requires
        is_voucher_of(raw, directory, account_map, voucher_type_map, Ok(v)),
    ensures
        flags_follow_amounts(v.ledger_entries),
{
    let kind = voucher_type_of(raw.voucher_type)->Some_0;
    let kind_name = resolved(voucher_type_map, kind.name());
    let made = entries_of(legs_of(raw.trns, directory, account_map));
    if kind_name != "Journal"@ {
        stable_descending_holds_legs(v.ledger_entries, made);
    }
    assert forall|i: int| 0 <= i < v.ledger_entries.len() implies (
    #[trigger] v.ledger_entries[i]).well_formed() by {
        if kind_name != "Journal"@ {
            assert(made.contains(v.ledger_entries[i]));
            let j = choose|j: int| 0 <= j < made.len() && made[j] == v.ledger_entries[i];
            assert(made[j].well_formed());
        }
    }
}

/// An exported voucher shows one entry for each leg.
pub proof fn every_leg_is_shown(
    raw: AGVoucherModel,
    directory: Seq<DirectoryEntryModel>,
    account_map: Seq<NameMapModel>,
    voucher_type_map: Seq<NameMapModel>,
    v: VoucherModel,
)
    requires
        is_voucher_of(raw, directory, account_map, voucher_type_map, Ok(v)),
    ensures
        v.ledger_entries.len() == raw.trns.len(),
{
    let kind = voucher_type_of(raw.voucher_type)->Some_0;
    let kind_name = resolved(voucher_type_map, kind.name());
    let made = entries_of(legs_of(raw.trns, directory, account_map));
    if kind_name != "Journal"@ {
        stable_descending_holds_legs(v.ledger_entries, made);
    }
}

/// Whether `name` is the ledger name of one of `entries`.
pub open spec fn names_an_entry(entries: Seq<LedgerEntryModel>, name: Seq<char>) -> bool {
    exists|i: int| 0 <= i < entries.len() && (#[trigger] entries[i]).ledger_name == name
}

/// The party ledger of an exported voucher is empty or the ledger name of
/// one of the voucher's own entries.
pub proof fn party_is_among_entries(
    raw: AGVoucherModel,
    directory: Seq<DirectoryEntryModel>,
    account_map: Seq<NameMapModel>,
    voucher_type_map: Seq<NameMapModel>,
    v: VoucherModel,
)
    requires
        is_voucher_of(raw, directory, account_map, voucher_type_map, Ok(v)),
    ensures
        v.party_ledger.len() == 0 || names_an_entry(v.ledger_entries, v.party_ledger),
{
    let kind = voucher_type_of(raw.voucher_type)->Some_0;
    let kind_name = resolved(voucher_type_map, kind.name());
    let legs = legs_of(raw.trns, directory, account_map);
    let made = entries_of(legs);
    party_is_a_leg(kind_name, legs, Ok(v.party_ledger));
    if v.party_ledger.len() != 0 {
        let i = choose|i: int| 0 <= i < legs.len() && v.party_ledger == (#[trigger] legs[i]).ledger_name;
        assert(made[i].ledger_name == v.party_ledger);
        if kind_name != "Journal"@ {
            stable_descending_holds_legs(v.ledger_entries, made);
            assert(v.ledger_entries.contains(made[i]));
            let j = choose|j: int|
                0 <= j < v.ledger_entries.len() && v.ledger_entries[j] == made[i];
            assert(v.ledger_entries[j].ledger_name == v.party_ledger);
        } else {
            assert(v.ledger_entries[i].ledger_name == v.party_ledger);
        }
    }
}

/// Exporting is a function of its inputs: one voucher, one directory and
/// one pair of alias tables give one outcome, value for value.
pub proof fn export_is_deterministic(
    raw: AGVoucherModel,
    directory: Seq<DirectoryEntryModel>,
    account_map: Seq<NameMapModel>,
    voucher_type_map: Seq<NameMapModel>,
    first: Result<VoucherModel, ExportError>,
    second: Result<VoucherModel, ExportError>,
)
    requires
        is_voucher_of(raw, directory, account_map, voucher_type_map, first),
        is_voucher_of(raw, directory, account_map, voucher_type_map, second),
    ensures
        first == second,
{
    match voucher_type_of(raw.voucher_type) {
        None => {},
        Some(kind) => {
            let kind_name = resolved(voucher_type_map, kind.name());
            let legs = legs_of(raw.trns, directory, account_map);
            let made = entries_of(legs);
            if all_legs_known(raw.trns, directory, account_map) {
                match (first, second) {
                    (Ok(a), Ok(b)) => {
                        party_is_unique(kind_name, legs, Ok(a.party_ledger), Ok(b.party_ledger));
                        if kind_name != "Journal"@ {
                            stable_descending_is_unique(a.ledger_entries, b.ledger_entries, made);
                        }
                    },
                    (Ok(a), Err(e)) => {
                        party_is_unique(kind_name, legs, Ok(a.party_ledger), Err(e));
                    },
                    (Err(e), Ok(b)) => {
                        party_is_unique(kind_name, legs, Err(e), Ok(b.party_ledger));
                    },
                    (Err(e), Err(f)) => {
                        party_is_unique(kind_name, legs, Err(e), Err(f));
                    },
                }
            } else {
                let e = first->Err_0;
                let f = second->Err_0;
                let i = choose|i: int| #[trigger]
                    is_first_bad_leg(raw.trns, directory, account_map, i) && leg_of(
                        raw.trns[i],
                        directory,
                        account_map,
                    ) == Err::<PartyLegModel, ExportError>(e);
                let j = choose|j: int| #[trigger]
                    is_first_bad_leg(raw.trns, directory, account_map, j) && leg_of(
                        raw.trns[j],
                        directory,
                        account_map,
                    ) == Err::<PartyLegModel, ExportError>(f);
                assert(i == j);
            }
        },
    }
}

/// The voucher of an outcome as plain values, or the error in its place.
pub open spec fn voucher_outcome(out: Result<Voucher, ExportError>) -> Result<
    VoucherModel,
    ExportError,
> {
    match out {
        Ok(v) => Ok(v.deep_view()),
        Err(e) => Err(e),
    }
}

/// The leg of an outcome as plain values, or the error in its place.
pub open spec fn leg_outcome(out: Result<PartyLeg, ExportError>) -> Result<
    PartyLegModel,
    ExportError,
> {
    match out {
        Ok(leg) => Ok(leg@),
        Err(e) => Err(e),
    }
}

/// The sum of the amounts of `trns`.
pub open spec fn leg_total(trns: Seq<TransactionModel>) -> int
    decreases trns.len(),
{
    if trns.len() == 0 {
        0
    } else {
        leg_total(trns.drop_last()) + trns.last().amount
    }
}

/// Whether the legs of `voucher` sum to zero, as the legs of a
/// transaction in double-entry books do. Nothing in an export depends on
/// it: it is a check on the data, made on the legs as they were given.
pub fn is_balanced(voucher: &AGVoucher) -> (out: bool)
    ensures
        out == (leg_total(voucher.deep_view().trns) == 0),
{
    let ghost trns = voucher.deep_view().trns;
    let mut total: i128 = 0;
    let mut k: usize = 0;
    assert(trns.take(0) =~= Seq::empty());
    while k < voucher.trns.len()
        invariant
            k <= voucher.trns.len(),
            trns == voucher.deep_view().trns,
            total == leg_total(trns.take(k as int)),
            -(k * 0x8000_0000_0000_0000) <= total <= k * 0x8000_0000_0000_0000,
        decreases voucher.trns.len() - k,
    {
        assert(trns[k as int] == voucher.trns@[k as int]@);
        assert(trns.take(k + 1).drop_last() =~= trns.take(k as int));
        total = total + voucher.trns[k].amount as i128;
        k += 1;
    }
    assert(trns.take(k as int) =~= trns);
    total == 0
}

/// Looks up the name of the account `id` in the directory.
pub fn find_account<'a>(accounts: &'a Vec<DirectoryEntry>, id: &str) -> (out: Option<&'a String>)
    ensures
        out.deep_view() == account_name_of(accounts.deep_view(), id@),
{
    let ghost whole = accounts.deep_view();
    let mut i: usize = 0;
    assert(whole.subrange(0, whole.len() as int) =~= whole);
    while i < accounts.len()
        invariant
            i <= accounts.len(),
            whole == accounts.deep_view(),
            account_name_of(whole, id@) == account_name_of(
                whole.subrange(i as int, whole.len() as int),
                id@,
            ),
        decreases accounts.len() - i,
    {
        let ghost rest = whole.subrange(i as int, whole.len() as int);
        assert(rest[0] == accounts@[i as int]@);
        assert(rest.drop_first() =~= whole.subrange(i + 1, whole.len() as int));
        if same_text(accounts[i].id.as_str(), id) {
            return Some(&accounts[i].name);
        }
        i += 1;
    }
    None
}

/// Reads one leg: finds the account's name, renames it by `account_map`
/// and reads the account type code.
pub fn classify_leg(
    trn: &Transaction,
    accounts: &Vec<DirectoryEntry>,
    account_map: &Vec<NameMap>,
) -> (out: Result<PartyLeg, ExportError>)
    ensures
        leg_outcome(out) == leg_of(trn@, accounts.deep_view(), account_map.deep_view()),
{
    let name = match find_account(accounts, trn.account.as_str()) {
        Some(name) => name,
        None => {
            return Err(ExportError::UnknownAccount);
        },
    };
    let kind = match AccountType::from_code(trn.account_type.as_str()) {
        Some(kind) => kind,
        None => {
            return Err(ExportError::UnknownAccountType);
        },
    };
    Ok(
        PartyLeg {
            ledger_name: resolve(account_map, name.as_str()),
            amount: trn.amount,
            account_type: kind,
        },
    )
}

/// Exports one voucher: names its type, reads its legs, chooses its party
/// and orders its entries. A voucher that cannot be exported is an error
/// of its own and leaves every other voucher untouched.
pub fn transform_voucher(
    voucher: &AGVoucher,
    accounts: &Vec<DirectoryEntry>,
    account_map: &Vec<NameMap>,
    voucher_type_map: &Vec<NameMap>,
) -> (out: Result<Voucher, ExportError>)
    ensures
        is_voucher_of(
            voucher.deep_view(),
            accounts.deep_view(),
            account_map.deep_view(),
            voucher_type_map.deep_view(),
            voucher_outcome(out),
        ),
{
    let ghost raw = voucher.deep_view();
    let ghost directory = accounts.deep_view();
    let ghost renames = account_map.deep_view();
    let voucher_type_name = match get_voucher_type(voucher.voucher_type.as_str(), voucher_type_map) {
        Ok(name) => name,
        Err(e) => {
            return Err(e);
        },
    };
    let mut legs: Vec<PartyLeg> = Vec::new();
    let mut entries: Vec<LedgerEntry> = Vec::new();
    let mut k: usize = 0;
    assert(entries.deep_view() =~= entries_of(legs.deep_view()));
    while k < voucher.trns.len()
        invariant
            k <= voucher.trns.len(),
            raw == voucher.deep_view(),
            directory == accounts.deep_view(),
            renames == account_map.deep_view(),
            voucher_type_of(raw.voucher_type) matches Some(kind) && voucher_type_name@
                == resolved(voucher_type_map.deep_view(), kind.name()),
            legs.len() == k,
            entries.len() == k,
            forall|i: int|
                0 <= i < k ==> leg_of(#[trigger] raw.trns[i], directory, renames) == Ok::<
                    PartyLegModel,
                    ExportError,
                >(legs.deep_view()[i]),
            entries.deep_view() == entries_of(legs.deep_view()),
        decreases voucher.trns.len() - k,
    {
        assert(raw.trns[k as int] == voucher.trns@[k as int]@);
        match classify_leg(&voucher.trns[k], accounts, account_map) {
            Ok(leg) => {
                let ghost old_legs = legs.deep_view();
                let ghost old_entries = entries.deep_view();
                let ghost leg_model = leg@;
                let entry = LedgerEntry::new(leg.ledger_name.clone(), leg.amount);
                let ghost entry_model = entry@;
                entries.push(entry);
                legs.push(leg);
                assert(legs.deep_view() =~= old_legs.push(leg_model));
                assert(entries.deep_view() =~= old_entries.push(entry_model));
                assert(entries_of(old_legs.push(leg_model)) =~= entries_of(old_legs).push(
                    entry_model,
                ));
            },
            Err(e) => {
                assert(is_first_bad_leg(raw.trns, directory, renames, k as int));
                assert(!all_legs_known(raw.trns, directory, renames));
                return Err(e);
            },
        }
        k += 1;
    }
    assert(legs.deep_view() =~= legs_of(raw.trns, directory, renames));
    let party = match resolve_party(voucher_type_name.as_str(), &legs) {
        Ok(party) => party,
        Err(e) => {
            return Err(e);
        },
    };
    let shown = if same_text(voucher_type_name.as_str(), "Journal") {
        entries
    } else {
        sort_descending(entries)
    };
    Ok(
        Voucher::new(
            voucher.date.clone(),
            copy_optional(&voucher.ref_no),
            copy_optional(&voucher.bill_date),
            voucher_type_name,
            party,
            copy_optional(&voucher.voucher_no),
            shown,
        ),
    )
}

} // verus!
