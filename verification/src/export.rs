//! One export run: every voucher is exported on its own, and a voucher
//! that cannot be exported is reported without stopping the others.

use vstd::prelude::*;
use crate::alias::{NameMap, NameMapModel};
use crate::document::{all_consistent, document_of, flatten_of_document, wrap_items, ExportData};
use crate::error::ExportError;
use crate::text::copy_optional;
use crate::voucher::{
    export_is_deterministic, is_voucher_of, party_is_among_entries, transform_voucher, AGVoucher,
    AGVoucherModel, DirectoryEntry, DirectoryEntryModel, Voucher, VoucherModel,
};

verus! {

/// A voucher that was not exported: the date and the number by which it
/// is found again, and what was wrong with it.
#[derive(Clone, Debug, PartialEq, Eq)]
pub struct Failure {
    pub date: String,
    pub voucher_no: Option<String>,
    pub error: ExportError,
}

/// What a [`Failure`] holds, as plain values.
pub ghost struct FailureModel {
    pub date: Seq<char>,
    pub voucher_no: Option<Seq<char>>,
    pub error: ExportError,
}

impl DeepView for Failure {
    type V = FailureModel;

    open spec fn deep_view(&self) -> FailureModel {
        FailureModel {
            date: self.date@,
            voucher_no: self.voucher_no.deep_view(),
            error: self.error,
        }
    }
}

/// What a run hands back: the document with the vouchers that were
/// exported, and the vouchers that were not.
#[derive(Clone, Debug, PartialEq, Eq)]
pub struct ExportRun {
    pub data: ExportData<Voucher>,
    pub failures: Vec<Failure>,
}

/// What an [`ExportRun`] holds, as plain values.
pub ghost struct ExportRunModel {
    pub data: Seq<Seq<VoucherModel>>,
    pub failures: Seq<FailureModel>,
}

impl DeepView for ExportRun {
    type V = ExportRunModel;

    open spec fn deep_view(&self) -> ExportRunModel {
        ExportRunModel { data: self.data.deep_view(), failures: self.failures.deep_view() }
    }
}

/// The vouchers among `outcomes`, in their order.
pub open spec fn exported(outcomes: Seq<Result<VoucherModel, ExportError>>) -> Seq<VoucherModel>
    decreases outcomes.len(),
{
    if outcomes.len() == 0 {
        Seq::empty()
    } else {
        let before = exported(outcomes.drop_last());
        match outcomes.last() {
            Ok(v) => before.push(v),
            Err(_) => before,
        }
    }
}

/// The failures among `outcomes`, in their order, each with the date and
/// the number of the voucher of `raws` that it belongs to.
pub open spec fn failed(
    raws: Seq<AGVoucherModel>,
    outcomes: Seq<Result<VoucherModel, ExportError>>,
) -> Seq<FailureModel>
    decreases outcomes.len(),
{
    if outcomes.len() == 0 || raws.len() != outcomes.len() {
        Seq::empty()
    } else {
        let before = failed(raws.drop_last(), outcomes.drop_last());
        match outcomes.last() {
            Ok(_) => before,
            Err(e) => before.push(
                FailureModel { date: raws.last().date, voucher_no: raws.last().voucher_no, error: e },
            ),
        }
    }
}

/// Whether `outcomes` holds, for each voucher of `raws` in turn, what
/// exporting that voucher gives.
pub open spec fn are_outcomes_of(
    raws: Seq<AGVoucherModel>,
    directory: Seq<DirectoryEntryModel>,
    account_map: Seq<NameMapModel>,
    voucher_type_map: Seq<NameMapModel>,
    outcomes: Seq<Result<VoucherModel, ExportError>>,
) -> bool {
    &&& outcomes.len() == raws.len()
    &&& forall|i: int|
        0 <= i < raws.len() ==> is_voucher_of(
            raws[i],
            directory,
            account_map,
            voucher_type_map,
            #[trigger] outcomes[i],
        )
}

/// Whether `run` is the run over `raws`: its document holds the vouchers
/// that were exported, one message each and in the order of `raws`, and
/// its failures name the others, in the same order.
pub open spec fn is_run_of(
    raws: Seq<AGVoucherModel>,
    directory: Seq<DirectoryEntryModel>,
    account_map: Seq<NameMapModel>,
    voucher_type_map: Seq<NameMapModel>,
    run: ExportRunModel,
) -> bool {
    exists|outcomes: Seq<Result<VoucherModel, ExportError>>| #[trigger]
        are_outcomes_of(raws, directory, account_map, voucher_type_map, outcomes) && run.data
            == document_of(exported(outcomes)) && run.failures == failed(raws, outcomes)
}

/// Every voucher is accounted for once: it is in the document or among
/// the failures.
pub proof fn outcomes_are_counted(
    raws: Seq<AGVoucherModel>,
    outcomes: Seq<Result<VoucherModel, ExportError>>,
)
    requires
        raws.len() == outcomes.len(),
    ensures
        exported(outcomes).len() + failed(raws, outcomes).len() == raws.len(),
    decreases outcomes.len(),
{
    if outcomes.len() > 0 {
        outcomes_are_counted(raws.drop_last(), outcomes.drop_last());
    }
}

/// A run is a function of its inputs: the same vouchers, directory and
/// alias tables give the same document and the same failures.
pub proof fn run_is_deterministic(
    raws: Seq<AGVoucherModel>,
    directory: Seq<DirectoryEntryModel>,
    account_map: Seq<NameMapModel>,
    voucher_type_map: Seq<NameMapModel>,
    first: ExportRunModel,
    second: ExportRunModel,
)
    requires
        is_run_of(raws, directory, account_map, voucher_type_map, first),
        is_run_of(raws, directory, account_map, voucher_type_map, second),
    ensures
        first == second,
{
    let a = choose|outcomes: Seq<Result<VoucherModel, ExportError>>| #[trigger]
        are_outcomes_of(raws, directory, account_map, voucher_type_map, outcomes) && first.data
            == document_of(exported(outcomes)) && first.failures == failed(raws, outcomes);
    let b = choose|outcomes: Seq<Result<VoucherModel, ExportError>>| #[trigger]
        are_outcomes_of(raws, directory, account_map, voucher_type_map, outcomes) && second.data
            == document_of(exported(outcomes)) && second.failures == failed(raws, outcomes);
    assert forall|i: int| 0 <= i < raws.len() implies a[i] == b[i] by {
        export_is_deterministic(raws[i], directory, account_map, voucher_type_map, a[i], b[i]);
    }
    assert(a =~= b);
}

/// Every voucher of the outcomes of a run names a party ledger among its
/// own entries, or none.
pub proof fn exported_are_consistent(
    raws: Seq<AGVoucherModel>,
    directory: Seq<DirectoryEntryModel>,
    account_map: Seq<NameMapModel>,
    voucher_type_map: Seq<NameMapModel>,
    outcomes: Seq<Result<VoucherModel, ExportError>>,
)
    requires
        are_outcomes_of(raws, directory, account_map, voucher_type_map, outcomes),
    ensures
        all_consistent(exported(outcomes)),
    decreases outcomes.len(),
{
    if outcomes.len() > 0 {
        let raws_before = raws.drop_last();
        let before = outcomes.drop_last();
        assert forall|i: int| 0 <= i < raws_before.len() implies is_voucher_of(
            raws_before[i],
            directory,
            account_map,
            voucher_type_map,
            #[trigger] before[i],
        ) by {
            assert(before[i] == outcomes[i]);
            assert(raws_before[i] == raws[i]);
        }
        exported_are_consistent(raws_before, directory, account_map, voucher_type_map, before);
        if let Ok(v) = outcomes.last() {
            assert(outcomes.last() == outcomes[raws.len() - 1]);
            party_is_among_entries(raws.last(), directory, account_map, voucher_type_map, v);
        }
    }
}

impl ExportRun {
    /// How many vouchers were exported.
    pub fn succeeded(&self) -> (out: usize)
        ensures
            out == self.deep_view().data.len(),
    {
        self.data.envelope.body.import_data.request_data.items.len()
    }

    /// How many vouchers were not exported.
    pub fn failed(&self) -> (out: usize)
        ensures
            out == self.deep_view().failures.len(),
    {
        self.failures.len()
    }
}

/// Exports `vouchers`, each on its own, with the account directory
/// `accounts` and the alias tables for account names and voucher type
/// names. The document holds the exported vouchers in the order in which
/// they were given; a voucher that fails is listed among the failures and
/// stops nothing.
pub fn export_data(
    vouchers: &Vec<AGVoucher>,
    accounts: &Vec<DirectoryEntry>,
    account_map: &Vec<NameMap>,
    voucher_type_map: &Vec<NameMap>,
) -> (out: ExportRun)
    ensures
        is_run_of(
            vouchers.deep_view(),
            accounts.deep_view(),
            account_map.deep_view(),
            voucher_type_map.deep_view(),
            out.deep_view(),
        ),
        all_consistent(out.data.deep_view().flatten()),
        out.deep_view().data.len() + out.deep_view().failures.len() == vouchers.len(),
{
    let ghost raws = vouchers.deep_view();
    let ghost directory = accounts.deep_view();
    let ghost renames = account_map.deep_view();
    let ghost kinds = voucher_type_map.deep_view();
    let ghost mut outcomes: Seq<Result<VoucherModel, ExportError>> = Seq::empty();
    let mut done: Vec<Voucher> = Vec::new();
    let mut failures: Vec<Failure> = Vec::new();
    let mut k: usize = 0;
    assert(raws.take(0) =~= Seq::empty());
    while k < vouchers.len()
        invariant
            k <= vouchers.len(),
            raws == vouchers.deep_view(),
            directory == accounts.deep_view(),
            renames == account_map.deep_view(),
            kinds == voucher_type_map.deep_view(),
            are_outcomes_of(raws.take(k as int), directory, renames, kinds, outcomes),
            done.deep_view() == exported(outcomes),
            failures.deep_view() == failed(raws.take(k as int), outcomes),
        decreases vouchers.len() - k,
    {
        let ghost before = outcomes;
        let ghost done_before = done.deep_view();
        let ghost failures_before = failures.deep_view();
        assert(raws[k as int] == vouchers@[k as int].deep_view());
        assert(raws.take(k + 1).drop_last() =~= raws.take(k as int));
        match transform_voucher(&vouchers[k], accounts, account_map, voucher_type_map) {
            Ok(voucher) => {
                proof {
                    outcomes = before.push(Ok(voucher.deep_view()));
                }
                let ghost model = voucher.deep_view();
                done.push(voucher);
                assert(done.deep_view() =~= done_before.push(model));
            },
            Err(e) => {
                proof {
                    outcomes = before.push(Err(e));
                }
                let failure = Failure {
                    date: vouchers[k].date.clone(),
                    voucher_no: copy_optional(&vouchers[k].voucher_no),
                    error: e,
                };
                let ghost model = failure.deep_view();
                failures.push(failure);
                assert(failures.deep_view() =~= failures_before.push(model));
            },
        }
        assert(outcomes.drop_last() =~= before);
        assert forall|i: int| 0 <= i < k + 1 implies is_voucher_of(
            raws.take(k + 1)[i],
            directory,
            renames,
            kinds,
            #[trigger] outcomes[i],
        ) by {
            if i < k {
                assert(outcomes[i] == before[i]);
                assert(raws.take(k as int)[i] == raws[i]);
            }
        }
        k += 1;
    }
    assert(raws.take(k as int) =~= raws);
    proof {
        exported_are_consistent(raws, directory, renames, kinds, outcomes);
        outcomes_are_counted(raws, outcomes);
    }
    let ghost shown = done.deep_view();
    let data = wrap_items(done);
    proof {
        let listed = data.deep_view();
        assert(listed == document_of(shown));
        flatten_of_document(shown);
    }
    ExportRun { data, failures }
}

} // verus!
