//! The document that carries what is exported: an envelope, a body, an
//! import block and a request block around one message for each item, a
//! voucher or a ledger.

use vstd::prelude::*;
use crate::error::ExportError;
use crate::text::same_text;
use crate::voucher::{names_an_entry, Voucher, VoucherModel};

verus! {

/// One message of the request block. It carries one item.
#[derive(Clone, Debug, PartialEq, Eq)]
pub struct TallyMessage<T> {
    pub items: Vec<T>,
}

/// The request block: the messages, in the order of the items.
#[derive(Clone, Debug, PartialEq, Eq)]
pub struct RequestData<T> {
    pub items: Vec<TallyMessage<T>>,
}

/// The import block around the request block.
#[derive(Clone, Debug, PartialEq, Eq)]
pub struct ImportData<T> {
    pub request_data: RequestData<T>,
}

/// The body around the import block.
#[derive(Clone, Debug, PartialEq, Eq)]
pub struct Body<T> {
    pub import_data: ImportData<T>,
}

/// The envelope around the body.
#[derive(Clone, Debug, PartialEq, Eq)]
pub struct Envelope<T> {
    pub body: Body<T>,
}

/// The whole document.
#[derive(Clone, Debug, PartialEq, Eq)]
pub struct ExportData<T> {
    pub envelope: Envelope<T>,
}

impl<T: DeepView> DeepView for TallyMessage<T> {
    type V = Seq<T::V>;

    open spec fn deep_view(&self) -> Seq<T::V> {
        self.items.deep_view()
    }
}

impl<T: DeepView> DeepView for RequestData<T> {
    type V = Seq<Seq<T::V>>;

    open spec fn deep_view(&self) -> Seq<Seq<T::V>> {
        self.items.deep_view()
    }
}

impl<T: DeepView> DeepView for ImportData<T> {
    type V = Seq<Seq<T::V>>;

    open spec fn deep_view(&self) -> Seq<Seq<T::V>> {
        self.request_data.deep_view()
    }
}

impl<T: DeepView> DeepView for Body<T> {
    type V = Seq<Seq<T::V>>;

    open spec fn deep_view(&self) -> Seq<Seq<T::V>> {
        self.import_data.deep_view()
    }
}

impl<T: DeepView> DeepView for Envelope<T> {
    type V = Seq<Seq<T::V>>;

    open spec fn deep_view(&self) -> Seq<Seq<T::V>> {
        self.body.deep_view()
    }
}

impl<T: DeepView> DeepView for ExportData<T> {
    type V = Seq<Seq<T::V>>;

    open spec fn deep_view(&self) -> Seq<Seq<T::V>> {
        self.envelope.deep_view()
    }
}

impl<T> TallyMessage<T> {
    /// The message that carries `item`.
    pub fn new(item: T) -> (out: TallyMessage<T>)
        ensures
            out.items@ == seq![item],
    {
        let mut items: Vec<T> = Vec::new();
        items.push(item);
        TallyMessage { items }
    }
}

impl<T> RequestData<T> {
    /// The request block of `items`.
    pub fn new(items: Vec<TallyMessage<T>>) -> (out: RequestData<T>)
        ensures
            out == (RequestData { items }),
    {
        RequestData { items }
    }
}

impl<T> ImportData<T> {
    /// The import block around `request_data`.
    pub fn new(request_data: RequestData<T>) -> (out: ImportData<T>)
        ensures
            out == (ImportData { request_data }),
    {
        ImportData { request_data }
    }
}

impl<T> Body<T> {
    /// The body around `import_data`.
    pub fn new(import_data: ImportData<T>) -> (out: Body<T>)
        ensures
            out == (Body { import_data }),
    {
        Body { import_data }
    }
}

impl<T> Envelope<T> {
    /// The envelope around `body`.
    pub fn new(body: Body<T>) -> (out: Envelope<T>)
        ensures
            out == (Envelope { body }),
    {
        Envelope { body }
    }
}

impl<T> ExportData<T> {
    /// The document around `envelope`.
    pub fn new(envelope: Envelope<T>) -> (out: ExportData<T>)
        ensures
            out == (ExportData { envelope }),
    {
        ExportData { envelope }
    }
}

/// The messages of the document for `items`: one for each item, in their
/// order, each holding its item unchanged.
pub open spec fn document_of<M>(items: Seq<M>) -> Seq<Seq<M>> {
    Seq::new(items.len(), |i: int| seq![items[i]])
}

/// Taking the messages of a document apart gives the items back, each
/// once and in their order.
pub proof fn flatten_of_document<M>(items: Seq<M>)
    ensures
        document_of(items).flatten() == items,
    decreases items.len(),
{
    let document = document_of(items);
    if items.len() == 0 {
        assert(document =~= Seq::empty());
        assert(document.flatten() =~= items);
    } else {
        let rest = items.drop_first();
        assert(document.drop_first() =~= document_of(rest));
        flatten_of_document(rest);
        assert(document.flatten() =~= document.first() + document.drop_first().flatten());
        assert(document.flatten() =~= items);
    }
}

/// Whether the party ledger of `v` is empty or one of its own entries.
pub open spec fn consistent(v: VoucherModel) -> bool {
    v.party_ledger.len() == 0 || names_an_entry(v.ledger_entries, v.party_ledger)
}

/// Whether every voucher of `vouchers` is consistent.
pub open spec fn all_consistent(vouchers: Seq<VoucherModel>) -> bool {
    forall|i: int| 0 <= i < vouchers.len() ==> consistent(#[trigger] vouchers[i])
}

/// Wraps items into a document, one message for each, in their order.
/// The items are not looked into.
pub fn wrap_items<T: DeepView>(items: Vec<T>) -> (out: ExportData<T>)
    ensures
        out.deep_view() == document_of(items.deep_view()),
{
    let ghost all = items@;
    let ghost models = items.deep_view();
    let mut messages: Vec<TallyMessage<T>> = Vec::new();
    for voucher in it: items
        invariant
            it.seq() == all,
            models.len() == all.len(),
            forall|i: int| 0 <= i < all.len() ==> models[i] == (#[trigger] all[i]).deep_view(),
            messages.len() == it.index(),
            forall|i: int|
                0 <= i < messages.len() ==> (#[trigger] messages.deep_view()[i]) == seq![models[i]],
    {
        let ghost before = messages.deep_view();
        let ghost model = voucher.deep_view();
        let message = TallyMessage::new(voucher);
        assert(message.deep_view() =~= seq![model]);
        messages.push(message);
        assert forall|i: int| 0 <= i < messages.len() implies (#[trigger] messages.deep_view()[i])
            == seq![models[i]] by {
            if i < before.len() {
                assert(messages.deep_view()[i] == before[i]);
            }
        }
    }
    let out = ExportData::new(Envelope::new(Body::new(ImportData::new(RequestData::new(messages)))));
    assert(out.deep_view() =~= document_of(models));
    out
}

/// Whether the party ledger of `voucher` is empty or names one of the
/// voucher's own entries.
pub fn is_consistent(voucher: &Voucher) -> (out: bool)
    ensures
        out == consistent(voucher.deep_view()),
{
    let party = voucher.party_ledger.as_str();
    if party.is_empty() {
        return true;
    }
    let ghost entries = voucher.ledger_entries.deep_view();
    let mut i: usize = 0;
    while i < voucher.ledger_entries.len()
        invariant
            i <= voucher.ledger_entries.len(),
            entries == voucher.ledger_entries.deep_view(),
            party@ == voucher.party_ledger@,
            party@.len() != 0,
            forall|j: int| 0 <= j < i ==> (#[trigger] entries[j]).ledger_name != party@,
        decreases voucher.ledger_entries.len() - i,
    {
        assert(entries[i as int] == voucher.ledger_entries@[i as int]@);
        if same_text(voucher.ledger_entries[i].ledger_name.as_str(), party) {
            return true;
        }
        i += 1;
    }
    false
}

/// Checks `vouchers` and wraps them into a document. Fails where a
/// voucher names a party ledger that is not among its own entries; a
/// voucher that this library exported never does.
pub fn assemble_document(vouchers: Vec<Voucher>) -> (out: Result<
    ExportData<Voucher>,
    ExportError,
>)
    ensures
        match out {
            Ok(document) => all_consistent(vouchers.deep_view()) && document.deep_view()
                == document_of(vouchers.deep_view()),
            Err(e) => e == ExportError::ConsistencyViolation && !all_consistent(
                vouchers.deep_view(),
            ),
        },
{
    let ghost models = vouchers.deep_view();
    let mut i: usize = 0;
    while i < vouchers.len()
        invariant
            i <= vouchers.len(),
            models == vouchers.deep_view(),
            forall|j: int| 0 <= j < i ==> consistent(#[trigger] models[j]),
        decreases vouchers.len() - i,
    {
        assert(models[i as int] == vouchers@[i as int].deep_view());
        if !is_consistent(&vouchers[i]) {
            return Err(ExportError::ConsistencyViolation);
        }
        i += 1;
    }
    Ok(wrap_items(vouchers))
}

} // verus!
