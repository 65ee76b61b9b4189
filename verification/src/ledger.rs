//! Exporting accounts as ledgers: each account becomes a ledger under the
//! exported name of its account type.

use vstd::prelude::*;
use crate::alias::{
    csv_records, get_name_map, readable, reads_as, resolved, NameMap, NameMapModel,
};
use crate::classify::{account_type_of, get_account_type};
use crate::document::{document_of, wrap_items, ExportData};
use crate::error::ExportError;

verus! {

/// A name of a ledger in one language.
#[derive(Clone, Debug, PartialEq, Eq)]
pub struct Name {
    pub lang_name: String,
}

/// The list of names of a ledger. It holds one name.
#[derive(Clone, Debug, PartialEq, Eq)]
pub struct LanguageName {
    pub language_name: Name,
}

/// One exported ledger: its name, the group it belongs to and its name
/// in the list of names.
#[derive(Clone, Debug, PartialEq, Eq)]
pub struct Account {
    pub account: String,
    pub account_type: String,
    pub language_name: LanguageName,
}

/// One account as the books hold it: its name and its account type code.
#[derive(Clone, Debug, PartialEq, Eq)]
pub struct CAccount {
    pub name: String,
    pub account_type: String,
}

/// What an [`Account`] holds, as plain text.
pub ghost struct AccountModel {
    pub account: Seq<char>,
    pub account_type: Seq<char>,
    pub language_name: Seq<char>,
}

/// What a [`CAccount`] holds, as plain text.
pub ghost struct CAccountModel {
    pub name: Seq<char>,
    pub account_type: Seq<char>,
}

impl View for Name {
    type V = Seq<char>;

    open spec fn view(&self) -> Seq<char> {
        self.lang_name@
    }
}

impl View for LanguageName {
    type V = Seq<char>;

    open spec fn view(&self) -> Seq<char> {
        self.language_name@
    }
}

impl View for Account {
    type V = AccountModel;

    open spec fn view(&self) -> AccountModel {
        AccountModel {
            account: self.account@,
            account_type: self.account_type@,
            language_name: self.language_name@,
        }
    }
}

impl DeepView for Account {
    type V = AccountModel;

    open spec fn deep_view(&self) -> AccountModel {
        self@
    }
}

impl View for CAccount {
    type V = CAccountModel;

    open spec fn view(&self) -> CAccountModel {
        CAccountModel { name: self.name@, account_type: self.account_type@ }
    }
}

impl DeepView for CAccount {
    type V = CAccountModel;

    open spec fn deep_view(&self) -> CAccountModel {
        self@
    }
}

impl Account {
    /// Puts a ledger together from its parts, each taken as it is.
    pub fn new(account: String, account_type: String, language_name: LanguageName) -> (out:
        Account)
        ensures
            out == (Account { account, account_type, language_name }),
    {
        Account { account, account_type, language_name }
    }
}

/// Whether every account of `accounts` has a known account type code.
pub open spec fn all_types_known(accounts: Seq<CAccountModel>) -> bool {
    forall|i: int|
        0 <= i < accounts.len() ==> account_type_of((#[trigger] accounts[i]).account_type) is Some
}

/// The ledger for `account`, whose account type code is known: it has the
/// account's name, twice, and the exported name of the account's type.
pub open spec fn ledger_of(account: CAccountModel, account_type_map: Seq<NameMapModel>) -> AccountModel {
    AccountModel {
        account: account.name,
        account_type: resolved(
            account_type_map,
            account_type_of(account.account_type)->Some_0.name(),
        ),
        language_name: account.name,
    }
}

/// The document for `accounts`: one message for each account, in their
/// order. One unknown account type code fails the whole export.
pub open spec fn ledgers_of(
    accounts: Seq<CAccountModel>,
    account_type_map: Seq<NameMapModel>,
) -> Result<Seq<Seq<AccountModel>>, ExportError> {
    if all_types_known(accounts) {
        Ok(document_of(Seq::new(accounts.len(), |i: int| ledger_of(accounts[i], account_type_map))))
    } else {
        Err(ExportError::UnknownAccountType)
    }
}

/// The messages of an outcome as plain values, or the error in its
/// place.
pub open spec fn ledger_outcome(out: Result<ExportData<Account>, ExportError>) -> Result<
    Seq<Seq<AccountModel>>,
    ExportError,
> {
    match out {
        Ok(document) => Ok(document.deep_view()),
        Err(e) => Err(e),
    }
}

/// Builds the ledger document for `accounts` with the alias table for
/// account type names.
pub fn ledger_document(accounts: &Vec<CAccount>, account_type_map: &Vec<NameMap>) -> (out: Result<
    ExportData<Account>,
    ExportError,
>)
    ensures
        ledger_outcome(out) == ledgers_of(accounts.deep_view(), account_type_map.deep_view()),
{
    let ghost given = accounts.deep_view();
    let ghost renames = account_type_map.deep_view();
    let mut ledgers: Vec<Account> = Vec::new();
    let mut k: usize = 0;
    while k < accounts.len()
        invariant
            k <= accounts.len(),
            given == accounts.deep_view(),
            renames == account_type_map.deep_view(),
            ledgers.len() == k,
            forall|i: int|
                0 <= i < k ==> account_type_of((#[trigger] given[i]).account_type) is Some,
            forall|i: int|
                0 <= i < k ==> (#[trigger] ledgers.deep_view()[i]) == ledger_of(given[i], renames),
        decreases accounts.len() - k,
    {
        let acc = &accounts[k];
        assert(given[k as int] == acc@);
        let group = match get_account_type(acc.account_type.as_str(), account_type_map) {
            Ok(group) => group,
            Err(e) => {
                return Err(e);
            },
        };
        let ghost before = ledgers.deep_view();
        let names = LanguageName { language_name: Name { lang_name: acc.name.clone() } };
        let ledger = Account::new(acc.name.clone(), group, names);
        let ghost model = ledger@;
        ledgers.push(ledger);
        assert(ledgers.deep_view() =~= before.push(model));
        k += 1;
    }
    assert(ledgers.deep_view() =~= Seq::new(given.len(), |i: int| ledger_of(given[i], renames)));
    Ok(wrap_items(ledgers))
}

/// Exports `accounts` as ledgers. `account_type_map_str` is the alias
/// table for account type names, as tabular text; where it cannot be
/// read nothing is exported.
pub fn export_ledger(accounts: &Vec<CAccount>, account_type_map_str: &str) -> (out: Result<
    ExportData<Account>,
    ExportError,
>)
    ensures
        match csv_records(account_type_map_str@) {
            Some(records) => if readable(records) {
                exists|table: Seq<NameMapModel>| #[trigger]
                    reads_as(records, table) && ledger_outcome(out) == ledgers_of(
                        accounts.deep_view(),
                        table,
                    )
            } else {
                out matches Err(e) && e == ExportError::MalformedAliasTable
            },
            None => out matches Err(e) && e == ExportError::MalformedAliasTable,
        },
{
    match get_name_map(account_type_map_str) {
        Ok(table) => {
            let out = ledger_document(accounts, &table);
            assert(reads_as(csv_records(account_type_map_str@)->Some_0, table.deep_view()));
            out
        },
        Err(e) => Err(e),
    }
}

} // verus!
