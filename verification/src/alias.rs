//! Alias tables: an ordered list of renames from a source name to the name
//! that the importing side uses.

use vstd::prelude::*;
use crate::error::ExportError;
use crate::text::same_text;

verus! {

/// One rename: `auditplus` is the name on the exporting side, `tally` the
/// name that replaces it.
#[derive(Clone, Debug, PartialEq, Eq)]
pub struct NameMap {
    pub auditplus: String,
    pub tally: String,
}

/// What a [`NameMap`] holds, as plain text.
pub ghost struct NameMapModel {
    pub auditplus: Seq<char>,
    pub tally: Seq<char>,
}

impl View for NameMap {
    type V = NameMapModel;

    open spec fn view(&self) -> NameMapModel {
        NameMapModel { auditplus: self.auditplus@, tally: self.tally@ }
    }
}

impl DeepView for NameMap {
    type V = NameMapModel;

    open spec fn deep_view(&self) -> NameMapModel {
        self@
    }
}

/// Whether some entry of `table` renames `name`.
pub open spec fn renames(table: Seq<NameMapModel>, name: Seq<char>) -> bool {
    exists|i: int| 0 <= i < table.len() && (#[trigger] table[i]).auditplus == name
}

/// The name that `table` gives for `name`: the target of the first entry
/// whose source is `name`, and `name` itself where there is no such entry.
pub open spec fn resolved(table: Seq<NameMapModel>, name: Seq<char>) -> Seq<char>
    decreases table.len(),
{
    if table.len() == 0 {
        name
    } else if table[0].auditplus == name {
        table[0].tally
    } else {
        resolved(table.drop_first(), name)
    }
}

/// A name that no entry renames resolves to itself.
pub proof fn resolved_without_match(table: Seq<NameMapModel>, name: Seq<char>)
    requires
        !renames(table, name),
    ensures
        resolved(table, name) == name,
    decreases table.len(),
{
    if table.len() > 0 {
        assert(table[0].auditplus != name);
        let rest = table.drop_first();
        assert forall|i: int| 0 <= i < rest.len() implies (#[trigger] rest[i]).auditplus
            != name by {
            assert(rest[i] == table[i + 1]);
        }
        resolved_without_match(rest, name);
    }
}

/// The first entry whose source is `name` decides: entries after it are
/// never consulted.
pub proof fn resolved_by_first_match(table: Seq<NameMapModel>, name: Seq<char>, i: int)
    requires
        0 <= i < table.len(),
        table[i].auditplus == name,
        forall|j: int| 0 <= j < i ==> (#[trigger] table[j]).auditplus != name,
    ensures
        resolved(table, name) == table[i].tally,
    decreases i,
{
    if i > 0 {
        assert(table[0].auditplus != name);
        let rest = table.drop_first();
        assert(rest[i - 1] == table[i]);
        assert forall|j: int| 0 <= j < i - 1 implies (#[trigger] rest[j]).auditplus != name by {
            assert(rest[j] == table[j + 1]);
        }
        resolved_by_first_match(rest, name, i - 1);
    }
}

/// Resolving twice gives what resolving once gives, for every name whose
/// resolved form is not itself renamed by the table.
pub proof fn resolve_is_idempotent(table: Seq<NameMapModel>, name: Seq<char>)
    requires
        !renames(table, resolved(table, name)),
    ensures
        resolved(table, resolved(table, name)) == resolved(table, name),
{
    resolved_without_match(table, resolved(table, name));
}

/// Looks `name` up in `table`: the target of the first entry whose source
/// is exactly `name`, and `name` unchanged where no entry matches.
pub fn resolve(table: &Vec<NameMap>, name: &str) -> (out: String)
    ensures
        out@ == resolved(table.deep_view(), name@),
{
    let ghost whole = table.deep_view();
    let mut i: usize = 0;
    assert(whole.subrange(0, whole.len() as int) =~= whole);
    while i < table.len()
        invariant
            i <= table.len(),
            whole == table.deep_view(),
            resolved(whole, name@) == resolved(whole.subrange(i as int, whole.len() as int), name@),
        decreases table.len() - i,
    {
        let ghost rest = whole.subrange(i as int, whole.len() as int);
        assert(rest[0] == table@[i as int]@);
        assert(rest.drop_first() =~= whole.subrange(i + 1, whole.len() as int));
        if same_text(table[i].auditplus.as_str(), name) {
            return table[i].tally.clone();
        }
        i += 1;
    }
    name.to_owned()
}

/// The error type of the csv reader.
#[verifier::external_type_specification]
#[verifier::external_body]
pub struct ExCsvError(csv::Error);

/// The records that the csv reader finds in `text`, the header record
/// first, each record as its fields; `None` where the reader reports an
/// error.
pub uninterp spec fn csv_records(text: Seq<char>) -> Option<Seq<Seq<Seq<char>>>>;

/// Reads `text` with `csv::Reader::records`, on a reader built by
/// `csv::ReaderBuilder` that hands out the header record like any other.
/// Nothing is claimed of the records but that they depend on `text` alone.
#[verifier::external_body]
fn read_records(text: &str) -> (out: Result<Vec<Vec<String>>, csv::Error>)
    ensures
        match out {
            Ok(records) => csv_records(text@) == Some(records.deep_view()),
            Err(_) => csv_records(text@) is None,
        },
{
    let mut reader = csv::ReaderBuilder::new().has_headers(false).from_reader(text.as_bytes());
    reader.records().map(|record| record.map(|fields| fields.iter().map(String::from).collect()))
        .collect()
}

/// Whether column `i` of `header`, and no other, is called `name`.
pub open spec fn sole_column(header: Seq<Seq<char>>, name: Seq<char>, i: int) -> bool {
    &&& 0 <= i < header.len()
    &&& header[i] == name
    &&& forall|j: int| 0 <= j < header.len() && j != i ==> #[trigger] header[j] != name
}

/// Whether `records` is a header that names the source column `a` and the
/// target column `t`, followed by rows that reach both columns.
pub open spec fn columns_of(records: Seq<Seq<Seq<char>>>, a: int, t: int) -> bool {
    &&& records.len() > 1
    &&& sole_column(records[0], "auditplus"@, a)
    &&& sole_column(records[0], "tally"@, t)
    &&& forall|r: int|
        1 <= r < records.len() ==> a < (#[trigger] records[r]).len() && t < records[r].len()
}

/// The renames that the rows of `records` hold in columns `a` and `t`.
pub open spec fn rows_at(records: Seq<Seq<Seq<char>>>, a: int, t: int) -> Seq<NameMapModel> {
    Seq::new(
        (records.len() - 1) as nat,
        |r: int| NameMapModel { auditplus: records[r + 1][a], tally: records[r + 1][t] },
    )
}

/// Whether `records` can be read as an alias table: there are no rows, or
/// the header names both columns once and every row reaches them.
pub open spec fn readable(records: Seq<Seq<Seq<char>>>) -> bool {
    records.len() <= 1 || exists|a: int, t: int| #[trigger] columns_of(records, a, t)
}

/// Whether `table` is the alias table that `records` hold: one entry for
/// each row after the header, in the order of the rows.
pub open spec fn reads_as(records: Seq<Seq<Seq<char>>>, table: Seq<NameMapModel>) -> bool {
    if records.len() <= 1 {
        table.len() == 0
    } else {
        exists|a: int, t: int| #[trigger]
            columns_of(records, a, t) && table == rows_at(records, a, t)
    }
}

/// Records are read as one alias table at most.
pub proof fn reads_as_one_table(
    records: Seq<Seq<Seq<char>>>,
    first: Seq<NameMapModel>,
    second: Seq<NameMapModel>,
)
    requires
        reads_as(records, first),
        reads_as(records, second),
    ensures
        first == second,
{
    if records.len() <= 1 {
        assert(first =~= second);
    } else {
        let (a, t) = choose|a: int, t: int| #[trigger]
            columns_of(records, a, t) && first == rows_at(records, a, t);
        let (b, u) = choose|b: int, u: int| #[trigger]
            columns_of(records, b, u) && second == rows_at(records, b, u);
        assert(a == b);
        assert(t == u);
    }
}

/// Finds the column of `header` that is called `name`, where exactly one
/// column is.
fn find_column(header: &Vec<String>, name: &str) -> (out: Option<usize>)
    ensures
        match out {
            Some(i) => sole_column(header.deep_view(), name@, i as int),
            None => forall|i: int| !sole_column(header.deep_view(), name@, i),
        },
{
    let ghost h = header.deep_view();
    let mut found: Option<usize> = None;
    let mut k: usize = 0;
    while k < header.len()
        invariant
            k <= header.len(),
            h == header.deep_view(),
            match found {
                Some(f) => f < k && h[f as int] == name@ && forall|j: int|
                    0 <= j < k && j != f ==> #[trigger] h[j] != name@,
                None => forall|j: int| 0 <= j < k ==> #[trigger] h[j] != name@,
            },
        decreases header.len() - k,
    {
        assert(h[k as int] == header@[k as int]@);
        if same_text(header[k].as_str(), name) {
            match found {
                Some(f) => {
                    assert forall|i: int| !sole_column(h, name@, i) by {
                        if sole_column(h, name@, i) {
                            if i == f {
                                assert(h[k as int] != name@);
                            } else {
                                assert(h[f as int] != name@);
                            }
                        }
                    }
                    return None;
                },
                None => {
                    found = Some(k);
                },
            }
        }
        k += 1;
    }
    found
}

/// Builds the alias table from the records of a tabular input: the first
/// record is the header, which names the columns `auditplus` and `tally`,
/// each once and in any position; every later record is one rename. An
/// input without rows gives the empty table, whatever its header says.
pub fn name_map_from_records(records: &Vec<Vec<String>>) -> (out: Result<
    Vec<NameMap>,
    ExportError,
>)
    ensures
        match out {
            Ok(table) => reads_as(records.deep_view(), table.deep_view()),
            Err(e) => e == ExportError::MalformedAliasTable && !readable(records.deep_view()),
        },
{
    let ghost recs = records.deep_view();
    let mut table: Vec<NameMap> = Vec::new();
    if records.len() <= 1 {
        return Ok(table);
    }
    assert(recs[0] == records@[0].deep_view());
    let source = find_column(&records[0], "auditplus");
    let target = find_column(&records[0], "tally");
    let (a, t) = match (source, target) {
        (Some(a), Some(t)) => (a, t),
        _ => {
            assert forall|a: int, t: int| !columns_of(recs, a, t) by {}
            return Err(ExportError::MalformedAliasTable);
        },
    };
    let mut r: usize = 1;
    while r < records.len()
        invariant
            1 <= r <= records.len(),
            recs == records.deep_view(),
            sole_column(recs[0], "auditplus"@, a as int),
            sole_column(recs[0], "tally"@, t as int),
            table.len() == r - 1,
            forall|i: int| 1 <= i < r ==> a < (#[trigger] recs[i]).len() && t < recs[i].len(),
            forall|i: int|
                0 <= i < r - 1 ==> (#[trigger] table@[i])@ == (NameMapModel {
                    auditplus: recs[i + 1][a as int],
                    tally: recs[i + 1][t as int],
                }),
        decreases records.len() - r,
    {
        let row = &records[r];
        assert(recs[r as int] == row.deep_view());
        if a >= row.len() || t >= row.len() {
            assert forall|b: int, u: int| !columns_of(recs, b, u) by {
                if columns_of(recs, b, u) {
                    assert(b == a && u == t);
                    assert(a < recs[r as int].len() && t < recs[r as int].len());
                }
            }
            return Err(ExportError::MalformedAliasTable);
        }
        assert(recs[r as int][a as int] == row@[a as int]@);
        assert(recs[r as int][t as int] == row@[t as int]@);
        table.push(NameMap { auditplus: row[a].clone(), tally: row[t].clone() });
        r += 1;
    }
    assert(columns_of(recs, a as int, t as int));
    assert(table.deep_view() =~= rows_at(recs, a as int, t as int));
    Ok(table)
}

/// Reads an alias table from tabular text: a header line, then one line
/// for each rename. Fails where the text is no table of records, or the
/// records are not those of an alias table.
pub fn get_name_map(map_str: &str) -> (out: Result<Vec<NameMap>, ExportError>)
    ensures
        match out {
            Ok(table) => csv_records(map_str@) matches Some(records) && reads_as(
                records,
                table.deep_view(),
            ),
            Err(e) => e == ExportError::MalformedAliasTable && (csv_records(map_str@) matches Some(
                records,
            ) ==> !readable(records)),
        },
{
    match read_records(map_str) {
        Ok(records) => name_map_from_records(&records),
        Err(_) => Err(ExportError::MalformedAliasTable),
    }
}

} // verus!
