use tally_export::alias::{get_name_map, name_map_from_records, resolve, NameMap};
use tally_export::classify::{get_account_type, get_voucher_type};
use tally_export::error::ExportError;

fn rename(from: &str, to: &str) -> NameMap {
    NameMap { auditplus: from.to_string(), tally: to.to_string() }
}

fn record(fields: &[&str]) -> Vec<String> {
    fields.iter().map(|f| f.to_string()).collect()
}

#[test]
fn resolve_gives_the_target_of_a_match() {
    let table = vec![rename("Cash", "Cash-in-hand"), rename("Bank", "HDFC")];
    assert_eq!(resolve(&table, "Bank"), "HDFC");
    assert_eq!(resolve(&table, "Cash"), "Cash-in-hand");
}

#[test]
fn resolve_leaves_an_unknown_name_unchanged() {
    let table = vec![rename("Cash", "Cash-in-hand")];
    assert_eq!(resolve(&table, "Sundry"), "Sundry");
    assert_eq!(resolve(&Vec::new(), "Sundry"), "Sundry");
    assert_eq!(resolve(&table, ""), "");
}

#[test]
fn resolve_takes_the_first_of_two_matches() {
    let table = vec![rename("Cash", "First"), rename("Cash", "Second")];
    assert_eq!(resolve(&table, "Cash"), "First");
}

#[test]
fn resolve_matches_exactly() {
    let table = vec![rename("Cash", "Cash-in-hand")];
    assert_eq!(resolve(&table, "cash"), "cash");
    assert_eq!(resolve(&table, "Cash "), "Cash ");
    assert_eq!(resolve(&table, "Cas"), "Cas");
}

#[test]
fn resolve_twice_is_resolve_once_without_chains() {
    let table = vec![rename("Cash", "Cash-in-hand"), rename("Bank", "HDFC")];
    for name in ["Cash", "Bank", "Sundry", "HDFC"] {
        let once = resolve(&table, name);
        assert_eq!(resolve(&table, &once), once);
    }
}

#[test]
fn resolve_does_not_follow_chains() {
    let table = vec![rename("A", "B"), rename("B", "C")];
    assert_eq!(resolve(&table, "A"), "B");
    assert_eq!(resolve(&table, "B"), "C");
}

#[test]
fn get_name_map_reads_the_rows_in_order() {
    let table = get_name_map("auditplus,tally\nCash,Cash-in-hand\nBank,HDFC\n").unwrap();
    assert_eq!(table, vec![rename("Cash", "Cash-in-hand"), rename("Bank", "HDFC")]);
}

#[test]
fn get_name_map_finds_the_columns_by_name() {
    let table = get_name_map("tally,note,auditplus\nHDFC,main,Bank\n").unwrap();
    assert_eq!(table, vec![rename("Bank", "HDFC")]);
}

#[test]
fn get_name_map_reads_quoted_fields() {
    let table = get_name_map("auditplus,tally\n\"Direct Income\",\"Sales, Revenue\"\n").unwrap();
    assert_eq!(table, vec![rename("Direct Income", "Sales, Revenue")]);
}

#[test]
fn get_name_map_of_empty_text_is_empty() {
    assert_eq!(get_name_map("").unwrap(), Vec::new());
}

#[test]
fn get_name_map_of_a_header_alone_is_empty() {
    assert_eq!(get_name_map("auditplus,tally\n").unwrap(), Vec::new());
    assert_eq!(get_name_map("source,target\n").unwrap(), Vec::new());
}

#[test]
fn get_name_map_rejects_a_missing_column() {
    assert_eq!(get_name_map("auditplus,other\nCash,X\n"), Err(ExportError::MalformedAliasTable));
    assert_eq!(get_name_map("Cash,Cash-in-hand\nBank,HDFC\n"), Err(ExportError::MalformedAliasTable));
}

#[test]
fn get_name_map_rejects_a_column_named_twice() {
    assert_eq!(
        get_name_map("auditplus,tally,tally\nCash,X,Y\n"),
        Err(ExportError::MalformedAliasTable)
    );
}

#[test]
fn get_name_map_rejects_a_row_of_another_length() {
    assert_eq!(
        get_name_map("auditplus,tally\nCash,Cash-in-hand\nBank\n"),
        Err(ExportError::MalformedAliasTable)
    );
    assert_eq!(
        get_name_map("auditplus,tally\nCash,Cash-in-hand,extra\n"),
        Err(ExportError::MalformedAliasTable)
    );
}

#[test]
fn name_map_from_records_rejects_a_row_that_ends_early() {
    let records = vec![record(&["note", "auditplus", "tally"]), record(&["x", "Cash"])];
    assert_eq!(name_map_from_records(&records), Err(ExportError::MalformedAliasTable));
}

#[test]
fn name_map_from_records_reads_rows() {
    let records = vec![
        record(&["auditplus", "tally"]),
        record(&["Cash", "Cash-in-hand"]),
        record(&["", ""]),
    ];
    assert_eq!(
        name_map_from_records(&records),
        Ok(vec![rename("Cash", "Cash-in-hand"), rename("", "")])
    );
    assert_eq!(name_map_from_records(&Vec::new()), Ok(Vec::new()));
}

#[test]
fn alias_rewrites_a_classified_account_type() {
    let table = get_name_map("auditplus,tally\n\"Direct Income\",\"Sales Revenue\"\n").unwrap();
    assert_eq!(get_account_type("DIRECT_INCOME", &table), Ok("Sales Revenue".to_string()));
    assert_eq!(get_account_type("INDIRECT_INCOME", &table), Ok("Indirect Income".to_string()));
}

#[test]
fn alias_rewrites_a_classified_voucher_type() {
    let table = vec![rename("Sales", "GST Sales")];
    assert_eq!(get_voucher_type("SALE", &table), Ok("GST Sales".to_string()));
    assert_eq!(get_voucher_type("PURCHASE", &table), Ok("Purchase".to_string()));
}
