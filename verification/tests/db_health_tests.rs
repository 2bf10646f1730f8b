use casparian_tui::db_health::{join_names, missing_tables_reason, missing_tables_warning, required_tables};

#[test]
fn required_tables_listed_in_check_order() {
    let t = required_tables();
    assert_eq!(t.len(), 8);
    assert_eq!(t[0], "cf_workspaces");
    assert_eq!(t[7], "schema_migrations");
}

#[test]
fn missing_tables_messages() {
    let missing = vec!["scout_files".to_string(), "scout_rules".to_string()];
    assert_eq!(join_names(&missing), "scout_files, scout_rules");
    assert_eq!(join_names(&vec![]), "");
    assert_eq!(missing_tables_reason(&missing), "Missing tables: scout_files, scout_rules");
    assert_eq!(
        missing_tables_warning(&missing, true),
        "Database missing tables: scout_files, scout_rules. Control API active; not resetting."
    );
    assert_eq!(
        missing_tables_warning(&missing, false),
        "Database missing tables: scout_files, scout_rules. Read-only mode."
    );
}
