//! The one-time health check of the local database: which tables it must
//! have, and what is said when some are missing.
use vstd::prelude::*;
use crate::text::{owned, push_str};

verus! {

/// The tables the local database must have, in the order they are checked.
pub fn required_tables() -> (r: Vec<&'static str>)
    ensures
        r@.len() == 8,
        r@[0]@ == "cf_workspaces"@,
        r@[1]@ == "scout_sources"@,
        r@[2]@ == "scout_files"@,
        r@[3]@ == "scout_rules"@,
        r@[4]@ == "scout_file_tags"@,
        r@[5]@ == "scout_folders"@,
        r@[6]@ == "scout_settings"@,
        r@[7]@ == "schema_migrations"@,
{
    vec![
        "cf_workspaces",
        "scout_sources",
        "scout_files",
        "scout_rules",
        "scout_file_tags",
        "scout_folders",
        "scout_settings",
        "schema_migrations",
    ]
}

/// The names joined with ", ".
pub open spec fn comma_joined(names: Seq<Seq<char>>) -> Seq<char>
    decreases names.len(),
{
    if names.len() == 0 {
        Seq::empty()
    } else if names.len() == 1 {
        names[0]
    } else {
        comma_joined(names.drop_last()) + ", "@ + names.last()
    }
}

/// See `comma_joined`.
pub fn join_names(names: &Vec<String>) -> (r: String)
    ensures
        r@ == comma_joined(names@.map_values(|s: String| s@)),
{
    let ghost v = names@.map_values(|s: String| s@);
    let mut out = String::new();
    let mut i: usize = 0;
    while i < names.len()
        invariant
            i <= names.len(),
            v == names@.map_values(|s: String| s@),
            out@ == comma_joined(v.subrange(0, i as int)),
        decreases names.len() - i,
    {
        proof {
            let next = v.subrange(0, i + 1);
            assert(next.drop_last() =~= v.subrange(0, i as int));
            assert(next.last() == names@[i as int]@);
            if i == 0 {
                assert(next =~= seq![names@[0]@]);
            }
        }
        if i > 0 {
            push_str(&mut out, ", ");
        }
        push_str(&mut out, names[i].as_str());
        proof {
            if i == 0 {
                assert(out@ =~= names@[0]@);
            }
        }
        i += 1;
    }
    proof {
        assert(v.subrange(0, names@.len() as int) =~= v);
    }
    out
}

/// The reason given when the database is reset for missing tables.
pub fn missing_tables_reason(missing: &Vec<String>) -> (r: String)
    ensures
        r@ == "Missing tables: "@ + comma_joined(missing@.map_values(|s: String| s@)),
{
    let mut r = owned("Missing tables: ");
    let names = join_names(missing);
    push_str(&mut r, names.as_str());
    r
}

/// The warning shown when tables are missing and the database is not
/// reset: with the control service active it is left alone, else it could
/// not be reset and is used read-only.
pub fn missing_tables_warning(missing: &Vec<String>, control_connected: bool) -> (r: String)
    ensures
        r@ == "Database missing tables: "@ + comma_joined(missing@.map_values(|s: String| s@)) + (
        if control_connected {
            ". Control API active; not resetting."@
        } else {
            ". Read-only mode."@
        }),
{
    let mut r = owned("Database missing tables: ");
    let names = join_names(missing);
    push_str(&mut r, names.as_str());
    if control_connected {
        push_str(&mut r, ". Control API active; not resetting.");
    } else {
        push_str(&mut r, ". Read-only mode.");
    }
    r
}

} // verus!
