//! The database query behind a page of the Discover file list: the files of
//! a workspace's source, narrowed by the tag filter and the path filter,
//! ordered by relative path, one page at a time; and the query for the tags
//! of the files on the page.
use vstd::prelude::*;
use crate::background::last_page_offset;
use crate::discover_state::DiscoverTagFilter;
use crate::text::{concat2, owned, push_str};
use crate::uuid_text::{uuid_hyphenated, uuid_to_string};

verus! {

/// A value bound to a `?` of a query.
#[derive(Debug, Clone, PartialEq, Eq)]
pub enum QueryParam {
    Text(String),
    Integer(i64),
}

/// A bound value as text or number.
pub enum QueryParamView {
    Text(Seq<char>),
    Integer(i64),
}

impl QueryParam {
    pub open spec fn view(&self) -> QueryParamView {
        match self {
            QueryParam::Text(t) => QueryParamView::Text(t@),
            QueryParam::Integer(n) => QueryParamView::Integer(*n),
        }
    }
}

pub open spec fn params_view(ps: Seq<QueryParam>) -> Seq<QueryParamView> {
    ps.map_values(|p: QueryParam| p.view())
}

/// The narrowing part of a files query: the join it needs, its conditions
/// joined with " AND ", and the values for their `?`s in order.
#[derive(Debug, Clone)]
pub struct FilesFilter {
    pub join_clause: String,
    pub where_sql: String,
    pub params: Vec<QueryParam>,
}

/// The join a tag filter needs.
pub open spec fn tag_join(filter: DiscoverTagFilter) -> Seq<char> {
    match filter {
        DiscoverTagFilter::All => Seq::empty(),
        DiscoverTagFilter::Untagged => "LEFT JOIN scout_file_tags t ON t.file_id = f.id AND t.workspace_id = f.workspace_id"@,
        DiscoverTagFilter::Tag(_) => "JOIN scout_file_tags t ON t.file_id = f.id AND t.workspace_id = f.workspace_id"@,
    }
}

/// The conditions: the workspace and the source, then the tag condition,
/// then the path condition, joined with " AND ".
pub open spec fn filter_where(filter: DiscoverTagFilter, path_clause: Option<Seq<char>>) -> Seq<char> {
    "f.workspace_id = ? AND f.source_id = ?"@ + match filter {
        DiscoverTagFilter::All => Seq::<char>::empty(),
        DiscoverTagFilter::Untagged => " AND t.file_id IS NULL"@,
        DiscoverTagFilter::Tag(_) => " AND t.tag = ?"@,
    } + match path_clause {
        Some(c) => " AND "@ + c,
        None => Seq::<char>::empty(),
    }
}

/// The values: the workspace id as hyphenated UUID text, the source id,
/// the tag (for a tag filter), the path pattern (for a path filter).
pub open spec fn filter_params(
    workspace_id: u128,
    source_id: i64,
    filter: DiscoverTagFilter,
    path_value: Option<Seq<char>>,
) -> Seq<QueryParamView> {
    seq![QueryParamView::Text(uuid_hyphenated(workspace_id)), QueryParamView::Integer(source_id)]
        + match filter {
        DiscoverTagFilter::Tag(t) => seq![QueryParamView::Text(t@)],
        _ => Seq::<QueryParamView>::empty(),
    } + match path_value {
        Some(v) => seq![QueryParamView::Text(v)],
        None => Seq::<QueryParamView>::empty(),
    }
}

/// The filter of a files page for a workspace's source, with the tag filter
/// and an optional path condition and its value.
pub fn files_filter(
    workspace_id: u128,
    source_id: i64,
    tag_filter: &DiscoverTagFilter,
    path_filter: Option<(String, String)>,
) -> (r: FilesFilter)
    ensures
        r.join_clause@ == tag_join(*tag_filter),
        r.where_sql@ == filter_where(
            *tag_filter,
            match path_filter {
                Some(p) => Some(p.0@),
                None => None,
            },
        ),
        params_view(r.params@) == filter_params(
            workspace_id,
            source_id,
            *tag_filter,
            match path_filter {
                Some(p) => Some(p.1@),
                None => None,
            },
        ),
{
    let mut where_sql = owned("f.workspace_id = ? AND f.source_id = ?");
    let mut params: Vec<QueryParam> = Vec::new();
    params.push(QueryParam::Text(uuid_to_string(workspace_id)));
    params.push(QueryParam::Integer(source_id));
    let join_clause = match tag_filter {
        DiscoverTagFilter::All => String::new(),
        DiscoverTagFilter::Untagged => {
            push_str(&mut where_sql, " AND t.file_id IS NULL");
            owned("LEFT JOIN scout_file_tags t ON t.file_id = f.id AND t.workspace_id = f.workspace_id")
        },
        DiscoverTagFilter::Tag(name) => {
            push_str(&mut where_sql, " AND t.tag = ?");
            params.push(QueryParam::Text(owned(name.as_str())));
            owned("JOIN scout_file_tags t ON t.file_id = f.id AND t.workspace_id = f.workspace_id")
        },
    };
    let ghost mid = where_sql@;
    let ghost mid_params = params@;
    match path_filter {
        Some((clause, value)) => {
            push_str(&mut where_sql, " AND ");
            push_str(&mut where_sql, clause.as_str());
            params.push(QueryParam::Text(value));
            proof {
                assert(params_view(params@) =~= params_view(mid_params).push(
                    QueryParamView::Text(value@),
                ));
            }
        },
        None => {},
    }
    proof {
        assert(where_sql@ =~= filter_where(
            *tag_filter,
            match path_filter {
                Some(p) => Some(p.0@),
                None => None,
            },
        ));
        assert(params_view(params@) =~= filter_params(
            workspace_id,
            source_id,
            *tag_filter,
            match path_filter {
                Some(p) => Some(p.1@),
                None => None,
            },
        ));
    }
    FilesFilter { join_clause, where_sql, params }
}

impl FilesFilter {
    /// `SELECT COUNT(*) FROM scout_files f {join} WHERE {where}`
    pub fn count_sql(&self) -> (r: String)
        ensures
            r@ == "SELECT COUNT(*) FROM scout_files f "@ + self.join_clause@ + " WHERE "@
                + self.where_sql@,
    {
        let mut r = concat2("SELECT COUNT(*) FROM scout_files f ", self.join_clause.as_str());
        push_str(&mut r, " WHERE ");
        push_str(&mut r, self.where_sql.as_str());
        r
    }

    /// The page's rows, by relative path then id, with the page size and
    /// offset bound last.
    pub fn page_sql(&self) -> (r: String)
        ensures
            r@ == "SELECT f.id, f.path, f.rel_path, f.size, f.mtime, f.is_dir FROM scout_files f "@
                + self.join_clause@ + " WHERE "@ + self.where_sql@
                + " ORDER BY f.rel_path ASC, f.id ASC LIMIT ? OFFSET ?"@,
    {
        let mut r = concat2(
            "SELECT f.id, f.path, f.rel_path, f.size, f.mtime, f.is_dir FROM scout_files f ",
            self.join_clause.as_str(),
        );
        push_str(&mut r, " WHERE ");
        push_str(&mut r, self.where_sql.as_str());
        push_str(&mut r, " ORDER BY f.rel_path ASC, f.id ASC LIMIT ? OFFSET ?");
        r
    }
}

/// The offset actually queried: the requested one, kept within the last
/// page of `total` files (0 when there are none), pages `page_size` long.
pub fn query_offset(page_offset: usize, page_size: usize, total: usize) -> (r: usize)
    requires
        page_size >= 1,
    ensures
        r == (if page_offset > last_page_offset(total as nat, page_size as nat) {
            last_page_offset(total as nat, page_size as nat)
        } else {
            page_offset as nat
        }),
{
    if total == 0 {
        0
    } else {
        let q = (total - 1) / page_size;
        proof {
            let t = (total - 1) as int;
            let p = page_size as int;
            assert((t / p) * p <= t) by (nonlinear_arith)
                requires
                    p >= 1,
                    t >= 0,
            ;
        }
        let max_offset = q * page_size;
        if page_offset > max_offset {
            max_offset
        } else {
            page_offset
        }
    }
}

/// `n` question marks joined with ", ".
pub open spec fn placeholders(n: nat) -> Seq<char>
    decreases n,
{
    if n == 0 {
        Seq::empty()
    } else if n == 1 {
        "?"@
    } else {
        placeholders((n - 1) as nat) + ", ?"@
    }
}

/// The query for the tags of `n` files of a workspace (the workspace bound
/// first, then the file ids).
pub fn file_tags_sql(n: usize) -> (r: String)
    ensures
        r@ == "SELECT file_id, tag FROM scout_file_tags WHERE workspace_id = ? AND file_id IN ("@
            + placeholders(n as nat) + ")"@,
{
    let mut marks = String::new();
    let mut i: usize = 0;
    while i < n
        invariant
            i <= n,
            marks@ == placeholders(i as nat),
        decreases n - i,
    {
        if i == 0 {
            push_str(&mut marks, "?");
        } else {
            push_str(&mut marks, ", ?");
        }
        i += 1;
    }
    let mut r = owned("SELECT file_id, tag FROM scout_file_tags WHERE workspace_id = ? AND file_id IN (");
    push_str(&mut r, marks.as_str());
    push_str(&mut r, ")");
    r
}

} // verus!
