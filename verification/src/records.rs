//! The record schema: one star event per record, with the repository it
//! points at, and the rendering data contract for one record.

use vstd::prelude::*;

verus! {

use vstd::string::StringExecFns;

/// A repository as the star feed describes it. Optional fields model
/// schema evolution: a feed may omit them.
pub struct Repository {
    pub id: i64,
    pub url: String,
    pub full_name: String,
    pub description: Option<String>,
    pub star_count: i64,
    pub primary_language: Option<String>,
}

/// One user-to-repository star event: when it happened (seconds since
/// the epoch) and the repository starred.
pub struct StarRecord {
    pub starred_at: i64,
    pub repository: Repository,
}

/// The rendering of one record: `[full_name](url) - description`, the
/// description clause omitted when the repository has none.
pub open spec fn spec_render(r: Repository) -> Seq<char> {
    let head = "["@ + r.full_name@ + "]("@ + r.url@ + ")"@;
    match r.description {
        Some(d) => head + " - "@ + d@,
        None => head,
    }
}

pub fn render_record(r: &Repository) -> (s: String)
    ensures
        s@ == spec_render(*r),
{
    let mut s = String::from_str("[");
    s.append(r.full_name.as_str());
    s.append("](");
    s.append(r.url.as_str());
    s.append(")");
    match &r.description {
        Some(d) => {
            s.append(" - ");
            s.append(d.as_str());
        },
        None => {},
    }
    s
}

} // verus!
