//! Pulling the metadata of an Immich server: its arguments and the rows of
//! the report printed at the end.

use vstd::prelude::*;

verus! {

/// Arguments of the pull command.
pub struct Args {
    /// Immich server URL
    pub server_url: String,
    /// Immich API key
    pub api_key: String,
    /// Remote library path prefix (on the Immich server)
    pub remote_path: String,
    /// Output file path
    pub output: String,
}

/// What a row of the pull report shows. `S` is the type of a text.
pub enum ReportValue<S> {
    Text(S),
    Count(usize),
    Errors(usize),
}

impl<S: View> View for ReportValue<S> {
    type V = ReportValue<S::V>;

    open spec fn view(&self) -> ReportValue<S::V> {
        match self {
            ReportValue::Text(s) => ReportValue::Text(s@),
            ReportValue::Count(n) => ReportValue::Count(*n),
            ReportValue::Errors(n) => ReportValue::Errors(*n),
        }
    }
}

/// What was pulled, counted for the report.
pub struct PulledCounts {
    pub assets: usize,
    pub albums: usize,
    pub users: usize,
    pub tags: usize,
    pub people: usize,
    pub stacks: usize,
    pub map_markers: usize,
    pub asset_errors: usize,
    pub album_errors: usize,
}

pub open spec fn report_rows_view(rows: Seq<(String, ReportValue<String>)>) -> Seq<(Seq<char>, ReportValue<Seq<char>>)> {
    rows.map_values(|row: (String, ReportValue<String>)| (row.0@, row.1@))
}

/// The rows of the pull report: the server's version (`?` when unknown), the
/// number of each kind of record, and the number of errors when there are any.
pub open spec fn report_spec(version: Option<Seq<char>>, c: PulledCounts) -> Seq<(Seq<char>, ReportValue<Seq<char>>)> {
    let errors = c.asset_errors + c.album_errors;
    seq![
        (seq!['S', 'e', 'r', 'v', 'e', 'r'], ReportValue::Text(match version {
            Some(v) => v,
            None => seq!['?'],
        })),
        (seq!['A', 's', 's', 'e', 't', 's'], ReportValue::Count(c.assets)),
        (seq!['A', 'l', 'b', 'u', 'm', 's'], ReportValue::Count(c.albums)),
        (seq!['U', 's', 'e', 'r', 's'], ReportValue::Count(c.users)),
        (seq!['T', 'a', 'g', 's'], ReportValue::Count(c.tags)),
        (seq!['P', 'e', 'o', 'p', 'l', 'e'], ReportValue::Count(c.people)),
        (seq!['S', 't', 'a', 'c', 'k', 's'], ReportValue::Count(c.stacks)),
        (seq!['M', 'a', 'p', ' ', 'M', 'a', 'r', 'k', 'e', 'r', 's'], ReportValue::Count(c.map_markers)),
    ] + if errors > 0 {
        seq![(seq!['E', 'r', 'r', 'o', 'r', 's'], ReportValue::Errors(errors as usize))]
    } else {
        Seq::empty()
    }
}

fn push_row(rows: &mut Vec<(String, ReportValue<String>)>, label: &str, value: ReportValue<String>)
    ensures
        report_rows_view(final(rows)@) == report_rows_view(old(rows)@).push((label@, value@)),
{
    let ghost before = rows@;
    rows.push((String::from_str(label), value));
    assert(report_rows_view(rows@) =~= report_rows_view(before).push((label@, value@)));
}

/// The rows of the pull report.
pub fn report_rows(version: Option<&str>, c: &PulledCounts) -> (r: Vec<(String, ReportValue<String>)>)
    requires
        c.asset_errors + c.album_errors <= usize::MAX,
    ensures
        report_rows_view(r@) == report_spec(
            match version {
                Some(v) => Some(v@),
                None => None,
            },
            *c,
        ),
{
    proof {
        reveal_strlit("Server");
        reveal_strlit("?");
        reveal_strlit("Assets");
        reveal_strlit("Albums");
        reveal_strlit("Users");
        reveal_strlit("Tags");
        reveal_strlit("People");
        reveal_strlit("Stacks");
        reveal_strlit("Map Markers");
        reveal_strlit("Errors");
    }
    let mut rows: Vec<(String, ReportValue<String>)> = Vec::new();
    let shown = match version {
        Some(v) => String::from_str(v),
        None => String::from_str("?"),
    };
    push_row(&mut rows, "Server", ReportValue::Text(shown));
    push_row(&mut rows, "Assets", ReportValue::Count(c.assets));
    push_row(&mut rows, "Albums", ReportValue::Count(c.albums));
    push_row(&mut rows, "Users", ReportValue::Count(c.users));
    push_row(&mut rows, "Tags", ReportValue::Count(c.tags));
    push_row(&mut rows, "People", ReportValue::Count(c.people));
    push_row(&mut rows, "Stacks", ReportValue::Count(c.stacks));
    push_row(&mut rows, "Map Markers", ReportValue::Count(c.map_markers));
    let errors = c.asset_errors + c.album_errors;
    if errors > 0 {
        push_row(&mut rows, "Errors", ReportValue::Errors(errors));
    }
    proof {
        let v = match version {
            Some(v) => Some(v@),
            None => None,
        };
        assert("Server"@ =~= seq!['S', 'e', 'r', 'v', 'e', 'r']);
        assert("?"@ =~= seq!['?']);
        assert("Assets"@ =~= seq!['A', 's', 's', 'e', 't', 's']);
        assert("Albums"@ =~= seq!['A', 'l', 'b', 'u', 'm', 's']);
        assert("Users"@ =~= seq!['U', 's', 'e', 'r', 's']);
        assert("Tags"@ =~= seq!['T', 'a', 'g', 's']);
        assert("People"@ =~= seq!['P', 'e', 'o', 'p', 'l', 'e']);
        assert("Stacks"@ =~= seq!['S', 't', 'a', 'c', 'k', 's']);
        assert("Map Markers"@ =~= seq!['M', 'a', 'p', ' ', 'M', 'a', 'r', 'k', 'e', 'r', 's']);
        assert("Errors"@ =~= seq!['E', 'r', 'r', 'o', 'r', 's']);
        assert(report_rows_view(rows@) =~= report_spec(v, *c));
    }
    rows
}

} // verus!
