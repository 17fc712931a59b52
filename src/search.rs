//! Search results: resolving one identifier, or listing them for display.
use vstd::prelude::*;
use vstd::string::*;

use crate::error::OperationError;
use crate::model::{first_artist, primary_artist, ContentInfo, ContentType};
use crate::reference::{ContentId, ContentKind, IdView};
use crate::response::Response;
use crate::status::credit_line;
use crate::text::push_line;

verus! {

/// The number of results a listing asks for when none is given.
pub const DEFAULT_LIMIT: u32 = 10;

/// The identifiers of search results, in the order the service ranked them.
pub open spec fn result_ids(results: Seq<ContentType>) -> Seq<IdView> {
    results.map_values(|m: ContentType| (m.kind_view(), m.id_view()))
}

impl ContentId {
    /// The identifiers of search results, best first.
    pub fn from_search(results: &Vec<ContentType>) -> (r: Vec<ContentId>)
        ensures
            r@.map_values(|c: ContentId| c@) == result_ids(results@),
    {
        let mut r: Vec<ContentId> = Vec::new();
        let mut i: usize = 0;
        while i < results.len()
            invariant
                i <= results.len(),
                r@.map_values(|c: ContentId| c@) =~= result_ids(results@).subrange(0, i as int),
            decreases results.len() - i,
        {
            let ghost prev = r@.map_values(|c: ContentId| c@);
            r.push(results[i].content_id());
            proof {
                let all = result_ids(results@);
                assert(r@.map_values(|c: ContentId| c@) =~= prev.push(all[i as int]));
                assert(all.subrange(0, i + 1) =~= all.subrange(0, i as int).push(all[i as int]));
            }
            i += 1;
        }
        assert(r@.map_values(|c: ContentId| c@) =~= result_ids(results@));
        r
    }
}

/// The single identifier a search resolves to: the best result. Fails with
/// `EmptySearchResult` when there is none.
pub fn resolve_first(ids: Vec<ContentId>) -> (r: Result<ContentId, OperationError>)
    ensures
        ids@.len() == 0 ==> r == Err::<ContentId, OperationError>(
            OperationError::EmptySearchResult,
        ),
        ids@.len() > 0 ==> (r matches Ok(id) && id@ == ids@[0]@),
{
    let mut ids = ids;
    if ids.len() == 0 {
        Err(OperationError::EmptySearchResult)
    } else {
        Ok(ids.swap_remove(0))
    }
}

/// The kind and the number of results of a listing: tracks and ten unless
/// told otherwise.
pub fn search_params(kind: Option<ContentKind>, limit: Option<u32>) -> (r: (ContentKind, u32))
    ensures
        r.0 == match kind {
            Some(k) => k,
            None => ContentKind::Track,
        },
        r.1 == match limit {
            Some(n) => n,
            None => DEFAULT_LIMIT,
        },
{
    (
        match kind {
            Some(k) => k,
            None => ContentKind::Track,
        },
        match limit {
            Some(n) => n,
            None => DEFAULT_LIMIT,
        },
    )
}

/// The line that shows one search result.
pub open spec fn result_line(m: ContentType) -> Seq<char> {
    credit_line(m.name_view(), first_artist(m.artists_view()))
}

/// Lists search results, one line each in ranked order; no results give no
/// lines, not an error.
pub fn search(results: &Vec<ContentType>) -> (r: Response)
    ensures
        r@ == (Seq::new(results@.len(), |i: int| result_line(results@[i])), true),
{
    let mut lines: Vec<String> = Vec::new();
    let mut i: usize = 0;
    proof {
        reveal_strlit(" \u{2014} ");
    }
    while i < results.len()
        invariant
            i <= results.len(),
            lines.deep_view() =~= Seq::new(i as nat, |j: int| result_line(results@[j])),
        decreases results.len() - i,
    {
        let m = &results[i];
        let mut line = m.name();
        match primary_artist(m) {
            Some(a) => {
                line.append(" \u{2014} ");
                line.append(a.as_str());
            },
            None => {},
        }
        push_line(&mut lines, line);
        i += 1;
    }
    Response::from_lines(lines, true)
}

} // verus!
