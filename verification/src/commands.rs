//! The compute parts of the listing command: which releases a listing shows
//! and the name it prints for each.

use crate::release::ReleaseMeta;
use vstd::prelude::*;

verus! {

/// Which releases a listing shows: draft releases are skipped unless drafts
/// were asked for; order is kept.
pub open spec fn spec_visible(releases: Seq<ReleaseMeta>, include_drafts: bool) -> Seq<
    ReleaseMeta,
> {
    releases.filter(|m: ReleaseMeta| include_drafts || !m.draft)
}

/// Keeps exactly the releases a listing shows, in their given order.
pub fn visible_releases(releases: Vec<ReleaseMeta>, include_drafts: bool) -> (r: Vec<ReleaseMeta>)
    ensures
        r@ == spec_visible(releases@, include_drafts),
    decreases releases@.len(),
{
    let mut rem = releases;
    match rem.pop() {
        None => {
            proof {
                reveal(Seq::filter);
                assert(rem@ =~= Seq::<ReleaseMeta>::empty());
            }
            rem
        },
        Some(last) => {
            proof {
                assert(rem@ =~= releases@.drop_last());
                assert(last == releases@.last());
            }
            let keep = include_drafts || !last.draft;
            let mut r = visible_releases(rem, include_drafts);
            if keep {
                r.push(last);
            }
            proof {
                reveal(Seq::filter);
                let s = releases@;
                assert(spec_visible(s, include_drafts) == if include_drafts || !s.last().draft {
                    spec_visible(s.drop_last(), include_drafts).push(s.last())
                } else {
                    spec_visible(s.drop_last(), include_drafts)
                });
            }
            r
        },
    }
}

/// The name a listing prints for a release: its name, or a placeholder when
/// it has none.
pub fn display_name(name: &Option<String>) -> (r: String)
    ensures
        name matches Some(n) ==> r@ == n@,
        name is None ==> r@ == "n/a"@,
{
    match name {
        Some(n) => n.clone(),
        None => String::from_str("n/a"),
    }
}

} // verus!
