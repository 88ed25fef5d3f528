//! The parsed repository reference and the parser that builds it from a raw
//! `owner/name[@tag]` specifier.

use crate::errors::ParseError;
use crate::text::{split_on, split_str, views_of};
use vstd::prelude::*;

verus! {

/// Whether a string is empty once leading and trailing whitespace is removed.
/// Named, not stated: the whitespace set is the Unicode property that
/// `str::trim` uses, and it depends on the characters alone.
pub uninterp spec fn blank(s: Seq<char>) -> bool;

/// Relies on `str::trim`, which removes leading and trailing Unicode
/// whitespace; trimming an empty string leaves it empty.
#[verifier::external_body]
fn is_blank(s: &str) -> (r: bool)
    ensures
        r == blank(s@),
        s@.len() == 0 ==> r,
{
    s.trim().is_empty()
}

/// A parsed repository reference: owner, name, and the tag to install,
/// `latest` when none was given.
#[derive(Clone, Debug)]
pub struct Repo {
    pub owner: String,
    pub name: String,
    pub tag: String,
    pub full_name: String,
}

impl Repo {
    /// Well-formed references have non-empty segments and a full name that
    /// is exactly `owner/name/tag`.
    pub open spec fn wf(&self) -> bool {
        &&& self.owner@.len() > 0
        &&& self.name@.len() > 0
        &&& self.tag@.len() > 0
        &&& self.full_name@ == self.owner@ + "/"@ + self.name@ + "/"@ + self.tag@
    }

    /// The per-reference working directory under the given home directory.
    pub open spec fn spec_dir(&self, home: Seq<char>) -> Seq<char> {
        home + "/.ghi/"@ + self.owner@ + "/"@ + self.name@ + "/"@ + self.tag@
    }

    /// Computes the working directory for this reference: a path keyed by
    /// owner, name and tag under the caller's home directory.
    pub fn dir(&self, home: &str) -> (r: String)
        ensures
            r@ == self.spec_dir(home@),
    {
        let r = home.to_owned().concat("/.ghi/").concat(self.owner.as_str()).concat("/").concat(
            self.name.as_str(),
        ).concat("/").concat(self.tag.as_str());
        proof {
            assert(r@ =~= self.spec_dir(home@));
        }
        r
    }
}

/// The working directory is a pure function of the home directory and the
/// owner, name and tag of the reference: two references that agree on those
/// values resolve to the same directory.
pub proof fn lemma_dir_deterministic(a: &Repo, b: &Repo, home: Seq<char>)
    requires
        a.owner@ == b.owner@,
        a.name@ == b.name@,
        a.tag@ == b.tag@,
    ensures
        a.spec_dir(home) == b.spec_dir(home),
{
}

/// Parses a repo string into a usable reference.
///
/// The specifier splits on `@` into a repository part and at most one tag
/// part; the repository part must split on `/` into exactly two non-empty
/// segments. A missing tag defaults to `latest`.
pub fn parse(repo: &str) -> (r: Result<Repo, ParseError>)
    ensures
        ({
            let meta = split_on(repo@, '@');
            let rp = split_on(meta[0], '/');
            let segments_ok = rp.len() == 2 && rp[0].len() > 0 && rp[1].len() > 0;
            &&& (r matches Err(ParseError::WrongSegmentCount) <==> !segments_ok)
            &&& (r matches Err(ParseError::TooManyParts) <==> segments_ok && meta.len() > 2)
            &&& (r matches Err(ParseError::EmptyTag) <==> segments_ok && meta.len() == 2 && blank(
                meta[1],
            ))
            &&& (r matches Ok(repo_ref) ==> {
                &&& repo_ref.wf()
                &&& repo_ref.owner@ == rp[0]
                &&& repo_ref.name@ == rp[1]
                &&& repo_ref.tag@ == if meta.len() == 2 {
                    meta[1]
                } else {
                    "latest"@
                }
            })
            &&& (r is Ok <==> segments_ok && (meta.len() == 1 || (meta.len() == 2 && !blank(
                meta[1],
            ))))
        }),
{
    proof {
        crate::text::lemma_split_on_len(repo@, '@');
    }
    let meta_parts = split_str(repo, '@');
    proof {
        assert(views_of(meta_parts@)[0] == meta_parts@[0]@);
    }
    let repo_parts = split_str(meta_parts[0].as_str(), '/');
    proof {
        assert(views_of(repo_parts@).len() == repo_parts@.len());
        assert(views_of(meta_parts@).len() == meta_parts@.len());
    }
    if repo_parts.len() != 2 {
        return Err(ParseError::WrongSegmentCount);
    }
    proof {
        assert(views_of(repo_parts@)[0] == repo_parts@[0]@);
        assert(views_of(repo_parts@)[1] == repo_parts@[1]@);
    }
    if repo_parts[0].as_str().is_empty() || repo_parts[1].as_str().is_empty() {
        return Err(ParseError::WrongSegmentCount);
    }
    if meta_parts.len() > 2 {
        return Err(ParseError::TooManyParts);
    }
    let tag: String;
    if meta_parts.len() == 2 {
        proof {
            assert(views_of(meta_parts@)[1] == meta_parts@[1]@);
        }
        if is_blank(meta_parts[1].as_str()) {
            return Err(ParseError::EmptyTag);
        }
        tag = meta_parts[1].clone();
    } else {
        tag = String::from_str("latest");
        proof {
            reveal_strlit("latest");
        }
    }
    let owner = repo_parts[0].clone();
    let name = repo_parts[1].clone();
    let full_name = owner.clone().concat("/").concat(name.as_str()).concat("/").concat(
        tag.as_str(),
    );
    let result = Repo { owner, name, tag, full_name };
    proof {
        assert(result.full_name@ =~= result.owner@ + "/"@ + result.name@ + "/"@ + result.tag@);
    }
    Ok(result)
}

} // verus!
