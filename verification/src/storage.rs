//! The decisions behind storing, serving and deleting pages.  The page files
//! and the database are read and written by the caller; these functions say
//! what to do with what was found.

use vstd::prelude::*;
use crate::error::ErrorView;
use crate::error::LinkdropError;
use crate::record::PageRecord;
use crate::record::Timestamp;
use crate::record::at_or_before;
use crate::slug::slug_verdict;
use crate::slug::validate_slug;

verus! {

/// The largest page accepted, in bytes (5 MiB).
pub const MAX_HTML_BYTES: usize = 5 * 1024 * 1024;

/// What [`choose_slug`] answers: the content's size is checked first, then a
/// given slug's form; without a slug one is to be generated (`Ok(None)`).
pub open spec fn slug_choice(slug: Option<Seq<char>>, content_len: nat) -> Result<Option<Seq<char>>, ErrorView> {
    if content_len > MAX_HTML_BYTES {
        Err(ErrorView::TooLarge { max: MAX_HTML_BYTES })
    } else {
        match slug {
            Some(s) => match slug_verdict(s) {
                Ok(_) => Ok(Some(s)),
                Err(e) => Err(e),
            },
            None => Ok(None),
        }
    }
}

/// The first steps of storing a page: refuses content over [`MAX_HTML_BYTES`]
/// and a malformed slug; answers the slug to store under, or `None` when a
/// random one is to be generated.
pub fn choose_slug(slug: Option<&str>, content_len: usize) -> (r: Result<Option<String>, LinkdropError>)
    ensures
        r matches Ok(o) ==> slug_choice(
            match slug {
                Some(s) => Some(s@),
                None => None,
            },
            content_len as nat,
        ) == Ok::<Option<Seq<char>>, ErrorView>(
            match o {
                Some(s) => Some(s@),
                None => None,
            },
        ),
        r matches Err(e) ==> slug_choice(
            match slug {
                Some(s) => Some(s@),
                None => None,
            },
            content_len as nat,
        ) == Err::<Option<Seq<char>>, ErrorView>(e@),
{
    if content_len > MAX_HTML_BYTES {
        return Err(LinkdropError::TooLarge { max: MAX_HTML_BYTES });
    }
    match slug {
        Some(s) => {
            validate_slug(s)?;
            Ok(Some(String::from_str(s)))
        },
        None => Ok(None),
    }
}

/// The name of the file that holds a page's HTML.
pub open spec fn filename_of(slug: Seq<char>) -> Seq<char> {
    slug + ".html"@
}

/// The name of the file that holds the page stored under `slug`: `<slug>.html`.
pub fn page_filename(slug: &str) -> (r: String)
    ensures
        r@ == filename_of(slug@),
{
    let mut f = String::from_str(slug);
    f.append(".html");
    f
}

/// How a page is to be written once its slug is settled.
pub struct PutPlan {
    /// The slug to store under.
    pub slug: String,
    /// The file to write the HTML to.
    pub filename: String,
    /// Whether an existing record is replaced (updated) rather than a new one inserted.
    pub replace: bool,
}

/// Decides how to store a page under `slug`, given whether a page is stored
/// there already: an existing page is replaced only when `force` is set.
pub fn plan_put(slug: String, exists: bool, force: bool) -> (r: Result<PutPlan, LinkdropError>)
    ensures
        exists && !force ==> (r matches Err(e) && e@ == ErrorView::SlugExists(slug@)),
        !(exists && !force) ==> (r matches Ok(p) && p.slug@ == slug@ && p.filename@
            == filename_of(slug@) && p.replace == exists),
{
    if exists && !force {
        return Err(LinkdropError::SlugExists(slug));
    }
    let filename = page_filename(slug.as_str());
    Ok(PutPlan { slug, filename, replace: exists })
}

/// The page to serve for `slug`, given the record found for it (if any) at
/// `now`: a missing record is [`LinkdropError::NotFound`], an expired one
/// [`LinkdropError::Expired`].
pub fn page_to_serve(slug: &str, found: Option<PageRecord>, now: Timestamp) -> (r: Result<PageRecord, LinkdropError>)
    ensures
        found is None ==> (r matches Err(e) && e@ == ErrorView::NotFound(slug@)),
        found matches Some(rec) ==> (if rec.expires_at matches Some(x) && at_or_before(x, now) {
            (r matches Err(e) && e@ == ErrorView::Expired(rec.slug@))
        } else {
            (r matches Ok(p) && p == rec)
        }),
{
    match found {
        None => Err(LinkdropError::NotFound(String::from_str(slug))),
        Some(rec) => {
            rec.check_not_expired(now)?;
            Ok(rec)
        },
    }
}

/// The page to delete for `slug`, given the record found for it (if any):
/// a missing record is [`LinkdropError::NotFound`].  Expired pages can be deleted.
pub fn page_to_delete(slug: &str, found: Option<PageRecord>) -> (r: Result<PageRecord, LinkdropError>)
    ensures
        found is None ==> (r matches Err(e) && e@ == ErrorView::NotFound(slug@)),
        found matches Some(rec) ==> (r matches Ok(p) && p == rec),
{
    match found {
        None => Err(LinkdropError::NotFound(String::from_str(slug))),
        Some(rec) => Ok(rec),
    }
}

/// Content over the size limit is refused whatever slug it comes with.
pub proof fn oversized_content_refused(slug: Option<Seq<char>>, content_len: nat)
    requires
        content_len > MAX_HTML_BYTES,
    ensures
        slug_choice(slug, content_len) == Err::<Option<Seq<char>>, ErrorView>(
            ErrorView::TooLarge { max: MAX_HTML_BYTES },
        ),
{
}

/// Distinct slugs are stored in distinct files.
pub proof fn filenames_distinct(a: Seq<char>, b: Seq<char>)
    requires
        a != b,
    ensures
        filename_of(a) != filename_of(b),
{
    let h = ".html"@;
    if filename_of(a) == filename_of(b) {
        assert((a + h).len() == a.len() + h.len());
        assert((b + h).len() == b.len() + h.len());
        assert(a.len() == b.len());
        assert(filename_of(a).subrange(0, a.len() as int) == a);
        assert(filename_of(b).subrange(0, b.len() as int) == b);
    }
}

} // verus!

verus! {

/// A given slug is refused only as [`validate_slug`] refuses it: when the
/// content fits, every slug of 1 to 64 lowercase letters, digits and inner
/// hyphens (a leading digit included) is stored under as given, and any other
/// slug is refused with exactly the error `validate_slug` gives it.
pub proof fn given_slug_kept_unless_invalid(s: Seq<char>, content_len: nat)
    requires
        content_len <= MAX_HTML_BYTES,
    ensures
        ({
            &&& 1 <= s.len() <= 64
            &&& forall|i: int|
                0 <= i < s.len() ==> ('a' as u32 <= #[trigger] s[i] as u32 <= 'z' as u32 || '0' as u32
                    <= s[i] as u32 <= '9' as u32 || s[i] == '-')
            &&& s[0] != '-'
            &&& s[s.len() - 1] != '-'
        }) ==> slug_choice(Some(s), content_len) == Ok::<Option<Seq<char>>, ErrorView>(Some(s)),
        slug_verdict(s) matches Err(e) ==> slug_choice(Some(s), content_len) == Err::<
            Option<Seq<char>>,
            ErrorView,
        >(e),
        slug_choice(None, content_len) == Ok::<Option<Seq<char>>, ErrorView>(None),
{
    crate::slug::slug_rules(s);
}

} // verus!
