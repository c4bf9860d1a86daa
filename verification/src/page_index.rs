//! The entry of the index for one page.

use vstd::prelude::*;
use crate::file_location::FileLocation;
use crate::operation_result::{OperationResult, OperationResultView, ParseError, ParseErrorView};
use crate::text::{lowercase, to_lowercase, trim, trim_spec};

verus! {

/// The text of an optional string slice.
pub open spec fn opt_text(o: Option<&str>) -> Option<Seq<char>> {
    match o {
        Some(s) => Some(s@),
        None => None,
    }
}

/// The link of a page: its `url` where given; else, below `/` and the
/// directory relative to the content directory (where that is not empty),
/// its `slug` where given, or else its lower-cased file stem, ending in `/`.
pub open spec fn href_spec(
    slug: Option<Seq<char>>,
    url: Option<Seq<char>>,
    relative_directory: Seq<char>,
    lowered_stem: Seq<char>,
) -> Seq<char> {
    match url {
        Some(u) => u,
        None => {
            let relative_part = if relative_directory.len() == 0 {
                Seq::empty()
            } else {
                "/"@ + relative_directory
            };
            match slug {
                Some(s) => relative_part + "/"@ + s + "/"@,
                None => relative_part + "/"@ + lowered_stem + "/"@,
            }
        },
    }
}

/// A url given in the front matter is the link, whatever the slug and the
/// location.
pub proof fn lemma_link_is_given_url(
    slug: Option<Seq<char>>,
    u: Seq<char>,
    relative_directory: Seq<char>,
    lowered_stem: Seq<char>,
)
    ensures
        href_spec(slug, Some(u), relative_directory, lowered_stem) == u,
{
}

/// With a slug and no url, the link is `/{directory}/{slug}/` for a page below
/// the content directory, however many levels deep, and `/{slug}/` at its top.
pub proof fn lemma_link_with_slug(s: Seq<char>, relative_directory: Seq<char>, lowered_stem: Seq<char>)
    ensures
        relative_directory.len() > 0 ==> href_spec(Some(s), None, relative_directory, lowered_stem)
            == "/"@ + relative_directory + "/"@ + s + "/"@,
        relative_directory.len() == 0 ==> href_spec(Some(s), None, relative_directory, lowered_stem)
            == "/"@ + s + "/"@,
{
    assert(Seq::<char>::empty() + "/"@ =~= "/"@);
}

/// Without slug and url, the link is `/{directory}/{stem}/` below the content
/// directory and `/{stem}/` at its top, with the stem given.
pub proof fn lemma_link_with_stem(relative_directory: Seq<char>, lowered_stem: Seq<char>)
    ensures
        relative_directory.len() > 0 ==> href_spec(None, None, relative_directory, lowered_stem)
            == "/"@ + relative_directory + "/"@ + lowered_stem + "/"@,
        relative_directory.len() == 0 ==> href_spec(None, None, relative_directory, lowered_stem)
            == "/"@ + lowered_stem + "/"@,
{
    assert(Seq::<char>::empty() + "/"@ =~= "/"@);
}

/// Without a url, the link of a page below the content directory begins with
/// `/` and its whole directory, and every link built from the location ends
/// with `/`.
pub proof fn lemma_link_keeps_directory(
    slug: Option<Seq<char>>,
    relative_directory: Seq<char>,
    lowered_stem: Seq<char>,
)
    requires
        relative_directory.len() > 0,
    ensures
        href_spec(slug, None, relative_directory, lowered_stem).take(
            relative_directory.len() + 1 as int,
        ) == "/"@ + relative_directory,
        href_spec(slug, None, relative_directory, lowered_stem).last() == '/',
{
    reveal_strlit("/");
    let head = "/"@ + relative_directory;
    let tail = match slug {
        Some(s) => "/"@ + s + "/"@,
        None => "/"@ + lowered_stem + "/"@,
    };
    let link = href_spec(slug, None, relative_directory, lowered_stem);
    assert(link =~= head + tail);
    assert((head + tail).take(head.len() as int) =~= head);
    assert(tail.last() == '/');
}

/// The link of a page from its slug, its url, its directory relative to the
/// content directory and its file stem already lower-cased.
pub fn href_from(
    slug: Option<&str>,
    url: Option<&str>,
    relative_directory: &str,
    lowered_stem: &str,
) -> (res: String)
    ensures
        res@ == href_spec(opt_text(slug), opt_text(url), relative_directory@, lowered_stem@),
{
    if let Some(u) = url {
        return u.to_owned();
    }
    let mut res = if relative_directory.is_empty() {
        String::new()
    } else {
        let mut part = "/".to_owned();
        part.append(relative_directory);
        part
    };
    res.append("/");
    match slug {
        Some(s) => res.append(s),
        None => res.append(lowered_stem),
    }
    res.append("/");
    res
}

/// The link of a page at `location`: it rests on the location's directory
/// relative to the content directory and its lower-cased stem alone.
pub open spec fn page_href(
    slug: Option<Seq<char>>,
    url: Option<Seq<char>>,
    location: &FileLocation,
) -> Seq<char> {
    href_spec(
        slug,
        url,
        location.relative_directory_to_content@,
        lowercase(location.file_stem@),
    )
}

/// Without slug and url, a page's link ends with its lower-cased file stem and
/// `/`, and is `/{directory}/{stem}/` below the content directory and
/// `/{stem}/` at its top: the stem is lower-cased wherever the page lies.
pub proof fn lemma_page_link_lowers_stem(location: &FileLocation)
    ensures
        location.relative_directory_to_content@.len() > 0 ==> page_href(None, None, location)
            == "/"@ + location.relative_directory_to_content@ + "/"@ + lowercase(
            location.file_stem@,
        ) + "/"@,
        location.relative_directory_to_content@.len() == 0 ==> page_href(None, None, location)
            == "/"@ + lowercase(location.file_stem@) + "/"@,
{
    lemma_link_with_stem(location.relative_directory_to_content@, lowercase(location.file_stem@));
}

/// Two locations whose stems lower-case alike and whose directories agree give
/// the same link without slug and url.
pub proof fn lemma_link_depends_on_lowered_stem(a: &FileLocation, b: &FileLocation)
    requires
        a.relative_directory_to_content@ == b.relative_directory_to_content@,
        lowercase(a.file_stem@) == lowercase(b.file_stem@),
    ensures
        page_href(None, None, a) == page_href(None, None, b),
{
    lemma_page_link_lowers_stem(a);
    lemma_page_link_lowers_stem(b);
}

/// The link of a page ignores the extension, absolute path and file name of
/// its location: two locations with the same relative directory and stem give
/// the same link for every slug and url.
pub proof fn lemma_href_ignores_rest_of_location(
    slug: Option<Seq<char>>,
    url: Option<Seq<char>>,
    a: &FileLocation,
    b: &FileLocation,
)
    requires
        a.relative_directory_to_content@ == b.relative_directory_to_content@,
        a.file_stem@ == b.file_stem@,
    ensures
        page_href(slug, url, a) == page_href(slug, url, b),
{
}

/// The link of a page at `file_location`: always built, as `page_href` says.
pub fn build_href(
    possible_slug: Option<&str>,
    possible_url: Option<&str>,
    file_location: &FileLocation,
) -> (res: Result<String, OperationResult>)
    ensures
        res matches Ok(href) && href@ == page_href(
            opt_text(possible_slug),
            opt_text(possible_url),
            file_location,
        ),
{
    let lowered = if possible_url.is_none() && possible_slug.is_none() {
        to_lowercase(file_location.file_stem.as_str())
    } else {
        String::new()
    };
    Ok(
        href_from(
            possible_slug,
            possible_url,
            file_location.relative_directory_to_content.as_str(),
            lowered.as_str(),
        ),
    )
}

/// The entry of the index for one page.
#[derive(Debug, PartialEq)]
pub struct PageIndex {
    pub title: String,
    pub href: String,
    pub date: String,
    pub content: String,
    pub description: String,
    pub categories: Vec<String>,
    pub series: Vec<String>,
    pub tags: Vec<String>,
    pub keywords: Vec<String>,
}

/// `res` is the failure for a page at `location` whose front matter lacks
/// what `info` names.
pub open spec fn missing_front_matter(
    res: Result<PageIndex, OperationResult>,
    location: &FileLocation,
    info: Seq<char>,
) -> bool {
    res matches Err(e) && e@ == OperationResultView::Parse(
        ParseErrorView { directory: location.absolute_path@, info },
    )
}

impl PageIndex {
    /// Builds the entry for a page from its front matter, its content and its
    /// location. Title and date are required and trimmed; a missing
    /// description becomes empty; the link is as `href_spec` says.
    pub fn new(
        title: Option<&str>,
        slug: Option<&str>,
        date: Option<&str>,
        description: Option<&str>,
        categories: Vec<String>,
        series: Vec<String>,
        tags: Vec<String>,
        keywords: Vec<String>,
        content: String,
        file_location: &FileLocation,
        url: Option<&str>,
    ) -> (res: Result<Self, OperationResult>)
        ensures
            title is None ==> missing_front_matter(
                res,
                file_location,
                "Could not read title from front matter"@,
            ),
            title is Some && date is None ==> missing_front_matter(
                res,
                file_location,
                "Could not read date from front matter"@,
            ),
            title is Some && date is Some ==> (res matches Ok(page) && {
                &&& page.title@ == trim_spec(title.unwrap()@)
                &&& page.date@ == trim_spec(date.unwrap()@)
                &&& page.description@ == match description {
                    Some(d) => d@,
                    None => Seq::<char>::empty(),
                }
                &&& page.href@ == page_href(opt_text(slug), opt_text(url), file_location)
                &&& page.categories == categories
                &&& page.series == series
                &&& page.tags == tags
                &&& page.keywords == keywords
                &&& page.content == content
            }),
    {
        let title = match title {
            Some(t) => trim(t).to_owned(),
            None => {
                return Err(
                    OperationResult::Parse(
                        ParseError::new(
                            file_location.absolute_path.as_str(),
                            "Could not read title from front matter",
                        ),
                    ),
                );
            },
        };
        let date = match date {
            Some(d) => trim(d).to_owned(),
            None => {
                return Err(
                    OperationResult::Parse(
                        ParseError::new(
                            file_location.absolute_path.as_str(),
                            "Could not read date from front matter",
                        ),
                    ),
                );
            },
        };
        proof {
            reveal_strlit("");
            assert(""@ =~= Seq::<char>::empty());
        }
        let description = description.unwrap_or("").to_owned();
        let href = match build_href(slug, url, file_location) {
            Ok(h) => h,
            Err(e) => {
                return Err(e);
            },
        };
        Ok(PageIndex {
            title,
            date,
            description,
            categories,
            tags,
            series,
            keywords,
            href,
            content,
        })
    }
}

} // verus!
