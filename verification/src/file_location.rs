//! Where a document lies: its path, name, extension and its directory
//! relative to the content directory.

use vstd::prelude::*;
use crate::operation_result::{
    OperationResult, OperationResultView, PathError, PathErrorView, Skip, SkipView,
};
use crate::text::{join, joined};

verus! {

/// The path of a walked entry, as `walkdir::DirEntry::path` gives it.
pub uninterp spec fn entry_path(file: walkdir::DirEntry) -> std::path::PathBuf;

/// Whether a walked entry is a directory.
pub uninterp spec fn entry_dir(file: walkdir::DirEntry) -> bool;

/// The text of a path, invalid Unicode replaced, as `to_string_lossy` gives it.
pub uninterp spec fn path_text(path: std::path::PathBuf) -> Seq<char>;

/// Whether a path is valid Unicode, as `to_str` tells.
pub uninterp spec fn path_unicode(path: std::path::PathBuf) -> bool;

/// The final component of a path as text (invalid Unicode replaced), as
/// `Path::file_name` finds it.
pub uninterp spec fn path_file_name(path: std::path::PathBuf) -> Option<Seq<char>>;

/// The rest of `path` after the leading components of `base`, as
/// `Path::strip_prefix` finds it; `None` where `base` is not a prefix.
pub uninterp spec fn path_strip_prefix(
    path: std::path::PathBuf,
    base: std::path::PathBuf,
) -> Option<std::path::PathBuf>;

/// The components of a path, as `Path::components` yields them, each as its
/// text where it is valid Unicode (`to_str`), else `None`.
pub uninterp spec fn path_components(path: std::path::PathBuf) -> Seq<Option<Seq<char>>>;

/// The index of the last `.` in `name`, or -1 where there is none.
pub open spec fn last_dot(name: Seq<char>) -> int
    decreases name.len(),
{
    if name.len() == 0 {
        -1
    } else if name.last() == '.' {
        name.len() - 1
    } else {
        last_dot(name.drop_last())
    }
}

/// Whether a file name has no extension to split off: it is `..`, has no
/// `.`, or its only `.` leads it.
pub open spec fn whole_name(name: Seq<char>) -> bool {
    name == ".."@ || last_dot(name) <= 0
}

/// The extension that `Path::extension` documents for a file name: the part
/// after the last `.`, unless the name is whole.
pub open spec fn name_extension(file_name: Option<Seq<char>>) -> Option<Seq<char>> {
    match file_name {
        Some(name) => if whole_name(name) {
            None
        } else {
            Some(name.subrange(last_dot(name) + 1, name.len() as int))
        },
        None => None,
    }
}

/// The stem that `Path::file_stem` documents for a file name: the part before
/// the last `.`, or the whole name where it is whole.
pub open spec fn name_stem(file_name: Option<Seq<char>>) -> Option<Seq<char>> {
    match file_name {
        Some(name) => if whole_name(name) {
            Some(name)
        } else {
            Some(name.subrange(0, last_dot(name)))
        },
        None => None,
    }
}

/// `walkdir::DirEntry::path`, copied out. The entry keeps its path, so this
/// reads a stored field.
#[verifier::external_body]
fn entry_path_of(file: &walkdir::DirEntry) -> (res: std::path::PathBuf)
    ensures
        res == entry_path(*file),
{
    file.path().to_path_buf()
}

/// `walkdir::DirEntry::file_type` and `is_dir`: whether the entry is a
/// directory. The entry keeps the type it was walked with, so this reads a
/// stored field.
#[verifier::external_body]
fn entry_is_dir(file: &walkdir::DirEntry) -> (res: bool)
    ensures
        res == entry_dir(*file),
{
    file.file_type().is_dir()
}

/// `Path::to_string_lossy`: the text of a path, invalid Unicode replaced.
#[verifier::external_body]
fn text_of(path: &std::path::PathBuf) -> (res: String)
    ensures
        res@ == path_text(*path),
{
    path.to_string_lossy().into_owned()
}

/// `Path::to_str`: whether the path is valid Unicode.
#[verifier::external_body]
fn is_unicode(path: &std::path::PathBuf) -> (res: bool)
    ensures
        res == path_unicode(*path),
{
    path.to_str().is_some()
}

/// `Path::file_name`, as text with invalid Unicode replaced.
#[verifier::external_body]
fn file_name_of(path: &std::path::PathBuf) -> (res: Option<String>)
    ensures
        res.deep_view() == path_file_name(*path),
{
    match path.file_name() {
        Some(name) => Some(name.to_string_lossy().into_owned()),
        None => None,
    }
}

/// `Path::extension`, as text with invalid Unicode replaced: as its
/// documentation says, the part of the file name after its last `.`; none
/// where there is no file name, no `.`, or only a leading `.`.
#[verifier::external_body]
fn extension_of(path: &std::path::PathBuf) -> (res: Option<String>)
    ensures
        res.deep_view() == name_extension(path_file_name(*path)),
{
    match path.extension() {
        Some(ext) => Some(ext.to_string_lossy().into_owned()),
        None => None,
    }
}

/// `Path::file_stem`, as text with invalid Unicode replaced: as its
/// documentation says, the part of the file name before its last `.`; the
/// whole name where there is no `.` or only a leading one; none where there
/// is no file name.
#[verifier::external_body]
fn file_stem_of(path: &std::path::PathBuf) -> (res: Option<String>)
    ensures
        res.deep_view() == name_stem(path_file_name(*path)),
{
    match path.file_stem() {
        Some(stem) => Some(stem.to_string_lossy().into_owned()),
        None => None,
    }
}

/// `Path::strip_prefix`: the rest of `path` below `base`, copied out.
#[verifier::external_body]
fn strip_prefix_of(path: &std::path::PathBuf, base: &std::path::PathBuf) -> (res: Option<
    std::path::PathBuf,
>)
    ensures
        res == path_strip_prefix(*path, *base),
{
    match path.strip_prefix(base) {
        Ok(rest) => Some(rest.to_path_buf()),
        Err(_) => None,
    }
}

/// `Path::components`, each component as its text where it is valid Unicode.
#[verifier::external_body]
fn components_of(path: &std::path::PathBuf) -> (res: Vec<Option<String>>)
    ensures
        res.deep_view() == path_components(*path),
{
    let mut res = Vec::new();
    for comp in path.components() {
        match comp.as_os_str().to_str() {
            Some(text) => res.push(Some(text.to_owned())),
            None => res.push(None),
        }
    }
    res
}

/// The components of `path` below `content_dir`, where it lies below it.
pub open spec fn relative_components(
    path: std::path::PathBuf,
    content_dir: std::path::PathBuf,
) -> Option<Seq<Option<Seq<char>>>> {
    match path_strip_prefix(path, content_dir) {
        Some(rest) => Some(path_components(rest)),
        None => None,
    }
}

/// The components of the directory of a file, given the components of the
/// file's path: all but the last, which is the file itself.
pub open spec fn parent_components<A>(comps: Seq<A>) -> Seq<A> {
    if comps.len() == 0 {
        comps
    } else {
        comps.drop_last()
    }
}

/// The texts of the components that are valid Unicode, in order; the others
/// are left out.
pub open spec fn unicode_names(comps: Seq<Option<Seq<char>>>) -> Seq<Seq<char>>
    decreases comps.len(),
{
    if comps.len() == 0 {
        Seq::empty()
    } else {
        let rest = unicode_names(comps.drop_last());
        match comps.last() {
            Some(name) => rest.push(name),
            None => rest,
        }
    }
}

/// The Unicode names of two stretches of components, one after the other, are
/// those of the first followed by those of the second; a Unicode component
/// alone gives its name and one that is not gives none.
pub proof fn lemma_unicode_names_in_order(
    s: Seq<Option<Seq<char>>>,
    t: Seq<Option<Seq<char>>>,
    name: Seq<char>,
)
    ensures
        unicode_names(s + t) == unicode_names(s) + unicode_names(t),
        unicode_names(seq![Some(name)]) == seq![name],
        unicode_names(seq![None::<Seq<char>>]).len() == 0,
    decreases t.len(),
{
    assert(seq![Some(name)].drop_last() =~= Seq::<Option<Seq<char>>>::empty());
    assert(seq![None::<Seq<char>>].drop_last() =~= Seq::<Option<Seq<char>>>::empty());
    assert(unicode_names(Seq::<Option<Seq<char>>>::empty()).push(name) =~= seq![name]);
    if t.len() == 0 {
        assert(s + t =~= s);
        assert(unicode_names(s) + unicode_names(t) =~= unicode_names(s));
    } else {
        lemma_unicode_names_in_order(s, t.drop_last(), name);
        assert((s + t).drop_last() =~= s + t.drop_last());
        assert((s + t).last() == t.last());
        match t.last() {
            Some(n) => {
                assert(unicode_names(s) + unicode_names(t) =~= (unicode_names(s) + unicode_names(
                    t.drop_last(),
                )).push(n));
            },
            None => {},
        }
    }
}

/// All components but the last are the directories: they and the last make
/// up the whole; with no component there is no directory.
pub proof fn lemma_parent_components<A>(comps: Seq<A>)
    ensures
        comps.len() > 0 ==> parent_components(comps).push(comps.last()) == comps,
        comps.len() == 0 ==> parent_components(comps).len() == 0,
{
    if comps.len() > 0 {
        assert(comps.drop_last().push(comps.last()) =~= comps);
    }
}

/// A file that is located gets the path, extension, name and stem given, and
/// as its directory every Unicode component of its path below the content
/// directory but the last, all of them, in order, joined with `/`.
pub proof fn lemma_located_file(
    res: Result<FileLocation, OperationResult>,
    path: Seq<char>,
    unicode: bool,
    extension: Seq<char>,
    file_name: Seq<char>,
    file_stem: Seq<char>,
    comps: Seq<Option<Seq<char>>>,
)
    requires
        located(
            res,
            path,
            unicode,
            false,
            Some(extension),
            Some(file_name),
            Some(file_stem),
            Some(comps),
        ),
    ensures
        res matches Ok(loc) && {
            &&& loc.absolute_path@ == path
            &&& loc.extension@ == extension
            &&& loc.file_name@ == file_name
            &&& loc.file_stem@ == file_stem
            &&& loc.relative_directory_to_content@ == joined(
                unicode_names(parent_components(comps)),
                "/"@,
            )
        },
{
}

/// `res` is a failure whose view is `v`.
pub open spec fn failure_is(res: Result<FileLocation, OperationResult>, v: OperationResultView) -> bool {
    res matches Err(e) && e@ == v
}

/// The failures of locating, checked in order: a directory is skipped (under
/// its path where that is valid Unicode); then a missing extension, file
/// name, stem or place below the content directory each gives its own path
/// error for the path.
pub proof fn lemma_located_failures(
    res: Result<FileLocation, OperationResult>,
    path: Seq<char>,
    unicode: bool,
    is_dir: bool,
    extension: Option<Seq<char>>,
    file_name: Option<Seq<char>>,
    file_stem: Option<Seq<char>>,
    relative: Option<Seq<Option<Seq<char>>>>,
)
    requires
        located(res, path, unicode, is_dir, extension, file_name, file_stem, relative),
    ensures
        is_dir && unicode ==> failure_is(res, OperationResultView::Skip(
            SkipView { directory: path, reason: "Not a file"@ },
        )),
        is_dir && !unicode ==> failure_is(res, OperationResultView::Skip(
            SkipView { directory: Seq::empty(), reason: "Not a file"@ },
        )),
        !is_dir && extension is None ==> failure_is(res, OperationResultView::Path(
            PathErrorView { directory: path, reason: "Failed to determine extension."@ },
        )),
        !is_dir && extension is Some && file_name is None ==> failure_is(res, OperationResultView::Path(
            PathErrorView { directory: path, reason: "Failed to retrieve file name."@ },
        )),
        !is_dir && extension is Some && file_name is Some && file_stem is None ==> failure_is(res, OperationResultView::Path(
            PathErrorView { directory: path, reason: "Failed to retrieve file stem."@ },
        )),
        !is_dir && extension is Some && file_name is Some && file_stem is Some && relative is None
            ==> failure_is(res, OperationResultView::Path(
            PathErrorView { directory: path, reason: "Failed to retrieve sub directory."@ },
        )),
{
}

/// `res` is the `PathError` outcome for `path` with `reason`.
pub open spec fn path_failure(
    res: Result<FileLocation, OperationResult>,
    path: Seq<char>,
    reason: Seq<char>,
) -> bool {
    res matches Err(e) && e@ == OperationResultView::Path(
        PathErrorView { directory: path, reason },
    )
}

/// `res` is what locating the file at `path` gives, where `unicode` tells
/// whether the path was valid Unicode, `is_dir` whether it is a directory, and
/// the rest are its extension, file name, stem and the components of its path
/// below the content directory (`None` for one that is not valid Unicode).
pub open spec fn located(
    res: Result<FileLocation, OperationResult>,
    path: Seq<char>,
    unicode: bool,
    is_dir: bool,
    extension: Option<Seq<char>>,
    file_name: Option<Seq<char>>,
    file_stem: Option<Seq<char>>,
    relative: Option<Seq<Option<Seq<char>>>>,
) -> bool {
    if is_dir {
        res matches Err(e) && e@ == OperationResultView::Skip(
            SkipView {
                directory: if unicode {
                    path
                } else {
                    Seq::empty()
                },
                reason: "Not a file"@,
            },
        )
    } else if extension is None {
        path_failure(res, path, "Failed to determine extension."@)
    } else if file_name is None {
        path_failure(res, path, "Failed to retrieve file name."@)
    } else if file_stem is None {
        path_failure(res, path, "Failed to retrieve file stem."@)
    } else if relative is None {
        path_failure(res, path, "Failed to retrieve sub directory."@)
    } else {
        res matches Ok(loc) && {
            &&& loc.extension@ == extension.unwrap()
            &&& loc.absolute_path@ == path
            &&& loc.file_name@ == file_name.unwrap()
            &&& loc.file_stem@ == file_stem.unwrap()
            &&& loc.relative_directory_to_content@ == joined(
                unicode_names(parent_components(relative.unwrap())),
                "/"@,
            )
        }
    }
}

/// The names of the directories of a file, given the components of its path:
/// all but the last, those that are not valid Unicode left out.
fn directory_names(comps: &Vec<Option<String>>) -> (res: Vec<String>)
    ensures
        res.deep_view() == unicode_names(parent_components(comps.deep_view())),
{
    let n = comps.len();
    let m: usize = if n > 0 {
        n - 1
    } else {
        0
    };
    let ghost parents = parent_components(comps.deep_view());
    assert(parents =~= comps.deep_view().take(m as int));
    let mut res: Vec<String> = Vec::new();
    let mut i: usize = 0;
    while i < m
        invariant
            m <= n == comps.len(),
            0 <= i <= m,
            res.deep_view() == unicode_names(comps.deep_view().take(i as int)),
        decreases m - i,
    {
        let ghost prefix = comps.deep_view().take(i + 1);
        assert(prefix.drop_last() =~= comps.deep_view().take(i as int));
        assert(prefix.last() == comps@[i as int].deep_view());
        match &comps[i] {
            Some(name) => {
                let ghost before = res.deep_view();
                res.push(name.clone());
                assert(res.deep_view() =~= before.push(name@));
            },
            None => {},
        }
        i = i + 1;
    }
    res
}

/// Where a document lies.
#[derive(Debug)]
pub struct FileLocation {
    /// The file's extension
    pub extension: String,
    /// The file's absolute path
    pub absolute_path: String,
    /// The name of the file including the extension
    pub file_name: String,
    /// The name of the file, without the extension. `foo.rs` becomes `foo`
    pub file_stem: String,
    /// The directory relative to the content directory. Given
    /// `./blog/content/sub/post/example.md` and a content directory of
    /// `./blog/content` this is `sub/post`.
    pub relative_directory_to_content: String,
}

impl FileLocation {
    /// Locates the walked entry `file` below `content_dir`: a directory is
    /// skipped; a file's extension, name and stem are read from its path, and
    /// its directory relative to `content_dir` is the components of the
    /// stripped path but the last, those that are valid Unicode joined with `/`.
    pub fn new(file: &walkdir::DirEntry, content_dir: &std::path::PathBuf) -> (res: Result<
        Self,
        OperationResult,
    >)
        ensures
            located(
                res,
                path_text(entry_path(*file)),
                path_unicode(entry_path(*file)),
                entry_dir(*file),
                name_extension(path_file_name(entry_path(*file))),
                path_file_name(entry_path(*file)),
                name_stem(path_file_name(entry_path(*file))),
                relative_components(entry_path(*file), *content_dir),
            ),
    {
        let is_dir = entry_is_dir(file);
        let path = entry_path_of(file);
        Self::from_path(&path, is_dir, content_dir)
    }

    /// Locates the file at `path` below `content_dir`, `is_dir` telling whether
    /// it is a directory.
    pub fn from_path(
        path: &std::path::PathBuf,
        is_dir: bool,
        content_dir: &std::path::PathBuf,
    ) -> (res: Result<Self, OperationResult>)
        ensures
            located(
                res,
                path_text(*path),
                path_unicode(*path),
                is_dir,
                name_extension(path_file_name(*path)),
                path_file_name(*path),
                name_stem(path_file_name(*path)),
                relative_components(*path, *content_dir),
            ),
    {
        let text = text_of(path);
        let unicode = is_unicode(path);
        let extension = extension_of(path);
        let file_name = file_name_of(path);
        let file_stem = file_stem_of(path);
        let relative = match strip_prefix_of(path, content_dir) {
            Some(rest) => Some(components_of(&rest)),
            None => None,
        };
        Self::from_parts(text.as_str(), unicode, is_dir, extension, file_name, file_stem, relative)
    }

    /// Builds the location of the file at `path` from what the path gives:
    /// its extension, file name, stem and components below the content
    /// directory (`None` for a component that is not valid Unicode); each check
    /// fails in that order with its own reason.
    pub fn from_parts(
        path: &str,
        unicode: bool,
        is_dir: bool,
        extension: Option<String>,
        file_name: Option<String>,
        file_stem: Option<String>,
        relative: Option<Vec<Option<String>>>,
    ) -> (res: Result<Self, OperationResult>)
        ensures
            located(
                res,
                path@,
                unicode,
                is_dir,
                extension.deep_view(),
                file_name.deep_view(),
                file_stem.deep_view(),
                relative.deep_view(),
            ),
    {
        if is_dir {
            let directory = if unicode {
                path
            } else {
                ""
            };
            proof {
                reveal_strlit("");
                assert(""@ =~= Seq::<char>::empty());
            }
            return Err(OperationResult::Skip(Skip::new(directory, "Not a file")));
        }
        let extension = match extension {
            Some(e) => e,
            None => {
                return Err(
                    OperationResult::Path(PathError::new(path, "Failed to determine extension.")),
                );
            },
        };
        let file_name = match file_name {
            Some(f) => f,
            None => {
                return Err(
                    OperationResult::Path(PathError::new(path, "Failed to retrieve file name.")),
                );
            },
        };
        let file_stem = match file_stem {
            Some(s) => s,
            None => {
                return Err(
                    OperationResult::Path(PathError::new(path, "Failed to retrieve file stem.")),
                );
            },
        };
        let relative = match relative {
            Some(r) => r,
            None => {
                return Err(
                    OperationResult::Path(
                        PathError::new(path, "Failed to retrieve sub directory."),
                    ),
                );
            },
        };
        let directories = directory_names(&relative);
        let relative_directory_to_content = join(&directories, "/");
        Ok(FileLocation {
            extension,
            absolute_path: path.to_owned(),
            file_name,
            file_stem,
            relative_directory_to_content,
        })
    }

    /// The text that `Display` shows: the absolute path.
    pub fn message(&self) -> (res: String)
        ensures
            res@ == self.absolute_path@,
    {
        self.absolute_path.clone()
    }
}

} // verus!
