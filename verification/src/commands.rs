//! The command-line subcommands' decisions: project arguments, task
//! markers, user table rows, file and MIME types, what a push sends,
//! which user an email names, and which paths watching skips.

use vstd::prelude::*;
use crate::text::{
    chars_of, lemma_trim_start_char, opt_view, pad_right, padded, str_eq, strings_view,
    trim_start_char, trim_start_matches,
};

verus! {

/// A project argument without its leading `@`s (`@brownells` names the
/// project `brownells`).
pub fn project_slug(project: &str) -> (r: String)
    ensures
        r@ == trim_start_char(project@, '@'),
        r@.len() > 0 ==> r@[0] != '@',
{
    proof {
        lemma_trim_start_char(project@, '@');
    }
    trim_start_matches(project, '@')
}

/// Marker shown before a task of the given status.
pub open spec fn spec_task_marker(status: Seq<char>) -> Seq<char> {
    if status == "done"@ {
        "\u{2713}"@
    } else if status == "in_progress"@ {
        "\u{25b2}"@
    } else {
        "\u{25cb}"@
    }
}

/// Marker shown before a task: a check for done, a triangle for in
/// progress, a circle otherwise.
pub fn task_marker(status: &str) -> (r: &'static str)
    ensures
        r@ == spec_task_marker(status@),
{
    if str_eq(status, "done") {
        "\u{2713}"
    } else if str_eq(status, "in_progress") {
        "\u{25b2}"
    } else {
        "\u{25cb}"
    }
}

/// One row of the user table: email, name and role left-aligned in
/// columns of 28, 16 and 8 characters, then the creation date.
pub open spec fn spec_user_row(email: Seq<char>, name: Seq<char>, role: Seq<char>, created: Seq<char>) -> Seq<char> {
    padded(email, 28) + " "@ + padded(name, 16) + " "@ + padded(role, 8) + " "@ + created
}

/// Formats one row of the user table (`{:<28} {:<16} {:<8} {}`).
pub fn format_user_row(email: &str, name: &str, role: &str, created: &str) -> (r: String)
    ensures
        r@ == spec_user_row(email@, name@, role@, created@),
{
    let mut r = pad_right(email, 28);
    r.append(" ");
    let n = pad_right(name, 16);
    r.append(n.as_str());
    r.append(" ");
    let ro = pad_right(role, 8);
    r.append(ro.as_str());
    r.append(" ");
    r.append(created);
    r
}


/// A path that is a bare file name, read the same way on every platform:
/// not empty, not `.` or `..`, and free of `/`, `\` and `:` (so it is one
/// plain component wherever the path is interpreted).
pub open spec fn is_plain_file_name(s: Seq<char>) -> bool {
    &&& s.len() > 0
    &&& s != seq!['.']
    &&& s != seq!['.', '.']
    &&& !s.contains('/')
    &&& !s.contains('\\')
    &&& !s.contains(':')
}

/// The index of the last `c` in `s`, or -1 when there is none.
pub open spec fn last_index_of(s: Seq<char>, c: char) -> int
    decreases s.len(),
{
    if s.len() == 0 {
        -1
    } else if s.last() == c {
        s.len() - 1
    } else {
        last_index_of(s.drop_last(), c)
    }
}

/// The extension of a file name: the text after its last `.`, unless that
/// `.` is its first character or there is none.
pub open spec fn name_extension(name: Seq<char>) -> Option<Seq<char>> {
    let k = last_index_of(name, '.');
    if k > 0 {
        Some(name.skip(k + 1))
    } else {
        None
    }
}

/// The stem of a file name: the text before its last `.`, or the whole
/// name when that `.` is its first character or there is none.
pub open spec fn name_stem(name: Seq<char>) -> Seq<char> {
    let k = last_index_of(name, '.');
    if k > 0 {
        name.take(k)
    } else {
        name
    }
}

/// The last `/`-separated part of a path: the text after its last `/`, or
/// the whole path when it has none.
pub open spec fn path_base(p: Seq<char>) -> Seq<char> {
    p.skip(last_index_of(p, '/') + 1)
}

/// A path that every platform splits the same way, at its `/`s, and whose
/// last part is a file name: it holds no `\` and no `:`, does not begin
/// with `//`, and its last part is a bare file name (see
/// `is_plain_file_name`). A bare file name is such a path.
pub open spec fn is_portable_path(p: Seq<char>) -> bool {
    &&& !p.contains('\\')
    &&& !p.contains(':')
    &&& !(p.len() >= 2 && p[0] == '/' && p[1] == '/')
    &&& is_plain_file_name(path_base(p))
}

/// std `Path::extension` (as text). Where a path's components end depends
/// on the platform; for a path that every platform splits at its `/`s (see
/// `is_portable_path`), the extension is that of its last part: the text
/// after the last `.`, unless that `.` comes first. For other paths only
/// that the extension holds no `.` is stated.
#[verifier::external_body]
fn path_extension(path: &str) -> (r: Option<String>)
    ensures
        r matches Some(e) ==> !e@.contains('.'),
        is_portable_path(path@) ==> opt_view(r) == name_extension(path_base(path@)),
{
    std::path::Path::new(path).extension().and_then(|e| e.to_str()).map(|e| e.to_string())
}

/// std `Path::file_name` (as text): for a path that every platform splits
/// at its `/`s (see `is_portable_path`), its last part; nothing is stated
/// of other paths.
#[verifier::external_body]
fn path_file_name(path: &str) -> (r: Option<String>)
    ensures
        is_portable_path(path@) ==> opt_view(r) == Some(path_base(path@)),
{
    std::path::Path::new(path).file_name().and_then(|e| e.to_str()).map(|e| e.to_string())
}

/// std `Path::file_stem` (as text): for a path that every platform splits
/// at its `/`s (see `is_portable_path`), the text of its last part before
/// the last `.`, or that whole part when the `.` comes first or there is
/// none; nothing is stated of other paths.
#[verifier::external_body]
fn path_file_stem(path: &str) -> (r: Option<String>)
    ensures
        is_portable_path(path@) ==> opt_view(r) == Some(name_stem(path_base(path@))),
{
    std::path::Path::new(path).file_stem().and_then(|e| e.to_str()).map(|e| e.to_string())
}

/// Whether the extension marks a text file that is pushed as a project file
/// (`md`, `txt`, `csv`, `json`, `yaml`, `yml`, `toml`).
pub open spec fn spec_is_text_extension(ext: Option<Seq<char>>) -> bool {
    match ext {
        Some(e) => e == "md"@ || e == "txt"@ || e == "csv"@ || e == "json"@ || e == "yaml"@
            || e == "yml"@ || e == "toml"@,
        None => false,
    }
}

/// MIME type for an extension, as the command-line push sends documents.
pub open spec fn spec_mime_for_extension(ext: Option<Seq<char>>) -> Seq<char> {
    match ext {
        Some(e) => if e == "pdf"@ {
            "application/pdf"@
        } else if e == "docx"@ {
            "application/vnd.openxmlformats-officedocument.wordprocessingml.document"@
        } else if e == "xlsx"@ {
            "application/vnd.openxmlformats-officedocument.spreadsheetml.sheet"@
        } else if e == "png"@ {
            "image/png"@
        } else if e == "jpg"@ || e == "jpeg"@ {
            "image/jpeg"@
        } else if e == "zip"@ {
            "application/zip"@
        } else if e == "csv"@ {
            "text/csv"@
        } else {
            "application/octet-stream"@
        },
        None => "application/octet-stream"@,
    }
}

/// MIME type for an extension, as the project view uploads documents.
pub open spec fn spec_document_mime(ext: Option<Seq<char>>) -> Seq<char> {
    match ext {
        Some(e) => if e == "pdf"@ {
            "application/pdf"@
        } else if e == "png"@ {
            "image/png"@
        } else if e == "jpg"@ || e == "jpeg"@ {
            "image/jpeg"@
        } else if e == "zip"@ {
            "application/zip"@
        } else {
            "application/octet-stream"@
        },
        None => "application/octet-stream"@,
    }
}

/// The character sequence of an optional string slice.
pub open spec fn opt_str_view(o: Option<&str>) -> Option<Seq<char>> {
    match o {
        Some(s) => Some(s@),
        None => None,
    }
}

/// Whether a file with this extension is pushed as text.
pub fn is_text_extension(ext: Option<&str>) -> (r: bool)
    ensures
        r == spec_is_text_extension(opt_str_view(ext)),
{
    match ext {
        Some(e) => str_eq(e, "md") || str_eq(e, "txt") || str_eq(e, "csv") || str_eq(e, "json")
            || str_eq(e, "yaml") || str_eq(e, "yml") || str_eq(e, "toml"),
        None => false,
    }
}

/// MIME type for an extension (command-line push).
pub fn mime_for_extension(ext: Option<&str>) -> (r: &'static str)
    ensures
        r@ == spec_mime_for_extension(opt_str_view(ext)),
{
    match ext {
        Some(e) => if str_eq(e, "pdf") {
            "application/pdf"
        } else if str_eq(e, "docx") {
            "application/vnd.openxmlformats-officedocument.wordprocessingml.document"
        } else if str_eq(e, "xlsx") {
            "application/vnd.openxmlformats-officedocument.spreadsheetml.sheet"
        } else if str_eq(e, "png") {
            "image/png"
        } else if str_eq(e, "jpg") || str_eq(e, "jpeg") {
            "image/jpeg"
        } else if str_eq(e, "zip") {
            "application/zip"
        } else if str_eq(e, "csv") {
            "text/csv"
        } else {
            "application/octet-stream"
        },
        None => "application/octet-stream",
    }
}

/// MIME type for an extension (project view upload).
pub fn document_mime(ext: Option<&str>) -> (r: &'static str)
    ensures
        r@ == spec_document_mime(opt_str_view(ext)),
{
    match ext {
        Some(e) => if str_eq(e, "pdf") {
            "application/pdf"
        } else if str_eq(e, "png") {
            "image/png"
        } else if str_eq(e, "jpg") || str_eq(e, "jpeg") {
            "image/jpeg"
        } else if str_eq(e, "zip") {
            "application/zip"
        } else {
            "application/octet-stream"
        },
        None => "application/octet-stream",
    }
}

/// Guesses a document's MIME type from its path's extension: for a path
/// that every platform splits at its `/`s (see `is_portable_path`), the type
/// for the text after the last `.` of its last part (see `name_extension`);
/// for any path, the type for the extension the platform finds in it.
pub fn mime_from_extension(path: &str) -> (r: String)
    ensures
        is_portable_path(path@) ==> r@ == spec_mime_for_extension(name_extension(path_base(path@))),
        exists|e: Option<Seq<char>>| r@ == spec_mime_for_extension(e),
{
    let ext = path_extension(path);
    let m = match &ext {
        Some(e) => mime_for_extension(Some(e.as_str())),
        None => mime_for_extension(None),
    };
    String::from_str(m)
}


/// A user as the API lists them (either field may be missing).
#[derive(Debug, Clone)]
pub struct UserEntry {
    pub id: Option<String>,
    pub email: Option<String>,
}

/// Why a user could not be picked out by email.
#[derive(Debug)]
pub enum UserLookupError {
    /// No user has this email.
    NotFound { email: String },
    /// The user has no id.
    MissingId,
}

/// The first user listed with this email.
pub open spec fn first_with_email(users: Seq<UserEntry>, email: Seq<char>) -> Option<UserEntry>
    decreases users.len(),
{
    if users.len() == 0 {
        None
    } else if users[0].email matches Some(e) && e@ == email {
        Some(users[0])
    } else {
        first_with_email(users.drop_first(), email)
    }
}

/// The id of the first user listed with this email.
pub fn find_user_id(users: &Vec<UserEntry>, email: &str) -> (r: Result<String, UserLookupError>)
    ensures
        match first_with_email(users@, email@) {
            Some(u) => match u.id {
                Some(id) => r matches Ok(x) && x@ == id@,
                None => r matches Err(UserLookupError::MissingId),
            },
            None => r matches Err(UserLookupError::NotFound { email: e }) && e@ == email@,
        },
{
    let mut i: usize = 0;
    assert(users@.skip(0) =~= users@);
    while i < users.len()
        invariant
            i <= users.len(),
            first_with_email(users@, email@) == first_with_email(users@.skip(i as int), email@),
        decreases users.len() - i,
    {
        let u = &users[i];
        assert(users@.skip(i as int)[0] == *u);
        let hit = match &u.email {
            Some(e) => str_eq(e.as_str(), email),
            None => false,
        };
        if hit {
            return match &u.id {
                Some(id) => Ok(id.clone()),
                None => Err(UserLookupError::MissingId),
            };
        }
        assert(users@.skip(i as int).drop_first() =~= users@.skip(i + 1));
        i += 1;
    }
    Err(UserLookupError::NotFound { email: String::from_str(email) })
}

/// How a file goes to a project.
#[derive(Debug)]
pub enum PushKind {
    /// A text file, sent as a project file with its content.
    Text,
    /// Any other file, uploaded as a document of this MIME type.
    Document { mime: String },
}

/// What is sent when a file is pushed.
#[derive(Debug)]
pub struct PushPlan {
    /// The title (the file's name).
    pub file_name: String,
    /// The slug of a text file (the file's name without its extension).
    pub file_slug: String,
    /// The category of a text file.
    pub category: String,
    pub kind: PushKind,
}

/// A part of a file path, or `unnamed` when the path has none.
pub open spec fn or_unnamed(part: Option<Seq<char>>) -> Seq<char> {
    match part {
        Some(p) => p,
        None => "unnamed"@,
    }
}

/// How a file is pushed, given its path's file name, stem and extension
/// (as `Path::file_name`, `Path::file_stem` and `Path::extension` give
/// them) and the category asked for: text files (see
/// `spec_is_text_extension`) go as project files in the category asked for
/// (`other` by default), other files as documents.
pub fn plan_push(file_name: Option<String>, file_stem: Option<String>, extension: Option<String>, category: Option<&str>) -> (p: PushPlan)
    ensures
        p.file_name@ == or_unnamed(opt_view(file_name)),
        p.file_slug@ == or_unnamed(opt_view(file_stem)),
        p.category@ == (match category {
            Some(c) => c@,
            None => "other"@,
        }),
        spec_is_text_extension(opt_view(extension)) ==> p.kind is Text,
        !spec_is_text_extension(opt_view(extension)) ==> (p.kind matches PushKind::Document { mime }
            && mime@ == spec_mime_for_extension(opt_view(extension))),
{
    let name = match file_name {
        Some(n) => n,
        None => String::from_str("unnamed"),
    };
    let slug = match file_stem {
        Some(s) => s,
        None => String::from_str("unnamed"),
    };
    let cat = match category {
        Some(c) => String::from_str(c),
        None => String::from_str("other"),
    };
    let (text, mime) = match &extension {
        Some(e) => (is_text_extension(Some(e.as_str())), mime_for_extension(Some(e.as_str()))),
        None => (is_text_extension(None), mime_for_extension(None)),
    };
    let kind = if text {
        PushKind::Text
    } else {
        PushKind::Document { mime: String::from_str(mime) }
    };
    PushPlan { file_name: name, file_slug: slug, category: cat, kind }
}

/// Whether a path (given by its components) lies in or is a hidden file or
/// directory: one of its components begins with `.`.
pub open spec fn spec_is_hidden(components: Seq<Seq<char>>) -> bool {
    exists|i: int| 0 <= i < components.len() && #[trigger] components[i].len() > 0 && components[i][0] == '.'
}

/// Whether one of the path's components begins with `.` (watching for
/// changes skips such paths).
pub fn is_hidden(components: &Vec<String>) -> (r: bool)
    ensures
        r == spec_is_hidden(strings_view(components@)),
{
    let mut i: usize = 0;
    while i < components.len()
        invariant
            i <= components.len(),
            forall|j: int| 0 <= j < i ==> !(#[trigger] strings_view(components@)[j].len() > 0 && strings_view(components@)[j][0] == '.'),
        decreases components.len() - i,
    {
        let v = chars_of(components[i].as_str());
        if v.len() > 0 && v[0] == '.' {
            assert(strings_view(components@)[i as int] == components@[i as int]@);
            return true;
        }
        i += 1;
    }
    false
}


/// How the file at `path` is pushed (see `plan_push`), its name, stem and
/// extension taken from the path as the platform reads it. For a path that
/// every platform splits at its `/`s (see `is_portable_path`), such as
/// `docs/spec.pdf`, this is exact: the name is the path's last part, with
/// that part's stem and extension.
pub fn plan_push_for_path(path: &str, category: Option<&str>) -> (p: PushPlan)
    ensures
        is_portable_path(path@) ==> {
            &&& p.file_name@ == path_base(path@)
            &&& p.file_slug@ == name_stem(path_base(path@))
            &&& spec_is_text_extension(name_extension(path_base(path@))) ==> p.kind is Text
            &&& !spec_is_text_extension(name_extension(path_base(path@))) ==> (p.kind matches PushKind::Document { mime }
                && mime@ == spec_mime_for_extension(name_extension(path_base(path@))))
        },
        p.category@ == (match category {
            Some(c) => c@,
            None => "other"@,
        }),
{
    plan_push(path_file_name(path), path_file_stem(path), path_extension(path), category)
}


/// The MIME type under which the project view uploads the document at
/// `path` (see `spec_document_mime`): for a path that every platform splits
/// at its `/`s (see `is_portable_path`), the type for the extension of its
/// last part.
pub fn document_mime_for_path(path: &str) -> (r: &str)
    ensures
        is_portable_path(path@) ==> r@ == spec_document_mime(name_extension(path_base(path@))),
        exists|e: Option<Seq<char>>| r@ == spec_document_mime(e),
{
    let ext = path_extension(path);
    match &ext {
        Some(e) => document_mime(Some(e.as_str())),
        None => document_mime(None),
    }
}

/// A text with no `c` has no last `c`.
pub proof fn lemma_last_index_absent(s: Seq<char>, c: char)
    requires
        !s.contains(c),
    ensures
        last_index_of(s, c) == -1,
    decreases s.len(),
{
    if s.len() > 0 {
        assert(s.drop_last().contains(c) ==> s.contains(c)) by {
            if s.drop_last().contains(c) {
                let k = choose|k: int| 0 <= k < s.drop_last().len() && s.drop_last()[k] == c;
                assert(s[k] == c);
            }
        }
        assert(s[s.len() - 1] == s.last());
        lemma_last_index_absent(s.drop_last(), c);
    }
}

/// A bare file name is a path that every platform reads alike, and it is
/// its own last part.
pub proof fn lemma_plain_is_portable(name: Seq<char>)
    requires
        is_plain_file_name(name),
    ensures
        is_portable_path(name),
        path_base(name) == name,
{
    lemma_last_index_absent(name, '/');
    assert(name.skip(0) =~= name);
    if name.len() >= 2 && name[0] == '/' {
        assert(name.contains('/'));
    }
}

/// The MIME types the uploads use are distinct texts.
proof fn lemma_mime_texts_distinct()
    ensures
        "application/pdf"@ != "application/zip"@,
        "application/pdf"@ != "image/png"@,
        "application/pdf"@ != "image/jpeg"@,
        "application/pdf"@ != "application/octet-stream"@,
        "application/zip"@ != "image/png"@,
        "application/zip"@ != "image/jpeg"@,
        "application/zip"@ != "application/octet-stream"@,
        "image/png"@ != "image/jpeg"@,
        "image/png"@ != "application/octet-stream"@,
        "image/jpeg"@ != "application/octet-stream"@,
        "text/csv"@ != "application/pdf"@,
        "text/csv"@ != "application/zip"@,
        "text/csv"@ != "image/png"@,
        "text/csv"@ != "image/jpeg"@,
        "text/csv"@ != "application/octet-stream"@,
        "application/vnd.openxmlformats-officedocument.wordprocessingml.document"@ != "application/vnd.openxmlformats-officedocument.spreadsheetml.sheet"@,
        "application/vnd.openxmlformats-officedocument.wordprocessingml.document"@.len() > 24,
        "application/vnd.openxmlformats-officedocument.spreadsheetml.sheet"@.len() > 24,
        "application/octet-stream"@.len() == 24,
        "application/pdf"@.len() < 24 && "application/zip"@.len() < 24 && "image/png"@.len() < 24,
        "image/jpeg"@.len() < 24 && "text/csv"@.len() < 24,
{
    reveal_strlit("application/pdf");
    reveal_strlit("application/zip");
    reveal_strlit("image/png");
    reveal_strlit("image/jpeg");
    reveal_strlit("text/csv");
    reveal_strlit("application/octet-stream");
    reveal_strlit("application/vnd.openxmlformats-officedocument.wordprocessingml.document");
    reveal_strlit("application/vnd.openxmlformats-officedocument.spreadsheetml.sheet");
    assert("application/pdf"@[12] != "application/zip"@[12]);
    assert("image/png"@.len() == 9);
    assert("image/jpeg"@.len() == 10);
    assert("application/octet-stream"@.len() == 24);
    assert("application/vnd.openxmlformats-officedocument.wordprocessingml.document"@.len()
        != "application/vnd.openxmlformats-officedocument.spreadsheetml.sheet"@.len());
}

/// The extensions the MIME tables name are distinct texts.
proof fn lemma_extensions_distinct()
    ensures
        "jpg"@ != "pdf"@ && "jpg"@ != "png"@ && "jpg"@ != "zip"@ && "jpg"@ != "csv"@,
        "jpg"@ != "docx"@ && "jpg"@ != "xlsx"@,
        "jpeg"@ != "pdf"@ && "jpeg"@ != "png"@ && "jpeg"@ != "zip"@ && "jpeg"@ != "csv"@,
        "jpeg"@ != "docx"@ && "jpeg"@ != "xlsx"@,
        "png"@ != "pdf"@ && "png"@ != "docx"@ && "png"@ != "xlsx"@,
        "zip"@ != "pdf"@ && "zip"@ != "png"@ && "zip"@ != "docx"@ && "zip"@ != "xlsx"@,
        "csv"@ != "pdf"@ && "csv"@ != "png"@ && "csv"@ != "zip"@ && "csv"@ != "docx"@ && "csv"@ != "xlsx"@,
        "pdf"@ != "docx"@ && "pdf"@ != "xlsx"@,
        "docx"@ != "xlsx"@,
{
    reveal_strlit("jpg");
    reveal_strlit("jpeg");
    reveal_strlit("png");
    reveal_strlit("pdf");
    reveal_strlit("zip");
    reveal_strlit("csv");
    reveal_strlit("docx");
    reveal_strlit("xlsx");
    assert("jpg"@[0] != "pdf"@[0]);
    assert("jpg"@[0] != "png"@[0]);
    assert("jpg"@[0] != "zip"@[0]);
    assert("jpg"@[0] != "csv"@[0]);
    assert("jpeg"@[0] != "docx"@[0]);
    assert("docx"@[0] != "xlsx"@[0]);
    assert("jpeg"@[0] != "xlsx"@[0]);
    assert("png"@[1] != "pdf"@[1]);
    assert("zip"@[0] != "pdf"@[0]);
    assert("zip"@[0] != "png"@[0]);
    assert("csv"@[0] != "pdf"@[0]);
    assert("csv"@[0] != "png"@[0]);
    assert("csv"@[0] != "zip"@[0]);
}

/// The project view uploads a document under the type of its format, however
/// its extension spells it: `jpg` and `jpeg` both give `image/jpeg`, and
/// only they do; `png`, `pdf` and `zip` each give their own type, and
/// anything else (or no extension) `application/octet-stream`.
pub proof fn lemma_document_mime_by_format(e: Seq<char>)
    ensures
        (spec_document_mime(Some(e)) == "image/jpeg"@) <==> (e == "jpg"@ || e == "jpeg"@),
        (spec_document_mime(Some(e)) == "image/png"@) <==> e == "png"@,
        (spec_document_mime(Some(e)) == "application/pdf"@) <==> e == "pdf"@,
        (spec_document_mime(Some(e)) == "application/zip"@) <==> e == "zip"@,
        e != "jpg"@ && e != "jpeg"@ && e != "png"@ && e != "pdf"@ && e != "zip"@ ==> spec_document_mime(Some(e))
            == "application/octet-stream"@,
        spec_document_mime(None) == "application/octet-stream"@,
{
    lemma_mime_texts_distinct();
    lemma_extensions_distinct();
}

/// The command-line push sends a document under the type of its format,
/// however its extension spells it: `jpg` and `jpeg` both give
/// `image/jpeg`, and only they do; `png`, `pdf`, `zip`, `csv`, `docx` and
/// `xlsx` each give their own type, and anything else (or no extension)
/// `application/octet-stream`.
pub proof fn lemma_push_mime_by_format(e: Seq<char>)
    ensures
        (spec_mime_for_extension(Some(e)) == "image/jpeg"@) <==> (e == "jpg"@ || e == "jpeg"@),
        (spec_mime_for_extension(Some(e)) == "image/png"@) <==> e == "png"@,
        (spec_mime_for_extension(Some(e)) == "application/pdf"@) <==> e == "pdf"@,
        (spec_mime_for_extension(Some(e)) == "application/zip"@) <==> e == "zip"@,
        (spec_mime_for_extension(Some(e)) == "text/csv"@) <==> e == "csv"@,
        (spec_mime_for_extension(Some(e)) == "application/vnd.openxmlformats-officedocument.wordprocessingml.document"@)
            <==> e == "docx"@,
        (spec_mime_for_extension(Some(e)) == "application/vnd.openxmlformats-officedocument.spreadsheetml.sheet"@)
            <==> e == "xlsx"@,
        e != "jpg"@ && e != "jpeg"@ && e != "png"@ && e != "pdf"@ && e != "zip"@ && e != "csv"@ && e != "docx"@
            && e != "xlsx"@ ==> spec_mime_for_extension(Some(e)) == "application/octet-stream"@,
        spec_mime_for_extension(None) == "application/octet-stream"@,
{
    lemma_mime_texts_distinct();
    lemma_extensions_distinct();
}

} // verus!
