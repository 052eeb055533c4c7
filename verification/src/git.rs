//! Parsing and formatting for the repository metadata files: the pointer-file
//! redirect, the head reference, the resolved ref, and the short identifier
//! shown in the prompt. Every distinguishable failure carries its own tag so
//! that callers and diagnostics can tell the kinds apart.

use vstd::prelude::*;
use vstd::string::*;

use crate::SHORT_ID_LEN;
use crate::paths::file_name;
use crate::paths::file_name_spec;
use crate::text::has_prefix;
use crate::text::strip_prefix;
use crate::text::take_chars;
use crate::text::trim;
use crate::text::trim_spec;

verus! {

/// One tag per distinguishable way the repository probe can fail. All of
/// these are ordinary outcomes for a prompt, never reasons to abort.
#[derive(Clone, Copy, Debug, PartialEq, Eq, Structural)]
pub enum GitError {
    /// The working directory could not be determined.
    NoCwd,
    /// The working directory could not be canonicalized.
    CanonicalCwd,
    /// The marker was a pointer file but could not be read.
    ReadGitFile,
    /// The head file could not be read.
    ReadHead,
    /// No ancestor directory holds a repository marker.
    NotGitRepo,
    /// A pointer file did not carry the expected redirect prefix.
    UnexpectedGitContent,
    /// The referenced branch file could not be read.
    ReadRef,
    /// The symbolic reference path has no final segment to use as a name.
    NoRefName,
    /// The revision identifier holds fewer characters than the display width.
    IdTooShort,
}

/// The wording of each failure, for diagnostic output.
pub open spec fn git_error_message_spec(e: GitError) -> Seq<char> {
    match e {
        GitError::NoCwd => "failed to get cwd"@,
        GitError::CanonicalCwd => "failed to canonicalize cwd"@,
        GitError::ReadGitFile => "failed to read .git file"@,
        GitError::ReadHead => "failed to read git HEAD"@,
        GitError::NotGitRepo => "not a git repo"@,
        GitError::UnexpectedGitContent => "unexpected git content"@,
        GitError::ReadRef => "failed to read ref"@,
        GitError::NoRefName => "failed to get ref name"@,
        GitError::IdTooShort => "revision id too short"@,
    }
}

impl GitError {
    /// A short description of the failure, for diagnostic output.
    pub fn message(&self) -> (r: &'static str)
        ensures
            r@ == git_error_message_spec(*self),
    {
        match self {
            GitError::NoCwd => "failed to get cwd",
            GitError::CanonicalCwd => "failed to canonicalize cwd",
            GitError::ReadGitFile => "failed to read .git file",
            GitError::ReadHead => "failed to read git HEAD",
            GitError::NotGitRepo => "not a git repo",
            GitError::UnexpectedGitContent => "unexpected git content",
            GitError::ReadRef => "failed to read ref",
            GitError::NoRefName => "failed to get ref name",
            GitError::IdTooShort => "revision id too short",
        }
    }
}

/// The view of a `Result` carrying an owned string.
pub open spec fn res_view(r: Result<String, GitError>) -> Result<Seq<char>, GitError> {
    match r {
        Ok(s) => Ok(s@),
        Err(e) => Err(e),
    }
}

/// The view of an optional string slice.
pub open spec fn opt_ref_view(r: Option<&str>) -> Option<Seq<char>> {
    match r {
        Some(s) => Some(s@),
        None => None,
    }
}

/// The decoded content of the head file.
pub enum HeadDescriptor {
    /// A pointer to a ref file, as a path relative to the metadata directory.
    Symbolic(String),
    /// A raw revision identifier.
    Detached(String),
}

/// The mathematical shape of a head descriptor.
pub ghost enum HeadModel {
    Symbolic(Seq<char>),
    Detached(Seq<char>),
}

impl View for HeadDescriptor {
    type V = HeadModel;

    open spec fn view(&self) -> HeadModel {
        match self {
            HeadDescriptor::Symbolic(p) => HeadModel::Symbolic(p@),
            HeadDescriptor::Detached(id) => HeadModel::Detached(id@),
        }
    }
}

/// The literal prefix of a pointer-file redirect.
pub open spec fn redirect_prefix() -> Seq<char> {
    "gitdir: "@
}

/// The literal prefix of a symbolic head reference.
pub open spec fn ref_prefix() -> Seq<char> {
    "ref: "@
}

/// What a pointer file's content resolves to: the redirect target with its
/// surrounding whitespace trimmed, or a format violation when the fixed
/// prefix is absent.
pub open spec fn parse_redirect_spec(c: Seq<char>) -> Result<Seq<char>, GitError> {
    if has_prefix(c, redirect_prefix()) {
        Ok(trim_spec(c.skip(redirect_prefix().len() as int)))
    } else {
        Err(GitError::UnexpectedGitContent)
    }
}

/// Parse the content of a pointer file. Succeeds exactly when the content
/// starts with the redirect prefix; anything else is a format violation,
/// distinct from every read failure.
pub fn parse_redirect(content: &str) -> (r: Result<String, GitError>)
    ensures
        res_view(r) == parse_redirect_spec(content@),
{
    match strip_prefix(content, "gitdir: ") {
        Some(rest) => Ok(String::from_str(trim(rest))),
        None => Err(GitError::UnexpectedGitContent),
    }
}

/// How head content is classified: a symbolic reference when the symbolic
/// prefix is present, otherwise a detached raw identifier; both trimmed.
pub open spec fn classify_head_spec(c: Seq<char>) -> HeadModel {
    if has_prefix(c, ref_prefix()) {
        HeadModel::Symbolic(trim_spec(c.skip(ref_prefix().len() as int)))
    } else {
        HeadModel::Detached(trim_spec(c))
    }
}

/// Classify the content of the head file.
pub fn classify_head(content: &str) -> (r: HeadDescriptor)
    ensures
        r@ == classify_head_spec(content@),
{
    match strip_prefix(content, "ref: ") {
        Some(rest) => HeadDescriptor::Symbolic(String::from_str(trim(rest))),
        None => HeadDescriptor::Detached(String::from_str(trim(content))),
    }
}

/// The raw revision identifier held in a ref file: its content trimmed.
pub fn resolve_ref_content(content: &str) -> (r: String)
    ensures
        r@ == trim_spec(content@),
{
    String::from_str(trim(content))
}

/// The display name of a symbolic reference: the file-name component of its
/// path (trailing separators ignored), or a structural failure when the path
/// ends in the parent component or has no component at all.
pub open spec fn ref_name_spec(path: Seq<char>) -> Result<Seq<char>, GitError> {
    match file_name_spec(path) {
        Some(n) => Ok(n),
        None => Err(GitError::NoRefName),
    }
}

/// Extract the display name from a symbolic reference path.
pub fn ref_display_name(ref_path: &str) -> (r: Result<String, GitError>)
    ensures
        res_view(r) == ref_name_spec(ref_path@),
{
    match file_name(ref_path) {
        Some(seg) => Ok(String::from_str(seg)),
        None => Err(GitError::NoRefName),
    }
}

/// The short display form of a revision: the name (when present), a space,
/// and the first `SHORT_ID_LEN` characters of the identifier; an identifier
/// with fewer characters is a reportable failure, never truncated output.
pub open spec fn format_identity_spec(name: Option<Seq<char>>, id: Seq<char>) -> Result<
    Seq<char>,
    GitError,
> {
    if id.len() < SHORT_ID_LEN {
        Err(GitError::IdTooShort)
    } else {
        match name {
            Some(n) => Ok(n + seq![' '] + id.take(SHORT_ID_LEN as int)),
            None => Ok(id.take(SHORT_ID_LEN as int)),
        }
    }
}

/// Combine the optional symbolic name with the short identifier.
pub fn format_identity(name: Option<&str>, id: &str) -> (r: Result<String, GitError>)
    ensures
        res_view(r) == format_identity_spec(opt_ref_view(name), id@),
{
    if id.unicode_len() < SHORT_ID_LEN {
        Err(GitError::IdTooShort)
    } else {
        let short = take_chars(id, SHORT_ID_LEN);
        match name {
            Some(n) => {
                let mut r = String::from_str(n);
                r.append(" ");
                r.append(short);
                proof {
                    reveal_strlit(" ");
                    assert(" "@ =~= seq![' ']);
                }
                Ok(r)
            },
            None => Ok(String::from_str(short)),
        }
    }
}

} // verus!
