//! The two paths a conversion run needs, and the rule that guards the
//! destination: it must carry the archive extension.

use vstd::prelude::*;

use crate::error::PipelineError;
use crate::text::{ends_with, is_suffix, optional_text, same_text};

verus! {

/// The extension an archive carries, without its dot.
pub open spec fn archive_extension() -> Seq<char> {
    "zip"@
}

/// The archive extension with its dot: what a URI must end with.
pub open spec fn archive_suffix() -> Seq<char> {
    ".zip"@
}

/// A place the user picked: a path of the file system or a URI.
#[derive(Debug, PartialEq, Eq)]
pub enum SelectedPath {
    /// A path, with the extension that its last component shows, if it shows one.
    Path { text: String, extension: Option<String> },
    /// A URI.
    Url { text: String },
}

/// The characters that part a path on one platform or another: the two
/// separators, and the colon that ends a drive.
pub open spec fn parts_path(c: char) -> bool {
    c == '/' || c == '\\' || c == ':'
}

/// Whether `text` plainly ends in a file name with the extension `ext`,
/// whatever the platform: `ext` is not empty and holds neither a dot nor a
/// character that parts a path; `text` ends in a dot and `ext`; before that
/// dot stands a character of the same file name; and `text` does not begin
/// like a path with a network or device prefix, with two parting characters.
pub open spec fn shows_extension(text: Seq<char>, ext: Seq<char>) -> bool {
    &&& ext.len() > 0
    &&& forall|i: int| 0 <= i < ext.len() ==> ext[i] != '.' && !parts_path(#[trigger] ext[i])
    &&& text.len() >= ext.len() + 2
    &&& text.subrange(text.len() - ext.len(), text.len() as int) == ext
    &&& text[text.len() - ext.len() - 1] == '.'
    &&& !parts_path(text[text.len() - ext.len() - 2])
    &&& !(parts_path(text[0]) && parts_path(text[1]))
}

/// What is known of the extension read from `text`: a text without any dot
/// has none, an extension holds no dot itself, and where `text` plainly shows
/// an extension, that is the one.
pub open spec fn extension_read(text: Seq<char>, extension: Option<Seq<char>>) -> bool {
    &&& !text.contains('.') ==> extension is None
    &&& extension matches Some(e) ==> !e.contains('.')
    &&& forall|ext: Seq<char>| extension == Some(ext) || !(#[trigger] shows_extension(text, ext))
}

/// `std::path::Path::extension` of the path written as `text`: the part of the
/// file name, which is the last component, behind its final dot. A text
/// without any dot has none, and an extension holds no dot itself. Where
/// `text` plainly shows an extension, its file name is what follows the last
/// separator, is neither a prefix nor `..` and has something before its final
/// dot, so std reads that extension on every platform. For other texts the
/// answer is std's.
#[verifier::external_body]
fn path_extension(text: &str) -> (extension: Option<String>)
    ensures
        !text@.contains('.') ==> extension is None,
        extension matches Some(e) ==> !e@.contains('.'),
        forall|ext: Seq<char>|
            optional_text(extension) == Some(ext) || !(#[trigger] shows_extension(text@, ext)),
{
    std::path::Path::new(text).extension().and_then(|e| e.to_str()).map(|e| e.to_string())
}

impl Clone for SelectedPath {
    fn clone(&self) -> (copy: Self)
        ensures
            copy == *self,
    {
        match self {
            SelectedPath::Path { text, extension } => SelectedPath::Path {
                text: text.clone(),
                extension: match extension {
                    Some(e) => Some(e.clone()),
                    None => None,
                },
            },
            SelectedPath::Url { text } => SelectedPath::Url { text: text.clone() },
        }
    }
}

impl SelectedPath {
    /// What is shown for this place.
    pub open spec fn shown(self) -> Seq<char> {
        match self {
            SelectedPath::Path { text, .. } => text@,
            SelectedPath::Url { text } => text@,
        }
    }

    /// Whether this place may be the destination of an archive: a path whose
    /// extension is the archive extension, or a URI that ends with it.
    pub open spec fn has_archive_extension(self) -> bool {
        match self {
            SelectedPath::Path { extension, .. } => extension matches Some(e) && e@
                == archive_extension(),
            SelectedPath::Url { text } => is_suffix(text@, archive_suffix()),
        }
    }

    /// The extension this place carries, if it is a path that shows one.
    pub open spec fn extension_text(self) -> Option<Seq<char>> {
        match self {
            SelectedPath::Path { extension, .. } => optional_text(extension),
            SelectedPath::Url { .. } => None,
        }
    }

    /// The path written as `text`, with the extension std reads from it: the
    /// one `text` plainly shows, where it shows one.
    pub fn from_path(text: String) -> (p: SelectedPath)
        ensures
            p matches SelectedPath::Path { text: kept, .. } && kept == text,
            extension_read(text@, p.extension_text()),
    {
        let extension = path_extension(text.as_str());
        SelectedPath::Path { text, extension }
    }

    /// The URI written as `text`.
    pub fn from_url(text: String) -> (p: SelectedPath)
        ensures
            p == (SelectedPath::Url { text }),
    {
        SelectedPath::Url { text }
    }

    /// What is shown for this place.
    pub fn text(&self) -> (t: String)
        ensures
            t@ == self.shown(),
    {
        match self {
            SelectedPath::Path { text, .. } => text.clone(),
            SelectedPath::Url { text } => text.clone(),
        }
    }

    /// Whether this place may be the destination of an archive.
    pub fn carries_archive_extension(&self) -> (ok: bool)
        ensures
            ok == self.has_archive_extension(),
    {
        match self {
            SelectedPath::Path { extension, .. } => match extension {
                Some(e) => same_text(e.as_str(), "zip"),
                None => false,
            },
            SelectedPath::Url { text } => ends_with(text.as_str(), ".zip"),
        }
    }
}

/// A path that plainly shows an extension is a destination for an archive
/// exactly where that extension is the archive extension.
pub proof fn lemma_shown_extension_decides(text: Seq<char>, ext: Seq<char>, p: SelectedPath)
    requires
        p is Path,
        extension_read(text, p.extension_text()),
        shows_extension(text, ext),
    ensures
        p.has_archive_extension() <==> ext == archive_extension(),
{
    assert(p.extension_text() == Some(ext));
}

/// The paths chosen for a conversion run. Empty at first; the destination, once
/// set, always carries the archive extension.
#[derive(Debug, PartialEq, Eq)]
pub struct SelectionState {
    backup_path: Option<SelectedPath>,
    save_path: Option<SelectedPath>,
}

/// A consistent reading of the two paths.
#[derive(Debug, PartialEq, Eq)]
pub struct Snapshot {
    pub backup_path: Option<SelectedPath>,
    pub save_path: Option<SelectedPath>,
}

impl Default for SelectionState {
    fn default() -> (state: Self)
        ensures
            state.backup() is None,
            state.save() is None,
    {
        SelectionState::new()
    }
}

impl SelectionState {
    #[verifier::type_invariant]
    spec fn destination_is_archive(self) -> bool {
        self.save_path matches Some(p) ==> p.has_archive_extension()
    }

    /// The backup chosen, if any.
    pub closed spec fn backup(self) -> Option<SelectedPath> {
        self.backup_path
    }

    /// The destination chosen, if any.
    pub closed spec fn save(self) -> Option<SelectedPath> {
        self.save_path
    }

    /// A state with neither path chosen.
    pub fn new() -> (state: SelectionState)
        ensures
            state.backup() is None,
            state.save() is None,
    {
        SelectionState { backup_path: None, save_path: None }
    }

    /// Takes `path` as the backup, whatever was chosen before. The destination
    /// stays as it is.
    pub fn set_backup_path(&mut self, path: SelectedPath)
        ensures
            final(self).backup() == Some(path),
            final(self).save() == old(self).save(),
    {
        proof {
            use_type_invariant(&*self);
        }
        self.backup_path = Some(path);
    }

    /// Takes `path` as the destination if it carries the archive extension, and
    /// refuses it with `InvalidExtension` if it does not; a refusal leaves both
    /// paths as they were.
    pub fn set_save_path(&mut self, path: SelectedPath) -> (r: Result<(), PipelineError>)
        ensures
            path.has_archive_extension() ==> r is Ok && final(self).save() == Some(path),
            !path.has_archive_extension() ==> r == Err::<(), PipelineError>(
                PipelineError::InvalidExtension,
            ) && final(self).save() == old(self).save(),
            final(self).backup() == old(self).backup(),
    {
        proof {
            use_type_invariant(&*self);
        }
        if path.carries_archive_extension() {
            self.save_path = Some(path);
            Ok(())
        } else {
            Err(PipelineError::InvalidExtension)
        }
    }

    /// Both paths as they are now.
    pub fn snapshot(&self) -> (s: Snapshot)
        ensures
            s.backup_path == self.backup(),
            s.save_path == self.save(),
            s.save_path matches Some(p) ==> p.has_archive_extension(),
    {
        proof {
            use_type_invariant(self);
        }
        Snapshot {
            backup_path: match &self.backup_path {
                Some(p) => Some(p.clone()),
                None => None,
            },
            save_path: match &self.save_path {
                Some(p) => Some(p.clone()),
                None => None,
            },
        }
    }
}

} // verus!
