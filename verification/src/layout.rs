//! Where the launcher keeps its files inside the portable directory.
//!
//! A [`PortablePath`] names a file as a root directory followed by the parts
//! that are joined onto it in order; turning it into an operating-system path
//! is a plain fold of `Path::join` over the parts.

use vstd::prelude::*;
use crate::text::push_str;

verus! {

/// A root directory and the parts joined onto it, in order.
pub struct PortablePath {
    pub root: String,
    pub parts: Vec<String>,
}

/// A portable path as plain text: the root and each part.
pub struct PathView {
    pub root: Seq<char>,
    pub parts: Seq<Seq<char>>,
}

impl View for PortablePath {
    type V = PathView;

    open spec fn view(&self) -> PathView {
        PathView { root: self.root@, parts: self.parts@.map_values(|p: String| p@) }
    }
}

/// The name of the configuration file inside the portable directory.
pub open spec fn config_file_name() -> Seq<char> {
    "config.json"@
}

/// The name of the configuration file while it is being written.
pub open spec fn config_partial_name() -> Seq<char> {
    "config.json.partial"@
}

/// The log file, relative to the portable directory.
pub open spec fn log_file_name() -> Seq<char> {
    "logs/launcher.log"@
}

/// The directory that holds model files.
pub open spec fn models_dir_name() -> Seq<char> {
    "models"@
}

/// The directory that holds runtime binaries.
pub open spec fn runtimes_dir_name() -> Seq<char> {
    "runtimes"@
}

pub(crate) fn owned(s: &str) -> (r: String)
    ensures
        r@ == s@,
{
    let mut out = String::new();
    push_str(&mut out, s);
    out
}

fn under(base: &str, parts: Vec<String>) -> (r: PortablePath)
    ensures
        r.root@ == base@,
        r.parts == parts,
{
    PortablePath { root: owned(base), parts }
}

/// `base` followed by one part.
pub open spec fn joined1(base: Seq<char>, a: Seq<char>) -> PathView {
    PathView { root: base, parts: seq![a] }
}

/// `base` followed by two parts.
pub open spec fn joined2(base: Seq<char>, a: Seq<char>, b: Seq<char>) -> PathView {
    PathView { root: base, parts: seq![a, b] }
}

fn one_part(base: &str, a: &str) -> (r: PortablePath)
    ensures
        r@ == joined1(base@, a@),
{
    let mut parts: Vec<String> = Vec::new();
    parts.push(owned(a));
    let r = under(base, parts);
    assert(r@.parts =~= seq![a@]);
    r
}

pub(crate) fn two_parts(base: &str, a: &str, b: &str) -> (r: PortablePath)
    ensures
        r@ == joined2(base@, a@, b@),
{
    let mut parts: Vec<String> = Vec::new();
    parts.push(owned(a));
    parts.push(owned(b));
    let r = under(base, parts);
    assert(r@.parts =~= seq![a@, b@]);
    r
}

/// The saved setup choice: `<base>/config.json`.
pub fn config_path(base: &str) -> (r: PortablePath)
    ensures
        r@ == joined1(base@, config_file_name()),
{
    one_part(base, "config.json")
}

/// Where the setup choice is written before it replaces the saved one:
/// `<base>/config.json.partial`.
pub fn config_partial_path(base: &str) -> (r: PortablePath)
    ensures
        r@ == joined1(base@, config_partial_name()),
{
    one_part(base, "config.json.partial")
}

/// The operational log: `<base>/logs/launcher.log`.
pub fn log_path(base: &str) -> (r: PortablePath)
    ensures
        r@ == joined1(base@, log_file_name()),
{
    one_part(base, "logs/launcher.log")
}

/// `Path::is_absolute` on the text of a path.
///
/// Whether a path is absolute depends on the platform (a leading `/` is
/// absolute on Unix, a drive or UNC prefix is needed on Windows), so only
/// the case that holds on every platform is stated: text that starts with
/// neither `/` nor `\` and holds no `:` is relative.
#[verifier::external_body]
fn path_is_absolute(p: &str) -> (r: bool)
    ensures
        (p@.len() == 0 || (p@[0] != '/' && p@[0] != '\\' && !p@.contains(':'))) ==> !r,
{
    std::path::Path::new(p).is_absolute()
}

/// The manifest path given whether the given manifest path is absolute: an
/// absolute one stands alone, a relative one is taken inside `base`.
pub fn resolve_manifest_with(base: &str, manifest: &str, manifest_is_absolute: bool) -> (r:
    PortablePath)
    ensures
        r@ == (if manifest_is_absolute {
            PathView { root: manifest@, parts: Seq::empty() }
        } else {
            joined1(base@, manifest@)
        }),
{
    if manifest_is_absolute {
        let r = under(manifest, Vec::new());
        assert(r@.parts =~= Seq::<Seq<char>>::empty());
        r
    } else {
        one_part(base, manifest)
    }
}

/// The manifest path: `manifest` itself when it is absolute, otherwise
/// `manifest` inside the portable directory.
pub fn resolve_manifest(base: &str, manifest: &str) -> (r: PortablePath)
    ensures
        r@ == joined1(base@, manifest@) || r@ == (PathView {
            root: manifest@,
            parts: Seq::empty(),
        }),
        (manifest@.len() == 0 || (manifest@[0] != '/' && manifest@[0] != '\\' && !manifest@.contains(
            ':',
        ))) ==> r@ == joined1(base@, manifest@),
{
    let absolute = path_is_absolute(manifest);
    resolve_manifest_with(base, manifest, absolute)
}

/// The file a model is stored in: `<base>/models/<filename>`.
pub fn model_path(filename: &str, base: &str) -> (r: PortablePath)
    ensures
        r@ == joined2(base@, models_dir_name(), filename@),
{
    two_parts(base, "models", filename)
}

/// Which companion file of a model is meant.
#[derive(Clone, Copy, Debug, PartialEq, Eq, Structural)]
pub enum Companion {
    /// The download in progress.
    Partial,
    /// The lock that keeps two launchers from writing the same model.
    Lock,
}

/// The last part of a companion file's name.
pub open spec fn companion_label(kind: Companion) -> Seq<char> {
    match kind {
        Companion::Partial => "partial"@,
        Companion::Lock => "lock"@,
    }
}

/// The name of a companion file for a model file name, given whether the
/// name has an extension: the name followed by `.partial` or `.lock`, with
/// `.download` in between when the name has no extension.
pub open spec fn companion_name(filename: Seq<char>, has_extension: bool, kind: Companion) -> Seq<
    char,
> {
    if has_extension {
        filename + "."@ + companion_label(kind)
    } else {
        filename + ".download."@ + companion_label(kind)
    }
}

/// A bare file name that has an extension on every platform: no separator,
/// no `:`, not `..`, and a `.` after its first character.
pub open spec fn plainly_has_extension(filename: Seq<char>) -> bool {
    &&& !filename.contains('/')
    &&& !filename.contains('\\')
    &&& !filename.contains(':')
    &&& filename != ".."@
    &&& exists|i: int| 0 < i < filename.len() && filename[i] == '.'
}

/// `Path::extension(...).is_some()` for a model file name.
///
/// The file name is the text after the last separator, and which characters
/// separate depends on the platform; two cases hold on every platform and
/// are stated: a name with no `.` has no extension, and a name with no
/// separator, no `:` and a `.` after its first character, other than `..`,
/// has one.
#[verifier::external_body]
fn has_extension(filename: &str) -> (r: bool)
    ensures
        !filename@.contains('.') ==> !r,
        plainly_has_extension(filename@) ==> r,
{
    std::path::Path::new(filename).extension().is_some()
}

/// The companion file name, given whether the model file name has an
/// extension.
pub fn companion_name_with(filename: &str, has_ext: bool, kind: Companion) -> (r: String)
    ensures
        r@ == companion_name(filename@, has_ext, kind),
{
    let mut out = owned(filename);
    if has_ext {
        push_str(&mut out, ".");
    } else {
        push_str(&mut out, ".download.");
    }
    match kind {
        Companion::Partial => push_str(&mut out, "partial"),
        Companion::Lock => push_str(&mut out, "lock"),
    }
    out
}

/// A companion file of a model: `<base>/models/<companion name>`.
pub fn companion_path(filename: &str, base: &str, kind: Companion) -> (r: PortablePath)
    ensures
        r@ == joined2(base@, models_dir_name(), companion_name(filename@, true, kind)) || r@
            == joined2(base@, models_dir_name(), companion_name(filename@, false, kind)),
        !filename@.contains('.') ==> r@ == joined2(
            base@,
            models_dir_name(),
            companion_name(filename@, false, kind),
        ),
        plainly_has_extension(filename@) ==> r@ == joined2(
            base@,
            models_dir_name(),
            companion_name(filename@, true, kind),
        ),
{
    let ext = has_extension(filename);
    let name = companion_name_with(filename, ext, kind);
    two_parts(base, "models", name.as_str())
}

/// The partial download of a model.
pub fn partial_path(filename: &str, base: &str) -> (r: PortablePath)
    ensures
        r@ == joined2(base@, models_dir_name(), companion_name(filename@, true, Companion::Partial))
            || r@ == joined2(
            base@,
            models_dir_name(),
            companion_name(filename@, false, Companion::Partial),
        ),
        !filename@.contains('.') ==> r@ == joined2(
            base@,
            models_dir_name(),
            companion_name(filename@, false, Companion::Partial),
        ),
        plainly_has_extension(filename@) ==> r@ == joined2(
            base@,
            models_dir_name(),
            companion_name(filename@, true, Companion::Partial),
        ),
{
    companion_path(filename, base, Companion::Partial)
}

/// The per-model lock file.
pub fn lock_path(filename: &str, base: &str) -> (r: PortablePath)
    ensures
        r@ == joined2(base@, models_dir_name(), companion_name(filename@, true, Companion::Lock))
            || r@ == joined2(
            base@,
            models_dir_name(),
            companion_name(filename@, false, Companion::Lock),
        ),
        !filename@.contains('.') ==> r@ == joined2(
            base@,
            models_dir_name(),
            companion_name(filename@, false, Companion::Lock),
        ),
        plainly_has_extension(filename@) ==> r@ == joined2(
            base@,
            models_dir_name(),
            companion_name(filename@, true, Companion::Lock),
        ),
{
    companion_path(filename, base, Companion::Lock)
}

/// The partial download and the lock are never the model file itself, nor
/// each other: removing a partial download or a lock never removes a model.
pub proof fn companions_differ_from_model(filename: Seq<char>, has_ext_partial: bool, has_ext_lock: bool)
    ensures
        companion_name(filename, has_ext_partial, Companion::Partial) != filename,
        companion_name(filename, has_ext_lock, Companion::Lock) != filename,
        companion_name(filename, has_ext_partial, Companion::Partial) != companion_name(
            filename,
            has_ext_lock,
            Companion::Lock,
        ),
{
    reveal_strlit(".");
    reveal_strlit(".download.");
    reveal_strlit("partial");
    reveal_strlit("lock");
    let p = companion_name(filename, has_ext_partial, Companion::Partial);
    let l = companion_name(filename, has_ext_lock, Companion::Lock);
    assert(p.len() > filename.len());
    assert(l.len() > filename.len());
    if p == l {
        // Both end with their label; compare the last characters.
        assert(p[p.len() - 1] == 'l');
        assert(l[l.len() - 1] == 'k');
    }
}

} // verus!
