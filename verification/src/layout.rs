//! Where build artefacts lie, and how a resource file refers to them.
//!
//! Paths are held as text. Every path that ends up in a resource file is in
//! slash form, whatever the separator of the machine.

use vstd::prelude::*;
use vstd::string::*;

verus! {

/// Build mode of the crate
#[derive(Copy, Clone, Debug, PartialEq, Eq, Structural)]
pub enum BuildMode {
    Debug,
    Release,
}

impl BuildMode {
    /// The directory below the target directory that holds this mode's artefacts.
    pub open spec fn dir_name(self) -> Seq<char> {
        match self {
            BuildMode::Debug => "debug"@,
            BuildMode::Release => "release"@,
        }
    }

    /// The directory below the target directory that holds this mode's artefacts.
    pub fn dir(self) -> (r: &'static str)
        ensures
            r@ == self.dir_name(),
    {
        match self {
            BuildMode::Debug => "debug",
            BuildMode::Release => "release",
        }
    }
}

/// `base` extended by `part`: an absolute `part` stands alone, and a slash
/// is put between the two unless `base` is empty or ends in one.
pub open spec fn joined(base: Seq<char>, part: Seq<char>) -> Seq<char> {
    if part.len() > 0 && part[0] == '/' {
        part
    } else if base.len() > 0 && base.last() != '/' {
        base + seq!['/'] + part
    } else {
        base + part
    }
}

/// Extends the slash path `base` by `part`.
pub fn join(base: &str, part: &str) -> (r: String)
    ensures
        r@ == joined(base@, part@),
{
    let part_len: usize = part.unicode_len();
    if part_len > 0 && part.get_char(0) == '/' {
        return String::from_str(part);
    }
    let base_len: usize = base.unicode_len();
    let mut out = String::from_str(base);
    if base_len > 0 && base.get_char(base_len - 1) != '/' {
        proof {
            reveal_strlit("/");
            assert("/"@ =~= seq!['/']);
        }
        out.append("/");
    }
    out.append(part);
    out
}

/// `name` with every hyphen replaced by an underscore, as the compiler
/// names the artefact of a crate.
pub open spec fn underscored(name: Seq<char>) -> Seq<char> {
    Seq::new(name.len(), |i: int| if name[i] == '-' { '_' } else { name[i] })
}

/// A normalised library name is as long as the name and holds no hyphen:
/// each hyphen became an underscore, and every other character stayed.
pub proof fn lemma_underscored_has_no_hyphen(name: Seq<char>)
    ensures
        underscored(name).len() == name.len(),
        forall|i: int|
            0 <= i < name.len() ==> {
                &&& (#[trigger] underscored(name)[i]) != '-'
                &&& name[i] == '-' ==> underscored(name)[i] == '_'
                &&& name[i] != '-' ==> underscored(name)[i] == name[i]
            },
{
}

/// Replaces every hyphen of a library name by an underscore.
pub fn normalize_lib_name(name: &str) -> (r: String)
    ensures
        r@ == underscored(name@),
{
    let n: usize = name.unicode_len();
    let mut out = String::new();
    let mut i: usize = 0;
    while i < n
        invariant
            i <= n,
            n == name@.len(),
            out@ == underscored(name@.subrange(0, i as int)),
        decreases n - i,
    {
        if name.get_char(i) == '-' {
            proof {
                reveal_strlit("_");
                assert("_"@ =~= seq!['_']);
            }
            out.append("_");
        } else {
            out.append(name.substring_char(i, i + 1));
        }
        assert(out@ =~= underscored(name@.subrange(0, i + 1)));
        i = i + 1;
    }
    assert(name@.subrange(0, n as int) =~= name@);
    out
}

/// File name of the shared object that Linux and Android load.
pub open spec fn shared_object_name(name: Seq<char>) -> Seq<char> {
    "lib"@ + underscored(name) + ".so"@
}

/// File name of the dynamic library that macOS loads.
pub open spec fn dylib_name(name: Seq<char>) -> Seq<char> {
    "lib"@ + underscored(name) + ".dylib"@
}

/// File name of the library that Windows loads.
pub open spec fn dll_name(name: Seq<char>) -> Seq<char> {
    underscored(name) + ".dll"@
}

/// Path of an artefact built for the host: target directory, mode, file.
pub open spec fn host_binary(target: Seq<char>, mode: BuildMode, file: Seq<char>) -> Seq<char> {
    joined(joined(target, mode.dir_name()), file)
}

/// Path of an artefact built for another target: target directory, target
/// triple, mode, file.
pub open spec fn cross_binary(
    target: Seq<char>,
    triple: Seq<char>,
    mode: BuildMode,
    file: Seq<char>,
) -> Seq<char> {
    joined(joined(joined(target, triple), mode.dir_name()), file)
}

/// The binary of the library for each platform that Godot can load it on.
#[derive(Clone, Debug)]
pub struct Binaries {
    pub x11: String,
    pub osx: String,
    pub windows: String,
    pub android_aarch64: String,
    pub android_armv7: String,
    pub android_x86: String,
    pub android_x86_64: String,
}

/// The paths of a `Binaries` value, as plain text.
pub struct BinariesView {
    pub x11: Seq<char>,
    pub osx: Seq<char>,
    pub windows: Seq<char>,
    pub android_aarch64: Seq<char>,
    pub android_armv7: Seq<char>,
    pub android_x86: Seq<char>,
    pub android_x86_64: Seq<char>,
}

impl View for Binaries {
    type V = BinariesView;

    open spec fn view(&self) -> BinariesView {
        BinariesView {
            x11: self.x11@,
            osx: self.osx@,
            windows: self.windows@,
            android_aarch64: self.android_aarch64@,
            android_armv7: self.android_armv7@,
            android_x86: self.android_x86@,
            android_x86_64: self.android_x86_64@,
        }
    }
}

/// The binaries of library `name`, built in `mode` below `target`: for the
/// host platforms directly below the mode's directory, for Android below
/// the directory of the target triple.
pub open spec fn binary_paths(target: Seq<char>, mode: BuildMode, name: Seq<char>) -> BinariesView {
    BinariesView {
        x11: host_binary(target, mode, shared_object_name(name)),
        osx: host_binary(target, mode, dylib_name(name)),
        windows: host_binary(target, mode, dll_name(name)),
        android_aarch64: cross_binary(
            target,
            "aarch64-linux-android"@,
            mode,
            shared_object_name(name),
        ),
        android_armv7: cross_binary(
            target,
            "armv7-linux-androideabi"@,
            mode,
            shared_object_name(name),
        ),
        android_x86: cross_binary(target, "i686-linux-android"@, mode, shared_object_name(name)),
        android_x86_64: cross_binary(
            target,
            "x86_64-linux-android"@,
            mode,
            shared_object_name(name),
        ),
    }
}

fn host_path(target: &str, mode: BuildMode, file: &str) -> (r: String)
    ensures
        r@ == host_binary(target@, mode, file@),
{
    let dir = join(target, mode.dir());
    join(dir.as_str(), file)
}

fn cross_path(target: &str, triple: &str, mode: BuildMode, file: &str) -> (r: String)
    ensures
        r@ == cross_binary(target@, triple@, mode, file@),
{
    let root = join(target, triple);
    let dir = join(root.as_str(), mode.dir());
    join(dir.as_str(), file)
}

/// The paths of the library's binaries below `target`, for each platform.
pub fn common_binary_outputs(target: &str, mode: BuildMode, name: &str) -> (b: Binaries)
    ensures
        b@ == binary_paths(target@, mode, name@),
{
    let name = normalize_lib_name(name);
    let so = String::from_str("lib").concat(name.as_str()).concat(".so");
    let dylib = String::from_str("lib").concat(name.as_str()).concat(".dylib");
    let dll = name.concat(".dll");
    Binaries {
        x11: host_path(target, mode, so.as_str()),
        osx: host_path(target, mode, dylib.as_str()),
        windows: host_path(target, mode, dll.as_str()),
        android_armv7: cross_path(target, "armv7-linux-androideabi", mode, so.as_str()),
        android_aarch64: cross_path(target, "aarch64-linux-android", mode, so.as_str()),
        android_x86: cross_path(target, "i686-linux-android", mode, so.as_str()),
        android_x86_64: cross_path(target, "x86_64-linux-android", mode, so.as_str()),
    }
}

/// The relative path that `pathdiff::diff_paths` gives from `base` to
/// `path`, both read in the path syntax that the library is built for.
pub uninterp spec fn relative_path_text(path: Seq<char>, base: Seq<char>) -> Option<Seq<char>>;

/// The slash form that `path_slash::PathExt::to_slash_lossy` gives of
/// `path`, read in the path syntax that the library is built for.
pub uninterp spec fn slash_path_text(path: Seq<char>) -> Seq<char>;

/// The text that an optional string holds.
pub open spec fn text_of(s: Option<String>) -> Option<Seq<char>> {
    match s {
        Some(s) => Some(s@),
        None => None,
    }
}

/// Calls `pathdiff::diff_paths` on two paths given as text. The contract
/// only gives the outcome its name: nothing is claimed of what the relative
/// path looks like, nor of when there is none.
#[verifier::external_body]
fn diff_paths(path: &str, base: &str) -> (r: Option<String>)
    ensures
        text_of(r) == relative_path_text(path@, base@),
{
    let rel = pathdiff::diff_paths(std::path::Path::new(path), std::path::Path::new(base))?;
    Some(rel.to_string_lossy().into_owned())
}

/// Calls `path_slash::PathExt::to_slash_lossy` on a path given as text. The
/// contract only gives the outcome its name.
#[verifier::external_body]
fn to_slash(path: &str) -> (r: String)
    ensures
        r@ == slash_path_text(path@),
{
    path_slash::PathExt::to_slash_lossy(std::path::Path::new(path))
}

/// Whether a relative path starts by stepping up to the parent directory.
pub open spec fn leaves_root(rel: Seq<char>) -> bool {
    &&& rel.len() >= 2
    &&& rel[0] == '.'
    &&& rel[1] == '.'
    &&& (rel.len() == 2 || rel[2] == '/')
}

/// Whether the relative path `rel` starts by stepping up to the parent
/// directory, so that what it names lies outside the directory it starts at.
pub fn escapes_root(rel: &str) -> (r: bool)
    ensures
        r == leaves_root(rel@),
{
    let n: usize = rel.unicode_len();
    n >= 2 && rel.get_char(0) == '.' && rel.get_char(1) == '.' && (n == 2 || rel.get_char(2)
        == '/')
}

/// Prefix and path by which a resource file refers to `base` from a project
/// rooted at `against`: `res://` and the relative path where `base` lies
/// inside the project, no prefix and `base` itself where it does not; the
/// path in slash form either way. `None` where no relative path exists.
pub open spec fn relativized(base: Seq<char>, against: Seq<char>) -> Option<
    (Seq<char>, Seq<char>),
> {
    match relative_path_text(base, against) {
        None => None,
        Some(rel) => if leaves_root(rel) {
            Some((Seq::<char>::empty(), slash_path_text(base)))
        } else {
            Some(("res://"@, slash_path_text(rel)))
        },
    }
}

/// How a resource file refers to `base` from a project rooted at `against`.
pub fn relativize(base: &str, against: &str) -> (r: Option<(String, String)>)
    ensures
        match relativized(base@, against@) {
            None => r.is_none(),
            Some(pair) => r.is_some() && r.unwrap().0@ == pair.0 && r.unwrap().1@ == pair.1,
        },
{
    match diff_paths(base, against) {
        None => None,
        Some(rel) => {
            if escapes_root(rel.as_str()) {
                Some((String::new(), to_slash(base)))
            } else {
                Some((String::from_str("res://"), to_slash(rel.as_str())))
            }
        },
    }
}

/// A reference is one of two things. Where the relative path from the
/// project to `base` stays inside the project, the reference has the prefix
/// `res://` and is that relative path, which does not start by stepping up
/// to the parent directory. Where it leaves the project, the reference has
/// no prefix and is `base` itself. Either way the path is in slash form.
pub proof fn lemma_relativized_inside_or_outside(base: Seq<char>, against: Seq<char>)
    ensures
        relativized(base, against) is None <==> relative_path_text(base, against) is None,
        relativized(base, against) matches Some(reference) ==> {
            let rel = relative_path_text(base, against)->0;
            if leaves_root(rel) {
                reference.0.len() == 0 && reference.1 == slash_path_text(base)
            } else {
                reference.0 == "res://"@ && reference.0.len() == 6 && reference.1
                    == slash_path_text(rel)
            }
        },
{
    reveal_strlit("res://");
}

} // verus!
