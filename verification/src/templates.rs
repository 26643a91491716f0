//! The text of the two kinds of resource files.

use vstd::prelude::*;
use vstd::string::*;
use crate::layout::{Binaries, BinariesView};

verus! {

/// One line of the `[entry]` section: the platform, and in quotes the
/// prefix followed by the path of the binary.
pub open spec fn entry_line(platform: Seq<char>, prefix: Seq<char>, path: Seq<char>) -> Seq<char> {
    platform + "=\""@ + prefix + path + "\"\n"@
}

/// What follows the `[entry]` section of a `.gdnlib` file.
pub open spec fn gdnlib_tail() -> Seq<char> {
    "\n[dependencies]\n\nAndroid.armeabi-v7a=[  ]\nAndroid.arm64-v8a=[  ]\nAndroid.x86=[  ]\nAndroid.x86_64=[  ]\nX11.64=[  ]\nOSX.64=[  ]\n\n[general]\n\nsingleton=false\nload_once=true\nsymbol_prefix=\"godot_\"\nreloadable=true"@
}

/// The lines of the `[entry]` section, one for each platform.
pub open spec fn gdnlib_entries(prefix: Seq<char>, binaries: BinariesView) -> Seq<char> {
    entry_line("Android.armeabi-v7a"@, prefix, binaries.android_armv7) + entry_line(
        "Android.arm64-v8a"@,
        prefix,
        binaries.android_aarch64,
    ) + entry_line("Android.x86"@, prefix, binaries.android_x86) + entry_line(
        "Android.x86_64"@,
        prefix,
        binaries.android_x86_64,
    ) + entry_line("X11.64"@, prefix, binaries.x11) + entry_line("OSX.64"@, prefix, binaries.osx)
        + entry_line("Windows.64"@, prefix, binaries.windows)
}

/// The text of a `.gdnlib` file that points to `binaries`, each path behind
/// `prefix`.
pub open spec fn gdnlib_text(prefix: Seq<char>, binaries: BinariesView) -> Seq<char> {
    "[entry]\n"@ + gdnlib_entries(prefix, binaries) + gdnlib_tail()
}

/// The text of a `.gdns` file for the class `name`, whose library is the
/// `.gdnlib` file at `prefix` followed by `gdnlib`.
pub open spec fn gdns_text(prefix: Seq<char>, gdnlib: Seq<char>, name: Seq<char>) -> Seq<char> {
    "[gd_resource type=\"NativeScript\" load_steps=2 format=2]\n\n[ext_resource path=\""@ + prefix
        + gdnlib + "\" type=\"GDNativeLibrary\" id=1]\n\n[resource]\nclass_name = \""@ + name
        + "\"\nscript_class_name = \""@ + name + "\"\nlibrary = ExtResource( 1 )\n"@
}

fn push_entry(out: &mut String, platform: &str, prefix: &str, path: &str)
    ensures
        final(out)@ == old(out)@ + entry_line(platform@, prefix@, path@),
{
    out.append(platform);
    out.append("=\"");
    out.append(prefix);
    out.append(path);
    out.append("\"\n");
    assert(out@ =~= old(out)@ + entry_line(platform@, prefix@, path@));
}

/// Renders the `.gdnlib` file that maps each platform to its binary.
pub fn generate_gdnlib(path_prefix: &str, binaries: &Binaries) -> (text: String)
    ensures
        text@ == gdnlib_text(path_prefix@, binaries@),
{
    let mut out = String::from_str("[entry]\n");
    push_entry(&mut out, "Android.armeabi-v7a", path_prefix, binaries.android_armv7.as_str());
    push_entry(&mut out, "Android.arm64-v8a", path_prefix, binaries.android_aarch64.as_str());
    push_entry(&mut out, "Android.x86", path_prefix, binaries.android_x86.as_str());
    push_entry(&mut out, "Android.x86_64", path_prefix, binaries.android_x86_64.as_str());
    push_entry(&mut out, "X11.64", path_prefix, binaries.x11.as_str());
    push_entry(&mut out, "OSX.64", path_prefix, binaries.osx.as_str());
    push_entry(&mut out, "Windows.64", path_prefix, binaries.windows.as_str());
    out.append(
        "\n[dependencies]\n\nAndroid.armeabi-v7a=[  ]\nAndroid.arm64-v8a=[  ]\nAndroid.x86=[  ]\nAndroid.x86_64=[  ]\nX11.64=[  ]\nOSX.64=[  ]\n\n[general]\n\nsingleton=false\nload_once=true\nsymbol_prefix=\"godot_\"\nreloadable=true",
    );
    assert(out@ =~= gdnlib_text(path_prefix@, binaries@));
    out
}

/// Renders the `.gdns` file that binds the class `name` to its library.
pub fn generate_gdns(path_prefix: &str, gdnlib_path: &str, name: &str) -> (text: String)
    ensures
        text@ == gdns_text(path_prefix@, gdnlib_path@, name@),
{
    let mut out = String::from_str(
        "[gd_resource type=\"NativeScript\" load_steps=2 format=2]\n\n[ext_resource path=\"",
    );
    out.append(path_prefix);
    out.append(gdnlib_path);
    out.append("\" type=\"GDNativeLibrary\" id=1]\n\n[resource]\nclass_name = \"");
    out.append(name);
    out.append("\"\nscript_class_name = \"");
    out.append(name);
    out.append("\"\nlibrary = ExtResource( 1 )\n");
    out
}

} // verus!
