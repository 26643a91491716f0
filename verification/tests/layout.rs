use gdnative_project_utils::layout::{
    common_binary_outputs, escapes_root, join, normalize_lib_name, relativize,
};
use gdnative_project_utils::generate::parse_profile;
use gdnative_project_utils::templates::{generate_gdnlib, generate_gdns};
use gdnative_project_utils::BuildMode;

#[test]
fn hyphens_become_underscores() {
    let binaries = common_binary_outputs("target", BuildMode::Debug, "my-lib");
    assert_eq!(binaries.x11, "target/debug/libmy_lib.so");
    assert_eq!(binaries.osx, "target/debug/libmy_lib.dylib");
    assert_eq!(binaries.windows, "target/debug/my_lib.dll");
    assert_eq!(normalize_lib_name("a-b-c_d"), "a_b_c_d");
    assert_eq!(normalize_lib_name(""), "");
    assert_eq!(normalize_lib_name("-"), "_");
}

#[test]
fn binaries_for_each_platform() {
    let binaries = common_binary_outputs("/out", BuildMode::Release, "game");
    assert_eq!(binaries.x11, "/out/release/libgame.so");
    assert_eq!(binaries.osx, "/out/release/libgame.dylib");
    assert_eq!(binaries.windows, "/out/release/game.dll");
    assert_eq!(binaries.android_armv7, "/out/armv7-linux-androideabi/release/libgame.so");
    assert_eq!(binaries.android_aarch64, "/out/aarch64-linux-android/release/libgame.so");
    assert_eq!(binaries.android_x86, "/out/i686-linux-android/release/libgame.so");
    assert_eq!(binaries.android_x86_64, "/out/x86_64-linux-android/release/libgame.so");
    let here = common_binary_outputs("", BuildMode::Debug, "game");
    assert_eq!(here.x11, "debug/libgame.so");
    assert_eq!(here.android_x86, "i686-linux-android/debug/libgame.so");
}

#[test]
fn joining_paths() {
    assert_eq!(join("a", "b"), "a/b");
    assert_eq!(join("a/", "b"), "a/b");
    assert_eq!(join("", "b"), "b");
    assert_eq!(join("/", "b"), "/b");
    assert_eq!(join("a", "/b"), "/b");
    assert_eq!(join("a", ""), "a/");
    assert_eq!(join("", ""), "");
}

#[test]
fn joining_agrees_with_the_platform() {
    for (base, part) in [("a", "b"), ("a/", "b"), ("", "b"), ("/", "b"), ("a", "/b"), ("a", "")] {
        let expected = std::path::Path::new(base).join(part);
        assert_eq!(join(base, part), expected.to_string_lossy());
    }
}

#[test]
fn build_mode_directories() {
    assert_eq!(BuildMode::Debug.dir(), "debug");
    assert_eq!(BuildMode::Release.dir(), "release");
    assert_eq!(parse_profile("debug"), Some(BuildMode::Debug));
    assert_eq!(parse_profile("release"), Some(BuildMode::Release));
    assert_eq!(parse_profile("Release"), None);
    assert_eq!(parse_profile(""), None);
}

#[test]
fn paths_inside_the_project_are_relative() {
    let (prefix, path) = relativize("/proj/target", "/proj").unwrap();
    assert_eq!(prefix, "res://");
    assert_eq!(path, "target");
    assert!(!path.split('/').any(|part| part == ".."));

    let (prefix, path) = relativize("/proj/a/b/c.gdnlib", "/proj").unwrap();
    assert_eq!(prefix, "res://");
    assert_eq!(path, "a/b/c.gdnlib");

    let (prefix, path) = relativize("/proj", "/proj").unwrap();
    assert_eq!(prefix, "res://");
    assert_eq!(path, "");
}

#[test]
fn paths_outside_the_project_are_absolute() {
    let (prefix, path) = relativize("/tmp/xyz/target", "/proj").unwrap();
    assert_eq!(prefix, "");
    assert_eq!(path, "/tmp/xyz/target");

    let (prefix, path) = relativize("/", "/proj").unwrap();
    assert_eq!(prefix, "");
    assert_eq!(path, "/");

    let (prefix, path) = relativize("/projects", "/proj").unwrap();
    assert_eq!(prefix, "");
    assert_eq!(path, "/projects");
}

#[test]
fn paths_that_cannot_be_related() {
    assert!(relativize("relative", "/proj").is_none());
    assert!(relativize("a/b", "../c").is_none());
    let (prefix, path) = relativize("/abs", "relative").unwrap();
    assert_eq!(prefix, "res://");
    assert_eq!(path, "/abs");
}

#[test]
fn stepping_up_is_recognised() {
    assert!(escapes_root(".."));
    assert!(escapes_root("../"));
    assert!(escapes_root("../a"));
    assert!(!escapes_root("..a"));
    assert!(!escapes_root("."));
    assert!(!escapes_root(""));
    assert!(!escapes_root("a/../b"));
    assert!(!escapes_root("./.."));
}

#[test]
fn resource_texts() {
    let binaries = common_binary_outputs("t", BuildMode::Debug, "l");
    let text = generate_gdnlib("res://", &binaries);
    assert!(text.starts_with("[entry]\nAndroid.armeabi-v7a=\"res://t/armv7-linux-androideabi/debug/libl.so\"\n"));
    assert!(text.contains("\nWindows.64=\"res://t/debug/l.dll\"\n\n[dependencies]\n\nAndroid.armeabi-v7a=[  ]\n"));
    assert!(text.ends_with("OSX.64=[  ]\n\n[general]\n\nsingleton=false\nload_once=true\nsymbol_prefix=\"godot_\"\nreloadable=true"));
    assert_eq!(
        generate_gdns("", "/x/l.gdnlib", "Player"),
        "[gd_resource type=\"NativeScript\" load_steps=2 format=2]\n\n[ext_resource path=\"/x/l.gdnlib\" type=\"GDNativeLibrary\" id=1]\n\n[resource]\nclass_name = \"Player\"\nscript_class_name = \"Player\"\nlibrary = ExtResource( 1 )\n"
    );
}
