use gdnative_project_utils::{BuildError, BuildMode, Classes, Environment, Generator, Plan};
use std::collections::HashMap;

fn no_environment() -> Environment {
    Environment { package_name: None, cargo_target_dir: None, out_dir_target: None, profile: None }
}

fn sync(disk: &mut HashMap<String, String>, plan: &Plan) -> usize {
    let mut written = 0;
    let mut files = vec![&plan.manifest];
    files.extend(plan.descriptors.iter());
    for file in files {
        if file.needs_writing(disk.contains_key(&file.path)) {
            disk.insert(file.path.clone(), file.content.clone());
            written += 1;
        }
    }
    written
}

#[test]
fn gdnlib_target_in_project() {
    let plan = Generator::new()
        .lib_name("generator_test")
        .target_dir("/proj/target")
        .godot_project_dir("/proj")
        .godot_resource_output_dir("/proj/native")
        .build_mode(BuildMode::Debug)
        .build(&no_environment(), &Classes::new())
        .expect("Should generate resources");

    assert_eq!(plan.output_dir, "/proj/native");
    assert_eq!(plan.manifest.path, "/proj/native/generator_test.gdnlib");
    assert!(plan.descriptors.is_empty());

    let content = plan.manifest.content;

    // check linux
    assert!(content.contains("=\"res://target/debug/libgenerator_test.so\""));
    // check android aarch64
    assert!(content.contains("=\"res://target/aarch64-linux-android/debug/libgenerator_test.so\""));
    // check windows, the path should still be with forward slashes
    assert!(content.contains("=\"res://target/debug/generator_test.dll\""));
}

#[test]
fn gdnlib_target_outside_of_project() {
    let target_dir = "/tmp/xyz/target";

    let plan = Generator::new()
        .lib_name("generator_test")
        .target_dir(target_dir)
        .godot_project_dir("/proj")
        .godot_resource_output_dir("/proj/native")
        .build_mode(BuildMode::Debug)
        .build(&no_environment(), &Classes::new())
        .expect("Should generate resources");

    assert_eq!(plan.manifest.path, "/proj/native/generator_test.gdnlib");

    let content = plan.manifest.content;

    // make sure it doesn't use `res://`
    assert!(!content.contains("res://"));

    // check linux
    assert!(content.contains(&format!("=\"{}/debug/libgenerator_test.so\"", target_dir)));
    // check android aarch64
    assert!(content.contains(&format!(
        "=\"{}/aarch64-linux-android/debug/libgenerator_test.so\"",
        target_dir
    )));
    // check windows, the path should still be with forward slashes
    assert!(content.contains(&format!("=\"{}/debug/generator_test.dll\"", target_dir)));
}

#[test]
fn gdns() {
    let names = vec!["Test".to_string(), "AnotherTest".to_string()];
    let c = Classes::from_names(&names);

    let plan = Generator::new()
        .lib_name("gdns_test")
        .build_mode(BuildMode::Debug)
        .target_dir("/proj/target")
        .godot_project_dir("/proj")
        .godot_resource_output_dir("/proj/native")
        .build(&no_environment(), &c)
        .expect("Should generate resources");

    assert_eq!(plan.descriptors.len(), 2);
    for class in names {
        let path = format!("/proj/native/{}.gdns", class);
        let file = plan.descriptors.iter().find(|f| f.path == path);
        assert!(file.is_some());

        let content = &file.unwrap().content;

        assert!(content.contains(&format!("class_name = \"{}\"", class)));
        assert!(content.contains(&format!("script_class_name = \"{}\"", class)));
    }
}

#[test]
fn gdns_exact_text() {
    let c = Classes::from_names(&vec!["Test".to_string()]);
    let plan = Generator::new()
        .lib_name("gdns_test")
        .build_mode(BuildMode::Release)
        .target_dir("/proj/target")
        .godot_project_dir("/proj")
        .build(&no_environment(), &c)
        .unwrap();
    assert_eq!(plan.output_dir, "/proj/native");
    assert_eq!(plan.descriptors[0].path, "/proj/native/Test.gdns");
    assert_eq!(
        plan.descriptors[0].content,
        "[gd_resource type=\"NativeScript\" load_steps=2 format=2]\n\n[ext_resource path=\"res://native/gdns_test.gdnlib\" type=\"GDNativeLibrary\" id=1]\n\n[resource]\nclass_name = \"Test\"\nscript_class_name = \"Test\"\nlibrary = ExtResource( 1 )\n"
    );
}

#[test]
fn gdns_refers_to_library_outside_of_project() {
    let c = Classes::from_names(&vec!["Test".to_string()]);
    let plan = Generator::new()
        .lib_name("gdns_test")
        .build_mode(BuildMode::Debug)
        .target_dir("/proj/target")
        .godot_project_dir("/proj")
        .godot_resource_output_dir("/elsewhere/native")
        .build(&no_environment(), &c)
        .unwrap();
    assert!(plan.descriptors[0]
        .content
        .contains("[ext_resource path=\"/elsewhere/native/gdns_test.gdnlib\" type"));
}

#[test]
fn gdnlib_exact_text() {
    let plan = Generator::new()
        .lib_name("my-lib")
        .target_dir("/proj/target")
        .godot_project_dir("/proj")
        .build_mode(BuildMode::Release)
        .build(&no_environment(), &Classes::new())
        .unwrap();
    assert_eq!(plan.manifest.path, "/proj/native/my-lib.gdnlib");
    let expected = "[entry]\n\
Android.armeabi-v7a=\"res://target/armv7-linux-androideabi/release/libmy_lib.so\"\n\
Android.arm64-v8a=\"res://target/aarch64-linux-android/release/libmy_lib.so\"\n\
Android.x86=\"res://target/i686-linux-android/release/libmy_lib.so\"\n\
Android.x86_64=\"res://target/x86_64-linux-android/release/libmy_lib.so\"\n\
X11.64=\"res://target/release/libmy_lib.so\"\n\
OSX.64=\"res://target/release/libmy_lib.dylib\"\n\
Windows.64=\"res://target/release/my_lib.dll\"\n\
\n\
[dependencies]\n\
\n\
Android.armeabi-v7a=[  ]\n\
Android.arm64-v8a=[  ]\n\
Android.x86=[  ]\n\
Android.x86_64=[  ]\n\
X11.64=[  ]\n\
OSX.64=[  ]\n\
\n\
[general]\n\
\n\
singleton=false\n\
load_once=true\n\
symbol_prefix=\"godot_\"\n\
reloadable=true";
    assert_eq!(plan.manifest.content, expected);
}

#[test]
fn settings_fall_back_on_the_environment() {
    let environment = Environment {
        package_name: Some("from-env".to_string()),
        cargo_target_dir: Some("/proj/build".to_string()),
        out_dir_target: Some("/proj/other".to_string()),
        profile: Some("release".to_string()),
    };
    let layout = Generator::new().godot_project_dir("/proj").resolve(&environment).unwrap();
    assert_eq!(layout.lib_name, "from-env");
    assert_eq!(layout.target_dir, "/proj/build");
    assert_eq!(layout.godot_resource_output_dir, "/proj/native");
    assert_eq!(layout.godot_project_dir, "/proj");
    assert_eq!(layout.build_mode, BuildMode::Release);

    let given = Generator::new()
        .godot_project_dir("/proj")
        .lib_name("given")
        .target_dir("/proj/target")
        .build_mode(BuildMode::Debug)
        .resolve(&environment)
        .unwrap();
    assert_eq!(given.lib_name, "given");
    assert_eq!(given.target_dir, "/proj/target");
    assert_eq!(given.build_mode, BuildMode::Debug);

    let second = Environment {
        package_name: Some("from-env".to_string()),
        cargo_target_dir: None,
        out_dir_target: Some("/proj/other".to_string()),
        profile: Some("debug".to_string()),
    };
    let layout = Generator::new().godot_project_dir("/proj").resolve(&second).unwrap();
    assert_eq!(layout.target_dir, "/proj/other");
    assert_eq!(layout.build_mode, BuildMode::Debug);
}

#[test]
fn missing_settings_are_reported_in_order() {
    let full = || Environment {
        package_name: Some("lib".to_string()),
        cargo_target_dir: Some("/proj/target".to_string()),
        out_dir_target: None,
        profile: Some("debug".to_string()),
    };
    let classes = Classes::new();

    let r = Generator::new().build(&no_environment(), &classes);
    assert_eq!(r.err(), Some(BuildError::MissingLibName));

    let r = Generator::new().lib_name("lib").build(&no_environment(), &classes);
    assert_eq!(r.err(), Some(BuildError::MissingProjectDir));

    let r = Generator::new().build(&full(), &classes);
    assert_eq!(r.err(), Some(BuildError::MissingProjectDir));

    let r = Generator::new().lib_name("lib").godot_project_dir("/proj").build(&no_environment(), &classes);
    assert_eq!(r.err(), Some(BuildError::MissingTargetDir));

    let r = Generator::new()
        .lib_name("lib")
        .godot_project_dir("/proj")
        .target_dir("/proj/target")
        .build(&no_environment(), &classes);
    assert_eq!(r.err(), Some(BuildError::MissingBuildMode));

    let mut unknown = full();
    unknown.profile = Some("bench".to_string());
    let r = Generator::new().godot_project_dir("/proj").build(&unknown, &classes);
    assert_eq!(r.err(), Some(BuildError::MissingBuildMode));

    let r = Generator::new()
        .lib_name("lib")
        .godot_project_dir("/proj")
        .target_dir("relative/target")
        .build_mode(BuildMode::Debug)
        .build(&no_environment(), &classes);
    assert_eq!(r.err(), Some(BuildError::NoRelativePath));

    assert!(Generator::new().godot_project_dir("/proj").build(&full(), &classes).is_ok());
}

#[test]
fn with_setters_set_one_field_each() {
    let mut builder = Generator::new();
    assert!(builder.godot_project_dir.is_none());
    assert!(builder.godot_resource_output_dir.is_none());
    assert!(builder.target_dir.is_none());
    assert!(builder.lib_name.is_none());
    assert!(builder.build_mode.is_none());
    builder.with_godot_project_dir("/a");
    assert_eq!(builder.godot_project_dir.as_deref(), Some("/a"));
    assert!(builder.godot_resource_output_dir.is_none());
    builder.with_godot_resource_output_dir("/b");
    builder.with_target_dir("/c");
    builder.with_lib_name("d");
    builder.with_build_mode(BuildMode::Release);
    assert_eq!(builder.godot_project_dir.as_deref(), Some("/a"));
    assert_eq!(builder.godot_resource_output_dir.as_deref(), Some("/b"));
    assert_eq!(builder.target_dir.as_deref(), Some("/c"));
    assert_eq!(builder.lib_name.as_deref(), Some("d"));
    assert_eq!(builder.build_mode, Some(BuildMode::Release));
    let fresh = Generator::default();
    assert!(fresh.lib_name.is_none() && fresh.build_mode.is_none());
}

#[test]
fn generation_is_idempotent() {
    let c = Classes::from_names(&vec!["Test".to_string(), "AnotherTest".to_string()]);
    let build = || {
        Generator::new()
            .lib_name("gdns_test")
            .build_mode(BuildMode::Debug)
            .target_dir("/proj/target")
            .godot_project_dir("/proj")
            .build(&no_environment(), &c)
            .unwrap()
    };
    let mut disk: HashMap<String, String> = HashMap::new();
    disk.insert("/proj/native/Test.gdns".to_string(), "edited by hand".to_string());

    assert_eq!(sync(&mut disk, &build()), 2);
    let after_first = disk.clone();
    assert_eq!(sync(&mut disk, &build()), 0);
    assert_eq!(disk, after_first);
    assert_eq!(disk["/proj/native/Test.gdns"], "edited by hand");
    assert!(disk["/proj/native/AnotherTest.gdns"].contains("class_name = \"AnotherTest\""));
    assert!(disk.contains_key("/proj/native/gdns_test.gdnlib"));
}

#[test]
fn only_missing_files_are_written() {
    let plan = Generator::new()
        .lib_name("lib")
        .build_mode(BuildMode::Debug)
        .target_dir("/proj/target")
        .godot_project_dir("/proj")
        .build(&no_environment(), &Classes::new())
        .unwrap();
    assert!(plan.manifest.needs_writing(false));
    assert!(!plan.manifest.needs_writing(true));
}
