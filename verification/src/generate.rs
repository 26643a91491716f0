//! From the settings of a project to the resource files it needs.

use vstd::prelude::*;
use vstd::string::*;
use crate::classes::{same_text, Classes};
use crate::layout::{
    binary_paths, common_binary_outputs, join, joined, relativize, relativized, text_of,
    BuildMode,
};
use crate::templates::{generate_gdnlib, generate_gdns, gdnlib_text, gdns_text};

verus! {

/// A builder type that holds all necessary information about the project to
/// generate files in all the right places.
///
/// The directories it is given are taken as they are: a caller that wants
/// them resolved against the file system hands them over in canonical form,
/// and leaves out one that cannot be resolved.
#[derive(Clone, Debug)]
pub struct Builder {
    pub godot_project_dir: Option<String>,
    pub godot_resource_output_dir: Option<String>,
    pub target_dir: Option<String>,
    pub lib_name: Option<String>,
    pub build_mode: Option<BuildMode>,
}

/// The settings of a `Builder`, as plain text.
pub struct BuilderView {
    pub godot_project_dir: Option<Seq<char>>,
    pub godot_resource_output_dir: Option<Seq<char>>,
    pub target_dir: Option<Seq<char>>,
    pub lib_name: Option<Seq<char>>,
    pub build_mode: Option<BuildMode>,
}

impl View for Builder {
    type V = BuilderView;

    open spec fn view(&self) -> BuilderView {
        BuilderView {
            godot_project_dir: text_of(self.godot_project_dir),
            godot_resource_output_dir: text_of(self.godot_resource_output_dir),
            target_dir: text_of(self.target_dir),
            lib_name: text_of(self.lib_name),
            build_mode: self.build_mode,
        }
    }
}

/// What the surroundings of a build offer where a setting was not given.
#[derive(Clone, Debug)]
pub struct Environment {
    /// The name of the package that is being built.
    pub package_name: Option<String>,
    /// The target directory that the build was told to use, in canonical form.
    pub cargo_target_dir: Option<String>,
    /// The target directory as found from the build script's output
    /// directory, four levels above it, in canonical form.
    pub out_dir_target: Option<String>,
    /// The name of the profile that is being built.
    pub profile: Option<String>,
}

/// An `Environment`, as plain text.
pub struct EnvironmentView {
    pub package_name: Option<Seq<char>>,
    pub cargo_target_dir: Option<Seq<char>>,
    pub out_dir_target: Option<Seq<char>>,
    pub profile: Option<Seq<char>>,
}

impl View for Environment {
    type V = EnvironmentView;

    open spec fn view(&self) -> EnvironmentView {
        EnvironmentView {
            package_name: text_of(self.package_name),
            cargo_target_dir: text_of(self.cargo_target_dir),
            out_dir_target: text_of(self.out_dir_target),
            profile: text_of(self.profile),
        }
    }
}

/// Why no files can be planned.
#[derive(Copy, Clone, Debug, PartialEq, Eq, Structural)]
pub enum BuildError {
    /// Package name not given and unable to find.
    MissingLibName,
    /// Godot project dir not given.
    MissingProjectDir,
    /// Target dir not given and unable to find.
    MissingTargetDir,
    /// Build mode not given and unable to find.
    MissingBuildMode,
    /// Unable to create relative path between Godot project and library output.
    NoRelativePath,
}

/// The settings of a project with nothing left open.
#[derive(Clone, Debug)]
pub struct ProjectLayout {
    pub godot_project_dir: String,
    pub godot_resource_output_dir: String,
    pub target_dir: String,
    pub lib_name: String,
    pub build_mode: BuildMode,
}

/// A `ProjectLayout`, as plain text.
pub struct ProjectLayoutView {
    pub godot_project_dir: Seq<char>,
    pub godot_resource_output_dir: Seq<char>,
    pub target_dir: Seq<char>,
    pub lib_name: Seq<char>,
    pub build_mode: BuildMode,
}

impl View for ProjectLayout {
    type V = ProjectLayoutView;

    open spec fn view(&self) -> ProjectLayoutView {
        ProjectLayoutView {
            godot_project_dir: self.godot_project_dir@,
            godot_resource_output_dir: self.godot_resource_output_dir@,
            target_dir: self.target_dir@,
            lib_name: self.lib_name@,
            build_mode: self.build_mode,
        }
    }
}

/// A file that a project needs, with the text to give it where it is missing.
#[derive(Clone, Debug)]
pub struct OutputFile {
    pub path: String,
    pub content: String,
}

/// An `OutputFile`, as plain text.
pub struct OutputFileView {
    pub path: Seq<char>,
    pub content: Seq<char>,
}

impl View for OutputFile {
    type V = OutputFileView;

    open spec fn view(&self) -> OutputFileView {
        OutputFileView { path: self.path@, content: self.content@ }
    }
}

/// The files that a project needs: the directory that holds them, the
/// `.gdnlib` file of the library and a `.gdns` file for each class.
#[derive(Clone, Debug)]
pub struct Plan {
    pub output_dir: String,
    pub manifest: OutputFile,
    pub descriptors: Vec<OutputFile>,
}

/// A `Plan`, as plain text.
pub struct PlanView {
    pub output_dir: Seq<char>,
    pub manifest: OutputFileView,
    pub descriptors: Seq<OutputFileView>,
}

impl View for Plan {
    type V = PlanView;

    open spec fn view(&self) -> PlanView {
        PlanView {
            output_dir: self.output_dir@,
            manifest: self.manifest@,
            descriptors: Seq::new(self.descriptors@.len(), |i: int| self.descriptors@[i]@),
        }
    }
}

impl PlanView {
    /// The files in the order in which they are written: the `.gdnlib`
    /// file, then the `.gdns` files.
    pub open spec fn files(self) -> Seq<OutputFileView> {
        seq![self.manifest] + self.descriptors
    }
}

/// The build mode that a profile's name stands for.
pub open spec fn profile_mode(profile: Seq<char>) -> Option<BuildMode> {
    if profile == "release"@ {
        Some(BuildMode::Release)
    } else if profile == "debug"@ {
        Some(BuildMode::Debug)
    } else {
        None
    }
}

/// The build mode that a profile's name stands for: `release` or `debug`.
pub fn parse_profile(profile: &str) -> (r: Option<BuildMode>)
    ensures
        r == profile_mode(profile@),
{
    if same_text(profile, "release") {
        Some(BuildMode::Release)
    } else if same_text(profile, "debug") {
        Some(BuildMode::Debug)
    } else {
        None
    }
}

/// The first of the values that is given.
pub open spec fn or_else<T>(first: Option<T>, second: Option<T>) -> Option<T> {
    if first is Some {
        first
    } else {
        second
    }
}

/// The library name that the settings and the surroundings give.
pub open spec fn resolved_lib_name(s: BuilderView, e: EnvironmentView) -> Option<Seq<char>> {
    or_else(s.lib_name, e.package_name)
}

/// The target directory that the settings and the surroundings give.
pub open spec fn resolved_target_dir(s: BuilderView, e: EnvironmentView) -> Option<Seq<char>> {
    or_else(s.target_dir, or_else(e.cargo_target_dir, e.out_dir_target))
}

/// The build mode that the settings and the surroundings give.
pub open spec fn resolved_build_mode(s: BuilderView, e: EnvironmentView) -> Option<BuildMode> {
    or_else(
        s.build_mode,
        match e.profile {
            Some(profile) => profile_mode(profile),
            None => None,
        },
    )
}

/// The layout that the settings and the surroundings give. A setting that
/// was given wins; the library name falls back on the package name, the
/// target directory on the one the build was told to use and then on the
/// one found from the output directory, the build mode on the profile, and
/// the resource directory on `native` below the project. The project
/// directory has no fallback. What is missing is reported in the order:
/// library name, project directory, target directory, build mode.
pub open spec fn resolved(s: BuilderView, e: EnvironmentView) -> Result<
    ProjectLayoutView,
    BuildError,
> {
    if resolved_lib_name(s, e) is None {
        Err(BuildError::MissingLibName)
    } else if s.godot_project_dir is None {
        Err(BuildError::MissingProjectDir)
    } else if resolved_target_dir(s, e) is None {
        Err(BuildError::MissingTargetDir)
    } else if resolved_build_mode(s, e) is None {
        Err(BuildError::MissingBuildMode)
    } else {
        Ok(
            ProjectLayoutView {
                godot_project_dir: s.godot_project_dir->0,
                godot_resource_output_dir: match s.godot_resource_output_dir {
                    Some(dir) => dir,
                    None => joined(s.godot_project_dir->0, "native"@),
                },
                target_dir: resolved_target_dir(s, e)->0,
                lib_name: resolved_lib_name(s, e)->0,
                build_mode: resolved_build_mode(s, e)->0,
            },
        )
    }
}

/// Where the `.gdnlib` file of the library lies.
pub open spec fn manifest_path(l: ProjectLayoutView) -> Seq<char> {
    joined(l.godot_resource_output_dir, l.lib_name + ".gdnlib"@)
}

/// Where the `.gdns` file of the class `name` lies.
pub open spec fn descriptor_path(l: ProjectLayoutView, name: Seq<char>) -> Seq<char> {
    joined(l.godot_resource_output_dir, name + ".gdns"@)
}

/// The `.gdns` file of the class `name`, which refers to its library by
/// `prefix` and `path`.
pub open spec fn descriptor(
    l: ProjectLayoutView,
    library: (Seq<char>, Seq<char>),
    name: Seq<char>,
) -> OutputFileView {
    OutputFileView {
        path: descriptor_path(l, name),
        content: gdns_text(library.0, library.1, name),
    }
}

/// The files that a project with layout `l` and the classes `names` needs.
///
/// The `.gdnlib` file names the binaries below the target directory, the
/// `.gdns` files name the `.gdnlib` file; both as seen from the project
/// directory. There is no plan where one of the two cannot be seen from it.
pub open spec fn planned(l: ProjectLayoutView, names: Seq<Seq<char>>) -> Result<
    PlanView,
    BuildError,
> {
    match relativized(l.target_dir, l.godot_project_dir) {
        None => Err(BuildError::NoRelativePath),
        Some(target) => match relativized(manifest_path(l), l.godot_project_dir) {
            None => Err(BuildError::NoRelativePath),
            Some(library) => Ok(
                PlanView {
                    output_dir: l.godot_resource_output_dir,
                    manifest: OutputFileView {
                        path: manifest_path(l),
                        content: gdnlib_text(
                            target.0,
                            binary_paths(target.1, l.build_mode, l.lib_name),
                        ),
                    },
                    descriptors: Seq::new(names.len(), |i: int| descriptor(l, library, names[i])),
                },
            ),
        },
    }
}

/// What `build` gives for these settings, surroundings and classes.
pub open spec fn built(s: BuilderView, e: EnvironmentView, names: Seq<Seq<char>>) -> Result<
    PlanView,
    BuildError,
> {
    match resolved(s, e) {
        Err(error) => Err(error),
        Ok(layout) => planned(layout, names),
    }
}

/// Whether `r` is the outcome `expected`, as plain text.
pub open spec fn plan_is(r: Result<Plan, BuildError>, expected: Result<PlanView, BuildError>) -> bool {
    match expected {
        Ok(plan) => r is Ok && r->Ok_0@ == plan,
        Err(error) => r == Err::<Plan, BuildError>(error),
    }
}

impl ProjectLayout {
    /// Plans the `.gdnlib` file of the library and a `.gdns` file for each
    /// of the classes, in their order.
    pub fn plan(&self, classes: &Classes) -> (r: Result<Plan, BuildError>)
        ensures
            plan_is(r, planned(self@, classes.order())),
    {
        let output_dir = self.godot_resource_output_dir.as_str();
        let project_dir = self.godot_project_dir.as_str();
        let manifest_name = self.lib_name.clone().concat(".gdnlib");
        let gdnlib_path = join(output_dir, manifest_name.as_str());
        let target = match relativize(self.target_dir.as_str(), project_dir) {
            None => {
                return Err(BuildError::NoRelativePath);
            },
            Some(target) => target,
        };
        let binaries = common_binary_outputs(
            target.1.as_str(),
            self.build_mode,
            self.lib_name.as_str(),
        );
        let gdnlib = generate_gdnlib(target.0.as_str(), &binaries);
        let library = match relativize(gdnlib_path.as_str(), project_dir) {
            None => {
                return Err(BuildError::NoRelativePath);
            },
            Some(library) => library,
        };
        let ghost names = classes.order();
        let ghost reference = (library.0@, library.1@);
        let mut descriptors: Vec<OutputFile> = Vec::new();
        let n: usize = classes.len();
        let mut i: usize = 0;
        while i < n
            invariant
                i <= n,
                n == names.len(),
                names == classes.order(),
                reference == (library.0@, library.1@),
                output_dir@ == self@.godot_resource_output_dir,
                descriptors@.len() == i,
                forall|k: int|
                    0 <= k < i ==> (#[trigger] descriptors@[k])@ == descriptor(
                        self@,
                        reference,
                        names[k],
                    ),
            decreases n - i,
        {
            let name = classes.name(i);
            let file_name = String::from_str(name).concat(".gdns");
            let path = join(output_dir, file_name.as_str());
            let content = generate_gdns(library.0.as_str(), library.1.as_str(), name);
            descriptors.push(OutputFile { path, content });
            i = i + 1;
        }
        let plan = Plan {
            output_dir: self.godot_resource_output_dir.clone(),
            manifest: OutputFile { path: gdnlib_path, content: gdnlib },
            descriptors,
        };
        assert(plan@.descriptors =~= Seq::new(
            names.len(),
            |i: int| descriptor(self@, reference, names[i]),
        ));
        Ok(plan)
    }
}

impl Builder {
    /// Construct a new Builder.
    pub fn new() -> (r: Self)
        ensures
            r@ == (BuilderView {
                godot_project_dir: None,
                godot_resource_output_dir: None,
                target_dir: None,
                lib_name: None,
                build_mode: None,
            }),
    {
        Builder {
            godot_project_dir: None,
            godot_resource_output_dir: None,
            target_dir: None,
            lib_name: None,
            build_mode: None,
        }
    }

    /// **REQUIRED** Set the path to the root of the Godot project.
    pub fn with_godot_project_dir(&mut self, dir: &str)
        ensures
            final(self)@ == (BuilderView { godot_project_dir: Some(dir@), ..old(self)@ }),
    {
        self.godot_project_dir = Some(String::from_str(dir));
    }

    /// **REQUIRED** Set the path to the root of the Godot project.
    pub fn godot_project_dir(self, dir: &str) -> (r: Self)
        ensures
            r@ == (BuilderView { godot_project_dir: Some(dir@), ..self@ }),
    {
        let mut builder = self;
        builder.with_godot_project_dir(dir);
        builder
    }

    /// Set the path to the directory inside the Godot project to which the
    /// generates files should be saved.
    pub fn with_godot_resource_output_dir(&mut self, dir: &str)
        ensures
            final(self)@ == (BuilderView { godot_resource_output_dir: Some(dir@), ..old(self)@ }),
    {
        self.godot_resource_output_dir = Some(String::from_str(dir));
    }

    /// Set the path to the directory inside the Godot project to which the
    /// generates files should be saved.
    pub fn godot_resource_output_dir(self, dir: &str) -> (r: Self)
        ensures
            r@ == (BuilderView { godot_resource_output_dir: Some(dir@), ..self@ }),
    {
        let mut builder = self;
        builder.with_godot_resource_output_dir(dir);
        builder
    }

    /// Set the path to the `target` directory in which cargo creates build
    /// artefacts.
    pub fn with_target_dir(&mut self, dir: &str)
        ensures
            final(self)@ == (BuilderView { target_dir: Some(dir@), ..old(self)@ }),
    {
        self.target_dir = Some(String::from_str(dir));
    }

    /// Set the path to the `target` directory in which cargo creates build
    /// artefacts.
    pub fn target_dir(self, dir: &str) -> (r: Self)
        ensures
            r@ == (BuilderView { target_dir: Some(dir@), ..self@ }),
    {
        let mut builder = self;
        builder.with_target_dir(dir);
        builder
    }

    /// Set the name of the crate.
    pub fn with_lib_name(&mut self, name: &str)
        ensures
            final(self)@ == (BuilderView { lib_name: Some(name@), ..old(self)@ }),
    {
        self.lib_name = Some(String::from_str(name));
    }

    /// Set the name of the crate.
    pub fn lib_name(self, name: &str) -> (r: Self)
        ensures
            r@ == (BuilderView { lib_name: Some(name@), ..self@ }),
    {
        let mut builder = self;
        builder.with_lib_name(name);
        builder
    }

    /// Set the build mode of the crate.
    ///
    /// This will affect the path the `gdnlib` resource points to.
    pub fn with_build_mode(&mut self, mode: BuildMode)
        ensures
            final(self)@ == (BuilderView { build_mode: Some(mode), ..old(self)@ }),
    {
        self.build_mode = Some(mode);
    }

    /// Set the build mode of the crate.
    ///
    /// This will affect the path the `gdnlib` resource points to.
    pub fn build_mode(self, mode: BuildMode) -> (r: Self)
        ensures
            r@ == (BuilderView { build_mode: Some(mode), ..self@ }),
    {
        let mut builder = self;
        builder.with_build_mode(mode);
        builder
    }

    /// Settles every setting, from what was given and what the
    /// surroundings offer, or says which one is missing.
    pub fn resolve(self, environment: &Environment) -> (r: Result<ProjectLayout, BuildError>)
        ensures
            match resolved(self@, environment@) {
                Ok(layout) => r is Ok && r->Ok_0@ == layout,
                Err(error) => r == Err::<ProjectLayout, BuildError>(error),
            },
    {
        let lib_name = match self.lib_name {
            Some(name) => name,
            None => match &environment.package_name {
                Some(name) => name.clone(),
                None => {
                    return Err(BuildError::MissingLibName);
                },
            },
        };
        let godot_project_dir = match self.godot_project_dir {
            Some(dir) => dir,
            None => {
                return Err(BuildError::MissingProjectDir);
            },
        };
        let godot_resource_output_dir = match self.godot_resource_output_dir {
            Some(dir) => dir,
            None => join(godot_project_dir.as_str(), "native"),
        };
        let target_dir = match self.target_dir {
            Some(dir) => dir,
            None => match &environment.cargo_target_dir {
                Some(dir) => dir.clone(),
                None => match &environment.out_dir_target {
                    Some(dir) => dir.clone(),
                    None => {
                        return Err(BuildError::MissingTargetDir);
                    },
                },
            },
        };
        let build_mode = match self.build_mode {
            Some(mode) => mode,
            None => {
                let found = match &environment.profile {
                    Some(profile) => parse_profile(profile.as_str()),
                    None => None,
                };
                match found {
                    Some(mode) => mode,
                    None => {
                        return Err(BuildError::MissingBuildMode);
                    },
                }
            },
        };
        Ok(
            ProjectLayout {
                godot_project_dir,
                godot_resource_output_dir,
                target_dir,
                lib_name,
                build_mode,
            },
        )
    }

    /// Plans the files for the crate and all `classes`: settles the
    /// settings, then plans the `.gdnlib` file and a `.gdns` file for each
    /// class. Nothing is written: the plan says what a project needs, and
    /// `OutputFile::needs_writing` says which of it to write.
    pub fn build(self, environment: &Environment, classes: &Classes) -> (r: Result<
        Plan,
        BuildError,
    >)
        ensures
            plan_is(r, built(self@, environment@, classes.order())),
    {
        match self.resolve(environment) {
            Err(error) => Err(error),
            Ok(layout) => layout.plan(classes),
        }
    }
}

impl Default for Builder {
    fn default() -> (r: Self)
        ensures
            r@ == (BuilderView {
                godot_project_dir: None,
                godot_resource_output_dir: None,
                target_dir: None,
                lib_name: None,
                build_mode: None,
            }),
    {
        Builder::new()
    }
}

/// What is on disk: the text of each file, by its path.
pub type Disk = Map<Seq<char>, Seq<char>>;

/// The disk after `file` was brought to it: a file that is there stays as
/// it is, one that is missing is written.
pub open spec fn written(disk: Disk, file: OutputFileView) -> Disk {
    if disk.dom().contains(file.path) {
        disk
    } else {
        disk.insert(file.path, file.content)
    }
}

/// The disk after each of `files` was brought to it, in their order.
pub open spec fn synced(disk: Disk, files: Seq<OutputFileView>) -> Disk
    decreases files.len(),
{
    if files.len() == 0 {
        disk
    } else {
        written(synced(disk, files.drop_last()), files.last())
    }
}

impl OutputFile {
    /// Whether the file is to be written, given whether a file is already
    /// at its path: only a missing file is written, so that what a user
    /// changed in a file stays.
    pub fn needs_writing(&self, present: bool) -> (r: bool)
        ensures
            r == !present,
            forall|disk: Disk|
                disk.dom().contains(self@.path) == present ==> #[trigger] written(disk, self@) == (
                if r {
                    disk.insert(self@.path, self@.content)
                } else {
                    disk
                }),
    {
        !present
    }
}

/// Bringing files to a disk changes no file that is there, and leaves each
/// of the files there.
pub proof fn lemma_synced_keeps(disk: Disk, files: Seq<OutputFileView>)
    ensures
        forall|path: Seq<char>|
            disk.dom().contains(path) ==> #[trigger] synced(disk, files).dom().contains(path)
                && synced(disk, files)[path] == disk[path],
        forall|i: int|
            0 <= i < files.len() ==> synced(disk, files).dom().contains((#[trigger] files[i]).path),
    decreases files.len(),
{
    if files.len() > 0 {
        lemma_synced_keeps(disk, files.drop_last());
        assert forall|path: Seq<char>| disk.dom().contains(path) implies #[trigger] synced(
            disk,
            files,
        ).dom().contains(path) && synced(disk, files)[path] == disk[path] by {
            assert(synced(disk, files.drop_last()).dom().contains(path));
        }
        assert forall|i: int| 0 <= i < files.len() implies synced(disk, files).dom().contains(
            (#[trigger] files[i]).path,
        ) by {
            if i < files.len() - 1 {
                assert(files.drop_last()[i] == files[i]);
            }
        }
    }
}

/// Bringing files to a disk that holds all of them changes nothing.
pub proof fn lemma_synced_present(disk: Disk, files: Seq<OutputFileView>)
    requires
        forall|i: int| 0 <= i < files.len() ==> disk.dom().contains((#[trigger] files[i]).path),
    ensures
        synced(disk, files) == disk,
    decreases files.len(),
{
    if files.len() > 0 {
        assert forall|i: int| 0 <= i < files.len() - 1 implies disk.dom().contains(
            (#[trigger] files.drop_last()[i]).path,
        ) by {
            assert(files.drop_last()[i] == files[i]);
        }
        lemma_synced_present(disk, files.drop_last());
        assert(disk.dom().contains(files[files.len() - 1].path));
    }
}

/// Generation is idempotent: to bring the same files to the disk a second
/// time changes nothing, whatever was on the disk before the first time.
pub proof fn lemma_sync_idempotent(disk: Disk, files: Seq<OutputFileView>)
    ensures
        synced(synced(disk, files), files) == synced(disk, files),
{
    lemma_synced_keeps(disk, files);
    lemma_synced_present(synced(disk, files), files);
}

/// Two builds from the same settings, surroundings and classes plan the
/// same files, and the second leaves the disk as the first left it.
pub proof fn lemma_build_idempotent(
    s: BuilderView,
    e: EnvironmentView,
    names: Seq<Seq<char>>,
    disk: Disk,
)
    requires
        built(s, e, names) is Ok,
    ensures
        ({
            let files = built(s, e, names)->Ok_0.files();
            synced(synced(disk, files), files) == synced(disk, files)
        }),
{
    lemma_sync_idempotent(disk, built(s, e, names)->Ok_0.files());
}

} // verus!
