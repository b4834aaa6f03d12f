//! The build systems the agent knows, how each is recognised and which
//! commands set up, build, lint and test a project with it.

use vstd::prelude::*;
use crate::text::{append_str, contains_chars, contains_seq, from_chars, to_chars};
use crate::utils::paths::{is_absolute, is_absolute_path, join_path, path_join};

verus! {

/// The commands of a build system, each as its program and arguments.
#[derive(Debug, Clone)]
pub struct Buildcommand {
    pub setup: Vec<String>,
    pub build: Vec<String>,
    pub lint: Vec<String>,
    pub test: Vec<String>,
}

/// The words of a command.
pub open spec fn words(v: Seq<String>) -> Seq<Seq<char>> {
    Seq::new(v.len(), |i: int| v[i]@)
}

/// What the commands hold.
pub struct BuildcommandView {
    pub setup: Seq<Seq<char>>,
    pub build: Seq<Seq<char>>,
    pub lint: Seq<Seq<char>>,
    pub test: Seq<Seq<char>>,
}

impl View for Buildcommand {
    type V = BuildcommandView;

    open spec fn view(&self) -> BuildcommandView {
        BuildcommandView {
            setup: words(self.setup@),
            build: words(self.build@),
            lint: words(self.lint@),
            test: words(self.test@),
        }
    }
}

impl Default for Buildcommand {
    /// No commands at all.
    fn default() -> (r: Self)
        ensures
            r.setup@.len() == 0,
            r.build@.len() == 0,
            r.lint@.len() == 0,
            r.test@.len() == 0,
    {
        Buildcommand { setup: Vec::new(), build: Vec::new(), lint: Vec::new(), test: Vec::new() }
    }
}

impl Buildcommand {
    /// The given commands.
    pub fn new(setup: Vec<String>, build: Vec<String>, lint: Vec<String>, test: Vec<String>) -> (r: Self)
        ensures
            r == (Buildcommand { setup, build, lint, test }),
    {
        Self { setup, build, lint, test }
    }
}

/// A build system; `Unknown` when none is recognised (its name is `None`).
#[derive(Debug, Clone, Copy, PartialEq, Eq, Structural)]
pub enum Buildsystem {
    Unknown,
    Cargo,
    Cmake,
    Just,
    Make,
    Maven,
    Meson,
}

/// The name of a build system.
pub open spec fn buildsystem_name(b: Buildsystem) -> Seq<char> {
    match b {
        Buildsystem::Unknown => "None"@,
        Buildsystem::Cargo => "Cargo"@,
        Buildsystem::Cmake => "Cmake"@,
        Buildsystem::Just => "Just"@,
        Buildsystem::Make => "Make"@,
        Buildsystem::Maven => "Maven"@,
        Buildsystem::Meson => "Meson"@,
    }
}

/// All build systems, in the order in which they are listed.
pub open spec fn all_buildsystems() -> Seq<Buildsystem> {
    seq![
        Buildsystem::Unknown,
        Buildsystem::Cargo,
        Buildsystem::Cmake,
        Buildsystem::Just,
        Buildsystem::Make,
        Buildsystem::Maven,
        Buildsystem::Meson,
    ]
}

/// The directory a build system builds into by default.
pub open spec fn default_builddir(b: Buildsystem) -> Seq<char> {
    match b {
        Buildsystem::Unknown => "."@,
        Buildsystem::Cargo => "target"@,
        Buildsystem::Cmake => "build"@,
        Buildsystem::Just => "target"@,
        Buildsystem::Make => "build"@,
        Buildsystem::Maven => "target"@,
        Buildsystem::Meson => "build"@,
    }
}

/// The text `s` in lower case, as `str::to_lowercase` gives it (Unicode
/// lower-case mapping of each character).
pub uninterp spec fn lower_text(s: Seq<char>) -> Seq<char>;

/// Lower-cases a string (`str::to_lowercase`).
///
/// Trusted: the result is `lower_text` of the argument, a function of the
/// argument alone; nothing is claimed about its characters.
#[verifier::external_body]
fn to_lowercase(s: &str) -> (r: String)
    ensures
        r@ == lower_text(s@),
{
    s.to_lowercase()
}

/// The keys by which a build system is recognised in a name, in the order
/// in which they are tried.
pub open spec fn name_keys() -> Seq<(Seq<char>, Buildsystem)> {
    seq![
        ("cargo"@, Buildsystem::Cargo),
        ("cmake"@, Buildsystem::Cmake),
        ("just"@, Buildsystem::Just),
        ("make"@, Buildsystem::Make),
        ("maven"@, Buildsystem::Maven),
        ("meson"@, Buildsystem::Meson),
    ]
}

/// The build system of the first key from `k` on that `lower` contains, or
/// `None`.
pub open spec fn system_by_key(lower: Seq<char>, k: int) -> Buildsystem
    decreases name_keys().len() - k,
{
    if k < 0 || k >= name_keys().len() {
        Buildsystem::Unknown
    } else if contains_seq(lower, name_keys()[k].0) {
        name_keys()[k].1
    } else {
        system_by_key(lower, k + 1)
    }
}

/// The files by which a build system is recognised in a directory, in the
/// order in which they are looked for.
pub open spec fn marker_files() -> Seq<(Seq<char>, Buildsystem)> {
    seq![
        ("Cargo.toml"@, Buildsystem::Cargo),
        ("meson.build"@, Buildsystem::Meson),
        ("CMakeLists.txt"@, Buildsystem::Cmake),
        ("pom.xml"@, Buildsystem::Maven),
        ("Justfile"@, Buildsystem::Just),
        ("Makefile"@, Buildsystem::Make),
    ]
}

/// `present`, called on the path `path`, answered `found`.
pub open spec fn observed<F: Fn(&str) -> bool>(present: F, path: Seq<char>, found: bool) -> bool {
    exists|s: &str| s@ == path && call_ensures(present, (s,), found)
}

/// Looking for the marker files of `dir` from the `k`-th on may give `r`:
/// the system of the first marker found, or `None` when none is found.
pub open spec fn detected_from<F: Fn(&str) -> bool>(present: F, dir: Seq<char>, k: int, r: Buildsystem) -> bool
    decreases marker_files().len() - k,
{
    if k < 0 || k >= marker_files().len() {
        r == Buildsystem::Unknown
    } else {
        let path = path_join(dir, marker_files()[k].0);
        (observed(present, path, true) && r == marker_files()[k].1) || (observed(present, path, false)
            && detected_from(present, dir, k + 1, r))
    }
}

/// The target directory used by the commands: a relative one is taken
/// below the current directory when that is known.
pub open spec fn effective_target(target: Seq<char>, cwd: Option<Seq<char>>) -> Seq<char> {
    if !is_absolute(target) && cwd is Some {
        path_join(cwd->0, target)
    } else {
        target
    }
}

/// The commands of a build system for the project `sdir` and the target
/// directory `tdir`.
pub open spec fn commands(b: Buildsystem, sdir: Seq<char>, tdir: Seq<char>) -> BuildcommandView {
    match b {
        Buildsystem::Cargo => BuildcommandView {
            setup: seq![],
            build: seq!["cargo"@, "build"@, "--target-dir"@, tdir],
            lint: seq!["cargo"@, "clippy"@, "--target-dir"@, tdir],
            test: seq!["cargo"@, "test"@, "--target-dir"@, tdir],
        },
        Buildsystem::Cmake => BuildcommandView {
            setup: seq!["cmake"@, "-S"@, sdir, "-B"@, tdir, "-G"@, "Ninja"@],
            build: seq!["cmake"@, "--build"@, tdir],
            lint: seq![],
            test: seq!["cmake"@, "--build"@, tdir, "--target"@, "test"@],
        },
        Buildsystem::Just => BuildcommandView {
            setup: seq![],
            build: seq!["just"@, "build"@],
            lint: seq![],
            test: seq![],
        },
        Buildsystem::Meson => BuildcommandView {
            setup: seq!["meson"@, "setup"@, tdir],
            build: seq!["meson"@, "compile"@, "-C"@, tdir],
            lint: seq![],
            test: seq!["meson"@, "test"@, "-C"@, tdir],
        },
        Buildsystem::Make => BuildcommandView {
            setup: seq![],
            build: seq!["make"@, "build"@],
            lint: seq![],
            test: seq![],
        },
        Buildsystem::Maven => BuildcommandView {
            setup: seq!["mvn"@, "clean"@, "-DoutputDirectory="@ + tdir],
            build: seq!["mvn"@, "package"@, "-DoutputDirectory="@ + tdir],
            lint: seq![],
            test: seq!["mvn"@, "test"@, "-DoutputDirectory="@ + tdir],
        },
        Buildsystem::Unknown => BuildcommandView { setup: seq![], build: seq![], lint: seq![], test: seq![] },
    }
}

/// A command made of the given words.
fn command(parts: &[&str]) -> (r: Vec<String>)
    ensures
        words(r@) == Seq::new(parts@.len(), |i: int| parts@[i]@),
{
    let mut r: Vec<String> = Vec::new();
    for i in 0..parts.len()
        invariant
            r@.len() == i,
            forall|j: int| 0 <= j < i ==> #[trigger] r@[j]@ == parts@[j]@,
    {
        r.push(parts[i].to_string());
    }
    assert(words(r@) =~= Seq::new(parts@.len(), |i: int| parts@[i]@));
    r
}

impl Buildsystem {
    /// The name of the build system.
    pub fn as_str(&self) -> (r: &'static str)
        ensures
            r@ == buildsystem_name(*self),
    {
        match self {
            Buildsystem::Unknown => "None",
            Buildsystem::Cargo => "Cargo",
            Buildsystem::Cmake => "Cmake",
            Buildsystem::Just => "Just",
            Buildsystem::Maven => "Maven",
            Buildsystem::Make => "Make",
            Buildsystem::Meson => "Meson",
        }
    }

    /// All build systems.
    pub fn iter() -> (r: Vec<Buildsystem>)
        ensures
            r@ == all_buildsystems(),
    {
        let r = vec![
            Buildsystem::Unknown,
            Buildsystem::Cargo,
            Buildsystem::Cmake,
            Buildsystem::Just,
            Buildsystem::Make,
            Buildsystem::Maven,
            Buildsystem::Meson,
        ];
        assert(r@ =~= all_buildsystems());
        r
    }

    /// The number of build systems.
    pub fn len() -> (r: usize)
        ensures
            r == all_buildsystems().len(),
    {
        7
    }

    /// The names of all build systems, in order.
    pub fn to_vec_str() -> (r: Vec<&'static str>)
        ensures
            r@.len() == all_buildsystems().len(),
            forall|i: int| 0 <= i < r@.len() ==> #[trigger] r@[i]@ == buildsystem_name(all_buildsystems()[i]),
    {
        let all = Buildsystem::iter();
        let mut r: Vec<&'static str> = Vec::new();
        for i in 0..all.len()
            invariant
                all@ == all_buildsystems(),
                r@.len() == i,
                forall|j: int| 0 <= j < i ==> #[trigger] r@[j]@ == buildsystem_name(all_buildsystems()[j]),
        {
            r.push(all[i].as_str());
        }
        r
    }

    /// Whether this is Cargo.
    pub fn is_cargo(&self) -> (b: bool)
        ensures
            b == (*self == Buildsystem::Cargo),
    {
        Buildsystem::Cargo == *self
    }

    /// Whether this is no build system.
    pub fn is_none(&self) -> (b: bool)
        ensures
            b == (*self == Buildsystem::Unknown),
    {
        Buildsystem::Unknown == *self
    }

    /// The directory the build system builds into by default.
    pub fn get_default_builddir(&self) -> (r: String)
        ensures
            r@ == default_builddir(*self),
    {
        let s = match self {
            Buildsystem::Unknown => ".",
            Buildsystem::Cargo => "target",
            Buildsystem::Cmake => "build",
            Buildsystem::Just => "target",
            Buildsystem::Make => "build",
            Buildsystem::Maven => "target",
            Buildsystem::Meson => "build",
        };
        s.to_string()
    }

    /// The build system named in `name`: the first of the keys `cargo`,
    /// `cmake`, `just`, `make`, `maven`, `meson` that the lower-cased name
    /// contains, or `None`.
    pub fn from_name(name: &str) -> (r: Buildsystem)
        ensures
            r == system_by_key(lower_text(name@), 0),
    {
        let lower = to_lowercase(name);
        Self::from_lower(lower.as_str())
    }

    /// The build system named in the lower-cased name `lower`: the first of
    /// the keys `cargo`, `cmake`, `just`, `make`, `maven`, `meson` that it
    /// contains, or `None`.
    pub fn from_lower(lower: &str) -> (r: Buildsystem)
        ensures
            r == system_by_key(lower@, 0),
    {
        let n = to_chars(lower);
        let keys: [(&str, Buildsystem); 6] = [
            ("cargo", Buildsystem::Cargo),
            ("cmake", Buildsystem::Cmake),
            ("just", Buildsystem::Just),
            ("make", Buildsystem::Make),
            ("maven", Buildsystem::Maven),
            ("meson", Buildsystem::Meson),
        ];
        assert(keys@.len() == 6);
        let mut k: usize = 0;
        while k < 6
            invariant
                k <= 6,
                n@ == lower@,
                forall|j: int| 0 <= j < 6 ==> #[trigger] keys@[j].0@ == name_keys()[j].0 && keys@[j].1
                    == name_keys()[j].1,
                system_by_key(n@, 0) == system_by_key(n@, k as int),
            decreases 6 - k,
        {
            let (key, variant) = keys[k];
            let kc = to_chars(key);
            if contains_chars(n.as_slice(), kc.as_slice()) {
                return variant;
            }
            k = k + 1;
        }
        Buildsystem::Unknown
    }

    /// The build system of the directory `dir`, recognised by the first of
    /// the files `Cargo.toml`, `meson.build`, `CMakeLists.txt`, `pom.xml`,
    /// `Justfile`, `Makefile` that `present` reports present.
    pub fn from_dir<F: Fn(&str) -> bool>(dir: &str, present: F) -> (r: Buildsystem)
        requires
            forall|s: &str| call_requires(present, (s,)),
        ensures
            detected_from(present, dir@, 0, r),
    {
        let markers: [(&str, Buildsystem); 6] = [
            ("Cargo.toml", Buildsystem::Cargo),
            ("meson.build", Buildsystem::Meson),
            ("CMakeLists.txt", Buildsystem::Cmake),
            ("pom.xml", Buildsystem::Maven),
            ("Justfile", Buildsystem::Just),
            ("Makefile", Buildsystem::Make),
        ];
        assert(markers@.len() == 6);
        let mut k: usize = 0;
        while k < 6
            invariant
                k <= 6,
                forall|s: &str| call_requires(present, (s,)),
                forall|j: int| 0 <= j < 6 ==> #[trigger] markers@[j].0@ == marker_files()[j].0
                    && markers@[j].1 == marker_files()[j].1,
                forall|b: Buildsystem| detected_from(present, dir@, k as int, b) ==> detected_from(present, dir@, 0, b),
            decreases 6 - k,
        {
            let (file, variant) = markers[k];
            let path = join_path(dir, file);
            let ps = path.as_str();
            let found = present(ps);
            proof {
                let p = path_join(dir@, marker_files()[k as int].0);
                assert(ps@ == p);
                assert(observed(present, p, found));
            }
            if found {
                return variant;
            }
            k = k + 1;
        }
        Buildsystem::Unknown
    }

    /// The commands of the build system for the project `projdir`, building
    /// into `targetdir`; a relative target directory is taken below `cwd`,
    /// the current directory, when that is known.
    pub fn build_cmd(&self, projdir: &str, targetdir: &str, cwd: Option<&str>) -> (r: Buildcommand)
        ensures
            r@ == commands(
                *self,
                projdir@,
                effective_target(
                    targetdir@,
                    match cwd {
                        Some(c) => Some(c@),
                        None => None,
                    },
                ),
            ),
    {
        let tdir: String = if !is_absolute_path(targetdir) {
            match cwd {
                Some(c) => join_path(c, targetdir),
                None => targetdir.to_string(),
            }
        } else {
            targetdir.to_string()
        };
        let t = tdir.as_str();
        let s = projdir;
        let r = match self {
            Buildsystem::Cargo => Buildcommand::new(
                Vec::new(),
                command(&["cargo", "build", "--target-dir", t]),
                command(&["cargo", "clippy", "--target-dir", t]),
                command(&["cargo", "test", "--target-dir", t]),
            ),
            Buildsystem::Cmake => Buildcommand::new(
                command(&["cmake", "-S", s, "-B", t, "-G", "Ninja"]),
                command(&["cmake", "--build", t]),
                Vec::new(),
                command(&["cmake", "--build", t, "--target", "test"]),
            ),
            Buildsystem::Just => Buildcommand::new(Vec::new(), command(&["just", "build"]), Vec::new(), Vec::new()),
            Buildsystem::Meson => Buildcommand::new(
                command(&["meson", "setup", t]),
                command(&["meson", "compile", "-C", t]),
                Vec::new(),
                command(&["meson", "test", "-C", t]),
            ),
            Buildsystem::Make => Buildcommand::new(Vec::new(), command(&["make", "build"]), Vec::new(), Vec::new()),
            Buildsystem::Maven => {
                let mut o = to_chars("-DoutputDirectory=");
                append_str(&mut o, t);
                let out = from_chars(o.as_slice());
                let od = out.as_str();
                Buildcommand::new(
                    command(&["mvn", "clean", od]),
                    command(&["mvn", "package", od]),
                    Vec::new(),
                    command(&["mvn", "test", od]),
                )
            },
            Buildsystem::Unknown => Buildcommand::default(),
        };
        proof {
            let e = commands(
                *self,
                projdir@,
                effective_target(
                    targetdir@,
                    match cwd {
                        Some(c) => Some(c@),
                        None => None,
                    },
                ),
            );
            assert(r@.setup =~= e.setup);
            assert(r@.build =~= e.build);
            assert(r@.lint =~= e.lint);
            assert(r@.test =~= e.test);
        }
        r
    }
}

} // verus!

verus! {

impl Buildsystem {
    /// Runs the setup command of the build system in `projdir` with `run`,
    /// when there is one; whether it succeeded is not looked at.
    pub fn setupbuild<R: Fn(&Vec<String>, &str) -> bool>(&self, projdir: &str, targetdir: &str, cwd: Option<&str>, run: &R)
        requires
            forall|c: &Vec<String>, d: &str| call_requires(*run, (c, d)),
        ensures
            ({
                let setup = commands(
                    *self,
                    projdir@,
                    effective_target(
                        targetdir@,
                        match cwd {
                            Some(c) => Some(c@),
                            None => None,
                        },
                    ),
                ).setup;
                setup.len() > 0 ==> exists|c: &Vec<String>, d: &str, ok: bool|
                    words(c@) == setup && d@ == projdir@ && call_ensures(*run, (c, d), ok)
            }),
    {
        let bc = self.build_cmd(projdir, targetdir, cwd);
        if bc.setup.len() == 0 {
            return;
        }
        let status = run(&bc.setup, projdir);
        assert(call_ensures(*run, (&bc.setup, projdir), status));
    }
}

} // verus!

verus! {

/// The test step runs the tests: every build system that has a test
/// command (Cargo, CMake, Meson, Maven) runs it with the tool of its build
/// command, asks that tool for its `test` step (a `test` word), and it is
/// not the build command; the others (Just, Make, none) have none. For
/// Cargo the step is `cargo test` with the target directory.
pub proof fn law_test_command_runs_tests(b: Buildsystem, sdir: Seq<char>, tdir: Seq<char>)
    ensures
        commands(b, sdir, tdir).test.len() > 0 <==> (b == Buildsystem::Cargo || b == Buildsystem::Cmake || b
            == Buildsystem::Meson || b == Buildsystem::Maven),
        commands(b, sdir, tdir).test.len() > 0 ==> {
            &&& commands(b, sdir, tdir).test != commands(b, sdir, tdir).build
            &&& commands(b, sdir, tdir).test.contains("test"@)
            &&& commands(b, sdir, tdir).build.len() > 0
            &&& commands(b, sdir, tdir).test[0] == commands(b, sdir, tdir).build[0]
        },
        commands(Buildsystem::Cargo, sdir, tdir).test == seq!["cargo"@, "test"@, "--target-dir"@, tdir],
        commands(Buildsystem::Cargo, sdir, tdir).build == seq!["cargo"@, "build"@, "--target-dir"@, tdir],
{
    reveal_strlit("test");
    reveal_strlit("build");
    reveal_strlit("--build");
    reveal_strlit("compile");
    reveal_strlit("package");
    assert("test"@.len() != "build"@.len());
    assert("test"@.len() != "compile"@.len());
    assert("test"@.len() != "package"@.len());
    let c = commands(b, sdir, tdir);
    match b {
        Buildsystem::Cargo => {
            assert(c.test[1] != c.build[1]);
            assert(c.test[1] == "test"@);
        },
        Buildsystem::Cmake => {
            assert(c.test.len() != c.build.len());
            assert(c.test[4] == "test"@);
        },
        Buildsystem::Meson => {
            assert(c.test[1] != c.build[1]);
            assert(c.test[1] == "test"@);
        },
        Buildsystem::Maven => {
            assert(c.test[1] != c.build[1]);
            assert(c.test[1] == "test"@);
        },
        _ => {},
    }
}


/// The commands work in the given directories: for Cargo and Meson every
/// command ends with the target directory (Cargo after `--target-dir`); for
/// CMake the setup names the project (`-S`) and target (`-B`) directories
/// and the build and test steps build in the target directory; for Maven
/// every command ends with `-DoutputDirectory=` and the target directory.
/// Cargo's lint step is `cargo clippy`.
pub proof fn law_commands_use_directories(b: Buildsystem, sdir: Seq<char>, tdir: Seq<char>)
    ensures
        b == Buildsystem::Cargo || b == Buildsystem::Meson ==> {
            let c = commands(b, sdir, tdir);
            &&& c.build.len() > 0 && c.build.last() == tdir
            &&& c.test.len() > 0 && c.test.last() == tdir
            &&& (c.lint.len() > 0 ==> c.lint.last() == tdir)
            &&& (c.setup.len() > 0 ==> c.setup.last() == tdir)
        },
        b == Buildsystem::Cargo ==> {
            let c = commands(b, sdir, tdir);
            &&& c.build[c.build.len() - 2] == "--target-dir"@
            &&& c.test[c.test.len() - 2] == "--target-dir"@
            &&& c.lint == seq!["cargo"@, "clippy"@, "--target-dir"@, tdir]
        },
        b == Buildsystem::Cmake ==> {
            let c = commands(b, sdir, tdir);
            &&& c.setup.len() >= 5 && c.setup[1] == "-S"@ && c.setup[2] == sdir && c.setup[3] == "-B"@ && c.setup[4] == tdir
            &&& c.build.len() >= 3 && c.build[1] == "--build"@ && c.build[2] == tdir
            &&& c.test.len() >= 3 && c.test[1] == "--build"@ && c.test[2] == tdir
        },
        b == Buildsystem::Maven ==> {
            let c = commands(b, sdir, tdir);
            &&& c.setup.last() == "-DoutputDirectory="@ + tdir
            &&& c.build.last() == "-DoutputDirectory="@ + tdir
            &&& c.test.last() == "-DoutputDirectory="@ + tdir
        },
{
}

} // verus!
