//! The declarative description of a project, as handed over by a loader.
use vstd::prelude::*;
use vstd::string::StringExecFns;

verus! {

/// Where the text of a source file comes from: a path on disk, or the text
/// itself. Paths are read by the caller before generation.
pub enum SourceFile {
    Path(String),
    Contents(String),
}

/// The file that holds the executable's entry point.
pub struct MainFile {
    pub name: String,
    pub source: SourceFile,
}

/// How an external package is fetched.
pub enum PackageSource {
    Download { url: String, checksum: Option<String> },
    Git { url: String, tag: Option<String> },
}

/// The test framework. Only one is supported.
#[derive(Clone, Copy, Debug, PartialEq, Eq, Structural)]
pub enum TestingFramework {
    GoogleTest,
}

/// The test harness: its directory, framework and named test sources.
pub struct Testing {
    pub dir: String,
    pub framework: TestingFramework,
    pub sources: Vec<(String, SourceFile)>,
}

/// The source directory: main file, named sources and headers, and the
/// extra libraries the executable links against, in order.
pub struct SrcDir {
    pub dir: String,
    pub main_file: MainFile,
    pub sources: Vec<(String, SourceFile)>,
    pub headers: Vec<(String, SourceFile)>,
    pub libraries: Vec<String>,
}

/// A project: its name, optional testing, sources and external packages.
/// Named collections keep the order in which they are given.
pub struct Project {
    pub name: String,
    pub testing: Option<Testing>,
    pub src: SrcDir,
    pub packages: Vec<(String, PackageSource)>,
}

pub const DEFAULT_MAIN_SOURCE: &'static str = "#include \"lib.hpp\"\n\nint main() {\n    greet(\"world\");\n    return 0;\n}\n";

pub const DEFAULT_LIB_SOURCE: &'static str = "#include \"lib.hpp\"\n\n#include <iostream>\n\nvoid greet(const std::string &name) {\n    std::cout << \"Hello, \" << name << \"!\" << std::endl;\n}\n";

pub const DEFAULT_LIB_HEADER: &'static str = "#pragma once\n\n#include <string>\n\nvoid greet(const std::string &name);\n";

pub const DEFAULT_TEST_SOURCE: &'static str = "#include <gtest/gtest.h>\n\n#include \"lib.hpp\"\n\nTEST(Greet, DoesNotThrow) {\n    EXPECT_NO_THROW(greet(\"test\"));\n}\n";

/// The default test sources: one GoogleTest file, given inline.
pub open spec fn is_default_tests_sources(v: Seq<(String, SourceFile)>) -> bool {
    &&& v.len() == 1
    &&& v[0].0@ == "test_greet.cpp"@
    &&& v[0].1 matches SourceFile::Contents(c) && c@ == DEFAULT_TEST_SOURCE@
}

/// The default source directory: `src` with an inline main file, one inline
/// source and one inline header, and no extra libraries.
pub open spec fn is_default_src(s: SrcDir) -> bool {
    &&& s.dir@ == "src"@
    &&& s.main_file.name@ == "main.cpp"@
    &&& s.main_file.source matches SourceFile::Contents(c) && c@ == DEFAULT_MAIN_SOURCE@
    &&& s.sources@.len() == 1
    &&& s.sources@[0].0@ == "lib.cpp"@
    &&& s.sources@[0].1 matches SourceFile::Contents(c) && c@ == DEFAULT_LIB_SOURCE@
    &&& s.headers@.len() == 1
    &&& s.headers@[0].0@ == "lib.hpp"@
    &&& s.headers@[0].1 matches SourceFile::Contents(c) && c@ == DEFAULT_LIB_HEADER@
    &&& s.libraries@.len() == 0
}

impl Project {
    /// The project name used when none is given.
    pub fn default_name() -> (r: String)
        ensures
            r@ == "app"@,
    {
        String::from_str("app")
    }
}

/// The test directory used when none is given.
pub fn default_tests_dir() -> (r: String)
    ensures
        r@ == "tests"@,
{
    String::from_str("tests")
}

/// The test sources used when none are given: one GoogleTest file.
pub fn default_tests_sources() -> (r: Vec<(String, SourceFile)>)
    ensures
        is_default_tests_sources(r@),
{
    let mut r: Vec<(String, SourceFile)> = Vec::new();
    r.push(
        (
            String::from_str("test_greet.cpp"),
            SourceFile::Contents(String::from_str(DEFAULT_TEST_SOURCE)),
        ),
    );
    r
}

/// The main file name used when none is given.
pub fn default_main_name() -> (r: String)
    ensures
        r@ == "main.cpp"@,
{
    String::from_str("main.cpp")
}

/// The source directory used when none is given.
pub fn default_src_dir() -> (r: String)
    ensures
        r@ == "src"@,
{
    String::from_str("src")
}

impl Default for MainFile {
    fn default() -> (r: Self)
        ensures
            r.name@ == "main.cpp"@,
            r.source matches SourceFile::Contents(c) && c@ == DEFAULT_MAIN_SOURCE@,
    {
        MainFile {
            name: default_main_name(),
            source: SourceFile::Contents(String::from_str(DEFAULT_MAIN_SOURCE)),
        }
    }
}

impl Default for TestingFramework {
    fn default() -> (r: Self)
        ensures
            r == TestingFramework::GoogleTest,
    {
        TestingFramework::GoogleTest
    }
}

impl Default for Testing {
    fn default() -> (r: Self)
        ensures
            r.dir@ == "tests"@,
            r.framework == TestingFramework::GoogleTest,
            is_default_tests_sources(r.sources@),
    {
        Testing {
            dir: default_tests_dir(),
            framework: TestingFramework::GoogleTest,
            sources: default_tests_sources(),
        }
    }
}

impl Default for SrcDir {
    fn default() -> (r: Self)
        ensures
            is_default_src(r),
    {
        let mut sources: Vec<(String, SourceFile)> = Vec::new();
        sources.push(
            (String::from_str("lib.cpp"), SourceFile::Contents(String::from_str(DEFAULT_LIB_SOURCE))),
        );
        let mut headers: Vec<(String, SourceFile)> = Vec::new();
        headers.push(
            (String::from_str("lib.hpp"), SourceFile::Contents(String::from_str(DEFAULT_LIB_HEADER))),
        );
        SrcDir {
            dir: default_src_dir(),
            main_file: MainFile::default(),
            sources,
            headers,
            libraries: Vec::new(),
        }
    }
}

impl Default for Project {
    fn default() -> (r: Self)
        ensures
            r.name@ == "app"@,
            r.testing is None,
            is_default_src(r.src),
            r.packages@.len() == 0,
    {
        Project {
            name: Project::default_name(),
            testing: None,
            src: SrcDir::default(),
            packages: Vec::new(),
        }
    }
}

} // verus!
