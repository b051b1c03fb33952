use projgen::cmake::libs::{write_package, CmakeLibs, FetchPackage};
use projgen::cmake::root::{write_main, CmakeMain};
use projgen::cmake::sources::{CmakeSrc, Target};
use projgen::cmake::testing::Testing as TestHarness;
use projgen::cmake::{generate, CmakeProject, GenerateError};
use projgen::project::{
    MainFile, PackageSource, Project, SourceFile, SrcDir, Testing, TestingFramework,
};
use projgen::tree::{FsAction, SourceTree};

fn inline(name: &str, text: &str) -> (String, SourceFile) {
    (name.to_string(), SourceFile::Contents(text.to_string()))
}

fn bare_project(name: &str) -> Project {
    Project {
        name: name.to_string(),
        testing: None,
        src: SrcDir {
            dir: "src".to_string(),
            main_file: MainFile {
                name: "main.cpp".to_string(),
                source: SourceFile::Contents("int main() {}\n".to_string()),
            },
            sources: Vec::new(),
            headers: Vec::new(),
            libraries: Vec::new(),
        },
        packages: Vec::new(),
    }
}

fn scenario_project() -> Project {
    let mut p = bare_project("app");
    p.src.sources.push(inline("lib.cpp", "void f() {}\n"));
    p.packages.push((
        "fmt".to_string(),
        PackageSource::Git { url: "https://example.com/fmt.git".to_string(), tag: Some("v1".to_string()) },
    ));
    p.testing = Some(Testing {
        dir: "tests".to_string(),
        framework: TestingFramework::GoogleTest,
        sources: vec![inline("test_f.cpp", "TEST(F, G) {}\n")],
    });
    p
}

fn plan(tree: &SourceTree) -> Vec<(String, Option<String>)> {
    tree.render()
        .into_iter()
        .map(|a| match a {
            FsAction::CreateDir { path } => (path.join("/"), None),
            FsAction::WriteFile { path, contents } => (path.join("/"), Some(contents)),
        })
        .collect()
}

fn file(tree: &SourceTree, path: &str) -> Option<String> {
    plan(tree).into_iter().find(|(p, c)| p == path && c.is_some()).and_then(|(_, c)| c)
}

const ROOT_HEAD: &str = "cmake_minimum_required(VERSION 3.10)\n\nset(CMAKE_EXPORT_COMPILE_COMMANDS ON)\n\n";

#[test]
fn bare_project_has_only_src_and_no_link_block() {
    let tree = generate(&bare_project("app")).ok().unwrap();
    let root = file(&tree, "CMakeLists.txt").unwrap();
    assert_eq!(root, format!("{ROOT_HEAD}project(app)\n\nadd_subdirectory(src)\n"));
    let src = file(&tree, "src/CMakeLists.txt").unwrap();
    assert_eq!(
        src,
        "set(CMAKE_RUNTIME_OUTPUT_DIRECTORY ${CMAKE_BINARY_DIR})\n\nadd_executable(app\n    main.cpp\n)\n"
    );
    assert!(!src.contains("target_link_libraries"));
    assert_eq!(tree.children.len(), 2);
    assert_eq!(file(&tree, "src/main.cpp").unwrap(), "int main() {}\n");
}

#[test]
fn full_scenario_with_package_and_tests() {
    let tree = generate(&scenario_project()).ok().unwrap();
    let root = file(&tree, "CMakeLists.txt").unwrap();
    assert_eq!(
        root,
        format!(
            "{ROOT_HEAD}project(app)\n\nenable_testing()\n\nadd_subdirectory(src)\nadd_subdirectory(lib)\nadd_subdirectory(tests)\n"
        )
    );
    let lib = file(&tree, "lib/CMakeLists.txt").unwrap();
    assert_eq!(
        lib,
        "include(FetchContent)\n\nFetchContent_Declare(\n    fmt\n    GIT_REPOSITORY https://example.com/fmt.git\n    GIT_TAG v1\n)\n\nmessage(STATUS \"Fetching packages\")\nFetchContent_MakeAvailable(fmt)\n"
    );
    assert_eq!(lib.matches("FetchContent_Declare(").count(), 1);
    let tests = file(&tree, "tests/CMakeLists.txt").unwrap();
    assert_eq!(
        tests,
        "add_executable(app_test\n    test_f.cpp\n)\n\ntarget_link_libraries(app_test\n    app_lib\n    gtest\n    gtest_main\n)\n\ninclude(GoogleTest)\ngtest_discover_tests(app_test)\n"
    );
    assert_eq!(file(&tree, "tests/test_f.cpp").unwrap(), "TEST(F, G) {}\n");
    let src = file(&tree, "src/CMakeLists.txt").unwrap();
    assert_eq!(
        src,
        "set(CMAKE_RUNTIME_OUTPUT_DIRECTORY ${CMAKE_BINARY_DIR})\n\nadd_library(app_lib\n    lib.cpp\n)\n\ntarget_include_directories(app_lib PUBLIC .)\n\nadd_executable(app\n    main.cpp\n)\n\ntarget_link_libraries(app\n    app_lib\n)\n"
    );
}

#[test]
fn generation_is_deterministic() {
    let a = plan(&generate(&scenario_project()).ok().unwrap());
    let b = plan(&generate(&scenario_project()).ok().unwrap());
    assert_eq!(a, b);
    let c = plan(&generate(&Project::default()).ok().unwrap());
    let d = plan(&generate(&Project::default()).ok().unwrap());
    assert_eq!(c, d);
}

#[test]
fn library_target_iff_sources_and_link_order() {
    let mut p = bare_project("demo");
    p.src.libraries = vec!["m".to_string(), "pthread".to_string()];
    let c = CmakeSrc::from_project(&p).ok().unwrap();
    assert_eq!(c.targets.len(), 1);
    match &c.targets[0] {
        Target::Exe { name, sources, link_libraries } => {
            assert_eq!(name, "demo");
            assert_eq!(sources, &vec!["main.cpp".to_string()]);
            assert_eq!(link_libraries, &vec!["m".to_string(), "pthread".to_string()]);
        }
        Target::Lib { .. } => panic!("no library expected"),
    }
    p.src.sources.push(inline("a.cpp", "a"));
    p.src.sources.push(inline("b.cpp", "b"));
    p.src.headers.push(inline("a.hpp", "h"));
    let c = CmakeSrc::from_project(&p).ok().unwrap();
    assert_eq!(c.targets.len(), 2);
    match &c.targets[0] {
        Target::Lib { name, sources } => {
            assert_eq!(name, "demo_lib");
            assert_eq!(sources, &vec!["a.cpp".to_string(), "b.cpp".to_string()]);
        }
        Target::Exe { .. } => panic!("library expected first"),
    }
    match &c.targets[1] {
        Target::Exe { link_libraries, .. } => assert_eq!(
            link_libraries,
            &vec!["demo_lib".to_string(), "m".to_string(), "pthread".to_string()]
        ),
        Target::Lib { .. } => panic!("executable expected second"),
    }
    let names: Vec<&str> = c.files.iter().map(|f| f.name.as_str()).collect();
    assert_eq!(names, vec!["main.cpp", "a.cpp", "b.cpp", "a.hpp"]);
}

#[test]
fn subdirectory_order() {
    let p = bare_project("x");
    assert_eq!(CmakeMain::from_project(&p).subdirectories, vec!["src".to_string()]);
    let mut q = bare_project("x");
    q.src.dir = "code".to_string();
    q.testing = Some(Testing {
        dir: "check".to_string(),
        framework: TestingFramework::GoogleTest,
        sources: Vec::new(),
    });
    let m = CmakeMain::from_project(&q);
    assert_eq!(m.subdirectories, vec!["code".to_string(), "check".to_string()]);
    assert!(m.enable_testing);
    q.packages.push(("zlib".to_string(), PackageSource::Download { url: "u".to_string(), checksum: None }));
    let m = CmakeMain::from_project(&q);
    assert_eq!(m.subdirectories, vec!["code".to_string(), "lib".to_string(), "check".to_string()]);
}

#[test]
fn declare_block_lines_follow_the_source() {
    let download = FetchPackage::from_source(
        &"zlib".to_string(),
        &PackageSource::Download { url: "https://z/zlib.tar.gz".to_string(), checksum: Some("SHA256=ab".to_string()) },
    );
    assert!(download.git_url.is_none() && download.git_tag.is_none());
    let mut sb = String::new();
    write_package(&mut sb, &download);
    assert_eq!(
        sb,
        "FetchContent_Declare(\n    zlib\n    URL https://z/zlib.tar.gz\n    URL_HASH SHA256=ab\n)\n\n"
    );
    let plain = FetchPackage::from_source(
        &"z".to_string(),
        &PackageSource::Download { url: "u".to_string(), checksum: None },
    );
    let mut sb = String::new();
    write_package(&mut sb, &plain);
    assert_eq!(sb, "FetchContent_Declare(\n    z\n    URL u\n)\n\n");
    let git = FetchPackage::from_source(&"g".to_string(), &PackageSource::Git { url: "r".to_string(), tag: None });
    assert!(git.url.is_none() && git.checksum.is_none());
    let mut sb = String::new();
    write_package(&mut sb, &git);
    assert_eq!(sb, "FetchContent_Declare(\n    g\n    GIT_REPOSITORY r\n)\n\n");
}

#[test]
fn packages_keep_their_order() {
    let mut p = bare_project("x");
    assert!(CmakeLibs::from_project(&p).is_none());
    p.packages.push(("b".to_string(), PackageSource::Download { url: "ub".to_string(), checksum: None }));
    p.packages.push(("a".to_string(), PackageSource::Git { url: "ua".to_string(), tag: None }));
    let libs = CmakeLibs::from_project(&p).unwrap();
    assert_eq!(libs.fetch_packages.len(), 2);
    let tree = generate(&p).ok().unwrap();
    let lib = file(&tree, "lib/CMakeLists.txt").unwrap();
    assert!(lib.ends_with("FetchContent_MakeAvailable(b a)\n"));
    assert!(lib.find("    b\n").unwrap() < lib.find("    a\n").unwrap());
}

#[test]
fn render_creates_directories_before_files() {
    let tree = generate(&scenario_project()).ok().unwrap();
    let steps = plan(&tree);
    for (i, (path, contents)) in steps.iter().enumerate() {
        if contents.is_some() {
            if let Some(slash) = path.rfind('/') {
                let parent = &path[..slash];
                assert!(steps[..i].iter().any(|(p, c)| p == parent && c.is_none()));
            }
        }
    }
    assert_eq!(steps[0], ("CMakeLists.txt".to_string(), Some(file(&tree, "CMakeLists.txt").unwrap())));
    assert_eq!(steps[1], ("src".to_string(), None));
}

#[test]
fn unread_path_is_reported() {
    let mut p = bare_project("x");
    p.src.headers.push(inline("a.hpp", "h"));
    p.src.headers.push(("b.hpp".to_string(), SourceFile::Path("/nowhere/b.hpp".to_string())));
    match generate(&p) {
        Err(GenerateError::Unresolved { path }) => assert_eq!(path, "/nowhere/b.hpp"),
        _ => panic!("expected an unresolved path"),
    }
    let mut q = bare_project("x");
    q.src.main_file.source = SourceFile::Path("m.cpp".to_string());
    q.src.sources.push(("s.cpp".to_string(), SourceFile::Path("s.cpp".to_string())));
    match generate(&q) {
        Err(GenerateError::Unresolved { path }) => assert_eq!(path, "m.cpp"),
        _ => panic!("expected the main file first"),
    }
}

#[test]
fn testing_without_library_is_refused() {
    let mut p = bare_project("x");
    p.testing = Some(Testing::default());
    assert!(matches!(generate(&p), Err(GenerateError::TestingWithoutLibrary)));
    assert!(matches!(CmakeProject::from_project(&p), Err(GenerateError::TestingWithoutLibrary)));
}

#[test]
fn framework_tag_does_not_change_output() {
    let mut p = scenario_project();
    p.testing.as_mut().unwrap().framework = TestingFramework::default();
    let h = TestHarness::from_project(&p).ok().unwrap().unwrap();
    assert_eq!(h.project_name, "app");
    assert_eq!(plan(&generate(&p).ok().unwrap()), plan(&generate(&scenario_project()).ok().unwrap()));
}

#[test]
fn default_project_generates() {
    let p = Project::default();
    assert_eq!(p.name, "app");
    let tree = generate(&p).ok().unwrap();
    let names: Vec<String> = plan(&tree).into_iter().map(|(p, _)| p).collect();
    assert_eq!(
        names,
        vec!["CMakeLists.txt", "src", "src/CMakeLists.txt", "src/main.cpp", "src/lib.cpp", "src/lib.hpp"]
    );
}

#[test]
fn root_listfile_without_subdirectories_ends_in_one_newline() {
    let mut sb = String::new();
    write_main(&mut sb, &"x".to_string(), &Vec::new(), false);
    assert_eq!(sb, format!("{ROOT_HEAD}project(x)\n"));
    let mut sb = String::new();
    write_main(&mut sb, &"x".to_string(), &Vec::new(), true);
    assert_eq!(sb, format!("{ROOT_HEAD}project(x)\n\nenable_testing()\n"));
    let mut sb = String::new();
    write_main(&mut sb, &"x".to_string(), &vec!["a".to_string(), "b".to_string()], true);
    assert_eq!(
        sb,
        format!("{ROOT_HEAD}project(x)\n\nenable_testing()\n\nadd_subdirectory(a)\nadd_subdirectory(b)\n")
    );
}

#[test]
fn every_listfile_ends_in_one_newline() {
    let tree = generate(&scenario_project()).ok().unwrap();
    for path in ["CMakeLists.txt", "src/CMakeLists.txt", "lib/CMakeLists.txt", "tests/CMakeLists.txt"] {
        let text = file(&tree, path).unwrap();
        assert!(text.ends_with('\n') && !text.ends_with("\n\n"), "{path}");
    }
}

#[test]
fn duplicate_names_are_refused() {
    let mut p = bare_project("x");
    p.src.sources.push(inline("a.cpp", "1"));
    p.src.headers.push(inline("a.cpp", "2"));
    match generate(&p) {
        Err(GenerateError::DuplicateName { name }) => assert_eq!(name, "a.cpp"),
        _ => panic!("expected a duplicate file name"),
    }
    let mut q = bare_project("x");
    q.packages.push(("fmt".to_string(), PackageSource::Download { url: "u".to_string(), checksum: None }));
    q.packages.push(("fmt".to_string(), PackageSource::Git { url: "g".to_string(), tag: None }));
    match generate(&q) {
        Err(GenerateError::DuplicateName { name }) => assert_eq!(name, "fmt"),
        _ => panic!("expected a duplicate package name"),
    }
    let mut t = scenario_project();
    t.testing.as_mut().unwrap().sources.push(inline("test_f.cpp", "again"));
    match generate(&t) {
        Err(GenerateError::DuplicateName { name }) => assert_eq!(name, "test_f.cpp"),
        _ => panic!("expected a duplicate test file name"),
    }
}
