use projgen::cli::BuildSystem;
use projgen::loader::{format_of_extension, single_description, DescriptionFormat, LoadError};
use projgen::project::{
    default_main_name, default_src_dir, default_tests_dir, default_tests_sources, Project, SourceFile,
    SrcDir, Testing,
};

#[test]
fn extensions_name_formats() {
    assert_eq!(format_of_extension("yaml"), Ok(DescriptionFormat::Yaml));
    assert_eq!(format_of_extension("yml"), Ok(DescriptionFormat::Yaml));
    assert_eq!(format_of_extension("json"), Ok(DescriptionFormat::Json));
    assert_eq!(format_of_extension("toml"), Ok(DescriptionFormat::Toml));
    assert_eq!(format_of_extension("xml"), Ok(DescriptionFormat::Xml));
    assert_eq!(format_of_extension("ini"), Err(LoadError::NotFound));
}

#[test]
fn one_description_per_directory() {
    assert_eq!(single_description(Vec::<String>::new()), Err(LoadError::NotFound));
    assert_eq!(single_description(vec!["project.yaml".to_string()]), Ok("project.yaml".to_string()));
    assert_eq!(
        single_description(vec!["project.yaml".to_string(), "project.json".to_string()]),
        Err(LoadError::Ambiguous)
    );
}

#[test]
fn defaults() {
    assert_eq!(Project::default_name(), "app");
    assert_eq!(default_src_dir(), "src");
    assert_eq!(default_main_name(), "main.cpp");
    assert_eq!(default_tests_dir(), "tests");
    let t = default_tests_sources();
    assert_eq!(t.len(), 1);
    assert_eq!(t[0].0, "test_greet.cpp");
    assert!(matches!(&t[0].1, SourceFile::Contents(c) if c.contains("TEST(")));
    let s = SrcDir::default();
    assert!(matches!(&s.main_file.source, SourceFile::Contents(c) if c.contains("main(")));
    assert_eq!(s.sources[0].0, "lib.cpp");
    assert_eq!(s.headers[0].0, "lib.hpp");
    assert_eq!(Testing::default().dir, "tests");
    assert_eq!(BuildSystem::Cmake.name(), "cmake");
}
