//! The test directory: the test executable and its listfile.
use vstd::prelude::*;
use vstd::string::StringExecFns;
use crate::cmake::GenerateError;
use crate::cmake::file::{
    SourceFile, all_inline, entry_names, entry_nodes, file_names, files_nodes, first_path_at,
    load_all, loaded_from, manifest_dir, manifest_node, names_of,
};
use crate::cmake::text::{ends_in_one_newline, lemma_close_suffix, lines, write_lines};
use crate::project::{Project, TestingFramework};
use crate::tree::{NodeModel, SourceNode, strs};

verus! {

/// The test harness of a project, with its files read.
pub struct Testing {
    pub dir: String,
    pub project_name: String,
    pub framework: TestingFramework,
    pub files: Vec<SourceFile>,
}

/// The test listfile. Every framework is emitted as GoogleTest, the only
/// one supported.
pub open spec fn tests_manifest(name: Seq<char>, sources: Seq<Seq<char>>) -> Seq<char> {
    "add_executable("@ + name + "_test\n"@ + lines(sources) + ")\n\n"@ + "target_link_libraries("@
        + name + "_test\n    "@ + name + "_lib\n    gtest\n    gtest_main\n)\n\ninclude(GoogleTest)\ngtest_discover_tests("@
        + name + "_test)\n"@
}

/// The test directory node of a project with the testing `t`.
pub open spec fn tests_node_of(p: Project, t: crate::project::Testing) -> NodeModel {
    NodeModel::Dir {
        name: t.dir@,
        children: seq![manifest_node(tests_manifest(p.name@, entry_names(t.sources@)))]
            + entry_nodes(t.sources@),
    }
}

impl Testing {
    /// The test harness of a project, where testing is configured.
    pub fn from_project(p: &Project) -> (r: Result<Option<Testing>, GenerateError>)
        ensures
            r matches Ok(None) <==> p.testing is None,
            p.testing matches Some(t) ==> {
                &&& (r is Ok <==> all_inline(t.sources@))
                &&& r matches Ok(Some(x)) ==> {
                    &&& x.dir@ == t.dir@
                    &&& x.project_name@ == p.name@
                    &&& x.framework == t.framework
                    &&& loaded_from(x.files@, t.sources@)
                }
                &&& r matches Err(GenerateError::Unresolved { path }) ==> exists|i: int|
                    first_path_at(t.sources@, i, path@)
            },
            r matches Err(e) ==> e is Unresolved,
    {
        match &p.testing {
            None => Ok(None),
            Some(t) => {
                let files = load_all(&t.sources)?;
                Ok(
                    Some(
                        Testing {
                            dir: t.dir.clone(),
                            framework: t.framework,
                            project_name: p.name.clone(),
                            files,
                        },
                    ),
                )
            },
        }
    }

    /// The test directory: its listfile, then the test files.
    pub fn into_node(self) -> (r: SourceNode)
        ensures
            r@ == (NodeModel::Dir {
                name: self.dir@,
                children: seq![manifest_node(tests_manifest(self.project_name@, file_names(self.files@)))]
                    + files_nodes(self.files@),
            }),
    {
        let sources = names_of(&self.files);
        let mut text = String::new();
        write_tests(&mut text, &self.project_name, &sources);
        manifest_dir(self.dir, text, &self.files)
    }
}

/// Appends the test listfile for project `name` and the test sources.
pub fn write_tests(sb: &mut String, name: &String, sources: &Vec<String>)
    ensures
        final(sb)@ == old(sb)@ + tests_manifest(name@, strs(sources@)),
        ends_in_one_newline(final(sb)@),
{
    let ghost start = sb@;
    sb.append("add_executable(");
    sb.append(name.as_str());
    sb.append("_test\n");
    write_lines(sb, sources);
    sb.append(")\n\n");
    sb.append("target_link_libraries(");
    sb.append(name.as_str());
    sb.append("_test\n    ");
    sb.append(name.as_str());
    sb.append("_lib\n    gtest\n    gtest_main\n)\n\ninclude(GoogleTest)\ngtest_discover_tests(");
    sb.append(name.as_str());
    sb.append("_test)\n");
    assert(sb@ =~= start + tests_manifest(name@, strs(sources@)));
    proof {
        reveal_strlit("_test)\n");
        let head = sb@.take(sb@.len() - 7);
        assert(sb@ =~= head + "_test)\n"@);
        lemma_close_suffix(head, "_test)\n"@);
    }
}

} // verus!
