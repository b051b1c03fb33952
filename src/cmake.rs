//! The CMake backend: target graph, listfile text and source tree.
use vstd::prelude::*;
use crate::project::Project;
use crate::tree::{
    FsAction, NodeModel, SourceNode, SourceTree, actions_view, lemma_nodes_view_push, nodes_plan,
    nodes_view, strs,
};
use crate::cmake::file::{
    all_inline, entry_names, files_nodes, file_names, first_path_at, loaded_from, manifest_node,
    names_of,
};
use crate::cmake::libs::{
    CmakeLibs, fetched_as, libs_manifest, libs_node_of, lemma_libs_manifest, package_keys,
    package_keys_of,
};
use crate::cmake::text::{distinct, duplicated, find_duplicate};
use crate::cmake::root::{CmakeMain, root_manifest, root_node_of, subdirs_of};
use crate::cmake::sources::{
    CmakeSrc, has_library, lemma_src_manifest, src_first_path, src_files_of, src_inline,
    src_manifest, src_names, src_node_of, targets_of,
};
use crate::cmake::testing::{Testing, tests_manifest, tests_node_of};

pub mod file;
pub mod libs;
pub mod root;
pub mod sources;
pub mod testing;
pub mod text;

verus! {

/// Why a project could not be turned into a tree.
pub enum GenerateError {
    /// A source file is still given by a path: its text was never read.
    Unresolved { path: String },
    /// Testing is configured but there is no library target to test.
    TestingWithoutLibrary,
    /// Two files of one directory, or two packages, share a name.
    DuplicateName { name: String },
}

/// A project ready for the CMake backend: every part of its tree.
pub struct CmakeProject {
    pub main: CmakeMain,
    pub src: CmakeSrc,
    pub libs: Option<CmakeLibs>,
    pub testing: Option<Testing>,
}

/// A project can be generated: every file has its text, and testing, where
/// configured, has a library target to link.
pub open spec fn generable(p: Project) -> bool {
    &&& src_inline(p)
    &&& distinct(src_names(p))
    &&& distinct(package_keys(p.packages@))
    &&& p.testing matches Some(t) ==> has_library(p) && all_inline(t.sources@) && distinct(
        entry_names(t.sources@),
    )
}

/// `name` is shared by two files of one directory or by two packages.
pub open spec fn name_clash(p: Project, name: Seq<char>) -> bool {
    ||| duplicated(src_names(p), name)
    ||| duplicated(package_keys(p.packages@), name)
    ||| (p.testing matches Some(t) && duplicated(entry_names(t.sources@), name))
}

/// `path` is the first file of the project, in the order in which files are
/// resolved, that is given by a path.
pub open spec fn first_unresolved(p: Project, path: Seq<char>) -> bool {
    ||| src_first_path(p, path)
    ||| src_inline(p) && has_library(p) && (p.testing matches Some(t) && exists|i: int|
        first_path_at(t.sources@, i, path))
}

/// The tree of a project: root listfile, source directory, then `lib` where
/// there are packages, then the test directory where testing is configured.
pub open spec fn project_tree(p: Project) -> Seq<NodeModel> {
    seq![root_node_of(p), src_node_of(p)] + (if p.packages@.len() > 0 {
        seq![libs_node_of(p)]
    } else {
        Seq::empty()
    }) + match p.testing {
        Some(t) => seq![tests_node_of(p, t)],
        None => Seq::empty(),
    }
}

/// `c` holds the parts of project `p`.
pub open spec fn built_from(c: CmakeProject, p: Project) -> bool {
    &&& c.main.name@ == p.name@
    &&& strs(c.main.subdirectories@) == subdirs_of(p)
    &&& c.main.enable_testing == p.testing is Some
    &&& c.src.dir@ == p.src.dir@
    &&& targets_of(c.src.targets@, p)
    &&& files_nodes(c.src.files@) == src_files_of(p)
    &&& (c.libs is None <==> p.packages@.len() == 0)
    &&& c.libs matches Some(l) ==> {
        &&& l.fetch_packages@.len() == p.packages@.len()
        &&& forall|i: int|
            0 <= i < p.packages@.len() ==> fetched_as(
                #[trigger] l.fetch_packages@[i],
                p.packages@[i].0@,
                p.packages@[i].1,
            )
    }
    &&& match p.testing {
        None => c.testing is None,
        Some(t) => c.testing matches Some(x) && x.dir@ == t.dir@ && x.project_name@ == p.name@
            && x.framework == t.framework && loaded_from(x.files@, t.sources@),
    }
}

/// The tree that the parts of `c` make.
pub open spec fn parts_tree(c: CmakeProject) -> Seq<NodeModel> {
    seq![
        NodeModel::File {
            name: "CMakeLists.txt"@,
            contents: root_manifest(c.main.name@, strs(c.main.subdirectories@), c.main.enable_testing),
        },
        NodeModel::Dir {
            name: c.src.dir@,
            children: seq![manifest_node(src_manifest(c.src.targets@))] + files_nodes(c.src.files@),
        },
    ] + match c.libs {
        Some(l) => seq![
            NodeModel::Dir {
                name: "lib"@,
                children: seq![manifest_node(libs_manifest(l.fetch_packages@))],
            },
        ],
        None => Seq::empty(),
    } + match c.testing {
        Some(t) => seq![
            NodeModel::Dir {
                name: t.dir@,
                children: seq![manifest_node(tests_manifest(t.project_name@, file_names(t.files@)))]
                    + files_nodes(t.files@),
            },
        ],
        None => Seq::empty(),
    }
}

proof fn lemma_parts_tree(c: CmakeProject, p: Project)
    requires
        built_from(c, p),
    ensures
        parts_tree(c) == project_tree(p),
{
    lemma_src_manifest(c.src.targets@, p);
    if let Some(l) = c.libs {
        lemma_libs_manifest(l.fetch_packages@, p.packages@);
    }
    assert(parts_tree(c) =~= project_tree(p));
}

impl CmakeProject {
    /// Builds every part of a project's tree, reading nothing: files must
    /// carry their text.
    pub fn from_project(p: &Project) -> (r: Result<CmakeProject, GenerateError>)
        ensures
            r is Ok <==> generable(*p),
            r matches Ok(c) ==> built_from(c, *p),
            r matches Err(GenerateError::Unresolved { path }) ==> first_unresolved(*p, path@),
            r matches Err(GenerateError::TestingWithoutLibrary) <==> src_inline(*p) && p.testing is Some
                && !has_library(*p),
            r matches Err(GenerateError::DuplicateName { name }) ==> name_clash(*p, name@),
    {
        let main = CmakeMain::from_project(p);
        let src = CmakeSrc::from_project(p)?;
        let libs = CmakeLibs::from_project(p);
        if p.testing.is_some() && p.src.sources.len() == 0 {
            return Err(GenerateError::TestingWithoutLibrary);
        }
        if let Some(name) = find_duplicate(&names_of(&src.files)) {
            return Err(GenerateError::DuplicateName { name });
        }
        if let Some(name) = find_duplicate(&package_keys_of(p)) {
            return Err(GenerateError::DuplicateName { name });
        }
        let testing = Testing::from_project(p)?;
        if let Some(t) = &testing {
            if let Some(name) = find_duplicate(&names_of(&t.files)) {
                return Err(GenerateError::DuplicateName { name });
            }
        }
        Ok(CmakeProject { main, src, libs, testing })
    }

    /// The tree of all parts, in the order of the root's subdirectories.
    pub fn into_tree(self) -> (r: SourceTree)
        ensures
            r@ == parts_tree(self),
    {
        let ghost whole = self;
        let mut children: Vec<SourceNode> = Vec::new();
        let main = self.main.into_node();
        proof {
            lemma_nodes_view_push(children@, main);
        }
        children.push(main);
        let src = self.src.into_node();
        proof {
            lemma_nodes_view_push(children@, src);
        }
        children.push(src);
        assert(nodes_view(Seq::<SourceNode>::empty()) =~= Seq::<NodeModel>::empty());
        if let Some(libs) = self.libs {
            let node = libs.into_node();
            proof {
                lemma_nodes_view_push(children@, node);
            }
            children.push(node);
        }
        if let Some(testing) = self.testing {
            let node = testing.into_node();
            proof {
                lemma_nodes_view_push(children@, node);
            }
            children.push(node);
        }
        let r = SourceTree { children };
        assert(r@ =~= parts_tree(whole));
        r
    }
}

/// The source tree of a project for the CMake backend.
pub fn generate(p: &Project) -> (r: Result<SourceTree, GenerateError>)
    ensures
        r is Ok <==> generable(*p),
        r matches Ok(t) ==> t@ == project_tree(*p),
        r matches Err(GenerateError::Unresolved { path }) ==> first_unresolved(*p, path@),
        r matches Err(GenerateError::TestingWithoutLibrary) <==> src_inline(*p) && p.testing is Some
            && !has_library(*p),
        r matches Err(GenerateError::DuplicateName { name }) ==> name_clash(*p, name@),
{
    let c = CmakeProject::from_project(p)?;
    proof {
        lemma_parts_tree(c, *p);
    }
    Ok(c.into_tree())
}

/// Generation is deterministic: two runs on the same description give the
/// same tree, and the same steps to write it, listfile text included.
pub proof fn lemma_generate_deterministic(
    p: Project,
    t1: SourceTree,
    t2: SourceTree,
    a1: Seq<FsAction>,
    a2: Seq<FsAction>,
)
    requires
        t1@ == project_tree(p),
        t2@ == project_tree(p),
        actions_view(a1) == nodes_plan(t1@, Seq::empty()),
        actions_view(a2) == nodes_plan(t2@, Seq::empty()),
    ensures
        t1@ == t2@,
        actions_view(a1) == actions_view(a2),
{
}

} // verus!
