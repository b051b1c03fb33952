//! The root listfile: project declaration and subdirectories.
use vstd::prelude::*;
use vstd::string::StringExecFns;
use crate::project::Project;
use crate::cmake::text::{ends_in_one_newline, ends_with_close, lemma_close_line, lemma_close_suffix};
use crate::tree::{NodeModel, SourceNode, strs};

verus! {

/// The root listfile's settings.
pub struct CmakeMain {
    pub name: String,
    pub subdirectories: Vec<String>,
    pub enable_testing: bool,
}

/// The subdirectories of a project, in an order that declares every target
/// before it is used: the source directory, `lib` where there are packages,
/// and the test directory where testing is configured.
pub open spec fn subdirs_of(p: Project) -> Seq<Seq<char>> {
    seq![p.src.dir@] + (if p.packages@.len() > 0 {
        seq!["lib"@]
    } else {
        Seq::empty()
    }) + match p.testing {
        Some(t) => seq![t.dir@],
        None => Seq::empty(),
    }
}

pub open spec fn subdir_lines(dirs: Seq<Seq<char>>) -> Seq<char>
    decreases dirs.len(),
{
    if dirs.len() == 0 {
        Seq::empty()
    } else {
        subdir_lines(dirs.drop_last()) + "add_subdirectory("@ + dirs.last() + ")\n"@
    }
}

pub open spec fn root_head(name: Seq<char>) -> Seq<char> {
    "cmake_minimum_required(VERSION 3.10)\n\nset(CMAKE_EXPORT_COMPILE_COMMANDS ON)\n\nproject("@
        + name + ")\n"@
}

/// The root listfile: each block after the head is preceded by one blank
/// line, so the text ends in a single newline.
pub open spec fn root_manifest(name: Seq<char>, dirs: Seq<Seq<char>>, testing: bool) -> Seq<char> {
    root_head(name) + (if testing {
        "\nenable_testing()\n"@
    } else {
        Seq::empty()
    }) + (if dirs.len() > 0 {
        "\n"@ + subdir_lines(dirs)
    } else {
        Seq::empty()
    })
}

proof fn lemma_subdir_lines_close(dirs: Seq<Seq<char>>)
    requires
        dirs.len() > 0,
    ensures
        ends_with_close(subdir_lines(dirs)),
{
    lemma_close_line();
    lemma_close_suffix(subdir_lines(dirs.drop_last()) + "add_subdirectory("@ + dirs.last(), ")\n"@);
}

/// The root listfile ends in exactly one newline.
pub proof fn lemma_root_manifest_ends(name: Seq<char>, dirs: Seq<Seq<char>>, testing: bool)
    ensures
        ends_in_one_newline(root_manifest(name, dirs, testing)),
{
    let head = root_head(name);
    let mid = if testing {
        "\nenable_testing()\n"@
    } else {
        Seq::empty()
    };
    lemma_close_line();
    if dirs.len() > 0 {
        lemma_subdir_lines_close(dirs);
        lemma_close_suffix(head + mid + "\n"@, subdir_lines(dirs));
        assert(root_manifest(name, dirs, testing) =~= (head + mid + "\n"@) + subdir_lines(dirs));
    } else if testing {
        reveal_strlit("\nenable_testing()\n");
        lemma_close_suffix(head, mid);
        assert(root_manifest(name, dirs, testing) =~= head + mid);
    } else {
        lemma_close_suffix(
            "cmake_minimum_required(VERSION 3.10)\n\nset(CMAKE_EXPORT_COMPILE_COMMANDS ON)\n\nproject("@
                + name,
            ")\n"@,
        );
        assert(root_manifest(name, dirs, testing) =~= head);
    }
}

/// The root listfile node of a project.
pub open spec fn root_node_of(p: Project) -> NodeModel {
    NodeModel::File {
        name: "CMakeLists.txt"@,
        contents: root_manifest(p.name@, subdirs_of(p), p.testing is Some),
    }
}

impl CmakeMain {
    /// The root listfile's settings for a project.
    pub fn from_project(p: &Project) -> (r: CmakeMain)
        ensures
            r.name@ == p.name@,
            strs(r.subdirectories@) == subdirs_of(*p),
            r.enable_testing == p.testing is Some,
    {
        let mut subdirectories: Vec<String> = Vec::new();
        subdirectories.push(p.src.dir.clone());
        if p.packages.len() > 0 {
            subdirectories.push(String::from_str("lib"));
        }
        if let Some(t) = &p.testing {
            subdirectories.push(t.dir.clone());
        }
        assert(strs(subdirectories@) =~= subdirs_of(*p));
        CmakeMain {
            name: p.name.clone(),
            subdirectories,
            enable_testing: p.testing.is_some(),
        }
    }

    /// The root listfile node.
    pub fn into_node(self) -> (r: SourceNode)
        ensures
            r@ == (NodeModel::File {
                name: "CMakeLists.txt"@,
                contents: root_manifest(self.name@, strs(self.subdirectories@), self.enable_testing),
            }),
            r@ matches NodeModel::File { contents, .. } && ends_in_one_newline(contents),
    {
        let mut text = String::new();
        write_main(&mut text, &self.name, &self.subdirectories, self.enable_testing);
        SourceNode::File { name: String::from_str("CMakeLists.txt"), contents: text }
    }
}

/// Appends the root listfile.
pub fn write_main(sb: &mut String, name: &String, subdirectories: &Vec<String>, enable_testing: bool)
    ensures
        final(sb)@ == old(sb)@ + root_manifest(name@, strs(subdirectories@), enable_testing),
        ends_in_one_newline(final(sb)@),
{
    let ghost start = sb@;
    sb.append("cmake_minimum_required(VERSION 3.10)\n\nset(CMAKE_EXPORT_COMPILE_COMMANDS ON)\n\nproject(");
    sb.append(name.as_str());
    sb.append(")\n");
    if enable_testing {
        sb.append("\nenable_testing()\n");
    }
    if subdirectories.len() > 0 {
        sb.append("\n");
    }
    let ghost head = sb@;
    assert(head =~= start + root_head(name@) + (if enable_testing {
        "\nenable_testing()\n"@
    } else {
        Seq::empty()
    }) + (if subdirectories.len() > 0 {
        "\n"@
    } else {
        Seq::empty()
    }));
    let mut i: usize = 0;
    assert(subdir_lines(strs(subdirectories@.take(0))) =~= Seq::<char>::empty());
    while i < subdirectories.len()
        invariant
            i <= subdirectories.len(),
            sb@ == head + subdir_lines(strs(subdirectories@.take(i as int))),
        decreases subdirectories.len() - i,
    {
        sb.append("add_subdirectory(");
        sb.append(subdirectories[i].as_str());
        sb.append(")\n");
        let ghost next = strs(subdirectories@.take(i + 1));
        assert(next.drop_last() =~= strs(subdirectories@.take(i as int)));
        assert(sb@ =~= head + subdir_lines(next));
        i += 1;
    }
    assert(subdirectories@.take(i as int) =~= subdirectories@);
    assert(sb@ =~= start + root_manifest(name@, strs(subdirectories@), enable_testing));
    proof {
        let text = root_manifest(name@, strs(subdirectories@), enable_testing);
        lemma_root_manifest_ends(name@, strs(subdirectories@), enable_testing);
        assert(sb@[sb@.len() - 1] == text[text.len() - 1]);
        assert(sb@[sb@.len() - 2] == text[text.len() - 2]);
    }
}

} // verus!
