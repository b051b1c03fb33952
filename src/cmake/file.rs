//! Source files whose text is known, and their resolution from a description.
use vstd::prelude::*;
use crate::cmake::GenerateError;
use crate::project;
use vstd::string::StringExecFns;
use crate::tree::{NodeModel, SourceNode, nodes_view, lemma_nodes_view_push, strs};

verus! {

/// A named source file with its text.
pub struct SourceFile {
    pub name: String,
    pub contents: String,
}

/// The text a description gives for a file, where it gives it inline.
pub open spec fn inline_text(s: project::SourceFile) -> Seq<char> {
    match s {
        project::SourceFile::Contents(c) => c@,
        project::SourceFile::Path(_) => Seq::empty(),
    }
}

pub open spec fn is_inline(s: project::SourceFile) -> bool {
    s is Contents
}

pub open spec fn all_inline(entries: Seq<(String, project::SourceFile)>) -> bool {
    forall|i: int| 0 <= i < entries.len() ==> is_inline(#[trigger] entries[i].1)
}

/// The names of named entries, in order.
pub open spec fn entry_names(entries: Seq<(String, project::SourceFile)>) -> Seq<Seq<char>> {
    entries.map_values(|e: (String, project::SourceFile)| e.0@)
}

/// The file nodes of named entries, in order.
pub open spec fn entry_nodes(entries: Seq<(String, project::SourceFile)>) -> Seq<NodeModel> {
    entries.map_values(
        |e: (String, project::SourceFile)| NodeModel::File { name: e.0@, contents: inline_text(e.1) },
    )
}

/// Entry `i` is the first one given by a path, and that path is `path`.
pub open spec fn first_path_at(
    entries: Seq<(String, project::SourceFile)>,
    i: int,
    path: Seq<char>,
) -> bool {
    &&& 0 <= i < entries.len()
    &&& entries[i].1 matches project::SourceFile::Path(p) && p@ == path
    &&& forall|j: int| 0 <= j < i ==> is_inline(#[trigger] entries[j].1)
}

pub open spec fn file_node(f: SourceFile) -> NodeModel {
    NodeModel::File { name: f.name@, contents: f.contents@ }
}

pub open spec fn files_nodes(fs: Seq<SourceFile>) -> Seq<NodeModel> {
    fs.map_values(|f: SourceFile| file_node(f))
}

pub open spec fn file_names(fs: Seq<SourceFile>) -> Seq<Seq<char>> {
    fs.map_values(|f: SourceFile| f.name@)
}

/// The loaded files are the entries, in order, with their inline text.
pub open spec fn loaded_from(fs: Seq<SourceFile>, entries: Seq<(String, project::SourceFile)>) -> bool {
    &&& file_names(fs) == entry_names(entries)
    &&& files_nodes(fs) == entry_nodes(entries)
}

impl SourceFile {
    /// The file `name` with the text that `source` gives inline; a file that
    /// is still only a path has not been read and is refused.
    pub fn load(name: String, source: &project::SourceFile) -> (r: Result<SourceFile, GenerateError>)
        ensures
            match source {
                project::SourceFile::Contents(c) => r matches Ok(f) && f.name@ == name@
                    && f.contents@ == c@,
                project::SourceFile::Path(p) => r matches Err(GenerateError::Unresolved { path })
                    && path@ == p@,
            },
    {
        match source {
            project::SourceFile::Path(p) => Err(GenerateError::Unresolved { path: p.clone() }),
            project::SourceFile::Contents(c) => Ok(SourceFile { name, contents: c.clone() }),
        }
    }

    /// The file node that holds this file.
    pub fn into_node(self) -> (r: SourceNode)
        ensures
            r@ == file_node(self),
    {
        SourceNode::File { name: self.name, contents: self.contents }
    }
}

/// Loads every entry in order; fails on the first one given by a path.
pub fn load_all(entries: &Vec<(String, project::SourceFile)>) -> (r: Result<
    Vec<SourceFile>,
    GenerateError,
>)
    ensures
        r is Ok <==> all_inline(entries@),
        r matches Ok(fs) ==> loaded_from(fs@, entries@),
        r matches Err(GenerateError::Unresolved { path }) ==> exists|i: int|
            first_path_at(entries@, i, path@),
        r matches Err(e) ==> e is Unresolved,
{
    let mut out: Vec<SourceFile> = Vec::new();
    let mut i: usize = 0;
    assert(file_names(out@) =~= entry_names(entries@.take(0)));
    assert(files_nodes(out@) =~= entry_nodes(entries@.take(0)));
    while i < entries.len()
        invariant
            i <= entries.len(),
            forall|j: int| 0 <= j < i ==> is_inline(#[trigger] entries@[j].1),
            loaded_from(out@, entries@.take(i as int)),
        decreases entries.len() - i,
    {
        let f = SourceFile::load(entries[i].0.clone(), &entries[i].1);
        match f {
            Ok(f) => {
                let ghost prev = out@;
                out.push(f);
                let ghost taken = entries@.take(i + 1);
                assert(taken =~= entries@.take(i as int).push(entries@[i as int]));
                assert(file_names(out@) =~= file_names(prev).push(f.name@));
                assert(entry_names(taken) =~= entry_names(entries@.take(i as int)).push(
                    entries@[i as int].0@,
                ));
                assert(files_nodes(out@) =~= files_nodes(prev).push(file_node(f)));
                assert(entry_nodes(taken) =~= entry_nodes(entries@.take(i as int)).push(
                    NodeModel::File {
                        name: entries@[i as int].0@,
                        contents: inline_text(entries@[i as int].1),
                    },
                ));
            },
            Err(e) => {
                assert(first_path_at(entries@, i as int, e->Unresolved_path@));
                assert(!all_inline(entries@));
                return Err(e);
            },
        }
        i += 1;
    }
    assert(entries@.take(i as int) =~= entries@);
    Ok(out)
}


/// The node of a listfile: `CMakeLists.txt` with the given text.
pub open spec fn manifest_node(text: Seq<char>) -> NodeModel {
    NodeModel::File { name: "CMakeLists.txt"@, contents: text }
}

/// Appends copies of `src` to `dst`.
pub fn append_files(dst: &mut Vec<SourceFile>, src: &Vec<SourceFile>)
    ensures
        files_nodes(final(dst)@) == files_nodes(old(dst)@) + files_nodes(src@),
        file_names(final(dst)@) == file_names(old(dst)@) + file_names(src@),
{
    let ghost start = dst@;
    let mut i: usize = 0;
    while i < src.len()
        invariant
            i <= src.len(),
            files_nodes(dst@) == files_nodes(start) + files_nodes(src@.take(i as int)),
            file_names(dst@) == file_names(start) + file_names(src@.take(i as int)),
        decreases src.len() - i,
    {
        let ghost prev = dst@;
        dst.push(SourceFile { name: src[i].name.clone(), contents: src[i].contents.clone() });
        assert(src@.take(i + 1) =~= src@.take(i as int).push(src@[i as int]));
        assert(files_nodes(dst@) =~= files_nodes(prev).push(file_node(src@[i as int])));
        assert(files_nodes(src@.take(i + 1)) =~= files_nodes(src@.take(i as int)).push(
            file_node(src@[i as int]),
        ));
        assert(file_names(dst@) =~= file_names(prev).push(src@[i as int].name@));
        assert(file_names(src@.take(i + 1)) =~= file_names(src@.take(i as int)).push(
            src@[i as int].name@,
        ));
        assert(files_nodes(dst@) =~= files_nodes(start) + files_nodes(src@.take(i + 1)));
        assert(file_names(dst@) =~= file_names(start) + file_names(src@.take(i + 1)));
        i += 1;
    }
    assert(src@.take(i as int) =~= src@);
}

/// The names of the files, in order.
pub fn names_of(files: &Vec<SourceFile>) -> (r: Vec<String>)
    ensures
        strs(r@) == file_names(files@),
{
    let mut r: Vec<String> = Vec::new();
    let mut i: usize = 0;
    while i < files.len()
        invariant
            i <= files.len(),
            strs(r@) == file_names(files@.take(i as int)),
        decreases files.len() - i,
    {
        let ghost prev = r@;
        r.push(files[i].name.clone());
        assert(strs(r@) =~= strs(prev).push(files@[i as int].name@));
        assert(files@.take(i + 1) =~= files@.take(i as int).push(files@[i as int]));
        assert(file_names(files@.take(i + 1)) =~= file_names(files@.take(i as int)).push(
            files@[i as int].name@,
        ));
        i += 1;
    }
    assert(files@.take(i as int) =~= files@);
    r
}

/// A directory holding a listfile with the given text, then the files.
pub fn manifest_dir(name: String, manifest: String, files: &Vec<SourceFile>) -> (r: SourceNode)
    ensures
        r@ == (NodeModel::Dir {
            name: name@,
            children: seq![manifest_node(manifest@)] + files_nodes(files@),
        }),
{
    let ghost text = manifest@;
    let mut children: Vec<SourceNode> = Vec::new();
    let first = SourceNode::File { name: String::from_str("CMakeLists.txt"), contents: manifest };
    proof {
        lemma_nodes_view_push(children@, first);
    }
    children.push(first);
    assert(nodes_view(Seq::<SourceNode>::empty()) =~= Seq::<NodeModel>::empty());
    assert(nodes_view(children@) =~= seq![manifest_node(text)] + files_nodes(files@.take(0)));
    let mut i: usize = 0;
    while i < files.len()
        invariant
            i <= files.len(),
            nodes_view(children@) == seq![manifest_node(text)] + files_nodes(files@.take(i as int)),
        decreases files.len() - i,
    {
        let node = SourceNode::File { name: files[i].name.clone(), contents: files[i].contents.clone() };
        proof {
            lemma_nodes_view_push(children@, node);
        }
        children.push(node);
        assert(files@.take(i + 1) =~= files@.take(i as int).push(files@[i as int]));
        assert(files_nodes(files@.take(i + 1)) =~= files_nodes(files@.take(i as int)).push(
            file_node(files@[i as int]),
        ));
        assert(nodes_view(children@) =~= seq![manifest_node(text)] + files_nodes(files@.take(i + 1)));
        i += 1;
    }
    assert(files@.take(i as int) =~= files@);
    SourceNode::Directory { name, children }
}

} // verus!
