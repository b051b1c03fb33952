//! The source directory: its build targets and its listfile.
use vstd::prelude::*;
use vstd::string::StringExecFns;
use crate::cmake::GenerateError;
use crate::cmake::file::{
    SourceFile, all_inline, append_files, entry_names, entry_nodes, file_names, files_nodes,
    first_path_at, inline_text, is_inline, load_all, manifest_dir, manifest_node, names_of,
};
use crate::cmake::text::{
    ends_in_one_newline, ends_with_close, lemma_close_line, lemma_close_suffix, lines, write_lines,
};
use crate::project::Project;
use crate::tree::{NodeModel, SourceNode, strs};

verus! {

/// A build target of the source directory.
pub enum Target {
    Exe { name: String, sources: Vec<String>, link_libraries: Vec<String> },
    Lib { sources: Vec<String>, name: String },
}

/// The name of a project's library target.
pub open spec fn lib_name(project: Seq<char>) -> Seq<char> {
    project + "_lib"@
}

/// A library target exists exactly when there are source files.
pub open spec fn has_library(p: Project) -> bool {
    p.src.sources@.len() > 0
}

/// What the executable links: the library target first where there is one,
/// then the configured libraries in their order.
pub open spec fn link_list(p: Project) -> Seq<Seq<char>> {
    (if has_library(p) {
        seq![lib_name(p.name@)]
    } else {
        Seq::empty()
    }) + strs(p.src.libraries@)
}

pub open spec fn is_exe(t: Target, name: Seq<char>, sources: Seq<Seq<char>>, links: Seq<Seq<char>>) -> bool {
    t matches Target::Exe { name: n, sources: s, link_libraries: l } && n@ == name && strs(s@)
        == sources && strs(l@) == links
}

pub open spec fn is_lib(t: Target, name: Seq<char>, sources: Seq<Seq<char>>) -> bool {
    t matches Target::Lib { name: n, sources: s } && n@ == name && strs(s@) == sources
}

/// The targets of a project: the library (where there are sources), then
/// the executable, which is built from the main file.
pub open spec fn targets_of(ts: Seq<Target>, p: Project) -> bool {
    if has_library(p) {
        &&& ts.len() == 2
        &&& is_lib(ts[0], lib_name(p.name@), entry_names(p.src.sources@))
        &&& is_exe(ts[1], p.name@, seq![p.src.main_file.name@], link_list(p))
    } else {
        &&& ts.len() == 1
        &&& is_exe(ts[0], p.name@, seq![p.src.main_file.name@], link_list(p))
    }
}

pub open spec fn exe_text(name: Seq<char>, sources: Seq<Seq<char>>, links: Seq<Seq<char>>) -> Seq<char> {
    "\nadd_executable("@ + name + "\n"@ + lines(sources) + ")\n"@ + if links.len() == 0 {
        Seq::empty()
    } else {
        "\ntarget_link_libraries("@ + name + "\n"@ + lines(links) + ")\n"@
    }
}

pub open spec fn lib_text(name: Seq<char>, sources: Seq<Seq<char>>) -> Seq<char> {
    "\nadd_library("@ + name + "\n"@ + lines(sources) + ")\n"@ + "\ntarget_include_directories("@
        + name + " PUBLIC .)\n"@
}

pub open spec fn target_text(t: Target) -> Seq<char> {
    match t {
        Target::Exe { name, sources, link_libraries } => exe_text(
            name@,
            strs(sources@),
            strs(link_libraries@),
        ),
        Target::Lib { sources, name } => lib_text(name@, strs(sources@)),
    }
}

pub open spec fn targets_text(ts: Seq<Target>) -> Seq<char>
    decreases ts.len(),
{
    if ts.len() == 0 {
        Seq::empty()
    } else {
        targets_text(ts.drop_last()) + target_text(ts.last())
    }
}

pub open spec fn src_header() -> Seq<char> {
    "set(CMAKE_RUNTIME_OUTPUT_DIRECTORY ${CMAKE_BINARY_DIR})\n"@
}

/// The listfile of the source directory for the given targets.
pub open spec fn src_manifest(ts: Seq<Target>) -> Seq<char> {
    src_header() + targets_text(ts)
}

/// The listfile of a project's source directory.
pub open spec fn src_manifest_of(p: Project) -> Seq<char> {
    src_header() + (if has_library(p) {
        lib_text(lib_name(p.name@), entry_names(p.src.sources@))
    } else {
        Seq::empty()
    }) + exe_text(p.name@, seq![p.src.main_file.name@], link_list(p))
}

pub open spec fn main_node(p: Project) -> NodeModel {
    NodeModel::File { name: p.src.main_file.name@, contents: inline_text(p.src.main_file.source) }
}

/// The files of the source directory: main file, sources, headers.
pub open spec fn src_files_of(p: Project) -> Seq<NodeModel> {
    seq![main_node(p)] + entry_nodes(p.src.sources@) + entry_nodes(p.src.headers@)
}

/// The names of the files of the source directory, in order.
pub open spec fn src_names(p: Project) -> Seq<Seq<char>> {
    seq![p.src.main_file.name@] + entry_names(p.src.sources@) + entry_names(p.src.headers@)
}

/// Every file of the source directory has its text inline.
pub open spec fn src_inline(p: Project) -> bool {
    &&& is_inline(p.src.main_file.source)
    &&& all_inline(p.src.sources@)
    &&& all_inline(p.src.headers@)
}

/// `path` is the first file path of the source directory, in the order
/// main file, sources, headers.
pub open spec fn src_first_path(p: Project, path: Seq<char>) -> bool {
    ||| p.src.main_file.source matches crate::project::SourceFile::Path(q) && q@ == path
    ||| is_inline(p.src.main_file.source) && exists|i: int| first_path_at(p.src.sources@, i, path)
    ||| is_inline(p.src.main_file.source) && all_inline(p.src.sources@) && exists|i: int|
        first_path_at(p.src.headers@, i, path)
}

/// The node of a project's source directory.
pub open spec fn src_node_of(p: Project) -> NodeModel {
    NodeModel::Dir {
        name: p.src.dir@,
        children: seq![manifest_node(src_manifest_of(p))] + src_files_of(p),
    }
}

/// The listfile written for the targets of a project is the project's
/// source listfile.
pub proof fn lemma_src_manifest(ts: Seq<Target>, p: Project)
    requires
        targets_of(ts, p),
    ensures
        src_manifest(ts) == src_manifest_of(p),
{
    if has_library(p) {
        assert(ts.drop_last().drop_last() =~= Seq::<Target>::empty());
        assert(targets_text(ts.drop_last()) =~= targets_text(ts.drop_last().drop_last()) + target_text(ts[0]));
        assert(targets_text(ts) =~= target_text(ts[0]) + target_text(ts[1]));
    } else {
        assert(ts.drop_last() =~= Seq::<Target>::empty());
        assert(targets_text(ts.drop_last()) =~= Seq::<char>::empty());
        assert(targets_text(ts) =~= target_text(ts[0]));
    }
    assert(src_manifest(ts) =~= src_manifest_of(p));
}

proof fn lemma_target_close(t: Target)
    ensures
        ends_with_close(target_text(t)),
{
    lemma_close_line();
    match t {
        Target::Exe { name, sources, link_libraries } => {
            let a = "\nadd_executable("@ + name@ + "\n"@ + lines(strs(sources@));
            if link_libraries.len() == 0 {
                lemma_close_suffix(a, ")\n"@);
                assert(target_text(t) =~= a + ")\n"@);
            } else {
                let b = "\ntarget_link_libraries("@ + name@ + "\n"@ + lines(strs(link_libraries@));
                lemma_close_suffix(a + ")\n"@ + b, ")\n"@);
                assert(target_text(t) =~= (a + ")\n"@ + b) + ")\n"@);
            }
        },
        Target::Lib { sources, name } => {
            reveal_strlit(" PUBLIC .)\n");
            let c = "\nadd_library("@ + name@ + "\n"@ + lines(strs(sources@)) + ")\n"@
                + "\ntarget_include_directories("@ + name@;
            lemma_close_suffix(c, " PUBLIC .)\n"@);
            assert(target_text(t) =~= c + " PUBLIC .)\n"@);
        },
    }
}

/// The source listfile ends in exactly one newline.
pub proof fn lemma_src_manifest_ends(ts: Seq<Target>)
    ensures
        ends_with_close(src_manifest(ts)),
{
    if ts.len() == 0 {
        reveal_strlit("set(CMAKE_RUNTIME_OUTPUT_DIRECTORY ${CMAKE_BINARY_DIR})\n");
        assert(src_manifest(ts) =~= src_header());
    } else {
        lemma_target_close(ts.last());
        lemma_close_suffix(src_header() + targets_text(ts.drop_last()), target_text(ts.last()));
        assert(src_manifest(ts) =~= (src_header() + targets_text(ts.drop_last())) + target_text(ts.last()));
    }
}

/// The source directory of a project: its files and its targets.
pub struct CmakeSrc {
    pub dir: String,
    pub files: Vec<SourceFile>,
    pub targets: Vec<Target>,
}

fn copy_strings(dst: &mut Vec<String>, src: &Vec<String>)
    ensures
        strs(final(dst)@) == strs(old(dst)@) + strs(src@),
{
    let ghost start = dst@;
    let mut i: usize = 0;
    while i < src.len()
        invariant
            i <= src.len(),
            strs(dst@) == strs(start) + strs(src@.take(i as int)),
        decreases src.len() - i,
    {
        let ghost prev = dst@;
        dst.push(src[i].clone());
        assert(strs(dst@) =~= strs(prev).push(src@[i as int]@));
        assert(src@.take(i + 1) =~= src@.take(i as int).push(src@[i as int]));
        assert(strs(src@.take(i + 1)) =~= strs(src@.take(i as int)).push(src@[i as int]@));
        assert(strs(dst@) =~= strs(start) + strs(src@.take(i + 1)));
        i += 1;
    }
    assert(src@.take(i as int) =~= src@);
}

impl CmakeSrc {
    /// Builds the source directory's targets and gathers its files.
    pub fn from_project(p: &Project) -> (r: Result<CmakeSrc, GenerateError>)
        ensures
            r is Ok <==> src_inline(*p),
            r matches Ok(c) ==> {
                &&& c.dir@ == p.src.dir@
                &&& targets_of(c.targets@, *p)
                &&& files_nodes(c.files@) == src_files_of(*p)
                &&& file_names(c.files@) == src_names(*p)
            },
            r matches Err(GenerateError::Unresolved { path }) ==> src_first_path(*p, path@),
            r matches Err(e) ==> e is Unresolved,
    {
        let main_file = SourceFile::load(p.src.main_file.name.clone(), &p.src.main_file.source)?;
        let sources = load_all(&p.src.sources)?;
        let headers = load_all(&p.src.headers)?;

        let mut files: Vec<SourceFile> = Vec::new();
        let main_name = main_file.name.clone();
        files.push(main_file);
        assert(files_nodes(files@) =~= seq![main_node(*p)]);
        assert(file_names(files@) =~= seq![p.src.main_file.name@]);
        append_files(&mut files, &sources);
        append_files(&mut files, &headers);

        let mut targets: Vec<Target> = Vec::new();
        let mut link_libraries: Vec<String> = Vec::new();
        if sources.len() > 0 {
            let mut name = p.name.clone();
            name.append("_lib");
            link_libraries.push(name.clone());
            targets.push(Target::Lib { name, sources: names_of(&sources) });
        }
        assert(strs(link_libraries@) =~= if has_library(*p) {
            seq![lib_name(p.name@)]
        } else {
            Seq::empty()
        });
        copy_strings(&mut link_libraries, &p.src.libraries);
        let mut exe_sources: Vec<String> = Vec::new();
        exe_sources.push(main_name);
        assert(strs(exe_sources@) =~= seq![p.src.main_file.name@]);
        targets.push(Target::Exe { name: p.name.clone(), sources: exe_sources, link_libraries });
        Ok(CmakeSrc { dir: p.src.dir.clone(), files, targets })
    }

    /// The source directory's node: its listfile, then its files.
    pub fn into_node(self) -> (r: SourceNode)
        ensures
            r@ == (NodeModel::Dir {
                name: self.dir@,
                children: seq![manifest_node(src_manifest(self.targets@))] + files_nodes(
                    self.files@,
                ),
            }),
    {
        let mut text = String::new();
        write_src(&mut text, &self.targets);
        manifest_dir(self.dir, text, &self.files)
    }
}

fn write_target(sb: &mut String, t: &Target)
    ensures
        final(sb)@ == old(sb)@ + target_text(*t),
{
    let ghost start = sb@;
    match t {
        Target::Exe { name, sources, link_libraries } => {
            sb.append("\nadd_executable(");
            sb.append(name.as_str());
            sb.append("\n");
            write_lines(sb, sources);
            sb.append(")\n");
            if link_libraries.len() > 0 {
                sb.append("\ntarget_link_libraries(");
                sb.append(name.as_str());
                sb.append("\n");
                write_lines(sb, link_libraries);
                sb.append(")\n");
            }
        },
        Target::Lib { sources, name } => {
            sb.append("\nadd_library(");
            sb.append(name.as_str());
            sb.append("\n");
            write_lines(sb, sources);
            sb.append(")\n");
            sb.append("\ntarget_include_directories(");
            sb.append(name.as_str());
            sb.append(" PUBLIC .)\n");
        },
    }
    assert(sb@ =~= start + target_text(*t));
}

/// Appends the source directory's listfile for `targets`.
pub fn write_src(sb: &mut String, targets: &Vec<Target>)
    ensures
        final(sb)@ == old(sb)@ + src_manifest(targets@),
        ends_in_one_newline(final(sb)@),
{
    let ghost start = sb@;
    sb.append("set(CMAKE_RUNTIME_OUTPUT_DIRECTORY ${CMAKE_BINARY_DIR})\n");
    let mut i: usize = 0;
    assert(targets_text(targets@.take(0)) =~= Seq::<char>::empty());
    while i < targets.len()
        invariant
            i <= targets.len(),
            sb@ == start + src_header() + targets_text(targets@.take(i as int)),
        decreases targets.len() - i,
    {
        write_target(sb, &targets[i]);
        assert(targets@.take(i + 1).drop_last() =~= targets@.take(i as int));
        assert(sb@ =~= start + src_header() + targets_text(targets@.take(i + 1)));
        i += 1;
    }
    assert(targets@.take(i as int) =~= targets@);
    assert(sb@ =~= start + src_manifest(targets@));
    proof {
        lemma_src_manifest_ends(targets@);
        lemma_close_suffix(start, src_manifest(targets@));
    }
}

} // verus!
