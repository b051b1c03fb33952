//! External packages: their fetch declarations and the `lib` listfile.
use vstd::prelude::*;
use vstd::string::StringExecFns;
use crate::cmake::file::{SourceFile, manifest_dir, manifest_node, files_nodes};
use crate::cmake::text::{
    distinct, ends_in_one_newline, lemma_close_line, lemma_close_suffix, spaced, write_spaced,
};
use crate::project::{PackageSource, Project};
use crate::tree::{NodeModel, SourceNode, strs};

verus! {

/// A package to declare for fetching: by URL (with an optional checksum) or
/// by git repository (with an optional tag).
pub struct FetchPackage {
    pub name: String,
    pub url: Option<String>,
    pub checksum: Option<String>,
    pub git_url: Option<String>,
    pub git_tag: Option<String>,
}

pub open spec fn opt_view(o: Option<String>) -> Option<Seq<char>> {
    match o {
        Some(s) => Some(s@),
        None => None,
    }
}

/// `f` declares the package `name` fetched from `src`.
pub open spec fn fetched_as(f: FetchPackage, name: Seq<char>, src: PackageSource) -> bool {
    &&& f.name@ == name
    &&& match src {
        PackageSource::Download { url, checksum } => {
            &&& opt_view(f.url) == Some(url@)
            &&& opt_view(f.checksum) == opt_view(checksum)
            &&& f.git_url is None
            &&& f.git_tag is None
        },
        PackageSource::Git { url, tag } => {
            &&& f.url is None
            &&& f.checksum is None
            &&& opt_view(f.git_url) == Some(url@)
            &&& opt_view(f.git_tag) == opt_view(tag)
        },
    }
}

/// A line `prefix value` where the value is present, else nothing.
pub open spec fn opt_line(prefix: Seq<char>, v: Option<Seq<char>>) -> Seq<char> {
    match v {
        Some(x) => prefix + x + "\n"@,
        None => Seq::empty(),
    }
}

pub open spec fn declare_head(name: Seq<char>) -> Seq<char> {
    "FetchContent_Declare(\n"@ + "    "@ + name + "\n"@
}

/// The declare block of a fetch package.
pub open spec fn package_text(f: FetchPackage) -> Seq<char> {
    declare_head(f.name@) + opt_line("    URL "@, opt_view(f.url)) + opt_line(
        "    URL_HASH "@,
        opt_view(f.checksum),
    ) + opt_line("    GIT_REPOSITORY "@, opt_view(f.git_url)) + opt_line(
        "    GIT_TAG "@,
        opt_view(f.git_tag),
    ) + ")\n\n"@
}

/// The declare block of the package `name` configured as `src`.
pub open spec fn declare_block(name: Seq<char>, src: PackageSource) -> Seq<char> {
    declare_head(name) + match src {
        PackageSource::Download { url, checksum } => "    URL "@ + url@ + "\n"@ + opt_line(
            "    URL_HASH "@,
            opt_view(checksum),
        ),
        PackageSource::Git { url, tag } => "    GIT_REPOSITORY "@ + url@ + "\n"@ + opt_line(
            "    GIT_TAG "@,
            opt_view(tag),
        ),
    } + ")\n\n"@
}

pub open spec fn packages_text(fs: Seq<FetchPackage>) -> Seq<char>
    decreases fs.len(),
{
    if fs.len() == 0 {
        Seq::empty()
    } else {
        packages_text(fs.drop_last()) + package_text(fs.last())
    }
}

pub open spec fn blocks_text(ps: Seq<(String, PackageSource)>) -> Seq<char>
    decreases ps.len(),
{
    if ps.len() == 0 {
        Seq::empty()
    } else {
        blocks_text(ps.drop_last()) + declare_block(ps.last().0@, ps.last().1)
    }
}

pub open spec fn package_names(fs: Seq<FetchPackage>) -> Seq<Seq<char>> {
    fs.map_values(|f: FetchPackage| f.name@)
}

pub open spec fn libs_tail(names: Seq<Seq<char>>) -> Seq<char> {
    "message(STATUS \"Fetching packages\")\n"@ + "FetchContent_MakeAvailable("@ + spaced(names)
        + ")\n"@
}

/// The `lib` listfile for the given fetch packages.
pub open spec fn libs_manifest(fs: Seq<FetchPackage>) -> Seq<char> {
    "include(FetchContent)\n\n"@ + packages_text(fs) + libs_tail(package_names(fs))
}

/// The names of the configured packages, in order.
pub open spec fn package_keys(ps: Seq<(String, PackageSource)>) -> Seq<Seq<char>> {
    ps.map_values(|e: (String, PackageSource)| e.0@)
}

/// The names of a project's packages, in order.
pub fn package_keys_of(p: &Project) -> (r: Vec<String>)
    ensures
        strs(r@) == package_keys(p.packages@),
{
    let mut r: Vec<String> = Vec::new();
    let mut i: usize = 0;
    while i < p.packages.len()
        invariant
            i <= p.packages@.len(),
            strs(r@) == package_keys(p.packages@.take(i as int)),
        decreases p.packages.len() - i,
    {
        let ghost prev = r@;
        r.push(p.packages[i].0.clone());
        assert(strs(r@) =~= strs(prev).push(p.packages@[i as int].0@));
        assert(p.packages@.take(i + 1) =~= p.packages@.take(i as int).push(p.packages@[i as int]));
        assert(package_keys(p.packages@.take(i + 1)) =~= package_keys(p.packages@.take(i as int)).push(
            p.packages@[i as int].0@,
        ));
        i += 1;
    }
    assert(p.packages@.take(i as int) =~= p.packages@);
    r
}

/// The `lib` listfile of a project.
pub open spec fn libs_manifest_of(p: Project) -> Seq<char> {
    "include(FetchContent)\n\n"@ + blocks_text(p.packages@) + libs_tail(
        p.packages@.map_values(|e: (String, PackageSource)| e.0@),
    )
}

/// The `lib` directory node of a project.
pub open spec fn libs_node_of(p: Project) -> NodeModel {
    NodeModel::Dir { name: "lib"@, children: seq![manifest_node(libs_manifest_of(p))] }
}

/// A declare block holds a `URL` line exactly for a download, a `URL_HASH`
/// line exactly for a download with a checksum, a `GIT_REPOSITORY` line
/// exactly for a git package and a `GIT_TAG` line exactly for a git package
/// with a tag; never URL and git lines together.
pub proof fn lemma_declare_block_fields(f: FetchPackage, name: Seq<char>, src: PackageSource)
    requires
        fetched_as(f, name, src),
    ensures
        package_text(f) == declare_block(name, src),
{
    assert(package_text(f) =~= declare_block(name, src));
}

/// The listfile written for fetch packages that declare the configured
/// packages is the project's `lib` listfile.
pub proof fn lemma_libs_manifest(fs: Seq<FetchPackage>, ps: Seq<(String, PackageSource)>)
    requires
        fs.len() == ps.len(),
        forall|i: int| 0 <= i < fs.len() ==> fetched_as(#[trigger] fs[i], ps[i].0@, ps[i].1),
    ensures
        packages_text(fs) == blocks_text(ps),
        package_names(fs) == ps.map_values(|e: (String, PackageSource)| e.0@),
    decreases fs.len(),
{
    assert(package_names(fs) =~= ps.map_values(|e: (String, PackageSource)| e.0@));
    if fs.len() > 0 {
        let n = fs.len() - 1;
        lemma_libs_manifest(fs.drop_last(), ps.drop_last());
        assert(fetched_as(fs[n], ps[n].0@, ps[n].1));
        lemma_declare_block_fields(fs.last(), ps.last().0@, ps.last().1);
    }
}

/// Where package names are unique, the declaration of a configured package
/// is the only one that carries its name.
pub proof fn lemma_one_declaration_per_package(
    fs: Seq<FetchPackage>,
    ps: Seq<(String, PackageSource)>,
    i: int,
)
    requires
        package_names(fs) == package_keys(ps),
        distinct(package_keys(ps)),
        0 <= i < ps.len(),
    ensures
        fs[i].name@ == ps[i].0@,
        forall|j: int| 0 <= j < fs.len() && (#[trigger] fs[j]).name@ == ps[i].0@ ==> j == i,
{
    assert(package_names(fs).len() == fs.len());
    assert(package_names(fs)[i] == fs[i].name@);
    assert forall|j: int| 0 <= j < fs.len() && (#[trigger] fs[j]).name@ == ps[i].0@ implies j == i by {
        assert(package_names(fs)[j] == fs[j].name@);
        assert(package_keys(ps)[j] == ps[j].0@);
        assert(package_keys(ps)[i] == ps[i].0@);
    }
}

/// The external packages of a project, in the order they are configured.
pub struct CmakeLibs {
    pub fetch_packages: Vec<FetchPackage>,
}

fn copy_opt(o: &Option<String>) -> (r: Option<String>)
    ensures
        opt_view(r) == opt_view(*o),
{
    match o {
        Some(s) => Some(s.clone()),
        None => None,
    }
}

impl FetchPackage {
    /// The fetch declaration of package `name` configured as `src`.
    pub fn from_source(name: &String, src: &PackageSource) -> (r: FetchPackage)
        ensures
            fetched_as(r, name@, *src),
    {
        match src {
            PackageSource::Git { url, tag } => FetchPackage {
                name: name.clone(),
                url: None,
                checksum: None,
                git_url: Some(url.clone()),
                git_tag: copy_opt(tag),
            },
            PackageSource::Download { url, checksum } => FetchPackage {
                name: name.clone(),
                url: Some(url.clone()),
                checksum: copy_opt(checksum),
                git_url: None,
                git_tag: None,
            },
        }
    }
}

impl CmakeLibs {
    /// The packages to fetch, or nothing where none are configured.
    pub fn from_project(p: &Project) -> (r: Option<CmakeLibs>)
        ensures
            r is None <==> p.packages@.len() == 0,
            r matches Some(l) ==> {
                &&& l.fetch_packages@.len() == p.packages@.len()
                &&& package_names(l.fetch_packages@) == package_keys(p.packages@)
                &&& forall|i: int|
                    0 <= i < p.packages@.len() ==> fetched_as(
                        #[trigger] l.fetch_packages@[i],
                        p.packages@[i].0@,
                        p.packages@[i].1,
                    )
            },
    {
        if p.packages.len() == 0 {
            return None;
        }
        let mut fetch_packages: Vec<FetchPackage> = Vec::new();
        let mut i: usize = 0;
        while i < p.packages.len()
            invariant
                i <= p.packages@.len(),
                fetch_packages@.len() == i,
                forall|j: int|
                    0 <= j < i ==> fetched_as(
                        #[trigger] fetch_packages@[j],
                        p.packages@[j].0@,
                        p.packages@[j].1,
                    ),
            decreases p.packages.len() - i,
        {
            let f = FetchPackage::from_source(&p.packages[i].0, &p.packages[i].1);
            fetch_packages.push(f);
            i += 1;
        }
        assert(package_names(fetch_packages@) =~= package_keys(p.packages@));
        Some(CmakeLibs { fetch_packages })
    }

    /// The `lib` directory: one listfile declaring every package.
    pub fn into_node(self) -> (r: SourceNode)
        ensures
            r@ == (NodeModel::Dir {
                name: "lib"@,
                children: seq![manifest_node(libs_manifest(self.fetch_packages@))],
            }),
    {
        let mut text = String::new();
        write_libs(&mut text, &self.fetch_packages);
        let none: Vec<SourceFile> = Vec::new();
        let r = manifest_dir(String::from_str("lib"), text, &none);
        assert(seq![manifest_node(libs_manifest(self.fetch_packages@))] + files_nodes(none@) =~= seq![
            manifest_node(libs_manifest(self.fetch_packages@)),
        ]);
        r
    }
}

fn write_opt_line(sb: &mut String, prefix: &str, v: &Option<String>)
    ensures
        final(sb)@ == old(sb)@ + opt_line(prefix@, opt_view(*v)),
{
    let ghost start = sb@;
    if let Some(x) = v {
        sb.append(prefix);
        sb.append(x.as_str());
        sb.append("\n");
    }
    assert(sb@ =~= start + opt_line(prefix@, opt_view(*v)));
}

/// Appends the declare block of one package.
pub fn write_package(sb: &mut String, package: &FetchPackage)
    ensures
        final(sb)@ == old(sb)@ + package_text(*package),
{
    let ghost start = sb@;
    sb.append("FetchContent_Declare(\n");
    sb.append("    ");
    sb.append(package.name.as_str());
    sb.append("\n");
    write_opt_line(sb, "    URL ", &package.url);
    write_opt_line(sb, "    URL_HASH ", &package.checksum);
    write_opt_line(sb, "    GIT_REPOSITORY ", &package.git_url);
    write_opt_line(sb, "    GIT_TAG ", &package.git_tag);
    sb.append(")\n\n");
    assert(sb@ =~= start + package_text(*package));
}

/// Appends the `lib` listfile for the given packages.
pub fn write_libs(sb: &mut String, fetch_packages: &Vec<FetchPackage>)
    ensures
        final(sb)@ == old(sb)@ + libs_manifest(fetch_packages@),
        ends_in_one_newline(final(sb)@),
{
    let ghost start = sb@;
    sb.append("include(FetchContent)\n\n");
    let mut names: Vec<String> = Vec::new();
    let mut i: usize = 0;
    assert(packages_text(fetch_packages@.take(0)) =~= Seq::<char>::empty());
    while i < fetch_packages.len()
        invariant
            i <= fetch_packages.len(),
            sb@ == start + "include(FetchContent)\n\n"@ + packages_text(fetch_packages@.take(i as int)),
            strs(names@) == package_names(fetch_packages@.take(i as int)),
        decreases fetch_packages.len() - i,
    {
        write_package(sb, &fetch_packages[i]);
        let ghost prev = names@;
        names.push(fetch_packages[i].name.clone());
        let ghost taken = fetch_packages@.take(i + 1);
        assert(taken.drop_last() =~= fetch_packages@.take(i as int));
        assert(sb@ =~= start + "include(FetchContent)\n\n"@ + packages_text(taken));
        assert(strs(names@) =~= strs(prev).push(fetch_packages@[i as int].name@));
        assert(package_names(taken) =~= package_names(fetch_packages@.take(i as int)).push(
            fetch_packages@[i as int].name@,
        ));
        i += 1;
    }
    assert(fetch_packages@.take(i as int) =~= fetch_packages@);
    sb.append("message(STATUS \"Fetching packages\")\n");
    sb.append("FetchContent_MakeAvailable(");
    write_spaced(sb, &names);
    sb.append(")\n");
    assert(sb@ =~= start + libs_manifest(fetch_packages@));
    proof {
        lemma_close_line();
        let head = start + "include(FetchContent)\n\n"@ + packages_text(fetch_packages@)
            + "message(STATUS \"Fetching packages\")\n"@ + "FetchContent_MakeAvailable("@ + spaced(
            strs(names@),
        );
        lemma_close_suffix(head, ")\n"@);
        assert(sb@ =~= head + ")\n"@);
    }
}

} // verus!
