//! The abstract source tree and the plan that materialises it.
use vstd::prelude::*;

verus! {

/// A node of the abstract source tree: a directory with ordered children, or
/// a file with its text.
pub enum SourceNode {
    Directory { name: String, children: Vec<SourceNode> },
    File { name: String, contents: String },
}

/// The mathematical value of a `SourceNode`.
pub ghost enum NodeModel {
    Dir { name: Seq<char>, children: Seq<NodeModel> },
    File { name: Seq<char>, contents: Seq<char> },
}

/// The whole tree: the nodes that stand directly under the output root.
pub struct SourceTree {
    pub children: Vec<SourceNode>,
}

/// One step of writing a tree onto storage. Paths are relative to the output
/// root, one component per element.
pub enum FsAction {
    CreateDir { path: Vec<String> },
    WriteFile { path: Vec<String>, contents: String },
}

/// The mathematical value of an `FsAction`.
pub ghost enum ActionModel {
    CreateDir { path: Seq<Seq<char>> },
    WriteFile { path: Seq<Seq<char>>, contents: Seq<char> },
}

pub open spec fn strs(v: Seq<String>) -> Seq<Seq<char>> {
    v.map_values(|s: String| s@)
}

pub open spec fn node_view(n: SourceNode) -> NodeModel
    decreases n, 1nat,
{
    match n {
        SourceNode::Directory { name, children } => NodeModel::Dir {
            name: name@,
            children: nodes_view(children@),
        },
        SourceNode::File { name, contents } => NodeModel::File { name: name@, contents: contents@ },
    }
}

pub open spec fn nodes_view(s: Seq<SourceNode>) -> Seq<NodeModel>
    decreases s, 0nat,
{
    if s.len() == 0 {
        Seq::empty()
    } else {
        nodes_view(s.drop_last()).push(node_view(s.last()))
    }
}

impl View for SourceNode {
    type V = NodeModel;

    open spec fn view(&self) -> NodeModel {
        node_view(*self)
    }
}

impl View for SourceTree {
    type V = Seq<NodeModel>;

    open spec fn view(&self) -> Seq<NodeModel> {
        nodes_view(self.children@)
    }
}

impl View for FsAction {
    type V = ActionModel;

    open spec fn view(&self) -> ActionModel {
        match self {
            FsAction::CreateDir { path } => ActionModel::CreateDir { path: strs(path@) },
            FsAction::WriteFile { path, contents } => ActionModel::WriteFile {
                path: strs(path@),
                contents: contents@,
            },
        }
    }
}

pub open spec fn actions_view(s: Seq<FsAction>) -> Seq<ActionModel> {
    s.map_values(|a: FsAction| a@)
}

/// The writing plan of one node under the directory `prefix`: a directory is
/// created before anything inside it, depth first, children in order.
pub open spec fn node_plan(n: NodeModel, prefix: Seq<Seq<char>>) -> Seq<ActionModel>
    decreases n, 1nat,
{
    match n {
        NodeModel::Dir { name, children } => seq![
            ActionModel::CreateDir { path: prefix.push(name) },
        ] + nodes_plan(children, prefix.push(name)),
        NodeModel::File { name, contents } => seq![
            ActionModel::WriteFile { path: prefix.push(name), contents },
        ],
    }
}

pub open spec fn nodes_plan(s: Seq<NodeModel>, prefix: Seq<Seq<char>>) -> Seq<ActionModel>
    decreases s, 0nat,
{
    if s.len() == 0 {
        Seq::empty()
    } else {
        nodes_plan(s.drop_last(), prefix) + node_plan(s.last(), prefix)
    }
}


pub proof fn lemma_nodes_view_push(s: Seq<SourceNode>, x: SourceNode)
    ensures
        nodes_view(s.push(x)) == nodes_view(s).push(node_view(x)),
{
    assert(s.push(x).drop_last() =~= s);
}

/// Whether the file written at step `i` of `plan` lands in `root` or in a
/// directory that an earlier step created.
pub open spec fn parent_ready(plan: Seq<ActionModel>, i: int, root: Seq<Seq<char>>) -> bool {
    match plan[i] {
        ActionModel::WriteFile { path, .. } => path.len() > 0 && (path.drop_last() == root
            || exists|j: int|
            0 <= j < i && #[trigger] plan[j] == ActionModel::CreateDir { path: path.drop_last() }),
        ActionModel::CreateDir { .. } => true,
    }
}

pub open spec fn parents_made_first(plan: Seq<ActionModel>, root: Seq<Seq<char>>) -> bool {
    forall|i: int| 0 <= i < plan.len() ==> #[trigger] parent_ready(plan, i, root)
}

proof fn lemma_concat_ready(a: Seq<ActionModel>, b: Seq<ActionModel>, root: Seq<Seq<char>>)
    requires
        parents_made_first(a, root),
        parents_made_first(b, root),
    ensures
        parents_made_first(a + b, root),
{
    let c = a + b;
    assert forall|i: int| 0 <= i < c.len() implies #[trigger] parent_ready(c, i, root) by {
        if i < a.len() {
            assert(parent_ready(a, i, root));
            assert(c[i] == a[i]);
            if let ActionModel::WriteFile { path, .. } = a[i] {
                if path.drop_last() != root {
                    let j = choose|j: int|
                        0 <= j < i && #[trigger] a[j] == ActionModel::CreateDir { path: path.drop_last() };
                    assert(c[j] == a[j]);
                }
            }
        } else {
            let k = i - a.len();
            assert(parent_ready(b, k, root));
            assert(c[i] == b[k]);
            if let ActionModel::WriteFile { path, .. } = b[k] {
                if path.drop_last() != root {
                    let j = choose|j: int|
                        0 <= j < k && #[trigger] b[j] == ActionModel::CreateDir { path: path.drop_last() };
                    assert(c[j + a.len()] == b[j]);
                }
            }
        }
    }
}

proof fn lemma_node_plan_ready(n: NodeModel, prefix: Seq<Seq<char>>)
    ensures
        parents_made_first(node_plan(n, prefix), prefix),
    decreases n, 1nat,
{
    let plan = node_plan(n, prefix);
    match n {
        NodeModel::Dir { name, children } => {
            let inner = prefix.push(name);
            assert(inner.drop_last() =~= prefix);
            let head = seq![ActionModel::CreateDir { path: inner }];
            let rest = nodes_plan(children, inner);
            lemma_nodes_plan_ready(children, inner);
            assert(plan == head + rest);
            assert forall|i: int| 0 <= i < plan.len() implies #[trigger] parent_ready(plan, i, prefix) by {
                if i > 0 {
                    let k = i - 1;
                    assert(parent_ready(rest, k, inner));
                    assert(plan[i] == rest[k]);
                    if let ActionModel::WriteFile { path, .. } = rest[k] {
                        if path.drop_last() == inner {
                            assert(plan[0] == ActionModel::CreateDir { path: path.drop_last() });
                        } else {
                            let j = choose|j: int|
                                0 <= j < k && #[trigger] rest[j] == ActionModel::CreateDir {
                                    path: path.drop_last(),
                                };
                            assert(plan[j + 1] == rest[j]);
                        }
                    }
                }
            }
        },
        NodeModel::File { name, .. } => {
            assert(prefix.push(name).drop_last() =~= prefix);
            assert(parent_ready(plan, 0, prefix));
        },
    }
}

proof fn lemma_nodes_plan_ready(s: Seq<NodeModel>, prefix: Seq<Seq<char>>)
    ensures
        parents_made_first(nodes_plan(s, prefix), prefix),
    decreases s, 0nat,
{
    if s.len() > 0 {
        lemma_nodes_plan_ready(s.drop_last(), prefix);
        lemma_node_plan_ready(s.last(), prefix);
        lemma_concat_ready(nodes_plan(s.drop_last(), prefix), node_plan(s.last(), prefix), prefix);
    }
}

/// Writing a tree in the order of its plan never writes a file before its
/// directory: each file either lies directly in the output root or in a
/// directory created at an earlier step.
pub proof fn lemma_render_parents_first(tree: Seq<NodeModel>)
    ensures
        forall|i: int|
            0 <= i < nodes_plan(tree, Seq::empty()).len() ==> #[trigger] parent_ready(
                nodes_plan(tree, Seq::empty()),
                i,
                Seq::empty(),
            ),
{
    lemma_nodes_plan_ready(tree, Seq::empty());
}


fn copied(path: &Vec<String>) -> (r: Vec<String>)
    ensures
        strs(r@) == strs(path@),
{
    let mut r: Vec<String> = Vec::new();
    let mut i: usize = 0;
    while i < path.len()
        invariant
            i <= path.len(),
            strs(r@) == strs(path@.take(i as int)),
        decreases path.len() - i,
    {
        let ghost old_r = r@;
        r.push(path[i].clone());
        assert(path@.take(i + 1) =~= path@.take(i as int).push(path@[i as int]));
        assert(strs(r@) =~= strs(old_r).push(path@[i as int]@));
        assert(strs(path@.take(i + 1)) =~= strs(path@.take(i as int)).push(path@[i as int]@));
        i += 1;
    }
    assert(path@.take(i as int) =~= path@);
    r
}

fn path_with(prefix: &Vec<String>, name: &String) -> (r: Vec<String>)
    ensures
        strs(r@) == strs(prefix@).push(name@),
{
    let mut r = copied(prefix);
    let ghost before = r@;
    r.push(name.clone());
    assert(strs(r@) =~= strs(before).push(name@));
    r
}

fn plan_node(node: &SourceNode, prefix: &Vec<String>, out: &mut Vec<FsAction>)
    ensures
        actions_view(final(out)@) == actions_view(old(out)@) + node_plan(node@, strs(prefix@)),
    decreases node,
{
    let ghost start = actions_view(out@);
    match node {
        SourceNode::Directory { name, children } => {
            let path = path_with(prefix, name);
            let created = copied(&path);
            out.push(FsAction::CreateDir { path: created });
            assert(actions_view(out@) =~= start + seq![
                ActionModel::CreateDir { path: strs(prefix@).push(name@) },
            ]);
            plan_nodes(children, &path, out);
            assert(actions_view(out@) =~= start + node_plan(node@, strs(prefix@)));
        },
        SourceNode::File { name, contents } => {
            let path = path_with(prefix, name);
            out.push(FsAction::WriteFile { path, contents: contents.clone() });
            assert(actions_view(out@) =~= start + node_plan(node@, strs(prefix@)));
        },
    }
}

fn plan_nodes(children: &Vec<SourceNode>, prefix: &Vec<String>, out: &mut Vec<FsAction>)
    ensures
        actions_view(final(out)@) == actions_view(old(out)@) + nodes_plan(
            nodes_view(children@),
            strs(prefix@),
        ),
    decreases children,
{
    let ghost start = actions_view(out@);
    let mut i: usize = 0;
    assert(nodes_view(children@.take(0)) =~= Seq::<NodeModel>::empty());
    assert(actions_view(out@) =~= start + nodes_plan(nodes_view(children@.take(0)), strs(prefix@)));
    while i < children.len()
        invariant
            i <= children.len(),
            actions_view(out@) == start + nodes_plan(
                nodes_view(children@.take(i as int)),
                strs(prefix@),
            ),
        decreases children.len() - i,
    {
        let ghost before = nodes_view(children@.take(i as int));
        plan_node(&children[i], prefix, out);
        assert(children@.take(i + 1).drop_last() =~= children@.take(i as int));
        let ghost after = nodes_view(children@.take(i + 1));
        assert(after.drop_last() =~= before);
        assert(actions_view(out@) =~= start + nodes_plan(after, strs(prefix@)));
        i += 1;
    }
    assert(children@.take(i as int) =~= children@);
}

impl SourceTree {
    /// The steps that write this tree under an output root which already
    /// exists: each directory is created before anything inside it, and the
    /// nodes are visited depth first, children in order.
    pub fn render(&self) -> (r: Vec<FsAction>)
        ensures
            actions_view(r@) == nodes_plan(self@, Seq::empty()),
    {
        let mut out: Vec<FsAction> = Vec::new();
        let root: Vec<String> = Vec::new();
        assert(strs(root@) =~= Seq::<Seq<char>>::empty());
        assert(actions_view(out@) =~= Seq::<ActionModel>::empty());
        plan_nodes(&self.children, &root, &mut out);
        assert(actions_view(out@) =~= nodes_plan(self@, Seq::empty()));
        out
    }
}

} // verus!
