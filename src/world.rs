use vstd::prelude::*;

verus! {

/// An entry of the scene graph: indices into the world's attribute arrays.
#[derive(Clone, Copy, Debug, PartialEq, Eq, Structural)]
pub struct Node {
    pub transform_index: usize,
    pub camera_index: Option<usize>,
    pub metadata_index: usize,
}

/// Human-readable data attached to a node.
#[derive(Debug)]
pub struct Metadata {
    pub name: String,
}

/// A hierarchy over a subset of the world's nodes. Graph node `g` stands for
/// world node `node_indices[g]`; an edge `(p, c)` makes graph node `c` a child
/// of graph node `p`.
#[derive(Debug)]
pub struct SceneGraph {
    pub node_indices: Vec<usize>,
    pub edges: Vec<(usize, usize)>,
}

/// One scene: its hierarchy and the graph node of its controllable camera.
#[derive(Debug)]
pub struct Scene {
    pub graph: SceneGraph,
    pub default_camera_graph_node_index: Option<usize>,
}

/// The scene graph of an imported asset: flat attribute arrays addressed by
/// index. `T` is the transform record and `C` the camera record.
#[derive(Debug)]
pub struct World<T, C> {
    pub nodes: Vec<Node>,
    pub transforms: Vec<T>,
    pub cameras: Vec<C>,
    pub metadata: Vec<Metadata>,
    pub scenes: Vec<Scene>,
    pub default_scene_index: Option<usize>,
}

/// The name that marks the camera driven by user input.
pub open spec fn main_camera_name() -> Seq<char> {
    "Main Camera"@
}

impl Node {
    /// Every index of the node points at a live element.
    pub open spec fn wf_in(self, n_transforms: nat, n_cameras: nat, n_metadata: nat) -> bool {
        &&& self.transform_index < n_transforms
        &&& self.metadata_index < n_metadata
        &&& (self.camera_index matches Some(c) ==> c < n_cameras)
    }
}

/// The parent of graph node `c` under `edges`: the parent of the last edge
/// whose child is `c`.
pub open spec fn parent_of(edges: Seq<(usize, usize)>, c: usize) -> Option<usize>
    decreases edges.len(),
{
    if edges.len() == 0 {
        None
    } else if edges.last().1 == c {
        Some(edges.last().0)
    } else {
        parent_of(edges.drop_last(), c)
    }
}

/// Following parents from `g` reaches a root in at most `fuel` steps.
pub open spec fn rooted(edges: Seq<(usize, usize)>, g: usize, fuel: nat) -> bool
    decreases fuel,
{
    match parent_of(edges, g) {
        None => true,
        Some(p) => fuel > 0 && rooted(edges, p, (fuel - 1) as nat),
    }
}

proof fn lemma_no_parent_beyond(edges: Seq<(usize, usize)>, bound: usize, c: usize)
    requires
        forall|e: int| 0 <= e < edges.len() ==> (#[trigger] edges[e]).1 < bound,
        c >= bound,
    ensures
        parent_of(edges, c) is None,
    decreases edges.len(),
{
    if edges.len() > 0 {
        assert(edges.last() == edges[edges.len() - 1]);
        lemma_no_parent_beyond(edges.drop_last(), bound, c);
    }
}

proof fn lemma_rooted_more_fuel(edges: Seq<(usize, usize)>, g: usize, fuel: nat)
    requires
        rooted(edges, g, fuel),
    ensures
        rooted(edges, g, fuel + 1),
    decreases fuel,
{
    if let Some(p) = parent_of(edges, g) {
        lemma_rooted_more_fuel(edges, p, (fuel - 1) as nat);
    }
}

/// The parent of graph node `c` under `edges`.
fn find_parent(edges: &Vec<(usize, usize)>, c: usize) -> (r: Option<usize>)
    ensures
        r == parent_of(edges@, c),
{
    let mut i: usize = edges.len();
    assert(edges@.subrange(0, i as int) =~= edges@);
    while i > 0
        invariant
            0 <= i <= edges@.len(),
            parent_of(edges@, c) == parent_of(edges@.subrange(0, i as int), c),
        decreases i,
    {
        let ghost sub = edges@.subrange(0, i as int);
        assert(sub.last() == edges@[i - 1]);
        assert(sub.drop_last() =~= edges@.subrange(0, i - 1));
        let (p, child) = edges[i - 1];
        if child == c {
            return Some(p);
        }
        i = i - 1;
    }
    None
}

/// Whether following parents from `g` reaches a root in at most `fuel` steps.
fn is_rooted(edges: &Vec<(usize, usize)>, g: usize, fuel: usize) -> (r: bool)
    ensures
        r == rooted(edges@, g, fuel as nat),
{
    let mut cur = g;
    let mut k = fuel;
    loop
        invariant
            rooted(edges@, g, fuel as nat) == rooted(edges@, cur, k as nat),
        decreases k,
    {
        match find_parent(edges, cur) {
            None => return true,
            Some(p) => {
                if k == 0 {
                    return false;
                }
                cur = p;
                k = k - 1;
            },
        }
    }
}

impl SceneGraph {
    /// An empty hierarchy.
    pub fn new() -> (r: SceneGraph)
        ensures
            r.node_indices@.len() == 0,
            r.edges@.len() == 0,
    {
        SceneGraph { node_indices: Vec::new(), edges: Vec::new() }
    }

    /// The edges form a forest: no graph node has two parents, and following
    /// parents from any graph node reaches a root.
    pub open spec fn is_forest(self) -> bool {
        let n = self.node_indices@.len();
        &&& forall|i: int, j: int|
            #![trigger self.edges@[i], self.edges@[j]]
            0 <= i < j < self.edges@.len() ==> self.edges@[i].1 != self.edges@[j].1
        &&& forall|g: usize| g < n ==> #[trigger] rooted(self.edges@, g, n)
    }

    /// Graph nodes reference world nodes, edges reference graph nodes, and
    /// the edges form a forest.
    pub open spec fn wf_in(self, n_nodes: nat) -> bool {
        &&& self.is_forest()
        &&& forall|g: int|
            0 <= g < self.node_indices@.len() ==> #[trigger] self.node_indices@[g] < n_nodes
        &&& forall|e: int|
            0 <= e < self.edges@.len() ==> {
                &&& (#[trigger] self.edges@[e]).0 < self.node_indices@.len()
                &&& self.edges@[e].1 < self.node_indices@.len()
            }
    }
}

impl SceneGraph {
    /// Whether the edges form a forest.
    fn check_forest(&self) -> (r: bool)
        ensures
            r == self.is_forest(),
    {
        let n_edges = self.edges.len();
        let mut i: usize = 0;
        while i < n_edges
            invariant
                0 <= i <= n_edges,
                n_edges == self.edges@.len(),
                forall|a: int, b: int|
                    #![trigger self.edges@[a], self.edges@[b]]
                    0 <= a < i && a < b < n_edges ==> self.edges@[a].1 != self.edges@[b].1,
            decreases n_edges - i,
        {
            let mut j: usize = i + 1;
            while j < n_edges
                invariant
                    i < n_edges,
                    i + 1 <= j <= n_edges,
                    n_edges == self.edges@.len(),
                    forall|a: int, b: int|
                        #![trigger self.edges@[a], self.edges@[b]]
                        0 <= a < i && a < b < n_edges ==> self.edges@[a].1 != self.edges@[b].1,
                    forall|b: int| i < b < j ==> self.edges@[i as int].1 != #[trigger] self.edges@[b].1,
                decreases n_edges - j,
            {
                if self.edges[i].1 == self.edges[j].1 {
                    assert(!self.is_forest()) by {
                        assert(self.edges@[i as int].1 == self.edges@[j as int].1);
                    }
                    return false;
                }
                j = j + 1;
            }
            i = i + 1;
        }
        let n = self.node_indices.len();
        let mut g: usize = 0;
        while g < n
            invariant
                0 <= g <= n,
                n == self.node_indices@.len(),
                forall|a: int, b: int|
                    #![trigger self.edges@[a], self.edges@[b]]
                    0 <= a < b < self.edges@.len() ==> self.edges@[a].1 != self.edges@[b].1,
                forall|h: usize| h < g ==> #[trigger] rooted(self.edges@, h, n as nat),
            decreases n - g,
        {
            if !is_rooted(&self.edges, g, n) {
                return false;
            }
            g = g + 1;
        }
        true
    }
}

impl Scene {
    /// A scene with an empty hierarchy and no camera.
    pub fn new() -> (r: Scene)
        ensures
            r.graph.node_indices@.len() == 0,
            r.graph.edges@.len() == 0,
            r.default_camera_graph_node_index is None,
    {
        Scene { graph: SceneGraph::new(), default_camera_graph_node_index: None }
    }
}

impl<T, C> World<T, C> {
    /// The world node that graph node `g` of scene `s` stands for.
    pub open spec fn graph_node(self, s: int, g: int) -> usize {
        self.scenes@[s].graph.node_indices@[g]
    }

    /// Scene `s` is well formed: its graph is over live nodes, and its camera
    /// graph node, if any, is a live graph node whose node carries a camera.
    pub open spec fn scene_wf(self, s: int) -> bool {
        let scene = self.scenes@[s];
        &&& scene.graph.wf_in(self.nodes@.len() as nat)
        &&& (scene.default_camera_graph_node_index matches Some(g) ==> {
            &&& g < scene.graph.node_indices@.len()
            &&& self.nodes@[self.graph_node(s, g as int) as int].camera_index is Some
        })
    }

    /// No index stored anywhere in the world dangles.
    pub open spec fn wf(self) -> bool {
        &&& forall|i: int|
            0 <= i < self.nodes@.len() ==> (#[trigger] self.nodes@[i]).wf_in(
                self.transforms@.len() as nat,
                self.cameras@.len() as nat,
                self.metadata@.len() as nat,
            )
        &&& forall|s: int| 0 <= s < self.scenes@.len() ==> #[trigger] self.scene_wf(s)
        &&& (self.default_scene_index matches Some(s) ==> s < self.scenes@.len())
    }

    /// An empty world.
    pub fn new() -> (r: World<T, C>)
        ensures
            r.wf(),
            r.nodes@.len() == 0,
            r.transforms@.len() == 0,
            r.cameras@.len() == 0,
            r.metadata@.len() == 0,
            r.scenes@.len() == 0,
            r.default_scene_index is None,
    {
        World {
            nodes: Vec::new(),
            transforms: Vec::new(),
            cameras: Vec::new(),
            metadata: Vec::new(),
            scenes: Vec::new(),
            default_scene_index: None,
        }
    }

    /// Whether no index stored anywhere in the world dangles.
    pub fn is_well_formed(&self) -> (r: bool)
        ensures
            r == self.wf(),
    {
        let n_transforms = self.transforms.len();
        let n_cameras = self.cameras.len();
        let n_metadata = self.metadata.len();
        let mut i: usize = 0;
        while i < self.nodes.len()
            invariant
                0 <= i <= self.nodes@.len(),
                n_transforms == self.transforms@.len(),
                n_cameras == self.cameras@.len(),
                n_metadata == self.metadata@.len(),
                forall|j: int| 0 <= j < i ==> (#[trigger] self.nodes@[j]).wf_in(
                    n_transforms as nat,
                    n_cameras as nat,
                    n_metadata as nat,
                ),
            decreases self.nodes@.len() - i,
        {
            let node = self.nodes[i];
            if node.transform_index >= n_transforms || node.metadata_index >= n_metadata {
                return false;
            }
            if let Some(c) = node.camera_index {
                if c >= n_cameras {
                    return false;
                }
            }
            i = i + 1;
        }
        let mut s: usize = 0;
        while s < self.scenes.len()
            invariant
                0 <= s <= self.scenes@.len(),
                forall|j: int| 0 <= j < self.nodes@.len() ==> (#[trigger] self.nodes@[j]).wf_in(
                    self.transforms@.len() as nat,
                    self.cameras@.len() as nat,
                    self.metadata@.len() as nat,
                ),
                forall|j: int| 0 <= j < s ==> #[trigger] self.scene_wf(j),
            decreases self.scenes@.len() - s,
        {
            if !self.is_scene_well_formed(s) {
                return false;
            }
            s = s + 1;
        }
        match self.default_scene_index {
            Some(d) => d < self.scenes.len(),
            None => true,
        }
    }

    fn is_scene_well_formed(&self, s: usize) -> (r: bool)
        requires
            s < self.scenes@.len(),
        ensures
            r == self.scene_wf(s as int),
    {
        let scene = &self.scenes[s];
        let graph = &scene.graph;
        let n_nodes = self.nodes.len();
        let n_graph = graph.node_indices.len();
        let mut g: usize = 0;
        while g < n_graph
            invariant
                0 <= g <= n_graph,
                n_graph == graph.node_indices@.len(),
                n_nodes == self.nodes@.len(),
                s < self.scenes@.len(),
                *graph == self.scenes@[s as int].graph,
                forall|j: int| 0 <= j < g ==> #[trigger] graph.node_indices@[j] < n_nodes,
            decreases n_graph - g,
        {
            if graph.node_indices[g] >= n_nodes {
                assert(!graph.wf_in(n_nodes as nat)) by {
                    assert(!(graph.node_indices@[g as int] < n_nodes));
                }
                assert(!self.scene_wf(s as int));
                return false;
            }
            g = g + 1;
        }
        let mut e: usize = 0;
        while e < graph.edges.len()
            invariant
                0 <= e <= graph.edges@.len(),
                n_graph == graph.node_indices@.len(),
                n_nodes == self.nodes@.len(),
                s < self.scenes@.len(),
                *graph == self.scenes@[s as int].graph,
                forall|j: int| 0 <= j < n_graph ==> #[trigger] graph.node_indices@[j] < n_nodes,
                forall|j: int| 0 <= j < e ==> {
                    &&& (#[trigger] graph.edges@[j]).0 < n_graph
                    &&& graph.edges@[j].1 < n_graph
                },
            decreases graph.edges@.len() - e,
        {
            let (parent, child) = graph.edges[e];
            if parent >= n_graph || child >= n_graph {
                assert(!graph.wf_in(n_nodes as nat)) by {
                    assert(graph.edges@[e as int] == (parent, child));
                }
                assert(!self.scene_wf(s as int));
                return false;
            }
            e = e + 1;
        }
        if !graph.check_forest() {
            assert(!self.scene_wf(s as int));
            return false;
        }
        match scene.default_camera_graph_node_index {
            Some(cam) => {
                if cam >= n_graph {
                    return false;
                }
                self.nodes[graph.node_indices[cam]].camera_index.is_some()
            },
            None => true,
        }
    }

    /// Appends a camera node named `"Main Camera"` (with the given transform
    /// and camera records) to the world, adds it as a root of scene
    /// `scene_index`'s hierarchy, and makes it that scene's camera.
    pub fn add_camera_to_scenegraph(&mut self, scene_index: usize, transform: T, camera: C)
        requires
            old(self).wf(),
            scene_index < old(self).scenes@.len(),
            old(self).scenes@[scene_index as int].graph.node_indices@.len() < usize::MAX,
        ensures
            final(self).wf(),
            final(self).transforms@ == old(self).transforms@.push(transform),
            final(self).cameras@ == old(self).cameras@.push(camera),
            final(self).metadata@.len() == old(self).metadata@.len() + 1,
            final(self).metadata@.drop_last() == old(self).metadata@,
            final(self).metadata@.last().name@ == main_camera_name(),
            final(self).nodes@ == old(self).nodes@.push(
                Node {
                    transform_index: old(self).transforms@.len() as usize,
                    camera_index: Some(old(self).cameras@.len() as usize),
                    metadata_index: old(self).metadata@.len() as usize,
                },
            ),
            final(self).scenes@.len() == old(self).scenes@.len(),
            forall|s: int|
                0 <= s < old(self).scenes@.len() && s != scene_index ==> (#[trigger] final(self).scenes@[s])
                    == old(self).scenes@[s],
            final(self).scenes@[scene_index as int].graph.node_indices@ == old(
                self,
            ).scenes@[scene_index as int].graph.node_indices@.push(old(self).nodes@.len() as usize),
            final(self).scenes@[scene_index as int].graph.edges@ == old(
                self,
            ).scenes@[scene_index as int].graph.edges@,
            final(self).scenes@[scene_index as int].default_camera_graph_node_index == Some(
                old(self).scenes@[scene_index as int].graph.node_indices@.len() as usize,
            ),
            final(self).default_scene_index == old(self).default_scene_index,
    {
        let transform_index = self.transforms.len();
        let camera_index = self.cameras.len();
        let metadata_index = self.metadata.len();
        let node_index = self.nodes.len();
        self.transforms.push(transform);
        self.cameras.push(camera);
        self.metadata.push(Metadata { name: "Main Camera".to_owned() });
        self.nodes.push(
            Node { transform_index, camera_index: Some(camera_index), metadata_index },
        );
        let ghost mid = *self;
        assert(forall|i: int| 0 <= i < mid.nodes@.len() ==> (#[trigger] mid.nodes@[i]).wf_in(
            mid.transforms@.len() as nat,
            mid.cameras@.len() as nat,
            mid.metadata@.len() as nat,
        )) by {
            assert forall|i: int| 0 <= i < mid.nodes@.len() implies (#[trigger] mid.nodes@[i]).wf_in(
                mid.transforms@.len() as nat,
                mid.cameras@.len() as nat,
                mid.metadata@.len() as nat,
            ) by {
                if i < node_index {
                    assert(old(self).nodes@[i] == mid.nodes@[i]);
                }
            }
        }
        assert forall|s: int| 0 <= s < mid.scenes@.len() implies #[trigger] mid.scene_wf(s) by {
            assert(old(self).scene_wf(s));
            if let Some(g) = mid.scenes@[s].default_camera_graph_node_index {
                assert(mid.nodes@[mid.graph_node(s, g as int) as int] == old(self).nodes@[old(self).graph_node(s, g as int) as int]);
            }
        }
        let mut scene = self.scenes.remove(scene_index);
        let graph_node = scene.graph.node_indices.len();
        scene.graph.node_indices.push(node_index);
        scene.default_camera_graph_node_index = Some(graph_node);
        self.scenes.insert(scene_index, scene);
        assert forall|s: int| 0 <= s < self.scenes@.len() implies #[trigger] self.scene_wf(s) by {
            if s != scene_index {
                assert(self.scenes@[s] == mid.scenes@[s]);
                assert(mid.scene_wf(s));
            } else {
                assert(mid.scene_wf(s));
                let g = self.scenes@[s].graph;
                let og = mid.scenes@[s].graph;
                assert(g.edges@ == og.edges@);
                assert forall|h: usize| h < g.node_indices@.len() implies #[trigger] rooted(
                    g.edges@,
                    h,
                    g.node_indices@.len(),
                ) by {
                    if h < graph_node {
                        assert(rooted(og.edges@, h, og.node_indices@.len()));
                        lemma_rooted_more_fuel(og.edges@, h, og.node_indices@.len());
                    } else {
                        assert forall|e: int| 0 <= e < og.edges@.len() implies (#[trigger] og.edges@[e]).1 < graph_node by {}
                        lemma_no_parent_beyond(og.edges@, graph_node, h);
                    }
                }
                assert(g.is_forest());
                assert forall|k: int| 0 <= k < g.node_indices@.len() implies #[trigger] g.node_indices@[k] < self.nodes@.len() by {
                    if k < graph_node {
                        assert(g.node_indices@[k] == mid.scenes@[s].graph.node_indices@[k]);
                    }
                }
            }
        }
    }
}

} // verus!
