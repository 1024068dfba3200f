use vstd::prelude::*;

verus! {

/// One node of the search tree: its pose and the index of its parent
/// (`None` for the root).
pub struct Node<P> {
    pub pose: P,
    pub parent: Option<usize>,
}

/// The nodes form a tree rooted at index 0: the root has no parent and every
/// other node links to a node inserted before it.
pub open spec fn well_linked<P>(s: Seq<Node<P>>) -> bool {
    &&& s.len() > 0
    &&& s[0].parent is None
    &&& forall|i: int|
        0 < i < s.len() ==> (#[trigger] s[i]).parent is Some && (s[i].parent->Some_0 as int) < i
}

/// Indices of the nodes on the way from the root down to node `i`.
pub open spec fn path_from_root<P>(s: Seq<Node<P>>, i: int) -> Seq<usize>
    decreases i,
{
    if 0 <= i < s.len() {
        match s[i].parent {
            Some(p) => if (p as int) < i {
                path_from_root(s, p as int).push(i as usize)
            } else {
                seq![i as usize]
            },
            None => seq![i as usize],
        }
    } else {
        seq![]
    }
}

/// Reconstructed paths start at the root, end at the requested node, and each
/// step goes from a node to one of its children.
pub proof fn lemma_path_shape<P>(s: Seq<Node<P>>, i: int)
    requires
        well_linked(s),
        0 <= i < s.len(),
        s.len() <= usize::MAX,
    ensures
        path_from_root(s, i).len() > 0,
        path_from_root(s, i)[0] == 0,
        path_from_root(s, i).last() == i,
        forall|k: int|
            0 <= k < path_from_root(s, i).len() ==> (#[trigger] path_from_root(s, i)[k] as int)
                < s.len(),
        forall|k: int|
            0 <= k < path_from_root(s, i).len() - 1 ==> s[#[trigger] path_from_root(s, i)[k
                + 1] as int].parent == Some(path_from_root(s, i)[k]),
    decreases i,
{
    if i > 0 {
        let p = s[i].parent->Some_0;
        lemma_path_shape(s, p as int);
        let prev = path_from_root(s, p as int);
        assert(path_from_root(s, i) == prev.push(i as usize));
        assert forall|k: int| 0 <= k < path_from_root(s, i).len() - 1 implies s[
            #[trigger] path_from_root(s, i)[k + 1] as int].parent == Some(
            path_from_root(s, i)[k],
        ) by {
            if k + 1 == prev.len() {
                assert(path_from_root(s, i)[k + 1] == i as usize);
                assert(path_from_root(s, i)[k] == p);
            } else {
                assert(path_from_root(s, i)[k + 1] == prev[k + 1]);
                assert(path_from_root(s, i)[k] == prev[k]);
            }
        }
    }
}

/// Append-only search tree, kept as an arena of nodes addressed by index.
pub struct Tree<P> {
    nodes: Vec<Node<P>>,
}

impl<P> View for Tree<P> {
    type V = Seq<Node<P>>;

    closed spec fn view(&self) -> Seq<Node<P>> {
        self.nodes@
    }
}

impl<P> Tree<P> {
    pub open spec fn wf(&self) -> bool {
        well_linked(self@)
    }

    /// A tree that holds only the root.
    pub fn new(root: P) -> (r: Tree<P>)
        ensures
            r.wf(),
            r@ == seq![Node { pose: root, parent: None }],
    {
        let mut nodes: Vec<Node<P>> = Vec::new();
        nodes.push(Node { pose: root, parent: None });
        let r = Tree { nodes };
        assert(r@ =~= seq![Node { pose: root, parent: None }]);
        r
    }

    pub fn len(&self) -> (r: usize)
        ensures
            r == self@.len(),
    {
        self.nodes.len()
    }

    pub fn node(&self, i: usize) -> (r: &Node<P>)
        requires
            i < self@.len(),
        ensures
            *r == self@[i as int],
    {
        &self.nodes[i]
    }

    /// Adds a leaf below `parent` and returns its index.
    pub fn add(&mut self, pose: P, parent: usize) -> (r: usize)
        requires
            old(self).wf(),
            parent < old(self)@.len(),
        ensures
            final(self).wf(),
            r == old(self)@.len(),
            final(self)@ == old(self)@.push(Node { pose, parent: Some(parent) }),
    {
        let r = self.nodes.len();
        self.nodes.push(Node { pose, parent: Some(parent) });
        assert(forall|i: int| 0 <= i < old(self)@.len() ==> self@[i] == old(self)@[i]);
        r
    }

    /// Indices of the nodes from the root down to node `i`, in that order.
    pub fn path_to(&self, i: usize) -> (r: Vec<usize>)
        requires
            self.wf(),
            i < self@.len(),
        ensures
            r@ == path_from_root(self@, i as int),
        decreases i,
    {
        match self.nodes[i].parent {
            Some(p) => {
                if p < i {
                    let mut v = self.path_to(p);
                    v.push(i);
                    v
                } else {
                    let v = vec![i];
                    assert(v@ =~= seq![i]);
                    v
                }
            },
            None => {
                let v = vec![i];
                assert(v@ =~= seq![i]);
                v
            },
        }
    }

    /// The node whose distance key is smallest, the lowest index among equal
    /// keys. `dist[j]` is the caller's distance key of node `j` to the query
    /// point, in any encoding whose integer order is the order of distances.
    pub fn nearest(&self, dist: &Vec<u64>) -> (r: usize)
        requires
            dist@.len() == self@.len(),
            self@.len() > 0,
        ensures
            r < self@.len(),
            forall|j: int| 0 <= j < dist@.len() ==> dist@[r as int] <= #[trigger] dist@[j],
            forall|j: int| 0 <= j < r ==> dist@[r as int] < #[trigger] dist@[j],
    {
        let mut best: usize = 0;
        let mut j: usize = 1;
        while j < dist.len()
            invariant
                dist@.len() > 0,
                1 <= j <= dist@.len(),
                best < j,
                forall|k: int| 0 <= k < j ==> dist@[best as int] <= #[trigger] dist@[k],
                forall|k: int| 0 <= k < best ==> dist@[best as int] < #[trigger] dist@[k],
            decreases dist@.len() - j,
        {
            if dist[j] < dist[best] {
                best = j;
            }
            j = j + 1;
        }
        best
    }
}

} // verus!
