//! The CLI's registry of known nodes.
use vstd::prelude::*;
use vstd::string::*;

verus! {

/// Per-node runtime configuration.
#[derive(Clone, Debug)]
pub struct NodeConfig {
    /// The port of the node's manager endpoint.
    pub port: u16,
    pub pid: Option<i32>,
    /// The node's state directory.
    pub state_dir: String,
}

impl NodeConfig {
    /// A copy of this configuration, field for field.
    pub fn duplicate(&self) -> (r: NodeConfig)
        ensures
            r == *self,
    {
        NodeConfig { port: self.port, pid: self.pid, state_dir: self.state_dir.clone() }
    }
}

/// Whether `i` is the first position of `nodes` registered under `name`.
pub open spec fn is_first_named(nodes: Seq<(String, NodeConfig)>, name: Seq<char>, i: int) -> bool {
    &&& 0 <= i < nodes.len()
    &&& nodes[i].0@ == name
    &&& forall|j: int| 0 <= j < i ==> #[trigger] nodes[j].0@ != name
}

/// Whether some node of `nodes` is registered under `name`.
pub open spec fn has_node(nodes: Seq<(String, NodeConfig)>, name: Seq<char>) -> bool {
    exists|i: int| 0 <= i < nodes.len() && #[trigger] nodes[i].0@ == name
}

/// The configuration registered under `name`, if any.
pub open spec fn node_lookup(nodes: Seq<(String, NodeConfig)>, name: Seq<char>) -> Option<NodeConfig> {
    if has_node(nodes, name) {
        Some(nodes[choose|i: int| is_first_named(nodes, name, i)].1)
    } else {
        None
    }
}

/// The name a node selection resolves to: the given one, else the default.
pub open spec fn resolved_name(api_node: Seq<char>, name: Option<String>) -> Seq<char> {
    match name {
        Some(n) => n@,
        None => api_node,
    }
}

/// The main CLI configuration: the default node's alias and the known
/// nodes by name.
#[derive(Clone, Debug)]
pub struct OckamConfig {
    pub api_node: String,
    pub nodes: Vec<(String, NodeConfig)>,
}

/// A registered node, where `nodes` holds no name twice.
pub proof fn lemma_lookup_unique(nodes: Seq<(String, NodeConfig)>, i: int)
    requires
        0 <= i < nodes.len(),
        forall|a: int, b: int|
            0 <= a < b < nodes.len() ==> #[trigger] nodes[a].0@ != #[trigger] nodes[b].0@,
    ensures
        node_lookup(nodes, nodes[i].0@) == Some(nodes[i].1),
{
    let k = nodes[i].0@;
    assert(is_first_named(nodes, k, i));
    let f = choose|f: int| is_first_named(nodes, k, f);
    if f != i {
        if f < i {
            assert(nodes[f].0@ != nodes[i].0@);
        } else {
            assert(nodes[i].0@ != nodes[f].0@);
        }
    }
}

impl OckamConfig {
    /// No node name is registered twice.
    pub open spec fn wf(self) -> bool {
        forall|a: int, b: int|
            0 <= a < b < self.nodes@.len() ==> #[trigger] self.nodes@[a].0@
                != #[trigger] self.nodes@[b].0@
    }

    /// What `select_node` returns for `name`.
    pub open spec fn selected(self, name: Option<String>) -> Option<NodeConfig> {
        node_lookup(self.nodes@, resolved_name(self.api_node@, name))
    }

    /// The configuration used where none has been stored yet: the default
    /// node is `default`, and no node is known.
    pub fn default_values() -> (r: OckamConfig)
        ensures
            r.api_node@ == "default"@,
            r.nodes@.len() == 0,
            r.wf(),
    {
        OckamConfig { api_node: String::from_str("default"), nodes: Vec::new() }
    }

    /// Resolves a node alias, `None` standing for the default node, to the
    /// configuration registered under it; `None` where no node has that name.
    pub fn select_node(&self, name: &Option<String>) -> (r: Option<NodeConfig>)
        ensures
            r == self.selected(*name),
    {
        let target: &String = match name {
            Some(n) => n,
            None => &self.api_node,
        };
        let n = self.nodes.len();
        let mut i: usize = 0;
        while i < n
            invariant
                n == self.nodes@.len(),
                target@ == resolved_name(self.api_node@, *name),
                i <= n,
                forall|j: int| 0 <= j < i ==> #[trigger] self.nodes@[j].0@ != target@,
            decreases n - i,
        {
            if self.nodes[i].0 == *target {
                proof {
                    let f = choose|k: int| is_first_named(self.nodes@, target@, k);
                    assert(is_first_named(self.nodes@, target@, i as int));
                    if f < i {
                        assert(self.nodes@[f].0@ != target@);
                    } else if f > i {
                        assert(self.nodes@[i as int].0@ != target@);
                    }
                }
                return Some(self.nodes[i].1.duplicate());
            }
            i = i + 1;
        }
        None
    }
}

impl OckamConfig {
    /// Registers `node` under `name`, replacing the configuration already
    /// registered under that name, if any; every other name keeps its node.
    pub fn insert_node(&mut self, name: String, node: NodeConfig)
        requires
            old(self).wf(),
        ensures
            final(self).wf(),
            final(self).api_node == old(self).api_node,
            node_lookup(final(self).nodes@, name@) == Some(node),
            forall|k: Seq<char>|
                k != name@ ==> #[trigger] node_lookup(final(self).nodes@, k) == node_lookup(
                    old(self).nodes@,
                    k,
                ),
    {
        let ghost name_v = name@;
        let ghost old_nodes = self.nodes@;
        let n = self.nodes.len();
        let mut i: usize = 0;
        while i < n
            invariant
                n == self.nodes@.len(),
                self.nodes@ == old_nodes,
                old_nodes == old(self).nodes@,
                self.api_node == old(self).api_node,
                self.wf(),
                name@ == name_v,
                i <= n,
                forall|j: int| 0 <= j < i ==> #[trigger] self.nodes@[j].0@ != name_v,
            decreases n - i,
        {
            if self.nodes[i].0 == name {
                self.nodes.remove(i);
                self.nodes.insert(i, (name, node));
                let ghost new_nodes = self.nodes@;
                assert(new_nodes =~= old_nodes.update(i as int, (name, node)));
                assert(self.wf()) by {
                    assert forall|a: int, b: int| 0 <= a < b < new_nodes.len() implies #[trigger] new_nodes[a].0@
                        != #[trigger] new_nodes[b].0@ by {
                        assert(old_nodes[a].0@ != old_nodes[b].0@);
                    }
                }
                proof {
                    lemma_lookup_unique(new_nodes, i as int);
                    assert forall|k: Seq<char>| k != name_v implies #[trigger] node_lookup(new_nodes, k)
                        == node_lookup(old_nodes, k) by {
                        lemma_lookup_other(old_nodes, new_nodes, k);
                    }
                }
                return;
            }
            i = i + 1;
        }
        self.nodes.push((name, node));
        let ghost new_nodes = self.nodes@;
        assert(new_nodes =~= old_nodes.push((name, node)));
        assert(self.wf()) by {
            assert forall|a: int, b: int| 0 <= a < b < new_nodes.len() implies #[trigger] new_nodes[a].0@
                != #[trigger] new_nodes[b].0@ by {
                if b < old_nodes.len() {
                    assert(old_nodes[a].0@ != old_nodes[b].0@);
                } else {
                    assert(old_nodes[a].0@ != name_v);
                }
            }
        }
        proof {
            lemma_lookup_unique(new_nodes, n as int);
            assert forall|k: Seq<char>| k != name_v implies #[trigger] node_lookup(new_nodes, k)
                == node_lookup(old_nodes, k) by {
                lemma_lookup_other(old_nodes, new_nodes, k);
            }
        }
    }
}

/// Lookups of a name that is registered alike in two registries agree.
proof fn lemma_lookup_other(old_nodes: Seq<(String, NodeConfig)>, new_nodes: Seq<(String, NodeConfig)>, k: Seq<char>)
    requires
        old_nodes.len() <= new_nodes.len(),
        forall|j: int| 0 <= j < old_nodes.len() && #[trigger] old_nodes[j].0@ == k ==> new_nodes[j] == old_nodes[j],
        forall|j: int| 0 <= j < old_nodes.len() && #[trigger] old_nodes[j].0@ != k ==> #[trigger] new_nodes[j].0@ != k,
        forall|j: int| old_nodes.len() <= j < new_nodes.len() ==> #[trigger] new_nodes[j].0@ != k,
    ensures
        node_lookup(new_nodes, k) == node_lookup(old_nodes, k),
{
    if has_node(old_nodes, k) {
        let w = choose|i: int| 0 <= i < old_nodes.len() && #[trigger] old_nodes[i].0@ == k;
        lemma_first_named(old_nodes, k, w);
        let f = choose|i: int| is_first_named(old_nodes, k, i);
        assert(is_first_named(new_nodes, k, f)) by {
            assert forall|j: int| 0 <= j < f implies #[trigger] new_nodes[j].0@ != k by {
                assert(old_nodes[j].0@ != k);
            }
        }
        let g = choose|i: int| is_first_named(new_nodes, k, i);
        if g < f {
            assert(new_nodes[g].0@ == k);
            if old_nodes[g].0@ != k {
            }
        } else if g > f {
            assert(new_nodes[f].0@ == k);
        }
        assert(new_nodes[f] == old_nodes[f]);
    } else {
        assert forall|i: int| 0 <= i < new_nodes.len() implies #[trigger] new_nodes[i].0@ != k by {
            if i < old_nodes.len() {
                assert(old_nodes[i].0@ != k);
            }
        }
    }
}

/// A name registered somewhere has a first position.
proof fn lemma_first_named(nodes: Seq<(String, NodeConfig)>, k: Seq<char>, i: int)
    requires
        0 <= i < nodes.len(),
        nodes[i].0@ == k,
    ensures
        exists|f: int| is_first_named(nodes, k, f),
    decreases i,
{
    if exists|j: int| 0 <= j < i && #[trigger] nodes[j].0@ == k {
        let j = choose|j: int| 0 <= j < i && #[trigger] nodes[j].0@ == k;
        lemma_first_named(nodes, k, j);
    } else {
        assert(is_first_named(nodes, k, i));
    }
}

/// Selecting no node selects the default node; selecting a name that no
/// node is registered under selects nothing.
pub proof fn lemma_select_default_and_unknown(cfg: OckamConfig, unknown: String)
    requires
        forall|i: int| 0 <= i < cfg.nodes@.len() ==> #[trigger] cfg.nodes@[i].0@ != unknown@,
    ensures
        cfg.selected(None) == cfg.selected(Some(cfg.api_node)),
        cfg.selected(Some(unknown)) == None::<NodeConfig>,
{
}

} // verus!
