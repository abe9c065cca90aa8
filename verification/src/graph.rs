//! The directed article graph: nodes are page entities, edges mean "links
//! to". Storage and indexing live in petgraph's stable graph, kept behind
//! trusted wrappers whose contracts speak of the node map and edge multiset;
//! the growth policy — expansion, filtering, graceful failure — is verified
//! here.

use vstd::prelude::*;
use vstd::multiset::Multiset;
use petgraph::Directed;
use petgraph::stable_graph::StableGraph;
use crate::page::{Page, PageModel, opt_view, page_views};
use crate::extract::{spec_connections, extract_connections};

verus! {

#[verifier::external_type_specification]
#[verifier::external_body]
#[verifier::reject_recursive_types(N)]
#[verifier::reject_recursive_types(E)]
#[verifier::reject_recursive_types(Ty)]
#[verifier::reject_recursive_types(Ix)]
pub struct ExStableGraph<N, E, Ty, Ix>(StableGraph<N, E, Ty, Ix>);

#[verifier::external_type_specification]
#[verifier::external_body]
pub struct ExDirected(Directed);

/// One past the largest node or edge handle the store can assign with its
/// 32-bit index type.
pub const INDEX_LIMIT: usize = 0xFFFF_FFFF;

/// The node store: petgraph's stable graph with unit edge payloads and the
/// default 32-bit index type.
pub type ArticleStore = StableGraph<Page, (), Directed, u32>;

/// An empty node map.
pub open spec fn no_nodes() -> Map<nat, PageModel> {
    Map::empty()
}

/// An empty edge multiset.
pub open spec fn no_edges() -> Multiset<(nat, nat)> {
    Multiset::empty()
}

/// The pages the store holds, as a map from handle to page value.
pub uninterp spec fn sg_nodes(g: ArticleStore) -> Map<nat, PageModel>;

/// The directed edges the store holds, as a multiset of (source, target)
/// handle pairs: parallel edges are permitted and edges carry no payload.
pub uninterp spec fn sg_edges(g: ArticleStore) -> Multiset<(nat, nat)>;

/// Relies on petgraph's `StableGraph::default`: a freshly created graph holds
/// no nodes and no edges. `sg_nodes` and `sg_edges` name its contents.
#[verifier::external_body]
fn sg_new() -> (g: ArticleStore)
    ensures
        sg_nodes(g) == no_nodes(),
        sg_edges(g) == no_edges(),
{
    StableGraph::default()
}

/// Relies on petgraph's `StableGraph::try_add_node`: on success the weight is
/// stored under a handle that was vacant, below the index type's limit, and
/// nothing else changes; failure changes nothing and only happens when the
/// store already holds the index type's maximum number of nodes.
#[verifier::external_body]
fn sg_add_node(g: &mut ArticleStore, page: Page) -> (r: Option<usize>)
    ensures
        match r {
            Some(ix) => ix < INDEX_LIMIT && !sg_nodes(*old(g)).dom().contains(ix as nat)
                && sg_nodes(*final(g)) == sg_nodes(*old(g)).insert(ix as nat, page@) && sg_edges(
                *final(g),
            ) == sg_edges(*old(g)),
            None => sg_nodes(*final(g)) == sg_nodes(*old(g)) && sg_edges(*final(g)) == sg_edges(
                *old(g),
            ) && sg_nodes(*old(g)).dom().len() >= INDEX_LIMIT as nat,
        },
{
    match g.try_add_node(page) {
        Ok(ix) => Some(ix.index()),
        Err(_) => None,
    }
}

/// Relies on petgraph's `StableGraph::try_add_edge`: on success exactly the
/// one directed edge is added (parallel edges are allowed) and the nodes are
/// untouched; failure leaves the nodes untouched and means an endpoint is
/// absent or the store already holds the index type's maximum number of
/// edges.
#[verifier::external_body]
fn sg_add_edge(g: &mut ArticleStore, a: usize, b: usize) -> (r: bool)
    requires
        a < INDEX_LIMIT,
        b < INDEX_LIMIT,
    ensures
        r ==> sg_nodes(*old(g)).dom().contains(a as nat) && sg_nodes(*old(g)).dom().contains(
            b as nat,
        ) && sg_edges(*final(g)) == sg_edges(*old(g)).insert((a as nat, b as nat)) && sg_nodes(
            *final(g),
        ) == sg_nodes(*old(g)),
        !r ==> sg_nodes(*final(g)) == sg_nodes(*old(g)) && (!sg_nodes(*old(g)).dom().contains(
            a as nat,
        ) || !sg_nodes(*old(g)).dom().contains(b as nat) || sg_edges(*old(g)).len() >= INDEX_LIMIT
            as nat),
{
    g.try_add_edge(
        petgraph::stable_graph::NodeIndex::new(a),
        petgraph::stable_graph::NodeIndex::new(b),
        (),
    ).is_ok()
}

/// Relies on petgraph's `StableGraph::node_weight`: `Some` exactly on the
/// handles of present nodes, returning the stored weight.
#[verifier::external_body]
fn sg_node_weight<'a>(g: &'a ArticleStore, ix: usize) -> (r: Option<&'a Page>)
    requires
        ix < INDEX_LIMIT,
    ensures
        match r {
            Some(p) => sg_nodes(*g).dom().contains(ix as nat) && p@ == sg_nodes(*g)[ix as nat],
            None => !sg_nodes(*g).dom().contains(ix as nat),
        },
{
    g.node_weight(petgraph::stable_graph::NodeIndex::new(ix))
}

/// Relies on petgraph's `StableGraph::contains_edge` (via `find_edge`): true
/// exactly when at least one directed edge runs from `a` to `b`.
#[verifier::external_body]
fn sg_contains_edge(g: &ArticleStore, a: usize, b: usize) -> (r: bool)
    requires
        a < INDEX_LIMIT,
        b < INDEX_LIMIT,
    ensures
        r == (sg_edges(*g).count((a as nat, b as nat)) > 0),
{
    g.contains_edge(
        petgraph::stable_graph::NodeIndex::new(a),
        petgraph::stable_graph::NodeIndex::new(b),
    )
}

/// Failures of graph expansion, each recoverable: a traversal over many pages
/// can skip a bad handle or a full store instead of aborting.
#[derive(Debug, PartialEq, Eq)]
pub enum GraphError {
    /// The handle names no node of this graph.
    NodeNotFound,
    /// Inserting the discovered connections would exceed the store's index
    /// type.
    AtCapacity,
}

/// The page text an expansion works on: the node's own loaded body when it
/// has one, else the freshly fetched text the driver handed in.
pub open spec fn expansion_source(m: PageModel, fetched: Option<Seq<char>>) -> Seq<char> {
    if m.body is Some {
        m.body->0
    } else if fetched is Some {
        fetched->0
    } else {
        Seq::empty()
    }
}

/// The directed edges an expansion adds: one from `source` to each target
/// handle, in order.
pub open spec fn fan_out(source: nat, targets: Seq<usize>) -> Seq<(nat, nat)> {
    Seq::new(targets.len(), |j: int| (source, targets[j] as nat))
}

/// What a successful expansion of `index` guarantees, relating the node map
/// and edge multiset before and after: every connection stands under a fresh,
/// pairwise distinct handle, nothing else changed, and exactly one edge runs
/// from the expanded node to each new handle.
pub open spec fn expansion_ok(
    pre_nodes: Map<nat, PageModel>,
    pre_edges: Multiset<(nat, nat)>,
    post_nodes: Map<nat, PageModel>,
    post_edges: Multiset<(nat, nat)>,
    index: nat,
    conns: Seq<PageModel>,
    new_ixs: Seq<usize>,
) -> bool {
    &&& new_ixs.len() == conns.len()
    &&& (forall|j: int|
        0 <= j < conns.len() ==> !pre_nodes.dom().contains(#[trigger] new_ixs[j] as nat)
            && post_nodes.dom().contains(new_ixs[j] as nat) && post_nodes[new_ixs[j] as nat]
            == conns[j])
    &&& (forall|j1: int, j2: int| 0 <= j1 < j2 < conns.len() ==> new_ixs[j1] != new_ixs[j2])
    &&& (forall|k: nat|
        #[trigger] pre_nodes.dom().contains(k) ==> post_nodes.dom().contains(k) && post_nodes[k]
            == pre_nodes[k])
    &&& (forall|k: nat|
        #[trigger] post_nodes.dom().contains(k) ==> pre_nodes.dom().contains(k) || exists|j: int|
            0 <= j < conns.len() && new_ixs[j] as nat == k)
    &&& post_edges == pre_edges.add(fan_out(index, new_ixs).to_multiset())
}

/// A directed graph of article pages. Node handles are opaque, assigned at
/// insertion, and stable for the node's lifetime.
pub struct WikipediaGraph {
    graph: ArticleStore,
    ncount: usize,
    ecount: usize,
}

impl WikipediaGraph {
    /// The graph's node map: handle to page value.
    pub closed spec fn nodes(&self) -> Map<nat, PageModel> {
        sg_nodes(self.graph)
    }

    /// The graph's edges: a multiset of (source, target) handle pairs.
    pub closed spec fn edges(&self) -> Multiset<(nat, nat)> {
        sg_edges(self.graph)
    }

    /// Well-formedness: the counters match the store, everything stays below
    /// the index limit.
    pub closed spec fn wf(&self) -> bool {
        &&& sg_nodes(self.graph).dom().finite()
        &&& self.ncount as nat == sg_nodes(self.graph).dom().len()
        &&& self.ecount as nat == sg_edges(self.graph).len()
        &&& self.ncount < INDEX_LIMIT
        &&& self.ecount < INDEX_LIMIT
        &&& (forall|k: nat| sg_nodes(self.graph).dom().contains(k) ==> k < INDEX_LIMIT as nat)
        &&& (forall|e: (nat, nat)|
            sg_edges(self.graph).count(e) > 0 ==> e.0 < INDEX_LIMIT as nat && e.1 < INDEX_LIMIT
                as nat)
    }

    /// An empty directed graph.
    pub fn new() -> (r: WikipediaGraph)
        ensures
            r.wf(),
            r.nodes() == Map::<nat, PageModel>::empty(),
            r.edges() == Multiset::<(nat, nat)>::empty(),
    {
        broadcast use vstd::set::axiom_set_empty_len;

        let g = sg_new();
        proof {
            assert(sg_nodes(g).dom() =~= Set::<nat>::empty());
        }
        WikipediaGraph { graph: g, ncount: 0, ecount: 0 }
    }

    /// How many nodes the graph holds.
    pub fn node_count(&self) -> (r: usize)
        requires
            self.wf(),
        ensures
            r as nat == self.nodes().dom().len(),
    {
        self.ncount
    }

    /// How many edges the graph holds.
    pub fn edge_count(&self) -> (r: usize)
        requires
            self.wf(),
        ensures
            r as nat == self.edges().len(),
    {
        self.ecount
    }

    /// Insert a page as a new node with no edges and return its handle.
    pub fn add_page(&mut self, page: Page) -> (r: usize)
        requires
            old(self).wf(),
            old(self).nodes().dom().len() + 1 < INDEX_LIMIT as nat,
        ensures
            final(self).wf(),
            !old(self).nodes().dom().contains(r as nat),
            final(self).nodes() == old(self).nodes().insert(r as nat, page@),
            final(self).edges() == old(self).edges(),
    {
        broadcast use vstd::set::axiom_set_insert_len, vstd::set::axiom_set_insert_finite;

        let ix = match sg_add_node(&mut self.graph, page) {
            Some(ix) => ix,
            None => {
                proof {
                    assert(false);
                }
                return 0;
            },
        };
        self.ncount += 1;
        ix
    }

    /// The page stored under a handle, or nothing when the handle names no
    /// node.
    pub fn get_page(&self, index: usize) -> (r: Option<&Page>)
        requires
            self.wf(),
        ensures
            match r {
                Some(p) => self.nodes().dom().contains(index as nat) && p@ == self.nodes()[index
                    as nat],
                None => !self.nodes().dom().contains(index as nat),
            },
    {
        if index >= INDEX_LIMIT {
            return None;
        }
        sg_node_weight(&self.graph, index)
    }

    /// Whether at least one directed edge runs between two handles.
    pub fn has_edge(&self, from: usize, to: usize) -> (r: bool)
        requires
            self.wf(),
        ensures
            r == (self.edges().count(((from as nat, to as nat))) > 0),
    {
        if from >= INDEX_LIMIT || to >= INDEX_LIMIT {
            return false;
        }
        sg_contains_edge(&self.graph, from, to)
    }

    /// Expand a node: extract the connections of its page (from the node's
    /// loaded body, else from `fetched`, the text the driver fetched for the
    /// node's address), insert each surviving connection as a new node, and
    /// add one directed edge from the expanded node to each. Returns the new
    /// handles in extraction order. The expanded node itself is unchanged; an
    /// unknown handle or a store at capacity is reported, never an abort.
    #[verifier::rlimit(50)]
    pub fn expand_page(&mut self, index: usize, fetched: Option<String>) -> (r: Result<
        Vec<usize>,
        GraphError,
    >)
        requires
            old(self).wf(),
            old(self).nodes().dom().contains(index as nat) && old(self).nodes()[index
                as nat].body is None ==> fetched is Some,
        ensures
            final(self).wf(),
            match r {
                Ok(new_ixs) => ({
                    let src_nodes = old(self).nodes();
                    let conns = spec_connections(
                        expansion_source(src_nodes[index as nat], opt_view(fetched)),
                    );
                    &&& src_nodes.dom().contains(index as nat)
                    &&& expansion_ok(
                        src_nodes,
                        old(self).edges(),
                        final(self).nodes(),
                        final(self).edges(),
                        index as nat,
                        conns,
                        new_ixs@,
                    )
                }),
                Err(GraphError::NodeNotFound) => !old(self).nodes().dom().contains(index as nat)
                    && final(self).nodes() == old(self).nodes() && final(self).edges() == old(self).edges(),
                Err(GraphError::AtCapacity) => ({
                    let src_nodes = old(self).nodes();
                    let conns = spec_connections(
                        expansion_source(src_nodes[index as nat], opt_view(fetched)),
                    );
                    &&& src_nodes.dom().contains(index as nat)
                    &&& (src_nodes.dom().len() + conns.len() + 1 >= INDEX_LIMIT as nat || old(self).edges().len() + conns.len() + 1 >= INDEX_LIMIT as nat)
                    &&& final(self).nodes() == old(self).nodes()
                    &&& final(self).edges() == old(self).edges()
                }),
            },
    {
        broadcast use vstd::set::axiom_set_insert_len, vstd::set::axiom_set_insert_finite;
        broadcast use vstd::seq_lib::group_to_multiset_ensures;
        broadcast use vstd::multiset::group_multiset_axioms;

        if index >= INDEX_LIMIT {
            return Err(GraphError::NodeNotFound);
        }
        let mut conns: Vec<Page>;
        match sg_node_weight(&self.graph, index) {
            None => {
                return Err(GraphError::NodeNotFound);
            },
            Some(p) => {
                if p.body_loaded() {
                    conns = p.get_connections();
                } else {
                    match &fetched {
                        Some(text) => {
                            conns = extract_connections(text.as_str());
                        },
                        None => {
                            proof {
                                assert(false);
                            }
                            return Err(GraphError::NodeNotFound);
                        },
                    }
                }
            },
        }
        let k = conns.len();
        if k >= INDEX_LIMIT - 1 - self.ncount || k >= INDEX_LIMIT - 1 - self.ecount {
            return Err(GraphError::AtCapacity);
        }
        let ghost all = page_views(conns@);
        let ghost src_nodes = sg_nodes(self.graph);
        let ghost src_edges = sg_edges(self.graph);
        let ghost n0 = self.ncount as nat;
        let ghost e0 = self.ecount as nat;
        let mut new_ixs: Vec<usize> = Vec::new();
        while conns.len() > 0
            invariant
                self.wf(),
                index < INDEX_LIMIT,
                sg_nodes(self.graph).dom().contains(index as nat),
                src_nodes.dom().contains(index as nat),
                new_ixs@.len() + conns@.len() == all.len(),
                all.len() == k < INDEX_LIMIT - 1 - n0,
                k < INDEX_LIMIT - 1 - e0,
                self.ncount as nat == n0 + new_ixs@.len(),
                self.ecount as nat == e0 + new_ixs@.len(),
                page_views(conns@) == all.subrange(
                    new_ixs@.len() as int,
                    all.len() as int,
                ),
                forall|j: int|
                    0 <= j < new_ixs@.len() ==> !src_nodes.dom().contains(
                        #[trigger] new_ixs@[j] as nat,
                    ) && sg_nodes(self.graph).dom().contains(new_ixs@[j] as nat) && sg_nodes(
                        self.graph,
                    )[new_ixs@[j] as nat] == all[j],
                forall|j1: int, j2: int|
                    0 <= j1 < j2 < new_ixs@.len() ==> new_ixs@[j1] != new_ixs@[j2],
                forall|k2: nat|
                    #[trigger] src_nodes.dom().contains(k2) ==> sg_nodes(
                        self.graph,
                    ).dom().contains(k2) && sg_nodes(self.graph)[k2] == src_nodes[k2],
                forall|k2: nat|
                    #[trigger] sg_nodes(self.graph).dom().contains(k2) ==> src_nodes.dom().contains(
                        k2,
                    ) || exists|j: int| 0 <= j < new_ixs@.len() && new_ixs@[j] as nat == k2,
                sg_edges(self.graph) == src_edges.add(fan_out(index as nat, new_ixs@).to_multiset()),
            decreases conns@.len(),
        {
            let ghost prev_ixs = new_ixs@;
            let ghost pre = conns@;
            let ghost done = new_ixs@.len() as int;
            let pg = conns.remove(0);
            proof {
                assert(page_views(pre)[0] == all.subrange(done, all.len() as int)[0]);
                assert(pg@ == all[done]);
                assert(conns@ =~= pre.subrange(1, pre.len() as int));
                assert(page_views(conns@) =~= all.subrange(done + 1, all.len() as int))
                    by {
                    assert(forall|j: int|
                        0 <= j < conns@.len() ==> #[trigger] page_views(conns@)[j]
                            == page_views(pre)[j + 1]);
                }
            }
            let ix = match sg_add_node(&mut self.graph, pg) {
                Some(ix) => ix,
                None => {
                    proof {
                        assert(false);
                    }
                    return Err(GraphError::AtCapacity);
                },
            };
            self.ncount += 1;
            let added = sg_add_edge(&mut self.graph, index, ix);
            proof {
                assert(added);
            }
            self.ecount += 1;
            new_ixs.push(ix);
            proof {
                let pair = (index as nat, ix as nat);
                assert(fan_out(index as nat, new_ixs@) =~= fan_out(index as nat, prev_ixs).push(
                    pair,
                ));
                fan_out(index as nat, prev_ixs).to_multiset_ensures();
                assert(fan_out(index as nat, prev_ixs).push(pair).to_multiset() =~= fan_out(
                    index as nat,
                    prev_ixs,
                ).to_multiset().insert(pair));
                assert(sg_edges(self.graph) =~= src_edges.add(
                    fan_out(index as nat, new_ixs@).to_multiset(),
                ));
                assert forall|k2: nat| #[trigger] sg_nodes(self.graph).dom().contains(k2) implies
                    src_nodes.dom().contains(k2) || (exists|j: int|
                        0 <= j < new_ixs@.len() && new_ixs@[j] as nat == k2) by {
                    if k2 == ix as nat {
                        assert(new_ixs@[new_ixs@.len() - 1] as nat == k2);
                    } else if !src_nodes.dom().contains(k2) {
                        let j = choose|j: int| 0 <= j < prev_ixs.len() && prev_ixs[j] as nat == k2;
                        assert(new_ixs@[j] as nat == k2);
                    }
                }
            }
        }
        proof {
            assert(all.subrange(new_ixs@.len() as int, all.len() as int) =~= Seq::<
                PageModel,
            >::empty());
            assert(new_ixs@.len() == all.len());
            assert(expansion_ok(
                src_nodes,
                src_edges,
                sg_nodes(self.graph),
                sg_edges(self.graph),
                index as nat,
                all,
                new_ixs@,
            ));
        }
        Ok(new_ixs)
    }
}

} // verus!
