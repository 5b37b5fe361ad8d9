//! Internal layout representation for visualization.
use vstd::prelude::*;

use crate::graph::vda_lif;

verus! {

/// A node in the visualization graph.
pub struct Node<P> {
    pub node_id: String,
    pub position: P,
    /// Vehicle types that can use this node.
    pub vehicle_types: Vec<String>,
}

/// An edge connecting two nodes.
pub struct Edge {
    pub edge_id: String,
    pub start_node_id: String,
    pub end_node_id: String,
}

/// A station representing an interaction point.
pub struct Station<S> {
    pub station_id: String,
    pub station_name: Option<String>,
    pub position: Option<S>,
    /// Node IDs where this station can interact.
    pub interaction_node_ids: Vec<String>,
}

/// A simplified layout for visualization purposes.
/// Its nodes have distinct IDs; their order carries no meaning.
pub struct Layout<P, S> {
    pub layout_id: String,
    pub layout_name: String,
    pub nodes: Vec<Node<P>>,
    pub edges: Vec<Edge>,
    pub stations: Vec<Station<S>>,
}

/// The contents of a node.
pub struct NodeView<P> {
    pub node_id: Seq<char>,
    pub position: P,
    pub vehicle_types: Seq<Seq<char>>,
}

/// The contents of an edge.
pub struct EdgeView {
    pub edge_id: Seq<char>,
    pub start_node_id: Seq<char>,
    pub end_node_id: Seq<char>,
}

/// The contents of a station.
pub struct StationView<S> {
    pub station_id: Seq<char>,
    pub station_name: Option<Seq<char>>,
    pub position: Option<S>,
    pub interaction_node_ids: Seq<Seq<char>>,
}

/// The characters of each string of a sequence.
pub open spec fn strings(s: Seq<String>) -> Seq<Seq<char>> {
    s.map_values(|x: String| x@)
}

/// The characters of an optional string.
pub open spec fn opt_string(s: Option<String>) -> Option<Seq<char>> {
    match s {
        Some(x) => Some(x@),
        None => None,
    }
}

pub open spec fn node_view<P>(n: Node<P>) -> NodeView<P> {
    NodeView { node_id: n.node_id@, position: n.position, vehicle_types: strings(n.vehicle_types@) }
}

pub open spec fn edge_view(e: Edge) -> EdgeView {
    EdgeView { edge_id: e.edge_id@, start_node_id: e.start_node_id@, end_node_id: e.end_node_id@ }
}

pub open spec fn station_view<S>(s: Station<S>) -> StationView<S> {
    StationView {
        station_id: s.station_id@,
        station_name: opt_string(s.station_name),
        position: s.position,
        interaction_node_ids: strings(s.interaction_node_ids@),
    }
}

/// The node that a LIF node becomes: its ID, its position and the IDs of the vehicle types
/// that have properties on it.
pub open spec fn lif_node_view<P>(n: vda_lif::Node<P>) -> NodeView<P> {
    NodeView {
        node_id: n.node_id@,
        position: n.node_position,
        vehicle_types: vehicle_type_ids(n.vehicle_type_node_properties@),
    }
}

/// The vehicle type IDs of a sequence of node properties.
pub open spec fn vehicle_type_ids(props: Seq<vda_lif::VehicleTypeNodeProperty>) -> Seq<Seq<char>> {
    props.map_values(|p: vda_lif::VehicleTypeNodeProperty| p.vehicle_type_id@)
}

/// The contents of a sequence of edges.
pub open spec fn edge_views(edges: Seq<Edge>) -> Seq<EdgeView> {
    edges.map_values(|e: Edge| edge_view(e))
}

/// The edges that a sequence of LIF edges becomes.
pub open spec fn lif_edge_views(edges: Seq<vda_lif::Edge>) -> Seq<EdgeView> {
    edges.map_values(|e: vda_lif::Edge| lif_edge_view(e))
}

/// The contents of a sequence of stations.
pub open spec fn station_views<S>(stations: Seq<Station<S>>) -> Seq<StationView<S>> {
    stations.map_values(|s: Station<S>| station_view(s))
}

/// The stations that a sequence of LIF stations becomes.
pub open spec fn lif_station_views<S>(stations: Seq<vda_lif::Station<S>>) -> Seq<StationView<S>> {
    stations.map_values(|st: vda_lif::Station<S>| lif_station_view(st))
}

/// The contents of a sequence of nodes.
pub open spec fn node_views<P>(nodes: Seq<Node<P>>) -> Seq<NodeView<P>> {
    nodes.map_values(|n: Node<P>| node_view(n))
}

/// The nodes that a sequence of LIF nodes becomes, one by one.
pub open spec fn lif_node_views<P>(nodes: Seq<vda_lif::Node<P>>) -> Seq<NodeView<P>> {
    nodes.map_values(|n: vda_lif::Node<P>| lif_node_view(n))
}

pub open spec fn lif_edge_view(e: vda_lif::Edge) -> EdgeView {
    EdgeView { edge_id: e.edge_id@, start_node_id: e.start_node_id@, end_node_id: e.end_node_id@ }
}

/// The station that a LIF station becomes.
pub open spec fn lif_station_view<S>(s: vda_lif::Station<S>) -> StationView<S> {
    StationView {
        station_id: s.station_id@,
        station_name: opt_string(s.station_name),
        position: s.station_position,
        interaction_node_ids: strings(s.interaction_node_ids@),
    }
}

/// The map from node ID to node that inserting the nodes one after another gives:
/// a later node replaces an earlier one with the same ID.
pub open spec fn node_map<P>(nodes: Seq<NodeView<P>>) -> Map<Seq<char>, NodeView<P>>
    decreases nodes.len(),
{
    if nodes.len() == 0 {
        Map::empty()
    } else {
        node_map(nodes.drop_last()).insert(nodes.last().node_id, nodes.last())
    }
}

/// No two nodes have the same ID.
pub open spec fn distinct_ids<P>(nodes: Seq<NodeView<P>>) -> bool {
    forall|i: int, j: int|
        0 <= i < nodes.len() && 0 <= j < nodes.len() && i != j ==> nodes[i].node_id
            != nodes[j].node_id
}

impl<P, S> Layout<P, S> {
    /// The nodes' contents.
    pub open spec fn node_views(&self) -> Seq<NodeView<P>> {
        node_views(self.nodes@)
    }

    /// The edges' contents.
    pub open spec fn edge_views(&self) -> Seq<EdgeView> {
        edge_views(self.edges@)
    }

    /// The stations' contents.
    pub open spec fn station_views(&self) -> Seq<StationView<S>> {
        station_views(self.stations@)
    }
}

proof fn lemma_node_map_replace<P>(nodes: Seq<NodeView<P>>, idx: int, n: NodeView<P>)
    requires
        distinct_ids(nodes),
        0 <= idx < nodes.len(),
        nodes[idx].node_id == n.node_id,
    ensures
        node_map(nodes.update(idx, n)) == node_map(nodes).insert(n.node_id, n),
        distinct_ids(nodes.update(idx, n)),
    decreases nodes.len(),
{
    let updated = nodes.update(idx, n);
    let last = nodes.last();
    if idx == nodes.len() - 1 {
        assert(updated.drop_last() =~= nodes.drop_last());
        assert(node_map(nodes).insert(n.node_id, n) =~= node_map(nodes.drop_last()).insert(
            n.node_id,
            n,
        ));
    } else {
        let prefix = nodes.drop_last();
        assert(updated.drop_last() =~= prefix.update(idx, n));
        assert(updated.last() == last);
        assert(last.node_id != n.node_id) by {
            assert(nodes[nodes.len() - 1] == last);
        }
        lemma_node_map_replace(prefix, idx, n);
        assert(node_map(updated) =~= node_map(nodes).insert(n.node_id, n));
    }
}

fn copy_strings(src: &Vec<String>) -> (out: Vec<String>)
    ensures
        strings(out@) == strings(src@),
{
    let mut out: Vec<String> = Vec::new();
    let n = src.len();
    let mut i: usize = 0;
    while i < n
        invariant
            n == src@.len(),
            i <= n,
            strings(out@) == strings(src@.take(i as int)),
        decreases n - i,
    {
        let s = src[i].clone();
        proof {
            assert(strings(out@.push(s)) =~= strings(out@).push(s@));
            assert(strings(src@.take(i + 1)) =~= strings(src@.take(i as int)).push(src@[i as int]@));
        }
        out.push(s);
        i = i + 1;
    }
    proof {
        assert(src@.take(n as int) =~= src@);
    }
    out
}

fn copy_opt_string(s: &Option<String>) -> (out: Option<String>)
    ensures
        opt_string(out) == opt_string(*s),
{
    match s {
        Some(x) => Some(x.clone()),
        None => None,
    }
}

fn convert_node<P: Copy>(lif_node: &vda_lif::Node<P>) -> (node: Node<P>)
    ensures
        node_view(node) == lif_node_view(*lif_node),
{
    let mut vehicle_types: Vec<String> = Vec::new();
    let props = &lif_node.vehicle_type_node_properties;
    let n = props.len();
    let mut i: usize = 0;
    while i < n
        invariant
            n == props@.len(),
            i <= n,
            strings(vehicle_types@) == vehicle_type_ids(props@.take(i as int)),
        decreases n - i,
    {
        let id = props[i].vehicle_type_id.clone();
        proof {
            assert(strings(vehicle_types@.push(id)) =~= strings(vehicle_types@).push(id@));
            assert(vehicle_type_ids(props@.take(i + 1)) =~= vehicle_type_ids(
                props@.take(i as int),
            ).push(props@[i as int].vehicle_type_id@));
        }
        vehicle_types.push(id);
        i = i + 1;
    }
    proof {
        assert(props@.take(n as int) =~= props@);
    }
    Node { node_id: lif_node.node_id.clone(), position: lif_node.node_position, vehicle_types }
}

fn position_of_node<P>(nodes: &Vec<Node<P>>, id: &String) -> (r: Option<usize>)
    ensures
        match r {
            Some(i) => i < nodes@.len() && nodes@[i as int].node_id@ == id@,
            None => forall|i: int| 0 <= i < nodes@.len() ==> nodes@[i].node_id@ != id@,
        },
{
    let n = nodes.len();
    let mut i: usize = 0;
    while i < n
        invariant
            n == nodes@.len(),
            i <= n,
            forall|j: int| 0 <= j < i ==> nodes@[j].node_id@ != id@,
        decreases n - i,
    {
        if nodes[i].node_id == *id {
            return Some(i);
        }
        i = i + 1;
    }
    None
}

/// `layout` is the visualization layout of the LIF layout `lif`: same ID and name,
/// nodes with distinct IDs that map each ID to the last LIF node with it, the same edges,
/// and the stations if there are any.
pub open spec fn converted_from<P, S>(layout: Layout<P, S>, lif: vda_lif::Layout<P, S>) -> bool {
    &&& layout.layout_id@ == lif.layout_id@
    &&& layout.layout_name@ == lif.layout_name@
    &&& distinct_ids(layout.node_views())
    &&& node_map(layout.node_views()) == node_map(lif_node_views(lif.nodes@))
    &&& layout.edge_views() == lif_edge_views(lif.edges@)
    &&& layout.station_views() == match lif.stations {
        Some(s) => lif_station_views(s@),
        None => Seq::empty(),
    }
}

/// A LIF file without layouts.
#[derive(Debug, Clone, Copy, PartialEq, Eq, Structural)]
pub enum LayoutError {
    /// The file holds no layout.
    NoLayouts,
}

/// The visualization layouts of the layouts of a LIF file, in the same order.
/// A file without layouts is refused.
pub fn layouts_from_lif<P: Copy, S: Copy>(lif_file: &vda_lif::LifFile<P, S>) -> (r: Result<
    Vec<Layout<P, S>>,
    LayoutError,
>)
    ensures
        r is Err <==> lif_file.layouts@.len() == 0,
        r matches Err(e) ==> e == LayoutError::NoLayouts,
        r matches Ok(v) ==> v@.len() == lif_file.layouts@.len() && forall|i: int|
            0 <= i < v@.len() ==> converted_from(#[trigger] v@[i], lif_file.layouts@[i]),
{
    let lif_layouts = &lif_file.layouts;
    if lif_layouts.len() == 0 {
        return Err(LayoutError::NoLayouts);
    }
    let mut layouts: Vec<Layout<P, S>> = Vec::new();
    let n = lif_layouts.len();
    let mut i: usize = 0;
    while i < n
        invariant
            n == lif_layouts@.len(),
            i <= n,
            layouts@.len() == i,
            forall|j: int| 0 <= j < i ==> converted_from(#[trigger] layouts@[j], lif_layouts@[j]),
        decreases n - i,
    {
        let layout = Layout::from_vda_lif(&lif_layouts[i]);
        layouts.push(layout);
        i = i + 1;
    }
    Ok(layouts)
}

impl<P: Copy, S: Copy> Layout<P, S> {
    /// Convert from VDA LIF layout to internal visualization layout.
    /// A later LIF node replaces an earlier one with the same ID; absent stations
    /// give no stations.
    pub fn from_vda_lif(lif_layout: &vda_lif::Layout<P, S>) -> (layout: Self)
        ensures
            converted_from(layout, *lif_layout),
    {
        let ghost lif_nodes = lif_node_views(lif_layout.nodes@);
        let mut nodes: Vec<Node<P>> = Vec::new();
        let count = lif_layout.nodes.len();
        let mut i: usize = 0;
        while i < count
            invariant
                count == lif_layout.nodes@.len(),
                lif_nodes == lif_node_views(lif_layout.nodes@),
                i <= count,
                distinct_ids(node_views(nodes@)),
                node_map(node_views(nodes@)) == node_map(
                    lif_nodes.take(i as int),
                ),
            decreases count - i,
        {
            let node = convert_node(&lif_layout.nodes[i]);
            let ghost before = node_views(nodes@);
            proof {
                assert(lif_nodes.take(i + 1).drop_last() =~= lif_nodes.take(i as int));
                assert(lif_nodes.take(i + 1).last() == node_view(node));
            }
            match position_of_node(&nodes, &node.node_id) {
                Some(idx) => {
                    proof {
                        lemma_node_map_replace(before, idx as int, node_view(node));
                    }
                    nodes.set(idx, node);
                    proof {
                        assert(node_views(nodes@) =~= before.update(
                            idx as int,
                            node_view(node),
                        ));
                    }
                },
                None => {
                    nodes.push(node);
                    proof {
                        assert(node_views(nodes@) =~= before.push(
                            node_view(node),
                        ));
                        assert(before.push(node_view(node)).drop_last() =~= before);
                    }
                },
            }
            i = i + 1;
        }
        proof {
            assert(lif_nodes.take(count as int) =~= lif_nodes);
        }

        let mut edges: Vec<Edge> = Vec::new();
        let edge_count = lif_layout.edges.len();
        let mut j: usize = 0;
        while j < edge_count
            invariant
                edge_count == lif_layout.edges@.len(),
                j <= edge_count,
                edge_views(edges@) == lif_edge_views(lif_layout.edges@.take(j as int)),
            decreases edge_count - j,
        {
            let lif_edge = &lif_layout.edges[j];
            let edge = Edge {
                edge_id: lif_edge.edge_id.clone(),
                start_node_id: lif_edge.start_node_id.clone(),
                end_node_id: lif_edge.end_node_id.clone(),
            };
            proof {
                assert(edge_views(edges@.push(edge)) =~= edge_views(edges@).push(edge_view(edge)));
                assert(lif_edge_views(lif_layout.edges@.take(j + 1)) =~= lif_edge_views(
                    lif_layout.edges@.take(j as int),
                ).push(lif_edge_view(lif_layout.edges@[j as int])));
            }
            edges.push(edge);
            j = j + 1;
        }
        proof {
            assert(lif_layout.edges@.take(edge_count as int) =~= lif_layout.edges@);
        }

        let mut stations: Vec<Station<S>> = Vec::new();
        if let Some(lif_stations) = &lif_layout.stations {
            let station_count = lif_stations.len();
            let mut k: usize = 0;
            while k < station_count
                invariant
                    station_count == lif_stations@.len(),
                    k <= station_count,
                    station_views(stations@) == lif_station_views(lif_stations@.take(k as int)),
                decreases station_count - k,
            {
                let lif_station = &lif_stations[k];
                let station = Station {
                    station_id: lif_station.station_id.clone(),
                    station_name: copy_opt_string(&lif_station.station_name),
                    position: lif_station.station_position,
                    interaction_node_ids: copy_strings(&lif_station.interaction_node_ids),
                };
                proof {
                    assert(station_views(stations@.push(station)) =~= station_views(stations@).push(
                        station_view(station),
                    ));
                    assert(lif_station_views(lif_stations@.take(k + 1)) =~= lif_station_views(
                        lif_stations@.take(k as int),
                    ).push(lif_station_view(lif_stations@[k as int])));
                }
                stations.push(station);
                k = k + 1;
            }
            proof {
                assert(lif_stations@.take(station_count as int) =~= lif_stations@);
            }
        } else {
            proof {
                assert(station_views(stations@) =~= Seq::<StationView<S>>::empty());
            }
        }

        Layout {
            layout_id: lif_layout.layout_id.clone(),
            layout_name: lif_layout.layout_name.clone(),
            nodes,
            edges,
            stations,
        }
    }
}

/// The node map holds a node for exactly the IDs that occur, and for each ID the last
/// node with that ID.
pub proof fn lemma_node_map_last_wins<P>(nodes: Seq<NodeView<P>>, id: Seq<char>, i: int)
    ensures
        node_map(nodes).dom().contains(id) <==> exists|j: int|
            0 <= j < nodes.len() && #[trigger] nodes[j].node_id == id,
        0 <= i < nodes.len() && nodes[i].node_id == id && (forall|k: int|
            i < k < nodes.len() ==> #[trigger] nodes[k].node_id != id) ==> node_map(nodes)[id]
            == nodes[i],
    decreases nodes.len(),
{
    if nodes.len() > 0 {
        let prefix = nodes.drop_last();
        lemma_node_map_last_wins(prefix, id, i);
        if node_map(nodes).dom().contains(id) && nodes.last().node_id != id {
            let j = choose|j: int| 0 <= j < prefix.len() && #[trigger] prefix[j].node_id == id;
            assert(nodes[j].node_id == id);
        }
        if exists|j: int| 0 <= j < nodes.len() && #[trigger] nodes[j].node_id == id {
            let j = choose|j: int| 0 <= j < nodes.len() && #[trigger] nodes[j].node_id == id;
            if j < nodes.len() - 1 {
                assert(prefix[j].node_id == id);
            }
        }
        if 0 <= i < nodes.len() - 1 && nodes[i].node_id == id && (forall|k: int|
            i < k < nodes.len() ==> #[trigger] nodes[k].node_id != id) {
            assert(nodes[nodes.len() - 1].node_id != id);
            assert forall|k: int| i < k < prefix.len() implies #[trigger] prefix[k].node_id
                != id by {
                assert(nodes[k].node_id != id);
            }
        }
    }
}


/// A converted layout has one edge per LIF edge, in the same order: edge `i` has the ID,
/// the start node ID and the end node ID of LIF edge `i`; and it keeps the layout's ID
/// and name.
pub proof fn lemma_converted_edges<P, S>(layout: Layout<P, S>, lif: vda_lif::Layout<P, S>, i: int)
    requires
        converted_from(layout, lif),
    ensures
        layout.edges@.len() == lif.edges@.len(),
        0 <= i < lif.edges@.len() ==> {
            &&& layout.edges@[i].edge_id@ == lif.edges@[i].edge_id@
            &&& layout.edges@[i].start_node_id@ == lif.edges@[i].start_node_id@
            &&& layout.edges@[i].end_node_id@ == lif.edges@[i].end_node_id@
        },
        layout.layout_id@ == lif.layout_id@,
        layout.layout_name@ == lif.layout_name@,
{
    assert(edge_views(layout.edges@).len() == layout.edges@.len());
    if 0 <= i < lif.edges@.len() {
        assert(edge_views(layout.edges@)[i] == lif_edge_views(lif.edges@)[i]);
    }
}

} // verus!
