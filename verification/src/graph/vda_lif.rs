//! VDA LIF (Layout Interchange Format) data, as far as the viewer reads it.
//! Based on the VDA LIF specification for robot navigation layouts.
//! Positions are kept in the types `P` (node positions) and `S` (station positions)
//! that the caller chooses; the measured quantities of the format (orientation angles,
//! speeds, heights, trajectories) are left to the caller's own file model.
use vstd::prelude::*;

verus! {

/// Root structure of a LIF file.
pub struct LifFile<P, S> {
    pub meta_information: MetaInformation,
    pub layouts: Vec<Layout<P, S>>,
}

/// Metadata about the LIF file.
pub struct MetaInformation {
    pub project_identification: String,
    pub creator: String,
    pub export_timestamp: String,
    pub lif_version: String,
}

/// A layout represents a complete navigation environment.
pub struct Layout<P, S> {
    pub layout_id: String,
    pub layout_name: String,
    pub layout_version: String,
    pub layout_level_id: Option<String>,
    pub layout_description: Option<String>,
    pub nodes: Vec<Node<P>>,
    pub edges: Vec<Edge>,
    pub stations: Option<Vec<Station<S>>>,
}

/// A node represents a point in the navigation graph.
pub struct Node<P> {
    pub node_id: String,
    pub node_name: Option<String>,
    pub node_description: Option<String>,
    pub map_id: String,
    pub node_position: P,
    pub vehicle_type_node_properties: Vec<VehicleTypeNodeProperty>,
}

/// Vehicle type specific properties for a node.
pub struct VehicleTypeNodeProperty {
    pub vehicle_type_id: String,
    pub actions: Option<Vec<Action>>,
}

/// An edge represents a connection between two nodes.
pub struct Edge {
    pub edge_id: String,
    pub edge_name: Option<String>,
    pub edge_description: Option<String>,
    pub start_node_id: String,
    pub end_node_id: String,
    pub vehicle_type_edge_properties: Vec<VehicleTypeEdgeProperty>,
}

/// Vehicle type specific properties for an edge.
pub struct VehicleTypeEdgeProperty {
    pub vehicle_type_id: String,
    pub orientation_type: String,
    pub rotation_allowed: bool,
    pub rotation_at_start_node_allowed: Option<String>,
    pub rotation_at_end_node_allowed: Option<String>,
    pub load_restriction: Option<LoadRestriction>,
    pub actions: Option<Vec<Action>>,
    pub reentry_allowed: Option<bool>,
}

/// An action that can be performed by a vehicle.
pub struct Action {
    pub action_type: String,
    pub action_description: Option<String>,
    pub requirement_type: String,
    pub blocking_type: String,
    pub action_parameters: Option<Vec<ActionParameter>>,
}

/// Action parameter with key-value pairs.
pub struct ActionParameter {
    pub key: String,
    pub value: String,
}

/// Load restriction for vehicle edges.
pub struct LoadRestriction {
    pub unloaded: Option<bool>,
    pub loaded: Option<bool>,
    pub load_set_names: Option<Vec<String>>,
}

/// A station represents an interaction point.
pub struct Station<S> {
    pub station_id: String,
    pub interaction_node_ids: Vec<String>,
    pub station_name: Option<String>,
    pub station_description: Option<String>,
    pub station_position: Option<S>,
}

} // verus!
