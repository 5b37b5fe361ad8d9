use maps::graph::layout::{layouts_from_lif, Layout, LayoutError};
use maps::graph::vda_lif;

fn node(id: &str, pos: (i32, i32), types: &[&str]) -> vda_lif::Node<(i32, i32)> {
    vda_lif::Node {
        node_id: id.to_string(),
        node_name: None,
        node_description: None,
        map_id: "map".to_string(),
        node_position: pos,
        vehicle_type_node_properties: types
            .iter()
            .map(|t| vda_lif::VehicleTypeNodeProperty { vehicle_type_id: t.to_string(), actions: None })
            .collect(),
    }
}

fn lif_layout(stations: Option<Vec<vda_lif::Station<(i32, i32)>>>) -> vda_lif::Layout<(i32, i32), (i32, i32)> {
    vda_lif::Layout {
        layout_id: "L1".to_string(),
        layout_name: "Hall".to_string(),
        layout_version: "1".to_string(),
        layout_level_id: None,
        layout_description: None,
        nodes: vec![node("n1", (0, 0), &["agv"]), node("n2", (1, 0), &[]), node("n1", (5, 5), &["agv", "forklift"])],
        edges: vec![vda_lif::Edge {
            edge_id: "e1".to_string(),
            edge_name: None,
            edge_description: None,
            start_node_id: "n1".to_string(),
            end_node_id: "n2".to_string(),
            vehicle_type_edge_properties: vec![vda_lif::VehicleTypeEdgeProperty {
                vehicle_type_id: "agv".to_string(),
                orientation_type: "TANGENTIAL".to_string(),
                rotation_allowed: true,
                rotation_at_start_node_allowed: None,
                rotation_at_end_node_allowed: None,
                load_restriction: Some(vda_lif::LoadRestriction {
                    unloaded: Some(true),
                    loaded: Some(false),
                    load_set_names: None,
                }),
                actions: Some(vec![vda_lif::Action {
                    action_type: "pick".to_string(),
                    action_description: None,
                    requirement_type: "OPTIONAL".to_string(),
                    blocking_type: "HARD".to_string(),
                    action_parameters: Some(vec![vda_lif::ActionParameter {
                        key: "height".to_string(),
                        value: "1".to_string(),
                    }]),
                }]),
                reentry_allowed: None,
            }],
        }],
        stations,
    }
}

fn meta() -> vda_lif::MetaInformation {
    vda_lif::MetaInformation {
        project_identification: "demo".to_string(),
        creator: "test".to_string(),
        export_timestamp: "2024-01-01T00:00:00Z".to_string(),
        lif_version: "1.0.0".to_string(),
    }
}

#[test]
fn from_vda_lif_later_node_wins() {
    let layout = Layout::from_vda_lif(&lif_layout(None));
    assert_eq!(layout.layout_id, "L1");
    assert_eq!(layout.layout_name, "Hall");
    assert_eq!(layout.nodes.len(), 2);
    let n1 = layout.nodes.iter().find(|n| n.node_id == "n1").unwrap();
    assert_eq!(n1.position, (5, 5));
    assert_eq!(n1.vehicle_types, vec!["agv", "forklift"]);
    let n2 = layout.nodes.iter().find(|n| n.node_id == "n2").unwrap();
    assert_eq!(n2.position, (1, 0));
    assert!(n2.vehicle_types.is_empty());
    assert_eq!(layout.edges.len(), 1);
    assert_eq!(layout.edges[0].edge_id, "e1");
    assert_eq!(layout.edges[0].start_node_id, "n1");
    assert_eq!(layout.edges[0].end_node_id, "n2");
    assert!(layout.stations.is_empty());
}

#[test]
fn from_vda_lif_copies_stations() {
    let station = vda_lif::Station {
        station_id: "s1".to_string(),
        interaction_node_ids: vec!["n2".to_string()],
        station_name: Some("Dock".to_string()),
        station_description: None,
        station_position: Some((2, 3)),
    };
    let layout = Layout::from_vda_lif(&lif_layout(Some(vec![station])));
    assert_eq!(layout.stations.len(), 1);
    assert_eq!(layout.stations[0].station_id, "s1");
    assert_eq!(layout.stations[0].station_name.as_deref(), Some("Dock"));
    assert_eq!(layout.stations[0].position, Some((2, 3)));
    assert_eq!(layout.stations[0].interaction_node_ids, vec!["n2"]);
}

#[test]
fn layouts_from_lif_refuses_empty_file() {
    let none: vda_lif::LifFile<(i32, i32), (i32, i32)> =
        vda_lif::LifFile { meta_information: meta(), layouts: Vec::new() };
    assert_eq!(layouts_from_lif(&none).err(), Some(LayoutError::NoLayouts));
    let two = vda_lif::LifFile { meta_information: meta(), layouts: vec![lif_layout(None), lif_layout(None)] };
    let layouts = layouts_from_lif(&two).unwrap();
    assert_eq!(layouts.len(), 2);
    assert_eq!(layouts[1].nodes.len(), 2);
}
