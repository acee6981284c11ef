use rdw_server::registry::{endpoint_url, Dataset};
use rdw_server::tools::{dataset_for_tool, input_schema, is_bodywork_tool, tool_catalog};

const ALL: [Dataset; 10] = [
    Dataset::Info,
    Dataset::Odometer,
    Dataset::Fuel,
    Dataset::Axles,
    Dataset::Remarks,
    Dataset::Subcategory,
    Dataset::Tracks,
    Dataset::Bodywork,
    Dataset::BodyworkSpecific,
    Dataset::VehicleClass,
];

#[test]
fn every_dataset_has_its_url() {
    assert_eq!(Dataset::Info.url(), "https://opendata.rdw.nl/resource/m9d7-ebf2.json");
    assert_eq!(Dataset::Odometer.url(), "https://opendata.rdw.nl/resource/v3i9-dpe8.json");
    assert_eq!(Dataset::Fuel.url(), "https://opendata.rdw.nl/resource/8ys7-d773.json");
    assert_eq!(Dataset::Axles.url(), "https://opendata.rdw.nl/resource/3huj-srit.json");
    assert_eq!(Dataset::Remarks.url(), "https://opendata.rdw.nl/resource/7ug8-2dtt.json");
    assert_eq!(Dataset::Subcategory.url(), "https://opendata.rdw.nl/resource/wj78-6f6f.json");
    assert_eq!(Dataset::Tracks.url(), "https://opendata.rdw.nl/resource/p693-vshn.json");
    assert_eq!(Dataset::Bodywork.url(), "https://opendata.rdw.nl/resource/vezc-m2t6.json");
    assert_eq!(Dataset::BodyworkSpecific.url(), "https://opendata.rdw.nl/resource/jhie-znh9.json");
    assert_eq!(Dataset::VehicleClass.url(), "https://opendata.rdw.nl/resource/kmfi-hrps.json");
}

#[test]
fn every_dataset_has_its_key() {
    let keys: Vec<&str> = ALL.iter().map(|dataset| dataset.key()).collect();
    assert_eq!(
        keys,
        vec![
            "info",
            "odometer",
            "fuel",
            "axles",
            "remarks",
            "subcategory",
            "tracks",
            "bodywork",
            "bodywork_specific",
            "vehicle_class",
        ]
    );
}

#[test]
fn key_lookup_finds_each_dataset() {
    for dataset in ALL {
        assert_eq!(Dataset::from_key(dataset.key()), Some(dataset));
        assert_eq!(endpoint_url(dataset.key()), Some(dataset.url()));
    }
}

#[test]
fn key_lookup_of_unknown_key_finds_nothing() {
    assert_eq!(Dataset::from_key("colour"), None);
    assert_eq!(Dataset::from_key(""), None);
    assert_eq!(Dataset::from_key("Info"), None);
    assert_eq!(Dataset::from_key("bodywork_"), None);
    assert_eq!(endpoint_url("colour"), None);
}

#[test]
fn only_info_and_odometer_are_single_record() {
    for dataset in ALL {
        let expected = dataset == Dataset::Info || dataset == Dataset::Odometer;
        assert_eq!(dataset.is_single_record(), expected);
    }
}

#[test]
fn tools_map_to_their_datasets() {
    assert_eq!(dataset_for_tool("get_vehicle_info"), Some(Dataset::Info));
    assert_eq!(dataset_for_tool("get_odometer_judgment"), Some(Dataset::Odometer));
    assert_eq!(dataset_for_tool("get_vehicle_fuel"), Some(Dataset::Fuel));
    assert_eq!(dataset_for_tool("get_vehicle_axles"), Some(Dataset::Axles));
    assert_eq!(dataset_for_tool("get_vehicle_remarks"), Some(Dataset::Remarks));
    assert_eq!(dataset_for_tool("get_vehicle_subcategory"), Some(Dataset::Subcategory));
    assert_eq!(dataset_for_tool("get_vehicle_tracks"), Some(Dataset::Tracks));
}

#[test]
fn other_names_map_to_no_dataset() {
    assert_eq!(dataset_for_tool("get_vehicle_bodywork"), None);
    assert_eq!(dataset_for_tool(""), None);
    assert_eq!(dataset_for_tool("get_vehicle_colour"), None);
    assert_eq!(dataset_for_tool("GET_VEHICLE_INFO"), None);
}

#[test]
fn bodywork_tool_is_recognised_by_name() {
    assert!(is_bodywork_tool("get_vehicle_bodywork"));
    assert!(!is_bodywork_tool("get_vehicle_info"));
    assert!(!is_bodywork_tool(""));
}

#[test]
fn catalog_lists_eight_tools_in_order() {
    let catalog = tool_catalog();
    let names: Vec<&str> = catalog.iter().map(|tool| tool.name).collect();
    assert_eq!(
        names,
        vec![
            "get_vehicle_info",
            "get_odometer_judgment",
            "get_vehicle_fuel",
            "get_vehicle_axles",
            "get_vehicle_remarks",
            "get_vehicle_subcategory",
            "get_vehicle_tracks",
            "get_vehicle_bodywork",
        ]
    );
}

#[test]
fn catalog_describes_each_tool_with_its_dataset() {
    let catalog = tool_catalog();
    assert_eq!(
        catalog[0].description,
        "Haal algemene voertuiggegevens op (Merk, Model, APK, etc.). Dataset: m9d7-ebf2"
    );
    assert_eq!(
        catalog[7].description,
        "Gecombineerde carrosseriegegevens uit meerdere RDW datasets. Datasets: vezc-m2t6, jhie-znh9, kmfi-hrps"
    );
    let ids = [
        "m9d7-ebf2",
        "v3i9-dpe8",
        "8ys7-d773",
        "3huj-srit",
        "7ug8-2dtt",
        "wj78-6f6f",
        "p693-vshn",
        "vezc-m2t6",
    ];
    for (tool, id) in catalog.iter().zip(ids) {
        assert!(tool.description.contains(id));
    }
}

#[test]
fn catalog_tools_are_all_served() {
    for tool in tool_catalog() {
        assert!(is_bodywork_tool(tool.name) || dataset_for_tool(tool.name).is_some());
    }
}

#[test]
fn input_schema_requires_one_string_property() {
    let schema: serde_json::Value = serde_json::from_str(input_schema()).unwrap();
    assert_eq!(schema["type"], "object");
    assert_eq!(schema["properties"]["kenteken"]["type"], "string");
    assert_eq!(schema["properties"].as_object().unwrap().len(), 1);
    assert_eq!(schema["required"].as_array().unwrap().len(), 1);
    assert_eq!(schema["required"][0], "kenteken");
    for tool in tool_catalog() {
        assert_eq!(tool.input_schema, input_schema());
    }
}
