//! The tools that the server offers, and the register behind each.

use crate::registry::Dataset;
use crate::text::same_text;
use vstd::prelude::*;

verus! {

/// What the server tells a client about one tool.
#[derive(Clone, Copy, Debug)]
pub struct ToolDescriptor {
    /// The name by which the tool is called.
    pub name: &'static str,
    /// What the tool does, for a human reader, with the registers it reads.
    pub description: &'static str,
    /// The JSON schema of the tool's arguments, as JSON text.
    pub input_schema: &'static str,
}

/// A tool descriptor as the contracts see it: each text by its characters.
pub struct ToolDescriptorView {
    pub name: Seq<char>,
    pub description: Seq<char>,
    pub input_schema: Seq<char>,
}

impl View for ToolDescriptor {
    type V = ToolDescriptorView;

    open spec fn view(&self) -> ToolDescriptorView {
        ToolDescriptorView {
            name: self.name@,
            description: self.description@,
            input_schema: self.input_schema@,
        }
    }
}

/// The schema shared by all tools: an object with one required string
/// property, `kenteken`.
pub open spec fn input_schema_text() -> Seq<char> {
    "{\"type\":\"object\",\"properties\":{\"kenteken\":{\"type\":\"string\"}},\"required\":[\"kenteken\"]}"@
}

/// The name of the one tool that reads three registers and merges them.
pub open spec fn bodywork_tool_name() -> Seq<char> {
    "get_vehicle_bodywork"@
}

/// The register behind a tool that reads a single register; `None` for
/// every other name, the composite tool included.
pub open spec fn dataset_of_tool(name: Seq<char>) -> Option<Dataset> {
    if name == "get_vehicle_info"@ {
        Some(Dataset::Info)
    } else if name == "get_odometer_judgment"@ {
        Some(Dataset::Odometer)
    } else if name == "get_vehicle_fuel"@ {
        Some(Dataset::Fuel)
    } else if name == "get_vehicle_axles"@ {
        Some(Dataset::Axles)
    } else if name == "get_vehicle_remarks"@ {
        Some(Dataset::Remarks)
    } else if name == "get_vehicle_subcategory"@ {
        Some(Dataset::Subcategory)
    } else if name == "get_vehicle_tracks"@ {
        Some(Dataset::Tracks)
    } else {
        None
    }
}

/// The descriptor of a tool with the shared schema.
pub open spec fn listed(name: Seq<char>, description: Seq<char>) -> ToolDescriptorView {
    ToolDescriptorView { name, description, input_schema: input_schema_text() }
}

/// The catalog as a sequence: eight tools, in the order in which they are
/// listed to a client.
pub open spec fn tool_catalog_entries() -> Seq<ToolDescriptorView> {
    seq![
        listed(
            "get_vehicle_info"@,
            "Haal algemene voertuiggegevens op (Merk, Model, APK, etc.). Dataset: m9d7-ebf2"@,
        ),
        listed(
            "get_odometer_judgment"@,
            "Decodeert tellerstand-codes naar tekstuele uitleg (logisch/onlogisch). Dataset: v3i9-dpe8"@,
        ),
        listed("get_vehicle_fuel"@, "Brandstofverbruik en emissiegegevens. Dataset: 8ys7-d773"@),
        listed(
            "get_vehicle_axles"@,
            "Informatie over de assen van een voertuig (aslasten, aantal assen). Dataset: 3huj-srit"@,
        ),
        listed(
            "get_vehicle_remarks"@,
            "Bijzonderheden en specifieke registraties (bijv. taxi, ambulance). Dataset: 7ug8-2dtt"@,
        ),
        listed("get_vehicle_subcategory"@, "Specifieke voertuig-subcategorie. Dataset: wj78-6f6f"@),
        listed("get_vehicle_tracks"@, "Informatie over rupsband-sets. Dataset: p693-vshn"@),
        listed(
            "get_vehicle_bodywork"@,
            "Gecombineerde carrosseriegegevens uit meerdere RDW datasets. Datasets: vezc-m2t6, jhie-znh9, kmfi-hrps"@,
        ),
    ]
}

/// The descriptors of a catalog as the contracts see them.
pub open spec fn descriptor_views(catalog: Seq<ToolDescriptor>) -> Seq<ToolDescriptorView> {
    catalog.map_values(|tool: ToolDescriptor| tool@)
}

/// The JSON schema of every tool's arguments.
pub fn input_schema() -> (schema: &'static str)
    ensures
        schema@ == input_schema_text(),
{
    "{\"type\":\"object\",\"properties\":{\"kenteken\":{\"type\":\"string\"}},\"required\":[\"kenteken\"]}"
}

/// Whether `name` names the composite tool.
pub fn is_bodywork_tool(name: &str) -> (composite: bool)
    ensures
        composite == (name@ == bodywork_tool_name()),
{
    same_text(name, "get_vehicle_bodywork")
}

/// Looks up the register behind a single-register tool.
pub fn dataset_for_tool(name: &str) -> (dataset: Option<Dataset>)
    ensures
        dataset == dataset_of_tool(name@),
{
    if same_text(name, "get_vehicle_info") {
        Some(Dataset::Info)
    } else if same_text(name, "get_odometer_judgment") {
        Some(Dataset::Odometer)
    } else if same_text(name, "get_vehicle_fuel") {
        Some(Dataset::Fuel)
    } else if same_text(name, "get_vehicle_axles") {
        Some(Dataset::Axles)
    } else if same_text(name, "get_vehicle_remarks") {
        Some(Dataset::Remarks)
    } else if same_text(name, "get_vehicle_subcategory") {
        Some(Dataset::Subcategory)
    } else if same_text(name, "get_vehicle_tracks") {
        Some(Dataset::Tracks)
    } else {
        None
    }
}

/// The catalog of tools, in listing order.
pub fn tool_catalog() -> (catalog: Vec<ToolDescriptor>)
    ensures
        descriptor_views(catalog@) == tool_catalog_entries(),
{
    let schema = input_schema();
    let mut catalog: Vec<ToolDescriptor> = Vec::new();
    catalog.push(
        ToolDescriptor {
            name: "get_vehicle_info",
            description: "Haal algemene voertuiggegevens op (Merk, Model, APK, etc.). Dataset: m9d7-ebf2",
            input_schema: schema,
        },
    );
    catalog.push(
        ToolDescriptor {
            name: "get_odometer_judgment",
            description: "Decodeert tellerstand-codes naar tekstuele uitleg (logisch/onlogisch). Dataset: v3i9-dpe8",
            input_schema: schema,
        },
    );
    catalog.push(
        ToolDescriptor {
            name: "get_vehicle_fuel",
            description: "Brandstofverbruik en emissiegegevens. Dataset: 8ys7-d773",
            input_schema: schema,
        },
    );
    catalog.push(
        ToolDescriptor {
            name: "get_vehicle_axles",
            description: "Informatie over de assen van een voertuig (aslasten, aantal assen). Dataset: 3huj-srit",
            input_schema: schema,
        },
    );
    catalog.push(
        ToolDescriptor {
            name: "get_vehicle_remarks",
            description: "Bijzonderheden en specifieke registraties (bijv. taxi, ambulance). Dataset: 7ug8-2dtt",
            input_schema: schema,
        },
    );
    catalog.push(
        ToolDescriptor {
            name: "get_vehicle_subcategory",
            description: "Specifieke voertuig-subcategorie. Dataset: wj78-6f6f",
            input_schema: schema,
        },
    );
    catalog.push(
        ToolDescriptor {
            name: "get_vehicle_tracks",
            description: "Informatie over rupsband-sets. Dataset: p693-vshn",
            input_schema: schema,
        },
    );
    catalog.push(
        ToolDescriptor {
            name: "get_vehicle_bodywork",
            description: "Gecombineerde carrosseriegegevens uit meerdere RDW datasets. Datasets: vezc-m2t6, jhie-znh9, kmfi-hrps",
            input_schema: schema,
        },
    );
    assert(descriptor_views(catalog@) =~= tool_catalog_entries());
    catalog
}

/// Every tool of the catalog is served: it is the composite tool or it has
/// a register behind it, and every one asks for the same arguments.
pub proof fn lemma_catalog_is_served(i: int)
    requires
        0 <= i < tool_catalog_entries().len(),
    ensures
        ({
            let tool = tool_catalog_entries()[i];
            &&& tool.name == bodywork_tool_name() || dataset_of_tool(tool.name) is Some
            &&& tool.input_schema == input_schema_text()
        }),
{
}

} // verus!
