//! The fixed tables of the server: which registers exist, where each one is
//! served, and which tool reads which register.

use crate::text::same_text;
use vstd::prelude::*;

verus! {

/// One open-data register of the RDW.
#[derive(Clone, Copy, Debug, PartialEq, Eq, Structural)]
pub enum Dataset {
    /// General vehicle data: make, model, inspection date.
    Info,
    /// Judgment on the plausibility of the odometer readings.
    Odometer,
    /// Fuel consumption and emissions.
    Fuel,
    /// Axles and axle loads.
    Axles,
    /// Special registrations such as taxi or ambulance.
    Remarks,
    /// Vehicle subcategory.
    Subcategory,
    /// Caterpillar track sets.
    Tracks,
    /// Body style.
    Bodywork,
    /// Body style, specific designation.
    BodyworkSpecific,
    /// Vehicle class.
    VehicleClass,
}

impl Dataset {
    /// The logical name under which the register is known.
    pub open spec fn key_text(self) -> Seq<char> {
        match self {
            Dataset::Info => "info"@,
            Dataset::Odometer => "odometer"@,
            Dataset::Fuel => "fuel"@,
            Dataset::Axles => "axles"@,
            Dataset::Remarks => "remarks"@,
            Dataset::Subcategory => "subcategory"@,
            Dataset::Tracks => "tracks"@,
            Dataset::Bodywork => "bodywork"@,
            Dataset::BodyworkSpecific => "bodywork_specific"@,
            Dataset::VehicleClass => "vehicle_class"@,
        }
    }

    /// The resource URL at which the register answers queries.
    pub open spec fn url_text(self) -> Seq<char> {
        match self {
            Dataset::Info => "https://opendata.rdw.nl/resource/m9d7-ebf2.json"@,
            Dataset::Odometer => "https://opendata.rdw.nl/resource/v3i9-dpe8.json"@,
            Dataset::Fuel => "https://opendata.rdw.nl/resource/8ys7-d773.json"@,
            Dataset::Axles => "https://opendata.rdw.nl/resource/3huj-srit.json"@,
            Dataset::Remarks => "https://opendata.rdw.nl/resource/7ug8-2dtt.json"@,
            Dataset::Subcategory => "https://opendata.rdw.nl/resource/wj78-6f6f.json"@,
            Dataset::Tracks => "https://opendata.rdw.nl/resource/p693-vshn.json"@,
            Dataset::Bodywork => "https://opendata.rdw.nl/resource/vezc-m2t6.json"@,
            Dataset::BodyworkSpecific => "https://opendata.rdw.nl/resource/jhie-znh9.json"@,
            Dataset::VehicleClass => "https://opendata.rdw.nl/resource/kmfi-hrps.json"@,
        }
    }

    /// Whether the register holds at most one meaningful record per vehicle,
    /// so that only the first record of an answer is shown.
    pub open spec fn single_record(self) -> bool {
        self == Dataset::Info || self == Dataset::Odometer
    }

    /// The logical name of the register.
    pub fn key(self) -> (key: &'static str)
        ensures
            key@ == self.key_text(),
    {
        match self {
            Dataset::Info => "info",
            Dataset::Odometer => "odometer",
            Dataset::Fuel => "fuel",
            Dataset::Axles => "axles",
            Dataset::Remarks => "remarks",
            Dataset::Subcategory => "subcategory",
            Dataset::Tracks => "tracks",
            Dataset::Bodywork => "bodywork",
            Dataset::BodyworkSpecific => "bodywork_specific",
            Dataset::VehicleClass => "vehicle_class",
        }
    }

    /// The resource URL of the register.
    pub fn url(self) -> (url: &'static str)
        ensures
            url@ == self.url_text(),
    {
        match self {
            Dataset::Info => "https://opendata.rdw.nl/resource/m9d7-ebf2.json",
            Dataset::Odometer => "https://opendata.rdw.nl/resource/v3i9-dpe8.json",
            Dataset::Fuel => "https://opendata.rdw.nl/resource/8ys7-d773.json",
            Dataset::Axles => "https://opendata.rdw.nl/resource/3huj-srit.json",
            Dataset::Remarks => "https://opendata.rdw.nl/resource/7ug8-2dtt.json",
            Dataset::Subcategory => "https://opendata.rdw.nl/resource/wj78-6f6f.json",
            Dataset::Tracks => "https://opendata.rdw.nl/resource/p693-vshn.json",
            Dataset::Bodywork => "https://opendata.rdw.nl/resource/vezc-m2t6.json",
            Dataset::BodyworkSpecific => "https://opendata.rdw.nl/resource/jhie-znh9.json",
            Dataset::VehicleClass => "https://opendata.rdw.nl/resource/kmfi-hrps.json",
        }
    }

    /// Whether only the first record of an answer from this register is shown.
    pub fn is_single_record(self) -> (single: bool)
        ensures
            single == self.single_record(),
    {
        match self {
            Dataset::Info | Dataset::Odometer => true,
            _ => false,
        }
    }

    /// The register with the logical name `key`, if there is one.
    pub fn from_key(key: &str) -> (found: Option<Dataset>)
        ensures
            found == dataset_of_key(key@),
    {
        if same_text(key, "info") {
            Some(Dataset::Info)
        } else if same_text(key, "odometer") {
            Some(Dataset::Odometer)
        } else if same_text(key, "fuel") {
            Some(Dataset::Fuel)
        } else if same_text(key, "axles") {
            Some(Dataset::Axles)
        } else if same_text(key, "remarks") {
            Some(Dataset::Remarks)
        } else if same_text(key, "subcategory") {
            Some(Dataset::Subcategory)
        } else if same_text(key, "tracks") {
            Some(Dataset::Tracks)
        } else if same_text(key, "bodywork") {
            Some(Dataset::Bodywork)
        } else if same_text(key, "bodywork_specific") {
            Some(Dataset::BodyworkSpecific)
        } else if same_text(key, "vehicle_class") {
            Some(Dataset::VehicleClass)
        } else {
            None
        }
    }
}

/// The register that the logical name `key` stands for: the first entry of
/// the table whose name is `key`.
pub open spec fn dataset_of_key(key: Seq<char>) -> Option<Dataset> {
    if key == "info"@ {
        Some(Dataset::Info)
    } else if key == "odometer"@ {
        Some(Dataset::Odometer)
    } else if key == "fuel"@ {
        Some(Dataset::Fuel)
    } else if key == "axles"@ {
        Some(Dataset::Axles)
    } else if key == "remarks"@ {
        Some(Dataset::Remarks)
    } else if key == "subcategory"@ {
        Some(Dataset::Subcategory)
    } else if key == "tracks"@ {
        Some(Dataset::Tracks)
    } else if key == "bodywork"@ {
        Some(Dataset::Bodywork)
    } else if key == "bodywork_specific"@ {
        Some(Dataset::BodyworkSpecific)
    } else if key == "vehicle_class"@ {
        Some(Dataset::VehicleClass)
    } else {
        None
    }
}

/// The resource URL registered under the logical name `key`.
pub open spec fn endpoint_of_key(key: Seq<char>) -> Option<Seq<char>> {
    match dataset_of_key(key) {
        Some(dataset) => Some(dataset.url_text()),
        None => None,
    }
}

/// Looks a logical name up in the registry.
pub fn endpoint_url(key: &str) -> (url: Option<&'static str>)
    ensures
        url is Some == endpoint_of_key(key@) is Some,
        url is Some ==> url->0@ == endpoint_of_key(key@)->0,
{
    match Dataset::from_key(key) {
        Some(dataset) => Some(dataset.url()),
        None => None,
    }
}

/// No two registers share a logical name: looking up the name of a register
/// gives that register back, and with it its own URL.
pub proof fn lemma_key_finds_its_dataset(dataset: Dataset)
    ensures
        dataset_of_key(dataset.key_text()) == Some(dataset),
        endpoint_of_key(dataset.key_text()) == Some(dataset.url_text()),
{
    reveal_strlit("info");
    reveal_strlit("odometer");
    reveal_strlit("fuel");
    reveal_strlit("axles");
    reveal_strlit("remarks");
    reveal_strlit("subcategory");
    reveal_strlit("tracks");
    reveal_strlit("bodywork");
    reveal_strlit("bodywork_specific");
    reveal_strlit("vehicle_class");
    let key = dataset.key_text();
    assert(key.len() > 0);
    assert("info"@[0] == 'i' && "odometer"@[0] == 'o' && "fuel"@[0] == 'f');
    assert("axles"@[0] == 'a' && "remarks"@[0] == 'r' && "subcategory"@[0] == 's');
    assert("tracks"@[0] == 't' && "bodywork"@[0] == 'b' && "vehicle_class"@[0] == 'v');
    assert("bodywork_specific"@.len() != "bodywork"@.len());
}

} // verus!
