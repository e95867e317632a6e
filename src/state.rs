//! The job model: materials, sheet, bend steps, job, and the session state
//! around them.

use vstd::prelude::*;
use crate::decimal::{format_quantity, quantity_text};
use crate::imaging::DecodedImage;

verus! {

broadcast use vstd::string::group_string_axioms;

/// A material, by name: one of a fixed set, or a custom name.
#[derive(Debug, Clone, Hash)]
pub enum MaterialName {
    Steel,
    Aluminum,
    StainlessSteel,
    Copper,
    MildSteel,
    Custom(String),
}

impl View for MaterialName {
    /// Which variant (0 to 5, in declaration order) and, for a custom name, its text.
    type V = (int, Seq<char>);

    open spec fn view(&self) -> (int, Seq<char>) {
        match self {
            MaterialName::Steel => (0, seq![]),
            MaterialName::Aluminum => (1, seq![]),
            MaterialName::StainlessSteel => (2, seq![]),
            MaterialName::Copper => (3, seq![]),
            MaterialName::MildSteel => (4, seq![]),
            MaterialName::Custom(s) => (5, s@),
        }
    }
}

impl PartialEq for MaterialName {
    fn eq(&self, other: &MaterialName) -> (r: bool) {
        match self {
            MaterialName::Steel => matches!(other, MaterialName::Steel),
            MaterialName::Aluminum => matches!(other, MaterialName::Aluminum),
            MaterialName::StainlessSteel => matches!(other, MaterialName::StainlessSteel),
            MaterialName::Copper => matches!(other, MaterialName::Copper),
            MaterialName::MildSteel => matches!(other, MaterialName::MildSteel),
            MaterialName::Custom(a) => match other {
                MaterialName::Custom(b) => a.eq(b),
                _ => false,
            },
        }
    }
}

impl vstd::std_specs::cmp::PartialEqSpecImpl for MaterialName {
    open spec fn obeys_eq_spec() -> bool {
        true
    }

    open spec fn eq_spec(&self, other: &MaterialName) -> bool {
        self@ == other@
    }
}

impl Eq for MaterialName {}

/// The text by which a material is shown.
pub open spec fn material_text(n: MaterialName) -> Seq<char> {
    match n {
        MaterialName::Steel => "Steel"@,
        MaterialName::Aluminum => "Aluminum"@,
        MaterialName::StainlessSteel => "Stainless Steel"@,
        MaterialName::Copper => "Copper"@,
        MaterialName::MildSteel => "Mild Steel"@,
        MaterialName::Custom(s) => s@,
    }
}

/// The named materials, in display order.
pub open spec fn default_material_names() -> Seq<MaterialName> {
    seq![
        MaterialName::Steel,
        MaterialName::Aluminum,
        MaterialName::StainlessSteel,
        MaterialName::Copper,
        MaterialName::MildSteel,
    ]
}

impl MaterialName {
    /// The named materials in display order.
    pub fn default_names() -> (r: Vec<Self>)
        ensures
            r@ == default_material_names(),
    {
        let mut v: Vec<MaterialName> = Vec::new();
        v.push(MaterialName::Steel);
        v.push(MaterialName::Aluminum);
        v.push(MaterialName::StainlessSteel);
        v.push(MaterialName::Copper);
        v.push(MaterialName::MildSteel);
        assert(v@ =~= default_material_names());
        v
    }

    pub fn to_string(&self) -> (r: String)
        ensures
            r@ == material_text(*self),
    {
        match self {
            MaterialName::Steel => String::from_str("Steel"),
            MaterialName::Aluminum => String::from_str("Aluminum"),
            MaterialName::StainlessSteel => String::from_str("Stainless Steel"),
            MaterialName::Copper => String::from_str("Copper"),
            MaterialName::MildSteel => String::from_str("Mild Steel"),
            MaterialName::Custom(name) => name.clone(),
        }
    }

    /// An equal copy of this name.
    pub fn duplicate(&self) -> (r: Self)
        ensures
            r == *self,
    {
        match self {
            MaterialName::Steel => MaterialName::Steel,
            MaterialName::Aluminum => MaterialName::Aluminum,
            MaterialName::StainlessSteel => MaterialName::StainlessSteel,
            MaterialName::Copper => MaterialName::Copper,
            MaterialName::MildSteel => MaterialName::MildSteel,
            MaterialName::Custom(name) => MaterialName::Custom(name.clone()),
        }
    }
}

/// Physical properties of a material. The bend radius factor is in thousandths:
/// the recommended minimum inner radius is the thickness times the factor.
#[derive(Debug, Clone)]
pub struct MaterialDetails {
    pub name: MaterialName,
    /// kg/m^3
    pub density_kg_m3: u32,
    /// MPa
    pub yield_stress_mpa: u32,
    /// GPa
    pub tensile_modulus_gpa: u32,
    /// thousandths
    pub min_bend_radius_factor_milli: u32,
}

#[derive(Debug, Clone, Copy, PartialEq, Eq, Structural)]
pub enum BendDirection {
    Up,
    Down,
}

pub open spec fn direction_text(d: BendDirection) -> Seq<char> {
    match d {
        BendDirection::Up => "Up"@,
        BendDirection::Down => "Down"@,
    }
}

impl BendDirection {
    pub fn default_directions() -> (r: Vec<Self>)
        ensures
            r@ == seq![BendDirection::Up, BendDirection::Down],
    {
        let mut v: Vec<BendDirection> = Vec::new();
        v.push(BendDirection::Up);
        v.push(BendDirection::Down);
        assert(v@ =~= seq![BendDirection::Up, BendDirection::Down]);
        v
    }

    pub fn to_string(&self) -> (r: String)
        ensures
            r@ == direction_text(*self),
    {
        match self {
            BendDirection::Up => String::from_str("Up"),
            BendDirection::Down => String::from_str("Down"),
        }
    }
}

/// One bend of a job. Lengths in micrometres, the angle in thousandths of a degree.
#[derive(Debug, Clone, Copy, PartialEq, Eq, Structural)]
pub struct BendStep {
    /// 1-based place in the job's sequence
    pub sequence_order: usize,
    pub position_um: u32,
    pub target_angle_mdeg: u32,
    pub radius_um: u32,
    pub direction: BendDirection,
}

/// The flat workpiece. Dimensions in micrometres.
#[derive(Debug, Clone)]
pub struct SheetMetal {
    pub id: String,
    pub original_length_um: u32,
    pub thickness_um: u32,
    pub width_um: u32,
    pub material_name: MaterialName,
}

impl Default for SheetMetal {
    fn default() -> (r: Self)
        ensures
            r.original_length_um == 300_000,
            r.thickness_um == 2_000,
            r.width_um == 100_000,
            r.material_name == MaterialName::Steel,
            r.id@ == "DefaultSheet-001"@,
    {
        SheetMetal {
            id: String::from_str("DefaultSheet-001"),
            original_length_um: 300_000,
            thickness_um: 2_000,
            width_um: 100_000,
            material_name: MaterialName::Steel,
        }
    }
}

/// A punch. Lengths in micrometres, the angle in thousandths of a degree.
#[derive(Debug, Clone)]
pub struct Punch {
    pub name: String,
    pub height_um: u32,
    pub angle_mdeg: u32,
    pub radius_um: u32,
}

/// A die. Lengths in micrometres, the angle in thousandths of a degree.
#[derive(Debug, Clone)]
pub struct Die {
    pub name: String,
    pub v_opening_um: u32,
    pub angle_mdeg: u32,
    pub shoulder_radius_um: u32,
}

/// A named sheet and its ordered bends.
#[derive(Debug, Clone)]
pub struct Job {
    pub name: String,
    pub sheet: SheetMetal,
    pub steps: Vec<BendStep>,
}

impl Default for Job {
    fn default() -> (r: Self)
        ensures
            r.name@ == "DefaultJob-001"@,
            r.sheet.id@ == "DefaultSheet-001"@,
            r.sheet.original_length_um == 300_000,
            r.sheet.thickness_um == 2_000,
            r.sheet.width_um == 100_000,
            r.sheet.material_name == MaterialName::Steel,
            r.steps@.len() == 0,
    {
        Job { name: String::from_str("DefaultJob-001"), sheet: SheetMetal::default(), steps: Vec::new() }
    }
}

/// The text fields and selection of the sheet editor.
#[derive(Default, Clone, Debug)]
pub struct SheetInputState {
    pub length_mm_str: String,
    pub thickness_mm_str: String,
    pub width_mm_str: String,
    pub selected_material_idx: usize,
}

/// The text fields and selection of the bend editor.
#[derive(Default, Clone, Debug)]
pub struct BendInputState {
    pub position_mm_str: String,
    pub target_angle_deg_str: String,
    pub radius_mm_str: String,
    pub selected_direction_idx: usize,
}

#[derive(Default, Clone, Copy, Debug)]
pub struct ToolingInputState {
    pub selected_punch_idx: usize,
    pub selected_die_idx: usize,
}

/// How a status message is to be shown.
#[derive(Debug, Clone, Copy, PartialEq, Eq, Structural)]
pub enum StatusColor {
    Red,
    Green,
    Yellow,
}

/// The whole session: the job, the catalogs, the editors' inputs, and what the
/// last simulation produced.
pub struct AppState {
    pub current_job: Job,
    pub available_materials: Vec<MaterialDetails>,
    pub material_display_order: Vec<MaterialName>,
    pub available_punches: Vec<Punch>,
    pub available_dies: Vec<Die>,
    pub sheet_input: SheetInputState,
    pub bend_input: BendInputState,
    pub tooling_input: ToolingInputState,
    pub simulation_status: String,
    pub parts_bent_session: u32,
    /// The cached profile picture of the last simulation, if still current.
    pub simulated_profile: Option<DecodedImage>,
    pub profile_load_status: String,
    pub status_message: (String, Option<StatusColor>),
    pub app_logo: Option<DecodedImage>,
}

} // verus!
