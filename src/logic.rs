//! The operations that edit a job and the session around it.

use vstd::prelude::*;
use crate::decimal::{lemma_quantity_round_trip, decimal_value, format_count, format_quantity, nat_text, quantity_text};
use crate::db::{load_job_from_file, save_job_to_file, save_succeeds, contains_text, is_loaded_job, JobStorageError};
use crate::imaging::{DecodedImage, ImageLogicError, image_error_prefix};
use crate::state::{
    default_material_names, Die, Punch, ToolingInputState,
    AppState, BendDirection, BendInputState, BendStep, Job, MaterialDetails, MaterialName,
    SheetInputState, StatusColor,
};
use crate::validation::{
    check_field, field_accepts, field_error, validation_message, Field, ValidationError,
    MAX_BEND_ANGLE_MDEG, MAX_BEND_RADIUS_UM, MAX_SHEET_DIMENSION_UM, MIN_BEND_ANGLE_MDEG,
    MIN_BEND_RADIUS_UM, MIN_SHEET_DIMENSION_UM,
};

verus! {

broadcast use vstd::string::group_string_axioms;

/// The factor, in thousandths, used for a material whose own factor is zero.
pub const FALLBACK_RADIUS_FACTOR_MILLI: u64 = 500;

/// `i` is the first place in the catalog that holds the material `key`.
pub open spec fn is_first_entry(catalog: Seq<MaterialDetails>, key: (int, Seq<char>), i: int) -> bool {
    &&& 0 <= i < catalog.len()
    &&& catalog[i].name@ == key
    &&& forall|j: int| 0 <= j < i ==> (#[trigger] catalog[j]).name@ != key
}

/// Where the catalog holds the material `key`, if it does.
pub open spec fn catalog_index(catalog: Seq<MaterialDetails>, key: (int, Seq<char>)) -> Option<int> {
    if exists|i: int| is_first_entry(catalog, key, i) {
        Some(choose|i: int| is_first_entry(catalog, key, i))
    } else {
        None
    }
}

/// `i` is the first place in the display order that holds the material `key`.
pub open spec fn is_first_shown(order: Seq<MaterialName>, key: (int, Seq<char>), i: int) -> bool {
    &&& 0 <= i < order.len()
    &&& order[i]@ == key
    &&& forall|j: int| 0 <= j < i ==> (#[trigger] order[j])@ != key
}

/// Where the display order shows the material `key`, or 0 where it does not.
pub open spec fn display_index(order: Seq<MaterialName>, key: (int, Seq<char>)) -> int {
    if exists|i: int| is_first_shown(order, key, i) {
        choose|i: int| is_first_shown(order, key, i)
    } else {
        0
    }
}

/// Recommended minimum inner radius in nanometres, from a thickness in micrometres
/// and a factor in thousandths.
pub open spec fn radius_from_factor(thickness_um: int, factor_milli: int) -> int {
    if factor_milli == 0 {
        thickness_um * FALLBACK_RADIUS_FACTOR_MILLI
    } else {
        thickness_um * factor_milli
    }
}

/// The recommended minimum inner radius, in nanometres, for the job's sheet, or
/// `None` where the catalog does not hold its material.
pub open spec fn recommended_min_radius(s: AppState) -> Option<int> {
    match catalog_index(s.available_materials@, s.current_job.sheet.material_name@) {
        Some(i) => Some(
            radius_from_factor(
                s.current_job.sheet.thickness_um as int,
                s.available_materials@[i].min_bend_radius_factor_milli as int,
            ),
        ),
        None => None,
    }
}

/// Every material that the display order shows has an entry in the catalog.
pub open spec fn catalog_covers_display(s: AppState) -> bool {
    forall|i: int|
        0 <= i < s.material_display_order@.len() ==> (#[trigger] catalog_index(
            s.available_materials@,
            s.material_display_order@[i]@,
        )).is_some()
}

/// The material that the sheet editor's selection stands for: the entry it
/// points at, else the first entry, else steel.
pub open spec fn selected_material(order: Seq<MaterialName>, idx: int) -> MaterialName {
    if 0 <= idx < order.len() {
        order[idx]
    } else if order.len() > 0 {
        order[0]
    } else {
        MaterialName::Steel
    }
}

/// The direction that the bend editor's selection stands for: `Up` where it is out of range.
pub open spec fn selected_direction(idx: int) -> BendDirection {
    if idx == 1 {
        BendDirection::Down
    } else {
        BendDirection::Up
    }
}

/// The sheet editor's fields show the job's sheet.
pub open spec fn sheet_input_shows(input: SheetInputState, job: Job, order: Seq<MaterialName>) -> bool {
    &&& input.length_mm_str@ == quantity_text(job.sheet.original_length_um as int)
    &&& input.thickness_mm_str@ == quantity_text(job.sheet.thickness_um as int)
    &&& input.width_mm_str@ == quantity_text(job.sheet.width_um as int)
    &&& input.selected_material_idx as int == display_index(order, job.sheet.material_name@)
}

/// The catalogs, the editors and the logo are the same in both states.
pub open spec fn keeps_setup(a: AppState, b: AppState) -> bool {
    &&& a.available_materials == b.available_materials
    &&& a.material_display_order == b.material_display_order
    &&& a.available_punches == b.available_punches
    &&& a.available_dies == b.available_dies
    &&& a.sheet_input == b.sheet_input
    &&& a.bend_input == b.bend_input
    &&& a.tooling_input == b.tooling_input
    &&& a.app_logo == b.app_logo
}

/// The job, the cached profile and the simulation's state are the same in both states.
pub open spec fn keeps_model(a: AppState, b: AppState) -> bool {
    &&& a.current_job == b.current_job
    &&& a.simulated_profile == b.simulated_profile
    &&& a.profile_load_status == b.profile_load_status
    &&& a.simulation_status == b.simulation_status
    &&& a.parts_bent_session == b.parts_bent_session
}

/// Finds the material in the catalog.
pub fn lookup_material(catalog: &Vec<MaterialDetails>, name: &MaterialName) -> (r: Option<usize>)
    ensures
        r.is_some() == catalog_index(catalog@, name@).is_some(),
        r matches Some(i) ==> catalog_index(catalog@, name@) == Some(i as int),
{
    let mut i: usize = 0;
    while i < catalog.len()
        invariant
            i <= catalog@.len(),
            forall|j: int| 0 <= j < i ==> (#[trigger] catalog@[j]).name@ != name@,
        decreases catalog@.len() - i,
    {
        if catalog[i].name.eq(name) {
            proof {
                assert(is_first_entry(catalog@, name@, i as int));
                assert forall|k: int| is_first_entry(catalog@, name@, k) implies k == i by {
                    if k > i {
                        assert(catalog@[i as int].name@ != name@);
                    }
                }
            }
            return Some(i);
        }
        i = i + 1;
    }
    None
}

/// Finds the material in the display order; 0 where it is not shown.
pub fn display_position(order: &Vec<MaterialName>, name: &MaterialName) -> (r: usize)
    ensures
        r as int == display_index(order@, name@),
{
    let mut i: usize = 0;
    while i < order.len()
        invariant
            i <= order@.len(),
            forall|j: int| 0 <= j < i ==> (#[trigger] order@[j])@ != name@,
        decreases order@.len() - i,
    {
        if order[i].eq(name) {
            proof {
                assert(is_first_shown(order@, name@, i as int));
                assert forall|k: int| is_first_shown(order@, name@, k) implies k == i by {
                    if k > i {
                        assert(order@[i as int]@ != name@);
                    }
                }
            }
            return i;
        }
        i = i + 1;
    }
    0
}

fn select_material(order: &Vec<MaterialName>, idx: usize) -> (r: MaterialName)
    ensures
        r == selected_material(order@, idx as int),
{
    if idx < order.len() {
        order[idx].duplicate()
    } else if order.len() > 0 {
        order[0].duplicate()
    } else {
        MaterialName::Steel
    }
}

/// The recommended minimum inner radius for the current sheet, in nanometres;
/// `None` where the catalog does not hold the sheet's material.
pub fn get_recommended_min_bend_radius(state: &AppState) -> (r: Option<u64>)
    ensures
        r.is_some() == recommended_min_radius(*state).is_some(),
        r matches Some(v) ==> v as int == recommended_min_radius(*state).unwrap(),
{
    let sheet = &state.current_job.sheet;
    match lookup_material(&state.available_materials, &sheet.material_name) {
        None => None,
        Some(i) => {
            let factor = state.available_materials[i].min_bend_radius_factor_milli as u64;
            let factor = if factor == 0 {
                FALLBACK_RADIUS_FACTOR_MILLI
            } else {
                factor
            };
            let t = sheet.thickness_um as u64;
            assert(t * factor <= 0xffff_ffff * 0xffff_ffff) by (nonlinear_arith)
                requires
                    t <= 0xffff_ffff,
                    factor <= 0xffff_ffff,
            ;
            Some(t * factor)
        },
    }
}

/// The three dimensions in the sheet editor are numbers within the sheet bounds.
pub open spec fn sheet_edit_accepted(s: AppState) -> bool {
    &&& field_accepts(s.sheet_input.length_mm_str@, MIN_SHEET_DIMENSION_UM as int, MAX_SHEET_DIMENSION_UM as int, false)
    &&& field_accepts(s.sheet_input.thickness_mm_str@, MIN_SHEET_DIMENSION_UM as int, MAX_SHEET_DIMENSION_UM as int, false)
    &&& field_accepts(s.sheet_input.width_mm_str@, MIN_SHEET_DIMENSION_UM as int, MAX_SHEET_DIMENSION_UM as int, false)
}

/// `e` is the error for the first refused field of the sheet editor, in the
/// order length, thickness, width.
pub open spec fn sheet_edit_error(s: AppState, e: ValidationError) -> bool {
    let lo = MIN_SHEET_DIMENSION_UM as int;
    let hi = MAX_SHEET_DIMENSION_UM as int;
    if !field_accepts(s.sheet_input.length_mm_str@, lo, hi, false) {
        field_error(e, Field::Length, s.sheet_input.length_mm_str@, lo, hi)
    } else if !field_accepts(s.sheet_input.thickness_mm_str@, lo, hi, false) {
        field_error(e, Field::Thickness, s.sheet_input.thickness_mm_str@, lo, hi)
    } else {
        field_error(e, Field::Width, s.sheet_input.width_mm_str@, lo, hi)
    }
}

/// While the sheet editor shows a sheet whose dimensions lie within the sheet
/// bounds, applying the editor is accepted and gives back those same dimensions.
pub proof fn lemma_shown_sheet_applies_unchanged(s: AppState)
    requires
        sheet_input_shows(s.sheet_input, s.current_job, s.material_display_order@),
        MIN_SHEET_DIMENSION_UM <= s.current_job.sheet.original_length_um <= MAX_SHEET_DIMENSION_UM,
        MIN_SHEET_DIMENSION_UM <= s.current_job.sheet.thickness_um <= MAX_SHEET_DIMENSION_UM,
        MIN_SHEET_DIMENSION_UM <= s.current_job.sheet.width_um <= MAX_SHEET_DIMENSION_UM,
    ensures
        sheet_edit_accepted(s),
        decimal_value(s.sheet_input.length_mm_str@) == Some(s.current_job.sheet.original_length_um as int),
        decimal_value(s.sheet_input.thickness_mm_str@) == Some(s.current_job.sheet.thickness_um as int),
        decimal_value(s.sheet_input.width_mm_str@) == Some(s.current_job.sheet.width_um as int),
{
    lemma_quantity_round_trip(s.current_job.sheet.original_length_um as int);
    lemma_quantity_round_trip(s.current_job.sheet.thickness_um as int);
    lemma_quantity_round_trip(s.current_job.sheet.width_um as int);
}

/// Applies the sheet editor to the job: all three dimensions and the material
/// at once, or nothing. A new sheet discards every bend and the cached profile.
pub fn update_sheet_properties(state: &mut AppState) -> (r: Result<(), ValidationError>)
    ensures
        r is Ok <==> sheet_edit_accepted(*old(state)),
        keeps_setup(*old(state), *final(state)),
        final(state).simulation_status == old(state).simulation_status,
        final(state).parts_bent_session == old(state).parts_bent_session,
        r matches Err(e) ==> sheet_edit_error(*old(state), e) && keeps_model(*old(state), *final(state))
            && final(state).status_message.0@ == validation_message(e)
            && final(state).status_message.1 == Some(StatusColor::Red),
        r is Ok ==> {
            &&& final(state).current_job.sheet.original_length_um as int == decimal_value(old(state).sheet_input.length_mm_str@).unwrap()
            &&& final(state).current_job.sheet.thickness_um as int == decimal_value(old(state).sheet_input.thickness_mm_str@).unwrap()
            &&& final(state).current_job.sheet.width_um as int == decimal_value(old(state).sheet_input.width_mm_str@).unwrap()
            &&& final(state).current_job.sheet.material_name == selected_material(
                old(state).material_display_order@,
                old(state).sheet_input.selected_material_idx as int,
            )
            &&& final(state).current_job.sheet.id == old(state).current_job.sheet.id
            &&& final(state).current_job.name == old(state).current_job.name
            &&& final(state).current_job.steps@.len() == 0
            &&& final(state).simulated_profile is None
            &&& final(state).profile_load_status@ == "Profile outdated due to sheet change."@
            &&& final(state).status_message.0@ == "Sheet properties updated. Bend steps cleared."@
            &&& final(state).status_message.1 == Some(StatusColor::Green)
        },
{
    let length = match check_field(Field::Length, &state.sheet_input.length_mm_str, MIN_SHEET_DIMENSION_UM, MAX_SHEET_DIMENSION_UM, false) {
        Ok(v) => v,
        Err(e) => {
            state.status_message = (e.message(), Some(StatusColor::Red));
            return Err(e);
        },
    };
    let thickness = match check_field(Field::Thickness, &state.sheet_input.thickness_mm_str, MIN_SHEET_DIMENSION_UM, MAX_SHEET_DIMENSION_UM, false) {
        Ok(v) => v,
        Err(e) => {
            state.status_message = (e.message(), Some(StatusColor::Red));
            return Err(e);
        },
    };
    let width = match check_field(Field::Width, &state.sheet_input.width_mm_str, MIN_SHEET_DIMENSION_UM, MAX_SHEET_DIMENSION_UM, false) {
        Ok(v) => v,
        Err(e) => {
            state.status_message = (e.message(), Some(StatusColor::Red));
            return Err(e);
        },
    };
    let material = select_material(&state.material_display_order, state.sheet_input.selected_material_idx);
    state.current_job.sheet.original_length_um = length as u32;
    state.current_job.sheet.thickness_um = thickness as u32;
    state.current_job.sheet.width_um = width as u32;
    state.current_job.sheet.material_name = material;
    state.current_job.steps.clear();
    state.status_message = (String::from_str("Sheet properties updated. Bend steps cleared."), Some(StatusColor::Green));
    state.simulated_profile = None;
    state.profile_load_status = String::from_str("Profile outdated due to sheet change.");
    Ok(())
}

/// The three fields of the bend editor are numbers within their bounds; the
/// position lies strictly inside the current sheet's length.
pub open spec fn bend_edit_accepted(s: AppState) -> bool {
    &&& field_accepts(s.bend_input.position_mm_str@, 0, s.current_job.sheet.original_length_um as int, true)
    &&& field_accepts(s.bend_input.target_angle_deg_str@, MIN_BEND_ANGLE_MDEG as int, MAX_BEND_ANGLE_MDEG as int, false)
    &&& field_accepts(s.bend_input.radius_mm_str@, MIN_BEND_RADIUS_UM as int, MAX_BEND_RADIUS_UM as int, false)
}

/// `e` is the error for the first refused field of the bend editor, in the
/// order position, angle, radius.
pub open spec fn bend_edit_error(s: AppState, e: ValidationError) -> bool {
    if !field_accepts(s.bend_input.position_mm_str@, 0, s.current_job.sheet.original_length_um as int, true) {
        field_error(e, Field::Position, s.bend_input.position_mm_str@, 0, s.current_job.sheet.original_length_um as int)
    } else if !field_accepts(s.bend_input.target_angle_deg_str@, MIN_BEND_ANGLE_MDEG as int, MAX_BEND_ANGLE_MDEG as int, false) {
        field_error(e, Field::Angle, s.bend_input.target_angle_deg_str@, MIN_BEND_ANGLE_MDEG as int, MAX_BEND_ANGLE_MDEG as int)
    } else {
        field_error(e, Field::Radius, s.bend_input.radius_mm_str@, MIN_BEND_RADIUS_UM as int, MAX_BEND_RADIUS_UM as int)
    }
}

/// The step that the bend editor describes, appended after the job's steps.
pub open spec fn edited_step(s: AppState) -> BendStep {
    BendStep {
        sequence_order: (s.current_job.steps@.len() + 1) as usize,
        position_um: decimal_value(s.bend_input.position_mm_str@).unwrap() as u32,
        target_angle_mdeg: decimal_value(s.bend_input.target_angle_deg_str@).unwrap() as u32,
        radius_um: decimal_value(s.bend_input.radius_mm_str@).unwrap() as u32,
        direction: selected_direction(s.bend_input.selected_direction_idx as int),
    }
}

/// A radius in micrometres is above zero but below the recommendation for the
/// sheet's material (zero denotes a deliberately sharp bend).
pub open spec fn below_recommended(s: AppState, radius_um: int) -> bool {
    match recommended_min_radius(s) {
        Some(min_nm) => radius_um > 0 && radius_um * 1000 < min_nm,
        None => false,
    }
}

pub open spec fn radius_warning_text(radius_um: int) -> Seq<char> {
    "Bend step added. Warning: radius "@ + quantity_text(radius_um)
        + " mm is below the recommended minimum for the material."@
}

/// A radius of zero, a deliberately sharp bend, never draws the warning about
/// the recommended minimum, whatever the sheet and its material.
pub proof fn lemma_zero_radius_never_warns(s: AppState)
    ensures
        !below_recommended(s, 0),
{
}

fn select_direction(idx: usize) -> (r: BendDirection)
    ensures
        r == selected_direction(idx as int),
{
    let directions = BendDirection::default_directions();
    if idx < directions.len() {
        directions[idx]
    } else {
        BendDirection::Up
    }
}

/// Appends the step that the bend editor describes, or refuses it and changes
/// nothing of the job. A radius below the recommendation still adds the step,
/// with a warning in place of the plain confirmation.
pub fn add_bend_step(state: &mut AppState) -> (r: Result<(), ValidationError>)
    requires
        old(state).current_job.steps@.len() < usize::MAX,
    ensures
        r is Ok <==> bend_edit_accepted(*old(state)),
        keeps_setup(*old(state), *final(state)),
        final(state).simulation_status == old(state).simulation_status,
        final(state).parts_bent_session == old(state).parts_bent_session,
        r matches Err(e) ==> bend_edit_error(*old(state), e) && keeps_model(*old(state), *final(state))
            && final(state).status_message.0@ == validation_message(e)
            && final(state).status_message.1 == Some(StatusColor::Red),
        r is Ok ==> {
            &&& final(state).current_job.steps@ == old(state).current_job.steps@.push(edited_step(*old(state)))
            &&& final(state).current_job.sheet == old(state).current_job.sheet
            &&& final(state).current_job.name == old(state).current_job.name
            &&& final(state).simulated_profile is None
            &&& final(state).profile_load_status@ == "Profile outdated due to new bend."@
            &&& if below_recommended(*old(state), edited_step(*old(state)).radius_um as int) {
                &&& final(state).status_message.0@ == radius_warning_text(edited_step(*old(state)).radius_um as int)
                &&& final(state).status_message.1 == Some(StatusColor::Yellow)
            } else {
                &&& final(state).status_message.0@ == "Bend step added."@
                &&& final(state).status_message.1 == Some(StatusColor::Green)
            }
        },
{
    let length = state.current_job.sheet.original_length_um as i64;
    let position = match check_field(Field::Position, &state.bend_input.position_mm_str, 0, length, true) {
        Ok(v) => v,
        Err(e) => {
            state.status_message = (e.message(), Some(StatusColor::Red));
            return Err(e);
        },
    };
    let angle = match check_field(Field::Angle, &state.bend_input.target_angle_deg_str, MIN_BEND_ANGLE_MDEG, MAX_BEND_ANGLE_MDEG, false) {
        Ok(v) => v,
        Err(e) => {
            state.status_message = (e.message(), Some(StatusColor::Red));
            return Err(e);
        },
    };
    let radius = match check_field(Field::Radius, &state.bend_input.radius_mm_str, MIN_BEND_RADIUS_UM, MAX_BEND_RADIUS_UM, false) {
        Ok(v) => v,
        Err(e) => {
            state.status_message = (e.message(), Some(StatusColor::Red));
            return Err(e);
        },
    };
    let direction = select_direction(state.bend_input.selected_direction_idx);
    let warn = match get_recommended_min_bend_radius(state) {
        Some(min_nm) => radius > 0 && (radius as u64) * 1000 < min_nm,
        None => false,
    };
    let step = BendStep {
        sequence_order: state.current_job.steps.len() + 1,
        position_um: position as u32,
        target_angle_mdeg: angle as u32,
        radius_um: radius as u32,
        direction,
    };
    state.current_job.steps.push(step);
    if warn {
        let mut text = String::from_str("Bend step added. Warning: radius ");
        text.append(format_quantity(radius).as_str());
        text.append(" mm is below the recommended minimum for the material.");
        state.status_message = (text, Some(StatusColor::Yellow));
    } else {
        state.status_message = (String::from_str("Bend step added."), Some(StatusColor::Green));
    }
    state.simulated_profile = None;
    state.profile_load_status = String::from_str("Profile outdated due to new bend.");
    Ok(())
}

/// What clearing the bend steps did.
#[derive(Debug, Clone, Copy, PartialEq, Eq, Structural)]
pub enum ClearOutcome {
    Cleared,
    NothingToClear,
}

/// How clearing the bend steps takes state `a` to state `b` with outcome `r`.
pub open spec fn clear_effect(a: AppState, b: AppState, r: ClearOutcome) -> bool {
    &&& keeps_setup(a, b)
    &&& b.simulation_status == a.simulation_status
    &&& b.parts_bent_session == a.parts_bent_session
    &&& if a.current_job.steps@.len() == 0 {
        &&& r == ClearOutcome::NothingToClear
        &&& keeps_model(a, b)
        &&& b.status_message.0@ == "No bend steps to clear."@
        &&& b.status_message.1 is None
    } else {
        &&& r == ClearOutcome::Cleared
        &&& b.current_job.steps@.len() == 0
        &&& b.current_job.sheet == a.current_job.sheet
        &&& b.current_job.name == a.current_job.name
        &&& b.simulated_profile is None
        &&& b.profile_load_status@ == "Profile outdated, bends cleared."@
        &&& b.status_message.0@ == "All bend steps cleared."@
        &&& b.status_message.1 == Some(StatusColor::Green)
    }
}

/// Removes every bend step; where there is none, changes nothing but the status.
pub fn clear_all_bend_steps(state: &mut AppState) -> (r: ClearOutcome)
    ensures
        clear_effect(*old(state), *final(state), r),
{
    if state.current_job.steps.len() == 0 {
        state.status_message = (String::from_str("No bend steps to clear."), None);
        return ClearOutcome::NothingToClear;
    }
    state.current_job.steps.clear();
    state.status_message = (String::from_str("All bend steps cleared."), Some(StatusColor::Green));
    state.simulated_profile = None;
    state.profile_load_status = String::from_str("Profile outdated, bends cleared.");
    ClearOutcome::Cleared
}

/// Clearing twice: the first clear of a non-empty sequence clears it, and a
/// second clear right after finds nothing to clear and changes neither the job
/// nor the cached profile.
pub proof fn lemma_clear_twice(s0: AppState, s1: AppState, s2: AppState, r1: ClearOutcome, r2: ClearOutcome)
    requires
        s0.current_job.steps@.len() > 0,
        clear_effect(s0, s1, r1),
        clear_effect(s1, s2, r2),
    ensures
        r1 == ClearOutcome::Cleared,
        r2 == ClearOutcome::NothingToClear,
        s2.current_job == s1.current_job,
        s2.simulated_profile == s1.simulated_profile,
        s2.current_job.steps@.len() == 0,
{
}

/// Where the picture that stands for a simulated profile is read from.
pub const PROFILE_PLACEHOLDER_PATH: &'static str = "assets/drawing.png";

/// The status shown while a simulation runs.
pub open spec fn running_text(job: Job) -> Seq<char> {
    "Simulating "@ + nat_text(job.steps@.len()) + " bend steps for job '"@ + job.name@ + "'..."@
}

pub open spec fn generating_text() -> Seq<char> {
    "Generating profile (using placeholder: "@ + PROFILE_PLACEHOLDER_PATH@ + ")..."@
}

/// How starting a run takes state `a` to state `b`, `r` saying whether it started.
pub open spec fn begin_effect(a: AppState, b: AppState, r: bool) -> bool {
    &&& r == (a.current_job.steps@.len() > 0)
    &&& keeps_setup(a, b)
    &&& !r ==> keeps_model(a, b) && b.status_message.0@ == "No bend steps to simulate."@
        && b.status_message.1 == Some(StatusColor::Yellow)
    &&& r ==> {
        &&& b.current_job == a.current_job
        &&& b.simulated_profile == a.simulated_profile
        &&& b.parts_bent_session == a.parts_bent_session
        &&& b.simulation_status@ == running_text(a.current_job)
        &&& b.status_message.0@ == running_text(a.current_job)
        &&& b.status_message.1 is None
        &&& b.profile_load_status@ == generating_text()
    }
}

/// Starts a simulation run. Without bend steps the run is refused, with an
/// advisory status, and nothing else changes; otherwise the status says that
/// the run is under way before any picture is read.
pub fn begin_simulation(state: &mut AppState) -> (r: bool)
    ensures
        begin_effect(*old(state), *final(state), r),
{
    if state.current_job.steps.len() == 0 {
        state.status_message = (String::from_str("No bend steps to simulate."), Some(StatusColor::Yellow));
        return false;
    }
    let mut text = String::from_str("Simulating ");
    text.append(format_count(state.current_job.steps.len() as u64).as_str());
    text.append(" bend steps for job '");
    text.append(state.current_job.name.as_str());
    text.append("'...");
    state.simulation_status = text.clone();
    state.status_message = (text, None);
    let mut generating = String::from_str("Generating profile (using placeholder: ");
    generating.append(PROFILE_PLACEHOLDER_PATH);
    generating.append(")...");
    state.profile_load_status = generating;
    true
}

pub open spec fn profile_failure_prefix() -> Seq<char> {
    "Failed to load profile image: "@
}

/// How completing a run takes state `a` to state `b`, given the profile picture
/// or why there is none.
pub open spec fn finish_effect(a: AppState, b: AppState, profile: Result<DecodedImage, ImageLogicError>) -> bool {
    &&& keeps_setup(a, b)
    &&& b.current_job == a.current_job
    &&& b.parts_bent_session == a.parts_bent_session + 1
    &&& b.simulation_status@ == "Simulation complete."@
    &&& b.status_message.0@ == "Simulation complete."@
    &&& b.status_message.1 == Some(StatusColor::Green)
    &&& profile matches Ok(img) ==> b.simulated_profile == Some(img)
        && b.profile_load_status@ == "Simulated profile loaded (placeholder)."@
    &&& profile matches Err(e) ==> b.simulated_profile is None
        && b.profile_load_status@.len() >= profile_failure_prefix().len() + image_error_prefix(&e).len()
        && b.profile_load_status@.take((profile_failure_prefix().len() + image_error_prefix(&e).len()) as int)
            == profile_failure_prefix() + image_error_prefix(&e)
}

/// Completes a run started by `begin_simulation`, given what reading and
/// decoding the profile picture gave. The run completes and counts whatever
/// that was; a failure only leaves the profile empty and says why.
pub fn finish_simulation(state: &mut AppState, profile: Result<DecodedImage, ImageLogicError>)
    requires
        old(state).parts_bent_session < u32::MAX,
    ensures
        finish_effect(*old(state), *final(state), profile),
{
    match profile {
        Ok(img) => {
            state.simulated_profile = Some(img);
            state.profile_load_status = String::from_str("Simulated profile loaded (placeholder).");
        },
        Err(e) => {
            let mut text = String::from_str("Failed to load profile image: ");
            let ghost head = text@;
            let cause = e.message();
            text.append(cause.as_str());
            proof {
                let n = image_error_prefix(&e).len() as int;
                assert(text@.take(head.len() + n) =~= head + cause@.take(n));
            }
            state.profile_load_status = text;
            state.simulated_profile = None;
        },
    }
    state.parts_bent_session = state.parts_bent_session + 1;
    state.simulation_status = String::from_str("Simulation complete.");
    state.status_message = (String::from_str("Simulation complete."), Some(StatusColor::Green));
}

/// A simulation request on a job without bends leaves the simulation status and
/// the part counter as they were. On a job with bends, the run is shown as under
/// way and then complete, and the counter goes up by exactly one, whether or not
/// the profile picture could be had.
pub proof fn lemma_simulation_run(
    s0: AppState,
    s1: AppState,
    started: bool,
    s2: AppState,
    profile: Result<DecodedImage, ImageLogicError>,
)
    requires
        begin_effect(s0, s1, started),
        started ==> finish_effect(s1, s2, profile),
    ensures
        !started ==> s1.simulation_status == s0.simulation_status && s1.parts_bent_session
            == s0.parts_bent_session && s0.current_job.steps@.len() == 0,
        started ==> s1.simulation_status@ == running_text(s0.current_job)
            && s2.simulation_status@ == "Simulation complete."@
            && s2.parts_bent_session == s0.parts_bent_session + 1
            && s2.current_job == s0.current_job,
{
}

/// Sets the sheet editor's fields to show the job's sheet.
fn show_sheet_in_editor(state: &mut AppState)
    ensures
        sheet_input_shows(final(state).sheet_input, final(state).current_job, final(state).material_display_order@),
        final(state).current_job == old(state).current_job,
        final(state).material_display_order == old(state).material_display_order,
        final(state).available_materials == old(state).available_materials,
        final(state).available_punches == old(state).available_punches,
        final(state).available_dies == old(state).available_dies,
        final(state).bend_input == old(state).bend_input,
        final(state).tooling_input == old(state).tooling_input,
        final(state).app_logo == old(state).app_logo,
        keeps_model(*old(state), *final(state)),
        final(state).status_message == old(state).status_message,
{
    state.sheet_input.length_mm_str = format_quantity(state.current_job.sheet.original_length_um as i64);
    state.sheet_input.thickness_mm_str = format_quantity(state.current_job.sheet.thickness_um as i64);
    state.sheet_input.width_mm_str = format_quantity(state.current_job.sheet.width_um as i64);
    state.sheet_input.selected_material_idx = display_position(&state.material_display_order, &state.current_job.sheet.material_name);
}

pub open spec fn logo_failure_prefix() -> Seq<char> {
    "Failed to load app logo: "@
}

/// Takes the logo that was read at start-up (a failure is reported in the
/// status and leaves the logo absent), shows the sheet in the sheet editor and
/// puts starting values in the bend editor.
pub fn perform_initial_setup(state: &mut AppState, logo: Result<DecodedImage, ImageLogicError>)
    ensures
        final(state).current_job == old(state).current_job,
        keeps_model(*old(state), *final(state)),
        sheet_input_shows(final(state).sheet_input, final(state).current_job, final(state).material_display_order@),
        final(state).material_display_order == old(state).material_display_order,
        final(state).available_materials == old(state).available_materials,
        final(state).bend_input.position_mm_str@ == "50.0"@,
        final(state).bend_input.target_angle_deg_str@ == "90.0"@,
        final(state).bend_input.radius_mm_str@ == "2.0"@,
        final(state).bend_input.selected_direction_idx == old(state).bend_input.selected_direction_idx,
        logo matches Ok(img) ==> final(state).app_logo == Some(img)
            && final(state).status_message == old(state).status_message,
        logo matches Err(e) ==> final(state).app_logo == old(state).app_logo
            && final(state).status_message.1 == Some(StatusColor::Red)
            && final(state).status_message.0@.len() >= logo_failure_prefix().len()
            && final(state).status_message.0@.take(logo_failure_prefix().len() as int) == logo_failure_prefix(),
{
    match logo {
        Ok(img) => {
            state.app_logo = Some(img);
        },
        Err(e) => {
            let mut text = String::from_str("Failed to load app logo: ");
            let ghost head = text@;
            text.append(e.message().as_str());
            assert(text@.take(head.len() as int) =~= head);
            state.status_message = (text, Some(StatusColor::Red));
        },
    }
    show_sheet_in_editor(state);
    state.bend_input.position_mm_str = String::from_str("50.0");
    state.bend_input.target_angle_deg_str = String::from_str("90.0");
    state.bend_input.radius_mm_str = String::from_str("2.0");
}

/// Saves the current job where a path was given; `None` where none was.
pub fn handle_save_job(state: &AppState, file_path: Option<String>) -> (r: Option<Result<(), JobStorageError>>)
    ensures
        file_path is None <==> r is None,
        r matches Some(res) ==> (res is Ok <==> save_succeeds(state.current_job)),
{
    match file_path {
        None => None,
        Some(path) => Some(save_job_to_file(&state.current_job, path.as_str())),
    }
}

/// Loads a job from the given path and makes it the current one: the sheet
/// editor shows its sheet, the bend editor is emptied and the cached profile is
/// dropped. Where no path was given, or loading fails, nothing changes.
pub fn handle_load_job(state: &mut AppState, file_path: Option<String>) -> (r: Option<Result<(), JobStorageError>>)
    ensures
        file_path is None <==> r is None,
        r matches Some(Err(_)) ==> file_path matches Some(p) && contains_text(p@, "nonexistent"@),
        r matches Some(Ok(())) ==> file_path matches Some(p) && !contains_text(p@, "nonexistent"@),
        !(r matches Some(Ok(()))) ==> keeps_model(*old(state), *final(state)) && keeps_setup(*old(state), *final(state))
            && final(state).status_message == old(state).status_message,
        r matches Some(Ok(())) ==> {
            &&& file_path matches Some(p) && is_loaded_job(final(state).current_job, p@)
            &&& sheet_input_shows(final(state).sheet_input, final(state).current_job, final(state).material_display_order@)
            &&& final(state).bend_input.position_mm_str@.len() == 0
            &&& final(state).bend_input.target_angle_deg_str@.len() == 0
            &&& final(state).bend_input.radius_mm_str@.len() == 0
            &&& final(state).bend_input.selected_direction_idx == 0
            &&& final(state).simulated_profile is None
            &&& final(state).profile_load_status@ == "New job loaded, profile outdated."@
            &&& final(state).simulation_status == old(state).simulation_status
            &&& final(state).parts_bent_session == old(state).parts_bent_session
            &&& final(state).material_display_order == old(state).material_display_order
            &&& final(state).available_materials == old(state).available_materials
        },
{
    match file_path {
        None => None,
        Some(path) => match load_job_from_file(path.as_str()) {
            Err(e) => Some(Err(e)),
            Ok(job) => {
                state.current_job = job;
                show_sheet_in_editor(state);
                state.bend_input = BendInputState {
                    position_mm_str: String::new(),
                    target_angle_deg_str: String::new(),
                    radius_mm_str: String::new(),
                    selected_direction_idx: 0,
                };
                state.simulated_profile = None;
                state.profile_load_status = String::from_str("New job loaded, profile outdated.");
                Some(Ok(()))
            },
        },
    }
}

/// `d` is the catalog entry for `name` with these properties.
pub open spec fn entry_is(d: MaterialDetails, name: MaterialName, density: u32, yield_stress: u32, modulus: u32, factor: u32) -> bool {
    &&& d.name == name
    &&& d.density_kg_m3 == density
    &&& d.yield_stress_mpa == yield_stress
    &&& d.tensile_modulus_gpa == modulus
    &&& d.min_bend_radius_factor_milli == factor
}

/// The catalog of the named materials, in display order.
pub open spec fn is_default_catalog(c: Seq<MaterialDetails>) -> bool {
    &&& c.len() == 5
    &&& entry_is(c[0], MaterialName::Steel, 7850, 250, 200, 1500)
    &&& entry_is(c[1], MaterialName::Aluminum, 2700, 100, 70, 1000)
    &&& entry_is(c[2], MaterialName::StainlessSteel, 8000, 215, 193, 2000)
    &&& entry_is(c[3], MaterialName::Copper, 8960, 70, 117, 800)
    &&& entry_is(c[4], MaterialName::MildSteel, 7850, 220, 200, 1200)
}

fn material(name: MaterialName, density: u32, yield_stress: u32, modulus: u32, factor: u32) -> (r: MaterialDetails)
    ensures
        entry_is(r, name, density, yield_stress, modulus, factor),
{
    MaterialDetails {
        name,
        density_kg_m3: density,
        yield_stress_mpa: yield_stress,
        tensile_modulus_gpa: modulus,
        min_bend_radius_factor_milli: factor,
    }
}

impl Default for AppState {
    /// A fresh session: the default job, the material catalog, three punches and
    /// three dies, the sheet editor showing the sheet, and nothing simulated yet.
    fn default() -> (r: Self)
        ensures
            r.current_job.name@ == "DefaultJob-001"@,
            r.current_job.sheet.original_length_um == 300_000,
            r.current_job.sheet.thickness_um == 2_000,
            r.current_job.sheet.width_um == 100_000,
            r.current_job.sheet.material_name == MaterialName::Steel,
            r.current_job.steps@.len() == 0,
            is_default_catalog(r.available_materials@),
            r.material_display_order@ == default_material_names(),
            catalog_covers_display(r),
            r.available_punches@.len() == 3,
            r.available_dies@.len() == 3,
            sheet_input_shows(r.sheet_input, r.current_job, r.material_display_order@),
            r.bend_input.position_mm_str@.len() == 0,
            r.bend_input.target_angle_deg_str@.len() == 0,
            r.bend_input.radius_mm_str@.len() == 0,
            r.bend_input.selected_direction_idx == 0,
            r.tooling_input.selected_punch_idx == 0,
            r.tooling_input.selected_die_idx == 0,
            r.simulation_status@ == "Ready"@,
            r.parts_bent_session == 0,
            r.simulated_profile is None,
            r.profile_load_status@ == "Profile not generated."@,
            r.status_message.0@ == "System Initialized."@,
            r.status_message.1 is None,
            r.app_logo is None,
    {
        let mut materials: Vec<MaterialDetails> = Vec::new();
        materials.push(material(MaterialName::Steel, 7850, 250, 200, 1500));
        materials.push(material(MaterialName::Aluminum, 2700, 100, 70, 1000));
        materials.push(material(MaterialName::StainlessSteel, 8000, 215, 193, 2000));
        materials.push(material(MaterialName::Copper, 8960, 70, 117, 800));
        materials.push(material(MaterialName::MildSteel, 7850, 220, 200, 1200));
        let mut punches: Vec<Punch> = Vec::new();
        punches.push(Punch { name: String::from_str("P88.10.R06"), height_um: 60_000, angle_mdeg: 88_000, radius_um: 600 });
        punches.push(Punch { name: String::from_str("P30.15.R1"), height_um: 65_000, angle_mdeg: 30_000, radius_um: 1_000 });
        punches.push(Punch { name: String::from_str("Default Punch"), height_um: 50_000, angle_mdeg: 90_000, radius_um: 1_000 });
        let mut dies: Vec<Die> = Vec::new();
        dies.push(Die { name: String::from_str("D12.90.R2"), v_opening_um: 12_000, angle_mdeg: 90_000, shoulder_radius_um: 2_000 });
        dies.push(Die { name: String::from_str("D20.60.R3"), v_opening_um: 20_000, angle_mdeg: 60_000, shoulder_radius_um: 3_000 });
        dies.push(Die { name: String::from_str("Default Die"), v_opening_um: 16_000, angle_mdeg: 90_000, shoulder_radius_um: 2_000 });
        let mut state = AppState {
            current_job: Job::default(),
            available_materials: materials,
            material_display_order: MaterialName::default_names(),
            available_punches: punches,
            available_dies: dies,
            sheet_input: SheetInputState {
                length_mm_str: String::new(),
                thickness_mm_str: String::new(),
                width_mm_str: String::new(),
                selected_material_idx: 0,
            },
            bend_input: BendInputState {
                position_mm_str: String::new(),
                target_angle_deg_str: String::new(),
                radius_mm_str: String::new(),
                selected_direction_idx: 0,
            },
            tooling_input: ToolingInputState { selected_punch_idx: 0, selected_die_idx: 0 },
            simulation_status: String::from_str("Ready"),
            parts_bent_session: 0,
            simulated_profile: None,
            profile_load_status: String::from_str("Profile not generated."),
            status_message: (String::from_str("System Initialized."), None),
            app_logo: None,
        };
        show_sheet_in_editor(&mut state);
        proof {
            let c = state.available_materials@;
            let o = state.material_display_order@;
            assert forall|i: int| 0 <= i < o.len() implies (#[trigger] catalog_index(c, o[i]@)).is_some() by {
                assert(is_first_entry(c, o[i]@, i));
            }
        }
        state
    }
}

} // verus!
