use vouwbank::logic::{
    add_bend_step, clear_all_bend_steps, get_recommended_min_bend_radius, lookup_material,
    update_sheet_properties, ClearOutcome,
};
use vouwbank::state::{AppState, BendDirection, BendStep, MaterialName, StatusColor};
use vouwbank::validation::{Field, ValidationError};

fn fresh() -> AppState {
    AppState::default()
}

fn set_bend(s: &mut AppState, pos: &str, angle: &str, radius: &str, dir: usize) {
    s.bend_input.position_mm_str = pos.to_string();
    s.bend_input.target_angle_deg_str = angle.to_string();
    s.bend_input.radius_mm_str = radius.to_string();
    s.bend_input.selected_direction_idx = dir;
}

fn set_sheet(s: &mut AppState, l: &str, t: &str, w: &str, m: usize) {
    s.sheet_input.length_mm_str = l.to_string();
    s.sheet_input.thickness_mm_str = t.to_string();
    s.sheet_input.width_mm_str = w.to_string();
    s.sheet_input.selected_material_idx = m;
}

#[test]
fn default_state_shows_the_default_sheet() {
    let s = fresh();
    assert_eq!(s.sheet_input.length_mm_str, "300");
    assert_eq!(s.sheet_input.thickness_mm_str, "2");
    assert_eq!(s.sheet_input.width_mm_str, "100");
    assert_eq!(s.sheet_input.selected_material_idx, 0);
    assert_eq!(s.simulation_status, "Ready");
    assert_eq!(s.parts_bent_session, 0);
    assert_eq!(s.available_materials.len(), 5);
    assert_eq!(s.material_display_order, MaterialName::default_names());
}

#[test]
fn names_and_directions_have_texts() {
    let texts: Vec<String> = MaterialName::default_names().iter().map(|n| n.to_string()).collect();
    assert_eq!(texts, vec!["Steel", "Aluminum", "Stainless Steel", "Copper", "Mild Steel"]);
    assert_eq!(MaterialName::Custom("Brass".to_string()).to_string(), "Brass");
    assert_eq!(MaterialName::Custom("Brass".to_string()), MaterialName::Custom("Brass".to_string()));
    assert_ne!(MaterialName::Custom("Steel".to_string()), MaterialName::Steel);
    assert_eq!(BendDirection::default_directions(), vec![BendDirection::Up, BendDirection::Down]);
    assert_eq!(BendDirection::Down.to_string(), "Down");
    assert_eq!(BendDirection::Up.to_string(), "Up");
}

#[test]
fn valid_sheet_update_replaces_sheet_and_drops_steps() {
    let mut s = fresh();
    set_bend(&mut s, "50", "90", "2", 0);
    add_bend_step(&mut s).unwrap();
    set_sheet(&mut s, "450.5", "3", "120", 1);
    assert!(update_sheet_properties(&mut s).is_ok());
    assert_eq!(s.current_job.sheet.original_length_um, 450_500);
    assert_eq!(s.current_job.sheet.thickness_um, 3_000);
    assert_eq!(s.current_job.sheet.width_um, 120_000);
    assert_eq!(s.current_job.sheet.material_name, MaterialName::Aluminum);
    assert!(s.current_job.steps.is_empty());
    assert!(s.simulated_profile.is_none());
    assert_eq!(s.status_message.1, Some(StatusColor::Green));
    // again, on an already empty sequence
    assert!(update_sheet_properties(&mut s).is_ok());
    assert!(s.current_job.steps.is_empty());
    assert_eq!(s.current_job.sheet.original_length_um, 450_500);
}

#[test]
fn sheet_bounds_are_inclusive() {
    let mut s = fresh();
    set_sheet(&mut s, "0.1", "10000", "10000.0", 0);
    assert!(update_sheet_properties(&mut s).is_ok());
    assert_eq!(s.current_job.sheet.original_length_um, 100);
    assert_eq!(s.current_job.sheet.thickness_um, 10_000_000);
}

#[test]
fn out_of_range_material_index_falls_back_to_first() {
    let mut s = fresh();
    set_sheet(&mut s, "300", "2", "100", 99);
    assert!(update_sheet_properties(&mut s).is_ok());
    assert_eq!(s.current_job.sheet.material_name, MaterialName::Steel);
}

#[test]
fn invalid_sheet_update_changes_nothing() {
    let mut s = fresh();
    set_bend(&mut s, "50", "90", "2", 0);
    add_bend_step(&mut s).unwrap();
    let before = s.current_job.clone();
    set_sheet(&mut s, "20000", "abc", "0", 2);
    match update_sheet_properties(&mut s) {
        Err(ValidationError::OutOfRange { field, value, .. }) => {
            assert_eq!(field, Field::Length);
            assert_eq!(value, 20_000_000);
        }
        other => panic!("unexpected {:?}", other),
    }
    assert_eq!(s.current_job.sheet.original_length_um, before.sheet.original_length_um);
    assert_eq!(s.current_job.steps, before.steps);
    assert_eq!(s.status_message.1, Some(StatusColor::Red));
    set_sheet(&mut s, "200", "abc", "0", 2);
    match update_sheet_properties(&mut s) {
        Err(ValidationError::InvalidNumber { field, raw_text }) => {
            assert_eq!(field, Field::Thickness);
            assert_eq!(raw_text, "abc");
        }
        other => panic!("unexpected {:?}", other),
    }
    set_sheet(&mut s, "200", "2", "0.09", 2);
    match update_sheet_properties(&mut s) {
        Err(ValidationError::OutOfRange { field, .. }) => assert_eq!(field, Field::Width),
        other => panic!("unexpected {:?}", other),
    }
    assert_eq!(s.current_job.sheet.original_length_um, 300_000);
    assert_eq!(s.current_job.sheet.material_name, MaterialName::Steel);
    assert_eq!(s.current_job.steps.len(), 1);
}

#[test]
fn add_bend_on_300mm_sheet_appends_step() {
    let mut s = fresh();
    set_bend(&mut s, "50", "90", "2", 0);
    assert!(add_bend_step(&mut s).is_ok());
    assert_eq!(
        s.current_job.steps[0],
        BendStep { sequence_order: 1, position_um: 50_000, target_angle_mdeg: 90_000, radius_um: 2_000, direction: BendDirection::Up }
    );
    set_bend(&mut s, "150", "45.5", "3", 1);
    assert!(add_bend_step(&mut s).is_ok());
    assert_eq!(s.current_job.steps.len(), 2);
    assert_eq!(s.current_job.steps[1].sequence_order, 2);
    assert_eq!(s.current_job.steps[1].direction, BendDirection::Down);
    assert_eq!(s.current_job.steps[0].position_um, 50_000);
    assert!(s.simulated_profile.is_none());
}

#[test]
fn bend_position_must_lie_strictly_inside_sheet() {
    let mut s = fresh();
    set_bend(&mut s, "300", "90", "2", 0);
    match add_bend_step(&mut s) {
        Err(ValidationError::OutOfRange { field, value, min, max }) => {
            assert_eq!(field, Field::Position);
            assert_eq!((value, min, max), (300_000, 0, 300_000));
        }
        other => panic!("unexpected {:?}", other),
    }
    set_bend(&mut s, "0", "90", "2", 0);
    assert!(add_bend_step(&mut s).is_err());
    assert!(s.current_job.steps.is_empty());
}

#[test]
fn bend_angle_and_radius_bounds() {
    let mut s = fresh();
    set_bend(&mut s, "10", "0.5", "2", 0);
    match add_bend_step(&mut s) {
        Err(ValidationError::OutOfRange { field, .. }) => assert_eq!(field, Field::Angle),
        other => panic!("unexpected {:?}", other),
    }
    set_bend(&mut s, "10", "179", "500.001", 0);
    match add_bend_step(&mut s) {
        Err(ValidationError::OutOfRange { field, .. }) => assert_eq!(field, Field::Radius),
        other => panic!("unexpected {:?}", other),
    }
    set_bend(&mut s, "10", "1", "500", 0);
    assert!(add_bend_step(&mut s).is_ok());
    set_bend(&mut s, "10", "9o", "5", 0);
    match add_bend_step(&mut s) {
        Err(ValidationError::InvalidNumber { field, .. }) => assert_eq!(field, Field::Angle),
        other => panic!("unexpected {:?}", other),
    }
}

#[test]
fn recommended_radius_follows_material() {
    let mut s = fresh();
    // steel, 2 mm thick, factor 1.5: 3 mm, in nanometres
    assert_eq!(get_recommended_min_bend_radius(&s), Some(3_000_000));
    s.current_job.sheet.material_name = MaterialName::Copper;
    assert_eq!(get_recommended_min_bend_radius(&s), Some(1_600_000));
    s.current_job.sheet.material_name = MaterialName::Custom("Brass".to_string());
    assert_eq!(get_recommended_min_bend_radius(&s), None);
    s.current_job.sheet.material_name = MaterialName::Steel;
    s.available_materials[0].min_bend_radius_factor_milli = 0;
    assert_eq!(get_recommended_min_bend_radius(&s), Some(1_000_000));
    s.current_job.sheet.thickness_um = 0;
    assert_eq!(get_recommended_min_bend_radius(&s), Some(0));
    assert_eq!(lookup_material(&s.available_materials, &MaterialName::MildSteel), Some(4));
}

#[test]
fn small_radius_warns_and_zero_radius_does_not() {
    let mut s = fresh();
    set_bend(&mut s, "50", "90", "1", 0);
    assert!(add_bend_step(&mut s).is_ok());
    assert_eq!(s.status_message.1, Some(StatusColor::Yellow));
    assert_eq!(s.current_job.steps.len(), 1);
    set_bend(&mut s, "60", "90", "0", 0);
    assert!(add_bend_step(&mut s).is_ok());
    assert_eq!(s.status_message.1, Some(StatusColor::Green));
    assert_eq!(s.status_message.0, "Bend step added.");
    set_bend(&mut s, "70", "90", "3", 0);
    assert!(add_bend_step(&mut s).is_ok());
    assert_eq!(s.status_message.1, Some(StatusColor::Green));
    assert_eq!(s.current_job.steps.len(), 3);
}

#[test]
fn clearing_twice_reports_nothing_the_second_time() {
    let mut s = fresh();
    set_bend(&mut s, "50", "90", "2", 0);
    add_bend_step(&mut s).unwrap();
    assert_eq!(clear_all_bend_steps(&mut s), ClearOutcome::Cleared);
    assert!(s.current_job.steps.is_empty());
    assert_eq!(clear_all_bend_steps(&mut s), ClearOutcome::NothingToClear);
    assert!(s.current_job.steps.is_empty());
    assert_eq!(s.status_message.1, None);
}

#[test]
fn shown_sheet_applies_unchanged() {
    let mut s = fresh();
    s.current_job.sheet.original_length_um = 1_234_567;
    s.current_job.sheet.thickness_um = 100;
    s.current_job.sheet.width_um = 10_000_000;
    vouwbank::logic::perform_initial_setup(
        &mut s,
        Ok(vouwbank::imaging::DecodedImage { width: 1, height: 1, rgba: vec![0; 4] }),
    );
    assert_eq!(s.sheet_input.length_mm_str, "1234.567");
    assert!(update_sheet_properties(&mut s).is_ok());
    assert_eq!(s.current_job.sheet.original_length_um, 1_234_567);
    assert_eq!(s.current_job.sheet.thickness_um, 100);
    assert_eq!(s.current_job.sheet.width_um, 10_000_000);
}
