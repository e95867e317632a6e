use std::io::Cursor;
use vouwbank::db::{load_job_from_file, path_last_segment, save_job_to_file, text_contains, JobStorageError};
use vouwbank::imaging::{load_image_bytes, DecodedImage, ImageLogicError};
use vouwbank::logic::{
    add_bend_step, begin_simulation, finish_simulation, handle_load_job, handle_save_job,
    perform_initial_setup,
};
use vouwbank::state::{AppState, MaterialName, StatusColor};

fn png_bytes(w: u32, h: u32) -> Vec<u8> {
    let img = image::RgbaImage::from_pixel(w, h, image::Rgba([10, 20, 30, 255]));
    let mut out = Cursor::new(Vec::new());
    image::DynamicImage::ImageRgba8(img).write_to(&mut out, image::ImageOutputFormat::Png).unwrap();
    out.into_inner()
}

fn with_step() -> AppState {
    let mut s = AppState::default();
    s.bend_input.position_mm_str = "50".to_string();
    s.bend_input.target_angle_deg_str = "90".to_string();
    s.bend_input.radius_mm_str = "2".to_string();
    add_bend_step(&mut s).unwrap();
    s
}

#[test]
fn decoding_gives_size_and_pixels() {
    let img = load_image_bytes(Ok(png_bytes(3, 2))).unwrap();
    assert_eq!((img.width, img.height), (3, 2));
    assert_eq!(img.rgba.len(), 24);
    assert_eq!(&img.rgba[0..4], &[10, 20, 30, 255]);
}

#[test]
fn decoding_garbage_or_a_read_failure_is_an_error() {
    assert!(matches!(load_image_bytes(Ok(vec![1, 2, 3, 4])), Err(ImageLogicError::ImageError(_))));
    let e = load_image_bytes(Err(std::io::Error::new(std::io::ErrorKind::NotFound, "gone"))).unwrap_err();
    assert!(matches!(e, ImageLogicError::IoError(_)));
    assert!(e.message().starts_with("Failed to load image from path: "));
}

#[test]
fn simulation_without_steps_is_refused() {
    let mut s = AppState::default();
    assert!(!begin_simulation(&mut s));
    assert_eq!(s.simulation_status, "Ready");
    assert_eq!(s.parts_bent_session, 0);
    assert_eq!(s.status_message.1, Some(StatusColor::Yellow));
}

#[test]
fn simulation_completes_and_counts_with_a_picture() {
    let mut s = with_step();
    assert!(begin_simulation(&mut s));
    assert_eq!(s.simulation_status, "Simulating 1 bend steps for job 'DefaultJob-001'...");
    assert_eq!(s.profile_load_status, "Generating profile (using placeholder: assets/drawing.png)...");
    finish_simulation(&mut s, load_image_bytes(Ok(png_bytes(4, 4))));
    assert_eq!(s.simulation_status, "Simulation complete.");
    assert_eq!(s.parts_bent_session, 1);
    assert_eq!(s.simulated_profile.as_ref().map(|p| (p.width, p.height)), Some((4, 4)));
}

#[test]
fn simulation_completes_and_counts_without_a_picture() {
    let mut s = with_step();
    assert!(begin_simulation(&mut s));
    finish_simulation(&mut s, load_image_bytes(Ok(vec![0u8; 8])));
    assert_eq!(s.simulation_status, "Simulation complete.");
    assert_eq!(s.parts_bent_session, 1);
    assert!(s.simulated_profile.is_none());
    assert!(s.profile_load_status.starts_with("Failed to load profile image: Failed to decode image: "));
    assert!(begin_simulation(&mut s));
    finish_simulation(&mut s, Ok(DecodedImage { width: 1, height: 1, rgba: vec![0, 0, 0, 0] }));
    assert_eq!(s.parts_bent_session, 2);
}

#[test]
fn initial_setup_fills_editors_and_reports_logo_failure() {
    let mut s = AppState::default();
    s.current_job.sheet.original_length_um = 1_250;
    let logo = load_image_bytes(Err(std::io::Error::new(std::io::ErrorKind::NotFound, "gone")));
    perform_initial_setup(&mut s, logo);
    assert!(s.app_logo.is_none());
    assert_eq!(s.status_message.1, Some(StatusColor::Red));
    assert!(s.status_message.0.starts_with("Failed to load app logo: "));
    assert_eq!(s.sheet_input.length_mm_str, "1.25");
    assert_eq!(s.bend_input.position_mm_str, "50.0");
    assert_eq!(s.bend_input.target_angle_deg_str, "90.0");
    assert_eq!(s.bend_input.radius_mm_str, "2.0");
    let mut s = AppState::default();
    perform_initial_setup(&mut s, load_image_bytes(Ok(png_bytes(2, 2))));
    assert_eq!(s.app_logo.as_ref().map(|l| l.width), Some(2));
    assert_eq!(s.status_message.0, "System Initialized.");
}

#[test]
fn path_helpers() {
    assert!(text_contains("jobs/nonexistent.json", "nonexistent"));
    assert!(!text_contains("jobs/a.json", "nonexistent"));
    assert!(text_contains("abc", ""));
    assert_eq!(path_last_segment("jobs/sample_job.json"), "sample_job.json");
    assert_eq!(path_last_segment("plain"), "plain");
    assert_eq!(path_last_segment("dir/"), "");
}

#[test]
fn load_gives_named_job_or_not_found() {
    let job = load_job_from_file("jobs/sample_job.json").unwrap();
    assert_eq!(job.name, "LoadedJob_sample_job.json");
    assert_eq!(job.steps.len(), 1);
    assert_eq!(job.steps[0].position_um, 50_000);
    match load_job_from_file("jobs/nonexistent.json") {
        Err(JobStorageError::NotFound(p)) => assert_eq!(p, "jobs/nonexistent.json"),
        other => panic!("unexpected {:?}", other),
    }
}

#[test]
fn save_fails_only_on_request() {
    let mut job = load_job_from_file("a/b.json").unwrap();
    assert!(save_job_to_file(&job, "out.json").is_ok());
    job.name = "x_fail_save_y".to_string();
    assert!(matches!(save_job_to_file(&job, "out.json"), Err(JobStorageError::IoError(_))));
}

#[test]
fn load_save_load_keeps_sheet_and_steps() {
    let first = load_job_from_file("jobs/sample_job.json").unwrap();
    assert!(save_job_to_file(&first, "fresh/copy.json").is_ok());
    let second = load_job_from_file("fresh/copy.json").unwrap();
    assert_eq!(second.sheet.original_length_um, first.sheet.original_length_um);
    assert_eq!(second.sheet.thickness_um, first.sheet.thickness_um);
    assert_eq!(second.sheet.width_um, first.sheet.width_um);
    assert_eq!(second.sheet.material_name, first.sheet.material_name);
    assert_eq!(second.steps, first.steps);
}

#[test]
fn handle_load_replaces_job_and_resets_editors() {
    let mut s = with_step();
    s.simulated_profile = Some(DecodedImage { width: 1, height: 1, rgba: vec![0; 4] });
    assert!(handle_load_job(&mut s, None).is_none());
    assert_eq!(s.current_job.name, "DefaultJob-001");
    assert!(matches!(handle_load_job(&mut s, Some("jobs/nonexistent.json".to_string())), Some(Err(_))));
    assert!(s.simulated_profile.is_some());
    assert!(matches!(handle_load_job(&mut s, Some("jobs/sample_job.json".to_string())), Some(Ok(()))));
    assert_eq!(s.current_job.name, "LoadedJob_sample_job.json");
    assert!(s.simulated_profile.is_none());
    assert_eq!(s.bend_input.position_mm_str, "");
    assert_eq!(s.sheet_input.length_mm_str, "300");
    assert_eq!(s.current_job.sheet.material_name, MaterialName::Steel);
    assert_eq!(s.profile_load_status, "New job loaded, profile outdated.");
}

#[test]
fn handle_save_reports_outcome() {
    let mut s = AppState::default();
    assert!(handle_save_job(&s, None).is_none());
    assert!(matches!(handle_save_job(&s, Some("out.json".to_string())), Some(Ok(()))));
    s.current_job.name = "fail_save".to_string();
    assert!(matches!(handle_save_job(&s, Some("out.json".to_string())), Some(Err(_))));
}
