use std::path::PathBuf;

use manycore_visualiser::configuration::get_attributes;
use manycore_visualiser::diagram::{ClipPathInput, Diagram, Viewport};
use manycore_visualiser::error::{CommandError, ErrorKind};
use manycore_visualiser::export::{
    export_render, export_vector, export_xml, prepare_export, system_text, xml_chosen,
    xml_written, ExportJob, RenderMode,
};
use manycore_visualiser::notify::{Notification, Payload};
use manycore_visualiser::state::State;
use manycore_visualiser::system::ParsedSystem;

fn describe(diagram: &Diagram<u8>) -> Result<String, String> {
    Ok(format!(
        "{} {} {} {} {:?}",
        diagram.viewport.x,
        diagram.viewport.y,
        diagram.viewport.width,
        diagram.viewport.height,
        diagram.clip_path
    ))
}

fn refuse(_diagram: &Diagram<u8>) -> Result<String, String> {
    Err(String::from("boom"))
}

fn clip() -> ClipPathInput {
    ClipPathInput { clip_path: String::from("M0 0Z"), x: 10, y: 20, width: 30, height: 40 }
}

fn text_of(notification: &Notification) -> String {
    match &notification.payload {
        Payload::Text(text) => text.clone(),
        Payload::Signal => panic!("expected a text"),
    }
}

fn loaded_state() -> State<String, u8, Vec<u8>> {
    let state: State<String, u8, Vec<u8>> = State::new(vec![1, 2, 3]);
    state.replace_diagram(Some(Diagram::new(7u8, Viewport::new(0, 0, 100, 50)))).unwrap();
    state
}

#[test]
fn clipped_export_frames_the_region_and_restores_the_viewport() {
    let mut diagram = Diagram::new(7u8, Viewport::new(0, 0, 100, 50));
    let text = export_vector(&mut diagram, Some(clip()), describe).unwrap();
    assert_eq!(text, "10 20 30 40 Some(\"M0 0Z\")");
    assert_eq!(diagram.viewport, Viewport::new(0, 0, 100, 50));
    assert!(diagram.clip_path.is_none());
    let again = export_vector(&mut diagram, None, describe).unwrap();
    assert_eq!(again, "0 0 100 50 None");
}

#[test]
fn export_after_clip_equals_export_without_any_clip() {
    let mut touched = Diagram::new(7u8, Viewport::new(3, 4, 50, 60));
    let mut untouched = Diagram::new(7u8, Viewport::new(3, 4, 50, 60));
    let _ = export_vector(&mut touched, Some(clip()), describe);
    let _ = export_vector(&mut touched, Some(clip()), refuse);
    let after = export_vector(&mut touched, None, describe).unwrap();
    let reference = export_vector(&mut untouched, None, describe).unwrap();
    assert_eq!(after, reference);
}

#[test]
fn failed_clipped_export_restores_the_viewport() {
    let mut diagram = Diagram::new(7u8, Viewport::new(1, 2, 3, 4));
    let error = export_vector(&mut diagram, Some(clip()), refuse).unwrap_err();
    assert_eq!(error.kind, ErrorKind::SerializationError);
    assert_eq!(error.message, "boom");
    assert_eq!(diagram.viewport, Viewport::new(1, 2, 3, 4));
    assert!(diagram.clip_path.is_none());
}

#[test]
fn an_earlier_clip_outline_survives_a_clipped_export() {
    let mut diagram = Diagram::new(7u8, Viewport::new(1, 2, 3, 4));
    diagram.add_freeform_clip_path(String::from("old"));
    let text = export_vector(&mut diagram, Some(clip()), describe).unwrap();
    assert_eq!(text, "10 20 30 40 Some(\"M0 0Z\")");
    assert_eq!(diagram.clip_path, Some(String::from("old")));
    diagram.clear_freeform_clip_path();
    assert!(diagram.clip_path.is_none());
}

#[test]
fn viewport_swap_and_restore() {
    let mut viewport = Viewport::new(1, 2, 3, 4);
    let previous = viewport.swap(5, 6, 7, 8);
    assert_eq!(previous, Viewport::new(1, 2, 3, 4));
    assert_eq!(viewport, Viewport::new(5, 6, 7, 8));
    viewport.restore_from(&previous);
    assert_eq!(viewport, Viewport::new(1, 2, 3, 4));
}

#[test]
fn render_mode_formats() {
    assert_eq!(RenderMode::PNG.filter_name(), "Portable Network Graphics (PNG)");
    assert_eq!(RenderMode::PNG.extension(), "png");
    assert_eq!(RenderMode::PNG.success_message(), "Successfully exported PNG");
    assert_eq!(RenderMode::SVG.filter_name(), "Scalable Vector Graphics (SVG)");
    assert_eq!(RenderMode::SVG.extension(), "svg");
    assert_eq!(RenderMode::SVG.success_message(), "Successfully exported SVG");
}

#[test]
fn prepare_export_without_diagram() {
    let mut slot: Option<Diagram<u8>> = None;
    let error = prepare_export(&mut slot, &5u8, None, RenderMode::SVG, 0, describe).unwrap_err();
    assert_eq!(error.kind, ErrorKind::NotLoaded);
    assert_eq!(error.message, "You must load a system first.");
    assert!(slot.is_none());
}

#[test]
fn prepare_export_refuses_unusable_scale_for_raster_only() {
    let mut slot = Some(Diagram::new(7u8, Viewport::new(0, 0, 100, 50)));
    let error = prepare_export(&mut slot, &5u8, None, RenderMode::PNG, (-1.0f32).to_bits(), describe)
        .unwrap_err();
    assert_eq!(error.kind, ErrorKind::RasterError);
    assert_eq!(error.message, "Please provide a valid scale value. Could not compute image size.");
    let job = prepare_export(&mut slot, &5u8, None, RenderMode::SVG, (-1.0f32).to_bits(), describe)
        .unwrap();
    assert_eq!(job.svg_string, "0 0 100 50 None");
    assert_eq!(job.render_mode, RenderMode::SVG);
    assert_eq!(job.pixels, None);
    let slot_before = format!("{slot:?}");
    for bits in [0u32, f32::NAN.to_bits(), f32::INFINITY.to_bits(), (-0.0f32).to_bits()] {
        let error = prepare_export(&mut slot, &5u8, None, RenderMode::PNG, bits, refuse).unwrap_err();
        assert_eq!(error.kind, ErrorKind::RasterError);
    }
    assert_eq!(format!("{slot:?}"), slot_before);
}

#[test]
fn raster_export_is_sized_by_the_region_exported() {
    let mut slot = Some(Diagram::new(7u8, Viewport::new(0, 0, 100, 50)));
    let job = prepare_export(&mut slot, &5u8, None, RenderMode::PNG, 1.5f32.to_bits(), describe).unwrap();
    assert_eq!(job.pixels, Some((150, 75)));
    let job = prepare_export(&mut slot, &5u8, Some(clip()), RenderMode::PNG, 1.5f32.to_bits(), describe).unwrap();
    assert_eq!(job.pixels, Some((45, 60)));
    let job = prepare_export(&mut slot, &5u8, Some(clip()), RenderMode::PNG, 0.01f32.to_bits(), describe).unwrap();
    assert_eq!(job.pixels, Some((1, 1)));
    let job = prepare_export(&mut slot, &5u8, Some(clip()), RenderMode::SVG, 1.5f32.to_bits(), describe).unwrap();
    assert_eq!(job.pixels, None);
}

#[test]
fn raster_export_of_a_region_without_extent_is_refused() {
    let mut slot = Some(Diagram::new(7u8, Viewport::new(0, 0, 0, 50)));
    let error = prepare_export(&mut slot, &5u8, None, RenderMode::PNG, 1.0f32.to_bits(), describe).unwrap_err();
    assert_eq!(error.kind, ErrorKind::RasterError);
    let flat = ClipPathInput { clip_path: String::from("M0 0Z"), x: 0, y: 0, width: 10, height: -3 };
    let error = prepare_export(&mut slot, &5u8, Some(flat), RenderMode::PNG, 1.0f32.to_bits(), describe).unwrap_err();
    assert_eq!(error.kind, ErrorKind::RasterError);
    let wide = ClipPathInput { clip_path: String::from("M0 0Z"), x: 0, y: 0, width: 10, height: 3 };
    let job = prepare_export(&mut slot, &5u8, Some(wide), RenderMode::PNG, 1.0f32.to_bits(), describe).unwrap();
    assert_eq!(job.pixels, Some((10, 3)));
}

#[test]
fn prepare_export_copies_what_the_writer_needs() {
    let mut slot = Some(Diagram::new(7u8, Viewport::new(0, 0, 100, 50)));
    let font = vec![9u8, 8, 7];
    let job =
        prepare_export(&mut slot, &font, Some(clip()), RenderMode::PNG, 2.0f32.to_bits(), describe)
            .unwrap();
    assert_eq!(job.font_database, font);
    assert_eq!(job.svg_string, "10 20 30 40 Some(\"M0 0Z\")");
    assert_eq!(job.render_mode, RenderMode::PNG);
    assert_eq!(f32::from_bits(job.scale_bits), 2.0);
    assert_eq!(job.pixels, Some((60, 80)));
    assert_eq!(slot.unwrap().viewport, Viewport::new(0, 0, 100, 50));
}

#[test]
fn prepare_export_reports_a_failed_serializer() {
    let mut slot = Some(Diagram::new(7u8, Viewport::new(0, 0, 100, 50)));
    let error =
        prepare_export(&mut slot, &5u8, Some(clip()), RenderMode::SVG, 0, refuse).unwrap_err();
    assert_eq!(error.kind, ErrorKind::SerializationError);
    assert_eq!(error.message, "boom");
    let stored = slot.unwrap();
    assert_eq!(stored.viewport, Viewport::new(0, 0, 100, 50));
    assert!(stored.clip_path.is_none());
}

#[test]
fn export_render_through_the_store() {
    let state = loaded_state();
    let job = export_render(&state, Some(clip()), RenderMode::PNG, 1.5f32.to_bits(), describe)
        .unwrap();
    assert_eq!(job.svg_string, "10 20 30 40 Some(\"M0 0Z\")");
    assert_eq!(job.font_database, vec![1, 2, 3]);
    assert_eq!(job.pixels, Some((45, 60)));
    let stored = state.replace_diagram(None).unwrap().unwrap();
    assert_eq!(stored.viewport, Viewport::new(0, 0, 100, 50));
    assert!(stored.clip_path.is_none());
}

#[test]
fn export_render_without_diagram() {
    let state: State<String, u8, Vec<u8>> = State::new(Vec::new());
    let error = export_render(&state, None, RenderMode::SVG, 1.0f32.to_bits(), describe).unwrap_err();
    assert_eq!(error.kind, ErrorKind::NotLoaded);
    assert_eq!(error.message, "You must load a system first.");
}

#[test]
fn export_render_refuses_non_finite_scale() {
    let state = loaded_state();
    let error =
        export_render(&state, None, RenderMode::PNG, f32::NAN.to_bits(), describe).unwrap_err();
    assert_eq!(error.kind, ErrorKind::RasterError);
    let error = export_render(&state, None, RenderMode::PNG, 0, describe).unwrap_err();
    assert_eq!(error.kind, ErrorKind::RasterError);
}

#[test]
fn export_job_destination_and_report() {
    let job = ExportJob {
        font_database: 0u8,
        svg_string: String::from("<svg/>"),
        render_mode: RenderMode::PNG,
        scale_bits: 1.0f32.to_bits(),
        pixels: Some((3, 4)),
    };
    assert!(job.destination(None).is_none());
    assert_eq!(job.destination(Some(PathBuf::from("out/picture.txt"))), Some(PathBuf::from("out/picture.png")));
    assert_eq!(job.destination(Some(PathBuf::from("picture"))), Some(PathBuf::from("picture.png")));

    let done = job.report(Some(Ok(())));
    assert_eq!(done.event, "ok_message");
    assert_eq!(text_of(&done), "Successfully exported PNG");
    let failed = job.report(Some(Err(String::from("disk full"))));
    assert_eq!(failed.event, "error_message");
    assert_eq!(text_of(&failed), "disk full");
    let lost = job.report(None);
    assert_eq!(lost.event, "error_message");
    assert_eq!(text_of(&lost), "Something went wrong, please try again.");

    let vector = ExportJob { font_database: 0u8, svg_string: String::new(), render_mode: RenderMode::SVG, scale_bits: 0, pixels: None };
    assert_eq!(vector.destination(Some(PathBuf::from("a.png"))), Some(PathBuf::from("a.svg")));
    assert_eq!(text_of(&vector.report(Some(Ok(())))), "Successfully exported SVG");
}

#[test]
fn system_text_needs_a_system() {
    let none: Option<ParsedSystem<String>> = None;
    let refusal = system_text(&none, |model: &String| Ok(model.clone())).unwrap_err();
    assert_eq!(refusal.event, "error_message");
    assert_eq!(text_of(&refusal), "You must load a system first.");

    let some = Some(ParsedSystem::new(String::from("<system/>"), Vec::new()));
    let text = system_text(&some, |model: &String| Ok(format!("    {model}"))).unwrap().unwrap();
    assert_eq!(text, "    <system/>");
    let error = system_text(&some, |_model: &String| Err(String::from("bad"))).unwrap().unwrap_err();
    assert_eq!(error.kind, ErrorKind::SerializationError);
    assert_eq!(error.message, "bad");
}

#[test]
fn export_xml_through_the_store() {
    let state: State<String, u8, Vec<u8>> = State::new(Vec::new());
    let refusal = export_xml(&state, |model: &String| Ok(model.clone())).unwrap_err();
    assert_eq!(text_of(&refusal), "You must load a system first.");

    state.replace_system(Some(ParsedSystem::new(String::from("<system/>"), Vec::new()))).unwrap();
    let text = export_xml(&state, |model: &String| Ok(model.clone())).unwrap().unwrap();
    assert_eq!(text, "<system/>");

    let during = std::cell::RefCell::new(Vec::new());
    get_attributes(&state, |_model: &String| {
        let busy = export_xml(&state, |model: &String| Ok(model.clone())).unwrap_err();
        during.borrow_mut().push((busy.event, text_of(&busy)));
    });
    assert_eq!(
        *during.borrow(),
        vec![("error_message", String::from("Something went wrong, please try again."))]
    );
}

#[test]
fn xml_steps_after_the_dialog() {
    assert!(xml_chosen(Ok(String::from("x")), None).is_none());
    let request = xml_chosen(Ok(String::from("<system/>")), Some(PathBuf::from("dir/system.txt")))
        .unwrap()
        .unwrap();
    assert_eq!(request.path, PathBuf::from("dir/system.xml"));
    assert_eq!(request.contents, "<system/>");
    let failure = xml_chosen(
        Err(CommandError::new(ErrorKind::SerializationError, String::from("bad"))),
        Some(PathBuf::from("system.xml")),
    )
    .unwrap()
    .unwrap_err();
    assert_eq!(failure.event, "error_message");
    assert_eq!(text_of(&failure), "Something went wrong, please try again.");

    let written = xml_written(Ok(()));
    assert_eq!(written.event, "ok_message");
    assert_eq!(text_of(&written), "Successfully exported XML.");
    let failed = xml_written(Err(String::from("denied")));
    assert_eq!(failed.event, "error_message");
    assert_eq!(text_of(&failed), "Could not write XML to disk: denied");
}
