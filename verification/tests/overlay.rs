use dev_console::diagnostics::{
    DiagnosticsState, DiagnosticsUi, MemoryReading, MetricsSnapshot, entities_text, fps_text,
    memory_text,
};

fn snapshot(
    fps_tenths: Option<u64>,
    entity_count: Option<u64>,
    memory: MemoryReading,
) -> MetricsSnapshot {
    MetricsSnapshot { fps_tenths, entity_count, memory }
}

#[test]
fn overlay_starts_disabled_with_no_tree() {
    let ui = DiagnosticsUi::new();
    assert_eq!(ui.state, DiagnosticsState::Disabled);
    assert!(ui.tree.is_none());
    assert_eq!(DiagnosticsState::default(), DiagnosticsState::Disabled);
}

#[test]
fn toggle_spawns_and_tears_down_the_tree() {
    let mut ui = DiagnosticsUi::new();
    ui.toggle(true);
    assert_eq!(ui.state, DiagnosticsState::Enabled);
    let tree = ui.tree.as_ref().unwrap();
    assert_eq!(tree.fps.text, "FPS: --");
    assert_eq!(tree.entities.text, "Entities: --");
    assert_eq!(tree.memory.text, "Memory: --");
    assert_eq!(tree.render.text, "Render: --");
    ui.toggle(true);
    assert_eq!(ui.state, DiagnosticsState::Disabled);
    assert!(ui.tree.is_none());
}

#[test]
fn toggle_without_an_edge_press_changes_nothing() {
    let mut ui = DiagnosticsUi::new();
    ui.toggle(false);
    assert_eq!(ui.state, DiagnosticsState::Disabled);
    assert!(ui.tree.is_none());
}

#[test]
fn toggling_twice_is_as_if_never_toggled() {
    let mut ui = DiagnosticsUi::new();
    ui.toggle(true);
    ui.toggle(true);
    assert_eq!(ui.state, DiagnosticsState::Disabled);
    assert!(ui.tree.is_none());
    let fresh = DiagnosticsUi::new();
    assert_eq!(ui.state, fresh.state);
    assert!(ui.tree.is_none() && fresh.tree.is_none());
}

#[test]
fn update_renders_present_samples() {
    let mut ui = DiagnosticsUi::new();
    ui.toggle(true);
    ui.update_driver(&snapshot(Some(625), Some(42), MemoryReading::Bytes(1610612736)));
    let tree = ui.tree.as_ref().unwrap();
    assert_eq!(tree.fps.text, "FPS: 62.5");
    assert_eq!(tree.entities.text, "Entities: 42");
    assert_eq!(tree.memory.text, "Total Memory: 1.5 GB");
    assert_eq!(tree.render.text, "Render: --");
}

#[test]
fn update_keeps_prior_text_when_a_sample_is_missing() {
    let mut ui = DiagnosticsUi::new();
    ui.toggle(true);
    ui.update_driver(&snapshot(Some(300), Some(7), MemoryReading::NoSample));
    ui.update_driver(&snapshot(None, None, MemoryReading::NoSample));
    let tree = ui.tree.as_ref().unwrap();
    assert_eq!(tree.fps.text, "FPS: 30.0");
    assert_eq!(tree.entities.text, "Entities: 7");
    assert_eq!(tree.memory.text, "Memory: --");
}

#[test]
fn memory_unsupported_renders_a_fixed_sentinel() {
    let mut ui = DiagnosticsUi::new();
    ui.toggle(true);
    ui.update_driver(&snapshot(None, None, MemoryReading::Unsupported));
    assert_eq!(ui.tree.as_ref().unwrap().memory.text, "Memory: N/A");
    ui.update_driver(&snapshot(None, None, MemoryReading::NoSample));
    assert_eq!(ui.tree.as_ref().unwrap().memory.text, "Memory: N/A");
}

#[test]
fn update_while_disabled_skips_silently() {
    let mut ui = DiagnosticsUi::new();
    ui.update_driver(&snapshot(Some(600), Some(1), MemoryReading::Bytes(1)));
    assert_eq!(ui.state, DiagnosticsState::Disabled);
    assert!(ui.tree.is_none());
}

#[test]
fn metric_labels_format_fixed_point_values() {
    assert_eq!(fps_text(625), "FPS: 62.5");
    assert_eq!(fps_text(9), "FPS: 0.9");
    assert_eq!(fps_text(600), "FPS: 60.0");
    assert_eq!(entities_text(0), "Entities: 0");
    assert_eq!(entities_text(1234), "Entities: 1234");
    assert_eq!(memory_text(1073741824), "Total Memory: 1.0 GB");
    assert_eq!(memory_text(1610612736), "Total Memory: 1.5 GB");
    assert_eq!(memory_text(0), "Total Memory: 0.0 GB");
}
