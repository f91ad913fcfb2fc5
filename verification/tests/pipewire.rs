use wayclip_daemon::error::WayclipError;
use wayclip_daemon::pipewire::{name_member, PipewireManager, PipewireNodeType};

fn manager() -> PipewireManager {
    let mut m = PipewireManager::new();
    assert!(m.on_node(30, Some("Audio/Source"), Some("mic"), Some("Microphone")));
    assert!(m.on_node(31, Some("Audio/Sink"), Some("speakers"), None));
    m
}

#[test]
fn classes_of_nodes() {
    assert_eq!(PipewireNodeType::from("Audio/Source"), PipewireNodeType::Source);
    assert_eq!(PipewireNodeType::from("Audio/Sink"), PipewireNodeType::Sink);
    assert_eq!(PipewireNodeType::from("Audio/Duplex"), PipewireNodeType::Unknown);
}

#[test]
fn audio_devices_are_taken_in() {
    let m = manager();
    assert_eq!(m.current_state().devices.len(), 2);
    assert_eq!(m.current_state().devices[0].node_description, "Microphone");
    assert_eq!(m.current_state().devices[1].node_description, "speakers");
    assert_eq!(m.current_state().devices[1].node_type, PipewireNodeType::Sink);
    assert_eq!(m.get_node_id_from_node_name("speakers"), Some(31));
    assert_eq!(m.get_node_id_from_node_name("other"), None);
    assert!(m.is_node_name_valid("mic"));
    assert!(!m.is_node_name_valid(""));
}

#[test]
fn other_nodes_are_left_out() {
    let mut m = manager();
    assert!(!m.on_node(32, Some("Video/Source"), Some("cam"), None));
    assert!(!m.on_node(33, Some("Audio/Stream"), Some("player"), None));
    assert!(!m.on_node(34, Some("Audio/Sink"), None, None));
    assert!(!m.on_node(35, None, Some("x"), None));
    assert_eq!(m.current_state().devices.len(), 2);
}

#[test]
fn known_node_is_announced_but_not_doubled() {
    let mut m = manager();
    assert!(m.on_node(30, Some("Audio/Sink"), Some("again"), None));
    assert_eq!(m.current_state().devices.len(), 2);
    assert_eq!(m.current_state().devices[0].node_name, "mic");
}

#[test]
fn removing_undoes_adding() {
    let mut m = manager();
    assert!(m.on_node(40, Some("Audio/Sink"), Some("headset"), None));
    assert!(m.on_remove(40));
    let names: Vec<&str> =
        m.current_state().devices.iter().map(|d| d.node_name.as_str()).collect();
    assert_eq!(names, vec!["mic", "speakers"]);
    assert!(!m.on_remove(40));
    assert!(m.on_remove(30));
    assert_eq!(m.get_node_id_from_node_name("mic"), None);
    assert_eq!(m.get_node_id_from_node_name("speakers"), Some(31));
}

#[test]
fn first_of_two_devices_of_one_name() {
    let mut m = manager();
    assert!(m.on_node(50, Some("Audio/Sink"), Some("speakers"), None));
    assert_eq!(m.get_node_id_from_node_name("speakers"), Some(31));
}

#[test]
fn defaults_come_from_metadata() {
    let mut m = manager();
    assert!(m.on_metadata_property(Some("default.audio.sink"), Some("{\"name\":\"speakers\"}")));
    assert!(m.on_metadata_property(Some("default.audio.source"), Some("{ \"name\" : \"mic\" }")));
    assert_eq!(m.get_default_sink_name().as_deref(), Some("speakers"));
    assert_eq!(m.get_default_source_name().as_deref(), Some("mic"));
    assert!(!m.on_metadata_property(Some("default.video.source"), Some("{\"name\":\"x\"}")));
    assert!(!m.on_metadata_property(None, Some("{\"name\":\"x\"}")));
    assert_eq!(m.get_default_sink_name().as_deref(), Some("speakers"));
}

#[test]
fn unreadable_metadata_unsets_the_default() {
    for value in [None, Some("not json"), Some("[1]"), Some("{\"name\":7}"), Some("{\"n\":\"a\"}")] {
        let mut m = manager();
        assert!(m.set_default(Some("default.audio.sink"), Some("speakers".to_string())));
        assert!(m.on_metadata_property(Some("default.audio.sink"), value));
        assert_eq!(m.get_default_sink_name(), None);
    }
}

#[test]
fn member_of_an_object() {
    let members = Some(vec![
        ("id".to_string(), None),
        ("name".to_string(), Some("a".to_string())),
        ("name".to_string(), Some("b".to_string())),
    ]);
    assert_eq!(name_member(&members).as_deref(), Some("a"));
    assert_eq!(name_member(&Some(vec![("name".to_string(), None)])), None);
    assert_eq!(name_member(&None), None);
}

#[test]
fn metadata_of_defaults() {
    assert!(PipewireManager::is_default_metadata(Some("default")));
    assert!(!PipewireManager::is_default_metadata(Some("settings")));
    assert!(!PipewireManager::is_default_metadata(None));
}

#[test]
fn connecting_is_given_up_after_ten_tries() {
    let mut attempts = 0;
    for n in 1..=10 {
        attempts = PipewireManager::after_failed_connect(attempts, "refused").unwrap();
        assert_eq!(attempts, n);
    }
    match PipewireManager::after_failed_connect(attempts, "refused") {
        Err(WayclipError::Pipewire(m)) => {
            assert_eq!(m, "Failed to connect to PipeWire after 10 attempts: refused")
        }
        _ => panic!("an error was expected"),
    }
}
