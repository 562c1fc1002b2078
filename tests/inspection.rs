use drm_sense::inspect::{Action, Event, InspectError, Inspector, Phase};
use drm_sense::model::{first_connected, preferred_mode, ConnectionState, Connector, DisplayMode, DriverVersion};
use drm_sense::report::{connector_text, driver_line, Report};
use drm_sense::text::decimal_text;

struct FakeDevice {
    open_error: Option<i32>,
    version_error: Option<i32>,
    version: DriverVersion,
    connectors: Vec<Connector>,
    failing_connector: Option<(u32, i32)>,
    planes: Result<Vec<u32>, i32>,
}

fn version(name: &str, major: i32, minor: i32, patch: i32) -> DriverVersion {
    DriverVersion {
        name: name.to_string(),
        desc: "fake driver".to_string(),
        major,
        minor,
        patch,
        date: "20240101".to_string(),
    }
}

fn mode(name: &str, rate: u32) -> DisplayMode {
    DisplayMode { name: name.to_string(), refresh_rate: rate, wsi_refresh_rate: rate * 1000 }
}

fn connector(id: u32, connection: ConnectionState, modes: Vec<DisplayMode>) -> Connector {
    Connector {
        connector_id: id,
        connector_type: 11,
        connector_type_id: 1,
        connection,
        modes,
        props: vec![1, 2],
        prop_values: vec![100, 200],
    }
}

fn device(connectors: Vec<Connector>) -> FakeDevice {
    FakeDevice {
        open_error: None,
        version_error: None,
        version: version("test-driver", 1, 2, 3),
        connectors,
        failing_connector: None,
        planes: Ok(vec![31, 32]),
    }
}

/// Runs one inspection against the fake device; also returns the actions asked for.
fn run(dev: &FakeDevice) -> (Result<Report, InspectError>, Vec<String>) {
    let mut asked = Vec::new();
    let (mut inspector, mut action) = Inspector::start();
    loop {
        asked.push(format!("{:?}", action).split('(').next().unwrap().to_string());
        let event = match action {
            Action::OpenDevice => match dev.open_error {
                Some(e) => Event::Failed(e),
                None => Event::Opened,
            },
            Action::QueryVersion => match dev.version_error {
                Some(e) => Event::Failed(e),
                None => Event::Version(dev.version.clone()),
            },
            Action::QueryResources => {
                Event::Resources(dev.connectors.iter().map(|c| c.connector_id).collect())
            }
            Action::QueryConnector(id) => match dev.failing_connector {
                Some((bad, e)) if bad == id => Event::Failed(e),
                _ => Event::ConnectorRead(
                    dev.connectors.iter().find(|c| c.connector_id == id).unwrap().clone(),
                ),
            },
            Action::QueryPlanes => match &dev.planes {
                Ok(p) => Event::Planes(p.clone()),
                Err(e) => Event::Failed(*e),
            },
            Action::Finish(outcome) => return (outcome, asked),
        };
        let (next, a) = inspector.step(event);
        inspector = next;
        action = a;
    }
}

#[test]
fn no_connectors_fails_before_mode_selection() {
    let (outcome, asked) = run(&device(vec![]));
    assert_eq!(outcome.unwrap_err(), InspectError::NoDisplayConnected);
    assert!(!asked.iter().any(|a| a == "QueryConnector" || a == "QueryPlanes"));
}

#[test]
fn first_connected_connector_is_selected() {
    let cs = vec![
        connector(10, ConnectionState::Disconnected, vec![mode("800x600", 60)]),
        connector(20, ConnectionState::Connected, vec![mode("1024x768", 60)]),
        connector(30, ConnectionState::Connected, vec![mode("640x480", 60)]),
    ];
    assert_eq!(first_connected(&cs), Some(1));
    for _ in 0..3 {
        let report = run(&device(cs.clone())).0.unwrap();
        assert_eq!(report.selected, 1);
        assert_eq!(report.selected_connector().unwrap().connector_id, 20);
        assert_eq!(report.selected_mode().unwrap().name, "1024x768");
    }
}

#[test]
fn selection_ignores_unknown_state() {
    let cs = vec![
        connector(10, ConnectionState::Unknown, vec![mode("800x600", 60)]),
        connector(20, ConnectionState::Connected, vec![mode("1024x768", 60)]),
    ];
    assert_eq!(first_connected(&cs), Some(1));
}

#[test]
fn property_pairs_stay_aligned() {
    let mut c = connector(5, ConnectionState::Connected, vec![]);
    c.props = vec![7, 8, 9];
    c.prop_values = vec![70, 80, 90];
    assert_eq!(c.property_pairs(), vec![(7, 70), (8, 80), (9, 90)]);
    c.prop_values = vec![70, 80];
    assert_eq!(c.property_pairs(), vec![(7, 70), (8, 80)]);
    c.props = vec![];
    assert_eq!(c.property_pairs(), vec![]);
}

#[test]
fn driver_line_names_driver_and_version() {
    let line = driver_line(&version("test-driver", 1, 2, 3));
    assert!(line.contains("test-driver"));
    assert!(line.contains("1.2.3"));
    assert_eq!(line, "Driver: test-driver (fake driver) version 1.2.3 (20240101)\n");
}

#[test]
fn driver_line_with_negative_number() {
    let line = driver_line(&version("x", -1, 0, i32::MIN));
    assert_eq!(line, "Driver: x (fake driver) version -1.0.-2147483648 (20240101)\n");
}

#[test]
fn first_mode_is_selected() {
    let c = connector(
        40,
        ConnectionState::Connected,
        vec![mode("1920x1080", 60), mode("1280x720", 75)],
    );
    assert_eq!(preferred_mode(&c), Some(0));
    let report = run(&device(vec![c])).0.unwrap();
    let m = report.selected_mode().unwrap();
    assert_eq!(m.name, "1920x1080");
    assert_eq!(m.refresh_rate, 60);
}

#[test]
fn no_connected_display_is_an_error() {
    let cs = vec![
        connector(10, ConnectionState::Disconnected, vec![mode("800x600", 60)]),
        connector(20, ConnectionState::Unknown, vec![mode("800x600", 60)]),
    ];
    assert_eq!(first_connected(&cs), None);
    let (outcome, asked) = run(&device(cs));
    assert_eq!(outcome.unwrap_err(), InspectError::NoDisplayConnected);
    assert!(!asked.iter().any(|a| a == "QueryPlanes"));
}

#[test]
fn connector_without_modes_is_an_error() {
    let c = connector(40, ConnectionState::Connected, vec![]);
    assert_eq!(preferred_mode(&c), None);
    let (outcome, _) = run(&device(vec![c]));
    assert_eq!(outcome.unwrap_err(), InspectError::NoModesAvailable);
}

#[test]
fn open_failure_is_returned_unchanged() {
    let mut dev = device(vec![connector(1, ConnectionState::Connected, vec![mode("a", 1)])]);
    dev.open_error = Some(13);
    let (outcome, asked) = run(&dev);
    assert_eq!(outcome.unwrap_err(), InspectError::Os(13));
    assert_eq!(asked, vec!["OpenDevice".to_string(), "Finish".to_string()]);
}

#[test]
fn version_failure_is_returned_unchanged() {
    let mut dev = device(vec![connector(1, ConnectionState::Connected, vec![mode("a", 1)])]);
    dev.version_error = Some(25);
    assert_eq!(run(&dev).0.unwrap_err(), InspectError::Os(25));
}

#[test]
fn one_failing_connector_fails_the_inspection() {
    let mut dev = device(vec![
        connector(1, ConnectionState::Connected, vec![mode("a", 1)]),
        connector(2, ConnectionState::Connected, vec![mode("b", 1)]),
    ]);
    dev.failing_connector = Some((2, 19));
    assert_eq!(run(&dev).0.unwrap_err(), InspectError::Os(19));
}

#[test]
fn plane_failure_is_returned_unchanged() {
    let mut dev = device(vec![connector(1, ConnectionState::Connected, vec![mode("a", 1)])]);
    dev.planes = Err(5);
    assert_eq!(run(&dev).0.unwrap_err(), InspectError::Os(5));
}

#[test]
fn queries_come_in_order() {
    let dev = device(vec![
        connector(1, ConnectionState::Connected, vec![mode("a", 1)]),
        connector(2, ConnectionState::Disconnected, vec![]),
    ]);
    let (outcome, asked) = run(&dev);
    assert!(outcome.is_ok());
    assert_eq!(
        asked,
        vec![
            "OpenDevice",
            "QueryVersion",
            "QueryResources",
            "QueryConnector",
            "QueryConnector",
            "QueryPlanes",
            "Finish"
        ]
    );
}

#[test]
fn unexpected_event_repeats_pending_query() {
    let (inspector, _) = Inspector::start();
    let (inspector, action) = inspector.step(Event::Planes(vec![1]));
    assert!(matches!(action, Action::OpenDevice));
    assert_eq!(inspector.phase, Phase::Opening);
    let (inspector, action) = inspector.step(Event::Opened);
    assert!(matches!(action, Action::QueryVersion));
    let (inspector, action) = inspector.step(Event::Opened);
    assert!(matches!(action, Action::QueryVersion));
    assert!(!inspector.is_finished());
}

#[test]
fn report_text_is_exact() {
    let mut c = connector(40, ConnectionState::Connected, vec![mode("1920x1080", 60)]);
    c.props = vec![2];
    c.prop_values = vec![0];
    let report = run(&device(vec![c])).0.unwrap();
    assert_eq!(
        report.text(),
        "Driver: test-driver (fake driver) version 1.2.3 (20240101)\n\
         Found connector connector_id: 40 connector_type:11 connector_type_id:1\n\
         \x20 Prop: (2:0)\n\
         \x20 Found mode 1920x1080@60 for connector 40\n\
         Refresh rate: 60000\n\
         Plane : 31\n\
         Plane : 32\n"
    );
}

#[test]
fn connector_text_lists_pairs_and_modes() {
    let c = connector(7, ConnectionState::Disconnected, vec![mode("640x480", 75), mode("800x600", 56)]);
    assert_eq!(
        connector_text(&c),
        "Found connector connector_id: 7 connector_type:11 connector_type_id:1\n  Prop: (1:100)\n  Prop: (2:200)\n  Found mode 640x480@75 for connector 7\n  Found mode 800x600@56 for connector 7\n"
    );
}

#[test]
fn decimal_text_values() {
    assert_eq!(decimal_text(0), "0");
    assert_eq!(decimal_text(7), "7");
    assert_eq!(decimal_text(10), "10");
    assert_eq!(decimal_text(1234567890), "1234567890");
    assert_eq!(decimal_text(u64::MAX), "18446744073709551615");
}

#[test]
fn connection_codes() {
    assert_eq!(ConnectionState::from_code(1), ConnectionState::Connected);
    assert_eq!(ConnectionState::from_code(2), ConnectionState::Disconnected);
    assert_eq!(ConnectionState::from_code(3), ConnectionState::Unknown);
    assert_eq!(ConnectionState::from_code(0), ConnectionState::Unknown);
    assert!(ConnectionState::Connected.is_connected());
    assert!(!ConnectionState::Unknown.is_connected());
}
