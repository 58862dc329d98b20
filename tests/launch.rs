use vibetool::cli::StartCommand;
use vibetool::error::Error;
use vibetool::launch::{Action, Event, Launch, LaunchReport, Stage};
use vibetool::mode::TransportMode;
use vibetool::profile::PermissionProfile;

/// A stand-in for the container engine and the transport that records what it was
/// asked to do.
struct Fake {
    address: Option<String>,
    profile: Option<PermissionProfile>,
    create_fails: bool,
    start_fails: bool,
    acquisitions: u32,
    binds: u32,
    acquisitions_at_bind: Option<u32>,
    acquisitions_at_create: Option<u32>,
    setups: Vec<(String, Option<String>, Option<u16>)>,
    created: Vec<(String, String, Vec<String>, Vec<(String, String)>, Vec<(String, String)>, bool)>,
    transports: Vec<(TransportMode, u16)>,
    starts: u32,
    calls: u32,
}

impl Fake {
    fn new() -> Fake {
        Fake {
            address: Some("10.0.0.5".to_string()),
            profile: None,
            create_fails: false,
            start_fails: false,
            acquisitions: 0,
            binds: 0,
            acquisitions_at_bind: None,
            acquisitions_at_create: None,
            setups: vec![],
            created: vec![],
            transports: vec![],
            starts: 0,
            calls: 0,
        }
    }

    fn perform(&mut self, action: Action) -> Event {
        self.calls += 1;
        match action {
            Action::LoadProfile(_) => match self.profile.take() {
                Some(p) => Event::ProfileLoaded(p),
                None => Event::ProfileNotFound("no such file".to_string()),
            },
            Action::AcquireRuntime => {
                self.acquisitions += 1;
                Event::RuntimeReady
            }
            Action::AcquireTransport(mode, port) => {
                self.transports.push((mode, port));
                Event::TransportReady
            }
            Action::BindRuntime => {
                self.binds += 1;
                self.acquisitions_at_bind = Some(self.acquisitions);
                Event::RuntimeBound
            }
            Action::Setup(call) => {
                self.setups.push((call.container_id.clone(), call.address.clone(), call.port));
                let mut env = call.env;
                if call.container_id.is_empty() {
                    env.push(("MCP_PORT".to_string(), "8080".to_string()));
                }
                Event::SetupDone(env)
            }
            Action::CreateAndStart(call) => {
                self.acquisitions_at_create = Some(self.acquisitions);
                self.created.push((
                    call.image,
                    call.name,
                    call.args,
                    call.env,
                    call.labels,
                    call.config.network_enabled,
                ));
                if self.create_fails {
                    Event::CreationFailed("image not found".to_string())
                } else {
                    Event::Created("abc123".to_string())
                }
            }
            Action::ResolveAddress(_) => match &self.address {
                Some(a) => Event::AddressResolved(a.clone()),
                None => Event::AddressUnresolved("no network".to_string()),
            },
            Action::StartTransport => {
                self.starts += 1;
                if self.start_fails {
                    Event::StartFailed("port in use".to_string())
                } else {
                    Event::Started
                }
            }
            Action::Finish(_) => panic!("a finished launch asks for nothing"),
        }
    }
}

fn drive(cmd: &StartCommand, fake: &mut Fake) -> Result<LaunchReport, Error> {
    let (mut launch, mut action) = Launch::begin(cmd)?;
    loop {
        if let Action::Finish(result) = action {
            assert_eq!(launch.stage, Stage::Finished);
            return result;
        }
        let event = fake.perform(action);
        assert!(launch.accepts(&event));
        action = launch.on_event(event);
    }
}

fn request(transport: &str, port: Option<u16>, profile: &str) -> StartCommand {
    StartCommand {
        transport: transport.to_string(),
        name: "demo-server".to_string(),
        port,
        permission_profile: profile.to_string(),
        image: "demo".to_string(),
        args: vec![],
    }
}

#[test]
fn network_launch_end_to_end() {
    let mut fake = Fake::new();
    let report = drive(&request("sse", Some(8080), "network"), &mut fake).unwrap();
    assert_eq!(report.container_id, "abc123");
    assert_eq!(report.name, "demo-server");
    assert_eq!(
        fake.setups,
        vec![
            ("".to_string(), None, Some(8080)),
            ("abc123".to_string(), Some("10.0.0.5".to_string()), Some(8080)),
        ]
    );
    assert_eq!(fake.acquisitions, 1);
    assert_eq!(fake.binds, 0);
    assert_eq!(fake.transports, vec![(TransportMode::Sse, 8080)]);
    assert_eq!(fake.starts, 1);
    let (image, name, args, env, labels, network) = &fake.created[0];
    assert_eq!(image, "demo");
    assert_eq!(name, "demo-server");
    assert!(args.is_empty());
    assert_eq!(env, &vec![("MCP_PORT".to_string(), "8080".to_string())]);
    assert_eq!(
        labels,
        &vec![
            ("vibetool".to_string(), "true".to_string()),
            ("vibetool-name".to_string(), "demo-server".to_string()),
            ("vibetool-transport".to_string(), "sse".to_string()),
        ]
    );
    assert!(*network);
}

#[test]
fn stream_launch_binds_then_acquires_again() {
    let mut fake = Fake::new();
    fake.address = None;
    let report = drive(&request("stdio", None, "stdio"), &mut fake).unwrap();
    assert_eq!(report.container_id, "abc123");
    assert_eq!(fake.acquisitions, 2);
    assert_eq!(fake.binds, 1);
    assert_eq!(fake.acquisitions_at_bind, Some(1));
    assert_eq!(fake.acquisitions_at_create, Some(2));
    assert_eq!(fake.transports, vec![(TransportMode::Stdio, 0)]);
    assert_eq!(
        fake.setups,
        vec![("".to_string(), None, None), ("abc123".to_string(), None, None)]
    );
    assert!(!fake.created[0].5);
    assert_eq!(fake.starts, 1);
}

#[test]
fn bogus_mode_calls_nothing() {
    let mut fake = Fake::new();
    let result = drive(&request("bogus", Some(8080), "network"), &mut fake);
    assert_eq!(
        result,
        Err(Error::InvalidArgument(
            "Invalid transport mode: bogus. Valid modes are: sse, stdio".to_string()
        ))
    );
    assert_eq!(fake.calls, 0);
}

#[test]
fn network_mode_without_port_calls_nothing() {
    let mut fake = Fake::new();
    let result = drive(&request("sse", None, "network"), &mut fake);
    assert!(matches!(result, Err(Error::InvalidArgument(_))));
    assert_eq!(fake.calls, 0);
}

#[test]
fn unresolved_address_still_launches() {
    let mut fake = Fake::new();
    fake.address = None;
    let report = drive(&request("sse", Some(8080), "network"), &mut fake).unwrap();
    assert_eq!(report.container_id, "abc123");
    assert_eq!(fake.setups.len(), 2);
    assert_eq!(fake.setups[1], ("abc123".to_string(), None, Some(8080)));
}

#[test]
fn creation_failure_stops_before_second_setup() {
    let mut fake = Fake::new();
    fake.create_fails = true;
    let result = drive(&request("sse", Some(8080), "network"), &mut fake);
    assert_eq!(result, Err(Error::CreationFailed("image not found".to_string())));
    assert_eq!(fake.setups.len(), 1);
    assert_eq!(fake.starts, 0);
}

#[test]
fn start_failure_names_the_container() {
    let mut fake = Fake::new();
    fake.start_fails = true;
    let result = drive(&request("sse", Some(8080), "network"), &mut fake);
    assert_eq!(
        result,
        Err(Error::StartFailed {
            container_id: "abc123".to_string(),
            message: "port in use".to_string()
        })
    );
}

#[test]
fn missing_profile_file_fails_before_any_handle() {
    let mut fake = Fake::new();
    let result = drive(&request("sse", Some(8080), "/etc/profile.json"), &mut fake);
    assert_eq!(result, Err(Error::ProfileNotFound("no such file".to_string())));
    assert_eq!(fake.acquisitions, 0);
    assert_eq!(fake.calls, 1);
}

#[test]
fn profile_file_is_translated_for_creation() {
    let mut fake = Fake::new();
    fake.profile = Some(PermissionProfile {
        read: vec!["/data".to_string()],
        write: vec![],
        network: None,
    });
    let cmd = request("sse", Some(8080), "/etc/profile.json");
    let (launch, action) = Launch::begin(&cmd).unwrap();
    assert_eq!(launch.stage, Stage::LoadProfile);
    assert!(matches!(action, Action::LoadProfile(ref p) if p == "/etc/profile.json"));
    drive(&cmd, &mut fake).unwrap();
    assert!(!fake.created[0].5);
}

#[test]
fn pre_setup_failure_has_no_container() {
    let cmd = request("stdio", None, "stdio");
    let (mut launch, mut action) = Launch::begin(&cmd).unwrap();
    while !matches!(action, Action::Setup(_)) {
        let event = match action {
            Action::AcquireRuntime => Event::RuntimeReady,
            Action::AcquireTransport(..) => Event::TransportReady,
            Action::BindRuntime => Event::RuntimeBound,
            _ => panic!("unexpected action before setup"),
        };
        action = launch.on_event(event);
    }
    let action = launch.on_event(Event::SetupFailed("bad env".to_string()));
    assert!(matches!(
        action,
        Action::Finish(Err(Error::SetupFailed { ref container_id, ref message }))
            if container_id.is_empty() && message == "bad env"
    ));
    assert!(!launch.accepts(&Event::Started));
}

#[test]
fn engine_and_bind_failures_are_reported() {
    let cmd = request("stdio", None, "stdio");
    let (mut launch, _) = Launch::begin(&cmd).unwrap();
    let action = launch.on_event(Event::RuntimeUnavailable("no engine".to_string()));
    assert!(matches!(action, Action::Finish(Err(Error::EngineUnavailable(_)))));

    let (mut launch, _) = Launch::begin(&cmd).unwrap();
    launch.on_event(Event::RuntimeReady);
    launch.on_event(Event::TransportReady);
    let action = launch.on_event(Event::BindRefused("not a stream transport".to_string()));
    assert!(matches!(action, Action::Finish(Err(Error::Transport(_)))));
}

#[test]
fn malformed_profile_is_reported() {
    let cmd = request("stdio", None, "custom.json");
    let (mut launch, _) = Launch::begin(&cmd).unwrap();
    assert!(!launch.accepts(&Event::RuntimeReady));
    let action = launch.on_event(Event::ProfileMalformed("bad json".to_string()));
    assert!(matches!(action, Action::Finish(Err(Error::ProfileMalformed(_)))));
}
