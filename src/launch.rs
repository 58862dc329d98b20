//! The launch protocol as a state machine. Each stage waits for the answer to one
//! outside operation (load a profile, acquire a runtime handle, bind it, set up the
//! transport, create the container, resolve its address, start the transport); the
//! driver performs the action a stage issues and hands the outcome back as an event.
use vstd::prelude::*;
use vstd::string::StringExecFns;
use crate::cli::{argument_problem, port_or_zero, StartCommand};
use crate::error::Error;
use crate::mode::{mode_of, TransportMode};
use crate::profile::{control_socket, read_only_paths, texts, ContainerPermissionConfig, PermissionProfile};

verus! {

/// Where a launch stands: the operation whose outcome it waits for, or the end.
#[derive(Clone, Copy, Debug, PartialEq, Eq, Structural)]
pub enum Stage {
    LoadProfile,
    AcquireRuntime,
    AcquireTransport,
    BindRuntime,
    AcquireFreshRuntime,
    PreSetup,
    CreateAndStart,
    ResolveAddress,
    PostSetup,
    StartTransport,
    Finished,
}

/// The outcome of the operation a launch waited for.
#[derive(Debug)]
pub enum Event {
    ProfileLoaded(PermissionProfile),
    ProfileNotFound(String),
    ProfileMalformed(String),
    RuntimeReady,
    RuntimeUnavailable(String),
    TransportReady,
    RuntimeBound,
    BindRefused(String),
    SetupDone(Vec<(String, String)>),
    SetupFailed(String),
    Created(String),
    CreationFailed(String),
    AddressResolved(String),
    AddressUnresolved(String),
    Started,
    StartFailed(String),
}

/// The arguments of a transport setup call. Before creation the container identifier
/// is empty and there is no address; the environment starts empty either way.
#[derive(Debug)]
pub struct SetupCall {
    pub container_id: String,
    pub name: String,
    pub port: Option<u16>,
    pub env: Vec<(String, String)>,
    pub address: Option<String>,
}

/// The arguments of the call that creates and starts the container.
#[derive(Debug)]
pub struct CreateCall {
    pub image: String,
    pub name: String,
    pub args: Vec<String>,
    pub env: Vec<(String, String)>,
    pub labels: Vec<(String, String)>,
    pub config: ContainerPermissionConfig,
}

/// What a successful launch reports.
#[derive(Clone, Debug, PartialEq, Eq)]
pub struct LaunchReport {
    pub name: String,
    pub container_id: String,
}

/// The operation the driver must perform next, or the launch's result.
#[derive(Debug)]
pub enum Action {
    LoadProfile(String),
    AcquireRuntime,
    AcquireTransport(TransportMode, u16),
    BindRuntime,
    Setup(SetupCall),
    CreateAndStart(CreateCall),
    ResolveAddress(String),
    StartTransport,
    Finish(Result<LaunchReport, Error>),
}

/// One launch in progress. The ghost fields count the outside operations issued so
/// far and record when the runtime handle was bound, when creation was asked for,
/// and at which stage the launch failed, if it did.
pub struct Launch {
    pub mode: TransportMode,
    pub port: u16,
    pub requested_port: Option<u16>,
    pub name: String,
    pub image: String,
    pub token: String,
    pub args: Vec<String>,
    pub profile_path: String,
    pub config: ContainerPermissionConfig,
    pub container_id: String,
    pub address: Option<String>,
    pub stage: Stage,
    pub handles: Ghost<nat>,
    pub setups: Ghost<nat>,
    pub starts: Ghost<nat>,
    pub bound_at: Ghost<Option<nat>>,
    pub created_at: Ghost<Option<nat>>,
    pub failed_at: Ghost<Option<Stage>>,
}

/// The stage that follows `s` when its operation succeeds.
pub open spec fn successor(s: Stage, mode: TransportMode) -> Stage {
    match s {
        Stage::LoadProfile => Stage::AcquireRuntime,
        Stage::AcquireRuntime => Stage::AcquireTransport,
        Stage::AcquireTransport => if mode == TransportMode::Stdio {
            Stage::BindRuntime
        } else {
            Stage::PreSetup
        },
        Stage::BindRuntime => Stage::AcquireFreshRuntime,
        Stage::AcquireFreshRuntime => Stage::PreSetup,
        Stage::PreSetup => Stage::CreateAndStart,
        Stage::CreateAndStart => Stage::ResolveAddress,
        Stage::ResolveAddress => Stage::PostSetup,
        Stage::PostSetup => Stage::StartTransport,
        Stage::StartTransport => Stage::Finished,
        Stage::Finished => Stage::Finished,
    }
}

/// Whether `e` is an outcome of the operation that stage `s` waits for.
pub open spec fn answers(s: Stage, e: Event) -> bool {
    match s {
        Stage::LoadProfile => e is ProfileLoaded || e is ProfileNotFound || e is ProfileMalformed,
        Stage::AcquireRuntime | Stage::AcquireFreshRuntime => e is RuntimeReady || e is RuntimeUnavailable,
        Stage::AcquireTransport => e is TransportReady,
        Stage::BindRuntime => e is RuntimeBound || e is BindRefused,
        Stage::PreSetup | Stage::PostSetup => e is SetupDone || e is SetupFailed,
        Stage::CreateAndStart => e is Created || e is CreationFailed,
        Stage::ResolveAddress => e is AddressResolved || e is AddressUnresolved,
        Stage::StartTransport => e is Started || e is StartFailed,
        Stage::Finished => false,
    }
}

/// Whether `e` ends the launch with an error. An unresolved address does not.
pub open spec fn is_failure(e: Event) -> bool {
    e is ProfileNotFound || e is ProfileMalformed || e is RuntimeUnavailable
        || e is BindRefused || e is SetupFailed || e is CreationFailed || e is StartFailed
}

/// The error a failure event ends the launch with; `container_id` is the container
/// created so far (empty before creation). Only failure events (`is_failure`) are
/// ever mapped; the last arm merely makes the function total.
pub open spec fn failure(e: Event, container_id: String) -> Error {
    match e {
        Event::ProfileNotFound(m) => Error::ProfileNotFound(m),
        Event::ProfileMalformed(m) => Error::ProfileMalformed(m),
        Event::RuntimeUnavailable(m) => Error::EngineUnavailable(m),
        Event::BindRefused(m) => Error::Transport(m),
        Event::SetupFailed(m) => Error::SetupFailed { container_id, message: m },
        Event::CreationFailed(m) => Error::CreationFailed(m),
        Event::StartFailed(m) => Error::StartFailed { container_id, message: m },
        _ => Error::InvalidArgument(container_id),
    }
}

/// The labels a container is created with: it is managed here, under this name,
/// with this transport.
pub open spec fn labels_of(name: Seq<char>, token: Seq<char>) -> Seq<(Seq<char>, Seq<char>)> {
    seq![("vibetool"@, "true"@), ("vibetool-name"@, name), ("vibetool-transport"@, token)]
}

/// The text of each key and value of a list of pairs.
pub open spec fn pair_texts(v: Seq<(String, String)>) -> Seq<(Seq<char>, Seq<char>)> {
    v.map_values(|p: (String, String)| (p.0@, p.1@))
}

/// The sandbox configuration's content.
pub open spec fn config_view(c: ContainerPermissionConfig) -> (Seq<Seq<char>>, Seq<Seq<char>>, bool) {
    (texts(c.read_only_mounts@), texts(c.read_write_mounts@), c.network_enabled)
}

/// The sandbox configuration a profile translates to.
pub open spec fn translation(p: PermissionProfile) -> (Seq<Seq<char>>, Seq<Seq<char>>, bool) {
    (read_only_paths(texts(p.read@), texts(p.write@)), texts(p.write@), p.network.is_some())
}

/// Two launches serve the same request.
pub open spec fn same_request(a: Launch, b: Launch) -> bool {
    &&& a.mode == b.mode && a.port == b.port && a.requested_port == b.requested_port
    &&& a.name == b.name && a.image == b.image && a.token == b.token && a.args == b.args
    &&& a.profile_path == b.profile_path
}

impl Launch {
    /// Runtime handles a complete launch acquires: a second one in stream mode, since
    /// the first belongs to the transport.
    pub open spec fn full_handles(&self) -> nat {
        if self.mode == TransportMode::Stdio { 2 } else { 1 }
    }

    /// The record of issued operations once the action of stage `s` has been issued.
    pub open spec fn record_fits(&self, s: Stage) -> bool {
        let full = self.full_handles();
        let bound = if self.mode == TransportMode::Stdio { Some(1nat) } else { None };
        match s {
            Stage::LoadProfile => self.handles@ == 0 && self.setups@ == 0 && self.bound_at@ is None
                && self.created_at@ is None && self.starts@ == 0,
            Stage::AcquireRuntime | Stage::AcquireTransport => self.handles@ == 1 && self.setups@ == 0
                && self.bound_at@ is None && self.created_at@ is None && self.starts@ == 0,
            Stage::BindRuntime => self.mode == TransportMode::Stdio && self.handles@ == 1
                && self.setups@ == 0 && self.bound_at@ is None && self.created_at@ is None
                && self.starts@ == 0,
            Stage::AcquireFreshRuntime => self.mode == TransportMode::Stdio && self.handles@ == 2
                && self.setups@ == 0 && self.bound_at@ == Some(1nat) && self.created_at@ is None
                && self.starts@ == 0,
            Stage::PreSetup => self.handles@ == full && self.setups@ == 1 && self.bound_at@ == bound
                && self.created_at@ is None && self.starts@ == 0,
            Stage::CreateAndStart | Stage::ResolveAddress => self.handles@ == full && self.setups@ == 1
                && self.bound_at@ == bound && self.created_at@ == Some(full) && self.starts@ == 0,
            Stage::PostSetup => self.handles@ == full && self.setups@ == 2 && self.bound_at@ == bound
                && self.created_at@ == Some(full) && self.starts@ == 0,
            Stage::StartTransport | Stage::Finished => self.handles@ == full && self.setups@ == 2
                && self.bound_at@ == bound && self.created_at@ == Some(full) && self.starts@ == 1,
        }
    }

    /// The launch's invariant: a network launch has its port, and the record of issued
    /// operations is the one of the stage reached (or of the stage that failed).
    pub open spec fn wf(&self) -> bool {
        &&& (self.mode == TransportMode::Sse ==> self.requested_port == Some(self.port))
        &&& (self.created_at@ is None ==> self.container_id@ == Seq::<char>::empty())
        &&& match self.failed_at@ {
            None => self.record_fits(self.stage),
            Some(s) => self.stage == Stage::Finished && s != Stage::Finished && self.record_fits(s),
        }
    }

    /// The launch ended with its transport started.
    pub open spec fn succeeded(&self) -> bool {
        self.stage == Stage::Finished && self.failed_at@ is None
    }

    /// Whether `a` is the action this launch's stage issues, with its arguments.
    pub open spec fn issues(&self, a: Action) -> bool {
        match self.stage {
            Stage::LoadProfile => a == Action::LoadProfile(self.profile_path),
            Stage::AcquireRuntime | Stage::AcquireFreshRuntime => a is AcquireRuntime,
            Stage::AcquireTransport => a == Action::AcquireTransport(self.mode, self.port),
            Stage::BindRuntime => a is BindRuntime,
            Stage::PreSetup => match a {
                Action::Setup(c) => c.container_id@ == Seq::<char>::empty() && c.name == self.name
                    && c.port == self.requested_port && c.env@.len() == 0 && c.address is None,
                _ => false,
            },
            Stage::CreateAndStart => match a {
                Action::CreateAndStart(c) => c.image == self.image && c.name == self.name
                    && c.args@ == self.args@ && pair_texts(c.labels@) == labels_of(self.name@, self.token@)
                    && config_view(c.config) == config_view(self.config),
                _ => false,
            },
            Stage::ResolveAddress => a == Action::ResolveAddress(self.container_id),
            Stage::PostSetup => match a {
                Action::Setup(c) => c.container_id == self.container_id && c.name == self.name
                    && c.port == self.requested_port && c.env@.len() == 0 && c.address == self.address,
                _ => false,
            },
            Stage::StartTransport => a is StartTransport,
            Stage::Finished => match a {
                Action::Finish(Ok(rep)) => self.failed_at@ is None && rep.name == self.name
                    && rep.container_id == self.container_id,
                Action::Finish(Err(_)) => self.failed_at@ is Some,
                _ => false,
            },
        }
    }
}

fn clone_texts(v: &Vec<String>) -> (r: Vec<String>)
    ensures
        r@ == v@,
{
    let mut r: Vec<String> = Vec::new();
    let mut i: usize = 0;
    while i < v.len()
        invariant
            i <= v.len(),
            r@ == v@.take(i as int),
        decreases v.len() - i,
    {
        r.push(v[i].clone());
        assert(r@ =~= v@.take(i + 1));
        i = i + 1;
    }
    assert(v@.take(v.len() as int) =~= v@);
    r
}

fn clone_config(c: &ContainerPermissionConfig) -> (r: ContainerPermissionConfig)
    ensures
        config_view(r) == config_view(*c),
{
    ContainerPermissionConfig {
        read_only_mounts: clone_texts(&c.read_only_mounts),
        read_write_mounts: clone_texts(&c.read_write_mounts),
        network_enabled: c.network_enabled,
    }
}

fn text_pair(k: &str, v: String) -> (r: (String, String))
    ensures
        r.0@ == k@,
        r.1 == v,
{
    (String::from_str(k), v)
}

impl Launch {
    /// Starts a launch from a request: checks the transport and port, and either
    /// takes a built-in profile (translated at once) or asks for the profile file.
    /// A bad request fails with `InvalidArgument` before any operation is issued.
    pub fn begin(cmd: &StartCommand) -> (r: Result<(Launch, Action), Error>)
        ensures
            match r {
                Err(e) => match argument_problem(cmd.transport@, cmd.port) {
                    Some(msg) => e is InvalidArgument && e->InvalidArgument_0@ == msg,
                    None => false,
                },
                Ok((l, a)) => {
                    &&& argument_problem(cmd.transport@, cmd.port) is None
                    &&& l.wf() && l.issues(a) && l.failed_at@ is None
                    &&& mode_of(cmd.transport@) == Some(l.mode)
                    &&& l.port == port_or_zero(cmd.port) && l.requested_port == cmd.port
                    &&& l.name == cmd.name && l.image == cmd.image && l.token == cmd.transport
                    &&& l.args@ == cmd.args@ && l.container_id@ == Seq::<char>::empty()
                    &&& l.address is None
                    &&& if cmd.permission_profile@ == "stdio"@ {
                        l.stage == Stage::AcquireRuntime
                            && config_view(l.config) == (Seq::<Seq<char>>::empty(), seq![control_socket()], false)
                    } else if cmd.permission_profile@ == "network"@ {
                        l.stage == Stage::AcquireRuntime
                            && config_view(l.config) == (Seq::<Seq<char>>::empty(), seq![control_socket()], true)
                    } else {
                        l.stage == Stage::LoadProfile && l.profile_path == cmd.permission_profile
                    }
                },
            },
    {
        let (mode, port) = match cmd.validate() {
            Ok(v) => v,
            Err(e) => return Err(e),
        };
        proof {
            reveal_strlit("stdio");
            reveal_strlit("network");
            reveal_with_fuel(read_only_paths, 2);
        }
        let selector = cmd.permission_profile.clone();
        let builtin = if selector == String::from_str("stdio") {
            Some(PermissionProfile::builtin_stdio_profile())
        } else if selector == String::from_str("network") {
            Some(PermissionProfile::builtin_network_profile())
        } else {
            None
        };
        let (config, stage) = match builtin {
            Some(p) => {
                let c = p.to_container_config();
                assert(texts(p.read@).drop_last() =~= Seq::<Seq<char>>::empty());
                assert(texts(c.read_only_mounts@) =~= Seq::<Seq<char>>::empty());
                (c, Stage::AcquireRuntime)
            },
            None => (
                ContainerPermissionConfig {
                    read_only_mounts: Vec::new(),
                    read_write_mounts: Vec::new(),
                    network_enabled: false,
                },
                Stage::LoadProfile,
            ),
        };
        let ghost handles: nat = if stage == Stage::LoadProfile { 0 } else { 1 };
        let l = Launch {
            mode,
            port,
            requested_port: cmd.port,
            name: cmd.name.clone(),
            image: cmd.image.clone(),
            token: cmd.transport.clone(),
            args: clone_texts(&cmd.args),
            profile_path: selector,
            config,
            container_id: String::new(),
            address: None,
            stage,
            handles: Ghost(handles),
            setups: Ghost(0),
            starts: Ghost(0),
            bound_at: Ghost(None),
            created_at: Ghost(None),
            failed_at: Ghost(None),
        };
        let a = match stage {
            Stage::LoadProfile => Action::LoadProfile(l.profile_path.clone()),
            _ => Action::AcquireRuntime,
        };
        Ok((l, a))
    }

    /// Whether `e` answers the operation this launch waits for.
    pub fn accepts(&self, e: &Event) -> (r: bool)
        ensures
            r == answers(self.stage, *e),
    {
        match self.stage {
            Stage::LoadProfile => matches!(
                e,
                Event::ProfileLoaded(_) | Event::ProfileNotFound(_) | Event::ProfileMalformed(_)
            ),
            Stage::AcquireRuntime | Stage::AcquireFreshRuntime => matches!(
                e,
                Event::RuntimeReady | Event::RuntimeUnavailable(_)
            ),
            Stage::AcquireTransport => matches!(e, Event::TransportReady),
            Stage::BindRuntime => matches!(e, Event::RuntimeBound | Event::BindRefused(_)),
            Stage::PreSetup | Stage::PostSetup => matches!(
                e,
                Event::SetupDone(_) | Event::SetupFailed(_)
            ),
            Stage::CreateAndStart => matches!(e, Event::Created(_) | Event::CreationFailed(_)),
            Stage::ResolveAddress => matches!(
                e,
                Event::AddressResolved(_) | Event::AddressUnresolved(_)
            ),
            Stage::StartTransport => matches!(e, Event::Started | Event::StartFailed(_)),
            Stage::Finished => false,
        }
    }

    fn labels(&self) -> (r: Vec<(String, String)>)
        ensures
            pair_texts(r@) == labels_of(self.name@, self.token@),
    {
        proof {
            reveal_strlit("vibetool");
            reveal_strlit("true");
            reveal_strlit("vibetool-name");
            reveal_strlit("vibetool-transport");
        }
        let r = vec![
            text_pair("vibetool", String::from_str("true")),
            text_pair("vibetool-name", self.name.clone()),
            text_pair("vibetool-transport", self.token.clone()),
        ];
        assert(pair_texts(r@) =~= labels_of(self.name@, self.token@));
        r
    }

    /// Moves to the stage after the current one and issues its action; `env` is the
    /// environment the container is created with, when that stage is creation.
    fn advance(&mut self, env: Vec<(String, String)>) -> (r: Action)
        requires
            old(self).wf(),
            old(self).failed_at@ is None,
            old(self).stage != Stage::Finished,
        ensures
            final(self).wf(),
            final(self).issues(r),
            final(self).failed_at@ is None,
            final(self).stage == successor(old(self).stage, old(self).mode),
            final(self).stage == Stage::CreateAndStart ==> (r matches Action::CreateAndStart(c) && c.env == env),
            same_request(*old(self), *final(self)),
            final(self).config == old(self).config,
            final(self).container_id == old(self).container_id,
            final(self).address == old(self).address,
    {
        let next = match self.stage {
            Stage::LoadProfile => Stage::AcquireRuntime,
            Stage::AcquireRuntime => Stage::AcquireTransport,
            Stage::AcquireTransport => match self.mode {
                TransportMode::Stdio => Stage::BindRuntime,
                TransportMode::Sse => Stage::PreSetup,
            },
            Stage::BindRuntime => Stage::AcquireFreshRuntime,
            Stage::AcquireFreshRuntime => Stage::PreSetup,
            Stage::PreSetup => Stage::CreateAndStart,
            Stage::CreateAndStart => Stage::ResolveAddress,
            Stage::ResolveAddress => Stage::PostSetup,
            Stage::PostSetup => Stage::StartTransport,
            _ => Stage::Finished,
        };
        self.stage = next;
        match next {
            Stage::AcquireRuntime => {
                self.handles = Ghost(self.handles@ + 1);
                Action::AcquireRuntime
            },
            Stage::AcquireFreshRuntime => {
                self.bound_at = Ghost(Some(self.handles@));
                self.handles = Ghost(self.handles@ + 1);
                Action::AcquireRuntime
            },
            Stage::AcquireTransport => Action::AcquireTransport(self.mode, self.port),
            Stage::BindRuntime => Action::BindRuntime,
            Stage::PreSetup => {
                self.setups = Ghost(self.setups@ + 1);
                Action::Setup(
                    SetupCall {
                        container_id: String::new(),
                        name: self.name.clone(),
                        port: self.requested_port,
                        env: Vec::new(),
                        address: None,
                    },
                )
            },
            Stage::CreateAndStart => {
                self.created_at = Ghost(Some(self.handles@));
                let labels = self.labels();
                Action::CreateAndStart(
                    CreateCall {
                        image: self.image.clone(),
                        name: self.name.clone(),
                        args: clone_texts(&self.args),
                        env,
                        labels,
                        config: clone_config(&self.config),
                    },
                )
            },
            Stage::ResolveAddress => Action::ResolveAddress(self.container_id.clone()),
            Stage::PostSetup => {
                self.setups = Ghost(self.setups@ + 1);
                let address = match &self.address {
                    Some(a) => Some(a.clone()),
                    None => None,
                };
                Action::Setup(
                    SetupCall {
                        container_id: self.container_id.clone(),
                        name: self.name.clone(),
                        port: self.requested_port,
                        env: Vec::new(),
                        address,
                    },
                )
            },
            Stage::StartTransport => {
                self.starts = Ghost(self.starts@ + 1);
                Action::StartTransport
            },
            _ => Action::Finish(
                Ok(LaunchReport { name: self.name.clone(), container_id: self.container_id.clone() }),
            ),
        }
    }
    /// Ends the launch with `err`, recording the stage that failed.
    fn fail(&mut self, err: Error) -> (r: Action)
        requires
            old(self).wf(),
            old(self).failed_at@ is None,
            old(self).stage != Stage::Finished,
        ensures
            final(self).wf(),
            final(self).issues(r),
            final(self).stage == Stage::Finished,
            final(self).failed_at@ == Some(old(self).stage),
            r == Action::Finish(Err(err)),
            same_request(*old(self), *final(self)),
            final(self).config == old(self).config,
            final(self).container_id == old(self).container_id,
            final(self).address == old(self).address,
    {
        self.failed_at = Ghost(Some(self.stage));
        self.stage = Stage::Finished;
        Action::Finish(Err(err))
    }

    /// Takes the outcome of the operation this launch waits for, moves on and issues
    /// the next action. A failure ends the launch with the matching error; an
    /// unresolved address is no failure: the launch goes on with the address unknown.
    /// A loaded profile is translated here, once; the environment that the first
    /// setup produced is the one the container is created with.
    pub fn on_event(&mut self, e: Event) -> (r: Action)
        requires
            old(self).wf(),
            answers(old(self).stage, e),
        ensures
            final(self).wf(),
            final(self).issues(r),
            same_request(*old(self), *final(self)),
            is_failure(e) ==> final(self).stage == Stage::Finished
                && final(self).failed_at@ == Some(old(self).stage)
                && r == Action::Finish(Err(failure(e, old(self).container_id))),
            !is_failure(e) ==> final(self).stage == successor(old(self).stage, old(self).mode)
                && final(self).failed_at@ is None,
            match e {
                Event::ProfileLoaded(p) => config_view(final(self).config) == translation(p),
                _ => final(self).config == old(self).config,
            },
            match e {
                Event::Created(id) => final(self).container_id == id,
                _ => final(self).container_id == old(self).container_id,
            },
            match e {
                Event::AddressResolved(a) => final(self).address == Some(a),
                Event::AddressUnresolved(_) => final(self).address is None,
                _ => final(self).address == old(self).address,
            },
            match e {
                Event::SetupDone(env) => old(self).stage == Stage::PreSetup ==> (r matches Action::CreateAndStart(c) && c.env == env),
                _ => true,
            },
    {
        match e {
            Event::ProfileLoaded(p) => {
                self.config = p.to_container_config();
                self.advance(Vec::new())
            },
            Event::SetupDone(env) => self.advance(env),
            Event::Created(id) => {
                self.container_id = id;
                self.advance(Vec::new())
            },
            Event::AddressResolved(a) => {
                self.address = Some(a);
                self.advance(Vec::new())
            },
            Event::AddressUnresolved(_) => {
                self.address = None;
                self.advance(Vec::new())
            },
            Event::RuntimeReady | Event::TransportReady | Event::RuntimeBound | Event::Started => {
                self.advance(Vec::new())
            },
            Event::ProfileNotFound(m) => self.fail(Error::ProfileNotFound(m)),
            Event::ProfileMalformed(m) => self.fail(Error::ProfileMalformed(m)),
            Event::RuntimeUnavailable(m) => self.fail(Error::EngineUnavailable(m)),
            Event::BindRefused(m) => self.fail(Error::Transport(m)),
            Event::SetupFailed(m) => {
                let id = self.container_id.clone();
                self.fail(Error::SetupFailed { container_id: id, message: m })
            },
            Event::CreationFailed(m) => self.fail(Error::CreationFailed(m)),
            Event::StartFailed(m) => {
                let id = self.container_id.clone();
                self.fail(Error::StartFailed { container_id: id, message: m })
            },
        }
    }
}

/// A launch that succeeded acquired one runtime handle in network mode and two in
/// stream mode. In stream mode the first handle was bound into the transport before
/// the second was acquired, and the container was created only after that: the bound
/// handle never serves creation.
pub proof fn lemma_runtime_handles(l: Launch)
    requires
        l.wf(),
        l.succeeded(),
    ensures
        l.mode == TransportMode::Sse ==> l.handles@ == 1 && l.bound_at@ is None
            && l.created_at@ == Some(1nat),
        l.mode == TransportMode::Stdio ==> l.handles@ == 2 && l.bound_at@ == Some(1nat)
            && l.created_at@ == Some(2nat),
{
}

/// A launch that succeeded set its transport up exactly twice, and started it once.
pub proof fn lemma_two_setups(l: Launch)
    requires
        l.wf(),
        l.succeeded(),
    ensures
        l.setups@ == 2,
        l.starts@ == 1,
{
}

/// An unresolved address does not stop a launch: it goes on to the second setup,
/// which is handed no address.
pub proof fn lemma_unresolved_address_goes_on(l: Launch, msg: String)
    requires
        l.wf(),
        l.stage == Stage::ResolveAddress,
    ensures
        answers(l.stage, Event::AddressUnresolved(msg)),
        !is_failure(Event::AddressUnresolved(msg)),
        successor(l.stage, l.mode) == Stage::PostSetup,
{
}

/// A launch whose container creation failed set its transport up only before
/// creation, never started it, and is over: no event is taken after that.
pub proof fn lemma_creation_failure_stops(l: Launch, e: Event)
    requires
        l.wf(),
        l.failed_at@ == Some(Stage::CreateAndStart),
    ensures
        l.setups@ == 1,
        l.starts@ == 0,
        l.stage == Stage::Finished,
        !answers(l.stage, e),
{
}

} // verus!
