use vstd::prelude::*;

verus! {

/// Status code of a successful initialisation step.
pub const INIT_OK: u32 = 0;

/// The runtime lacks the interface version asked for.
pub const INIT_INTERFACE_NOT_FOUND: u32 = 105;

/// Reported when a session is already open in this process.
pub const INIT_ALREADY_RUNNING: u32 = 143;

/// What kind of application opens the session.
#[derive(Debug, Clone, Copy, PartialEq, Eq, Structural)]
pub enum ApplicationType {
    /// Some other kind of application that isn't covered by the other entries.
    Other,
    /// Application will submit 3D frames.
    Scene,
    /// Application only interacts with overlays.
    Overlay,
    /// Application should not start the runtime if it's not already running,
    /// and should not keep it running if everything else quits.
    Background,
    /// Init should not try to load any drivers: utility interfaces only.
    Utility,
    /// Reserved for the monitor.
    VRMonitor,
    /// Reserved for the watchdog.
    SteamWatchdog,
    /// Starts up the runtime.
    Bootstrapper,
}

impl ApplicationType {
    /// The runtime's number for the application type.
    pub fn code(self) -> (r: u32)
        ensures
            r == match self {
                ApplicationType::Other => 0u32,
                ApplicationType::Scene => 1u32,
                ApplicationType::Overlay => 2u32,
                ApplicationType::Background => 3u32,
                ApplicationType::Utility => 4u32,
                ApplicationType::VRMonitor => 5u32,
                ApplicationType::SteamWatchdog => 6u32,
                ApplicationType::Bootstrapper => 7u32,
            },
    {
        match self {
            ApplicationType::Other => 0,
            ApplicationType::Scene => 1,
            ApplicationType::Overlay => 2,
            ApplicationType::Background => 3,
            ApplicationType::Utility => 4,
            ApplicationType::VRMonitor => 5,
            ApplicationType::SteamWatchdog => 6,
            ApplicationType::Bootstrapper => 7,
        }
    }
}

/// A failed initialisation, with the runtime's status code.
#[derive(Debug, Clone, Copy, PartialEq, Eq, Structural)]
pub struct InitError(pub u32);

/// An open runtime session. Holding one is what entitles a caller to the
/// runtime's interfaces.
#[derive(Debug)]
pub struct Context {
    app_type: ApplicationType,
}

impl Context {
    /// The kind of application the session was opened as.
    pub closed spec fn spec_app_type(&self) -> ApplicationType {
        self.app_type
    }

    /// Opens the session. Only one session may be open at a time:
    /// `already_active` says whether one is, and then opening fails and the
    /// other two arguments are ignored (the runtime is not to be initialised
    /// at all). Otherwise they are the outcome of the runtime's
    /// initialisation: its status code, and whether the system interface
    /// version it offers is the one this library was written against.
    pub fn new(ty: ApplicationType, already_active: bool, init_error: u32, interface_valid: bool) -> (r:
        Result<Context, InitError>)
        ensures
            r is Ok <==> !already_active && init_error == INIT_OK && interface_valid,
            r matches Ok(c) ==> c.spec_app_type() == ty,
            already_active ==> r == Err::<Context, InitError>(InitError(INIT_ALREADY_RUNNING)),
            !already_active && init_error != INIT_OK ==> r == Err::<Context, InitError>(
                InitError(init_error),
            ),
            !already_active && init_error == INIT_OK && !interface_valid ==> r == Err::<
                Context,
                InitError,
            >(InitError(INIT_INTERFACE_NOT_FOUND)),
    {
        if already_active {
            Err(InitError(INIT_ALREADY_RUNNING))
        } else if init_error != INIT_OK {
            Err(InitError(init_error))
        } else if !interface_valid {
            Err(InitError(INIT_INTERFACE_NOT_FOUND))
        } else {
            Ok(Context { app_type: ty })
        }
    }

    /// The kind of application the session was opened as.
    pub fn app_type(&self) -> (r: ApplicationType)
        ensures
            r == self.spec_app_type(),
    {
        self.app_type
    }
}

/// The prefix under which the runtime hands out an interface's function table.
pub open spec fn fn_table_prefix() -> Seq<u8> {
    seq![70u8, 110u8, 84u8, 97u8, 98u8, 108u8, 101u8, 58u8]
}

/// The key that names an interface's function table: `FnTable:` followed by
/// the interface version.
pub fn fn_table_key(version: &[u8]) -> (r: Vec<u8>)
    requires
        version@.len() + 8 <= usize::MAX,
    ensures
        r@ == fn_table_prefix() + version@,
{
    let mut key: Vec<u8> = vec![70u8, 110u8, 84u8, 97u8, 98u8, 108u8, 101u8, 58u8];
    assert(key@ =~= fn_table_prefix());
    let n: usize = version.len();
    let mut i: usize = 0;
    while i < n
        invariant
            n == version@.len(),
            i <= n,
            key@ =~= fn_table_prefix() + version@.subrange(0, i as int),
        decreases n - i,
    {
        key.push(version[i]);
        i = i + 1;
        assert(key@ =~= fn_table_prefix() + version@.subrange(0, i as int));
    }
    assert(version@.subrange(0, n as int) =~= version@);
    key
}

/// Turns the status of an interface lookup into a result: any failure is
/// reported as a missing interface.
pub fn check_load(error: u32) -> (r: Result<(), InitError>)
    ensures
        r is Ok <==> error == INIT_OK,
        r matches Err(e) ==> e == InitError(INIT_INTERFACE_NOT_FOUND),
{
    if error != INIT_OK {
        Err(InitError(INIT_INTERFACE_NOT_FOUND))
    } else {
        Ok(())
    }
}

} // verus!
