//! Where the login secret comes from, and how the daemon starts with it.

use crate::paths::credential_path;
use vstd::prelude::*;

verus! {

/// The command line.
#[derive(Clone, Copy, Debug)]
pub struct Args {
    /// Read a password from stdin, and use it to unlock the login keyring.
    pub login: bool,
    /// Replace a running instance.
    pub replace: bool,
    /// Print debug information during command processing.
    pub is_verbose: bool,
    /// Unlock the keyring with a YubiKey PIV key (touch required).
    pub yubikey: bool,
    /// Generate a PIV key and wrapped master key on the YubiKey, then exit.
    pub yubikey_setup: bool,
}

/// The secret that unlocks the keyring.
pub enum Secret {
    /// A password that was typed.
    Text(String),
    /// Bytes from anywhere else.
    Blob(Vec<u8>),
}

/// What the program was started for.
#[derive(Clone, Copy, Debug, PartialEq, Eq, Structural)]
pub enum Command {
    /// Wrap a new master key, then exit.
    YubiKeySetup,
    /// Serve secrets.
    Serve,
}

impl Args {
    /// What the program was started for.
    pub fn command(&self) -> (r: Command)
        ensures
            r == if self.yubikey_setup {
                Command::YubiKeySetup
            } else {
                Command::Serve
            },
    {
        if self.yubikey_setup {
            Command::YubiKeySetup
        } else {
            Command::Serve
        }
    }
}

/// How far asking the login helper has come, with what the last step found.
pub enum HelperEvent {
    /// Nothing has been done yet.
    Start,
    /// The helper's socket was connected, or not.
    Connected(bool),
    /// A message with descriptors was received, or not.
    Received(bool),
    /// There was another descriptor, or none was left.
    Descriptor(bool),
    /// The descriptor was set to its start, or could not be.
    Rewound(bool),
    /// The descriptor was read to its end; `None` where that failed.
    Contents(Option<Vec<u8>>),
}

/// What asking the login helper does next.
pub enum HelperAction {
    /// Connect to the helper's socket.
    Connect,
    /// Receive one message with its descriptors.
    Receive,
    /// Take the next descriptor.
    TakeDescriptor,
    /// Set the descriptor to its start.
    Rewind,
    /// Read the descriptor to its end.
    ReadToEnd,
    /// The helper's secret, if it had a usable one.
    Finish(Option<Vec<u8>>),
}

/// The step that follows `event`.
pub open spec fn helper_next(event: HelperEvent) -> HelperAction {
    match event {
        HelperEvent::Start => HelperAction::Connect,
        HelperEvent::Connected(ok) => if ok {
            HelperAction::Receive
        } else {
            HelperAction::Finish(None)
        },
        HelperEvent::Received(ok) => if ok {
            HelperAction::TakeDescriptor
        } else {
            HelperAction::Finish(None)
        },
        HelperEvent::Descriptor(present) => if present {
            HelperAction::Rewind
        } else {
            HelperAction::Finish(None)
        },
        HelperEvent::Rewound(ok) => if ok {
            HelperAction::ReadToEnd
        } else {
            HelperAction::TakeDescriptor
        },
        HelperEvent::Contents(contents) => match contents {
            Some(secret) if secret@.len() > 0 => HelperAction::Finish(Some(secret)),
            _ => HelperAction::TakeDescriptor,
        },
    }
}

/// Asks the login helper for the secret, step by step: given what the last step
/// found, the next step. The secret is the contents of the first descriptor that
/// can be read and is not empty.
pub fn read_secret_from_login_helper(event: HelperEvent) -> (r: HelperAction)
    ensures
        r == helper_next(event),
{
    match event {
        HelperEvent::Start => HelperAction::Connect,
        HelperEvent::Connected(true) => HelperAction::Receive,
        HelperEvent::Connected(false) => HelperAction::Finish(None),
        HelperEvent::Received(true) => HelperAction::TakeDescriptor,
        HelperEvent::Received(false) => HelperAction::Finish(None),
        HelperEvent::Descriptor(true) => HelperAction::Rewind,
        HelperEvent::Descriptor(false) => HelperAction::Finish(None),
        HelperEvent::Rewound(true) => HelperAction::ReadToEnd,
        HelperEvent::Rewound(false) => HelperAction::TakeDescriptor,
        HelperEvent::Contents(Some(secret)) => {
            if secret.is_empty() {
                HelperAction::TakeDescriptor
            } else {
                HelperAction::Finish(Some(secret))
            }
        },
        HelperEvent::Contents(None) => HelperAction::TakeDescriptor,
    }
}

/// How far reading the credential has come, with what the last step found.
pub enum CredentialEvent {
    /// Nothing has been done yet; the credentials directory, where there is one.
    Start { directory: Option<Vec<u8>> },
    /// The credential was opened, or not, be it missing or unreadable.
    Opened(bool),
    /// The credential was read to its end; `None` where that failed.
    Contents(Option<Vec<u8>>),
}

/// What reading the credential does next.
pub enum CredentialAction {
    /// Open the credential.
    Open { path: Vec<u8> },
    /// Read the credential to its end.
    ReadToEnd,
    /// The credential's secret, if there is one. It may be empty.
    Finish(Option<Vec<u8>>),
}

/// What [`read_secret_from_credentials_directory`] may return.
pub open spec fn credential_returns(event: CredentialEvent, r: CredentialAction) -> bool {
    match event {
        CredentialEvent::Start { directory: Some(directory) } => {
            &&& r matches CredentialAction::Open { path }
            &&& path@ == crate::paths::joined(
                directory@,
                crate::text::ascii("oo7.keyring-encryption-password"@),
            )
        },
        CredentialEvent::Start { directory: None } => r == CredentialAction::Finish(None),
        CredentialEvent::Opened(ok) => r == if ok {
            CredentialAction::ReadToEnd
        } else {
            CredentialAction::Finish(None)
        },
        CredentialEvent::Contents(contents) => r == CredentialAction::Finish(contents),
    }
}

/// Reads the secret from the service manager's credentials, step by step: given
/// what the last step found, the next step.
pub fn read_secret_from_credentials_directory(event: CredentialEvent) -> (r: CredentialAction)
    ensures
        credential_returns(event, r),
        event matches CredentialEvent::Contents(contents) ==> r == CredentialAction::Finish(
            contents,
        ),
{
    match event {
        CredentialEvent::Start { directory: Some(directory) } => {
            CredentialAction::Open { path: credential_path(directory) }
        },
        CredentialEvent::Start { directory: None } => CredentialAction::Finish(None),
        CredentialEvent::Opened(true) => CredentialAction::ReadToEnd,
        CredentialEvent::Opened(false) => CredentialAction::Finish(None),
        CredentialEvent::Contents(contents) => CredentialAction::Finish(contents),
    }
}

/// What follows once the login helper has been asked.
pub enum PamAction {
    /// The helper's secret is the one to use.
    Use(Vec<u8>),
    /// Read the secret from the credentials directory.
    AskCredentials,
}

/// Prefers the login helper's secret to the credential.
pub fn read_secret_from_pam_or_credentials(helper: Option<Vec<u8>>) -> (r: PamAction)
    ensures
        r == match helper {
            Some(secret) => PamAction::Use(secret),
            None => PamAction::AskCredentials,
        },
{
    match helper {
        Some(secret) => PamAction::Use(secret),
        None => PamAction::AskCredentials,
    }
}

/// Why the service did not start.
#[derive(Clone, Copy, Debug, PartialEq, Eq, Structural)]
pub enum ServiceFailure {
    /// The secret does not open the keyring.
    IncorrectSecret,
    /// Another instance owns the bus name.
    NameTaken,
    /// Anything else.
    Other,
}

/// How far the start has come, with what the last step found. `None` and `false`
/// stand for a step that failed.
pub enum StartupEvent {
    /// Nothing has been done yet.
    Start,
    /// Unneeded capabilities were dropped.
    CapabilitiesDropped(bool),
    /// Whether stdin is a terminal.
    StdinChecked { terminal: bool },
    /// A password was asked for on the terminal.
    PasswordEntered(Option<String>),
    /// Stdin was read to its end.
    StdinRead(Option<Vec<u8>>),
    /// The master key was recovered with the YubiKey.
    YubiKeyUnlocked(Option<Vec<u8>>),
    /// The login helper was asked; `None` where it had no secret.
    HelperAsked(Option<Vec<u8>>),
    /// The credentials directory was asked; `None` where it had no secret.
    CredentialsAsked(Option<Vec<u8>>),
    /// The service runs.
    ServiceStarted,
    /// The service did not start.
    ServiceFailed(ServiceFailure),
    /// The daemon listens for termination signals.
    SignalsHandled(bool),
    /// The bus connection was lost or a signal arrived.
    Stopped,
}

/// How the daemon ends.
#[derive(Clone, Copy, Debug, PartialEq, Eq, Structural)]
pub enum Outcome {
    /// Successfully.
    Done,
    /// The password that was typed is empty.
    EmptyPassword,
    /// The credential holds the wrong password, which is not an error.
    WrongCredential,
    /// Another instance is running; the failure that the service reported.
    AlreadyRunning,
    /// The failure that the last step reported.
    StepFailed,
}

/// What the start does next.
pub enum StartupAction {
    /// Drop unneeded capabilities.
    DropCapabilities,
    /// Find out whether stdin is a terminal.
    CheckStdin,
    /// Ask for the login password on the terminal.
    PromptPassword,
    /// Read stdin to its end.
    ReadStdin,
    /// Recover the master key with the YubiKey.
    UnlockYubiKey,
    /// Ask the login helper.
    AskHelper,
    /// Ask the credentials directory.
    AskCredentials,
    /// Run the service, with the secret that unlocks the keyring where there is one.
    RunService { secret: Option<Secret>, replace: bool },
    /// Listen for termination signals.
    HandleSignals,
    /// Wait until the bus connection is lost or a signal arrives.
    AwaitStop,
    /// End.
    Exit(Outcome),
}

/// The step that runs the service with what a source of bytes gave.
pub open spec fn run_service(args: Args, secret: Option<Vec<u8>>) -> StartupAction {
    StartupAction::RunService {
        secret: match secret {
            Some(bytes) => Some(Secret::Blob(bytes)),
            None => None,
        },
        replace: args.replace,
    }
}

/// The step that follows `event`.
pub open spec fn startup_next(args: Args, event: StartupEvent) -> StartupAction {
    match event {
        StartupEvent::Start => StartupAction::DropCapabilities,
        StartupEvent::CapabilitiesDropped(ok) => if !ok {
            StartupAction::Exit(Outcome::StepFailed)
        } else if args.login {
            StartupAction::CheckStdin
        } else if args.yubikey {
            StartupAction::UnlockYubiKey
        } else {
            StartupAction::AskHelper
        },
        StartupEvent::StdinChecked { terminal } => if terminal {
            StartupAction::PromptPassword
        } else {
            StartupAction::ReadStdin
        },
        StartupEvent::PasswordEntered(password) => match password {
            Some(text) => if text@.len() == 0 {
                StartupAction::Exit(Outcome::EmptyPassword)
            } else {
                StartupAction::RunService {
                    secret: Some(Secret::Text(text)),
                    replace: args.replace,
                }
            },
            None => StartupAction::Exit(Outcome::StepFailed),
        },
        StartupEvent::StdinRead(bytes) | StartupEvent::YubiKeyUnlocked(bytes) => match bytes {
            Some(_) => run_service(args, bytes),
            None => StartupAction::Exit(Outcome::StepFailed),
        },
        StartupEvent::HelperAsked(secret) => match secret {
            Some(_) => run_service(args, secret),
            None => StartupAction::AskCredentials,
        },
        StartupEvent::CredentialsAsked(secret) => run_service(args, secret),
        StartupEvent::ServiceStarted => StartupAction::HandleSignals,
        StartupEvent::ServiceFailed(failure) => if failure == ServiceFailure::IncorrectSecret
            && !args.login {
            StartupAction::Exit(Outcome::WrongCredential)
        } else if failure == ServiceFailure::NameTaken && !args.replace {
            StartupAction::Exit(Outcome::AlreadyRunning)
        } else {
            StartupAction::Exit(Outcome::StepFailed)
        },
        StartupEvent::SignalsHandled(ok) => if ok {
            StartupAction::AwaitStop
        } else {
            StartupAction::Exit(Outcome::StepFailed)
        },
        StartupEvent::Stopped => StartupAction::Exit(Outcome::Done),
    }
}

/// Runs the daemon, step by step: given what the last step found, the next step.
pub fn inner_main(args: &Args, event: StartupEvent) -> (r: StartupAction)
    ensures
        r == startup_next(*args, event),
        r matches StartupAction::RunService { replace, .. } ==> replace == args.replace,
{
    match event {
        StartupEvent::Start => StartupAction::DropCapabilities,
        StartupEvent::CapabilitiesDropped(ok) => {
            if !ok {
                StartupAction::Exit(Outcome::StepFailed)
            } else if args.login {
                StartupAction::CheckStdin
            } else if args.yubikey {
                StartupAction::UnlockYubiKey
            } else {
                StartupAction::AskHelper
            }
        },
        StartupEvent::StdinChecked { terminal } => {
            if terminal {
                StartupAction::PromptPassword
            } else {
                StartupAction::ReadStdin
            }
        },
        StartupEvent::PasswordEntered(None) => StartupAction::Exit(Outcome::StepFailed),
        StartupEvent::PasswordEntered(Some(password)) => {
            if password.as_str().is_empty() {
                StartupAction::Exit(Outcome::EmptyPassword)
            } else {
                StartupAction::RunService {
                    secret: Some(Secret::Text(password)),
                    replace: args.replace,
                }
            }
        },
        StartupEvent::StdinRead(None) => StartupAction::Exit(Outcome::StepFailed),
        StartupEvent::StdinRead(Some(bytes)) => StartupAction::RunService {
            secret: Some(Secret::Blob(bytes)),
            replace: args.replace,
        },
        StartupEvent::YubiKeyUnlocked(None) => StartupAction::Exit(Outcome::StepFailed),
        StartupEvent::YubiKeyUnlocked(Some(master_key)) => StartupAction::RunService {
            secret: Some(Secret::Blob(master_key)),
            replace: args.replace,
        },
        StartupEvent::HelperAsked(helper) => match read_secret_from_pam_or_credentials(helper) {
            PamAction::Use(secret) => StartupAction::RunService {
                secret: Some(Secret::Blob(secret)),
                replace: args.replace,
            },
            PamAction::AskCredentials => StartupAction::AskCredentials,
        },
        StartupEvent::CredentialsAsked(None) => StartupAction::RunService {
            secret: None,
            replace: args.replace,
        },
        StartupEvent::CredentialsAsked(Some(secret)) => StartupAction::RunService {
            secret: Some(Secret::Blob(secret)),
            replace: args.replace,
        },
        StartupEvent::ServiceStarted => StartupAction::HandleSignals,
        StartupEvent::ServiceFailed(failure) => {
            if failure == ServiceFailure::IncorrectSecret && !args.login {
                StartupAction::Exit(Outcome::WrongCredential)
            } else if failure == ServiceFailure::NameTaken && !args.replace {
                StartupAction::Exit(Outcome::AlreadyRunning)
            } else {
                StartupAction::Exit(Outcome::StepFailed)
            }
        },
        StartupEvent::SignalsHandled(true) => StartupAction::AwaitStop,
        StartupEvent::SignalsHandled(false) => StartupAction::Exit(Outcome::StepFailed),
        StartupEvent::Stopped => StartupAction::Exit(Outcome::Done),
    }
}

impl Outcome {
    /// Tells whether the daemon ends without an error.
    pub fn is_success(self) -> (r: bool)
        ensures
            r == (self == Outcome::Done || self == Outcome::WrongCredential),
    {
        self == Outcome::Done || self == Outcome::WrongCredential
    }
}

/// A descriptor that the login helper sent.
pub struct Descriptor {
    pub rewinds: bool,
    pub contents: Option<Vec<u8>>,
}

impl Descriptor {
    /// The descriptor can be read and is not empty.
    pub open spec fn usable(self) -> bool {
        self.rewinds && self.contents is Some && self.contents->0@.len() > 0
    }
}

/// Where asking the login helper ends once it has sent `descriptors` and the
/// next step is to take the first of them.
pub open spec fn helper_end(descriptors: Seq<Descriptor>) -> HelperAction
    decreases descriptors.len(),
{
    match helper_next(HelperEvent::Descriptor(descriptors.len() > 0)) {
        HelperAction::Rewind if descriptors.len() > 0 => match helper_next(
            HelperEvent::Rewound(descriptors[0].rewinds),
        ) {
            HelperAction::TakeDescriptor => helper_end(descriptors.drop_first()),
            HelperAction::ReadToEnd => match helper_next(
                HelperEvent::Contents(descriptors[0].contents),
            ) {
                HelperAction::TakeDescriptor => helper_end(descriptors.drop_first()),
                last => last,
            },
            last => last,
        },
        last => last,
    }
}

/// `secret` is the contents of the first usable descriptor.
pub open spec fn first_usable(descriptors: Seq<Descriptor>, secret: Vec<u8>) -> bool {
    exists|i: int|
        {
            &&& 0 <= i < descriptors.len()
            &&& (#[trigger] descriptors[i]).usable()
            &&& descriptors[i].contents == Some(secret)
            &&& forall|j: int| 0 <= j < i ==> !(#[trigger] descriptors[j]).usable()
        }
}

/// The login helper's secret is the contents of the first usable descriptor: the
/// asking ends with it, or with nothing where no descriptor is usable.
pub proof fn helper_yields_first_usable(descriptors: Seq<Descriptor>)
    ensures
        helper_end(descriptors) matches HelperAction::Finish(found) && match found {
            Some(secret) => first_usable(descriptors, secret),
            None => forall|j: int|
                0 <= j < descriptors.len() ==> !(#[trigger] descriptors[j]).usable(),
        },
    decreases descriptors.len(),
{
    if descriptors.len() > 0 {
        let rest = descriptors.drop_first();
        assert(forall|j: int|
            0 < j < descriptors.len() ==> #[trigger] descriptors[j] == rest[j - 1]);
        if descriptors[0].usable() {
            assert(first_usable(descriptors, descriptors[0].contents->0));
        } else {
            helper_yields_first_usable(rest);
            if helper_end(rest)->Finish_0 is Some {
                let secret = helper_end(rest)->Finish_0->0;
                let i = choose|i: int|
                    {
                        &&& 0 <= i < rest.len()
                        &&& (#[trigger] rest[i]).usable()
                        &&& rest[i].contents == Some(secret)
                        &&& forall|j: int| 0 <= j < i ==> !(#[trigger] rest[j]).usable()
                    };
                assert(descriptors[i + 1] == rest[i]);
            }
        }
    }
}

/// What each step of gathering the secret would find.
pub struct Sources {
    pub capabilities_dropped: bool,
    pub terminal: bool,
    pub password: Option<String>,
    pub stdin: Option<Vec<u8>>,
    pub master_key: Option<Vec<u8>>,
    pub helper: Option<Vec<u8>>,
    pub credential: Option<Vec<u8>>,
}

/// What is reported once `action` has been performed, or `None` where the
/// gathering is over.
pub open spec fn gathered(sources: Sources, action: StartupAction) -> Option<StartupEvent> {
    match action {
        StartupAction::DropCapabilities => Some(
            StartupEvent::CapabilitiesDropped(sources.capabilities_dropped),
        ),
        StartupAction::CheckStdin => Some(
            StartupEvent::StdinChecked { terminal: sources.terminal },
        ),
        StartupAction::PromptPassword => Some(StartupEvent::PasswordEntered(sources.password)),
        StartupAction::ReadStdin => Some(StartupEvent::StdinRead(sources.stdin)),
        StartupAction::UnlockYubiKey => Some(StartupEvent::YubiKeyUnlocked(sources.master_key)),
        StartupAction::AskHelper => Some(StartupEvent::HelperAsked(sources.helper)),
        StartupAction::AskCredentials => Some(StartupEvent::CredentialsAsked(sources.credential)),
        _ => None,
    }
}

/// The step that comes up `steps` steps after `action`, or the last one where the
/// gathering is over before.
pub open spec fn advance(
    args: Args,
    sources: Sources,
    action: StartupAction,
    steps: nat,
) -> StartupAction
    decreases steps,
{
    match gathered(sources, action) {
        Some(event) if steps > 0 => advance(
            args,
            sources,
            startup_next(args, event),
            (steps - 1) as nat,
        ),
        _ => action,
    }
}

/// The service runs with these bytes, unless they could not be had.
pub open spec fn run_with(args: Args, bytes: Option<Vec<u8>>) -> StartupAction {
    if bytes is Some {
        run_service(args, bytes)
    } else {
        StartupAction::Exit(Outcome::StepFailed)
    }
}

/// The secret has one source. With `--login` it is the password typed on a
/// terminal, which must not be empty, or else what stdin holds. Otherwise, with
/// `--yubikey`, it is the recovered master key. Otherwise it is the login helper's
/// secret, or else the credential, or else there is none. A source that fails
/// ends the daemon.
pub proof fn secret_has_one_source(args: Args, sources: Sources, steps: nat)
    requires
        steps >= 3,
    ensures
        advance(args, sources, startup_next(args, StartupEvent::Start), steps) == (
        if !sources.capabilities_dropped {
            StartupAction::Exit(Outcome::StepFailed)
        } else if args.login && sources.terminal {
            match sources.password {
                None => StartupAction::Exit(Outcome::StepFailed),
                Some(text) => if text@.len() == 0 {
                    StartupAction::Exit(Outcome::EmptyPassword)
                } else {
                    StartupAction::RunService {
                        secret: Some(Secret::Text(text)),
                        replace: args.replace,
                    }
                },
            }
        } else if args.login {
            run_with(args, sources.stdin)
        } else if args.yubikey {
            run_with(args, sources.master_key)
        } else if sources.helper is Some {
            run_service(args, sources.helper)
        } else {
            run_service(args, sources.credential)
        }),
{
    reveal_with_fuel(advance, 4);
}

/// An empty password never reaches the service.
pub proof fn typed_password_is_not_empty(args: Args, event: StartupEvent)
    ensures
        startup_next(args, event) matches StartupAction::RunService {
            secret: Some(Secret::Text(text)),
            ..
        } ==> text@.len() > 0,
{
}

/// A service that does not start ends the daemon, and only a wrong secret that the
/// user did not ask to be used ends it without an error.
pub proof fn failed_service_ends_daemon(args: Args, failure: ServiceFailure)
    ensures
        startup_next(args, StartupEvent::ServiceFailed(failure)) matches StartupAction::Exit(
            outcome,
        ) && ((outcome == Outcome::Done || outcome == Outcome::WrongCredential) <==> (failure
            == ServiceFailure::IncorrectSecret && !args.login)),
{
}

/// Where asking the login helper ends, from the start: whether its socket can be
/// connected, whether a message is received, and the descriptors that come with it.
pub open spec fn helper_outcome(
    connected: bool,
    received: bool,
    descriptors: Seq<Descriptor>,
) -> HelperAction {
    match helper_next(HelperEvent::Start) {
        HelperAction::Connect => match helper_next(HelperEvent::Connected(connected)) {
            HelperAction::Receive => match helper_next(HelperEvent::Received(received)) {
                HelperAction::TakeDescriptor => helper_end(descriptors),
                last => last,
            },
            last => last,
        },
        last => last,
    }
}

/// A helper that answers yields the contents of the first descriptor that can be
/// rewound, can be read and is not empty, whatever they are; one that does not
/// answer, or has no such descriptor, yields nothing.
pub proof fn helper_yields_what_it_sent(
    connected: bool,
    received: bool,
    descriptors: Seq<Descriptor>,
)
    ensures
        helper_outcome(connected, received, descriptors) matches HelperAction::Finish(found)
            && match found {
            Some(secret) => {
                &&& connected && received
                &&& secret@.len() > 0
                &&& exists|i: int|
                    {
                        &&& 0 <= i < descriptors.len()
                        &&& (#[trigger] descriptors[i]).rewinds
                        &&& descriptors[i].contents == Some(secret)
                        &&& forall|j: int|
                            0 <= j < i ==> !((#[trigger] descriptors[j]).rewinds
                                && descriptors[j].contents is Some
                                && descriptors[j].contents->0@.len() > 0)
                    }
            },
            None => !connected || !received || forall|j: int|
                0 <= j < descriptors.len() ==> !((#[trigger] descriptors[j]).rewinds
                    && descriptors[j].contents is Some && descriptors[j].contents->0@.len() > 0),
        },
{
    helper_yields_first_usable(descriptors);
    match helper_end(descriptors) {
        HelperAction::Finish(Some(secret)) => {
            let i = choose|i: int|
                {
                    &&& 0 <= i < descriptors.len()
                    &&& (#[trigger] descriptors[i]).usable()
                    &&& descriptors[i].contents == Some(secret)
                    &&& forall|j: int| 0 <= j < i ==> !(#[trigger] descriptors[j]).usable()
                };
            assert(descriptors[i].rewinds);
        },
        _ => {},
    }
}

/// Reading the credential ends with exactly what the file holds. With a directory
/// set, the credential in it is opened; if it can be opened and read, its contents
/// are the secret, empty or not. There is no secret if and only if there is no
/// directory, or opening or reading failed.
pub proof fn credential_yields_its_contents(
    directory: Option<Vec<u8>>,
    opened: bool,
    contents: Option<Vec<u8>>,
    opening: CredentialAction,
    reading: CredentialAction,
    finishing: CredentialAction,
)
    requires
        credential_returns(CredentialEvent::Start { directory }, opening),
        opening is Open ==> credential_returns(CredentialEvent::Opened(opened), reading),
        reading is ReadToEnd ==> credential_returns(CredentialEvent::Contents(contents), finishing),
    ensures
        directory is None <==> opening == CredentialAction::Finish(None),
        directory matches Some(dir) ==> {
            &&& opening matches CredentialAction::Open { path }
            &&& path@.take(dir@.len() as int) == dir@
            &&& dir@.len() == 0 || dir@.last() == 0x2f ==> crate::text::spells(
                path@.skip(dir@.len() as int),
                "oo7.keyring-encryption-password"@,
            )
            &&& dir@.len() > 0 && dir@.last() != 0x2f ==> crate::text::spells(
                path@.skip(dir@.len() as int),
                "/oo7.keyring-encryption-password"@,
            )
            &&& opened <==> reading is ReadToEnd
            &&& !opened <==> reading == CredentialAction::Finish(None)
            &&& opened ==> finishing == CredentialAction::Finish(contents)
        },
{
    reveal_strlit("oo7.keyring-encryption-password");
    reveal_strlit("/oo7.keyring-encryption-password");
    match (directory, opening) {
        (Some(dir), CredentialAction::Open { path }) => {
            assert(path@.take(dir@.len() as int) =~= dir@);
        },
        _ => {},
    }
}

/// The service is run with `--replace` exactly as it was given, whatever else was
/// given and wherever the secret came from.
pub proof fn replace_reaches_the_service(args: Args, event: StartupEvent)
    ensures
        startup_next(args, event) matches StartupAction::RunService { replace, .. } ==> replace
            == args.replace,
{
}

/// What a source gave is the secret, whole and unchanged: bytes stay bytes and a
/// typed password stays a text. Bytes may be empty. A credential that is missing
/// lets the service run without a secret.
pub proof fn secret_reaches_the_service(args: Args, bytes: Vec<u8>, text: String)
    ensures
        forall|event: StartupEvent|
            (event == StartupEvent::StdinRead(Some(bytes)) || event
                == StartupEvent::YubiKeyUnlocked(Some(bytes)) || event == StartupEvent::HelperAsked(
                Some(bytes),
            ) || event == StartupEvent::CredentialsAsked(Some(bytes))) ==> #[trigger] startup_next(
                args,
                event,
            ) == (StartupAction::RunService {
                secret: Some(Secret::Blob(bytes)),
                replace: args.replace,
            }),
        text@.len() > 0 ==> startup_next(args, StartupEvent::PasswordEntered(Some(text))) == (
        StartupAction::RunService { secret: Some(Secret::Text(text)), replace: args.replace }),
        text@.len() == 0 ==> startup_next(args, StartupEvent::PasswordEntered(Some(text)))
            == StartupAction::Exit(Outcome::EmptyPassword),
        startup_next(args, StartupEvent::CredentialsAsked(None)) == (StartupAction::RunService {
            secret: None,
            replace: args.replace,
        }),
        startup_next(args, StartupEvent::HelperAsked(None)) is AskCredentials,
{
}

/// The service is run only once a source has been asked: no other event leads there.
pub proof fn service_needs_a_source(args: Args, event: StartupEvent)
    requires
        startup_next(args, event) is RunService,
    ensures
        event is PasswordEntered || event is StdinRead || event is YubiKeyUnlocked || event
            is HelperAsked || event is CredentialsAsked,
{
}

/// The command line alone picks the source, once the capabilities are dropped:
/// stdin with `--login`, a prompt if it is a terminal; the YubiKey with `--yubikey`
/// and without `--login`; the login helper with neither.
pub proof fn command_line_picks_source(args: Args, terminal: bool)
    ensures
        startup_next(args, StartupEvent::Start) is DropCapabilities,
        args.login <==> startup_next(args, StartupEvent::CapabilitiesDropped(true)) is CheckStdin,
        !args.login && args.yubikey <==> startup_next(
            args,
            StartupEvent::CapabilitiesDropped(true),
        ) is UnlockYubiKey,
        !args.login && !args.yubikey <==> startup_next(
            args,
            StartupEvent::CapabilitiesDropped(true),
        ) is AskHelper,
        terminal <==> startup_next(args, StartupEvent::StdinChecked { terminal }) is PromptPassword,
        !terminal <==> startup_next(args, StartupEvent::StdinChecked { terminal }) is ReadStdin,
{
}

/// A step that fails ends the daemon with the failure of that step.
pub proof fn failed_step_ends_daemon(args: Args, event: StartupEvent)
    requires
        event == StartupEvent::CapabilitiesDropped(false) || event
            == StartupEvent::PasswordEntered(None) || event == StartupEvent::StdinRead(None)
            || event == StartupEvent::YubiKeyUnlocked(None) || event
            == StartupEvent::SignalsHandled(false),
    ensures
        startup_next(args, event) == StartupAction::Exit(Outcome::StepFailed),
{
}

/// How each failure of the service ends the daemon: a wrong secret is forgiven
/// unless `--login` was given, a taken name is explained unless `--replace` was
/// given, and everything else is the failure that the service reported.
pub proof fn service_failure_is_explained(args: Args, failure: ServiceFailure)
    ensures
        startup_next(args, StartupEvent::ServiceFailed(failure)) matches StartupAction::Exit(
            outcome,
        ) && {
            &&& outcome == Outcome::WrongCredential <==> failure == ServiceFailure::IncorrectSecret
                && !args.login
            &&& outcome == Outcome::AlreadyRunning <==> failure == ServiceFailure::NameTaken
                && !args.replace
            &&& outcome == Outcome::StepFailed <==> failure == ServiceFailure::Other || (failure
                == ServiceFailure::IncorrectSecret && args.login) || (failure
                == ServiceFailure::NameTaken && args.replace)
        },
{
}

/// A service that has started serves until it is stopped, and the daemon then ends
/// successfully; success has no other way to come about but a forgiven secret.
pub proof fn daemon_serves_until_stopped(args: Args, event: StartupEvent)
    ensures
        startup_next(args, StartupEvent::ServiceStarted) is HandleSignals,
        startup_next(args, StartupEvent::SignalsHandled(true)) is AwaitStop,
        startup_next(args, StartupEvent::Stopped) == StartupAction::Exit(Outcome::Done),
        startup_next(args, event) == StartupAction::Exit(Outcome::Done) ==> event is Stopped,
{
}

/// The secret that the service is run with, from the command line and what each
/// source holds: the fields of the step that the gathering ends with.
pub proof fn service_runs_with_the_chosen_source(args: Args, sources: Sources, steps: nat)
    requires
        steps >= 3,
        sources.capabilities_dropped,
    ensures
        ({
            let last = advance(args, sources, startup_next(args, StartupEvent::Start), steps);
            let found = if args.login {
                sources.stdin
            } else if args.yubikey {
                sources.master_key
            } else if sources.helper is Some {
                sources.helper
            } else {
                sources.credential
            };
            &&& !(args.login && sources.terminal) ==> {
                &&& found matches Some(bytes) ==> last == (StartupAction::RunService {
                    secret: Some(Secret::Blob(bytes)),
                    replace: args.replace,
                })
                &&& found is None && (args.login || args.yubikey) ==> last == StartupAction::Exit(
                    Outcome::StepFailed,
                )
                &&& found is None && !args.login && !args.yubikey ==> last == (
                StartupAction::RunService { secret: None, replace: args.replace })
            }
            &&& args.login && sources.terminal ==> {
                &&& sources.password matches Some(text) ==> if text@.len() > 0 {
                    last == (StartupAction::RunService {
                        secret: Some(Secret::Text(text)),
                        replace: args.replace,
                    })
                } else {
                    last == StartupAction::Exit(Outcome::EmptyPassword)
                }
                &&& sources.password is None ==> last == StartupAction::Exit(Outcome::StepFailed)
            }
        }),
{
    reveal_with_fuel(advance, 4);
}

} // verus!
