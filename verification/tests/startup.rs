use oo7_daemon::startup::{
    inner_main, read_secret_from_credentials_directory, read_secret_from_login_helper,
    read_secret_from_pam_or_credentials, Args, Command, CredentialAction, CredentialEvent,
    HelperAction, HelperEvent, Outcome, PamAction, Secret, ServiceFailure, StartupAction,
    StartupEvent,
};

const PLAIN: Args = Args {
    login: false,
    replace: false,
    is_verbose: false,
    yubikey: false,
    yubikey_setup: false,
};

const LOGIN: Args = Args {
    login: true,
    replace: true,
    is_verbose: false,
    yubikey: true,
    yubikey_setup: false,
};

const YUBIKEY: Args = Args {
    login: false,
    replace: true,
    is_verbose: false,
    yubikey: true,
    yubikey_setup: false,
};

fn blob(action: StartupAction) -> (Option<Vec<u8>>, bool) {
    match action {
        StartupAction::RunService { secret, replace } => match secret {
            Some(Secret::Blob(bytes)) => (Some(bytes), replace),
            Some(Secret::Text(_)) => panic!("a text"),
            None => (None, replace),
        },
        _ => panic!("the service is not run"),
    }
}

fn outcome(args: &Args, event: StartupEvent) -> Outcome {
    match inner_main(args, event) {
        StartupAction::Exit(outcome) => outcome,
        _ => panic!("the daemon does not end"),
    }
}

#[test]
fn command_line_selects_setup() {
    assert_eq!(PLAIN.command(), Command::Serve);
    let mut args = PLAIN;
    args.yubikey_setup = true;
    assert_eq!(args.command(), Command::YubiKeySetup);
}

#[test]
fn source_follows_the_command_line() {
    assert!(matches!(
        inner_main(&PLAIN, StartupEvent::Start),
        StartupAction::DropCapabilities
    ));
    let next = |args: &Args| inner_main(args, StartupEvent::CapabilitiesDropped(true));
    assert!(matches!(next(&PLAIN), StartupAction::AskHelper));
    assert!(matches!(next(&YUBIKEY), StartupAction::UnlockYubiKey));
    assert!(matches!(next(&LOGIN), StartupAction::CheckStdin));
    assert!(matches!(
        inner_main(&LOGIN, StartupEvent::StdinChecked { terminal: true }),
        StartupAction::PromptPassword
    ));
    assert!(matches!(
        inner_main(&LOGIN, StartupEvent::StdinChecked { terminal: false }),
        StartupAction::ReadStdin
    ));
}

#[test]
fn typed_password_must_not_be_empty() {
    assert_eq!(
        outcome(&LOGIN, StartupEvent::PasswordEntered(Some(String::new()))),
        Outcome::EmptyPassword
    );
    let entered = StartupEvent::PasswordEntered(Some(String::from("pw")));
    match inner_main(&LOGIN, entered) {
        StartupAction::RunService {
            secret: Some(Secret::Text(text)),
            replace,
        } => {
            assert_eq!(text, "pw");
            assert!(replace);
        }
        _ => panic!("the password is not used"),
    }
}

#[test]
fn bytes_reach_the_service() {
    assert_eq!(
        blob(inner_main(&LOGIN, StartupEvent::StdinRead(Some(vec![])))),
        (Some(vec![]), true)
    );
    assert_eq!(
        blob(inner_main(
            &YUBIKEY,
            StartupEvent::YubiKeyUnlocked(Some(vec![1, 2]))
        )),
        (Some(vec![1, 2]), true)
    );
    assert_eq!(
        blob(inner_main(&PLAIN, StartupEvent::HelperAsked(Some(vec![3])))),
        (Some(vec![3]), false)
    );
    assert!(matches!(
        inner_main(&PLAIN, StartupEvent::HelperAsked(None)),
        StartupAction::AskCredentials
    ));
    assert_eq!(
        blob(inner_main(
            &PLAIN,
            StartupEvent::CredentialsAsked(Some(vec![4]))
        )),
        (Some(vec![4]), false)
    );
    assert_eq!(
        blob(inner_main(&PLAIN, StartupEvent::CredentialsAsked(None))),
        (None, false)
    );
}

#[test]
fn failed_steps_end_the_daemon() {
    for event in [
        StartupEvent::CapabilitiesDropped(false),
        StartupEvent::PasswordEntered(None),
        StartupEvent::StdinRead(None),
        StartupEvent::YubiKeyUnlocked(None),
        StartupEvent::SignalsHandled(false),
    ] {
        let end = outcome(&LOGIN, event);
        assert_eq!(end, Outcome::StepFailed);
        assert!(!end.is_success());
    }
}

#[test]
fn service_failures() {
    let end = |args: &Args, f: ServiceFailure| outcome(args, StartupEvent::ServiceFailed(f));
    let wrong = end(&PLAIN, ServiceFailure::IncorrectSecret);
    assert_eq!(wrong, Outcome::WrongCredential);
    assert!(wrong.is_success());
    assert_eq!(
        end(&LOGIN, ServiceFailure::IncorrectSecret),
        Outcome::StepFailed
    );
    let taken = end(&PLAIN, ServiceFailure::NameTaken);
    assert_eq!(taken, Outcome::AlreadyRunning);
    assert!(!taken.is_success());
    assert_eq!(end(&LOGIN, ServiceFailure::NameTaken), Outcome::StepFailed);
    assert_eq!(end(&PLAIN, ServiceFailure::Other), Outcome::StepFailed);
}

#[test]
fn running_service_waits_for_its_end() {
    assert!(matches!(
        inner_main(&PLAIN, StartupEvent::ServiceStarted),
        StartupAction::HandleSignals
    ));
    assert!(matches!(
        inner_main(&PLAIN, StartupEvent::SignalsHandled(true)),
        StartupAction::AwaitStop
    ));
    let end = outcome(&PLAIN, StartupEvent::Stopped);
    assert_eq!(end, Outcome::Done);
    assert!(end.is_success());
}

/// Asks a helper that sent the given descriptors: whether each can be rewound,
/// and what it holds.
fn ask(descriptors: Vec<(bool, Option<Vec<u8>>)>) -> (Option<Vec<u8>>, usize) {
    let mut taken: usize = 0;
    let mut event = HelperEvent::Start;
    loop {
        event = match read_secret_from_login_helper(event) {
            HelperAction::Connect => HelperEvent::Connected(true),
            HelperAction::Receive => HelperEvent::Received(true),
            HelperAction::TakeDescriptor => {
                taken += 1;
                HelperEvent::Descriptor(taken <= descriptors.len())
            }
            HelperAction::Rewind => HelperEvent::Rewound(descriptors[taken - 1].0),
            HelperAction::ReadToEnd => HelperEvent::Contents(descriptors[taken - 1].1.clone()),
            HelperAction::Finish(secret) => return (secret, taken),
        };
    }
}

#[test]
fn helper_secret_is_the_first_usable() {
    let end = ask(vec![
        (false, Some(vec![9])),
        (true, None),
        (true, Some(vec![])),
        (true, Some(vec![1, 2])),
        (true, Some(vec![3])),
    ]);
    assert_eq!(end, (Some(vec![1, 2]), 4));
    assert_eq!(ask(vec![(true, Some(vec![]))]), (None, 2));
    assert_eq!(ask(vec![]), (None, 1));
}

#[test]
fn unreachable_helper_has_no_secret() {
    assert!(matches!(
        read_secret_from_login_helper(HelperEvent::Connected(false)),
        HelperAction::Finish(None)
    ));
    assert!(matches!(
        read_secret_from_login_helper(HelperEvent::Received(false)),
        HelperAction::Finish(None)
    ));
}

#[test]
fn credential_is_read_from_its_directory() {
    let start = CredentialEvent::Start {
        directory: Some(b"/c".to_vec()),
    };
    match read_secret_from_credentials_directory(start) {
        CredentialAction::Open { path } => {
            assert_eq!(path, b"/c/oo7.keyring-encryption-password".to_vec())
        }
        _ => panic!("nothing is opened"),
    }
    assert!(matches!(
        read_secret_from_credentials_directory(CredentialEvent::Opened(true)),
        CredentialAction::ReadToEnd
    ));
    match read_secret_from_credentials_directory(CredentialEvent::Contents(Some(vec![]))) {
        CredentialAction::Finish(secret) => assert_eq!(secret, Some(vec![])),
        _ => panic!("the credential is not used"),
    }
}

#[test]
fn missing_credential_is_no_secret() {
    for event in [
        CredentialEvent::Start { directory: None },
        CredentialEvent::Opened(false),
        CredentialEvent::Contents(None),
    ] {
        assert!(matches!(
            read_secret_from_credentials_directory(event),
            CredentialAction::Finish(None)
        ));
    }
}

#[test]
fn helper_is_preferred_to_credentials() {
    match read_secret_from_pam_or_credentials(Some(vec![5])) {
        PamAction::Use(secret) => assert_eq!(secret, vec![5]),
        PamAction::AskCredentials => panic!("the helper is ignored"),
    }
    assert!(matches!(
        read_secret_from_pam_or_credentials(None),
        PamAction::AskCredentials
    ));
}
