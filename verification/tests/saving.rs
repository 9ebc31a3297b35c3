use oo7_daemon::paths::{credential_path, login_helper_socket, tmp_path_for, wrapped_key_path};
use oo7_daemon::save::{SaveAction, SaveEvent, SavePlan, SaveStage};
use oo7_daemon::wrapped_key::{WrappedKey, SLOT};

fn sample() -> WrappedKey {
    WrappedKey {
        slot: SLOT,
        serial: 0xDEAD_BEEF,
        card_pub: [0x11; 33],
        epk: [0x22; 33],
        nonce: [0x33; 12],
        ct: [0x44; 48],
    }
}

fn plan(path: &str, parent: Option<&str>) -> SavePlan {
    let parent = parent.map(|p| p.as_bytes().to_vec());
    sample().save_plan(path.as_bytes().to_vec(), parent, 77)
}

/// Performs the plan on two files in memory; `fails` names the step that fails.
fn perform(
    plan: &SavePlan,
    old: Option<Vec<u8>>,
    fails: SaveAction,
) -> (Option<Vec<u8>>, Option<Vec<u8>>, SaveAction) {
    let mut target = old;
    let mut temp: Option<Vec<u8>> = None;
    let mut action = plan.next(SaveEvent::Start);
    loop {
        let ok = action != fails;
        let event = match action {
            SaveAction::CreateDirectory => SaveEvent::DirectoryCreated(ok),
            SaveAction::CreateTemp => {
                if ok {
                    temp = Some(vec![]);
                }
                SaveEvent::TempCreated(ok)
            }
            SaveAction::Write => {
                let len = if ok { plan.data.len() } else { 50 };
                temp = Some(plan.data[..len].to_vec());
                SaveEvent::Written(ok)
            }
            SaveAction::Sync => SaveEvent::Synced(ok),
            SaveAction::RemoveTemp(stage) => {
                temp = None;
                SaveEvent::TempRemoved(stage)
            }
            SaveAction::Rename => {
                if ok {
                    target = temp.take();
                }
                SaveEvent::Renamed(ok)
            }
            SaveAction::Saved | SaveAction::Failed(_) => return (target, temp, action),
        };
        action = plan.next(event);
    }
}

#[test]
fn file_is_written_0600() {
    let plan = plan("/data/oo7/perm.bin", Some("/data/oo7"));
    let mode = plan.mode & 0o777;
    assert_eq!(mode, 0o600);
}

#[test]
fn plan_names_files_and_data() {
    let plan = plan("/data/oo7/key.bin", Some("/data/oo7"));
    assert_eq!(plan.directory, Some(b"/data/oo7".to_vec()));
    assert_eq!(plan.tmp, b"/data/oo7/key.bin.tmp-77".to_vec());
    assert_eq!(plan.path, b"/data/oo7/key.bin".to_vec());
    assert_eq!(plan.data, sample().write());
}

#[test]
fn empty_parent_is_not_created() {
    assert_eq!(plan("key.bin", Some("")).directory, None);
    assert_eq!(plan("key.bin", None).directory, None);
    assert_eq!(
        plan("key.bin", Some("")).next(SaveEvent::Start),
        SaveAction::CreateTemp
    );
    assert_eq!(
        plan("a/key.bin", Some("a")).next(SaveEvent::Start),
        SaveAction::CreateDirectory
    );
}

#[test]
fn saving_replaces_the_file() {
    for parent in [None, Some("a")] {
        let plan = plan("a/key.bin", parent);
        let end = perform(&plan, Some(vec![1, 2, 3]), SaveAction::Saved);
        assert_eq!(end, (Some(sample().write()), None, SaveAction::Saved));
        let read = WrappedKey::read(&end.0.unwrap()).unwrap();
        assert_eq!(read.serial, 0xDEAD_BEEF);
        assert_eq!(read.ct, [0x44; 48]);
    }
}

#[test]
fn file_reaches_the_disk_before_it_is_renamed() {
    let plan = plan("a/key.bin", Some("a"));
    assert_eq!(plan.next(SaveEvent::Written(true)), SaveAction::Sync);
    assert_eq!(plan.next(SaveEvent::Synced(true)), SaveAction::Rename);
    assert_eq!(
        plan.next(SaveEvent::Synced(false)),
        SaveAction::RemoveTemp(SaveStage::Sync)
    );
}

#[test]
fn failure_keeps_the_old_file() {
    let plan = plan("a/key.bin", Some("a"));
    let old = Some(vec![1u8, 2, 3]);
    let cases = vec![
        (SaveAction::CreateDirectory, SaveStage::CreateDirectory),
        (SaveAction::CreateTemp, SaveStage::CreateTemp),
        (SaveAction::Write, SaveStage::Write),
        (SaveAction::Sync, SaveStage::Sync),
    ];
    for (fails, stage) in cases {
        let end = perform(&plan, old.clone(), fails);
        assert_eq!(end, (old.clone(), None, SaveAction::Failed(stage)));
    }
    let (target, temp, last) = perform(&plan, old.clone(), SaveAction::Rename);
    assert_eq!(target, old);
    assert_eq!(temp, Some(sample().write()));
    assert_eq!(last, SaveAction::Failed(SaveStage::Rename));
}

#[test]
fn temporary_file_lies_beside() {
    assert_eq!(tmp_path_for(b"/x/y", 0), b"/x/y.tmp-0".to_vec());
    assert_eq!(
        tmp_path_for(b"k\xff", 4294967295),
        b"k\xff.tmp-4294967295".to_vec()
    );
}

#[test]
fn key_path_prefers_xdg() {
    let bytes = |s: &str| Some(s.as_bytes().to_vec());
    let path = |xdg: Option<Vec<u8>>, home: Option<Vec<u8>>| {
        String::from_utf8(wrapped_key_path(xdg, home)).unwrap()
    };
    assert_eq!(
        path(bytes("/d"), bytes("/home/u")),
        "/d/oo7/yubikey-master-key.bin"
    );
    assert_eq!(
        path(bytes("/d/"), None),
        "/d/oo7/yubikey-master-key.bin"
    );
    assert_eq!(
        path(None, bytes("/home/u")),
        "/home/u/.local/share/oo7/yubikey-master-key.bin"
    );
    assert_eq!(path(None, None), "./oo7/yubikey-master-key.bin");
    assert_eq!(path(bytes(""), bytes("/h")), "oo7/yubikey-master-key.bin");
    assert_eq!(
        path(None, bytes("")),
        ".local/share/oo7/yubikey-master-key.bin"
    );
}

#[test]
fn key_path_is_joined_as_std_joins() {
    for dir in ["", "/", "a", "a/", "/a//", "a/./b", ".."] {
        let expected = std::path::PathBuf::from(dir)
            .join("oo7")
            .join("yubikey-master-key.bin");
        let path = wrapped_key_path(Some(dir.as_bytes().to_vec()), None);
        assert_eq!(String::from_utf8(path).unwrap(), expected.to_str().unwrap());
    }
}

#[test]
fn daemon_paths() {
    assert_eq!(
        login_helper_socket(1000),
        b"/run/user/1000/oo7-daemon-login.sock".to_vec()
    );
    assert_eq!(
        login_helper_socket(0),
        b"/run/user/0/oo7-daemon-login.sock".to_vec()
    );
    assert_eq!(
        credential_path(b"/run/credentials/oo7.service".to_vec()),
        b"/run/credentials/oo7.service/oo7.keyring-encryption-password".to_vec()
    );
}
