//! Where files and sockets are found. Paths are Unix paths, as bytes.

use crate::text::{push_ascii, push_decimal_bytes};
use vstd::prelude::*;
use vstd::string::*;

verus! {

/// The byte that separates the components of a path: `/`.
pub const SEPARATOR: u8 = 47;

/// The relative path `name` inside the directory `base`. A separator goes
/// between the two unless `base` is empty or ends with one.
pub open spec fn joined(base: Seq<u8>, name: Seq<u8>) -> Seq<u8> {
    if base.len() == 0 || base.last() == SEPARATOR {
        base + name
    } else {
        base.push(SEPARATOR) + name
    }
}

/// Appends the relative path `name` to the directory `base`.
fn join(base: &mut Vec<u8>, name: &str)
    requires
        is_ascii(name),
    ensures
        final(base)@ == joined(old(base)@, crate::text::ascii(name@)),
{
    let len: usize = base.len();
    if len > 0 && base[len - 1] != SEPARATOR {
        base.push(SEPARATOR);
    }
    push_ascii(base, name);
}

/// The user's data directory: `XDG_DATA_HOME`, or else `.local/share` below
/// `HOME`, or else the current directory.
pub open spec fn data_directory(
    xdg_data_home: Option<Seq<u8>>,
    home: Option<Seq<u8>>,
) -> Seq<u8> {
    match (xdg_data_home, home) {
        (Some(dir), _) => dir,
        (None, Some(home)) => joined(home, crate::text::ascii(".local/share"@)),
        (None, None) => crate::text::ascii("."@),
    }
}

/// The bytes of an environment variable that may not be set.
pub open spec fn variable(value: Option<Vec<u8>>) -> Option<Seq<u8>> {
    match value {
        Some(bytes) => Some(bytes@),
        None => None,
    }
}

/// Where the wrapped key is kept, given the environment variables
/// `XDG_DATA_HOME` and `HOME`.
pub open spec fn key_path(xdg_data_home: Option<Seq<u8>>, home: Option<Seq<u8>>) -> Seq<u8> {
    joined(
        joined(data_directory(xdg_data_home, home), crate::text::ascii("oo7"@)),
        crate::text::ascii("yubikey-master-key.bin"@),
    )
}

/// Where the wrapped key is kept, given the environment variables
/// `XDG_DATA_HOME` and `HOME`.
pub fn wrapped_key_path(xdg_data_home: Option<Vec<u8>>, home: Option<Vec<u8>>) -> (r: Vec<u8>)
    ensures
        r@ == joined(
            joined(
                data_directory(variable(xdg_data_home), variable(home)),
                crate::text::ascii("oo7"@),
            ),
            crate::text::ascii("yubikey-master-key.bin"@),
        ),
        xdg_data_home matches Some(dir) ==> r@ == key_path(Some(dir@), None),
        xdg_data_home is None ==> (home matches Some(home) ==> r@ == key_path(None, Some(home@))),
        xdg_data_home is None && home is None ==> r@ == key_path(None, None),
{
    proof {
        reveal_strlit(".local/share");
        reveal_strlit(".");
        reveal_strlit("oo7");
        reveal_strlit("yubikey-master-key.bin");
    }
    let mut path: Vec<u8> = match xdg_data_home {
        Some(dir) => dir,
        None => match home {
            Some(home) => {
                let mut dir = home;
                join(&mut dir, ".local/share");
                dir
            },
            None => {
                let mut dir: Vec<u8> = Vec::new();
                push_ascii(&mut dir, ".");
                assert(dir@ =~= crate::text::ascii("."@));
                dir
            },
        },
    };
    join(&mut path, "oo7");
    join(&mut path, "yubikey-master-key.bin");
    path
}

/// The temporary file through which the process `pid` replaces `path`.
pub open spec fn tmp_path(path: Seq<u8>, pid: u32) -> Seq<u8> {
    path + crate::text::ascii(".tmp-"@) + crate::text::ascii(crate::text::decimal(pid as nat))
}

/// The temporary file through which the process `pid` replaces `path`.
pub fn tmp_path_for(path: &[u8], pid: u32) -> (r: Vec<u8>)
    ensures
        r@ == tmp_path(path@, pid),
{
    proof {
        reveal_strlit(".tmp-");
    }
    let mut tmp: Vec<u8> = Vec::new();
    tmp.extend_from_slice(path);
    push_ascii(&mut tmp, ".tmp-");
    push_decimal_bytes(&mut tmp, pid);
    assert(tmp@ =~= tmp_path(path@, pid));
    tmp
}

/// The temporary file lies in the same directory as the file it replaces, under
/// another name: it extends the path, and what it adds holds no separator.
pub proof fn tmp_path_is_beside(path: Seq<u8>, pid: u32)
    ensures
        tmp_path(path, pid).len() > path.len(),
        tmp_path(path, pid).take(path.len() as int) == path,
        forall|i: int|
            path.len() <= i < tmp_path(path, pid).len() ==> #[trigger] tmp_path(path, pid)[i]
                != SEPARATOR,
{
    reveal_strlit(".tmp-");
    crate::text::decimal_is_digits(pid as nat);
    let tmp = tmp_path(path, pid);
    let digits = crate::text::decimal(pid as nat);
    assert(tmp.take(path.len() as int) =~= path);
    assert forall|i: int| path.len() <= i < tmp.len() implies #[trigger] tmp[i] != SEPARATOR by {
        if i >= path.len() + 5 {
            assert(tmp[i] == digits[i - path.len() - 5] as u8);
        } else {
            assert(tmp[i] == ".tmp-"@[i - path.len()] as u8);
        }
    }
}

/// Two processes never write to the same temporary file, and what tells them apart
/// is the process number, in decimal behind `.tmp-`.
pub proof fn tmp_path_names_process(path: Seq<u8>, pid: u32, other: u32)
    ensures
        crate::text::spells(
            tmp_path(path, pid).subrange(path.len() as int, path.len() + 5int),
            ".tmp-"@,
        ),
        crate::text::spells(
            tmp_path(path, pid).skip(path.len() + 5int),
            crate::text::decimal(pid as nat),
        ),
        pid != other ==> tmp_path(path, pid) != tmp_path(path, other),
{
    reveal_strlit(".tmp-");
    let digits = crate::text::decimal(pid as nat);
    let others = crate::text::decimal(other as nat);
    let tail = tmp_path(path, pid).skip(path.len() + 5int);
    assert(tail =~= crate::text::ascii(digits));
    if tmp_path(path, pid) == tmp_path(path, other) {
        crate::text::decimal_is_digits(pid as nat);
        crate::text::decimal_is_digits(other as nat);
        assert(tail =~= crate::text::ascii(others));
        assert forall|i: int| 0 <= i < digits.len() implies digits[i] == others[i] by {
            assert(tail[i] == digits[i] as u8 && tail[i] == others[i] as u8);
        }
        assert(digits =~= others);
        crate::text::decimal_tells_numbers_apart(pid as nat, other as nat);
    }
}

/// Joining puts the name behind the directory, with one separator between the two
/// unless the directory is empty or ends with one.
pub proof fn joined_keeps_both(base: Seq<u8>, name: Seq<u8>)
    ensures
        base.len() == 0 ==> joined(base, name) == name,
        base.len() > 0 && base.last() == 0x2f ==> joined(base, name) == base + name,
        base.len() > 0 && base.last() != 0x2f ==> joined(base, name) == base + seq![0x2fu8] + name,
{
    if base.len() == 0 {
        assert(joined(base, name) =~= name);
    } else {
        assert(joined(base, name) =~= if base.last() == 0x2f {
            base + name
        } else {
            base + seq![0x2fu8] + name
        });
    }
}

/// `XDG_DATA_HOME` always wins: the key then lies in that directory, under
/// `oo7/yubikey-master-key.bin`, whatever `HOME` is.
pub proof fn xdg_data_home_wins(dir: Seq<u8>, home: Option<Seq<u8>>, other: Option<Seq<u8>>)
    ensures
        key_path(Some(dir), home) == key_path(Some(dir), other),
        key_path(Some(dir), home).take(dir.len() as int) == dir,
        dir.len() == 0 || dir.last() == 0x2f ==> crate::text::spells(
            key_path(Some(dir), home).skip(dir.len() as int),
            "oo7/yubikey-master-key.bin"@,
        ),
        dir.len() > 0 && dir.last() != 0x2f ==> crate::text::spells(
            key_path(Some(dir), home).skip(dir.len() as int),
            "/oo7/yubikey-master-key.bin"@,
        ),
{
    reveal_strlit("oo7");
    reveal_strlit("yubikey-master-key.bin");
    reveal_strlit("oo7/yubikey-master-key.bin");
    reveal_strlit("/oo7/yubikey-master-key.bin");
    assert(key_path(Some(dir), home).take(dir.len() as int) =~= dir);
}

/// Without `XDG_DATA_HOME` the key lies below `HOME`, in the data directory that
/// `XDG_DATA_HOME` would have to name for the same path.
pub proof fn home_is_second(home: Seq<u8>)
    ensures
        key_path(None, Some(home)).take(home.len() as int) == home,
        home.len() == 0 || home.last() == 0x2f ==> crate::text::spells(
            key_path(None, Some(home)).skip(home.len() as int),
            ".local/share/oo7/yubikey-master-key.bin"@,
        ),
        home.len() > 0 && home.last() != 0x2f ==> crate::text::spells(
            key_path(None, Some(home)).skip(home.len() as int),
            "/.local/share/oo7/yubikey-master-key.bin"@,
        ),
{
    reveal_strlit("oo7");
    reveal_strlit("yubikey-master-key.bin");
    reveal_strlit(".local/share");
    reveal_strlit(".local/share/oo7/yubikey-master-key.bin");
    reveal_strlit("/.local/share/oo7/yubikey-master-key.bin");
    assert(key_path(None, Some(home)).take(home.len() as int) =~= home);
}

/// Without either variable the key lies below the current directory.
pub proof fn current_directory_is_last()
    ensures
        crate::text::spells(key_path(None, None), "./oo7/yubikey-master-key.bin"@),
{
    reveal_strlit("oo7");
    reveal_strlit("yubikey-master-key.bin");
    reveal_strlit(".");
    reveal_strlit("./oo7/yubikey-master-key.bin");
}

/// The socket on which the login helper of the user `uid` listens.
pub open spec fn socket_path(uid: u32) -> Seq<u8> {
    crate::text::ascii("/run/user/"@) + crate::text::ascii(crate::text::decimal(uid as nat))
        + crate::text::ascii("/oo7-daemon-login.sock"@)
}

/// Each user has a socket of their own: it lies in `/run/user`, in the directory
/// that the user's number names in decimal, as `oo7-daemon-login.sock`.
pub proof fn socket_names_user(uid: u32, other: u32)
    ensures
        ({
            let digits = crate::text::decimal(uid as nat);
            &&& socket_path(uid).len() == 10 + digits.len() + 22
            &&& crate::text::spells(socket_path(uid).take(10), "/run/user/"@)
            &&& crate::text::spells(socket_path(uid).subrange(10, 10 + digits.len() as int), digits)
            &&& crate::text::spells(
                socket_path(uid).skip(10 + digits.len() as int),
                "/oo7-daemon-login.sock"@,
            )
        }),
        uid != other ==> socket_path(uid) != socket_path(other),
{
    reveal_strlit("/run/user/");
    reveal_strlit("/oo7-daemon-login.sock");
    let digits = crate::text::decimal(uid as nat);
    let others = crate::text::decimal(other as nat);
    let middle = socket_path(uid).subrange(10, 10 + digits.len() as int);
    assert(middle =~= crate::text::ascii(digits));
    if socket_path(uid) == socket_path(other) {
        crate::text::decimal_is_digits(uid as nat);
        crate::text::decimal_is_digits(other as nat);
        assert(digits.len() == others.len());
        assert(middle =~= crate::text::ascii(others));
        assert forall|i: int| 0 <= i < digits.len() implies digits[i] == others[i] by {
            assert(middle[i] == digits[i] as u8 && middle[i] == others[i] as u8);
        }
        assert(digits =~= others);
        crate::text::decimal_tells_numbers_apart(uid as nat, other as nat);
    }
}

/// The socket on which the login helper of the user `uid` listens.
pub fn login_helper_socket(uid: u32) -> (r: Vec<u8>)
    ensures
        r@ == crate::text::ascii("/run/user/"@) + crate::text::ascii(
            crate::text::decimal(uid as nat),
        ) + crate::text::ascii("/oo7-daemon-login.sock"@),
        r@ == socket_path(uid),
{
    proof {
        reveal_strlit("/run/user/");
        reveal_strlit("/oo7-daemon-login.sock");
    }
    let mut path: Vec<u8> = Vec::new();
    push_ascii(&mut path, "/run/user/");
    push_decimal_bytes(&mut path, uid);
    push_ascii(&mut path, "/oo7-daemon-login.sock");
    assert(path@ =~= crate::text::ascii("/run/user/"@) + crate::text::ascii(
        crate::text::decimal(uid as nat),
    ) + crate::text::ascii("/oo7-daemon-login.sock"@));
    path
}

/// The credential that holds the keyring password, inside the directory that the
/// service manager hands over.
pub fn credential_path(directory: Vec<u8>) -> (r: Vec<u8>)
    ensures
        r@ == joined(directory@, crate::text::ascii("oo7.keyring-encryption-password"@)),
{
    proof {
        reveal_strlit("oo7.keyring-encryption-password");
    }
    let mut path = directory;
    join(&mut path, "oo7.keyring-encryption-password");
    path
}

} // verus!
