//! Which VM an SSH user asks for.
use crate::ids::parse_id;
use crate::text::{chars_of, part, starts_with, string_of};
use vstd::prelude::*;

verus! {

/// The part of a username that names the VM: what follows `vm-`.
pub open spec fn vm_name(username: Seq<char>) -> Option<Seq<char>> {
    if "vm-"@.is_prefix_of(username) {
        Some(username.skip(3))
    } else {
        None
    }
}

/// The VM that a username asks for: none if it has another format, and an error if what
/// follows `vm-` is no UUID.
pub open spec fn username_vm(username: Seq<char>) -> Result<Option<u128>, Seq<char>> {
    match vm_name(username) {
        None => Ok(None),
        Some(name) => match crate::ids::uuid_of(name) {
            Some(id) => Ok(Some(id)),
            None => Err("Invalid VM UUID in username: "@ + name),
        },
    }
}

/// The username of a VM's console.
pub open spec fn console_username(id: u128) -> Seq<char> {
    "vm-"@ + crate::ids::hyphenated(id)
}

/// Judges a name that was read as a UUID, or not.
pub fn require_vm_id(uuid_str: &str, parsed: Option<u128>) -> (r: Result<u128, String>)
    ensures
        match parsed {
            Some(id) => r == Ok::<u128, String>(id),
            None => r matches Err(msg) && msg@ == "Invalid VM UUID in username: "@ + uuid_str@,
        },
{
    match parsed {
        Some(id) => Ok(id),
        None => {
            let mut msg = "Invalid VM UUID in username: ".to_string();
            msg.append(uuid_str);
            Err(msg)
        },
    }
}

/// Parse VM ID from SSH username.
///
/// Expected format: `vm-{uuid}`
///
/// Returns:
/// - `Ok(Some(uuid))` if username matches `vm-{uuid}` format
/// - `Ok(None)` if username doesn't match (will reject auth)
/// - `Err(_)` if UUID parsing fails
pub fn parse_vm_id_from_username(username: &str) -> (r: Result<Option<u128>, String>)
    ensures
        match r {
            Ok(id) => username_vm(username@) == Ok::<Option<u128>, Seq<char>>(id),
            Err(msg) => username_vm(username@) == Err::<Option<u128>, Seq<char>>(msg@),
        },
        forall|id: u128|
            #![trigger console_username(id)]
            username@ == console_username(id) ==> r == Ok::<Option<u128>, String>(Some(id)),
{
    proof {
        reveal_strlit("vm-");
        assert forall|id: u128| username@ == #[trigger] console_username(id) implies vm_name(
            username@,
        ) == Some(crate::ids::hyphenated(id)) by {
            assert("vm-"@ =~= username@.subrange(0, 3));
            assert(username@.skip(3) =~= crate::ids::hyphenated(id));
        }
    }
    let chars = chars_of(username);
    if !starts_with(&chars, "vm-") {
        return Ok(None);
    }
    let name = string_of(&part(&chars, 3, chars.len()));
    proof {
        assert(name@ =~= username@.skip(3));
    }
    match require_vm_id(name.as_str(), parse_id(name.as_str())) {
        Ok(id) => Ok(Some(id)),
        Err(msg) => Err(msg),
    }
}

/// A username asks for a VM exactly if it begins with `vm-`; what follows is read as the VM's
/// id. Where the id cannot be read the error quotes what follows.
pub proof fn usernames_ask_for_vms(
    user: &str,
    rest: Seq<char>,
    r: Result<Option<u128>, String>,
)
    requires
        call_ensures(parse_vm_id_from_username, (user,), r),
    ensures
        user@ == seq!['v', 'm', '-'] + rest ==> match crate::ids::uuid_of(rest) {
            Some(id) => r == Ok::<Option<u128>, String>(Some(id)),
            None => r matches Err(msg) && msg@ == "Invalid VM UUID in username: "@ + rest,
        },
        user@.len() < 3 || user@[0] != 'v' || user@[1] != 'm' || user@[2] != '-' ==> r == Ok::<
            Option<u128>,
            String,
        >(None),
        forall|id: u128|
            user@ == seq!['v', 'm', '-'] + #[trigger] crate::ids::hyphenated(id) ==> r == Ok::<
                Option<u128>,
                String,
            >(Some(id)),
{
    reveal_strlit("vm-");
    assert("vm-"@ =~= seq!['v', 'm', '-']);
    if user@ == seq!['v', 'm', '-'] + rest {
        assert("vm-"@ =~= user@.subrange(0, 3));
        assert(user@.skip(3) =~= rest);
    }
    if "vm-"@.is_prefix_of(user@) {
        assert(user@.subrange(0, 3)[0] == user@[0]);
        assert(user@.subrange(0, 3)[1] == user@[1]);
        assert(user@.subrange(0, 3)[2] == user@[2]);
    }
    assert forall|id: u128|
        user@ == seq!['v', 'm', '-'] + #[trigger] crate::ids::hyphenated(id) implies r == Ok::<
        Option<u128>,
        String,
    >(Some(id)) by {
        assert(user@ == console_username(id));
    }
}

/// A name that was read as an id is that id; one that was not is quoted.
pub proof fn unread_ids_are_quoted(
    name: &str,
    id: u128,
    r: Result<u128, String>,
    s: Result<u128, String>,
)
    requires
        call_ensures(require_vm_id, (name, Some(id)), r),
        call_ensures(require_vm_id, (name, None::<u128>), s),
    ensures
        r == Ok::<u128, String>(id),
        s matches Err(msg) && msg@ == "Invalid VM UUID in username: "@ + name@,
{
}

} // verus!
