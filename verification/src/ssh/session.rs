//! The course of one SSH connection: who is let in, and where the console is.
use crate::app::{VmEntry, VmRegistry};
use crate::decimal::decimal_text;
use crate::ssh::auth::parse_vm_id_from_username;
use crate::ssh::authorized_keys::{is_key_authorized, PublicKey};
use crate::text::{chars_of, starts_with, trim_text};
use vstd::prelude::*;

verus! {

/// Port on which the console of a guest listens.
pub const CONSOLE_PORT: u64 = 1024;

/// Whether a client is let in.
#[derive(Debug, Clone, Copy, PartialEq, Eq, Structural)]
pub enum Auth {
    Accept,
    Reject,
}

/// SSH session state for a single client connection.
#[derive(Debug)]
pub struct SessionHandler<C> {
    /// The VM whose console the client was let in to.
    pub vm_id: Option<u128>,
    /// The channel that was opened.
    pub channel_id: Option<C>,
    /// Whether the console is connected.
    pub connected: bool,
}

/// Where a shell leads: the VM's console socket, and the channel that it is tied to.
#[derive(Debug)]
pub struct ShellTarget<C> {
    pub vm_id: u128,
    pub channel_id: C,
    pub vsock_uds_path: String,
}

/// Whether the console of the VM is open to the key: the VM runs, and its list holds the key.
pub open spec fn admits<I>(vms: Map<u128, VmEntry<I>>, id: u128, blob: Seq<u8>) -> bool {
    &&& vms.contains_key(id)
    &&& vms[id] is Running
    &&& crate::ssh::authorized_keys::authorized(blob, vms[id].res().ssh_keys@)
}

/// Why no shell can be had, or the path of the console socket of the VM.
pub open spec fn console_path<I>(vms: Map<u128, VmEntry<I>>, id: u128) -> Result<
    Seq<char>,
    Seq<char>,
> {
    if !vms.contains_key(id) {
        Err("VM not found"@)
    } else if vms[id] is Creating {
        Err("VM is still creating"@)
    } else {
        match vms[id].res().vsock_uds_path {
            Some(path) => Ok(path@),
            None => Err("VM has no vsock configured"@),
        }
    }
}

impl<C: Copy> SessionHandler<C> {
    /// A connection on which nothing has happened yet.
    pub fn new() -> (r: SessionHandler<C>)
        ensures
            r.vm_id is None,
            r.channel_id is None,
            !r.connected,
    {
        SessionHandler { vm_id: None, channel_id: None, connected: false }
    }

    /// Lets a client in whose username names a running VM and whose key is on that VM's
    /// list. The session is then that VM's. A username with a malformed UUID is an error.
    pub fn auth_publickey<I>(
        &mut self,
        user: &str,
        key: &PublicKey,
        vms: &VmRegistry<I>,
    ) -> (r: Result<Auth, String>)
        ensures
            final(self).channel_id == old(self).channel_id,
            final(self).connected == old(self).connected,
            forall|id: u128|
                #![trigger crate::ssh::auth::console_username(id)]
                user@ == crate::ssh::auth::console_username(id) ==> if admits(
                    vms@,
                    id,
                    key.blob@,
                ) {
                    &&& r == Ok::<Auth, String>(Auth::Accept)
                    &&& final(self).vm_id == Some(id)
                } else {
                    &&& r == Ok::<Auth, String>(Auth::Reject)
                    &&& final(self).vm_id == old(self).vm_id
                },
            match crate::ssh::auth::username_vm(user@) {
                Err(e) => {
                    &&& r matches Err(msg) && msg@ == e
                    &&& final(self).vm_id == old(self).vm_id
                },
                Ok(None) => {
                    &&& r == Ok::<Auth, String>(Auth::Reject)
                    &&& final(self).vm_id == old(self).vm_id
                },
                Ok(Some(id)) => if admits(vms@, id, key.blob@) {
                    &&& r == Ok::<Auth, String>(Auth::Accept)
                    &&& final(self).vm_id == Some(id)
                } else {
                    &&& r == Ok::<Auth, String>(Auth::Reject)
                    &&& final(self).vm_id == old(self).vm_id
                },
            },
    {
        match parse_vm_id_from_username(user) {
            Err(msg) => Err(msg),
            Ok(None) => Ok(Auth::Reject),
            Ok(Some(id)) => Ok(self.auth_for_vm(id, key, vms)),
        }
    }

    /// Lets a client in to the given VM if it runs and the key is on its list.
    pub fn auth_for_vm<I>(&mut self, id: u128, key: &PublicKey, vms: &VmRegistry<I>) -> (r: Auth)
        ensures
            final(self).channel_id == old(self).channel_id,
            final(self).connected == old(self).connected,
            if admits(vms@, id, key.blob@) {
                r is Accept && final(self).vm_id == Some(id)
            } else {
                r is Reject && final(self).vm_id == old(self).vm_id
            },
    {
        match vms.entry(id) {
            Some(VmEntry::Running { resources, .. }) => match is_key_authorized(
                key,
                &resources.ssh_keys,
            ) {
                Ok(true) => {
                    self.vm_id = Some(id);
                    Auth::Accept
                },
                _ => Auth::Reject,
            },
            _ => Auth::Reject,
        }
    }

    /// Accepts a channel and remembers it.
    pub fn channel_open_session(&mut self, channel: C) -> (r: bool)
        ensures
            r,
            final(self).channel_id == Some(channel),
            final(self).vm_id == old(self).vm_id,
            final(self).connected == old(self).connected,
    {
        self.channel_id = Some(channel);
        true
    }

    /// Finds the console of the session's VM, which must run.
    pub fn shell_request<I>(&self, vms: &VmRegistry<I>) -> (r: Result<ShellTarget<C>, String>)
        ensures
            match (self.vm_id, self.channel_id) {
                (None, _) => r matches Err(msg) && msg@ == "No VM selected"@,
                (Some(_), None) => r matches Err(msg) && msg@ == "No channel"@,
                (Some(id), Some(channel)) => match console_path(vms@, id) {
                    Err(e) => r matches Err(msg) && msg@ == e,
                    Ok(path) => {
                        &&& r matches Ok(target)
                        &&& target.vm_id == id
                        &&& target.channel_id == channel
                        &&& target.vsock_uds_path@ == path
                    },
                },
            },
    {
        let vm_id: u128 = match self.vm_id {
            Some(id) => id,
            None => return Err("No VM selected".to_string()),
        };
        let channel_id = match self.channel_id {
            Some(channel) => channel,
            None => return Err("No channel".to_string()),
        };
        match vms.entry(vm_id) {
            None => Err("VM not found".to_string()),
            Some(VmEntry::Creating(_)) => Err("VM is still creating".to_string()),
            Some(VmEntry::Running { resources, .. }) => match &resources.vsock_uds_path {
                Some(path) => Ok(ShellTarget { vm_id, channel_id, vsock_uds_path: path.clone() }),
                None => Err("VM has no vsock configured".to_string()),
            },
        }
    }

    /// Ties the session to the console after the guest's answer to the handshake, if the
    /// answer accepts.
    pub fn connect(&mut self, response: &[u8]) -> (r: Result<(), HandshakeError>)
        ensures
            final(self).vm_id == old(self).vm_id,
            final(self).channel_id == old(self).channel_id,
            match r {
                Ok(()) => accepts_handshake(response@) && final(self).connected,
                Err(e) => {
                    &&& !accepts_handshake(response@)
                    &&& final(self).connected == old(self).connected
                    &&& if vstd::utf8::valid_utf8(response@) {
                        e matches HandshakeError::Refused(msg) && msg@
                            == "vsock handshake failed: "@ + crate::text::trimmed(
                            vstd::utf8::decode_utf8(response@),
                        )
                    } else {
                        e is NotText
                    }
                },
            },
    {
        match check_handshake(response) {
            Ok(()) => {
                self.connected = true;
                Ok(())
            },
            Err(e) => Err(e),
        }
    }

    /// What is passed on to the console of what the client typed: all of it once the console
    /// is connected, and nothing before.
    pub fn data(&self, data: &[u8]) -> (r: Option<Vec<u8>>)
        ensures
            match r {
                Some(bytes) => self.connected && bytes@ == data@,
                None => !self.connected,
            },
    {
        if !self.connected {
            return None;
        }
        let mut bytes: Vec<u8> = Vec::new();
        let mut i: usize = 0;
        while i < data.len()
            invariant
                i <= data@.len(),
                bytes@ == data@.take(i as int),
            decreases data@.len() - i,
        {
            bytes.push(data[i]);
            proof {
                assert(data@.take(i as int).push(data@[i as int]) =~= data@.take(i + 1));
            }
            i += 1;
        }
        proof {
            assert(data@.take(i as int) =~= data@);
        }
        Some(bytes)
    }

    /// What is sent to the console when the client's window changes: the escape sequence
    /// `ESC[8;<height>;<width>t` once the console is connected, and nothing before.
    pub fn window_change_request(&self, col_width: u32, row_height: u32) -> (r: Option<String>)
        ensures
            match r {
                Some(msg) => self.connected && msg@ == "\x1b[8;"@ + crate::decimal::decimal(
                    row_height as nat,
                ) + ";"@ + crate::decimal::decimal(col_width as nat) + "t"@,
                None => !self.connected,
            },
    {
        if !self.connected {
            return None;
        }
        let mut msg = "\x1b[8;".to_string();
        msg.append(decimal_text(row_height as u64).as_str());
        msg.append(";");
        msg.append(decimal_text(col_width as u64).as_str());
        msg.append("t");
        Some(msg)
    }
}

/// What is sent to the console socket to ask for the guest's console.
pub fn handshake() -> (r: String)
    ensures
        r@ == "CONNECT "@ + crate::decimal::decimal(CONSOLE_PORT as nat) + "\n"@,
{
    let mut msg = "CONNECT ".to_string();
    msg.append(decimal_text(CONSOLE_PORT).as_str());
    msg.append("\n");
    msg
}

/// Why the guest's console cannot be had.
#[derive(Debug)]
pub enum HandshakeError {
    /// The answer is no text.
    NotText,
    /// What is reported of an answer that does not accept.
    Refused(String),
}

/// Whether an answer to the handshake accepts: it is text that starts with `OK `.
pub open spec fn accepts_handshake(response: Seq<u8>) -> bool {
    &&& vstd::utf8::valid_utf8(response)
    &&& "OK "@.is_prefix_of(vstd::utf8::decode_utf8(response))
}

/// `std::str::from_utf8` gives the text that the bytes encode in UTF-8, or fails if they are
/// no valid UTF-8.
#[verifier::external_body]
fn utf8_text(bytes: &[u8]) -> (r: Option<String>)
    ensures
        match r {
            Some(text) => vstd::utf8::valid_utf8(bytes@) && text@ == vstd::utf8::decode_utf8(
                bytes@,
            ),
            None => !vstd::utf8::valid_utf8(bytes@),
        },
{
    std::str::from_utf8(bytes).ok().map(String::from)
}

/// Judges the answer to the handshake.
pub fn check_handshake(response: &[u8]) -> (r: Result<(), HandshakeError>)
    ensures
        match r {
            Ok(()) => accepts_handshake(response@),
            Err(e) => {
                &&& !accepts_handshake(response@)
                &&& if vstd::utf8::valid_utf8(response@) {
                    e matches HandshakeError::Refused(msg) && msg@ == "vsock handshake failed: "@
                        + crate::text::trimmed(vstd::utf8::decode_utf8(response@))
                } else {
                    e is NotText
                }
            },
        },
{
    let text = match utf8_text(response) {
        Some(text) => text,
        None => return Err(HandshakeError::NotText),
    };
    let chars = chars_of(text.as_str());
    if starts_with(&chars, "OK ") {
        Ok(())
    } else {
        let mut msg = "vsock handshake failed: ".to_string();
        msg.append(trim_text(text.as_str()).as_str());
        Err(HandshakeError::Refused(msg))
    }
}

/// Whether a line of the list is the key of these bytes.
pub open spec fn lists_key(list: Seq<String>, blob: Seq<u8>) -> bool {
    exists|i: int|
        0 <= i < list.len() && crate::ssh::authorized_keys::key_line(#[trigger] list[i]@)
            == crate::ssh::authorized_keys::KeyLine::Key(blob)
}

/// A client that names a VM is let in exactly if the VM runs and its list holds the client's
/// key. The session is then that VM's; otherwise it stays as it was.
pub proof fn listed_clients_are_let_in<C: Copy, I>(
    session: &mut SessionHandler<C>,
    user: &str,
    key: PublicKey,
    vms: VmRegistry<I>,
    id: u128,
    r: Result<Auth, String>,
)
    requires
        user@ == seq!['v', 'm', '-'] + crate::ids::hyphenated(id),
        call_ensures(
            SessionHandler::<C>::auth_publickey::<I>,
            (session, user, &key, &vms),
            r,
        ),
    ensures
        final(session).channel_id == old(session).channel_id,
        final(session).connected == old(session).connected,
        vms@.contains_key(id) && vms@[id] is Running && lists_key(
            vms@[id]->Running_resources.ssh_keys@,
            key.blob@,
        ) ==> r == Ok::<Auth, String>(Auth::Accept) && final(session).vm_id == Some(id),
        !(vms@.contains_key(id) && vms@[id] is Running && lists_key(
            vms@[id]->Running_resources.ssh_keys@,
            key.blob@,
        )) ==> r == Ok::<Auth, String>(Auth::Reject) && final(session).vm_id == old(session).vm_id,
{
    reveal_strlit("vm-");
    assert("vm-"@ =~= seq!['v', 'm', '-']);
    assert(user@ == crate::ssh::auth::console_username(id));
}

/// Whoever is let in named a VM that runs and whose list holds their key, and the session is
/// that VM's. A username that does not begin with `vm-` is rejected.
pub proof fn only_listed_clients_are_let_in<C: Copy, I>(
    session: &mut SessionHandler<C>,
    user: &str,
    key: PublicKey,
    vms: VmRegistry<I>,
    r: Result<Auth, String>,
)
    requires
        call_ensures(
            SessionHandler::<C>::auth_publickey::<I>,
            (session, user, &key, &vms),
            r,
        ),
    ensures
        r == Ok::<Auth, String>(Auth::Accept) ==> {
            &&& user@.len() >= 3 && user@.subrange(0, 3) == seq!['v', 'm', '-']
            &&& crate::ids::uuid_of(user@.skip(3)) matches Some(id)
            &&& final(session).vm_id == Some(id)
            &&& vms@.contains_key(id)
            &&& vms@[id] is Running
            &&& lists_key(vms@[id]->Running_resources.ssh_keys@, key.blob@)
        },
        r != Ok::<Auth, String>(Auth::Accept) ==> final(session).vm_id == old(session).vm_id,
        user@.len() < 3 || user@[0] != 'v' || user@[1] != 'm' || user@[2] != '-' ==> r == Ok::<
            Auth,
            String,
        >(Auth::Reject),
        r is Err ==> user@.len() >= 3 && crate::ids::uuid_of(user@.skip(3)) is None,
{
    reveal_strlit("vm-");
    assert("vm-"@ =~= seq!['v', 'm', '-']);
    if "vm-"@.is_prefix_of(user@) {
        assert(user@.subrange(0, 3)[0] == user@[0]);
        assert(user@.subrange(0, 3)[1] == user@[1]);
        assert(user@.subrange(0, 3)[2] == user@[2]);
    }
}

/// A client is let in to a VM exactly if the VM runs and its list holds the key.
pub proof fn running_vm_admits_listed_keys<C: Copy, I>(
    session: &mut SessionHandler<C>,
    id: u128,
    key: PublicKey,
    vms: VmRegistry<I>,
    r: Auth,
)
    requires
        call_ensures(SessionHandler::<C>::auth_for_vm::<I>, (session, id, &key, &vms), r),
    ensures
        r is Accept <==> vms@.contains_key(id) && vms@[id] is Running && lists_key(
            vms@[id]->Running_resources.ssh_keys@,
            key.blob@,
        ),
        r is Accept ==> final(session).vm_id == Some(id),
        r is Reject ==> final(session).vm_id == old(session).vm_id,
        final(session).channel_id == old(session).channel_id,
        final(session).connected == old(session).connected,
{
}

/// The shell of a session leads to the console socket of the session's own VM, if that runs and
/// has one, on the session's channel.
pub proof fn shell_leads_to_the_sessions_vm<C: Copy, I>(
    session: SessionHandler<C>,
    vms: VmRegistry<I>,
    r: Result<ShellTarget<C>, String>,
)
    requires
        call_ensures(SessionHandler::<C>::shell_request::<I>, (&session, &vms), r),
    ensures
        r is Ok <==> {
            &&& session.vm_id is Some
            &&& session.channel_id is Some
            &&& vms@.contains_key(session.vm_id->0)
            &&& vms@[session.vm_id->0] is Running
            &&& vms@[session.vm_id->0]->Running_resources.vsock_uds_path is Some
        },
        r matches Ok(target) ==> {
            &&& target.vm_id == session.vm_id->0
            &&& target.channel_id == session.channel_id->0
            &&& target.vsock_uds_path@
                == vms@[session.vm_id->0]->Running_resources.vsock_uds_path->0@
        },
        r matches Err(msg) ==> msg@ == if session.vm_id is None {
            "No VM selected"@
        } else if session.channel_id is None {
            "No channel"@
        } else if !vms@.contains_key(session.vm_id->0) {
            "VM not found"@
        } else if vms@[session.vm_id->0] is Creating {
            "VM is still creating"@
        } else {
            "VM has no vsock configured"@
        },
{
}

/// An answer to the handshake accepts exactly if it is text that begins with `OK` and a space,
/// whatever follows; only then is the session connected.
pub proof fn ok_connects<C: Copy>(
    session: &mut SessionHandler<C>,
    response: &[u8],
    r: Result<(), HandshakeError>,
    alone: Result<(), HandshakeError>,
)
    requires
        call_ensures(SessionHandler::<C>::connect, (session, response), r),
        call_ensures(check_handshake, (response,), alone),
    ensures
        r is Ok <==> {
            let text = vstd::utf8::decode_utf8(response@);
            &&& vstd::utf8::valid_utf8(response@)
            &&& text.len() >= 3
            &&& text[0] == 'O'
            &&& text[1] == 'K'
            &&& text[2] == ' '
        },
        alone is Ok <==> r is Ok,
        r is Ok ==> final(session).connected,
        r is Err ==> final(session).connected == old(session).connected,
        final(session).vm_id == old(session).vm_id,
        final(session).channel_id == old(session).channel_id,
        r matches Err(HandshakeError::NotText) ==> !vstd::utf8::valid_utf8(response@),
        r matches Err(HandshakeError::Refused(msg)) ==> msg@ == "vsock handshake failed: "@
            + crate::text::trimmed(vstd::utf8::decode_utf8(response@)),
{
    reveal_strlit("OK ");
    let text = vstd::utf8::decode_utf8(response@);
    if text.len() >= 3 {
        let front = text.subrange(0, 3);
        assert(front[0] == text[0] && front[1] == text[1] && front[2] == text[2]);
        if text[0] == 'O' && text[1] == 'K' && text[2] == ' ' {
            assert("OK "@ =~= front);
        }
    }
}

/// What the client types reaches the console unchanged once it is connected, and not before.
/// The size of its window is told, height first.
pub proof fn input_is_passed_on<C: Copy>(
    session: SessionHandler<C>,
    data: &[u8],
    width: u32,
    height: u32,
    r: Option<Vec<u8>>,
    w: Option<String>,
)
    requires
        call_ensures(SessionHandler::<C>::data, (&session, data), r),
        call_ensures(SessionHandler::<C>::window_change_request, (&session, width, height), w),
    ensures
        r is Some <==> session.connected,
        w is Some <==> session.connected,
        r matches Some(bytes) ==> bytes@ == data@,
        w matches Some(msg) ==> {
            &&& msg@[0] == '\x1b'
            &&& msg@.last() == 't'
            &&& crate::text::fields(msg@.subrange(1, msg@.len() - 1), ';') == seq![
                seq!['[', '8'],
                crate::decimal::decimal(height as nat),
                crate::decimal::decimal(width as nat),
            ]
        },
{
    if let Some(msg) = w {
        reveal_strlit("\x1b[8;");
        reveal_strlit(";");
        reveal_strlit("t");
        let h = crate::decimal::decimal(height as nat);
        let v = crate::decimal::decimal(width as nat);
        crate::decimal::decimal_digits(height as nat);
        crate::decimal::decimal_digits(width as nat);
        assert(!h.contains(';')) by {
            assert forall|i: int| 0 <= i < h.len() implies h[i] != ';' by {
                assert(crate::decimal::is_digit(h[i]));
            }
        }
        assert(!v.contains(';')) by {
            assert forall|i: int| 0 <= i < v.len() implies v[i] != ';' by {
                assert(crate::decimal::is_digit(v[i]));
            }
        }
        let semi = seq![';'];
        let front = seq!['[', '8'];
        let middle = msg@.subrange(1, msg@.len() - 1);
        assert(middle =~= front + semi + (h + semi + v));
        assert(!front.contains(';'));
        crate::text::first_field(front, ';', h + semi + v);
        crate::text::first_field(h, ';', v);
        crate::text::first_field(v, ';', Seq::empty());
        assert(crate::text::fields(middle, ';') =~= seq![front, h, v]);
    }
}

/// A connection begins with no VM, no channel and no console; a channel that is opened is
/// remembered, and changes nothing else.
pub proof fn connection_begins_empty<C: Copy>(
    fresh: SessionHandler<C>,
    session: &mut SessionHandler<C>,
    channel: C,
    r: bool,
)
    requires
        call_ensures(SessionHandler::<C>::new, (), fresh),
        call_ensures(SessionHandler::<C>::channel_open_session, (session, channel), r),
    ensures
        fresh.vm_id is None && fresh.channel_id is None && !fresh.connected,
        r,
        final(session).channel_id == Some(channel),
        final(session).vm_id == old(session).vm_id,
        final(session).connected == old(session).connected,
{
}

/// The guest's console is asked for on its port.
pub proof fn handshake_asks_for_the_console(r: String)
    requires
        call_ensures(handshake, (), r),
    ensures
        r@ == "CONNECT 1024\n"@,
{
    reveal_strlit("CONNECT ");
    reveal_strlit("\n");
    reveal_strlit("CONNECT 1024\n");
    reveal_with_fuel(crate::decimal::decimal, 5);
    assert(crate::decimal::decimal(1024) =~= seq!['1', '0', '2', '4']);
    assert(r@ =~= "CONNECT 1024\n"@);
}

/// A client whose username is `vm-` and an id, in whatever form ids are read, is let in exactly
/// if that VM runs and its list holds the key. Where no id can be read, that is an error, which
/// quotes what stands behind `vm-`.
pub proof fn every_form_of_id_is_taken<C: Copy, I>(
    session: &mut SessionHandler<C>,
    user: &str,
    rest: Seq<char>,
    key: PublicKey,
    vms: VmRegistry<I>,
    r: Result<Auth, String>,
)
    requires
        user@ == seq!['v', 'm', '-'] + rest,
        call_ensures(
            SessionHandler::<C>::auth_publickey::<I>,
            (session, user, &key, &vms),
            r,
        ),
    ensures
        crate::ids::uuid_of(rest) is None ==> {
            &&& r matches Err(msg) && msg@ == "Invalid VM UUID in username: "@ + rest
            &&& final(session).vm_id == old(session).vm_id
        },
        crate::ids::uuid_of(rest) is Some ==> {
            let id = crate::ids::uuid_of(rest)->0;
            let open = vms@.contains_key(id) && vms@[id] is Running && lists_key(
                vms@[id]->Running_resources.ssh_keys@,
                key.blob@,
            );
            &&& open ==> r == Ok::<Auth, String>(Auth::Accept) && final(session).vm_id == Some(id)
            &&& !open ==> r == Ok::<Auth, String>(Auth::Reject) && final(session).vm_id == old(
                session,
            ).vm_id
        },
{
    reveal_strlit("vm-");
    assert("vm-"@ =~= seq!['v', 'm', '-']);
    assert("vm-"@ =~= user@.subrange(0, 3));
    assert(user@.skip(3) =~= rest);
}

} // verus!
