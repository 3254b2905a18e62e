//! Reports to a gateway that coordinates several workers. The gateway is optional, and
//! nothing but these reports depends on it.
use crate::command::{failure, Failure};
use crate::ids::id_text;
use vstd::prelude::*;

verus! {

/// Seconds between two heartbeats.
pub const HEARTBEAT_SECONDS: u64 = 30;

/// Seconds after which a request to the gateway is given up.
pub const REQUEST_TIMEOUT_SECONDS: u64 = 5;

/// A gateway, and this worker as the gateway knows it.
#[derive(Debug, Clone)]
pub struct GatewayClient {
    pub base_url: String,
    pub worker_id: String,
    pub worker_ip: String,
}

/// What was found out about the host's name.
#[derive(Debug)]
pub enum Hostname {
    Unknown,
    NotUtf8,
    Name(String),
}

/// How a request is made.
#[derive(Debug, Clone, Copy, PartialEq, Eq, Structural)]
pub enum Method {
    Post,
    Delete,
}

/// What a request carries.
#[derive(Debug)]
pub enum GatewayBody {
    Nothing,
    WorkerRegistration { worker_id: String, ip_address: String },
    VmRegistration { vm_id: String, worker_id: String },
}

/// A request to the gateway, and what is reported if it cannot be sent or is refused.
#[derive(Debug)]
pub struct GatewayRequest {
    pub method: Method,
    pub url: String,
    pub body: GatewayBody,
    pub not_sent: &'static str,
    pub refused: &'static str,
}

/// What came of a request to the gateway.
#[derive(Debug, Clone, Copy, PartialEq, Eq, Structural)]
pub enum GatewayReply {
    NotSent,
    /// The gateway answered with this HTTP status.
    Answered(u16),
}

/// The worker's id: the one that is set, or the host's name.
pub open spec fn worker_name(worker_id: Option<String>, hostname: Hostname) -> Option<Seq<char>> {
    match worker_id {
        Some(id) => Some(id@),
        None => match hostname {
            Hostname::Name(name) => Some(name@),
            _ => None,
        },
    }
}

impl GatewayClient {
    /// Creates a gateway client from the values of the environment variables `GATEWAY_URL`,
    /// `WORKER_ID` and `WORKER_IP` and from the host's name.
    ///
    /// There is none if `GATEWAY_URL` is not set (gateway is optional). If it is set,
    /// `WORKER_IP` must also be set; `WORKER_ID` defaults to the host's name.
    pub fn new(
        gateway_url: Option<String>,
        worker_id: Option<String>,
        hostname: Hostname,
        worker_ip: Option<String>,
    ) -> (r: Result<Option<GatewayClient>, Failure>)
        ensures
            gateway_url is Some && worker_id is Some && worker_ip is Some ==> (r matches Ok(
                Some(client),
            ) && client.base_url@ == gateway_url->0@ && client.worker_id@ == worker_id->0@
                && client.worker_ip@ == worker_ip->0@),
            worker_id is None ==> (r matches Ok(Some(client)) ==> hostname matches Hostname::Name(
                name,
            ) && client.worker_id@ == name@),
            match gateway_url {
                None => r matches Ok(None),
                Some(url) => match worker_name(worker_id, hostname) {
                    None => r matches Err(f) && f.says(
                        "WORKER_ID not set and hostname detection failed - set WORKER_ID explicitly"@,
                        if hostname is Unknown {
                            "Failed to get hostname"@
                        } else {
                            "Hostname contains invalid UTF-8"@
                        },
                    ),
                    Some(name) => match worker_ip {
                        None => r matches Err(f) && f.says(
                            "WORKER_IP must be set when GATEWAY_URL is configured"@,
                            ""@,
                        ),
                        Some(ip) => {
                            &&& r matches Ok(Some(client))
                            &&& client.base_url@ == url@
                            &&& client.worker_id@ == name
                            &&& client.worker_ip@ == ip@
                        },
                    },
                },
            },
    {
        let base_url = match gateway_url {
            Some(url) => url,
            None => return Ok(None),
        };
        let worker_id = match worker_id {
            Some(id) => id,
            None => match hostname {
                Hostname::Name(name) => name,
                Hostname::Unknown => return Err(
                    failure(
                        "WORKER_ID not set and hostname detection failed - set WORKER_ID explicitly",
                        "Failed to get hostname".to_string(),
                    ),
                ),
                Hostname::NotUtf8 => return Err(
                    failure(
                        "WORKER_ID not set and hostname detection failed - set WORKER_ID explicitly",
                        "Hostname contains invalid UTF-8".to_string(),
                    ),
                ),
            },
        };
        match worker_ip {
            Some(worker_ip) => Ok(Some(GatewayClient { base_url, worker_id, worker_ip })),
            None => Err(
                failure(
                    "WORKER_IP must be set when GATEWAY_URL is configured",
                    "".to_string(),
                ),
            ),
        }
    }

    /// The request that registers this worker with the gateway.
    pub fn register(&self) -> (r: GatewayRequest)
        ensures
            r.method is Post,
            r.url@ == self.base_url@ + "/worker/register"@,
            r.body matches GatewayBody::WorkerRegistration { worker_id, ip_address } && worker_id@
                == self.worker_id@ && ip_address@ == self.worker_ip@,
            r.not_sent@ == "Failed to register with gateway"@,
            r.refused@ == "Gateway returned error on registration"@,
    {
        let mut url = self.base_url.clone();
        url.append("/worker/register");
        GatewayRequest {
            method: Method::Post,
            url,
            body: GatewayBody::WorkerRegistration {
                worker_id: self.worker_id.clone(),
                ip_address: self.worker_ip.clone(),
            },
            not_sent: "Failed to register with gateway",
            refused: "Gateway returned error on registration",
        }
    }

    /// The request that tells the gateway that this worker is alive.
    pub fn heartbeat(&self) -> (r: GatewayRequest)
        ensures
            r.method is Post,
            r.url@ == self.base_url@ + "/worker/"@ + self.worker_id@ + "/heartbeat"@,
            r.body is Nothing,
            r.not_sent@ == "Failed to send heartbeat"@,
            r.refused@ == "Gateway returned error on heartbeat"@,
    {
        let mut url = self.base_url.clone();
        url.append("/worker/");
        url.append(self.worker_id.as_str());
        url.append("/heartbeat");
        GatewayRequest {
            method: Method::Post,
            url,
            body: GatewayBody::Nothing,
            not_sent: "Failed to send heartbeat",
            refused: "Gateway returned error on heartbeat",
        }
    }

    /// The request that registers a VM with the gateway.
    pub fn register_vm(&self, vm_id: u128) -> (r: GatewayRequest)
        ensures
            r.method is Post,
            r.url@ == self.base_url@ + "/vm/register"@,
            r.body matches GatewayBody::VmRegistration { vm_id: id, worker_id } && id@
                == crate::ids::hyphenated(vm_id) && worker_id@ == self.worker_id@,
            r.not_sent@ == "Failed to register VM with gateway"@,
            r.refused@ == "Gateway returned error on VM registration"@,
    {
        let mut url = self.base_url.clone();
        url.append("/vm/register");
        GatewayRequest {
            method: Method::Post,
            url,
            body: GatewayBody::VmRegistration {
                vm_id: id_text(vm_id),
                worker_id: self.worker_id.clone(),
            },
            not_sent: "Failed to register VM with gateway",
            refused: "Gateway returned error on VM registration",
        }
    }

    /// The request that deregisters a VM from the gateway.
    pub fn deregister_vm(&self, vm_id: u128) -> (r: GatewayRequest)
        ensures
            r.method is Delete,
            r.url@ == self.base_url@ + "/vm/"@ + crate::ids::hyphenated(vm_id),
            r.body is Nothing,
            r.not_sent@ == "Failed to deregister VM from gateway"@,
            r.refused@ == "Gateway returned error on VM deregistration"@,
    {
        let mut url = self.base_url.clone();
        url.append("/vm/");
        url.append(id_text(vm_id).as_str());
        GatewayRequest {
            method: Method::Delete,
            url,
            body: GatewayBody::Nothing,
            not_sent: "Failed to deregister VM from gateway",
            refused: "Gateway returned error on VM deregistration",
        }
    }
}

impl GatewayRequest {
    /// Judges what came of the request: it succeeded unless it was not sent, or the answer's
    /// status is that of a client or server error.
    pub fn conclude(&self, reply: GatewayReply) -> (r: Result<(), String>)
        ensures
            match reply {
                GatewayReply::NotSent => r matches Err(msg) && msg@ == self.not_sent@,
                GatewayReply::Answered(status) => if 400 <= status < 600 {
                    r matches Err(msg) && msg@ == self.refused@
                } else {
                    r is Ok
                },
            },
    {
        match reply {
            GatewayReply::NotSent => Err(self.not_sent.to_string()),
            GatewayReply::Answered(status) => if 400 <= status && status < 600 {
                Err(self.refused.to_string())
            } else {
                Ok(())
            },
        }
    }
}

/// A worker id that is set is the worker's name, whatever the host is called.
pub proof fn set_worker_id_counts(
    url: String,
    id: String,
    hostname: Hostname,
    ip: String,
    r: Result<Option<GatewayClient>, Failure>,
)
    requires
        call_ensures(GatewayClient::new, (Some(url), Some(id), hostname, Some(ip)), r),
    ensures
        r matches Ok(Some(client)) && client.base_url@ == url@ && client.worker_id@ == id@
            && client.worker_ip@ == ip@,
{
}

/// Without a worker id the worker goes by the host's name, and must have one.
pub proof fn hostname_stands_in(
    url: String,
    hostname: Hostname,
    ip: Option<String>,
    r: Result<Option<GatewayClient>, Failure>,
)
    requires
        call_ensures(GatewayClient::new, (Some(url), None::<String>, hostname, ip), r),
    ensures
        r matches Ok(Some(client)) ==> client.base_url@ == url@ && hostname == Hostname::Name(
            hostname->Name_0,
        ) && client.worker_id@ == hostname->Name_0@ && ip is Some && client.worker_ip@ == ip->0@,
        r is Ok ==> r->Ok_0 is Some,
        r is Ok <==> hostname is Name && ip is Some,
{
}

/// Without a gateway's address there is no client and no error, whatever else is set. With one
/// there is a client or an error; the worker's address must be set.
pub proof fn gateway_is_optional(
    url: Option<String>,
    id: Option<String>,
    hostname: Hostname,
    ip: Option<String>,
    r: Result<Option<GatewayClient>, Failure>,
)
    requires
        call_ensures(GatewayClient::new, (url, id, hostname, ip), r),
    ensures
        url is None <==> r == Ok::<Option<GatewayClient>, Failure>(None),
        r matches Ok(Some(client)) ==> url is Some && ip is Some && (id is Some || hostname is Name),
        url is Some && ip is Some && (id is Some || hostname is Name) ==> r is Ok,
        r is Err <==> url is Some && (ip is None || (id is None && !(hostname is Name))),
{
}

/// All requests go to the gateway under its address, and tell of this worker: registration and
/// heartbeats by its id, VMs by the id of the VM and that of the worker.
pub proof fn requests_tell_of_this_worker(
    client: GatewayClient,
    vm: u128,
    registration: GatewayRequest,
    heartbeat: GatewayRequest,
    entry: GatewayRequest,
    removal: GatewayRequest,
)
    requires
        call_ensures(GatewayClient::register, (&client,), registration),
        call_ensures(GatewayClient::heartbeat, (&client,), heartbeat),
        call_ensures(GatewayClient::register_vm, (&client, vm), entry),
        call_ensures(GatewayClient::deregister_vm, (&client, vm), removal),
    ensures
        client.base_url@.is_prefix_of(registration.url@),
        client.base_url@.is_prefix_of(heartbeat.url@),
        client.base_url@.is_prefix_of(entry.url@),
        client.base_url@.is_prefix_of(removal.url@),
        registration.url@.skip(client.base_url@.len() as int) == "/worker/register"@,
        heartbeat.url@.skip(client.base_url@.len() as int) == "/worker/"@ + client.worker_id@
            + "/heartbeat"@,
        entry.url@.skip(client.base_url@.len() as int) == "/vm/register"@,
        removal.url@.skip(client.base_url@.len() as int) == "/vm/"@ + crate::ids::hyphenated(vm),
        registration.method is Post && heartbeat.method is Post && entry.method is Post,
        removal.method is Delete,
        registration.body matches GatewayBody::WorkerRegistration { worker_id, ip_address }
            && worker_id@ == client.worker_id@ && ip_address@ == client.worker_ip@,
        entry.body matches GatewayBody::VmRegistration { vm_id, worker_id } && vm_id@
            == crate::ids::hyphenated(vm) && worker_id@ == client.worker_id@,
        heartbeat.body is Nothing && removal.body is Nothing,
{
    let base = client.base_url@;
    let n = base.len() as int;
    assert(base =~= registration.url@.subrange(0, n));
    assert(base =~= heartbeat.url@.subrange(0, n));
    assert(base =~= entry.url@.subrange(0, n));
    assert(base =~= removal.url@.subrange(0, n));
    assert(registration.url@.skip(n) =~= "/worker/register"@);
    assert(heartbeat.url@.skip(n) =~= "/worker/"@ + client.worker_id@ + "/heartbeat"@);
    assert(entry.url@.skip(n) =~= "/vm/register"@);
    assert(removal.url@.skip(n) =~= "/vm/"@ + crate::ids::hyphenated(vm));
}

/// A request failed exactly if it was not sent or was answered with a status from 400 to 599.
pub proof fn refused_requests_fail(
    request: GatewayRequest,
    reply: GatewayReply,
    r: Result<(), String>,
)
    requires
        call_ensures(GatewayRequest::conclude, (&request, reply), r),
    ensures
        r is Err <==> (reply is NotSent || 400 <= reply->Answered_0 < 600),
        r matches Err(msg) ==> msg@ == if reply is NotSent {
            request.not_sent@
        } else {
            request.refused@
        },
{
}

/// What is reported of a request that was not sent, or refused, names the request; the gateway
/// hears of the worker every 30 seconds, and is given 5 to answer.
pub proof fn requests_are_told_apart(
    client: GatewayClient,
    vm: u128,
    registration: GatewayRequest,
    heartbeat: GatewayRequest,
    entry: GatewayRequest,
    removal: GatewayRequest,
)
    requires
        call_ensures(GatewayClient::register, (&client,), registration),
        call_ensures(GatewayClient::heartbeat, (&client,), heartbeat),
        call_ensures(GatewayClient::register_vm, (&client, vm), entry),
        call_ensures(GatewayClient::deregister_vm, (&client, vm), removal),
    ensures
        registration.not_sent@ == "Failed to register with gateway"@,
        registration.refused@ == "Gateway returned error on registration"@,
        heartbeat.not_sent@ == "Failed to send heartbeat"@,
        heartbeat.refused@ == "Gateway returned error on heartbeat"@,
        entry.not_sent@ == "Failed to register VM with gateway"@,
        entry.refused@ == "Gateway returned error on VM registration"@,
        removal.not_sent@ == "Failed to deregister VM from gateway"@,
        removal.refused@ == "Gateway returned error on VM deregistration"@,
        HEARTBEAT_SECONDS == 30,
        REQUEST_TIMEOUT_SECONDS == 5,
{
}

/// A client that cannot be made says what is missing.
pub proof fn missing_settings_are_named(
    url: String,
    id: Option<String>,
    hostname: Hostname,
    ip: Option<String>,
    r: Result<Option<GatewayClient>, Failure>,
)
    requires
        call_ensures(GatewayClient::new, (Some(url), id, hostname, ip), r),
    ensures
        id is None && hostname is Unknown ==> (r matches Err(f) && f.context@
            == "WORKER_ID not set and hostname detection failed - set WORKER_ID explicitly"@
            && f.cause@ == "Failed to get hostname"@),
        id is None && hostname is NotUtf8 ==> (r matches Err(f) && f.context@
            == "WORKER_ID not set and hostname detection failed - set WORKER_ID explicitly"@
            && f.cause@ == "Hostname contains invalid UTF-8"@),
        (id is Some || hostname is Name) && ip is None ==> (r matches Err(f) && f.context@
            == "WORKER_IP must be set when GATEWAY_URL is configured"@),
{
}

} // verus!
