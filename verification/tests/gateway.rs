use warlock::gateway_client::{
    GatewayBody, GatewayClient, GatewayReply, Hostname, Method, HEARTBEAT_SECONDS,
    REQUEST_TIMEOUT_SECONDS,
};

fn text(s: &str) -> Option<String> {
    Some(s.to_string())
}

fn client() -> GatewayClient {
    GatewayClient::new(text("http://gw"), text("w1"), Hostname::Unknown, text("10.0.0.9"))
        .unwrap()
        .unwrap()
}

const ID: u128 = 0x00112233_4455_6677_8899_aabbccddeeff;

#[test]
fn gateway_is_optional() {
    assert!(GatewayClient::new(None, None, Hostname::Unknown, None).unwrap().is_none());
    assert_eq!(HEARTBEAT_SECONDS, 30);
    assert_eq!(REQUEST_TIMEOUT_SECONDS, 5);
}

#[test]
fn worker_id_defaults_to_the_hostname() {
    let c = GatewayClient::new(
        text("http://gw"),
        None,
        Hostname::Name("host7".to_string()),
        text("10.0.0.9"),
    )
    .unwrap()
    .unwrap();
    assert_eq!(c.worker_id, "host7");
}

#[test]
fn incomplete_configuration_is_refused() {
    let f = GatewayClient::new(text("u"), None, Hostname::Unknown, text("i")).err().unwrap();
    assert_eq!(
        f.context,
        "WORKER_ID not set and hostname detection failed - set WORKER_ID explicitly"
    );
    assert_eq!(f.cause, "Failed to get hostname");
    let f = GatewayClient::new(text("u"), None, Hostname::NotUtf8, text("i")).err().unwrap();
    assert_eq!(f.cause, "Hostname contains invalid UTF-8");
    let f = GatewayClient::new(text("u"), text("w"), Hostname::Unknown, None).err().unwrap();
    assert_eq!(f.context, "WORKER_IP must be set when GATEWAY_URL is configured");
}

#[test]
fn worker_is_registered() {
    let r = client().register();
    assert_eq!(r.method, Method::Post);
    assert_eq!(r.url, "http://gw/worker/register");
    assert!(matches!(
        r.body,
        GatewayBody::WorkerRegistration { ref worker_id, ref ip_address }
            if worker_id == "w1" && ip_address == "10.0.0.9"
    ));
    assert_eq!(
        r.conclude(GatewayReply::NotSent),
        Err("Failed to register with gateway".to_string())
    );
    assert_eq!(
        r.conclude(GatewayReply::Answered(503)),
        Err("Gateway returned error on registration".to_string())
    );
    assert_eq!(r.conclude(GatewayReply::Answered(200)), Ok(()));
    assert_eq!(r.conclude(GatewayReply::Answered(399)), Ok(()));
    assert!(r.conclude(GatewayReply::Answered(400)).is_err());
}

#[test]
fn heartbeat_names_the_worker() {
    let r = client().heartbeat();
    assert_eq!(r.method, Method::Post);
    assert_eq!(r.url, "http://gw/worker/w1/heartbeat");
    assert!(matches!(r.body, GatewayBody::Nothing));
}

#[test]
fn vms_are_registered_and_deregistered() {
    let r = client().register_vm(ID);
    assert_eq!(r.url, "http://gw/vm/register");
    assert!(matches!(
        r.body,
        GatewayBody::VmRegistration { ref vm_id, ref worker_id }
            if vm_id == "00112233-4455-6677-8899-aabbccddeeff" && worker_id == "w1"
    ));
    let r = client().deregister_vm(ID);
    assert_eq!(r.method, Method::Delete);
    assert_eq!(r.url, "http://gw/vm/00112233-4455-6677-8899-aabbccddeeff");
    assert_eq!(
        r.conclude(GatewayReply::Answered(404)),
        Err("Gateway returned error on VM deregistration".to_string())
    );
}
