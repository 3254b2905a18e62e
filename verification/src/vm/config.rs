//! VM sizes and the cgroup limits that follow from them.
use crate::decimal::decimal_text;
use vstd::prelude::*;

verus! {

/// vCPUs of a VM whose request names none.
pub const DEFAULT_VCPUS: u8 = 1;

/// Memory of a VM whose request names none.
pub const DEFAULT_MEMORY_MB: u32 = 128;

/// The least memory a VM can have.
pub const MIN_MEMORY_MB: u32 = 128;

/// The most vCPUs a VM can have.
pub const MAX_VCPUS: u8 = 32;

/// Errors from validating a VM configuration.
#[derive(Debug)]
pub enum ConfigError {
    InvalidVcpus(String),
    InvalidMemory(String),
}

impl ConfigError {
    /// The message shown to the client.
    pub open spec fn text(self) -> Seq<char> {
        match self {
            ConfigError::InvalidVcpus(msg) => msg@,
            ConfigError::InvalidMemory(msg) => msg@,
        }
    }

    /// The message shown to the client.
    pub fn message(&self) -> (r: String)
        ensures
            r@ == self.text(),
    {
        match self {
            ConfigError::InvalidVcpus(msg) => msg.clone(),
            ConfigError::InvalidMemory(msg) => msg.clone(),
        }
    }
}

/// A vCPU count that Firecracker takes: 1, or an even number from 2 to 32.
pub open spec fn valid_vcpus(vcpus: u8) -> bool {
    vcpus == 1 || (2 <= vcpus <= MAX_VCPUS && vcpus % 2 == 0)
}

/// What was asked for, or the default.
pub open spec fn resolved_vcpus(vcpus: Option<u8>) -> u8 {
    match vcpus {
        Some(n) => n,
        None => DEFAULT_VCPUS,
    }
}

/// What was asked for, or the default.
pub open spec fn resolved_memory(memory_mb: Option<u32>) -> u32 {
    match memory_mb {
        Some(n) => n,
        None => DEFAULT_MEMORY_MB,
    }
}

/// The message on a bad vCPU count.
pub open spec fn vcpus_message() -> Seq<char> {
    "vcpus must be 1 or an even number between 2 and 32"@
}

/// The message on too little memory.
pub open spec fn memory_message() -> Seq<char> {
    "memory_mb must be at least "@ + crate::decimal::decimal(MIN_MEMORY_MB as nat)
}

/// Validates the requested VM configuration and returns the resolved (vcpus, memory_mb).
///
/// Applies defaults for any `None` values: 1 vCPU and 128 MB memory.
pub fn validate_vm_config(vcpus: Option<u8>, memory_mb: Option<u32>) -> (r: Result<
    (u8, u32),
    ConfigError,
>)
    ensures
        ({
            let v = resolved_vcpus(vcpus);
            let m = resolved_memory(memory_mb);
            match r {
                Ok((rv, rm)) => valid_vcpus(v) && m >= MIN_MEMORY_MB && rv == v && rm == m,
                Err(ConfigError::InvalidVcpus(msg)) => !valid_vcpus(v) && msg@ == vcpus_message(),
                Err(ConfigError::InvalidMemory(msg)) => valid_vcpus(v) && m < MIN_MEMORY_MB && msg@
                    == memory_message(),
            }
        }),
{
    let vcpus: u8 = match vcpus {
        Some(n) => n,
        None => DEFAULT_VCPUS,
    };
    let memory_mb: u32 = match memory_mb {
        Some(n) => n,
        None => DEFAULT_MEMORY_MB,
    };
    if vcpus == 0 || vcpus > MAX_VCPUS || (vcpus > 1 && vcpus % 2 != 0) {
        return Err(
            ConfigError::InvalidVcpus(
                "vcpus must be 1 or an even number between 2 and 32".to_string(),
            ),
        );
    }
    if memory_mb < MIN_MEMORY_MB {
        let mut msg = "memory_mb must be at least ".to_string();
        msg.append(decimal_text(MIN_MEMORY_MB as u64).as_str());
        return Err(ConfigError::InvalidMemory(msg));
    }
    Ok((vcpus, memory_mb))
}

/// What the settings in `v` say: file and value of each.
pub open spec fn settings(v: Seq<(String, String)>) -> Seq<(Seq<char>, Seq<char>)> {
    v.map_values(|p: (String, String)| (p.0@, p.1@))
}

/// Memory limit in bytes: the VM's memory and 50 MB for the Firecracker process.
pub open spec fn memory_limit_bytes(memory_mb: u32) -> nat {
    ((memory_mb + 50) * 1024 * 1024) as nat
}

/// CPU quota per period of 100000 microseconds: one core's worth for each vCPU.
pub open spec fn cpu_quota(vcpus: u8) -> nat {
    (vcpus * 100_000) as nat
}

/// The cgroup settings of a VM.
pub open spec fn cgroup_settings(cgroup_version: usize, vcpus: u8, memory_mb: u32) -> Seq<
    (Seq<char>, Seq<char>),
> {
    let quota = crate::decimal::decimal(cpu_quota(vcpus));
    let limit = crate::decimal::decimal(memory_limit_bytes(memory_mb));
    if cgroup_version == 2 {
        seq![("cpu.max"@, quota + " 100000"@), ("memory.max"@, limit)]
    } else {
        seq![
            ("cpu.cfs_quota_us"@, quota),
            ("cpu.cfs_period_us"@, "100000"@),
            ("memory.limit_in_bytes"@, limit),
        ]
    }
}

/// Builds the cgroup configuration for a jailed VM based on the detected
/// cgroup version and requested resources.
pub fn build_cgroup_config(cgroup_version: usize, vcpus: u8, memory_mb: u32) -> (r: Vec<
    (String, String),
>)
    ensures
        settings(r@) == cgroup_settings(cgroup_version, vcpus, memory_mb),
{
    let memory_limit_bytes: u64 = ((memory_mb as u64) + 50) * 1024 * 1024;
    let cpu_quota: u64 = (vcpus as u64) * 100_000;
    let limit = decimal_text(memory_limit_bytes);
    let mut quota = decimal_text(cpu_quota);
    let mut r: Vec<(String, String)> = Vec::new();
    if cgroup_version == 2 {
        quota.append(" 100000");
        r.push(("cpu.max".to_string(), quota));
        r.push(("memory.max".to_string(), limit));
    } else {
        r.push(("cpu.cfs_quota_us".to_string(), quota));
        r.push(("cpu.cfs_period_us".to_string(), "100000".to_string()));
        r.push(("memory.limit_in_bytes".to_string(), limit));
    }
    proof {
        assert(settings(r@) =~= cgroup_settings(cgroup_version, vcpus, memory_mb));
    }
    r
}

/// A size is valid exactly if it has one vCPU or up to 32 in pairs, and at least 128 MB; what a
/// request leaves out is one vCPU and 128 MB. A valid size is resolved to what was asked for.
pub proof fn sizes_are_resolved(
    vcpus: Option<u8>,
    memory_mb: Option<u32>,
    r: Result<(u8, u32), ConfigError>,
)
    requires
        call_ensures(validate_vm_config, (vcpus, memory_mb), r),
    ensures
        r is Ok <==> {
            &&& vcpus matches Some(v) ==> v == 1 || exists|pairs: u8|
                1 <= pairs <= 16 && v == #[trigger] (2 * pairs)
            &&& memory_mb matches Some(m) ==> m >= 128
        },
        r matches Ok((v, m)) ==> v == (if vcpus is Some {
            vcpus->0
        } else {
            1u8
        }) && m == (if memory_mb is Some {
            memory_mb->0
        } else {
            128u32
        }),
        r matches Err(ConfigError::InvalidVcpus(msg)) ==> msg@
            == "vcpus must be 1 or an even number between 2 and 32"@,
        r matches Err(ConfigError::InvalidMemory(msg)) ==> msg@
            == "memory_mb must be at least "@ + seq!['1', '2', '8'],
        memory_mb == Some(127u32) && (vcpus is None || vcpus == Some(2u8)) ==> r matches Err(
            ConfigError::InvalidMemory(_),
        ),
{
    reveal_with_fuel(crate::decimal::decimal, 4);
    assert(crate::decimal::decimal(128) =~= seq!['1', '2', '8']);
    if let Some(v) = vcpus {
        if valid_vcpus(v) && v != 1 {
            let pairs: u8 = v / 2;
            assert(v == 2 * pairs);
        }
    }
}

/// Whichever part of a size is invalid is reported; the vCPUs first.
pub proof fn invalid_part_is_reported(
    vcpus: Option<u8>,
    memory_mb: Option<u32>,
    r: Result<(u8, u32), ConfigError>,
)
    requires
        call_ensures(validate_vm_config, (vcpus, memory_mb), r),
    ensures
        r matches Err(ConfigError::InvalidMemory(_)) ==> memory_mb is Some && memory_mb->0 < 128,
        r matches Err(ConfigError::InvalidVcpus(_)) ==> vcpus is Some && (vcpus->0 == 0 || vcpus->0
            > 32 || (vcpus->0 != 1 && vcpus->0 % 2 == 1)),
        vcpus is Some && (vcpus->0 == 0 || vcpus->0 > 32 || (vcpus->0 != 1 && vcpus->0 % 2 == 1))
            ==> r matches Err(ConfigError::InvalidVcpus(_)),
{
}

/// The message of an error is the one that it carries.
pub proof fn error_messages(e: ConfigError, msg: String, r: String)
    requires
        e == ConfigError::InvalidVcpus(msg) || e == ConfigError::InvalidMemory(msg),
        call_ensures(ConfigError::message, (&e,), r),
    ensures
        r@ == msg@,
{
}

/// A VM may use as much processor time as its vCPUs, 100000 microseconds of each period of
/// 100000 for each, and its memory and 50 MB more.
pub proof fn cgroup_limits(
    cgroup_version: usize,
    vcpus: u8,
    memory_mb: u32,
    r: Vec<(String, String)>,
)
    requires
        call_ensures(build_cgroup_config, (cgroup_version, vcpus, memory_mb), r),
    ensures
        cgroup_version == 2 ==> {
            &&& r@.len() == 2
            &&& r@[0].0@ == "cpu.max"@
            &&& crate::text::fields(r@[0].1@, ' ') == seq![
                crate::decimal::decimal((vcpus * 100000) as nat),
                "100000"@,
            ]
            &&& r@[1].0@ == "memory.max"@
            &&& r@[1].1@ == crate::decimal::decimal(
                (memory_mb * 1048576 + 52428800) as nat,
            )
        },
        cgroup_version != 2 ==> {
            &&& r@.len() == 3
            &&& r@[0].0@ == "cpu.cfs_quota_us"@
            &&& r@[0].1@ == crate::decimal::decimal((vcpus * 100000) as nat)
            &&& r@[1].0@ == "cpu.cfs_period_us"@
            &&& r@[1].1@ == "100000"@
            &&& r@[2].0@ == "memory.limit_in_bytes"@
            &&& r@[2].1@ == crate::decimal::decimal(
                (memory_mb * 1048576 + 52428800) as nat,
            )
        },
{
    let set = settings(r@);
    assert(set.len() == r@.len());
    assert(r@.len() >= 2 ==> set[0] == (r@[0].0@, r@[0].1@) && set[1] == (r@[1].0@, r@[1].1@));
    assert(r@.len() == 3 ==> set[2] == (r@[2].0@, r@[2].1@));
    assert((memory_mb + 50) * 1024 * 1024 == memory_mb * 1048576 + 52428800);
    if cgroup_version == 2 {
        reveal_strlit(" 100000");
        reveal_strlit("100000");
        let quota = crate::decimal::decimal((vcpus * 100000) as nat);
        crate::decimal::decimal_digits((vcpus * 100000) as nat);
        assert(!quota.contains(' ')) by {
            assert forall|i: int| 0 <= i < quota.len() implies quota[i] != ' ' by {
                assert(crate::decimal::is_digit(quota[i]));
            }
        }
        assert(quota + " 100000"@ =~= quota + seq![' '] + "100000"@);
        crate::text::first_field(quota, ' ', "100000"@);
        crate::text::first_field("100000"@, ' ', Seq::empty());
        assert(crate::text::fields(r@[0].1@, ' ') =~= seq![quota, "100000"@]);
    }
}

} // verus!
