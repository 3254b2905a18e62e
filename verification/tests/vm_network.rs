use warlock::vm::network::{
    build_network_boot_args, subnet_guest_ip, subnet_tap_ip, tap_name, Ipv4Addr, SubnetPool,
    MAX_SUBNETS,
};

// ── IP calculation ──

#[test]
fn first_subnet_ips() {
    assert_eq!(subnet_tap_ip(0), Ipv4Addr::new(172, 16, 0, 1));
    assert_eq!(subnet_guest_ip(0), Ipv4Addr::new(172, 16, 0, 2));
}

#[test]
fn second_subnet_ips() {
    assert_eq!(subnet_tap_ip(1), Ipv4Addr::new(172, 16, 0, 5));
    assert_eq!(subnet_guest_ip(1), Ipv4Addr::new(172, 16, 0, 6));
}

#[test]
fn subnet_wraps_third_octet() {
    // Index 64: offset = 4*64 = 256, tap = 256+1 = 257
    assert_eq!(subnet_tap_ip(64), Ipv4Addr::new(172, 16, 1, 1));
    assert_eq!(subnet_guest_ip(64), Ipv4Addr::new(172, 16, 1, 2));
}

#[test]
fn thousandth_subnet_matches_firecracker_docs() {
    // From Firecracker docs: VM 999
    // tap = 172.16.[(4*999+1)/256].[(4*999+1)%256] = 172.16.15.157
    // guest = 172.16.[(4*999+2)/256].[(4*999+2)%256] = 172.16.15.158
    assert_eq!(subnet_tap_ip(999), Ipv4Addr::new(172, 16, 15, 157));
    assert_eq!(subnet_guest_ip(999), Ipv4Addr::new(172, 16, 15, 158));
}

#[test]
fn last_subnet_ips() {
    // Index 16383: offset = 4*16383 = 65532
    // tap = 65533 -> 172.16.255.253
    // guest = 65534 -> 172.16.255.254
    assert_eq!(subnet_tap_ip(16383), Ipv4Addr::new(172, 16, 255, 253));
    assert_eq!(subnet_guest_ip(16383), Ipv4Addr::new(172, 16, 255, 254));
}

// ── Tap naming ──

#[test]
fn tap_name_format() {
    assert_eq!(tap_name(0), "fc0");
    assert_eq!(tap_name(42), "fc42");
    assert_eq!(tap_name(16383), "fc16383");
}

#[test]
fn tap_name_within_linux_limit() {
    // Linux interface names max out at 15 characters
    let longest = tap_name(16383); // "fc16383" = 7 chars
    assert!(longest.len() <= 15);
}

// ── Boot args ──

#[test]
fn boot_args_format() {
    let args =
        build_network_boot_args(&Ipv4Addr::new(172, 16, 0, 2), &Ipv4Addr::new(172, 16, 0, 1));
    assert_eq!(args, "ip=172.16.0.2::172.16.0.1:255.255.255.252::eth0:off");
}

// ── Pool allocation ──

#[test]
fn allocate_first_subnet() {
    let mut pool = SubnetPool::new();
    let alloc = pool.allocate().unwrap();

    assert_eq!(alloc.index, 0);
    assert_eq!(alloc.tap_ip, Ipv4Addr::new(172, 16, 0, 1));
    assert_eq!(alloc.guest_ip, Ipv4Addr::new(172, 16, 0, 2));
    assert_eq!(alloc.tap_name, "fc0");
}

#[test]
fn sequential_allocation() {
    let mut pool = SubnetPool::new();

    let a = pool.allocate().unwrap();
    let b = pool.allocate().unwrap();
    let c = pool.allocate().unwrap();

    assert_eq!(a.index, 0);
    assert_eq!(b.index, 1);
    assert_eq!(c.index, 2);
}

#[test]
fn release_and_reuse() {
    let mut pool = SubnetPool::new();

    let a = pool.allocate().unwrap();
    let b = pool.allocate().unwrap();
    assert_eq!(a.index, 0);
    assert_eq!(b.index, 1);

    // Release the first, next allocation should reuse index 0
    pool.release(0);
    let c = pool.allocate().unwrap();
    assert_eq!(c.index, 0);
}

#[test]
fn pool_exhaustion() {
    let mut pool = SubnetPool::new();

    // Allocate all subnets
    for _ in 0..MAX_SUBNETS {
        assert!(pool.allocate().is_some());
    }

    // Pool is exhausted
    assert!(pool.allocate().is_none());

    // Release one and it's available again
    pool.release(100);
    let alloc = pool.allocate().unwrap();
    assert_eq!(alloc.index, 100);
}

// ── More of the pool ──

#[test]
fn default_pool_is_free() {
    let mut pool = SubnetPool::default();
    assert_eq!(pool.allocate().unwrap().index, 0);
}

#[test]
fn allocating_and_releasing_restores_the_pool() {
    let mut pool = SubnetPool::new();
    pool.allocate().unwrap();
    let b = pool.allocate().unwrap();
    pool.release(b.index);
    let c = pool.allocate().unwrap();
    assert_eq!(c.index, b.index);
    assert_eq!(c.guest_ip, b.guest_ip);
    assert_eq!(c.tap_name, b.tap_name);
}

#[test]
fn subnets_share_no_address() {
    let mut pool = SubnetPool::new();
    let a = pool.allocate().unwrap();
    let b = pool.allocate().unwrap();
    assert_ne!(a.tap_ip, b.tap_ip);
    assert_ne!(a.guest_ip, b.guest_ip);
    assert_ne!(a.guest_ip, b.tap_ip);
    assert_ne!(a.tap_name, b.tap_name);
}

#[test]
fn addresses_in_dotted_decimal() {
    assert_eq!(Ipv4Addr::new(172, 16, 15, 158).to_text(), "172.16.15.158");
    assert_eq!(Ipv4Addr::new(0, 0, 0, 255).to_text(), "0.0.0.255");
}
