//! Per-VM networks: `/30` subnets of `172.16.0.0/16`, one for each VM.
use crate::decimal::decimal_text;
use vstd::prelude::*;

verus! {

/// Maximum number of `/30` subnets in the `172.16.0.0/16` range.
///
/// Each subnet consumes 4 IPs (network, tap, guest, broadcast), giving
/// 65536 / 4 = 16384 available subnets.
pub const MAX_SUBNETS: usize = 16_384;

/// An IPv4 address, by its four octets.
#[derive(Debug, Clone, Copy, PartialEq, Eq, Structural)]
pub struct Ipv4Addr {
    pub a: u8,
    pub b: u8,
    pub c: u8,
    pub d: u8,
}

impl Ipv4Addr {
    /// The address with the given octets.
    pub fn new(a: u8, b: u8, c: u8, d: u8) -> (r: Ipv4Addr)
        ensures
            r == (Ipv4Addr { a, b, c, d }),
    {
        Ipv4Addr { a, b, c, d }
    }

    /// The address in dotted decimal.
    pub open spec fn text(self) -> Seq<char> {
        crate::decimal::decimal(self.a as nat) + "."@ + crate::decimal::decimal(self.b as nat)
            + "."@ + crate::decimal::decimal(self.c as nat) + "."@ + crate::decimal::decimal(
            self.d as nat,
        )
    }

    /// The address as one number.
    pub open spec fn value(self) -> nat {
        (self.a * 0x100_0000 + self.b * 0x1_0000 + self.c * 0x100 + self.d) as nat
    }

    /// The address in dotted decimal.
    pub fn to_text(&self) -> (r: String)
        ensures
            r@ == self.text(),
    {
        let mut s = decimal_text(self.a as u64);
        s.append(".");
        s.append(decimal_text(self.b as u64).as_str());
        s.append(".");
        s.append(decimal_text(self.c as u64).as_str());
        s.append(".");
        s.append(decimal_text(self.d as u64).as_str());
        s
    }
}

/// The address `172.16.[offset/256].[offset%256]`.
pub open spec fn pool_address(offset: int) -> Ipv4Addr {
    Ipv4Addr { a: 172, b: 16, c: ((offset / 256) % 256) as u8, d: (offset % 256) as u8 }
}

/// The name `fc{index}`.
pub open spec fn tap_device(index: u16) -> Seq<char> {
    "fc"@ + crate::decimal::decimal(index as nat)
}

/// Computes the tap (host-side) IP for subnet `index`.
///
/// Formula from Firecracker docs: `172.16.[(4*N+1)/256].[(4*N+1)%256]`
pub fn subnet_tap_ip(index: u16) -> (r: Ipv4Addr)
    ensures
        r == pool_address(4 * index + 1),
{
    let offset: u32 = 4 * (index as u32) + 1;
    Ipv4Addr::new(172, 16, ((offset / 256) % 256) as u8, (offset % 256) as u8)
}

/// Computes the guest IP for subnet `index`.
///
/// Formula from Firecracker docs: `172.16.[(4*N+2)/256].[(4*N+2)%256]`
pub fn subnet_guest_ip(index: u16) -> (r: Ipv4Addr)
    ensures
        r == pool_address(4 * index + 2),
{
    let offset: u32 = 4 * (index as u32) + 2;
    Ipv4Addr::new(172, 16, ((offset / 256) % 256) as u8, (offset % 256) as u8)
}

/// Returns the tap device name for a subnet index.
///
/// Linux interface names are limited to 15 characters. Using `fc{N}`
/// keeps names short and unique (e.g. `fc0`, `fc16383`).
pub fn tap_name(index: u16) -> (r: String)
    ensures
        r@ == tap_device(index),
{
    let mut s = "fc".to_string();
    s.append(decimal_text(index as u64).as_str());
    s
}

/// The kernel `ip=` boot argument.
pub open spec fn network_boot_args(guest_ip: Ipv4Addr, tap_ip: Ipv4Addr) -> Seq<char> {
    "ip="@ + guest_ip.text() + "::"@ + tap_ip.text() + ":255.255.255.252::eth0:off"@
}

/// Builds the kernel `ip=` boot argument for automatic guest network
/// configuration.
///
/// Format: `ip=<guest_ip>::<gateway>:<netmask>::<iface>:off`
///
/// This configures the guest's network at kernel level, avoiding any
/// dependency on `iproute2` or DHCP in the guest.
pub fn build_network_boot_args(guest_ip: &Ipv4Addr, tap_ip: &Ipv4Addr) -> (r: String)
    ensures
        r@ == network_boot_args(*guest_ip, *tap_ip),
{
    let mut s = "ip=".to_string();
    s.append(guest_ip.to_text().as_str());
    s.append("::");
    s.append(tap_ip.to_text().as_str());
    s.append(":255.255.255.252::eth0:off");
    s
}

/// A pool of `/30` subnets in `172.16.0.0/16` for per-VM networking.
///
/// Each VM gets a dedicated `/30` subnet containing a tap IP (host side)
/// and a guest IP (VM side). Subnets are tracked by index and recycled
/// when VMs are deleted.
pub struct SubnetPool {
    /// `true` = in use, `false` = free.
    slots: Vec<bool>,
}

/// A subnet allocation for a single VM.
#[derive(Debug, Clone)]
pub struct SubnetAllocation {
    /// Index into the pool (0-based).
    pub index: u16,
    /// IP address for the host-side tap device.
    pub tap_ip: Ipv4Addr,
    /// IP address for the guest.
    pub guest_ip: Ipv4Addr,
    /// Name of the tap device (e.g. `fc0`, `fc42`).
    pub tap_name: String,
}

impl SubnetAllocation {
    /// Whether this is what the pool hands out for subnet `index`.
    pub open spec fn is_subnet(self, index: int) -> bool {
        &&& 0 <= index < MAX_SUBNETS
        &&& self.index == index
        &&& self.tap_ip == pool_address(4 * index + 1)
        &&& self.guest_ip == pool_address(4 * index + 2)
        &&& self.tap_name@ == tap_device(index as u16)
    }
}

/// What an allocation does to the pool: it takes the first free subnet, or finds none.
pub open spec fn allocated(
    before: Seq<bool>,
    after: Seq<bool>,
    r: Option<SubnetAllocation>,
) -> bool {
    match r {
        Some(subnet) => {
            &&& subnet.is_subnet(subnet.index as int)
            &&& !before[subnet.index as int]
            &&& forall|i: int| 0 <= i < subnet.index ==> before[i]
            &&& after == before.update(subnet.index as int, true)
        },
        None => {
            &&& forall|i: int| 0 <= i < MAX_SUBNETS ==> before[i]
            &&& after == before
        },
    }
}

impl View for SubnetPool {
    type V = Seq<bool>;

    /// Which subnets are in use.
    closed spec fn view(&self) -> Seq<bool> {
        self.slots@
    }
}

impl Default for SubnetPool {
    fn default() -> (r: SubnetPool)
        ensures
            r.wf(),
            r@ == Seq::new(MAX_SUBNETS as nat, |i: int| false),
    {
        SubnetPool::new()
    }
}

impl SubnetPool {
    /// There is one slot for each subnet.
    pub open spec fn wf(self) -> bool {
        self@.len() == MAX_SUBNETS
    }

    /// A pool with every subnet free.
    pub fn new() -> (r: SubnetPool)
        ensures
            r.wf(),
            r@ == Seq::new(MAX_SUBNETS as nat, |i: int| false),
    {
        let r = SubnetPool { slots: vec![false; MAX_SUBNETS] };
        proof {
            assert(r@ =~= Seq::new(MAX_SUBNETS as nat, |i: int| false));
        }
        r
    }

    /// Allocates the next free `/30` subnet.
    ///
    /// Returns `None` if all 16384 subnets are in use.
    pub fn allocate(&mut self) -> (r: Option<SubnetAllocation>)
        requires
            old(self).wf(),
        ensures
            final(self).wf(),
            allocated(old(self)@, final(self)@, r),
            r is None <==> (forall|i: int| 0 <= i < MAX_SUBNETS ==> old(self)@[i]),
            r matches Some(subnet) ==> {
                &&& subnet.index < MAX_SUBNETS
                &&& !old(self)@[subnet.index as int]
                &&& final(self)@ == old(self)@.update(subnet.index as int, true)
                &&& forall|i: int| 0 <= i < subnet.index ==> old(self)@[i]
                &&& subnet.tap_ip.value() == 172 * 0x100_0000 + 16 * 0x1_0000 + 4 * subnet.index + 1
                &&& subnet.guest_ip.value() == subnet.tap_ip.value() + 1
                &&& subnet.tap_name@ == "fc"@ + crate::decimal::decimal(subnet.index as nat)
            },
            r is None ==> final(self)@ == old(self)@,
    {
        let mut i: usize = 0;
        while i < self.slots.len()
            invariant
                i <= self.slots@.len(),
                self.slots@.len() == MAX_SUBNETS,
                self.slots@ == old(self)@,
                forall|k: int| 0 <= k < i ==> self.slots@[k],
            decreases self.slots@.len() - i,
        {
            if !self.slots[i] {
                self.slots[i] = true;
                let index: u16 = i as u16;
                return Some(
                    SubnetAllocation {
                        tap_ip: subnet_tap_ip(index),
                        guest_ip: subnet_guest_ip(index),
                        tap_name: tap_name(index),
                        index,
                    },
                );
            }
            i += 1;
        }
        None
    }

    /// Releases a previously allocated subnet back to the pool. The index must be
    /// one of the pool's.
    pub fn release(&mut self, index: u16)
        requires
            old(self).wf(),
            index < MAX_SUBNETS,
        ensures
            final(self).wf(),
            final(self)@ == old(self)@.update(index as int, false),
    {
        self.slots[index as usize] = false;
    }
}

/// The tap and guest addresses of subnet `index` are the second and third of the
/// `index`-th block of four addresses from `172.16.0.0` on.
pub proof fn subnet_block(index: int)
    requires
        0 <= index < MAX_SUBNETS,
    ensures
        pool_address(4 * index + 1).value() == 0xAC10_0000 + 4 * index + 1,
        pool_address(4 * index + 2).value() == 0xAC10_0000 + 4 * index + 2,
{
}

/// Two different subnets share no address.
pub proof fn subnets_disjoint(i: int, j: int)
    requires
        0 <= i < MAX_SUBNETS,
        0 <= j < MAX_SUBNETS,
        i != j,
    ensures
        pool_address(4 * i + 1).value() / 4 != pool_address(4 * j + 1).value() / 4,
        pool_address(4 * i + 1).value() / 4 == pool_address(4 * i + 2).value() / 4,
        pool_address(4 * i + 1) != pool_address(4 * j + 1),
        pool_address(4 * i + 2) != pool_address(4 * j + 2),
        pool_address(4 * i + 1) != pool_address(4 * j + 2),
{
    subnet_block(i);
    subnet_block(j);
}

/// A tap device is named within the 15 characters that Linux allows.
pub proof fn tap_name_length(index: u16)
    ensures
        tap_device(index).len() <= 15,
{
    reveal_strlit("fc");
    crate::decimal::decimal_length(index as nat);
}

/// Two different subnets have differently named tap devices.
pub proof fn tap_names_distinct(i: u16, j: u16)
    requires
        i != j,
    ensures
        tap_device(i) != tap_device(j),
{
    reveal_strlit("fc");
    crate::decimal::decimal_injective(i as nat, j as nat);
    assert(tap_device(i).skip(2) =~= crate::decimal::decimal(i as nat));
    assert(tap_device(j).skip(2) =~= crate::decimal::decimal(j as nat));
}

/// Allocating a subnet and releasing it again restores the pool.
pub proof fn allocate_then_release(
    before: Seq<bool>,
    after: Seq<bool>,
    subnet: SubnetAllocation,
)
    requires
        before.len() == MAX_SUBNETS,
        allocated(before, after, Some(subnet)),
    ensures
        after.update(subnet.index as int, false) == before,
{
    assert(after.update(subnet.index as int, false) =~= before);
}

/// A released subnet is the next to be handed out if all below it are in use.
pub proof fn release_then_reuse(
    before: Seq<bool>,
    index: int,
    after: Seq<bool>,
    r: Option<SubnetAllocation>,
)
    requires
        before.len() == MAX_SUBNETS,
        0 <= index < MAX_SUBNETS,
        forall|i: int| 0 <= i < index ==> before[i],
        allocated(before.update(index, false), after, r),
    ensures
        r is Some,
        r->0.is_subnet(index),
{
    let free = before.update(index, false);
    assert(!free[index]);
    assert(forall|i: int| 0 <= i < index ==> free[i] == before[i]);
}

/// Two allocations with no release of the first between them share no address and no
/// tap device, whatever else happened to the pool.
pub proof fn allocations_distinct(
    p: Seq<bool>,
    q: Seq<bool>,
    a: SubnetAllocation,
    s: Seq<bool>,
    t: Seq<bool>,
    b: SubnetAllocation,
)
    requires
        p.len() == MAX_SUBNETS,
        s.len() == MAX_SUBNETS,
        allocated(p, q, Some(a)),
        s[a.index as int],
        allocated(s, t, Some(b)),
    ensures
        a.index != b.index,
        a.tap_ip.value() / 4 != b.tap_ip.value() / 4,
        a.guest_ip.value() / 4 == a.tap_ip.value() / 4,
        b.guest_ip.value() / 4 == b.tap_ip.value() / 4,
        a.tap_name@ != b.tap_name@,
{
    subnets_disjoint(a.index as int, b.index as int);
    subnets_disjoint(b.index as int, a.index as int);
    tap_names_distinct(a.index, b.index);
}

/// The four numbers of an address stand between dots.
pub proof fn address_fields(ip: Ipv4Addr)
    ensures
        crate::text::fields(ip.text(), '.') == seq![
            crate::decimal::decimal(ip.a as nat),
            crate::decimal::decimal(ip.b as nat),
            crate::decimal::decimal(ip.c as nat),
            crate::decimal::decimal(ip.d as nat),
        ],
        forall|i: int|
            0 <= i < ip.text().len() ==> (#[trigger] ip.text()[i] == '.' || 48
                <= ip.text()[i] as int <= 57),
        forall|r: String| call_ensures(Ipv4Addr::to_text, (&ip,), r) ==> r@ == ip.text(),
{
    reveal_strlit(".");
    let (a, b, c, d) = (
        crate::decimal::decimal(ip.a as nat),
        crate::decimal::decimal(ip.b as nat),
        crate::decimal::decimal(ip.c as nat),
        crate::decimal::decimal(ip.d as nat),
    );
    decimal_is_plain(ip.a as nat);
    decimal_is_plain(ip.b as nat);
    decimal_is_plain(ip.c as nat);
    decimal_is_plain(ip.d as nat);
    let dot = seq!['.'];
    assert("."@ =~= dot);
    assert(ip.text() =~= a + dot + (b + dot + (c + dot + d)));
    crate::text::first_field(a, '.', b + dot + (c + dot + d));
    crate::text::first_field(b, '.', c + dot + d);
    crate::text::first_field(c, '.', d);
    crate::text::first_field(d, '.', Seq::empty());
    assert(crate::text::fields(ip.text(), '.') =~= seq![a, b, c, d]);
    let whole = a + dot + b + dot + c + dot + d;
    assert(ip.text() =~= whole);
    assert forall|i: int| 0 <= i < whole.len() implies (#[trigger] whole[i] == '.' || 48
        <= whole[i] as int <= 57) by {
        let (la, lb, lc) = (a.len(), b.len(), c.len());
        if i < la {
            assert(crate::decimal::is_digit(a[i]));
        } else if i == la {
        } else if i < la + 1 + lb {
            assert(whole[i] == b[i - la - 1]);
            assert(crate::decimal::is_digit(b[i - la - 1]));
        } else if i == la + 1 + lb {
        } else if i < la + lb + lc + 2 {
            assert(whole[i] == c[i - la - lb - 2]);
            assert(crate::decimal::is_digit(c[i - la - lb - 2]));
        } else if i == la + lb + lc + 2 {
        } else {
            assert(whole[i] == d[i - la - lb - lc - 3]);
            assert(crate::decimal::is_digit(d[i - la - lb - lc - 3]));
        }
    }
}

/// A written number holds digits only.
proof fn decimal_is_plain(n: nat)
    ensures
        crate::decimal::all_digits(crate::decimal::decimal(n)),
        !crate::decimal::decimal(n).contains('.'),
        !crate::decimal::decimal(n).contains(':'),
{
    let s = crate::decimal::decimal(n);
    crate::decimal::decimal_digits(n);
    assert forall|i: int| 0 <= i < s.len() implies s[i] != '.' && s[i] != ':' by {
        assert(crate::decimal::is_digit(s[i]));
    }
}

/// Two different addresses are written differently.
pub proof fn addresses_told_apart(a: Ipv4Addr, b: Ipv4Addr)
    requires
        a != b,
    ensures
        a.text() != b.text(),
{
    address_fields(a);
    address_fields(b);
    let x = crate::text::fields(a.text(), '.');
    let y = crate::text::fields(b.text(), '.');
    if a.text() == b.text() {
        assert(x[0] == y[0] && x[1] == y[1] && x[2] == y[2] && x[3] == y[3]);
        crate::decimal::decimal_injective(a.a as nat, b.a as nat);
        crate::decimal::decimal_injective(a.b as nat, b.b as nat);
        crate::decimal::decimal_injective(a.c as nat, b.c as nat);
        crate::decimal::decimal_injective(a.d as nat, b.d as nat);
    }
}

/// The kernel argument names, between colons, the guest's address, no server, the tap address
/// as the gateway, the netmask of a block of four addresses, no host name, the interface, and
/// no autoconfiguration.
pub proof fn boot_args_fields(guest_ip: Ipv4Addr, tap_ip: Ipv4Addr, r: String)
    requires
        call_ensures(build_network_boot_args, (&guest_ip, &tap_ip), r),
    ensures
        crate::text::fields(r@, ':') == seq![
            "ip="@ + guest_ip.text(),
            Seq::empty(),
            tap_ip.text(),
            "255.255.255.252"@,
            Seq::empty(),
            "eth0"@,
            "off"@,
        ],
{
    reveal_strlit("ip=");
    reveal_strlit("::");
    reveal_strlit(":255.255.255.252::eth0:off");
    reveal_strlit("255.255.255.252");
    reveal_strlit("eth0");
    reveal_strlit("off");
    let colon = seq![':'];
    let none = Seq::<char>::empty();
    let g = "ip="@ + guest_ip.text();
    let t = tap_ip.text();
    address_fields(guest_ip);
    address_fields(tap_ip);
    assert forall|i: int| 0 <= i < g.len() implies g[i] != ':' by {
        if i >= 3 {
            assert(g[i] == guest_ip.text()[i - 3]);
        }
    }
    assert(!g.contains(':'));
    assert(!t.contains(':')) by {
        assert forall|i: int| 0 <= i < t.len() implies t[i] != ':' by {
            assert(t[i] == '.' || 48 <= t[i] as int <= 57);
        }
    }
    let r6 = "off"@;
    let r5 = "eth0"@ + colon + r6;
    let r4 = none + colon + r5;
    let r3 = "255.255.255.252"@ + colon + r4;
    let r2 = t + colon + r3;
    let r1 = none + colon + r2;
    assert(":255.255.255.252::eth0:off"@ =~= colon + r3);
    assert("::"@ =~= colon + colon);
    assert(r@ =~= g + colon + r1);
    crate::text::first_field(g, ':', r1);
    crate::text::first_field(none, ':', r2);
    crate::text::first_field(t, ':', r3);
    crate::text::first_field("255.255.255.252"@, ':', r4);
    crate::text::first_field(none, ':', r5);
    crate::text::first_field("eth0"@, ':', r6);
    crate::text::first_field(r6, ':', none);
    assert(crate::text::fields(r@, ':') =~= seq![
        g,
        none,
        t,
        "255.255.255.252"@,
        none,
        "eth0"@,
        r6,
    ]);
}

/// Guests with different gateways are started with different arguments, and so are guests with
/// different addresses.
pub proof fn boot_args_told_apart(
    guest_ip: Ipv4Addr,
    tap_ip: Ipv4Addr,
    r: String,
    other_guest: Ipv4Addr,
    other_tap: Ipv4Addr,
    s: String,
)
    requires
        call_ensures(build_network_boot_args, (&guest_ip, &tap_ip), r),
        call_ensures(build_network_boot_args, (&other_guest, &other_tap), s),
        guest_ip != other_guest || tap_ip != other_tap,
    ensures
        r@ != s@,
{
    boot_args_fields(guest_ip, tap_ip, r);
    boot_args_fields(other_guest, other_tap, s);
    let x = crate::text::fields(r@, ':');
    let y = crate::text::fields(s@, ':');
    if r@ == s@ {
        assert(x[0] == y[0] && x[2] == y[2]);
        reveal_strlit("ip=");
        assert(x[0].skip(3) =~= guest_ip.text());
        assert(y[0].skip(3) =~= other_guest.text());
        if guest_ip != other_guest {
            addresses_told_apart(guest_ip, other_guest);
        } else {
            addresses_told_apart(tap_ip, other_tap);
        }
    }
}

/// The tap and guest addresses of a subnet are `172.16.0.0` and one or two more than four
/// addresses for each subnet below it: both lie in one block of four, of which the netmask of
/// the kernel argument leaves the last two bits free.
pub proof fn subnet_addresses(index: u16, tap: Ipv4Addr, guest: Ipv4Addr)
    requires
        index < MAX_SUBNETS,
        call_ensures(subnet_tap_ip, (index,), tap),
        call_ensures(subnet_guest_ip, (index,), guest),
    ensures
        tap.value() == 172 * 0x100_0000 + 16 * 0x1_0000 + 4 * index + 1,
        guest.value() == 172 * 0x100_0000 + 16 * 0x1_0000 + 4 * index + 2,
        guest.value() / 4 == tap.value() / 4,
{
    subnet_block(index as int);
}

/// An address as one number is its four octets, the first the most significant.
pub proof fn address_value(ip: Ipv4Addr)
    ensures
        ip.value() % 256 == ip.d,
        (ip.value() / 0x100) % 256 == ip.c,
        (ip.value() / 0x1_0000) % 256 == ip.b,
        ip.value() / 0x100_0000 == ip.a,
{
}

/// The name of a tap device is `fc` and the number of its subnet.
pub proof fn tap_name_tells_subnet(index: u16, r: String)
    requires
        call_ensures(tap_name, (index,), r),
    ensures
        r@.len() > 2,
        r@[0] == 'f',
        r@[1] == 'c',
        crate::decimal::parsed_u64(r@.skip(2)) == Some(index as u64),
        48 <= r@[2] as int <= 57,
{
    reveal_strlit("fc");
    crate::decimal::parsed_decimal(index as u64);
    crate::decimal::decimal_digits(index as nat);
    assert(r@.skip(2) =~= crate::decimal::decimal(index as nat));
    assert(crate::decimal::is_digit(crate::decimal::decimal(index as nat)[0]));
}

/// An allocation hands out the first subnet that is free, with its addresses and its device,
/// and marks it and no other; none is handed out exactly if none is free.
pub proof fn first_free_subnet_is_handed_out(pool: &mut SubnetPool, r: Option<SubnetAllocation>)
    requires
        old(pool).wf(),
        call_ensures(SubnetPool::allocate, (pool,), r),
    ensures
        final(pool).wf(),
        r is None <==> forall|i: int| 0 <= i < 16384 ==> old(pool)@[i],
        r is None ==> final(pool)@ == old(pool)@,
        r matches Some(s) ==> {
            &&& s.index < 16384
            &&& !old(pool)@[s.index as int] && final(pool)@[s.index as int]
            &&& forall|i: int| 0 <= i < s.index ==> old(pool)@[i]
            &&& forall|i: int|
                0 <= i < 16384 && i != s.index ==> final(pool)@[i] == old(pool)@[i]
            &&& s.tap_ip.value() == 172 * 0x100_0000 + 16 * 0x1_0000 + 4 * s.index + 1
            &&& s.guest_ip.value() == 172 * 0x100_0000 + 16 * 0x1_0000 + 4 * s.index + 2
            &&& s.tap_name@ == "fc"@ + crate::decimal::decimal(s.index as nat)
        },
{
}

/// A release frees the subnet and no other.
pub proof fn released_subnet_is_free(pool: &mut SubnetPool, index: u16)
    requires
        old(pool).wf(),
        index < 16384,
        call_ensures(SubnetPool::release, (pool, index), ()),
    ensures
        final(pool).wf(),
        !final(pool)@[index as int],
        forall|i: int| 0 <= i < 16384 && i != index ==> final(pool)@[i] == old(pool)@[i],
{
}

/// A new pool has every subnet free.
pub proof fn new_pool_is_free(pool: SubnetPool)
    requires
        call_ensures(SubnetPool::new, (), pool),
    ensures
        pool@.len() == 16384,
        forall|i: int| 0 <= i < 16384 ==> !pool@[i],
{
}

/// An address has the octets that it was made with.
pub proof fn addresses_have_their_octets(a: u8, b: u8, c: u8, d: u8, r: Ipv4Addr)
    requires
        call_ensures(Ipv4Addr::new, (a, b, c, d), r),
    ensures
        r.a == a && r.b == b && r.c == c && r.d == d,
{
}

/// The default pool has every subnet free.
pub proof fn default_pool_is_free(pool: SubnetPool)
    requires
        call_ensures(<SubnetPool as Default>::default, (), pool),
    ensures
        pool@.len() == 16384,
        forall|i: int| 0 <= i < 16384 ==> !pool@[i],
{
}

} // verus!
