//! The wake-signal listener: how its socket is set up, and which datagrams
//! count.
//!
//! Opening a socket is the caller's work. This module decides the steps, in
//! order, that turn a fresh socket into a listener on a multicast group, and
//! whether a datagram that arrived on it came from the awaited peer.

use vstd::prelude::*;
use vstd::string::StringExecFns;
use crate::addr::{Family, IpAddress, SocketAddress};

verus! {

/// The convention that the host follows for binding a multicast listener.
#[derive(Clone, Copy, Debug, PartialEq, Eq, Structural)]
pub enum Platform {
    /// Binding to the group address itself is proper, and filters what the
    /// socket receives.
    Unix,
    /// Binding to a group address is improper: bind to every local address.
    Windows,
}

/// One step in setting up a listening socket.
#[allow(inconsistent_fields)]
#[derive(Clone, Copy, Debug, PartialEq, Eq, Structural)]
pub enum SocketStep {
    /// Open a UDP datagram socket of the family.
    Open(Family),
    /// Allow, or not, that the local address is bound more than once.
    ReuseAddress(bool),
    /// Allow, or not, that the local port is bound more than once.
    ReusePort(bool),
    /// Bind the socket to the local address.
    Bind(SocketAddress),
    /// Let the socket hear, or not, the IPv4 multicast that its own host
    /// sends.
    MulticastLoopV4(bool),
    /// Let the socket hear, or not, the IPv6 multicast that its own host
    /// sends.
    MulticastLoopV6(bool),
    /// Join the IPv4 group on the interface with the given address; the
    /// address of all zeros lets the system choose.
    JoinV4 { group: u32, interface: u32 },
    /// Join the IPv6 group on the interface with the given address; the
    /// address of all zeros lets the system choose.
    JoinV6 { group: u128, interface: u128 },
    /// Make, or not, the socket's operations return at once.
    NonBlocking(bool),
}

/// Why no listener can be had.
#[derive(Clone, Copy, Debug, PartialEq, Eq, Structural)]
pub enum BindError {
    /// The group's text is no socket address.
    InvalidGroup,
    /// The interface's text is no host address.
    InvalidInterface,
    /// The group and the interface address are of different families.
    InterfaceFamily,
    /// The operating system refused one of the steps.
    Refused,
}

impl BindError {
    /// The error in words.
    pub open spec fn spec_describe(self) -> Seq<char> {
        match self {
            BindError::InvalidGroup => "invalid multicast address"@,
            BindError::InvalidInterface => "invalid interface address"@,
            BindError::InterfaceFamily => "multi addr and if addr differ in family"@,
            BindError::Refused => "socket setup refused"@,
        }
    }

    /// The error in words.
    pub fn describe(&self) -> (r: String)
        ensures
            r@ == self.spec_describe(),
    {
        match self {
            BindError::InvalidGroup => String::from_str("invalid multicast address"),
            BindError::InvalidInterface => String::from_str("invalid interface address"),
            BindError::InterfaceFamily => String::from_str(
                "multi addr and if addr differ in family",
            ),
            BindError::Refused => String::from_str("socket setup refused"),
        }
    }
}

/// The local address that a listener on `group` binds to.
pub open spec fn spec_bind_address(platform: Platform, group: SocketAddress) -> SocketAddress {
    match platform {
        Platform::Unix => group,
        Platform::Windows => SocketAddress::spec_new(
            IpAddress::spec_unspecified(group.spec_ip().spec_family()),
            group.spec_port(),
        ),
    }
}

/// The local address that a listener on `group` binds to: the group address
/// itself where the platform takes it, else every local address with the
/// group's port.
pub fn bind_address(platform: Platform, group: &SocketAddress) -> (r: SocketAddress)
    ensures
        r == spec_bind_address(platform, *group),
{
    match platform {
        Platform::Unix => *group,
        Platform::Windows => SocketAddress::new(
            IpAddress::unspecified(group.ip().family()),
            group.port(),
        ),
    }
}

/// The steps that set up a socket for the multicast group `group`.
///
/// The socket may be bound by several processes at once (address and port),
/// is bound as the platform asks, does not hear its own host's multicast,
/// and joins the group on the interface that has the address `interface`,
/// or on one that the system chooses where none is given. An interface
/// address of the other family than the group's is refused.
pub open spec fn bind_plan(
    group: SocketAddress,
    interface: Option<IpAddress>,
    platform: Platform,
) -> Result<Seq<SocketStep>, BindError> {
    match group {
        SocketAddress::V4 { ip, .. } => match interface {
            Some(IpAddress::V6(_)) => Err(BindError::InterfaceFamily),
            Some(IpAddress::V4(chosen)) => Ok(plan_v4(group, ip, chosen, platform)),
            None => Ok(plan_v4(group, ip, 0, platform)),
        },
        SocketAddress::V6 { ip, .. } => match interface {
            Some(IpAddress::V4(_)) => Err(BindError::InterfaceFamily),
            Some(IpAddress::V6(chosen)) => Ok(plan_v6(group, ip, chosen, platform)),
            None => Ok(plan_v6(group, ip, 0, platform)),
        },
    }
}

/// The steps for an IPv4 group with the address `ip`.
pub open spec fn plan_v4(
    group: SocketAddress,
    ip: u32,
    interface: u32,
    platform: Platform,
) -> Seq<SocketStep> {
    seq![
        SocketStep::Open(Family::V4),
        SocketStep::ReuseAddress(true),
        SocketStep::ReusePort(true),
        SocketStep::Bind(spec_bind_address(platform, group)),
        SocketStep::MulticastLoopV4(false),
        SocketStep::JoinV4 { group: ip, interface },
    ]
}

/// The steps for an IPv6 group with the address `ip`.
pub open spec fn plan_v6(
    group: SocketAddress,
    ip: u128,
    interface: u128,
    platform: Platform,
) -> Seq<SocketStep> {
    seq![
        SocketStep::Open(Family::V6),
        SocketStep::ReuseAddress(true),
        SocketStep::ReusePort(true),
        SocketStep::Bind(spec_bind_address(platform, group)),
        SocketStep::MulticastLoopV6(false),
        SocketStep::JoinV6 { group: ip, interface },
    ]
}

/// The steps of `bind_plan` for addresses read from text, where `None`
/// stands for text that is no address. A malformed group is reported before
/// a malformed interface.
pub open spec fn bind_plan_parsed(
    group: Option<SocketAddress>,
    interface: Option<Option<IpAddress>>,
    platform: Platform,
) -> Result<Seq<SocketStep>, BindError> {
    match group {
        None => Err(BindError::InvalidGroup),
        Some(group) => match interface {
            Some(None) => Err(BindError::InvalidInterface),
            Some(Some(chosen)) => bind_plan(group, Some(chosen), platform),
            None => bind_plan(group, None, platform),
        },
    }
}

/// The steps of a listener: those of `bind_plan_parsed`, and a last one that
/// makes the socket non-blocking.
pub open spec fn listen_plan(
    group: Option<SocketAddress>,
    interface: Option<Option<IpAddress>>,
    platform: Platform,
) -> Result<Seq<SocketStep>, BindError> {
    match bind_plan_parsed(group, interface, platform) {
        Ok(steps) => Ok(steps.push(SocketStep::NonBlocking(true))),
        Err(e) => Err(e),
    }
}

/// The interface that a plan joins on: the one given, as its address, or
/// all zeros for the system's choice.
pub open spec fn joined_interface(interface: Option<IpAddress>) -> int {
    match interface {
        Some(IpAddress::V4(chosen)) => chosen as int,
        Some(IpAddress::V6(chosen)) => chosen as int,
        None => 0,
    }
}

/// There is a plan exactly when the interface address, where one is given,
/// is of the group's family.
pub proof fn law_plan_needs_one_family(
    group: SocketAddress,
    interface: Option<IpAddress>,
    platform: Platform,
)
    ensures
        bind_plan(group, interface, platform) is Ok <==> (interface matches Some(chosen)
            ==> chosen.spec_family() == group.spec_ip().spec_family()),
        bind_plan(group, interface, platform) matches Err(e) ==> e == BindError::InterfaceFamily,
{
}

/// What every plan for a listener does, in this order: it opens a socket of
/// the group's family, allows the address and the port to be bound again,
/// binds as the platform asks, stops the socket from hearing its own host's
/// multicast, and joins the group on the interface given, and on no other.
pub proof fn law_plan_shape(group: SocketAddress, interface: Option<IpAddress>, platform: Platform)
    requires
        bind_plan(group, interface, platform) is Ok,
    ensures
        ({
            let steps = bind_plan(group, interface, platform)->Ok_0;
            &&& steps.len() == 6
            &&& steps[0] == SocketStep::Open(group.spec_ip().spec_family())
            &&& steps[1] == SocketStep::ReuseAddress(true)
            &&& steps[2] == SocketStep::ReusePort(true)
            &&& steps[3] == SocketStep::Bind(spec_bind_address(platform, group))
            &&& steps[3]->Bind_0.spec_port() == group.spec_port()
            &&& match group {
                SocketAddress::V4 { ip, .. } => {
                    &&& steps[4] == SocketStep::MulticastLoopV4(false)
                    &&& steps[5] is JoinV4
                    &&& steps[5]->JoinV4_group == ip
                    &&& steps[5]->JoinV4_interface == joined_interface(interface)
                },
                SocketAddress::V6 { ip, .. } => {
                    &&& steps[4] == SocketStep::MulticastLoopV6(false)
                    &&& steps[5] is JoinV6
                    &&& steps[5]->JoinV6_group == ip
                    &&& steps[5]->JoinV6_interface == joined_interface(interface)
                },
            }
        }),
{
}

/// A plan and a result agree: the same error, or the same steps.
pub open spec fn plan_is(
    r: Result<Vec<SocketStep>, BindError>,
    plan: Result<Seq<SocketStep>, BindError>,
) -> bool {
    match r {
        Ok(steps) => plan == Ok::<Seq<SocketStep>, BindError>(steps@),
        Err(e) => plan == Err::<Seq<SocketStep>, BindError>(e),
    }
}

/// Plans the socket for a multicast group from addresses read from text.
/// `multi_addr` is `None` where the group's text is no socket address;
/// `if_addr` is `None` where no interface is given and `Some(None)` where
/// its text is no host address.
pub fn bind_multicast(
    multi_addr: Option<SocketAddress>,
    if_addr: Option<Option<IpAddress>>,
    platform: Platform,
) -> (r: Result<Vec<SocketStep>, BindError>)
    ensures
        plan_is(r, bind_plan_parsed(multi_addr, if_addr, platform)),
{
    let group = match multi_addr {
        Some(group) => group,
        None => {
            return Err(BindError::InvalidGroup);
        },
    };
    let interface = match if_addr {
        Some(Some(chosen)) => Some(chosen),
        Some(None) => {
            return Err(BindError::InvalidInterface);
        },
        None => None,
    };
    bind_multicast_ip(&group, interface, platform)
}

/// Plans the socket for the multicast group `multi_addr`, to be joined on
/// the interface with the address `if_addr` where one is given, and on that
/// interface only.
pub fn bind_multicast_ip(
    multi_addr: &SocketAddress,
    if_addr: Option<IpAddress>,
    platform: Platform,
) -> (r: Result<Vec<SocketStep>, BindError>)
    ensures
        plan_is(r, bind_plan(*multi_addr, if_addr, platform)),
{
    let join = match (*multi_addr, if_addr) {
        (SocketAddress::V4 { ip, .. }, Some(IpAddress::V4(chosen))) => SocketStep::JoinV4 {
            group: ip,
            interface: chosen,
        },
        (SocketAddress::V4 { ip, .. }, None) => SocketStep::JoinV4 { group: ip, interface: 0 },
        (SocketAddress::V6 { ip, .. }, Some(IpAddress::V6(chosen))) => SocketStep::JoinV6 {
            group: ip,
            interface: chosen,
        },
        (SocketAddress::V6 { ip, .. }, None) => SocketStep::JoinV6 { group: ip, interface: 0 },
        _ => {
            return Err(BindError::InterfaceFamily);
        },
    };
    let family = multi_addr.ip().family();
    let mut steps: Vec<SocketStep> = Vec::new();
    steps.push(SocketStep::Open(family));
    steps.push(SocketStep::ReuseAddress(true));
    steps.push(SocketStep::ReusePort(true));
    steps.push(SocketStep::Bind(bind_address(platform, multi_addr)));
    match family {
        Family::V4 => steps.push(SocketStep::MulticastLoopV4(false)),
        Family::V6 => steps.push(SocketStep::MulticastLoopV6(false)),
    }
    steps.push(join);
    assert(steps@ =~= bind_plan(*multi_addr, if_addr, platform)->Ok_0);
    Ok(steps)
}

/// A listener on a multicast group: the steps that set up its socket.
#[derive(Debug)]
pub struct MulticastSocket {
    steps: Vec<SocketStep>,
}

impl View for MulticastSocket {
    type V = Seq<SocketStep>;

    /// The steps that set up the socket, in order.
    closed spec fn view(&self) -> Seq<SocketStep> {
        self.steps@
    }
}

impl MulticastSocket {
    /// Plans a listener on the group `multi_addr`. The arguments are
    /// addresses read from text, as for [`bind_multicast`].
    pub fn try_new(
        multi_addr: Option<SocketAddress>,
        if_addr: Option<Option<IpAddress>>,
        platform: Platform,
    ) -> (r: Result<Self, BindError>)
        ensures
            match r {
                Ok(listener) => listen_plan(multi_addr, if_addr, platform) == Ok::<
                    Seq<SocketStep>,
                    BindError,
                >(listener@),
                Err(e) => listen_plan(multi_addr, if_addr, platform) == Err::<
                    Seq<SocketStep>,
                    BindError,
                >(e),
            },
    {
        match bind_multicast(multi_addr, if_addr, platform) {
            Ok(mut steps) => {
                steps.push(SocketStep::NonBlocking(true));
                Ok(Self { steps })
            },
            Err(e) => Err(e),
        }
    }

    /// The steps that set up the socket, in order.
    pub fn steps(&self) -> (r: &Vec<SocketStep>)
        ensures
            r@ == self@,
    {
        &self.steps
    }

    /// Filters one datagram of `len` bytes that arrived from `from`: it is
    /// handed on exactly when its sender is the host `expect_ip`. Any other
    /// datagram is dropped, and the caller receives again.
    pub fn recv_peer(&self, expect_ip: IpAddress, len: usize, from: SocketAddress) -> (r: Option<
        (usize, SocketAddress),
    >)
        ensures
            r == accept_from(expect_ip, len, from),
    {
        if from.ip() == expect_ip {
            Some((len, from))
        } else {
            None
        }
    }
}

/// The datagram that the filter hands on, where it does.
pub open spec fn accept_from(expect_ip: IpAddress, len: usize, from: SocketAddress) -> Option<
    (usize, SocketAddress),
> {
    if from.spec_ip() == expect_ip {
        Some((len, from))
    } else {
        None
    }
}

} // verus!
