//! Endpoint resolution and the device session.
//!
//! The resolver walks a configuration's interface descriptors for the first
//! endpoint of a requested transfer type and direction.  The session owns
//! the transport, the claimed-interface set and the resolved endpoint pair,
//! performs claim/detach at open and driver reattachment at close, and
//! carries the register protocol and the chunked bulk engine.

use crate::aub::DataWidth;
use crate::aub::GULP_TIMEOUT_MS;
use crate::aub::MAX_BUF_SIZE;
use crate::aub::REG;
use crate::aub::REGISTER_REQUEST;
use crate::aub::RequestType;
use crate::registers::encode_register_value;
use crate::registers::fits_width;
use crate::registers::settle_register_read;
use crate::usb::ConfigDesc;
use crate::usb::Direction;
use crate::usb::EndpointDesc;
use crate::usb::InterfaceDesc;
use crate::usb::Transport;
use crate::usb::TransferKind;
use crate::usb::UsbError;
use crate::usb::UsbOp;
use vstd::prelude::*;
use vstd::slice::slice_subrange;

verus! {

/// Vendor id of the device this driver binds to.
pub const VENDOR_ID: u16 = 0xF4CE;

/// Product id of the device this driver binds to.
pub const PRODUCT_ID: u16 = 0x0003;

/// Whether a device descriptor's identity pair is this driver's device.
pub fn matches_device_id(vendor_id: u16, product_id: u16) -> (r: bool)
    ensures
        r <==> vendor_id == VENDOR_ID && product_id == PRODUCT_ID,
{
    vendor_id == VENDOR_ID && product_id == PRODUCT_ID
}

/// One USB endpoint as the session uses it: where it lives in the
/// descriptor tree, its address, and whether a native driver was bound to
/// its interface when the device was opened.
#[derive(Debug, Copy, Clone, PartialEq, Eq, Structural)]
pub struct Endpoint {
    pub config: u8,
    pub interface: u8,
    pub setting: u8,
    pub address: u8,
    pub has_driver: bool,
}

/// One interface as a claim/detach target.
#[derive(Debug, Copy, Clone, PartialEq, Eq, Structural)]
pub struct Interface {
    pub configuration: u8,
    pub number: u8,
    pub alternate_setting: u8,
    pub has_driver: bool,
}

impl Endpoint {
    /// An endpoint stub for an interface descriptor, before an address is
    /// known.
    pub fn new(cfg: u8, ix: &InterfaceDesc) -> (r: Self)
        ensures
            r == (Endpoint {
                config: cfg,
                interface: ix.number,
                setting: ix.setting,
                address: 0u8,
                has_driver: false,
            }),
    {
        Self { config: cfg, interface: ix.number, setting: ix.setting, address: 0u8, has_driver: false }
    }

    /// The endpoint's address with the IN direction bit set, as handed to a
    /// bulk read.
    pub fn read_address(&self) -> (r: u8)
        ensures
            r == (self.address | 0x80u8),
    {
        self.address | 0x80
    }
}

/// Whether one endpoint descriptor matches the requested transfer type and
/// direction, and is not the endpoint excluded by address.
pub open spec fn ep_matches(
    e: EndpointDesc,
    transfer_type: TransferKind,
    direction: Direction,
    excluded: Option<u8>,
) -> bool {
    &&& e.transfer == transfer_type
    &&& e.direction == direction
    &&& match excluded {
        Option::Some(a) => e.address != a,
        Option::None => true,
    }
}

/// The first matching endpoint descriptor at or after position `i`.
pub open spec fn find_ep_from(
    eps: Seq<EndpointDesc>,
    transfer_type: TransferKind,
    direction: Direction,
    excluded: Option<u8>,
    i: int,
) -> Option<EndpointDesc>
    decreases eps.len() - i,
{
    if i < 0 || i >= eps.len() {
        Option::None
    } else if ep_matches(eps[i], transfer_type, direction, excluded) {
        Option::Some(eps[i])
    } else {
        find_ep_from(eps, transfer_type, direction, excluded, i + 1)
    }
}

/// The resolved endpoint for the first interface descriptor at or after
/// position `i` that holds a matching endpoint.  The native-driver flag of
/// the result is left unset: only a live transport can answer it.
pub open spec fn find_in_config_from(
    cfg: ConfigDesc,
    transfer_type: TransferKind,
    direction: Direction,
    excluded: Option<u8>,
    i: int,
) -> Option<Endpoint>
    decreases cfg.interfaces@.len() - i,
{
    if i < 0 || i >= cfg.interfaces@.len() {
        Option::None
    } else {
        let ix = cfg.interfaces@[i];
        match find_ep_from(ix.endpoints@, transfer_type, direction, excluded, 0) {
            Option::Some(ep) => Option::Some(
                Endpoint {
                    config: cfg.number,
                    interface: ix.number,
                    setting: ix.setting,
                    address: ep.address,
                    has_driver: false,
                },
            ),
            Option::None => find_in_config_from(cfg, transfer_type, direction, excluded, i + 1),
        }
    }
}

/// The endpoint the resolver yields for a descriptor tree: the first match
/// inside the first configuration that yielded descriptors.
pub open spec fn spec_find_endpoint(
    configs: Seq<ConfigDesc>,
    transfer_type: TransferKind,
    direction: Direction,
    excluded: Option<u8>,
) -> Option<Endpoint> {
    if configs.len() == 0 {
        Option::None
    } else {
        find_in_config_from(configs[0], transfer_type, direction, excluded, 0)
    }
}

/// The first matching endpoint descriptor of one interface descriptor.
fn find_ep_in_interface(
    ix: &InterfaceDesc,
    transfer_type: TransferKind,
    direction: Direction,
    excluded: Option<u8>,
) -> (r: Option<EndpointDesc>)
    ensures
        r == find_ep_from(ix.endpoints@, transfer_type, direction, excluded, 0),
{
    let n = ix.endpoints.len();
    let mut j: usize = 0;
    while j < n
        invariant
            j <= n,
            n == ix.endpoints@.len(),
            find_ep_from(ix.endpoints@, transfer_type, direction, excluded, 0) == find_ep_from(
                ix.endpoints@,
                transfer_type,
                direction,
                excluded,
                j as int,
            ),
        decreases n - j,
    {
        let e = ix.endpoints[j];
        let excluded_here = match excluded {
            Option::Some(a) => e.address == a,
            Option::None => false,
        };
        if e.transfer == transfer_type && e.direction == direction && !excluded_here {
            return Option::Some(e);
        }
        j += 1;
    }
    Option::None
}

/// Resolve the first endpoint of the requested transfer type and direction,
/// skipping the endpoint whose address is `excluded`, and record whether a
/// native driver is bound to its interface.  An unanswerable driver query
/// counts as "no driver bound", never as an error.
fn find_endpoint_excluding<T: Transport>(
    transport: &mut T,
    configs: &Vec<ConfigDesc>,
    transfer_type: TransferKind,
    direction: Direction,
    excluded: Option<u8>,
) -> (r: Option<Endpoint>)
    ensures
        r is Some <==> spec_find_endpoint(configs@, transfer_type, direction, excluded) is Some,
        r matches Some(e) ==> spec_find_endpoint(configs@, transfer_type, direction, excluded)
            == Option::Some((Endpoint { has_driver: false, ..e })),
{
    if configs.len() == 0 {
        return Option::None;
    }
    let n = configs[0].interfaces.len();
    let mut i: usize = 0;
    while i < n
        invariant
            i <= n,
            n == configs@[0].interfaces@.len(),
            configs@.len() > 0,
            find_in_config_from(configs@[0], transfer_type, direction, excluded, 0)
                == find_in_config_from(configs@[0], transfer_type, direction, excluded, i as int),
        decreases n - i,
    {
        let ix = &configs[0].interfaces[i];
        match find_ep_in_interface(ix, transfer_type, direction, excluded) {
            Option::Some(ep) => {
                let has_driver = match transport.kernel_driver_active(ix.number) {
                    Ok(b) => b,
                    Err(_) => false,
                };
                return Option::Some(
                    Endpoint {
                        config: configs[0].number,
                        interface: ix.number,
                        setting: ix.setting,
                        address: ep.address,
                        has_driver,
                    },
                );
            },
            Option::None => {},
        }
        i += 1;
    }
    Option::None
}

/// Resolve the first endpoint of the requested transfer type and direction
/// in the first configuration that yielded descriptors.
pub fn find_endpoint<T: Transport>(
    transport: &mut T,
    configs: &Vec<ConfigDesc>,
    transfer_type: TransferKind,
    direction: Direction,
) -> (r: Option<Endpoint>)
    ensures
        r is Some <==> spec_find_endpoint(configs@, transfer_type, direction, Option::None)
            is Some,
        r matches Some(e) ==> spec_find_endpoint(configs@, transfer_type, direction, Option::None)
            == Option::Some((Endpoint { has_driver: false, ..e })),
{
    find_endpoint_excluding(transport, configs, transfer_type, direction, Option::None)
}

/// The interface numbers of every alternate-setting descriptor of the first
/// configuration, in descriptor order; empty when no configuration yielded
/// descriptors.
pub fn find_interfaces(configs: &Vec<ConfigDesc>) -> (r: Vec<u8>)
    ensures
        configs@.len() == 0 ==> r@ == Seq::<u8>::empty(),
        configs@.len() > 0 ==> r@.len() == configs@[0].interfaces@.len(),
        configs@.len() > 0 ==> forall|i: int|
            0 <= i < r@.len() ==> r@[i] == configs@[0].interfaces@[i].number,
{
    if configs.len() == 0 {
        return Vec::new();
    }
    let n = configs[0].interfaces.len();
    let mut out: Vec<u8> = Vec::new();
    let mut i: usize = 0;
    while i < n
        invariant
            i <= n,
            n == configs@[0].interfaces@.len(),
            configs@.len() > 0,
            out@.len() == i,
            forall|k: int| 0 <= k < i ==> out@[k] == configs@[0].interfaces@[k].number,
        decreases n - i,
    {
        out.push(configs[0].interfaces[i].number);
        i += 1;
    }
    out
}

/// The operation sequence that configures one interface: detach the native
/// driver only where one is bound, then select the configuration, claim the
/// interface and select its alternate setting, in that order.
pub open spec fn spec_configure_ops(e: Endpoint) -> Seq<UsbOp> {
    let tail = seq![
        UsbOp::SetConfiguration { config: e.config },
        UsbOp::Claim { interface: e.interface },
        UsbOp::SetAlternate { interface: e.interface, setting: e.setting },
    ];
    if e.has_driver {
        seq![UsbOp::Detach { interface: e.interface }] + tail
    } else {
        tail
    }
}

/// Detach a bound native driver (best effort, its failure ignored), then
/// select the configuration, claim the interface and select its alternate
/// setting, short-circuiting on the first failure.  The issued operations
/// are appended to `log`: always some prefix of the intended sequence, the
/// whole of it on success, and never less than the detach decision and the
/// configuration selection.
pub fn configure_interface<T: Transport>(
    transport: &mut T,
    interface: &Interface,
    log: &mut Ghost<Seq<UsbOp>>,
) -> (r: Result<(), UsbError>)
    ensures
        ({
            let ops = spec_configure_ops(
                Endpoint {
                    config: interface.configuration,
                    interface: interface.number,
                    setting: interface.alternate_setting,
                    address: 0u8,
                    has_driver: interface.has_driver,
                },
            );
            &&& (r is Ok ==> final(log)@ == old(log)@ + ops)
            &&& exists|k: int|
                0 <= k <= ops.len() && final(log)@ == old(log)@ + #[trigger] ops.take(k)
            &&& final(log)@.len() >= old(log)@.len() + (if interface.has_driver {
                2int
            } else {
                1int
            })
        }),
{
    let endpoint = Endpoint {
        config: interface.configuration,
        interface: interface.number,
        setting: interface.alternate_setting,
        address: 0u8,
        has_driver: interface.has_driver,
    };
    configure_endpoint(transport, &endpoint, log)
}

/// Detach a bound native driver (best effort, its failure ignored), then
/// select the configuration, claim the endpoint's interface and select its
/// alternate setting, short-circuiting on the first failure.  The issued
/// operations are appended to `log`: always some prefix of the intended
/// sequence, the whole of it on success, and never less than the detach
/// decision and the configuration selection.
pub fn configure_endpoint<T: Transport>(
    transport: &mut T,
    endpoint: &Endpoint,
    log: &mut Ghost<Seq<UsbOp>>,
) -> (r: Result<(), UsbError>)
    ensures
        r is Ok ==> final(log)@ == old(log)@ + spec_configure_ops(*endpoint),
        exists|k: int|
            0 <= k <= spec_configure_ops(*endpoint).len() && final(log)@ == old(log)@
                + #[trigger] spec_configure_ops(*endpoint).take(k),
        final(log)@.len() >= old(log)@.len() + (if endpoint.has_driver {
            2int
        } else {
            1int
        }),
{
    let ghost base = log@;
    let ghost ops = spec_configure_ops(*endpoint);
    let ghost head: int = if endpoint.has_driver {
        1
    } else {
        0
    };
    if endpoint.has_driver {
        let _ = transport.detach_kernel_driver(endpoint.interface);
        *log = Ghost(log@.push(UsbOp::Detach { interface: endpoint.interface }));
    }
    let r1 = transport.set_active_configuration(endpoint.config);
    *log = Ghost(log@.push(UsbOp::SetConfiguration { config: endpoint.config }));
    match r1 {
        Ok(()) => {},
        Err(e) => {
            proof {
                assert(log@ =~= base + ops.take(head + 1));
            }
            return Err(e);
        },
    }
    let r2 = transport.claim_interface(endpoint.interface);
    *log = Ghost(log@.push(UsbOp::Claim { interface: endpoint.interface }));
    match r2 {
        Ok(()) => {},
        Err(e) => {
            proof {
                assert(log@ =~= base + ops.take(head + 2));
            }
            return Err(e);
        },
    }
    let r3 = transport.set_alternate_setting(endpoint.interface, endpoint.setting);
    *log = Ghost(
        log@.push(UsbOp::SetAlternate { interface: endpoint.interface, setting: endpoint.setting }),
    );
    proof {
        assert(log@ =~= base + ops);
        assert(ops.take(ops.len() as int) =~= ops);
    }
    match r3 {
        Ok(()) => Ok(()),
        Err(e) => Err(e),
    }
}

/// The access width a register operation uses when the caller names none.
pub open spec fn spec_effective_width(width: Option<DataWidth>) -> DataWidth {
    match width {
        Option::Some(w) => w,
        Option::None => DataWidth::Half,
    }
}

/// The control transfer a register write issues: a host-to-device vendor
/// request with the register address in the value field, the width selector
/// in the index field, and the value's wire bytes as payload.
pub open spec fn spec_register_write_op(reg: REG, value: u32, w: DataWidth) -> UsbOp {
    UsbOp::ControlWrite {
        request_type: 0x40,
        request: REGISTER_REQUEST,
        value: reg.spec_addr() as u16,
        index: w.spec_code(),
        data: crate::registers::spec_encode_register(value, w),
    }
}

/// The control transfer a register read issues: a device-to-host vendor
/// request with the register address in the value field, the width selector
/// in the index field, asking for the width's byte count.
pub open spec fn spec_register_read_op(reg: REG, w: DataWidth) -> UsbOp {
    UsbOp::ControlRead {
        request_type: 0xC0,
        request: REGISTER_REQUEST,
        value: reg.spec_addr() as u16,
        index: w.spec_code(),
        len: w.spec_nbytes() as int,
    }
}

/// The interfaces teardown owes a reattach attempt, in order: the bulk-IN
/// endpoint's interface where its native-driver flag is set and, where
/// distinct, the bulk-OUT endpoint's likewise.
pub open spec fn spec_close_attempts(pre: SessionView) -> Seq<u8> {
    let first = if pre.ep_in.has_driver {
        seq![pre.ep_in.interface]
    } else {
        Seq::empty()
    };
    let second = if pre.ep_out.has_driver && pre.ep_out.interface != pre.ep_in.interface {
        seq![pre.ep_out.interface]
    } else {
        Seq::empty()
    };
    first + second
}

/// The interfaces of the failed reattach attempts in an operation run, in
/// order.
pub open spec fn spec_failed_attaches(ops: Seq<UsbOp>) -> Seq<u8>
    decreases ops.len(),
{
    if ops.len() == 0 {
        Seq::empty()
    } else {
        let rest = spec_failed_attaches(ops.drop_first());
        match ops[0] {
            UsbOp::Attach { interface, ok } => if ok {
                rest
            } else {
                seq![interface] + rest
            },
            _ => rest,
        }
    }
}

/// An open session with the device: the exclusive owner of the transport,
/// the claimed-interface set, the resolved bulk endpoint pair, an optional
/// telemetry endpoint and the cached descriptor strings.
pub struct AxisUSB<T: Transport> {
    transport: T,
    interfaces: Vec<u8>,
    ep_in: Endpoint,
    ep_out: Endpoint,
    telemetry: Option<Endpoint>,
    label: String,
    serial: String,
    ops: Ghost<Seq<UsbOp>>,
}

/// The abstract state of a session: everything but the transport handle,
/// which is never shared outside the session.
pub struct SessionView {
    /// The claimed interface numbers, deduplicated.
    pub interfaces: Seq<u8>,
    /// The resolved bulk-IN endpoint.
    pub ep_in: Endpoint,
    /// The resolved bulk-OUT endpoint.
    pub ep_out: Endpoint,
    /// A distinct bulk-IN endpoint carrying diagnostic telemetry, if the
    /// device exposes one.
    pub telemetry: Option<Endpoint>,
    /// The product string captured at open.
    pub label: Seq<char>,
    /// The serial-number string captured at open.
    pub serial: Seq<char>,
}

impl SessionView {
    /// The claimed-interface set holds the bulk-IN endpoint's interface
    /// and, only when distinct, the bulk-OUT endpoint's interface, each
    /// exactly once.
    pub open spec fn wf(self) -> bool {
        if self.ep_in.interface == self.ep_out.interface {
            self.interfaces == seq![self.ep_in.interface]
        } else {
            self.interfaces == seq![self.ep_in.interface, self.ep_out.interface]
        }
    }
}

impl<T: Transport> View for AxisUSB<T> {
    type V = SessionView;

    closed spec fn view(&self) -> SessionView {
        SessionView {
            interfaces: self.interfaces@,
            ep_in: self.ep_in,
            ep_out: self.ep_out,
            telemetry: self.telemetry,
            label: self.label@,
            serial: self.serial@,
        }
    }
}

/// The interfaces of the failed reattach attempts of a single operation.
pub open spec fn spec_failed_of_one(op: UsbOp) -> Seq<u8> {
    match op {
        UsbOp::Attach { interface, ok } => if ok {
            Seq::empty()
        } else {
            seq![interface]
        },
        _ => Seq::empty(),
    }
}

/// `spec_failed_attaches` computed on runs of at most two operations.
proof fn lemma_failed_attaches_small(ops: Seq<UsbOp>)
    requires
        ops.len() <= 2,
    ensures
        ops.len() == 0 ==> spec_failed_attaches(ops) == Seq::<u8>::empty(),
        ops.len() == 1 ==> spec_failed_attaches(ops) == spec_failed_of_one(ops[0]),
        ops.len() == 2 ==> spec_failed_attaches(ops) == spec_failed_of_one(ops[0])
            + spec_failed_of_one(ops[1]),
{
    if ops.len() == 1 {
        assert(ops.drop_first() =~= Seq::<UsbOp>::empty());
        assert(spec_failed_attaches(ops.drop_first()) =~= Seq::<u8>::empty());
        assert(spec_failed_attaches(ops) =~= spec_failed_of_one(ops[0]));
    } else if ops.len() == 2 {
        let rest = ops.drop_first();
        assert(rest.len() == 1);
        assert(rest.drop_first() =~= Seq::<UsbOp>::empty());
        assert(spec_failed_attaches(rest.drop_first()) =~= Seq::<u8>::empty());
        assert(rest[0] == ops[1]);
        assert(spec_failed_attaches(rest) =~= spec_failed_of_one(ops[1]));
        assert(spec_failed_attaches(ops) =~= spec_failed_of_one(ops[0]) + spec_failed_of_one(
            ops[1],
        ));
    }
}

/// An endpoint with its native-driver flag cleared: the state teardown
/// leaves behind.
pub open spec fn spec_release(e: Endpoint) -> Endpoint {
    Endpoint { has_driver: false, ..e }
}

/// Teardown is idempotent on the session's endpoint state: releasing an
/// already-released endpoint changes nothing, so a second close finds no
/// native driver left to reattach.
pub proof fn lemma_close_idempotent(e: Endpoint)
    ensures
        spec_release(spec_release(e)) == spec_release(e),
{
}

impl<T: Transport> AxisUSB<T> {
    /// The ghost log of the operations this session has issued to its
    /// transport, oldest first, starting with the interface configuration
    /// performed at open.
    pub closed spec fn log(&self) -> Seq<UsbOp> {
        self.ops@
    }

    /// The resolved bulk-IN endpoint.
    pub fn endpoint_in(&self) -> (r: Endpoint)
        ensures
            r == self@.ep_in,
    {
        self.ep_in
    }

    /// The resolved bulk-OUT endpoint.
    pub fn endpoint_out(&self) -> (r: Endpoint)
        ensures
            r == self@.ep_out,
    {
        self.ep_out
    }

    /// The telemetry endpoint, if the device exposes one.
    pub fn telemetry_endpoint(&self) -> (r: Option<Endpoint>)
        ensures
            r == self@.telemetry,
    {
        self.telemetry
    }

    /// The claimed interface numbers, deduplicated, in claim order.
    pub fn claimed_interfaces(&self) -> (r: Vec<u8>)
        ensures
            r@ == self@.interfaces,
    {
        self.interfaces.clone()
    }

    /// Open a session over a freshly opened transport: read the descriptor
    /// strings (ASCII only), resolve the bulk endpoint pair and an optional
    /// telemetry endpoint, then detach/claim each distinct interface once.
    pub fn open(transport: T, configs: &Vec<ConfigDesc>) -> (r: Result<AxisUSB<T>, UsbError>)
        ensures
            spec_find_endpoint(configs@, TransferKind::Bulk, Direction::In, Option::None) is None
                ==> r is Err,
            spec_find_endpoint(configs@, TransferKind::Bulk, Direction::Out, Option::None) is None
                ==> r is Err,
            r matches Ok(s) ==> {
                &&& s@.wf()
                &&& spec_find_endpoint(configs@, TransferKind::Bulk, Direction::In, Option::None)
                    == Option::Some((Endpoint { has_driver: false, ..s@.ep_in }))
                &&& spec_find_endpoint(configs@, TransferKind::Bulk, Direction::Out, Option::None)
                    == Option::Some((Endpoint { has_driver: false, ..s@.ep_out }))
                &&& (s@.ep_in.interface == s@.ep_out.interface ==> s@.interfaces == seq![
                    s@.ep_in.interface,
                ])
                &&& (s@.ep_in.interface != s@.ep_out.interface ==> s@.interfaces == seq![
                    s@.ep_in.interface,
                    s@.ep_out.interface,
                ])
                &&& (s@.telemetry is Some <==> spec_find_endpoint(
                    configs@,
                    TransferKind::Bulk,
                    Direction::In,
                    Option::Some(s@.ep_in.address),
                ) is Some)
                &&& (s@.telemetry matches Some(te) ==> spec_find_endpoint(
                    configs@,
                    TransferKind::Bulk,
                    Direction::In,
                    Option::Some(s@.ep_in.address),
                ) == Option::Some((Endpoint { has_driver: false, ..te })))
                &&& vstd::utf8::is_ascii_chars(s@.label)
                &&& vstd::utf8::is_ascii_chars(s@.serial)
                &&& s.log() == (if s@.ep_in.interface == s@.ep_out.interface {
                    spec_configure_ops(s@.ep_in)
                } else {
                    spec_configure_ops(s@.ep_in) + spec_configure_ops(s@.ep_out)
                })
            },
    {
        let mut transport = transport;
        let label = match transport.read_product_string() {
            Ok(s) => s,
            Err(e) => {
                return Err(e);
            },
        };
        if !label.is_ascii() {
            return Err(UsbError::InvalidString);
        }
        let serial = match transport.read_serial_string() {
            Ok(s) => s,
            Err(e) => {
                return Err(e);
            },
        };
        if !serial.is_ascii() {
            return Err(UsbError::InvalidString);
        }
        let ep_in = match find_endpoint(&mut transport, configs, TransferKind::Bulk, Direction::In)
        {
            Option::Some(e) => e,
            Option::None => {
                return Err(UsbError::NotFound);
            },
        };
        let ep_out = match find_endpoint(
            &mut transport,
            configs,
            TransferKind::Bulk,
            Direction::Out,
        ) {
            Option::Some(e) => e,
            Option::None => {
                return Err(UsbError::NotFound);
            },
        };
        let telemetry = find_endpoint_excluding(
            &mut transport,
            configs,
            TransferKind::Bulk,
            Direction::In,
            Option::Some(ep_in.address),
        );
        let mut interfaces: Vec<u8> = Vec::new();
        let mut ops: Ghost<Seq<UsbOp>> = Ghost(Seq::empty());
        interfaces.push(ep_in.interface);
        match configure_endpoint(&mut transport, &ep_in, &mut ops) {
            Ok(()) => {},
            Err(e) => {
                return Err(e);
            },
        }
        if ep_in.interface != ep_out.interface {
            interfaces.push(ep_out.interface);
            match configure_endpoint(&mut transport, &ep_out, &mut ops) {
                Ok(()) => {},
                Err(e) => {
                    return Err(e);
                },
            }
        }
        proof {
            if ep_in.interface == ep_out.interface {
                assert(interfaces@ =~= seq![ep_in.interface]);
                assert(ops@ =~= spec_configure_ops(ep_in));
            } else {
                assert(interfaces@ =~= seq![ep_in.interface, ep_out.interface]);
                assert(ops@ =~= spec_configure_ops(ep_in) + spec_configure_ops(ep_out));
            }
        }
        Ok(Self { transport, interfaces, ep_in, ep_out, telemetry, label, serial, ops })
    }

    /// The product string captured at open.
    pub fn product(&self) -> (r: String)
        ensures
            r@ == self@.label,
    {
        self.label.clone()
    }

    /// The serial-number string captured at open.
    pub fn serial_number(&self) -> (r: String)
        ensures
            r@ == self@.serial,
    {
        self.serial.clone()
    }

    /// Read a register over a device-to-host vendor control transfer.  The
    /// invalid `Unset` width is rejected; a successful read yields a value
    /// sized to the access width.
    pub fn read_register(&mut self, reg: REG, width: Option<DataWidth>) -> (r: Result<
        u32,
        UsbError,
    >)
        ensures
            final(self)@ == old(self)@,
            spec_effective_width(width) == DataWidth::Unset ==> r == Err::<u32, UsbError>(
                UsbError::InvalidWidth,
            ) && final(self).log() == old(self).log(),
            spec_effective_width(width) != DataWidth::Unset ==> final(self).log() == old(
                self,
            ).log().push(spec_register_read_op(reg, spec_effective_width(width))),
            r matches Ok(v) ==> fits_width(v, spec_effective_width(width)),
    {
        let w = match width {
            Option::Some(w) => w,
            Option::None => DataWidth::Half,
        };
        if w == DataWidth::Unset {
            return Err(UsbError::InvalidWidth);
        }
        let n = w.nbytes();
        let result = self.transport.read_control(
            RequestType::IN.value(),
            REGISTER_REQUEST,
            reg.addr() as u16,
            w.code(),
            n,
            GULP_TIMEOUT_MS,
        );
        self.ops = Ghost(self.ops@.push(spec_register_read_op(reg, w)));
        let data = match result {
            Ok(d) => d,
            Err(e) => {
                return Err(e);
            },
        };
        proof {
            crate::registers::lemma_decode_register_fits(data@);
        }
        settle_register_read(&data, w)
    }

    /// Write a register over a host-to-device vendor control transfer and
    /// return the number of bytes the device accepted, so a caller can
    /// confirm the expected byte count was acknowledged.
    pub fn write_register(&mut self, reg: REG, value: u32, width: Option<DataWidth>) -> (r: Result<
        usize,
        UsbError,
    >)
        requires
            spec_effective_width(width) == DataWidth::Unset || fits_width(
                value,
                spec_effective_width(width),
            ),
        ensures
            final(self)@ == old(self)@,
            spec_effective_width(width) == DataWidth::Unset ==> r == Err::<usize, UsbError>(
                UsbError::InvalidWidth,
            ) && final(self).log() == old(self).log(),
            spec_effective_width(width) != DataWidth::Unset ==> final(self).log() == old(
                self,
            ).log().push(spec_register_write_op(reg, value, spec_effective_width(width))),
            r matches Ok(n) ==> n <= spec_effective_width(width).spec_nbytes(),
    {
        let w = match width {
            Option::Some(w) => w,
            Option::None => DataWidth::Half,
        };
        if w == DataWidth::Unset {
            return Err(UsbError::InvalidWidth);
        }
        let data = encode_register_value(value, w);
        let result = self.transport.write_control(
            RequestType::OUT.value(),
            REGISTER_REQUEST,
            reg.addr() as u16,
            w.code(),
            data.as_slice(),
            GULP_TIMEOUT_MS,
        );
        self.ops = Ghost(self.ops@.push(spec_register_write_op(reg, value, w)));
        result
    }

    /// Write the whole buffer to the bulk-OUT endpoint, retrying the
    /// remainder after any short write, and report the true total written:
    /// on success that is exactly the buffer's length.
    pub fn write(&mut self, buffer: &[u8]) -> (r: Result<usize, UsbError>)
        ensures
            final(self)@ == old(self)@,
            r matches Ok(n) ==> n == buffer@.len(),
            buffer@.len() == 0 ==> r is Ok && final(self).log() == old(self).log(),
            old(self).log().len() <= final(self).log().len(),
            forall|j: int|
                0 <= j < old(self).log().len() ==> final(self).log()[j] == old(self).log()[j],
            forall|j: int|
                old(self).log().len() <= j < final(self).log().len()
                    ==> (#[trigger] final(self).log()[j] matches UsbOp::BulkWrite {
                    address,
                    data,
                } && address == old(self)@.ep_out.address && data.len() > 0),
    {
        let len = buffer.len();
        if len == 0 {
            return Ok(0);
        }
        let mut written: usize = 0;
        while written < len
            invariant
                written <= len,
                len == buffer@.len(),
                self@ == old(self)@,
                old(self).log().len() <= self.log().len(),
                forall|j: int|
                    0 <= j < old(self).log().len() ==> self.log()[j] == old(self).log()[j],
                forall|j: int|
                    old(self).log().len() <= j < self.log().len() ==> (#[trigger] self.log()[j]
                        matches UsbOp::BulkWrite { address, data } && address
                        == old(self)@.ep_out.address && data.len() > 0),
            decreases len - written,
        {
            let chunk = slice_subrange(buffer, written, len);
            let result = self.transport.write_bulk(self.ep_out.address, chunk, GULP_TIMEOUT_MS);
            self.ops = Ghost(
                self.ops@.push(UsbOp::BulkWrite { address: self.ep_out.address, data: chunk@ }),
            );
            let n = match result {
                Ok(n) => n,
                Err(e) => {
                    return Err(e);
                },
            };
            written = written + n;
        }
        Ok(written)
    }

    /// Best-effort bulk read from the bulk-IN endpoint with a short timeout
    /// (the default when the caller names none).  A timeout is a normal
    /// "no data yet" outcome and yields an empty result, never an error.
    pub fn try_read(&mut self, timeout_ms: Option<u64>) -> (r: Result<Vec<u8>, UsbError>)
        ensures
            final(self)@ == old(self)@,
            final(self).log() == old(self).log().push(
                UsbOp::BulkRead { address: old(self)@.ep_in.address, max_len: MAX_BUF_SIZE as int },
            ),
            r matches Err(e) ==> e != UsbError::Timeout,
            r matches Ok(d) ==> d@.len() <= MAX_BUF_SIZE,
    {
        let to = match timeout_ms {
            Option::Some(t) => t,
            Option::None => GULP_TIMEOUT_MS,
        };
        let result = self.transport.read_bulk(self.ep_in.address, MAX_BUF_SIZE, to);
        self.ops = Ghost(
            self.ops@.push(
                UsbOp::BulkRead { address: self.ep_in.address, max_len: MAX_BUF_SIZE as int },
            ),
        );
        match result {
            Ok(d) => Ok(d),
            Err(UsbError::Timeout) => Ok(Vec::new()),
            Err(e) => Err(e),
        }
    }

    /// Read the raw telemetry byte stream from the telemetry endpoint into
    /// a bounded buffer.
    pub fn read_telemetry(&mut self) -> (r: Result<Vec<u8>, UsbError>)
        ensures
            final(self)@ == old(self)@,
            old(self)@.telemetry is None ==> r == Err::<Vec<u8>, UsbError>(UsbError::NotFound)
                && final(self).log() == old(self).log(),
            old(self)@.telemetry matches Some(te) ==> final(self).log() == old(self).log().push(
                UsbOp::BulkRead { address: te.address | 0x80u8, max_len: MAX_BUF_SIZE as int },
            ),
            r matches Ok(d) ==> d@.len() <= MAX_BUF_SIZE,
    {
        let te = match self.telemetry {
            Option::Some(t) => t,
            Option::None => {
                return Err(UsbError::NotFound);
            },
        };
        let address = te.read_address();
        let result = self.transport.read_bulk(address, MAX_BUF_SIZE, GULP_TIMEOUT_MS);
        self.ops = Ghost(
            self.ops@.push(UsbOp::BulkRead { address, max_len: MAX_BUF_SIZE as int }),
        );
        result
    }

    /// Release the session: for the IN endpoint and, if distinct, the OUT
    /// endpoint, attempt to reattach the native driver where one was
    /// detached at open.  The log records exactly one attach attempt per
    /// owed interface, in order; the returned list names the interfaces
    /// whose attempt failed, and failure is never fatal.  Both
    /// native-driver flags are cleared, so a second close reattaches
    /// nothing.
    pub fn close(&mut self) -> (failed: Vec<u8>)
        ensures
            final(self)@.ep_in == spec_release(old(self)@.ep_in),
            final(self)@.ep_out == spec_release(old(self)@.ep_out),
            final(self)@.interfaces == old(self)@.interfaces,
            final(self)@.telemetry == old(self)@.telemetry,
            final(self)@.label == old(self)@.label,
            final(self)@.serial == old(self)@.serial,
            final(self).log().len() == old(self).log().len() + spec_close_attempts(
                old(self)@,
            ).len(),
            forall|j: int|
                0 <= j < old(self).log().len() ==> final(self).log()[j] == old(self).log()[j],
            forall|j: int|
                0 <= j < spec_close_attempts(old(self)@).len()
                    ==> (#[trigger] final(self).log()[old(self).log().len() + j]
                    matches UsbOp::Attach { interface, ok: _ } && interface
                    == spec_close_attempts(old(self)@)[j]),
            failed@ == spec_failed_attaches(
                final(self).log().skip(old(self).log().len() as int),
            ),
            !old(self)@.ep_in.has_driver && !old(self)@.ep_out.has_driver ==> failed@
                == Seq::<u8>::empty(),
            forall|i: int|
                0 <= i < failed@.len() ==> failed@[i] == old(self)@.ep_in.interface || failed@[i]
                    == old(self)@.ep_out.interface,
    {
        let ghost base = self.ops@;
        let ghost owed = spec_close_attempts(self@);
        let mut failed: Vec<u8> = Vec::new();
        if self.ep_in.has_driver {
            let ok = self.transport.attach_kernel_driver(self.ep_in.interface).is_ok();
            self.ops = Ghost(
                self.ops@.push(UsbOp::Attach { interface: self.ep_in.interface, ok }),
            );
            if !ok {
                failed.push(self.ep_in.interface);
            }
        }
        if self.ep_out.has_driver && self.ep_out.interface != self.ep_in.interface {
            let ok = self.transport.attach_kernel_driver(self.ep_out.interface).is_ok();
            self.ops = Ghost(
                self.ops@.push(UsbOp::Attach { interface: self.ep_out.interface, ok }),
            );
            if !ok {
                failed.push(self.ep_out.interface);
            }
        }
        self.ep_in.has_driver = false;
        self.ep_out.has_driver = false;
        proof {
            let appended = self.ops@.skip(base.len() as int);
            assert(appended.len() == owed.len());
            assert(forall|j: int| 0 <= j < appended.len() ==> appended[j] == self.ops@[base.len() + j]);
            lemma_failed_attaches_small(appended);
            assert(failed@ =~= spec_failed_attaches(appended));
        }
        failed
    }
}

} // verus!
