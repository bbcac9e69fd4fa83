//! The data-exchange phases run against an open session: a chunked bulk
//! write of a templated payload and a best-effort bulk read, each with the
//! optional packet-mode register handshake around it.
//!
//! The handshakes (prime TSR, publish the payload length in TLR, read the
//! status registers back; acknowledge a read by clearing RSR) are
//! best-effort diagnostics in this protocol version: they never gate the
//! bulk transfer itself.

use crate::aub::DataWidth;
use crate::aub::MAX_BUF_SIZE;
use crate::aub::REG;
use crate::axis_usb::spec_register_read_op;
use crate::axis_usb::spec_register_write_op;
use crate::axis_usb::AxisUSB;
use crate::telemetry::decode_telemetry;
use crate::telemetry::spec_to_state;
use crate::usb::Transport;
use crate::usb::UsbError;
use crate::usb::UsbOp;
use vstd::prelude::*;

verus! {

/// The 24-byte payload template the write phase replicates.
pub open spec fn spec_template() -> Seq<u8> {
    seq![
        0xffu8, 0x5au8, 0xc3u8, 0x2du8, 0x03u8, 0xb0u8, 0x00u8, 0x10u8, 0x03u8, 0xb0u8, 0x00u8,
        0x10u8, 0xffu8, 0x5au8, 0xc3u8, 0x2du8, 0xffu8, 0x80u8, 0x08u8, 0x3cu8, 0xa5u8, 0xc3u8,
        0x5au8, 0x99u8,
    ]
}

/// `s` repeated `k` times.
pub open spec fn spec_repeat(s: Seq<u8>, k: nat) -> Seq<u8>
    decreases k,
{
    if k == 0 {
        Seq::empty()
    } else {
        spec_repeat(s, (k - 1) as nat) + s
    }
}

/// The payload of the write phase: the template truncated to `size` bytes,
/// replicated `chunks` times.
pub open spec fn spec_wrdat(size: int, chunks: nat) -> Seq<u8> {
    spec_repeat(spec_template().subrange(0, size), chunks)
}

/// The payload template as bytes.
pub fn write_template() -> (r: Vec<u8>)
    ensures
        r@ == spec_template(),
        r@.len() == 24,
{
    let r: Vec<u8> = vec![
        0xff, 0x5a, 0xc3, 0x2d, 0x03, 0xb0, 0x00, 0x10, 0x03, 0xb0, 0x00, 0x10, 0xff, 0x5a, 0xc3,
        0x2d, 0xff, 0x80, 0x08, 0x3c, 0xa5, 0xc3, 0x5a, 0x99,
    ];
    proof {
        assert(r@ =~= spec_template());
    }
    r
}

/// Build the write-phase payload: the first `size` template bytes,
/// replicated `chunks` times.
pub fn build_wrdat(size: usize, chunks: usize) -> (r: Vec<u8>)
    requires
        size <= 24,
        size * chunks <= usize::MAX,
    ensures
        r@ == spec_wrdat(size as int, chunks as nat),
        r@.len() == size * chunks,
{
    let template = write_template();
    let mut wrdat: Vec<u8> = Vec::new();
    let mut c: usize = 0;
    while c < chunks
        invariant
            c <= chunks,
            size <= 24,
            template@ == spec_template(),
            template@.len() == 24,
            wrdat@ == spec_repeat(spec_template().subrange(0, size as int), c as nat),
            wrdat@.len() == size * c,
            size * chunks <= usize::MAX,
        decreases chunks - c,
    {
        let mut j: usize = 0;
        while j < size
            invariant
                j <= size,
                size <= 24,
                template@ == spec_template(),
                template@.len() == 24,
                wrdat@ == spec_repeat(spec_template().subrange(0, size as int), c as nat)
                    + spec_template().subrange(0, j as int),
                wrdat@.len() == size * c + j,
                c < chunks,
                size * chunks <= usize::MAX,
            decreases size - j,
        {
            proof {
                assert(size * c + j < size * chunks) by (nonlinear_arith)
                    requires
                        c < chunks,
                        j < size,
                        size * c + j == wrdat@.len(),
                        wrdat@.len() >= 0,
                ;
            }
            wrdat.push(template[j]);
            j += 1;
            proof {
                assert(spec_template().subrange(0, j as int) =~= spec_template().subrange(
                    0,
                    j - 1,
                ).push(spec_template()[j - 1]));
            }
        }
        c += 1;
        proof {
            assert(wrdat@ =~= spec_repeat(spec_template().subrange(0, size as int), c as nat));
            assert(size * c == size * (c - 1) + size) by (nonlinear_arith);
        }
    }
    proof {
        assert(wrdat@.len() == size * chunks);
    }
    wrdat
}

/// The write phase: build the templated payload, run the packet-mode write
/// handshake when asked (prime TSR, publish the payload length in TLR, read
/// TSR back), write the whole payload to the bulk-OUT endpoint, then read
/// TSR and TLR back for diagnostics.  On success the returned payload was
/// written in full.
pub fn tart_write<T: Transport>(
    tart: &mut AxisUSB<T>,
    size: usize,
    chunks: usize,
    packet_mode: bool,
) -> (r: Result<Vec<u8>, UsbError>)
    requires
        size <= 24,
        size * chunks <= usize::MAX,
    ensures
        final(tart)@ == old(tart)@,
        r matches Ok(d) ==> d@ == spec_wrdat(size as int, chunks as nat),
        r matches Ok(d) ==> d@.len() == size * chunks,
        !packet_mode && size * chunks == 0 ==> r is Ok,
        !packet_mode ==> ({
            let pre = old(tart).log();
            let post = final(tart).log();
            &&& pre.len() <= post.len()
            &&& (forall|j: int| 0 <= j < pre.len() ==> post[j] == pre[j])
            &&& (forall|j: int|
                pre.len() <= j < post.len() ==> (#[trigger] post[j] matches UsbOp::BulkWrite {
                    address,
                    data,
                } && address == old(tart)@.ep_out.address && data.len() > 0))
        }),
        packet_mode && r is Ok ==> ({
            let pre = old(tart).log();
            let post = final(tart).log();
            let b = pre.len() as int;
            &&& post.len() >= b + 5
            &&& (forall|j: int| 0 <= j < b ==> post[j] == pre[j])
            &&& post[b] == spec_register_write_op(REG::TSR, 0, DataWidth::Half)
            &&& post[b + 1] == spec_register_write_op(
                REG::TLR,
                ((size * chunks) % 0x10000) as u32,
                DataWidth::Half,
            )
            &&& post[b + 2] == spec_register_read_op(REG::TSR, DataWidth::Half)
            &&& post[post.len() - 2] == spec_register_read_op(REG::TSR, DataWidth::Half)
            &&& post[post.len() - 1] == spec_register_read_op(REG::TLR, DataWidth::Half)
            &&& (forall|j: int|
                b + 3 <= j < post.len() - 2 ==> (#[trigger] post[j] matches UsbOp::BulkWrite {
                    address,
                    data,
                } && address == old(tart)@.ep_out.address && data.len() > 0))
        }),
{
    let wrdat = build_wrdat(size, chunks);
    if packet_mode {
        match tart.write_register(REG::TSR, 0, Option::None) {
            Ok(_) => {},
            Err(e) => {
                return Err(e);
            },
        }
        let len16: u16 = (wrdat.len() % 0x10000) as u16;
        match tart.write_register(REG::TLR, len16 as u32, Option::None) {
            Ok(_) => {},
            Err(e) => {
                return Err(e);
            },
        }
        match tart.read_register(REG::TSR, Option::None) {
            Ok(_) => {},
            Err(e) => {
                return Err(e);
            },
        }
    }
    match tart.write(wrdat.as_slice()) {
        Ok(_) => {},
        Err(e) => {
            return Err(e);
        },
    }
    if packet_mode {
        match tart.read_register(REG::TSR, Option::None) {
            Ok(_) => {},
            Err(e) => {
                return Err(e);
            },
        }
        match tart.read_register(REG::TLR, Option::None) {
            Ok(_) => {},
            Err(e) => {
                return Err(e);
            },
        }
    }
    Ok(wrdat)
}

/// The read phase: a best-effort bulk read (skipped entirely when
/// `no_read`; a failed read counts as "no data", its error reported
/// alongside the bytes rather than raised), then, when asked, the
/// packet-mode read handshake: acknowledge by clearing RSR and read it
/// back.  Without the handshake the phase never fails.
pub fn tart_read<T: Transport>(tart: &mut AxisUSB<T>, no_read: bool, packet_mode: bool) -> (r:
    Result<(Vec<u8>, Option<UsbError>), UsbError>)
    ensures
        final(tart)@ == old(tart)@,
        no_read ==> (r matches Ok(p) && p.0@ == Seq::<u8>::empty() && p.1 is None),
        no_read ==> final(tart).log() == old(tart).log(),
        !no_read && !packet_mode ==> final(tart).log() == old(tart).log().push(
            UsbOp::BulkRead { address: old(tart)@.ep_in.address, max_len: MAX_BUF_SIZE as int },
        ),
        !no_read && packet_mode && r is Ok ==> final(tart).log() == old(tart).log().push(
            UsbOp::BulkRead { address: old(tart)@.ep_in.address, max_len: MAX_BUF_SIZE as int },
        ).push(spec_register_write_op(REG::RSR, 0, DataWidth::Half)).push(
            spec_register_read_op(REG::RSR, DataWidth::Half),
        ),
        !packet_mode ==> r is Ok,
        r matches Ok(p) ==> p.0@.len() <= MAX_BUF_SIZE,
        r matches Ok(p) ==> (p.1 matches Some(e) ==> e != UsbError::Timeout),
        r matches Ok(p) ==> (p.1 is Some ==> p.0@ == Seq::<u8>::empty()),
{
    if no_read {
        return Ok((Vec::new(), Option::None));
    }
    let (bytes, read_err) = match tart.try_read(Option::None) {
        Ok(xs) => (xs, Option::None),
        Err(e) => (Vec::new(), Option::Some(e)),
    };
    if packet_mode {
        match tart.write_register(REG::RSR, 0, Option::None) {
            Ok(_) => {},
            Err(e) => {
                return Err(e);
            },
        }
        match tart.read_register(REG::RSR, Option::None) {
            Ok(_) => {},
            Err(e) => {
                return Err(e);
            },
        }
    }
    Ok((bytes, read_err))
}

/// The telemetry phase: read the raw state stream from the telemetry
/// endpoint and decode it two bytes at a time into labeled lines, one per
/// record, numbered from 0.
pub fn tart_telemetry<T: Transport>(tart: &mut AxisUSB<T>) -> (r: Result<
    (Vec<u8>, Vec<String>),
    UsbError,
>)
    ensures
        final(tart)@ == old(tart)@,
        old(tart)@.telemetry is None ==> r is Err && final(tart).log() == old(tart).log(),
        old(tart)@.telemetry matches Some(te) ==> final(tart).log() == old(tart).log().push(
            UsbOp::BulkRead { address: te.address | 0x80u8, max_len: MAX_BUF_SIZE as int },
        ),
        r matches Ok(p) ==> {
            &&& p.0@.len() <= MAX_BUF_SIZE
            &&& p.1@.len() == p.0@.len() / 2
            &&& forall|i: int|
                0 <= i < p.1@.len() ==> p.1@[i]@ == spec_to_state(
                    i as nat,
                    p.0@[2 * i],
                    p.0@[2 * i + 1],
                )
        },
{
    let buf = match tart.read_telemetry() {
        Ok(b) => b,
        Err(e) => {
            return Err(e);
        },
    };
    let lines = decode_telemetry(&buf);
    Ok((buf, lines))
}

} // verus!
