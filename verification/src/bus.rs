//! The bus-routing abstraction the CPU drives: address-range dispatch with
//! translation, a mirroring wrapper, and open-bus semantics when no device
//! claims an address.
//!
//! Every device states, as part of its `BusDevice` implementation, what its
//! reads, writes and lifecycle hooks do — a relation between the device
//! state before and after each operation — and its executable methods are
//! proven to behave exactly so. The router's contract then says which
//! device receives each access, at which translated address, and that every
//! other device is untouched.

use vstd::prelude::*;
use vstd::wrapping::u32_specs;

verus! {

/// The unified emulation error a device may surface: a test ROM signalling
/// the end of the run, or one reporting a failure code.
#[derive(Debug, Clone, Copy, PartialEq, Eq, Structural)]
pub enum EmuError {
    StopEmulation,
    TestROMFailure(u8),
}

pub type EmuResult<T> = Result<T, EmuError>;

/// The outcome of a bus read: a byte, or open bus when no device drives
/// the data lines (the host leaves the data bus unchanged).
#[derive(Debug, Clone, Copy, PartialEq, Eq, Structural)]
pub enum ReadResult {
    Data(u8),
    OpenBus,
}

/// A device on the bus. Each implementation supplies the mathematical
/// relation its reads, writes and lifecycle hooks satisfy, and its
/// executable methods are proven to satisfy them.
pub trait BusDevice: Sized {
    /// How a read at `addr` relates the old state to the new state and
    /// the produced result.
    spec fn read_rel(pre: Self, addr: u32, post: Self, r: EmuResult<ReadResult>) -> bool;

    /// How a write of `data` at `addr` relates the old state to the new
    /// state and the produced result.
    spec fn write_rel(pre: Self, addr: u32, data: u8, post: Self, r: EmuResult<()>) -> bool;

    /// How the start-of-simulation hook relates the old state to the new
    /// state and the produced result.
    spec fn start_rel(pre: Self, post: Self, r: EmuResult<()>) -> bool;

    /// How the end-of-simulation hook relates the old state to the new.
    spec fn end_rel(pre: Self, post: Self) -> bool;

    fn bus_read(&mut self, addr: u32) -> (r: EmuResult<ReadResult>)
        ensures
            Self::read_rel(*old(self), addr, *final(self), r),
    ;

    fn bus_write(&mut self, addr: u32, data: u8) -> (r: EmuResult<()>)
        ensures
            Self::write_rel(*old(self), addr, data, *final(self), r),
    ;

    fn start_of_simulation(&mut self) -> (r: EmuResult<()>)
        ensures
            Self::start_rel(*old(self), *final(self), r),
    ;

    fn end_of_simulation(&mut self)
        ensures
            Self::end_rel(*old(self), *final(self)),
    ;
}

/// One address mapping: bus addresses in `[init_start, init_start + len)`
/// are translated into device addresses starting at `trg_start`.
#[derive(Debug, Clone, Copy, PartialEq, Eq, Structural)]
pub struct AddrMapping {
    pub init_start: u32,
    pub trg_start: u32,
    pub len: u32,
}

impl AddrMapping {
    /// Whether a bus address falls inside this mapping.
    pub open spec fn spec_matches(self, addr: u32) -> bool {
        addr >= self.init_start && addr - self.init_start < self.len
    }

    pub fn matches(&self, addr: u32) -> (r: bool)
        ensures
            r == self.spec_matches(addr),
    {
        addr >= self.init_start && addr - self.init_start < self.len
    }

    /// The device address a matching bus address translates to.
    pub open spec fn spec_translate(self, addr: u32) -> u32 {
        u32_specs::wrapping_add(u32_specs::wrapping_sub(addr, self.init_start), self.trg_start)
    }

    pub fn translate(&self, addr: u32) -> (r: u32)
        ensures
            r == self.spec_translate(addr),
    {
        addr.wrapping_sub(self.init_start).wrapping_add(self.trg_start)
    }
}

/// The index of the first mapping at or after `i` that matches `addr`.
pub open spec fn spec_find_from<D>(
    devices: Seq<(AddrMapping, D)>,
    addr: u32,
    i: int,
) -> Option<int>
    decreases devices.len() - i,
{
    if i < 0 || i >= devices.len() {
        None
    } else if devices[i].0.spec_matches(addr) {
        Some(i)
    } else {
        spec_find_from(devices, addr, i + 1)
    }
}

/// The index of the first mapping that matches `addr`: routing is
/// first-match-wins in registration order.
pub open spec fn spec_find_mapping<D>(devices: Seq<(AddrMapping, D)>, addr: u32) -> Option<int> {
    spec_find_from(devices, addr, 0)
}

/// Starting every device from `i` on, in order, stopping at the first
/// error: only started devices change, each per its own start relation.
pub open spec fn start_from_rel<D: BusDevice>(
    pre: Seq<(AddrMapping, D)>,
    i: int,
    post: Seq<(AddrMapping, D)>,
    r: EmuResult<()>,
) -> bool
    decreases pre.len() - i,
{
    if i < 0 || i >= pre.len() {
        post == pre && r == Ok::<(), EmuError>(())
    } else {
        let mid = pre.update(i, (pre[i].0, post[i].1));
        (D::start_rel(pre[i].1, post[i].1, Ok(())) && start_from_rel(mid, i + 1, post, r)) || (
        r is Err && D::start_rel(pre[i].1, post[i].1, r) && post == mid)
    }
}

/// Ending every device from `i` on, in order, each per its own end
/// relation.
pub open spec fn end_from_rel<D: BusDevice>(
    pre: Seq<(AddrMapping, D)>,
    i: int,
    post: Seq<(AddrMapping, D)>,
) -> bool
    decreases pre.len() - i,
{
    if i < 0 || i >= pre.len() {
        post == pre
    } else {
        let mid = pre.update(i, (pre[i].0, post[i].1));
        D::end_rel(pre[i].1, post[i].1) && end_from_rel(mid, i + 1, post)
    }
}

/// Devices before the start index of a start chain are untouched.
proof fn lemma_start_from_frame<D: BusDevice>(
    pre: Seq<(AddrMapping, D)>,
    i: int,
    post: Seq<(AddrMapping, D)>,
    r: EmuResult<()>,
)
    requires
        start_from_rel(pre, i, post, r),
    ensures
        post.len() == pre.len(),
        forall|k: int| 0 <= k < i && k < pre.len() ==> post[k] == pre[k],
    decreases pre.len() - i,
{
    if 0 <= i < pre.len() {
        let mid = pre.update(i, (pre[i].0, post[i].1));
        if D::start_rel(pre[i].1, post[i].1, Ok(())) && start_from_rel(mid, i + 1, post, r) {
            lemma_start_from_frame(mid, i + 1, post, r);
        }
    }
}

/// Devices before the start index of an end chain are untouched.
proof fn lemma_end_from_frame<D: BusDevice>(
    pre: Seq<(AddrMapping, D)>,
    i: int,
    post: Seq<(AddrMapping, D)>,
)
    requires
        end_from_rel(pre, i, post),
    ensures
        post.len() == pre.len(),
        forall|k: int| 0 <= k < i && k < pre.len() ==> post[k] == pre[k],
    decreases pre.len() - i,
{
    if 0 <= i < pre.len() {
        let mid = pre.update(i, (pre[i].0, post[i].1));
        lemma_end_from_frame(mid, i + 1, post);
    }
}

/// A linearly scanned list of address mappings, each owning its device.
/// Overlapping ranges are the caller's responsibility: the first match in
/// registration order wins.
pub struct GenericRouter<D: BusDevice> {
    /// The registered mappings and their devices, in registration order.
    pub devices: Vec<(AddrMapping, D)>,
}

impl<D: BusDevice> GenericRouter<D> {
    /// The registered mappings and their devices, in registration order.
    pub open spec fn spec_devices(self) -> Seq<(AddrMapping, D)> {
        self.devices@
    }

    /// Create an empty router.
    pub fn new() -> (r: GenericRouter<D>)
        ensures
            r.spec_devices() == Seq::<(AddrMapping, D)>::empty(),
    {
        GenericRouter { devices: Vec::new() }
    }

    /// Register a device for the given address range.
    pub fn add_device(&mut self, init_start: u32, trg_start: u32, len: u32, device: D)
        ensures
            final(self).spec_devices() == old(self).spec_devices().push(
                (AddrMapping { init_start, trg_start, len }, device),
            ),
    {
        self.devices.push((AddrMapping { init_start, trg_start, len }, device));
    }

    /// The index of the first mapping that matches `addr`.
    fn find_device_index(&self, addr: u32) -> (r: Option<usize>)
        ensures
            match r {
                Some(i) => spec_find_mapping(self.spec_devices(), addr) == Some(i as int) && i
                    < self.spec_devices().len(),
                None => spec_find_mapping(self.spec_devices(), addr) is None,
            },
    {
        let ghost devices = self.spec_devices();
        let mut i: usize = 0;
        while i < self.devices.len()
            invariant
                i <= self.devices.len(),
                devices == self.spec_devices(),
                devices.len() == self.devices.len(),
                spec_find_from(devices, addr, i as int) == spec_find_mapping(devices, addr),
            decreases self.devices.len() - i,
        {
            if self.devices[i].0.matches(addr) {
                return Some(i);
            }
            i += 1;
        }
        None
    }
}

impl<D: BusDevice> BusDevice for GenericRouter<D> {
    /// Reads are dispatched to the first matching device at the translated
    /// address; every other device is untouched; with no match the read is
    /// open bus and nothing changes.
    open spec fn read_rel(pre: Self, addr: u32, post: Self, r: EmuResult<ReadResult>) -> bool {
        match spec_find_mapping(pre.spec_devices(), addr) {
            Some(i) => post.spec_devices() == pre.spec_devices().update(
                i,
                (pre.spec_devices()[i].0, post.spec_devices()[i].1),
            ) && D::read_rel(
                pre.spec_devices()[i].1,
                pre.spec_devices()[i].0.spec_translate(addr),
                post.spec_devices()[i].1,
                r,
            ),
            None => post == pre && r == Ok::<ReadResult, EmuError>(ReadResult::OpenBus),
        }
    }

    /// Writes are dispatched like reads; a write no mapping claims is
    /// silently dropped.
    open spec fn write_rel(pre: Self, addr: u32, data: u8, post: Self, r: EmuResult<()>) -> bool {
        match spec_find_mapping(pre.spec_devices(), addr) {
            Some(i) => post.spec_devices() == pre.spec_devices().update(
                i,
                (pre.spec_devices()[i].0, post.spec_devices()[i].1),
            ) && D::write_rel(
                pre.spec_devices()[i].1,
                pre.spec_devices()[i].0.spec_translate(addr),
                data,
                post.spec_devices()[i].1,
                r,
            ),
            None => post == pre && r == Ok::<(), EmuError>(()),
        }
    }

    /// The hook reaches every device in registration order and
    /// short-circuits on the first error.
    open spec fn start_rel(pre: Self, post: Self, r: EmuResult<()>) -> bool {
        start_from_rel(pre.spec_devices(), 0, post.spec_devices(), r)
    }

    /// The hook reaches every device in registration order.
    open spec fn end_rel(pre: Self, post: Self) -> bool {
        end_from_rel(pre.spec_devices(), 0, post.spec_devices())
    }

    fn bus_read(&mut self, addr: u32) -> (r: EmuResult<ReadResult>)
        ensures
            Self::read_rel(*old(self), addr, *final(self), r),
    {
        let found = self.find_device_index(addr);
        match found {
            Some(i) => {
                let translated = self.devices[i].0.translate(addr);
                let entry = &mut self.devices[i];
                let r = entry.1.bus_read(translated);
                proof {
                    assert(self.spec_devices() =~~= old(self).spec_devices().update(
                        i as int,
                        (old(self).spec_devices()[i as int].0, self.spec_devices()[i as int].1),
                    ));
                }
                r
            },
            None => Ok(ReadResult::OpenBus),
        }
    }

    fn bus_write(&mut self, addr: u32, data: u8) -> (r: EmuResult<()>)
        ensures
            Self::write_rel(*old(self), addr, data, *final(self), r),
    {
        let found = self.find_device_index(addr);
        match found {
            Some(i) => {
                let translated = self.devices[i].0.translate(addr);
                let entry = &mut self.devices[i];
                let r = entry.1.bus_write(translated, data);
                proof {
                    assert(self.spec_devices() =~~= old(self).spec_devices().update(
                        i as int,
                        (old(self).spec_devices()[i as int].0, self.spec_devices()[i as int].1),
                    ));
                }
                r
            },
            None => Ok(()),
        }
    }

    fn start_of_simulation(&mut self) -> (r: EmuResult<()>)
        ensures
            Self::start_rel(*old(self), *final(self), r),
    {
        let ghost orig = self.spec_devices();
        let mut i: usize = 0;
        while i < self.devices.len()
            invariant
                i <= self.devices.len(),
                orig == old(self).spec_devices(),
                self.devices@.len() == orig.len(),
                forall|k: int| i <= k < orig.len() ==> self.devices@[k] == orig[k],
                forall|post: Seq<(AddrMapping, D)>, r2: EmuResult<()>|
                    #[trigger] start_from_rel(self.devices@, i as int, post, r2)
                        ==> start_from_rel(orig, 0, post, r2),
            decreases self.devices.len() - i,
        {
            let ghost pre = self.devices@;
            let entry = &mut self.devices[i];
            let r = entry.1.start_of_simulation();
            proof {
                assert(self.devices@ =~~= pre.update(
                    i as int,
                    (pre[i as int].0, self.devices@[i as int].1),
                ));
            }
            if let Err(e) = r {
                proof {
                    assert(start_from_rel(pre, i as int, self.devices@, Err::<(), EmuError>(e)));
                    assert(start_from_rel(orig, 0, self.devices@, Err::<(), EmuError>(e)));
                }
                return Err(e);
            }
            proof {
                assert(!(r is Err));
                assert(r is Ok);
                assert(r->Ok_0 == ());
                assert(r == Ok::<(), EmuError>(()));
                assert forall|post: Seq<(AddrMapping, D)>, r2: EmuResult<()>|
                    #[trigger] start_from_rel(self.devices@, i as int + 1, post, r2) implies
                    start_from_rel(pre, i as int, post, r2) by {
                    lemma_start_from_frame(self.devices@, i as int + 1, post, r2);
                    assert(post[i as int] == self.devices@[i as int]);
                    assert(pre.update(i as int, (pre[i as int].0, post[i as int].1)) =~~= self.devices@);
                }
            }
            i += 1;
        }
        proof {
            assert(start_from_rel(self.devices@, i as int, self.devices@, Ok::<(), EmuError>(())));
        }
        Ok(())
    }

    fn end_of_simulation(&mut self)
        ensures
            Self::end_rel(*old(self), *final(self)),
    {
        let ghost orig = self.spec_devices();
        let mut i: usize = 0;
        while i < self.devices.len()
            invariant
                i <= self.devices.len(),
                orig == old(self).spec_devices(),
                self.devices@.len() == orig.len(),
                forall|k: int| i <= k < orig.len() ==> self.devices@[k] == orig[k],
                forall|post: Seq<(AddrMapping, D)>|
                    #[trigger] end_from_rel(self.devices@, i as int, post) ==> end_from_rel(
                        orig,
                        0,
                        post,
                    ),
            decreases self.devices.len() - i,
        {
            let ghost pre = self.devices@;
            let entry = &mut self.devices[i];
            entry.1.end_of_simulation();
            proof {
                assert(self.devices@ =~~= pre.update(
                    i as int,
                    (pre[i as int].0, self.devices@[i as int].1),
                ));
                assert forall|post: Seq<(AddrMapping, D)>|
                    #[trigger] end_from_rel(self.devices@, i as int + 1, post) implies
                    end_from_rel(pre, i as int, post) by {
                    lemma_end_from_frame(self.devices@, i as int + 1, post);
                    assert(post[i as int] == self.devices@[i as int]);
                    assert(pre.update(i as int, (pre[i as int].0, post[i as int].1)) =~~= self.devices@);
                }
            }
            i += 1;
        }
        proof {
            assert(end_from_rel(self.devices@, i as int, self.devices@));
        }
    }
}

/// A wrapper that mirrors a device over its low `addr_bits` address bits:
/// the wrapped device sees every address masked by `(1 << addr_bits) - 1`.
pub struct MirroringWrapper<T: BusDevice> {
    device: T,
    addr_mask: u32,
}

impl<T: BusDevice> MirroringWrapper<T> {
    pub closed spec fn spec_device(self) -> T {
        self.device
    }

    pub closed spec fn spec_addr_mask(self) -> u32 {
        self.addr_mask
    }

    /// Wrap a device so that it is mirrored over `addr_bits` address bits.
    pub fn new(device: T, addr_bits: usize) -> (r: MirroringWrapper<T>)
        requires
            addr_bits < 32,
        ensures
            r.spec_device() == device,
            r.spec_addr_mask() == (1u32 << addr_bits as u32) - 1,
    {
        let bits = addr_bits as u32;
        proof {
            assert(1u32 << bits >= 1) by (bit_vector)
                requires
                    bits < 32,
            ;
        }
        MirroringWrapper { device, addr_mask: (1u32 << bits) - 1 }
    }
}

impl<T: BusDevice> BusDevice for MirroringWrapper<T> {
    /// For every bus address, the wrapped device sees exactly the masked
    /// address.
    open spec fn read_rel(pre: Self, addr: u32, post: Self, r: EmuResult<ReadResult>) -> bool {
        T::read_rel(pre.spec_device(), addr & pre.spec_addr_mask(), post.spec_device(), r)
            && post.spec_addr_mask() == pre.spec_addr_mask()
    }

    /// For every bus address, the wrapped device sees exactly the masked
    /// address.
    open spec fn write_rel(pre: Self, addr: u32, data: u8, post: Self, r: EmuResult<()>) -> bool {
        T::write_rel(pre.spec_device(), addr & pre.spec_addr_mask(), data, post.spec_device(), r)
            && post.spec_addr_mask() == pre.spec_addr_mask()
    }

    open spec fn start_rel(pre: Self, post: Self, r: EmuResult<()>) -> bool {
        T::start_rel(pre.spec_device(), post.spec_device(), r) && post.spec_addr_mask()
            == pre.spec_addr_mask()
    }

    open spec fn end_rel(pre: Self, post: Self) -> bool {
        T::end_rel(pre.spec_device(), post.spec_device()) && post.spec_addr_mask()
            == pre.spec_addr_mask()
    }

    fn bus_read(&mut self, addr: u32) -> (r: EmuResult<ReadResult>)
        ensures
            Self::read_rel(*old(self), addr, *final(self), r),
    {
        let mirrored_addr = addr & self.addr_mask;
        self.device.bus_read(mirrored_addr)
    }

    fn bus_write(&mut self, addr: u32, data: u8) -> (r: EmuResult<()>)
        ensures
            Self::write_rel(*old(self), addr, data, *final(self), r),
    {
        let mirrored_addr = addr & self.addr_mask;
        self.device.bus_write(mirrored_addr, data)
    }

    fn start_of_simulation(&mut self) -> (r: EmuResult<()>)
        ensures
            Self::start_rel(*old(self), *final(self), r),
    {
        self.device.start_of_simulation()
    }

    fn end_of_simulation(&mut self)
        ensures
            Self::end_rel(*old(self), *final(self)),
    {
        self.device.end_of_simulation();
    }
}

} // verus!
