//! Concrete memory devices: RAM, ROM, and a closed device type that lets a
//! host populate one bus with a mixture of devices.

use vstd::prelude::*;

use crate::bus::{BusDevice, EmuResult, ReadResult};

verus! {

/// A flat byte RAM. Reads outside its size are open bus; writes outside
/// are dropped.
pub struct RAMDevice {
    memory: Vec<u8>,
}

impl RAMDevice {
    /// The bytes the RAM holds.
    pub closed spec fn spec_mem(self) -> Seq<u8> {
        self.memory@
    }

    /// Create a RAM of `size` zeroed bytes.
    pub fn new(size: usize) -> (r: RAMDevice)
        ensures
            r.spec_mem() == Seq::new(size as nat, |i: int| 0u8),
    {
        let mut memory: Vec<u8> = Vec::new();
        let mut i: usize = 0;
        while i < size
            invariant
                i <= size,
                memory@ == Seq::new(i as nat, |j: int| 0u8),
            decreases size - i,
        {
            memory.push(0);
            i += 1;
            proof {
                assert(memory@ =~= Seq::new(i as nat, |j: int| 0u8));
            }
        }
        RAMDevice { memory }
    }
}

impl BusDevice for RAMDevice {
    /// In-range reads return the stored byte; out-of-range reads are open
    /// bus; the memory never changes.
    open spec fn read_rel(pre: Self, addr: u32, post: Self, r: EmuResult<ReadResult>) -> bool {
        post == pre && r == Ok::<ReadResult, crate::bus::EmuError>(
            if addr < pre.spec_mem().len() {
                ReadResult::Data(pre.spec_mem()[addr as int])
            } else {
                ReadResult::OpenBus
            },
        )
    }

    /// In-range writes store the byte; out-of-range writes are dropped.
    open spec fn write_rel(pre: Self, addr: u32, data: u8, post: Self, r: EmuResult<()>) -> bool {
        r == Ok::<(), crate::bus::EmuError>(()) && post.spec_mem() == if addr
            < pre.spec_mem().len() {
            pre.spec_mem().update(addr as int, data)
        } else {
            pre.spec_mem()
        }
    }

    open spec fn start_rel(pre: Self, post: Self, r: EmuResult<()>) -> bool {
        post == pre && r == Ok::<(), crate::bus::EmuError>(())
    }

    open spec fn end_rel(pre: Self, post: Self) -> bool {
        post == pre
    }

    fn bus_read(&mut self, addr: u32) -> (r: EmuResult<ReadResult>)
        ensures
            Self::read_rel(*old(self), addr, *final(self), r),
    {
        let idx = addr as usize;
        if idx < self.memory.len() {
            Ok(ReadResult::Data(self.memory[idx]))
        } else {
            Ok(ReadResult::OpenBus)
        }
    }

    fn bus_write(&mut self, addr: u32, data: u8) -> (r: EmuResult<()>)
        ensures
            Self::write_rel(*old(self), addr, data, *final(self), r),
    {
        let idx = addr as usize;
        if idx < self.memory.len() {
            self.memory[idx] = data;
        }
        Ok(())
    }

    fn start_of_simulation(&mut self) -> (r: EmuResult<()>)
        ensures
            Self::start_rel(*old(self), *final(self), r),
    {
        Ok(())
    }

    fn end_of_simulation(&mut self)
        ensures
            Self::end_rel(*old(self), *final(self)),
    {
    }
}

/// A flat byte ROM. Reads outside its contents are open bus; writes are
/// silent no-ops.
pub struct ROMDevice {
    contents: Vec<u8>,
}

impl ROMDevice {
    /// The bytes the ROM holds.
    pub closed spec fn spec_contents(self) -> Seq<u8> {
        self.contents@
    }

    /// Create a ROM holding the given contents.
    pub fn new(contents: Vec<u8>) -> (r: ROMDevice)
        ensures
            r.spec_contents() == contents@,
    {
        ROMDevice { contents }
    }
}

impl BusDevice for ROMDevice {
    /// In-range reads return the stored byte; out-of-range reads are open
    /// bus; the contents never change.
    open spec fn read_rel(pre: Self, addr: u32, post: Self, r: EmuResult<ReadResult>) -> bool {
        post == pre && r == Ok::<ReadResult, crate::bus::EmuError>(
            if addr < pre.spec_contents().len() {
                ReadResult::Data(pre.spec_contents()[addr as int])
            } else {
                ReadResult::OpenBus
            },
        )
    }

    /// ROM is read-only: every write is ignored.
    open spec fn write_rel(pre: Self, addr: u32, data: u8, post: Self, r: EmuResult<()>) -> bool {
        post == pre && r == Ok::<(), crate::bus::EmuError>(())
    }

    open spec fn start_rel(pre: Self, post: Self, r: EmuResult<()>) -> bool {
        post == pre && r == Ok::<(), crate::bus::EmuError>(())
    }

    open spec fn end_rel(pre: Self, post: Self) -> bool {
        post == pre
    }

    fn bus_read(&mut self, addr: u32) -> (r: EmuResult<ReadResult>)
        ensures
            Self::read_rel(*old(self), addr, *final(self), r),
    {
        let idx = addr as usize;
        if idx < self.contents.len() {
            Ok(ReadResult::Data(self.contents[idx]))
        } else {
            Ok(ReadResult::OpenBus)
        }
    }

    fn bus_write(&mut self, addr: u32, data: u8) -> (r: EmuResult<()>)
        ensures
            Self::write_rel(*old(self), addr, data, *final(self), r),
    {
        // ROM is read-only, so writes are ignored
        Ok(())
    }

    fn start_of_simulation(&mut self) -> (r: EmuResult<()>)
        ensures
            Self::start_rel(*old(self), *final(self), r),
    {
        Ok(())
    }

    fn end_of_simulation(&mut self)
        ensures
            Self::end_rel(*old(self), *final(self)),
    {
    }
}

/// One device of any of the library's kinds, so that a host can register a
/// mixture of devices with one router: a RAM, a ROM, or either mirrored
/// over some low address bits.
pub enum AnyDevice {
    Ram(RAMDevice),
    Rom(ROMDevice),
    Mirrored(u32, Box<AnyDevice>),
}

/// The read relation of a mixed device: each kind reads as its own device
/// does; a mirrored device sees the masked address.
pub open spec fn any_read_rel(
    pre: AnyDevice,
    addr: u32,
    post: AnyDevice,
    r: EmuResult<ReadResult>,
) -> bool
    decreases pre,
{
    match pre {
        AnyDevice::Ram(d) => post is Ram && RAMDevice::read_rel(d, addr, post->Ram_0, r),
        AnyDevice::Rom(d) => post is Rom && ROMDevice::read_rel(d, addr, post->Rom_0, r),
        AnyDevice::Mirrored(mask, inner) => post is Mirrored && post->Mirrored_0 == mask
            && any_read_rel(*inner, addr & mask, *post->Mirrored_1, r),
    }
}

/// The write relation of a mixed device.
pub open spec fn any_write_rel(
    pre: AnyDevice,
    addr: u32,
    data: u8,
    post: AnyDevice,
    r: EmuResult<()>,
) -> bool
    decreases pre,
{
    match pre {
        AnyDevice::Ram(d) => post is Ram && RAMDevice::write_rel(d, addr, data, post->Ram_0, r),
        AnyDevice::Rom(d) => post is Rom && ROMDevice::write_rel(d, addr, data, post->Rom_0, r),
        AnyDevice::Mirrored(mask, inner) => post is Mirrored && post->Mirrored_0 == mask
            && any_write_rel(*inner, addr & mask, data, *post->Mirrored_1, r),
    }
}

impl BusDevice for AnyDevice {
    open spec fn read_rel(pre: Self, addr: u32, post: Self, r: EmuResult<ReadResult>) -> bool {
        any_read_rel(pre, addr, post, r)
    }

    open spec fn write_rel(pre: Self, addr: u32, data: u8, post: Self, r: EmuResult<()>) -> bool {
        any_write_rel(pre, addr, data, post, r)
    }

    open spec fn start_rel(pre: Self, post: Self, r: EmuResult<()>) -> bool {
        post == pre && r == Ok::<(), crate::bus::EmuError>(())
    }

    open spec fn end_rel(pre: Self, post: Self) -> bool {
        post == pre
    }

    fn bus_read(&mut self, addr: u32) -> (r: EmuResult<ReadResult>)
        ensures
            Self::read_rel(*old(self), addr, *final(self), r),
        decreases *old(self),
    {
        match self {
            AnyDevice::Ram(d) => d.bus_read(addr),
            AnyDevice::Rom(d) => d.bus_read(addr),
            AnyDevice::Mirrored(mask, inner) => {
                let masked = addr & *mask;
                inner.bus_read(masked)
            },
        }
    }

    fn bus_write(&mut self, addr: u32, data: u8) -> (r: EmuResult<()>)
        ensures
            Self::write_rel(*old(self), addr, data, *final(self), r),
        decreases *old(self),
    {
        match self {
            AnyDevice::Ram(d) => d.bus_write(addr, data),
            AnyDevice::Rom(d) => d.bus_write(addr, data),
            AnyDevice::Mirrored(mask, inner) => {
                let masked = addr & *mask;
                inner.bus_write(masked, data)
            },
        }
    }

    fn start_of_simulation(&mut self) -> (r: EmuResult<()>)
        ensures
            Self::start_rel(*old(self), *final(self), r),
    {
        Ok(())
    }

    fn end_of_simulation(&mut self)
        ensures
            Self::end_rel(*old(self), *final(self)),
    {
    }
}

} // verus!
