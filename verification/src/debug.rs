//! A test-ROM monitor: a pass-through bus device that watches a known
//! memory window. Writes of a three-byte signature arm it; a write to the
//! window's status byte then reports test progress, success (which stops
//! the emulation) or failure. At the end of the simulation it collects the
//! window's NUL-terminated message for the host to display.

use vstd::prelude::*;

use crate::bus::{BusDevice, EmuError, EmuResult, ReadResult};

verus! {

/// The message bytes collected from consecutive device reads starting at
/// `addr`: reading stops at a zero byte, at open bus, at a read error, or
/// at the top of the address space, and the device evolves read by read.
pub open spec fn collect_msg_rel<T: BusDevice>(d0: T, addr: u32, d1: T, msg: Seq<u8>) -> bool
    decreases u32::MAX - addr,
{
    if addr == u32::MAX {
        d1 == d0 && msg.len() == 0
    } else {
        exists|dm: T, res: EmuResult<ReadResult>|
            {
                &&& #[trigger] T::read_rel(d0, addr, dm, res)
                &&& match res {
                    Ok(ReadResult::Data(b)) => if b == 0 {
                        d1 == dm && msg.len() == 0
                    } else {
                        msg.len() > 0 && msg[0] == b && collect_msg_rel(
                            dm,
                            (addr + 1) as u32,
                            d1,
                            msg.drop_first(),
                        )
                    },
                    _ => d1 == dm && msg.len() == 0,
                }
            }
    }
}

/// A monitor wrapped around a device, watching the test window at
/// `test_mem_base`.
pub struct TestROMMonitor<T: BusDevice> {
    device: T,
    test_mem_base: u32,
    sig0: u8,
    sig1: u8,
    sig2: u8,
    final_message: Option<Vec<u8>>,
}

impl<T: BusDevice> TestROMMonitor<T> {
    pub closed spec fn spec_device(self) -> T {
        self.device
    }

    pub closed spec fn spec_base(self) -> u32 {
        self.test_mem_base
    }

    pub closed spec fn spec_sigs(self) -> (u8, u8, u8) {
        (self.sig0, self.sig1, self.sig2)
    }

    pub closed spec fn spec_message(self) -> Option<Seq<u8>> {
        match self.final_message {
            Some(v) => Some(v@),
            None => None,
        }
    }

    /// The monitor is armed once the magic signature bytes have been
    /// written to the window.
    pub open spec fn spec_test_mode_active(self) -> bool {
        self.spec_sigs() == (0xDEu8, 0xB0u8, 0x61u8)
    }

    /// Where the window's message text starts.
    pub open spec fn spec_msg_base(self) -> u32 {
        if self.spec_base() <= u32::MAX - 4 {
            (self.spec_base() + 4) as u32
        } else {
            u32::MAX
        }
    }

    /// Wrap a device, watching the test window at `test_mem_base`.
    pub fn new(device: T, test_mem_base: u32) -> (r: TestROMMonitor<T>)
        ensures
            r.spec_device() == device,
            r.spec_base() == test_mem_base,
            r.spec_sigs() == (0u8, 0u8, 0u8),
            r.spec_message() is None,
    {
        TestROMMonitor {
            device,
            test_mem_base,
            sig0: 0,
            sig1: 0,
            sig2: 0,
            final_message: None,
        }
    }

    /// Whether the magic signature has been written to the window.
    pub fn test_mode_active(&self) -> (r: bool)
        ensures
            r == self.spec_test_mode_active(),
    {
        self.sig0 == 0xDE && self.sig1 == 0xB0 && self.sig2 == 0x61
    }

    /// The message collected at the end of the simulation, if the monitor
    /// was armed; taking it leaves none behind.
    pub fn take_message(&mut self) -> (r: Option<Vec<u8>>)
        ensures
            final(self).spec_device() == old(self).spec_device(),
            final(self).spec_base() == old(self).spec_base(),
            final(self).spec_sigs() == old(self).spec_sigs(),
            final(self).spec_message() is None,
            match r {
                Some(v) => old(self).spec_message() == Some(v@),
                None => old(self).spec_message() is None,
            },
    {
        let mut taken: Option<Vec<u8>> = None;
        core::mem::swap(&mut taken, &mut self.final_message);
        taken
    }
}

impl<T: BusDevice> BusDevice for TestROMMonitor<T> {
    /// Reads pass straight through to the wrapped device.
    open spec fn read_rel(pre: Self, addr: u32, post: Self, r: EmuResult<ReadResult>) -> bool {
        T::read_rel(pre.spec_device(), addr, post.spec_device(), r) && post.spec_base()
            == pre.spec_base() && post.spec_sigs() == pre.spec_sigs() && post.spec_message()
            == pre.spec_message()
    }

    /// Writes pass through to the wrapped device; a write into the
    /// signature bytes records it; a write to the armed window's status
    /// byte reports progress (0x80), success (0x00, stopping the
    /// emulation) or a failure code.
    open spec fn write_rel(pre: Self, addr: u32, data: u8, post: Self, r: EmuResult<()>) -> bool {
        let passthrough = post.spec_base() == pre.spec_base() && post.spec_message()
            == pre.spec_message();
        let sigs_updated = post.spec_sigs() == (
            if addr == pre.spec_base() + 1 {
                data
            } else {
                pre.spec_sigs().0
            },
            if addr == pre.spec_base() + 2 {
                data
            } else {
                pre.spec_sigs().1
            },
            if addr == pre.spec_base() + 3 {
                data
            } else {
                pre.spec_sigs().2
            },
        );
        (T::write_rel(pre.spec_device(), addr, data, post.spec_device(), r) && r is Err
            && passthrough && post.spec_sigs() == pre.spec_sigs()) || (T::write_rel(
            pre.spec_device(),
            addr,
            data,
            post.spec_device(),
            Ok(()),
        ) && passthrough && sigs_updated && r == (
        if addr == pre.spec_base() && post.spec_test_mode_active() {
            if data == 0x80 {
                Ok::<(), EmuError>(())
            } else if data == 0x00 {
                Err(EmuError::StopEmulation)
            } else {
                Err(EmuError::TestROMFailure(data))
            }
        } else {
            Ok::<(), EmuError>(())
        }))
    }

    /// The monitor takes no start-of-simulation action of its own.
    open spec fn start_rel(pre: Self, post: Self, r: EmuResult<()>) -> bool {
        post == pre && r == Ok::<(), EmuError>(())
    }

    /// An armed monitor collects the window's message from the wrapped
    /// device; an unarmed one does nothing.
    open spec fn end_rel(pre: Self, post: Self) -> bool {
        if pre.spec_test_mode_active() {
            post.spec_base() == pre.spec_base() && post.spec_sigs() == pre.spec_sigs()
                && match post.spec_message() {
                Some(m) => collect_msg_rel(
                    pre.spec_device(),
                    pre.spec_msg_base(),
                    post.spec_device(),
                    m,
                ),
                None => false,
            }
        } else {
            post == pre
        }
    }

    fn bus_read(&mut self, addr: u32) -> (r: EmuResult<ReadResult>)
        ensures
            Self::read_rel(*old(self), addr, *final(self), r),
    {
        // No action needed on reads, just pass through
        self.device.bus_read(addr)
    }

    fn bus_write(&mut self, addr: u32, data: u8) -> (r: EmuResult<()>)
        ensures
            Self::write_rel(*old(self), addr, data, *final(self), r),
    {
        // Pass the write through to the underlying device
        let w = self.device.bus_write(addr, data);
        if let Err(e) = w {
            return Err(e);
        }
        proof {
            assert(w is Ok);
            assert(w->Ok_0 == ());
        }
        // Record writes into the test signature bytes
        let a = addr as u64;
        let base = self.test_mem_base as u64;
        if a == base + 1 {
            self.sig0 = data;
        } else if a == base + 2 {
            self.sig1 = data;
        } else if a == base + 3 {
            self.sig2 = data;
        }
        // A write to the armed window's status byte reports the outcome
        if addr == self.test_mem_base && self.test_mode_active() {
            if data == 0x80 {
                // Test in progress
                Ok(())
            } else if data == 0x00 {
                // Test completed successfully
                Err(EmuError::StopEmulation)
            } else {
                // Test failed with an error code
                Err(EmuError::TestROMFailure(data))
            }
        } else {
            Ok(())
        }
    }

    fn start_of_simulation(&mut self) -> (r: EmuResult<()>)
        ensures
            Self::start_rel(*old(self), *final(self), r),
    {
        Ok(())
    }

    fn end_of_simulation(&mut self)
        ensures
            Self::end_rel(*old(self), *final(self)),
    {
        if !self.test_mode_active() {
            return ;
        }
        let ghost dev0 = self.spec_device();
        let msg_base = if self.test_mem_base <= u32::MAX - 4 {
            self.test_mem_base + 4
        } else {
            u32::MAX
        };
        let mut msg: Vec<u8> = Vec::new();
        let mut addr = msg_base;
        let mut done = false;
        proof {
            assert(msg@ =~= Seq::<u8>::empty());
        }
        while !done && addr < u32::MAX
            invariant
                msg_base <= addr,
                old(self).spec_base() == self.spec_base(),
                old(self).spec_sigs() == self.spec_sigs(),
                old(self).spec_message() == self.spec_message(),
                msg_base == old(self).spec_msg_base(),
                dev0 == old(self).spec_device(),
                done ==> collect_msg_rel(dev0, msg_base, self.spec_device(), msg@),
                !done ==> forall|d1: T, rest: Seq<u8>|
                    #[trigger] collect_msg_rel(self.spec_device(), addr, d1, rest)
                        ==> collect_msg_rel(dev0, msg_base, d1, msg@ + rest),
            decreases u32::MAX - addr, if done {
                0int
            } else {
                1int
            },
        {
            let ghost dev_pre = self.spec_device();
            let ghost msg_pre = msg@;
            let res = self.device.bus_read(addr);
            let mut stop = true;
            if let Ok(ReadResult::Data(b)) = res {
                if b != 0 {
                    stop = false;
                    msg.push(b);
                }
            }
            if stop {
                done = true;
                proof {
                    assert(T::read_rel(dev_pre, addr, self.spec_device(), res));
                    assert(collect_msg_rel(dev_pre, addr, self.spec_device(), Seq::<u8>::empty()));
                    assert(msg@ + Seq::<u8>::empty() =~= msg@);
                    assert(collect_msg_rel(dev0, msg_base, self.spec_device(), msg@));
                }
            } else {
                let ghost b = res->Ok_0->Data_0;
                proof {
                    assert(msg@ =~= msg_pre.push(b));
                    assert(T::read_rel(dev_pre, addr, self.spec_device(), res));
                    assert(res == Ok::<ReadResult, EmuError>(ReadResult::Data(b)) && b != 0);
                    assert forall|d1: T, rest: Seq<u8>|
                        #[trigger] collect_msg_rel(self.spec_device(), (addr + 1) as u32, d1, rest)
                            implies collect_msg_rel(dev0, msg_base, d1, msg@ + rest) by {
                        let cons = seq![b] + rest;
                        assert(cons.len() > 0 && cons[0] == b);
                        assert(cons.drop_first() =~= rest);
                        assert(collect_msg_rel(dev_pre, addr, d1, cons));
                        assert(msg_pre + cons =~= msg@ + rest);
                    }
                }
                addr += 1;
            }
        }
        proof {
            if !done {
                assert(collect_msg_rel(self.spec_device(), addr, self.spec_device(), Seq::<u8>::empty()));
                assert(msg@ + Seq::<u8>::empty() =~= msg@);
            }
            assert(collect_msg_rel(dev0, msg_base, self.spec_device(), msg@));
        }
        self.final_message = Some(msg);
    }
}

} // verus!
