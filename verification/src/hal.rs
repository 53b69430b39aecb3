//! The protocols of the kernel's allocation service and of its buffers:
//! request codes, flags, and what a reply means.

use vstd::prelude::*;

verus! {

/// Request code: dump a buffer for diagnosis.
pub const USERDMA_IOCTL_PRINT: u32 = 0x8004_7501;

/// Request code: allocate a buffer.
pub const USERDMA_IOCTL_ALLOC: u32 = 0xc008_7502;

/// Request code: query a buffer's physical address.
pub const USERDMA_IOCTL_GET_PHYS: u32 = 0xc008_7503;

/// Request code: synchronise a buffer's caches.
pub const DMA_BUF_IOCTL_SYNC: u32 = 0x4008_6200;

/// Synchronisation flag: the host reads the buffer.
pub const DMA_BUF_SYNC_READ: u64 = 0x01;

/// Synchronisation flag: the host writes the buffer.
pub const DMA_BUF_SYNC_WRITE: u64 = 0x02;

/// Synchronisation flags: the host reads and writes the buffer.
pub const DMA_BUF_SYNC_RW: u64 = 0x03;

/// Synchronisation flag: the host's access begins.
pub const DMA_BUF_SYNC_START: u64 = 0x00;

/// Synchronisation flag: the host's access ends.
pub const DMA_BUF_SYNC_END: u64 = 0x04;

/// A failure of the driver or the device, with the system error code.
#[derive(Clone, Copy, Debug, PartialEq, Eq)]
pub enum HalError {
    /// The allocation service is not present.
    DriverUnavailable { code: i32 },
    /// The allocation service refused the request.
    AllocationFailed { code: i32 },
    /// The buffer could not be mapped.
    MappingFailed { code: i32 },
    /// The register window could not be mapped.
    DeviceMapFailed { code: i32 },
    /// A query about a buffer failed.
    QueryFailed { code: i32 },
    /// A cache synchronisation call failed.
    SyncFailed { code: i32 },
    /// The size asked for does not fit the 32-bit request.
    SizeTooLarge,
}

/// A range of virtual addresses onto which a buffer or a register window is
/// mapped: where it starts and how many bytes it spans.
#[derive(Clone, Copy, Debug, PartialEq, Eq)]
pub struct MemoryMap {
    pub base: usize,
    pub size: usize,
}

impl MemoryMap {
    /// The number of bytes that the mapping spans.
    pub fn size(&self) -> (n: usize)
        ensures
            n == self.size,
    {
        self.size
    }
}

/// A session with the allocation service: the descriptor it is held by.
#[derive(Debug, PartialEq, Eq)]
pub struct Userdma {
    pub fd: i32,
}

/// A buffer of the allocation service: its descriptor, its size in bytes, and
/// whether a synchronisation bracket is open on it.
#[derive(Debug, PartialEq, Eq)]
pub struct DmaBuf {
    pub fd: i32,
    pub size: usize,
    pub syncing: bool,
}

impl DmaBuf {
    /// Takes over an open descriptor of a buffer of `size` bytes.
    pub fn from_fd(fd: i32, size: usize) -> (buf: DmaBuf)
        ensures
            buf == (DmaBuf { fd, size, syncing: false }),
    {
        DmaBuf { fd, size, syncing: false }
    }

    /// The buffer's size in bytes.
    pub fn size(&self) -> (n: usize)
        ensures
            n == self.size,
    {
        self.size
    }

    /// Whether a synchronisation bracket is open.
    pub fn syncing(&self) -> (open: bool)
        ensures
            open == self.syncing,
    {
        self.syncing
    }

    /// Takes the outcome of mapping the buffer: the address it was mapped
    /// at, or the system error code. The mapping spans the whole buffer.
    pub fn map(&mut self, mapped: Result<usize, i32>) -> (r: Result<MemoryMap, HalError>)
        ensures
            *final(self) == *old(self),
            match mapped {
                Ok(base) => r == Ok::<MemoryMap, HalError>(
                    MemoryMap { base, size: old(self).size },
                ),
                Err(code) => r == Err::<MemoryMap, HalError>(HalError::MappingFailed { code }),
            },
    {
        match mapped {
            Ok(base) => Ok(MemoryMap { base, size: self.size }),
            Err(code) => Err(HalError::MappingFailed { code }),
        }
    }

    /// Opens a synchronisation bracket. Returns the flags of the call that
    /// does so: read and write access, starting.
    pub fn sync_start(&mut self) -> (flags: u64)
        ensures
            flags == 0x03,
            final(self).syncing,
            final(self).fd == old(self).fd,
            final(self).size == old(self).size,
    {
        self.syncing = true;
        DMA_BUF_SYNC_RW
    }

    /// Closes the synchronisation bracket. Returns the flags of the call
    /// that does so: read and write access, ending.
    pub fn sync_end(&mut self) -> (flags: u64)
        ensures
            flags == 0x07,
            !final(self).syncing,
            final(self).fd == old(self).fd,
            final(self).size == old(self).size,
    {
        self.syncing = false;
        DMA_BUF_SYNC_RW + DMA_BUF_SYNC_END
    }

    /// The flags of the two calls that bracket an access of the host to the
    /// buffer, the opening one first. The bracket is closed afterwards.
    pub fn with_sync(&mut self) -> (flags: (u64, u64))
        ensures
            flags == (0x03u64, 0x07u64),
            !final(self).syncing,
            final(self).fd == old(self).fd,
            final(self).size == old(self).size,
    {
        let start = self.sync_start();
        let end = self.sync_end();
        (start, end)
    }
}

/// The size field of an allocation request for `size` bytes.
pub fn alloc_request(size: usize) -> (r: Result<u32, HalError>)
    ensures
        size <= u32::MAX ==> r == Ok::<u32, HalError>(size as u32),
        size > u32::MAX ==> r == Err::<u32, HalError>(HalError::SizeTooLarge),
{
    if size <= 0xFFFF_FFFF {
        Ok(size as u32)
    } else {
        Err(HalError::SizeTooLarge)
    }
}

impl Userdma {
    /// Takes the outcome of opening the allocation service's device: its
    /// descriptor, or the system error code.
    pub fn open(opened: Result<i32, i32>) -> (r: Result<Userdma, HalError>)
        ensures
            match opened {
                Ok(fd) => r == Ok::<Userdma, HalError>(Userdma { fd }),
                Err(code) => r == Err::<Userdma, HalError>(HalError::DriverUnavailable { code }),
            },
    {
        match opened {
            Ok(fd) => Ok(Userdma { fd }),
            Err(code) => Err(HalError::DriverUnavailable { code }),
        }
    }

    /// Reads the reply to an allocation request for `size` bytes: a negative
    /// result is a failure with the system error code `code`, any other is
    /// the descriptor of the buffer, which lies at `phys_addr`.
    pub fn alloc_buf(&self, size: usize, ret: i32, phys_addr: u32, code: i32) -> (r: Result<
        (DmaBuf, usize),
        HalError,
    >)
        ensures
            ret < 0 ==> r == Err::<(DmaBuf, usize), HalError>(
                HalError::AllocationFailed { code },
            ),
            ret >= 0 ==> r == Ok::<(DmaBuf, usize), HalError>(
                (DmaBuf { fd: ret, size, syncing: false }, phys_addr as usize),
            ),
    {
        if ret < 0 {
            Err(HalError::AllocationFailed { code })
        } else {
            Ok((DmaBuf::from_fd(ret, size), phys_addr as usize))
        }
    }

    /// Reads the reply to a request for a diagnostic dump of a buffer:
    /// anything but 0 is a failure.
    pub fn print_buf(&self, buf: &DmaBuf, ret: i32, code: i32) -> (r: Result<(), HalError>)
        ensures
            ret != 0 ==> r == Err::<(), HalError>(HalError::QueryFailed { code }),
            ret == 0 ==> r == Ok::<(), HalError>(()),
    {
        if ret != 0 {
            Err(HalError::QueryFailed { code })
        } else {
            Ok(())
        }
    }

    /// Reads the reply to a query of a buffer's physical address: a negative
    /// result is a failure, any other means the buffer lies at `phys_addr`.
    pub fn get_phys(&self, buf: &DmaBuf, ret: i32, phys_addr: u32, code: i32) -> (r: Result<
        usize,
        HalError,
    >)
        ensures
            ret < 0 ==> r == Err::<usize, HalError>(HalError::QueryFailed { code }),
            ret >= 0 ==> r == Ok::<usize, HalError>(phys_addr as usize),
    {
        if ret < 0 {
            Err(HalError::QueryFailed { code })
        } else {
            Ok(phys_addr as usize)
        }
    }
}

/// Reads the reply to a synchronisation call: anything but 0 is a failure.
pub fn sync_reply(ret: i32, code: i32) -> (r: Result<(), HalError>)
    ensures
        ret != 0 ==> r == Err::<(), HalError>(HalError::SyncFailed { code }),
        ret == 0 ==> r == Ok::<(), HalError>(()),
{
    if ret != 0 {
        Err(HalError::SyncFailed { code })
    } else {
        Ok(())
    }
}

} // verus!
