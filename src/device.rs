use vstd::prelude::*;

use crate::handle::DeviceHandle;
use crate::option::{before_null, take_before_null};
use crate::status::{Error, Status};

verus! {

/// The ABI version that `Sane::init_1_0` asks for: 1.0.0.
pub const VERSION_1_0: i32 = 0x0100_0000;

/// A live initialization of the scanner ABI, ended by `exit`.
pub struct Sane {}

/// A discoverable device, its strings copied out of the ABI's memory.
#[derive(Clone, Debug, PartialEq, Eq)]
pub struct Device {
    pub name: Vec<u8>,
    pub vendor: Vec<u8>,
    pub model: Vec<u8>,
    pub type_: Vec<u8>,
}

impl Sane {
    /// Initializes the ABI through `abi_init`, which is handed the version
    /// code; succeeds exactly when it reports `Good`.
    pub fn init<F: FnOnce(i32) -> Status>(version_code: i32, abi_init: F) -> (r: Result<Sane, Error>)
        requires
            abi_init.requires((version_code,)),
        ensures
            exists|st: Status|
                {
                    &&& abi_init.ensures((version_code,), st)
                    &&& (r is Ok <==> st == Status::Good)
                    &&& (r is Err ==> r == Err::<Sane, Error>(Error(st)))
                },
    {
        let st = abi_init(version_code);
        if st == Status::Good {
            Ok(Sane {  })
        } else {
            Err(Error(st))
        }
    }

    /// Initializes the ABI for version 1.0.0: the code handed to `abi_init` is
    /// `(1 << 24) | (0 << 16) | (0 & 0xffff)`.
    pub fn init_1_0<F: FnOnce(i32) -> Status>(abi_init: F) -> (r: Result<Sane, Error>)
        requires
            abi_init.requires((VERSION_1_0,)),
        ensures
            exists|st: Status|
                {
                    &&& abi_init.ensures((VERSION_1_0,), st)
                    &&& (r is Ok <==> st == Status::Good)
                    &&& (r is Err ==> r == Err::<Sane, Error>(Error(st)))
                },
    {
        let major: i32 = 1;
        let minor: i32 = 0;
        let revision: i32 = 0;
        let version_code: i32 = major << 24 | minor << 16 | revision & 0xffff;
        assert(version_code == VERSION_1_0) by (bit_vector)
            requires
                major == 1i32,
                minor == 0i32,
                revision == 0i32,
                version_code == (major << 24 | minor << 16 | revision & 0xffff),
        ;
        Sane::init(version_code, abi_init)
    }

    /// Shuts the ABI down through `abi_exit`. The context is consumed, so this
    /// happens once for each initialization.
    pub fn exit<F: FnOnce()>(self, abi_exit: F)
        requires
            abi_exit.requires(()),
        ensures
            abi_exit.ensures((), ()),
    {
        abi_exit();
    }

    /// Enumerates local devices. `abi_list` reports a status and the ABI's
    /// null-terminated device array, read up to its first null; the devices
    /// before that null are returned.
    pub fn get_devices<F: FnOnce() -> (Status, Vec<Option<Device>>)>(&self, abi_list: F) -> (r:
        Result<Vec<Device>, Error>)
        requires
            abi_list.requires(()),
        ensures
            exists|out: (Status, Vec<Option<Device>>)|
                {
                    &&& abi_list.ensures((), out)
                    &&& out.0 != Status::Good ==> r == Err::<Vec<Device>, Error>(Error(out.0))
                    &&& out.0 == Status::Good ==> (r matches Ok(v) && before_null(out.1@, v@))
                },
    {
        let (st, list) = abi_list();
        if st != Status::Good {
            return Err(Error(st));
        }
        Ok(take_before_null(list))
    }
}

impl Device {
    /// Opens the device: `abi_open` is handed the device's name. The new
    /// handle is not scanning.
    pub fn open<F: FnOnce(&Vec<u8>) -> Status>(&self, abi_open: F) -> (r: Result<DeviceHandle, Error>)
        requires
            abi_open.requires((&self.name,)),
        ensures
            exists|st: Status|
                {
                    &&& abi_open.ensures((&self.name,), st)
                    &&& st != Status::Good ==> r == Err::<DeviceHandle, Error>(Error(st))
                    &&& st == Status::Good ==> (r matches Ok(h) && !h.scanning())
                },
    {
        let st = abi_open(&self.name);
        if st != Status::Good {
            return Err(Error(st));
        }
        Ok(DeviceHandle::new())
    }
}

} // verus!
