use vstd::prelude::*;
use vstd::std_specs::convert::FromSpec;

use crate::device::BluetoothDevice;
use crate::mac_address::MacAddress;

verus! {

// Win32 error codes that the Bluetooth calls report.
pub const ERROR_SUCCESS: u32 = 0;
pub const ERROR_ACCESS_DENIED: u32 = 5;
pub const ERROR_INVALID_HANDLE: u32 = 6;
pub const ERROR_OUTOFMEMORY: u32 = 14;
pub const ERROR_GEN_FAILURE: u32 = 31;
pub const ERROR_INVALID_PARAMETER: u32 = 87;
pub const ERROR_NO_MORE_ITEMS: u32 = 259;
pub const ERROR_NOT_FOUND: u32 = 1168;
pub const ERROR_CANCELLED: u32 = 1223;
pub const ERROR_NOT_AUTHENTICATED: u32 = 1244;
pub const ERROR_REVISION_MISMATCH: u32 = 1306;

/// The HRESULT that stands for the Win32 error code `error`.
pub open spec fn hresult_of(error: u32) -> i32 {
    if error as i32 <= 0 {
        error as i32
    } else {
        ((error & 0xFFFF) | 0x7_0000 | 0x8000_0000) as i32
    }
}

/// Maps a Win32 error code to an HRESULT.
pub fn hresult_from_win32(error: u32) -> (r: i32)
    ensures
        r == hresult_of(error),
{
    if error as i32 <= 0 {
        error as i32
    } else {
        ((error & 0xFFFF) | 0x7_0000 | 0x8000_0000) as i32
    }
}

/// Why a scan failed. `UnhandledWin32ApiErr` holds the HRESULT of an error
/// that has no variant of its own.
#[derive(Clone, Copy, Debug, PartialEq, Eq, Structural)]
pub enum DiscoverDevicesError {
    OutOfMemory,
    BluetoothError,
    UnhandledWin32ApiErr(i32),
}

/// Why a connection attempt failed.
#[derive(Clone, Copy, Debug, PartialEq, Eq, Structural)]
pub enum ConnectToDeviceError {
    InvalidMacAddress,
    BluetoothError,
    Cancelled,
    AccessDenied,
    UnhandledWin32ApiErr(i32),
}

/// Why removing a device's pairing failed.
#[derive(Clone, Copy, Debug, PartialEq, Eq, Structural)]
pub enum RemoveDeviceError {
    InvalidMacAddress,
    BluetoothError,
    NotRemembered,
    UnhandledWin32ApiErr(i32),
}

/// How the OS call that removes a pairing failed.
#[derive(Clone, Copy, Debug, PartialEq, Eq, Structural)]
pub enum BluetoothRemoveDeviceErr {
    InvalidMacAddress,
    BluetoothError,
    Other(i32),
}

/// How the OS call that reads a device's record failed.
#[derive(Clone, Copy, Debug, PartialEq, Eq, Structural)]
pub enum BluetoothGetDeviceInfoErr {
    InvalidMacAddress,
    BluetoothError,
    Other(i32),
}

/// Whether the HRESULT `hr` stands for the Win32 error `error`.
pub open spec fn is_error(hr: i32, error: u32) -> bool {
    hr == hresult_of(error)
}

fn err_eq(hr: i32, error: u32) -> (r: bool)
    ensures
        r == is_error(hr, error),
{
    hr == hresult_from_win32(error)
}

/// What the status of removing a pairing means.
pub open spec fn remove_device_outcome(hr: i32) -> Result<(), BluetoothRemoveDeviceErr> {
    if is_error(hr, ERROR_INVALID_PARAMETER) || is_error(hr, ERROR_NOT_FOUND) {
        Err(BluetoothRemoveDeviceErr::InvalidMacAddress)
    } else if is_error(hr, ERROR_GEN_FAILURE) || is_error(hr, ERROR_INVALID_HANDLE) {
        Err(BluetoothRemoveDeviceErr::BluetoothError)
    } else if is_error(hr, ERROR_SUCCESS) {
        Ok(())
    } else {
        Err(BluetoothRemoveDeviceErr::Other(hr))
    }
}

/// Reads the Win32 status that removing a pairing returned.
pub fn bluetooth_remove_device_result(status: u32) -> (r: Result<(), BluetoothRemoveDeviceErr>)
    ensures
        r == remove_device_outcome(hresult_of(status)),
{
    let hr = hresult_from_win32(status);
    if err_eq(hr, ERROR_INVALID_PARAMETER) || err_eq(hr, ERROR_NOT_FOUND) {
        Err(BluetoothRemoveDeviceErr::InvalidMacAddress)
    } else if err_eq(hr, ERROR_GEN_FAILURE) || err_eq(hr, ERROR_INVALID_HANDLE) {
        Err(BluetoothRemoveDeviceErr::BluetoothError)
    } else if err_eq(hr, ERROR_SUCCESS) {
        Ok(())
    } else {
        Err(BluetoothRemoveDeviceErr::Other(hr))
    }
}

/// What the status of reading a device's record means. A record read for
/// `target` that names another address counts as an invalid address.
pub open spec fn get_device_info_outcome(hr: i32, target: MacAddress, returned: MacAddress) -> Result<
    (),
    BluetoothGetDeviceInfoErr,
> {
    if is_error(hr, ERROR_INVALID_PARAMETER) || is_error(hr, ERROR_NOT_FOUND) {
        Err(BluetoothGetDeviceInfoErr::InvalidMacAddress)
    } else if is_error(hr, ERROR_SUCCESS) && target != returned {
        Err(BluetoothGetDeviceInfoErr::InvalidMacAddress)
    } else if is_error(hr, ERROR_GEN_FAILURE) || is_error(hr, ERROR_INVALID_HANDLE) {
        Err(BluetoothGetDeviceInfoErr::BluetoothError)
    } else if is_error(hr, ERROR_SUCCESS) {
        Ok(())
    } else {
        Err(BluetoothGetDeviceInfoErr::Other(hr))
    }
}

/// Reads the Win32 status of reading the record of `target`, which the OS
/// filled in for `returned`. A revision mismatch means that the record was
/// handed over with a wrong size, which the caller rules out.
pub fn bluetooth_get_device_info_result(status: u32, target: MacAddress, returned: MacAddress) -> (r: Result<
    (),
    BluetoothGetDeviceInfoErr,
>)
    requires
        !is_error(hresult_of(status), ERROR_REVISION_MISMATCH),
    ensures
        r == get_device_info_outcome(hresult_of(status), target, returned),
{
    let hr = hresult_from_win32(status);
    if err_eq(hr, ERROR_INVALID_PARAMETER) || err_eq(hr, ERROR_NOT_FOUND) {
        Err(BluetoothGetDeviceInfoErr::InvalidMacAddress)
    } else if err_eq(hr, ERROR_SUCCESS) && target != returned {
        Err(BluetoothGetDeviceInfoErr::InvalidMacAddress)
    } else if err_eq(hr, ERROR_GEN_FAILURE) || err_eq(hr, ERROR_INVALID_HANDLE) {
        Err(BluetoothGetDeviceInfoErr::BluetoothError)
    } else if err_eq(hr, ERROR_SUCCESS) {
        Ok(())
    } else {
        Err(BluetoothGetDeviceInfoErr::Other(hr))
    }
}

/// What the status of pairing with a device means.
pub open spec fn authenticate_outcome(hr: i32) -> Result<(), ConnectToDeviceError> {
    if is_error(hr, ERROR_INVALID_PARAMETER) || is_error(hr, ERROR_NOT_FOUND) {
        Err(ConnectToDeviceError::InvalidMacAddress)
    } else if is_error(hr, ERROR_INVALID_HANDLE) || is_error(hr, ERROR_GEN_FAILURE) {
        Err(ConnectToDeviceError::BluetoothError)
    } else if is_error(hr, ERROR_CANCELLED) || is_error(hr, ERROR_NOT_AUTHENTICATED) {
        Err(ConnectToDeviceError::Cancelled)
    } else if is_error(hr, ERROR_ACCESS_DENIED) {
        Err(ConnectToDeviceError::AccessDenied)
    } else if is_error(hr, ERROR_SUCCESS) {
        Ok(())
    } else {
        Err(ConnectToDeviceError::UnhandledWin32ApiErr(hr))
    }
}

/// Reads the Win32 status of pairing with a device. A revision mismatch (a
/// record of the wrong size) and "no more items" (a device still paired) are
/// ruled out by the caller.
pub fn authenticate_result(status: u32) -> (r: Result<(), ConnectToDeviceError>)
    requires
        !is_error(hresult_of(status), ERROR_REVISION_MISMATCH),
        !is_error(hresult_of(status), ERROR_NO_MORE_ITEMS),
    ensures
        r == authenticate_outcome(hresult_of(status)),
{
    let hr = hresult_from_win32(status);
    if err_eq(hr, ERROR_INVALID_PARAMETER) || err_eq(hr, ERROR_NOT_FOUND) {
        Err(ConnectToDeviceError::InvalidMacAddress)
    } else if err_eq(hr, ERROR_INVALID_HANDLE) || err_eq(hr, ERROR_GEN_FAILURE) {
        Err(ConnectToDeviceError::BluetoothError)
    } else if err_eq(hr, ERROR_CANCELLED) || err_eq(hr, ERROR_NOT_AUTHENTICATED) {
        Err(ConnectToDeviceError::Cancelled)
    } else if err_eq(hr, ERROR_ACCESS_DENIED) {
        Err(ConnectToDeviceError::AccessDenied)
    } else if err_eq(hr, ERROR_SUCCESS) {
        Ok(())
    } else {
        Err(ConnectToDeviceError::UnhandledWin32ApiErr(hr))
    }
}

impl From<BluetoothGetDeviceInfoErr> for ConnectToDeviceError {
    fn from(err: BluetoothGetDeviceInfoErr) -> (r: ConnectToDeviceError) {
        match err {
            BluetoothGetDeviceInfoErr::InvalidMacAddress => ConnectToDeviceError::InvalidMacAddress,
            BluetoothGetDeviceInfoErr::BluetoothError => ConnectToDeviceError::BluetoothError,
            BluetoothGetDeviceInfoErr::Other(hr) => ConnectToDeviceError::UnhandledWin32ApiErr(hr),
        }
    }
}

impl vstd::std_specs::convert::FromSpecImpl<BluetoothGetDeviceInfoErr> for ConnectToDeviceError {
    open spec fn obeys_from_spec() -> bool {
        true
    }

    open spec fn from_spec(err: BluetoothGetDeviceInfoErr) -> ConnectToDeviceError {
        match err {
            BluetoothGetDeviceInfoErr::InvalidMacAddress => ConnectToDeviceError::InvalidMacAddress,
            BluetoothGetDeviceInfoErr::BluetoothError => ConnectToDeviceError::BluetoothError,
            BluetoothGetDeviceInfoErr::Other(hr) => ConnectToDeviceError::UnhandledWin32ApiErr(hr),
        }
    }
}

impl From<BluetoothRemoveDeviceErr> for ConnectToDeviceError {
    fn from(err: BluetoothRemoveDeviceErr) -> (r: ConnectToDeviceError) {
        match err {
            BluetoothRemoveDeviceErr::InvalidMacAddress => ConnectToDeviceError::InvalidMacAddress,
            BluetoothRemoveDeviceErr::BluetoothError => ConnectToDeviceError::BluetoothError,
            BluetoothRemoveDeviceErr::Other(hr) => ConnectToDeviceError::UnhandledWin32ApiErr(hr),
        }
    }
}

impl vstd::std_specs::convert::FromSpecImpl<BluetoothRemoveDeviceErr> for ConnectToDeviceError {
    open spec fn obeys_from_spec() -> bool {
        true
    }

    open spec fn from_spec(err: BluetoothRemoveDeviceErr) -> ConnectToDeviceError {
        match err {
            BluetoothRemoveDeviceErr::InvalidMacAddress => ConnectToDeviceError::InvalidMacAddress,
            BluetoothRemoveDeviceErr::BluetoothError => ConnectToDeviceError::BluetoothError,
            BluetoothRemoveDeviceErr::Other(hr) => ConnectToDeviceError::UnhandledWin32ApiErr(hr),
        }
    }
}

impl From<BluetoothGetDeviceInfoErr> for RemoveDeviceError {
    fn from(err: BluetoothGetDeviceInfoErr) -> (r: RemoveDeviceError) {
        match err {
            BluetoothGetDeviceInfoErr::InvalidMacAddress => RemoveDeviceError::InvalidMacAddress,
            BluetoothGetDeviceInfoErr::BluetoothError => RemoveDeviceError::BluetoothError,
            BluetoothGetDeviceInfoErr::Other(hr) => RemoveDeviceError::UnhandledWin32ApiErr(hr),
        }
    }
}

impl vstd::std_specs::convert::FromSpecImpl<BluetoothGetDeviceInfoErr> for RemoveDeviceError {
    open spec fn obeys_from_spec() -> bool {
        true
    }

    open spec fn from_spec(err: BluetoothGetDeviceInfoErr) -> RemoveDeviceError {
        match err {
            BluetoothGetDeviceInfoErr::InvalidMacAddress => RemoveDeviceError::InvalidMacAddress,
            BluetoothGetDeviceInfoErr::BluetoothError => RemoveDeviceError::BluetoothError,
            BluetoothGetDeviceInfoErr::Other(hr) => RemoveDeviceError::UnhandledWin32ApiErr(hr),
        }
    }
}

impl From<BluetoothRemoveDeviceErr> for RemoveDeviceError {
    fn from(err: BluetoothRemoveDeviceErr) -> (r: RemoveDeviceError) {
        match err {
            BluetoothRemoveDeviceErr::InvalidMacAddress => RemoveDeviceError::InvalidMacAddress,
            BluetoothRemoveDeviceErr::BluetoothError => RemoveDeviceError::BluetoothError,
            BluetoothRemoveDeviceErr::Other(hr) => RemoveDeviceError::UnhandledWin32ApiErr(hr),
        }
    }
}

impl vstd::std_specs::convert::FromSpecImpl<BluetoothRemoveDeviceErr> for RemoveDeviceError {
    open spec fn obeys_from_spec() -> bool {
        true
    }

    open spec fn from_spec(err: BluetoothRemoveDeviceErr) -> RemoveDeviceError {
        match err {
            BluetoothRemoveDeviceErr::InvalidMacAddress => RemoveDeviceError::InvalidMacAddress,
            BluetoothRemoveDeviceErr::BluetoothError => RemoveDeviceError::BluetoothError,
            BluetoothRemoveDeviceErr::Other(hr) => RemoveDeviceError::UnhandledWin32ApiErr(hr),
        }
    }
}

/// What a connection attempt asks of the OS next.
#[derive(Clone, Copy, Debug)]
pub enum ConnectStep {
    /// Remove the device's earlier pairing.
    RemovePairing,
    /// Read the device's record again, after its pairing was removed.
    ReadRecordAgain,
    /// Pair with the device.
    Authenticate,
    /// Nothing: the attempt is over, with this result.
    Done(Result<(), ConnectToDeviceError>),
}

/// The next step of a connection attempt once the device's record was read:
/// `info` is the outcome of the read, `connected` and `authenticated` the
/// flags of the record. A connected device is left alone; a paired one is
/// unpaired first, as pairing anew is the way to connect it.
pub fn connect_after_record(info: Result<(), BluetoothGetDeviceInfoErr>, connected: bool, authenticated: bool) -> (r: ConnectStep)
    ensures
        r == match info {
            Err(e) => ConnectStep::Done(Err(ConnectToDeviceError::from_spec(e))),
            Ok(()) => if connected {
                ConnectStep::Done(Ok(()))
            } else if authenticated {
                ConnectStep::RemovePairing
            } else {
                ConnectStep::Authenticate
            },
        },
{
    match info {
        Err(e) => ConnectStep::Done(Err(ConnectToDeviceError::from(e))),
        Ok(()) => if connected {
            ConnectStep::Done(Ok(()))
        } else if authenticated {
            ConnectStep::RemovePairing
        } else {
            ConnectStep::Authenticate
        },
    }
}

/// The next step of a connection attempt once the earlier pairing was
/// removed with outcome `removed`.
pub fn connect_after_unpairing(removed: Result<(), BluetoothRemoveDeviceErr>) -> (r: ConnectStep)
    ensures
        r == match removed {
            Err(e) => ConnectStep::Done(Err(ConnectToDeviceError::from_spec(e))),
            Ok(()) => ConnectStep::ReadRecordAgain,
        },
{
    match removed {
        Err(e) => ConnectStep::Done(Err(ConnectToDeviceError::from(e))),
        Ok(()) => ConnectStep::ReadRecordAgain,
    }
}

/// The next step of a connection attempt once the record was read again with
/// outcome `info`.
pub fn connect_after_second_record(info: Result<(), BluetoothGetDeviceInfoErr>) -> (r: ConnectStep)
    ensures
        r == match info {
            Err(e) => ConnectStep::Done(Err(ConnectToDeviceError::from_spec(e))),
            Ok(()) => ConnectStep::Authenticate,
        },
{
    match info {
        Err(e) => ConnectStep::Done(Err(ConnectToDeviceError::from(e))),
        Ok(()) => ConnectStep::Authenticate,
    }
}

/// Whether a device whose record was read with outcome `info` can have its
/// pairing removed: `Ok` where it can, else why not. Only a remembered
/// device has a pairing.
pub fn check_removable(info: Result<(), BluetoothGetDeviceInfoErr>, remembered: bool) -> (r: Result<(), RemoveDeviceError>)
    ensures
        r == match info {
            Err(e) => Err(RemoveDeviceError::from_spec(e)),
            Ok(()) => if remembered {
                Ok(())
            } else {
                Err(RemoveDeviceError::NotRemembered)
            },
        },
{
    match info {
        Err(e) => Err(RemoveDeviceError::from(e)),
        Ok(()) => if remembered {
            Ok(())
        } else {
            Err(RemoveDeviceError::NotRemembered)
        },
    }
}

/// The result of removing a device once the OS call returned `removed`.
pub fn removal_result(removed: Result<(), BluetoothRemoveDeviceErr>) -> (r: Result<(), RemoveDeviceError>)
    ensures
        r == match removed {
            Err(e) => Err(RemoveDeviceError::from_spec(e)),
            Ok(()) => Ok(()),
        },
{
    match removed {
        Err(e) => Err(RemoveDeviceError::from(e)),
        Ok(()) => Ok(()),
    }
}

/// The scan's error for an HRESULT that means an out-of-memory or a radio
/// failure, where `hr` is not one of those.
pub open spec fn discover_error_of(hr: i32) -> DiscoverDevicesError {
    if is_error(hr, ERROR_OUTOFMEMORY) {
        DiscoverDevicesError::OutOfMemory
    } else if is_error(hr, ERROR_INVALID_HANDLE) || is_error(hr, ERROR_GEN_FAILURE) {
        DiscoverDevicesError::BluetoothError
    } else {
        DiscoverDevicesError::UnhandledWin32ApiErr(hr)
    }
}

/// The result of a scan whose search could not start, with error `hr`: no
/// device at all makes an empty list. A revision mismatch or an invalid
/// parameter mean a malformed request, which the caller rules out.
pub fn find_first_failure(hr: i32) -> (r: Result<Vec<BluetoothDevice>, DiscoverDevicesError>)
    requires
        !is_error(hr, ERROR_REVISION_MISMATCH),
        !is_error(hr, ERROR_INVALID_PARAMETER),
    ensures
        r is Ok <==> is_error(hr, ERROR_NO_MORE_ITEMS) && !is_error(hr, ERROR_OUTOFMEMORY) && !is_error(hr, ERROR_INVALID_HANDLE)
            && !is_error(hr, ERROR_GEN_FAILURE),
        r matches Ok(v) ==> v@.len() == 0,
        r matches Err(e) ==> e == discover_error_of(hr),
{
    if err_eq(hr, ERROR_OUTOFMEMORY) {
        Err(DiscoverDevicesError::OutOfMemory)
    } else if err_eq(hr, ERROR_INVALID_HANDLE) || err_eq(hr, ERROR_GEN_FAILURE) {
        Err(DiscoverDevicesError::BluetoothError)
    } else if err_eq(hr, ERROR_NO_MORE_ITEMS) {
        Ok(Vec::new())
    } else {
        Err(DiscoverDevicesError::UnhandledWin32ApiErr(hr))
    }
}

/// Where moving to the next device failed with `hr`: `None` at the end of
/// the list, else the scan's error.
pub fn find_next_failure(hr: i32) -> (r: Option<DiscoverDevicesError>)
    ensures
        r == if is_error(hr, ERROR_NO_MORE_ITEMS) {
            None
        } else {
            Some(discover_error_of(hr))
        },
{
    if err_eq(hr, ERROR_NO_MORE_ITEMS) {
        None
    } else if err_eq(hr, ERROR_OUTOFMEMORY) {
        Some(DiscoverDevicesError::OutOfMemory)
    } else if err_eq(hr, ERROR_INVALID_HANDLE) || err_eq(hr, ERROR_GEN_FAILURE) {
        Some(DiscoverDevicesError::BluetoothError)
    } else {
        Some(DiscoverDevicesError::UnhandledWin32ApiErr(hr))
    }
}

/// The scan's error where closing the search failed with `hr`.
pub fn find_close_failure(hr: i32) -> (r: DiscoverDevicesError)
    ensures
        r == if is_error(hr, ERROR_INVALID_HANDLE) || is_error(hr, ERROR_GEN_FAILURE) {
            DiscoverDevicesError::BluetoothError
        } else {
            DiscoverDevicesError::UnhandledWin32ApiErr(hr)
        },
{
    if err_eq(hr, ERROR_INVALID_HANDLE) || err_eq(hr, ERROR_GEN_FAILURE) {
        DiscoverDevicesError::BluetoothError
    } else {
        DiscoverDevicesError::UnhandledWin32ApiErr(hr)
    }
}

} // verus!
