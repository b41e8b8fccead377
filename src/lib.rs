//! The core of a utility that removes Bluetooth pairings on a timer: a
//! registry of per-device countdowns kept in step with the connected devices,
//! the passes that advance it, and the reading of the OS's Bluetooth records
//! and statuses.

mod app;
mod device;
mod duration;
mod editing;
mod mac_address;
mod native;
mod timeout;

pub use app::{
    add_missing, advance_and_prune, advanced_by_all, connected_ids, entry_ids, expired_ids, has_entry,
    is_connected, lemma_countdown, lemma_exit_removals, lemma_pass_advances_entry, lemma_disabled_never_expires, lemma_entries_match_connected,
    lemma_removals_of_pass, reconciled, removed_on_close, sorted_by_address, total_elapsed, unique_entries,
    BluetoothApp,
};
pub use device::{
    device_name, into_opt_date_time, BluetoothDevice, DateTime, DeviceInfo, SystemTime,
};
pub use duration::{Duration, MAX_NANOS, NANOS_PER_SEC};
pub use editing::TimeoutEditing;
pub use mac_address::MacAddress;
pub use native::{
    authenticate_result, bluetooth_get_device_info_result, bluetooth_remove_device_result, check_removable,
    connect_after_record, connect_after_second_record, connect_after_unpairing, find_close_failure,
    find_first_failure, find_next_failure, hresult_from_win32, removal_result, BluetoothGetDeviceInfoErr,
    BluetoothRemoveDeviceErr, ConnectStep, ConnectToDeviceError, DiscoverDevicesError, RemoveDeviceError,
    ERROR_ACCESS_DENIED, ERROR_CANCELLED, ERROR_GEN_FAILURE, ERROR_INVALID_HANDLE, ERROR_INVALID_PARAMETER,
    ERROR_NOT_AUTHENTICATED, ERROR_NOT_FOUND, ERROR_NO_MORE_ITEMS, ERROR_OUTOFMEMORY, ERROR_REVISION_MISMATCH,
    ERROR_SUCCESS,
};
pub use timeout::{count_digits, Timeout, MAX_DURATION_DIGITS};
