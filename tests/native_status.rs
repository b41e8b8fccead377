use bluetooth_timeout::{
    authenticate_result, bluetooth_get_device_info_result, bluetooth_remove_device_result, check_removable,
    connect_after_record, connect_after_second_record, connect_after_unpairing, find_close_failure,
    find_first_failure, find_next_failure, hresult_from_win32, removal_result, BluetoothGetDeviceInfoErr,
    BluetoothRemoveDeviceErr, ConnectStep, ConnectToDeviceError, DiscoverDevicesError, MacAddress,
    RemoveDeviceError, ERROR_ACCESS_DENIED, ERROR_CANCELLED, ERROR_GEN_FAILURE, ERROR_INVALID_HANDLE,
    ERROR_INVALID_PARAMETER, ERROR_NOT_AUTHENTICATED, ERROR_NOT_FOUND, ERROR_NO_MORE_ITEMS, ERROR_OUTOFMEMORY,
    ERROR_SUCCESS,
};

const ERROR_BUSY: u32 = 170;

#[test]
fn hresult_mapping() {
    assert_eq!(hresult_from_win32(ERROR_SUCCESS), 0);
    assert_eq!(hresult_from_win32(ERROR_INVALID_PARAMETER), 0x8007_0057u32 as i32);
    assert_eq!(hresult_from_win32(ERROR_NOT_FOUND), 0x8007_0490u32 as i32);
    assert_eq!(hresult_from_win32(0x8000_4005), 0x8000_4005u32 as i32);
}

#[test]
fn remove_device_statuses() {
    assert_eq!(bluetooth_remove_device_result(ERROR_SUCCESS), Ok(()));
    assert_eq!(bluetooth_remove_device_result(ERROR_INVALID_PARAMETER), Err(BluetoothRemoveDeviceErr::InvalidMacAddress));
    assert_eq!(bluetooth_remove_device_result(ERROR_NOT_FOUND), Err(BluetoothRemoveDeviceErr::InvalidMacAddress));
    assert_eq!(bluetooth_remove_device_result(ERROR_GEN_FAILURE), Err(BluetoothRemoveDeviceErr::BluetoothError));
    assert_eq!(bluetooth_remove_device_result(ERROR_INVALID_HANDLE), Err(BluetoothRemoveDeviceErr::BluetoothError));
    assert_eq!(
        bluetooth_remove_device_result(ERROR_BUSY),
        Err(BluetoothRemoveDeviceErr::Other(hresult_from_win32(ERROR_BUSY)))
    );
}

#[test]
fn get_device_info_statuses() {
    let a = MacAddress::from([1, 2, 3, 4, 5, 6]);
    let b = MacAddress::from([1, 2, 3, 4, 5, 7]);
    assert_eq!(bluetooth_get_device_info_result(ERROR_SUCCESS, a, a), Ok(()));
    assert_eq!(bluetooth_get_device_info_result(ERROR_SUCCESS, a, b), Err(BluetoothGetDeviceInfoErr::InvalidMacAddress));
    assert_eq!(bluetooth_get_device_info_result(ERROR_NOT_FOUND, a, a), Err(BluetoothGetDeviceInfoErr::InvalidMacAddress));
    assert_eq!(bluetooth_get_device_info_result(ERROR_INVALID_PARAMETER, a, b), Err(BluetoothGetDeviceInfoErr::InvalidMacAddress));
    assert_eq!(bluetooth_get_device_info_result(ERROR_GEN_FAILURE, a, b), Err(BluetoothGetDeviceInfoErr::BluetoothError));
    assert_eq!(bluetooth_get_device_info_result(ERROR_INVALID_HANDLE, a, a), Err(BluetoothGetDeviceInfoErr::BluetoothError));
    assert_eq!(
        bluetooth_get_device_info_result(ERROR_BUSY, a, a),
        Err(BluetoothGetDeviceInfoErr::Other(hresult_from_win32(ERROR_BUSY)))
    );
}

#[test]
fn authenticate_statuses() {
    assert_eq!(authenticate_result(ERROR_SUCCESS), Ok(()));
    assert_eq!(authenticate_result(ERROR_INVALID_PARAMETER), Err(ConnectToDeviceError::InvalidMacAddress));
    assert_eq!(authenticate_result(ERROR_NOT_FOUND), Err(ConnectToDeviceError::InvalidMacAddress));
    assert_eq!(authenticate_result(ERROR_INVALID_HANDLE), Err(ConnectToDeviceError::BluetoothError));
    assert_eq!(authenticate_result(ERROR_GEN_FAILURE), Err(ConnectToDeviceError::BluetoothError));
    assert_eq!(authenticate_result(ERROR_CANCELLED), Err(ConnectToDeviceError::Cancelled));
    assert_eq!(authenticate_result(ERROR_NOT_AUTHENTICATED), Err(ConnectToDeviceError::Cancelled));
    assert_eq!(authenticate_result(ERROR_ACCESS_DENIED), Err(ConnectToDeviceError::AccessDenied));
    assert_eq!(
        authenticate_result(ERROR_BUSY),
        Err(ConnectToDeviceError::UnhandledWin32ApiErr(hresult_from_win32(ERROR_BUSY)))
    );
}

#[test]
fn error_conversions() {
    assert_eq!(ConnectToDeviceError::from(BluetoothGetDeviceInfoErr::InvalidMacAddress), ConnectToDeviceError::InvalidMacAddress);
    assert_eq!(ConnectToDeviceError::from(BluetoothGetDeviceInfoErr::BluetoothError), ConnectToDeviceError::BluetoothError);
    assert_eq!(ConnectToDeviceError::from(BluetoothGetDeviceInfoErr::Other(-5)), ConnectToDeviceError::UnhandledWin32ApiErr(-5));
    assert_eq!(ConnectToDeviceError::from(BluetoothRemoveDeviceErr::Other(-6)), ConnectToDeviceError::UnhandledWin32ApiErr(-6));
    assert_eq!(ConnectToDeviceError::from(BluetoothRemoveDeviceErr::InvalidMacAddress), ConnectToDeviceError::InvalidMacAddress);
    assert_eq!(RemoveDeviceError::from(BluetoothGetDeviceInfoErr::BluetoothError), RemoveDeviceError::BluetoothError);
    assert_eq!(RemoveDeviceError::from(BluetoothRemoveDeviceErr::Other(-7)), RemoveDeviceError::UnhandledWin32ApiErr(-7));
    assert_eq!(RemoveDeviceError::from(BluetoothRemoveDeviceErr::InvalidMacAddress), RemoveDeviceError::InvalidMacAddress);
}

#[test]
fn connect_steps() {
    assert!(matches!(connect_after_record(Ok(()), true, true), ConnectStep::Done(Ok(()))));
    assert!(matches!(connect_after_record(Ok(()), false, true), ConnectStep::RemovePairing));
    assert!(matches!(connect_after_record(Ok(()), false, false), ConnectStep::Authenticate));
    assert!(matches!(
        connect_after_record(Err(BluetoothGetDeviceInfoErr::InvalidMacAddress), true, true),
        ConnectStep::Done(Err(ConnectToDeviceError::InvalidMacAddress))
    ));
    assert!(matches!(connect_after_unpairing(Ok(())), ConnectStep::ReadRecordAgain));
    assert!(matches!(
        connect_after_unpairing(Err(BluetoothRemoveDeviceErr::BluetoothError)),
        ConnectStep::Done(Err(ConnectToDeviceError::BluetoothError))
    ));
    assert!(matches!(connect_after_second_record(Ok(())), ConnectStep::Authenticate));
    assert!(matches!(
        connect_after_second_record(Err(BluetoothGetDeviceInfoErr::Other(3))),
        ConnectStep::Done(Err(ConnectToDeviceError::UnhandledWin32ApiErr(3)))
    ));
}

#[test]
fn remove_steps() {
    assert_eq!(check_removable(Ok(()), true), Ok(()));
    assert_eq!(check_removable(Ok(()), false), Err(RemoveDeviceError::NotRemembered));
    assert_eq!(check_removable(Err(BluetoothGetDeviceInfoErr::InvalidMacAddress), true), Err(RemoveDeviceError::InvalidMacAddress));
    assert_eq!(removal_result(Ok(())), Ok(()));
    assert_eq!(removal_result(Err(BluetoothRemoveDeviceErr::BluetoothError)), Err(RemoveDeviceError::BluetoothError));
}

#[test]
fn discover_statuses() {
    let hr = hresult_from_win32;
    assert_eq!(find_first_failure(hr(ERROR_NO_MORE_ITEMS)).map(|v| v.len()), Ok(0));
    assert_eq!(find_first_failure(hr(ERROR_OUTOFMEMORY)).map(|v| v.len()), Err(DiscoverDevicesError::OutOfMemory));
    assert_eq!(find_first_failure(hr(ERROR_INVALID_HANDLE)).map(|v| v.len()), Err(DiscoverDevicesError::BluetoothError));
    assert_eq!(find_first_failure(hr(ERROR_GEN_FAILURE)).map(|v| v.len()), Err(DiscoverDevicesError::BluetoothError));
    assert_eq!(
        find_first_failure(hr(ERROR_BUSY)).map(|v| v.len()),
        Err(DiscoverDevicesError::UnhandledWin32ApiErr(hr(ERROR_BUSY)))
    );
    assert_eq!(find_next_failure(hr(ERROR_NO_MORE_ITEMS)), None);
    assert_eq!(find_next_failure(hr(ERROR_OUTOFMEMORY)), Some(DiscoverDevicesError::OutOfMemory));
    assert_eq!(find_next_failure(hr(ERROR_GEN_FAILURE)), Some(DiscoverDevicesError::BluetoothError));
    assert_eq!(find_next_failure(hr(ERROR_BUSY)), Some(DiscoverDevicesError::UnhandledWin32ApiErr(hr(ERROR_BUSY))));
    assert_eq!(find_close_failure(hr(ERROR_INVALID_HANDLE)), DiscoverDevicesError::BluetoothError);
    assert_eq!(find_close_failure(hr(ERROR_OUTOFMEMORY)), DiscoverDevicesError::UnhandledWin32ApiErr(hr(ERROR_OUTOFMEMORY)));
}
