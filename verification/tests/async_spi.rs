use dwm1001_async::async_spi::{Backend, Handle, Progress, SpiError, Storage};

fn driver() -> (Storage<u32>, Handle<&'static str, Vec<u8>>, Backend) {
    let mut storage = Storage::new();
    let (handle, backend) = storage.split("spim0");
    (storage, handle, backend)
}

#[test]
fn split_gives_an_idle_driver() {
    let (mut storage, handle, mut backend) = driver();
    assert!(handle.is_idle());
    assert_eq!(handle.peripheral(), Some(&"spim0"));
    assert_eq!(handle.buffer(), None);
    assert_eq!(backend.spim_interrupt(&mut storage), None);
}

#[test]
fn transfer_goes_from_idle_to_transfer_and_back() {
    let (mut storage, mut handle, mut backend) = driver();
    let mut transfer = handle.transfer(vec![1, 2, 3]);
    assert!(handle.is_idle());

    // Starting: the driver takes the buffer, the operation is suspended.
    let progress = transfer.poll(&mut handle, &mut storage, 7, false);
    assert!(matches!(progress, Progress::Started));
    assert!(progress.is_pending());
    assert!(!handle.is_idle());
    assert_eq!(handle.peripheral(), Some(&"spim0"));
    assert_eq!(handle.buffer(), Some(&vec![1, 2, 3]));

    // Resumed before the hardware is done: nothing changes.
    let progress = transfer.poll(&mut handle, &mut storage, 8, false);
    assert!(matches!(progress, Progress::Running));
    assert!(progress.is_pending());
    assert!(!handle.is_idle());
    assert_eq!(handle.buffer(), Some(&vec![1, 2, 3]));

    // The interrupt finds the handle that was queued first.
    assert_eq!(backend.spim_interrupt(&mut storage), Some(7));
    assert_eq!(backend.spim_interrupt(&mut storage), None);

    // Resumed after completion: the buffer comes back, the driver is idle.
    let progress = transfer.poll(&mut handle, &mut storage, 9, true);
    assert!(!progress.is_pending());
    match progress {
        Progress::Done(Ok(buf)) => assert_eq!(buf, vec![1, 2, 3]),
        _ => panic!("the transfer did not complete"),
    }
    assert!(handle.is_idle());
    assert_eq!(handle.peripheral(), Some(&"spim0"));
    assert_eq!(handle.buffer(), None);
    // A completed resumption leaves no handle behind.
    assert_eq!(backend.spim_interrupt(&mut storage), None);
}

#[test]
fn start_ignores_what_the_hardware_reports() {
    let (mut storage, mut handle, _backend) = driver();
    let mut transfer = handle.transfer(vec![5]);
    let progress = transfer.poll(&mut handle, &mut storage, 1, true);
    assert!(matches!(progress, Progress::Started));
    assert!(!handle.is_idle());
}

#[test]
fn suspended_transfer_always_leaves_a_handle_for_the_interrupt() {
    let (mut storage, mut handle, mut backend) = driver();
    let mut transfer = handle.transfer(vec![0; 4]);
    assert!(transfer.poll(&mut handle, &mut storage, 1, false).is_pending());
    assert_eq!(backend.spim_interrupt(&mut storage), Some(1));
    // Woken, but the hardware is not done: the new handle is queued.
    assert!(transfer.poll(&mut handle, &mut storage, 2, false).is_pending());
    assert_eq!(backend.spim_interrupt(&mut storage), Some(2));
    assert!(transfer.poll(&mut handle, &mut storage, 3, false).is_pending());
    // Resumed once more without an interrupt: the queued handle stays.
    assert!(transfer.poll(&mut handle, &mut storage, 4, false).is_pending());
    assert_eq!(backend.spim_interrupt(&mut storage), Some(3));
}

#[test]
fn buffer_comes_back_exactly_once() {
    let (mut storage, mut handle, _backend) = driver();
    let mut transfer = handle.transfer(vec![9, 9]);
    assert!(transfer.poll(&mut handle, &mut storage, 1, false).is_pending());
    assert!(matches!(transfer.poll(&mut handle, &mut storage, 1, true), Progress::Done(Ok(_))));
    // The operation has no buffer left.
    let again = transfer.poll(&mut handle, &mut storage, 1, true);
    assert!(matches!(again, Progress::Done(Err(SpiError {}))));
    assert!(handle.is_idle());
}

#[test]
fn driver_serves_one_transfer_after_another() {
    let (mut storage, mut handle, mut backend) = driver();
    for round in 0..3u8 {
        let mut transfer = handle.transfer(vec![round]);
        assert!(transfer.poll(&mut handle, &mut storage, u32::from(round), false).is_pending());
        assert_eq!(backend.spim_interrupt(&mut storage), Some(u32::from(round)));
        match transfer.poll(&mut handle, &mut storage, u32::from(round), true) {
            Progress::Done(Ok(buf)) => assert_eq!(buf, vec![round]),
            _ => panic!("the transfer did not complete"),
        }
    }
}

#[test]
fn spi_error_compares_and_prints() {
    assert_eq!(SpiError {}, SpiError {});
    assert_eq!(format!("{:?}", SpiError {}), "SpiError");
}
