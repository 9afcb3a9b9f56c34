use epd_screen::{
    next_step, Action, ErrorCode, FrameBuffer, FrameBufferManager, InitError, Progress,
    ScreenPixelFormat, ScreenRotation, Step, TransferScheduler, TransferState, BUF_LEN,
    DRIVER_NUM, ED037TC1, HEIGHT, STEP_COUNT, WIDTH,
};

fn pattern(len: usize) -> Vec<u8> {
    let mut v = Vec::with_capacity(len);
    for i in 0..len {
        v.push((i % 251) as u8);
    }
    v
}

fn expected_steps() -> Vec<Step> {
    vec![
        Step::CommandOnly { bytes: vec![0x12] },
        Step::CommandOnly { bytes: vec![0x44, 0x00, 0x00, 0x17, 0x01] },
        Step::CommandOnly { bytes: vec![0x45, 0x00, 0x00, 0xDF, 0x01] },
        Step::CommandOnly { bytes: vec![0x4E, 0x00, 0x00] },
        Step::CommandOnly { bytes: vec![0x4F, 0x00, 0x00] },
        Step::CommandWithData { bytes: vec![0x24], offset: 0, len: 16800 },
        Step::CommandOnly { bytes: vec![0x22, 0xF7] },
        Step::CommandOnly { bytes: vec![0x20] },
        Step::CommandOnly { bytes: vec![0x10, 0x01] },
    ]
}

fn driver() -> ED037TC1<u32> {
    ED037TC1::new(vec![0u8; 16800]).unwrap()
}

#[test]
fn constants_describe_the_panel() {
    assert_eq!(WIDTH, 280);
    assert_eq!(HEIGHT, 480);
    assert_eq!(BUF_LEN, 16800);
    assert_eq!(BUF_LEN, WIDTH * HEIGHT / 8);
    assert_eq!(DRIVER_NUM, 0x90001);
    assert_eq!(STEP_COUNT, 9);
}

#[test]
fn undersized_region_fails_construction() {
    assert_eq!(ED037TC1::<u32>::new(vec![0u8; 16799]).unwrap_err(), InitError::BufferTooSmall);
    assert_eq!(ED037TC1::<u32>::new(Vec::new()).unwrap_err(), InitError::BufferTooSmall);
    assert_eq!(
        FrameBufferManager::new(vec![0u8; 16799]).unwrap_err(),
        InitError::BufferTooSmall
    );
}

#[test]
fn exact_and_larger_regions_construct() {
    let d = ED037TC1::<u32>::new(vec![0u8; 16800]).unwrap();
    assert_eq!(d.state(), TransferState::Idle);
    assert_eq!(d.step_index(), 0);
    assert!(d.client().is_none());
    let d = ED037TC1::<u32>::new(vec![0u8; 20000]).unwrap();
    assert_eq!(d.state(), TransferState::Idle);
}

#[test]
fn fixed_panel_properties() {
    let d = driver();
    assert_eq!(d.get_resolution(), (280, 480));
    assert_eq!(d.get_pixel_format(), ScreenPixelFormat::Mono);
    assert_eq!(d.get_rotation(), ScreenRotation::Normal);
}

#[test]
fn full_frame_write_runs_to_success() {
    let mut d = driver();
    assert_eq!(d.get_resolution(), (280, 480));
    let pixels = vec![0xA5u8; 16800];
    let first = d.write(&pixels, 16800).unwrap();
    assert_eq!(first, Step::CommandOnly { bytes: vec![0x12] });
    assert_eq!(d.state(), TransferState::AwaitingBusCompletion);
    let mut notified = Vec::new();
    let mut issued = vec![first];
    for _ in 0..STEP_COUNT {
        match d.on_bus_complete(Ok(())) {
            Some(Action::Issue(step)) => issued.push(step),
            Some(Action::Notify(outcome)) => notified.push(outcome),
            None => panic!("a completion was awaited"),
        }
    }
    assert_eq!(issued, expected_steps());
    assert_eq!(notified, vec![Ok(())]);
    assert_eq!(d.state(), TransferState::Idle);
    assert_eq!(d.step_index(), 0);
}

#[test]
fn steps_are_issued_in_table_order() {
    let expected = expected_steps();
    for (i, step) in expected.iter().enumerate() {
        assert_eq!(next_step(i).as_ref(), Some(step));
    }
    assert_eq!(next_step(9), None);
    assert_eq!(next_step(usize::MAX), None);

    let mut d = driver();
    let pixels = pattern(16800);
    assert_eq!(d.write(&pixels, 16800).unwrap(), expected[0]);
    for i in 1..STEP_COUNT {
        assert_eq!(d.step_index(), i - 1);
        match d.on_bus_complete(Ok(())) {
            Some(Action::Issue(step)) => assert_eq!(step, expected[i]),
            other => panic!("step {} was not issued: {:?}", i, other),
        }
        assert_eq!(d.state(), TransferState::AwaitingBusCompletion);
    }
    assert_eq!(d.on_bus_complete(Ok(())), Some(Action::Notify(Ok(()))));
}

#[test]
fn write_is_accepted_again_after_success() {
    let mut d = driver();
    let pixels = pattern(16800);
    d.write(&pixels, 16800).unwrap();
    let mut last = None;
    for _ in 0..STEP_COUNT {
        last = d.on_bus_complete(Ok(()));
    }
    assert_eq!(last, Some(Action::Notify(Ok(()))));
    assert_eq!(d.state(), TransferState::Idle);
    assert_eq!(d.write(&pixels, 16800), Ok(Step::CommandOnly { bytes: vec![0x12] }));
    assert_eq!(d.state(), TransferState::AwaitingBusCompletion);
}

#[test]
fn write_while_outstanding_is_busy_and_changes_nothing() {
    let mut d = driver();
    let pixels = pattern(16800);
    d.write(&pixels, 16800).unwrap();
    for _ in 0..5 {
        d.on_bus_complete(Ok(()));
    }
    assert_eq!(d.step_index(), 5);
    let other = vec![0xFFu8; 16800];
    assert_eq!(d.write(&other, 16800), Err(ErrorCode::Busy));
    assert_eq!(d.write_continue(&other, 16800), Err(ErrorCode::Busy));
    assert_eq!(d.state(), TransferState::AwaitingBusCompletion);
    assert_eq!(d.step_index(), 5);
    let data_step = next_step(5).unwrap();
    assert_eq!(d.step_data(&data_step), Some(&pixels[..]));
}

#[test]
fn bus_failure_aborts_the_sequence() {
    let mut d = driver();
    let pixels = pattern(16800);
    d.write(&pixels, 16800).unwrap();
    assert!(matches!(d.on_bus_complete(Ok(())), Some(Action::Issue(_))));
    assert!(matches!(d.on_bus_complete(Ok(())), Some(Action::Issue(_))));
    assert_eq!(
        d.on_bus_complete(Err(ErrorCode::Fail)),
        Some(Action::Notify(Err(ErrorCode::Fail)))
    );
    assert_eq!(d.state(), TransferState::Idle);
    assert_eq!(d.step_index(), 0);
    assert_eq!(d.on_bus_complete(Ok(())), None);
    assert_eq!(d.write(&pixels, 16800), Ok(Step::CommandOnly { bytes: vec![0x12] }));
}

#[test]
fn failure_of_the_first_and_of_the_last_step() {
    let pixels = pattern(16800);
    let mut d = driver();
    d.write(&pixels, 16800).unwrap();
    assert_eq!(
        d.on_bus_complete(Err(ErrorCode::Busy)),
        Some(Action::Notify(Err(ErrorCode::Busy)))
    );
    assert_eq!(d.state(), TransferState::Idle);

    d.write(&pixels, 16800).unwrap();
    for _ in 0..STEP_COUNT - 1 {
        assert!(matches!(d.on_bus_complete(Ok(())), Some(Action::Issue(_))));
    }
    assert_eq!(
        d.on_bus_complete(Err(ErrorCode::Fail)),
        Some(Action::Notify(Err(ErrorCode::Fail)))
    );
    assert_eq!(d.state(), TransferState::Idle);
}

#[test]
fn completion_without_a_sequence_is_ignored() {
    let mut d = driver();
    assert_eq!(d.on_bus_complete(Ok(())), None);
    assert_eq!(d.on_bus_complete(Err(ErrorCode::Fail)), None);
    assert_eq!(d.state(), TransferState::Idle);
    assert_eq!(d.step_index(), 0);
}

#[test]
fn unsupported_operations_report_no_support() {
    let mut d = driver();
    d.set_client(Some(7));
    assert_eq!(d.set_power(true), Err(ErrorCode::NoSupport));
    assert_eq!(d.set_brightness(50), Err(ErrorCode::NoSupport));
    assert_eq!(d.set_invert(true), Err(ErrorCode::NoSupport));
    assert_eq!(d.set_write_frame(0, 0, 10, 10), Err(ErrorCode::NoSupport));
    assert_eq!(d.set_power(false), Err(ErrorCode::NoSupport));
    assert_eq!(d.set_write_frame(0, 0, 280, 480), Err(ErrorCode::NoSupport));
    assert_eq!(d.state(), TransferState::Idle);
    assert_eq!(d.step_index(), 0);
    assert_eq!(d.client(), Some(&7));
    let pixels = pattern(16800);
    assert!(d.write(&pixels, 16800).is_ok());
    assert_eq!(d.set_invert(false), Err(ErrorCode::NoSupport));
    assert_eq!(d.state(), TransferState::AwaitingBusCompletion);
}

#[test]
fn write_of_a_wrong_length_is_invalid() {
    let mut d = driver();
    let pixels = pattern(16800);
    assert_eq!(d.write(&pixels, 16799), Err(ErrorCode::Invalid));
    assert_eq!(d.write(&pixels, 0), Err(ErrorCode::Invalid));
    assert_eq!(d.write(&pixels, 16801), Err(ErrorCode::Invalid));
    assert_eq!(d.write(&pixels[..100], 16800), Err(ErrorCode::Invalid));
    assert_eq!(d.write_continue(&pixels, 1), Err(ErrorCode::Invalid));
    assert_eq!(d.state(), TransferState::Idle);
    let longer = pattern(17000);
    assert!(d.write(&longer, 16800).is_ok());
    assert_eq!(d.write(&pixels, 5), Err(ErrorCode::Invalid));
    assert_eq!(d.state(), TransferState::AwaitingBusCompletion);
}

#[test]
fn data_step_sends_the_pixels_written() {
    let mut d = driver();
    let pixels = pattern(17000);
    let first = d.write(&pixels, 16800).unwrap();
    assert_eq!(d.step_data(&first), None);
    let data_step = Step::CommandWithData { bytes: vec![0x24], offset: 0, len: 16800 };
    assert_eq!(d.step_data(&data_step), Some(&pixels[..16800]));
    let part = Step::CommandWithData { bytes: vec![0x24], offset: 10, len: 20 };
    assert_eq!(d.step_data(&part), Some(&pixels[10..30]));
    let outside = Step::CommandWithData { bytes: vec![0x24], offset: 16000, len: 801 };
    assert_eq!(d.step_data(&outside), None);
    let wraps = Step::CommandWithData { bytes: vec![0x24], offset: usize::MAX, len: 2 };
    assert_eq!(d.step_data(&wraps), None);
    d.on_bus_complete(Err(ErrorCode::Fail));
    assert_eq!(d.step_data(&data_step), None);
}

#[test]
fn set_client_replaces_and_clears() {
    let mut d = driver();
    assert_eq!(d.client(), None);
    d.set_client(Some(1));
    assert_eq!(d.client(), Some(&1));
    d.set_client(Some(2));
    assert_eq!(d.client(), Some(&2));
    d.set_client(None);
    assert_eq!(d.client(), None);
}

#[test]
fn frame_buffer_keeps_and_loads_bytes() {
    let fb = FrameBuffer::new(vec![1, 2, 3, 4, 5]);
    assert_eq!(fb.len(), 5);
    assert_eq!(fb.chunk(1, 3), Some(&[2u8, 3, 4][..]));
    assert_eq!(fb.chunk(0, 5), Some(&[1u8, 2, 3, 4, 5][..]));
    assert_eq!(fb.chunk(5, 0), Some(&[][..]));
    assert_eq!(fb.chunk(3, 3), None);
    assert_eq!(fb.chunk(6, 0), None);
    assert_eq!(fb.chunk(usize::MAX, 1), None);
    let mut fb = fb;
    assert!(fb.load(&[9, 8, 7], 2));
    assert!(!fb.load(&[6], 2));
    assert!(!fb.load(&[6, 6, 6, 6, 6, 6], 6));
    assert!(fb.load(&[], 0));
    assert_eq!(fb.into_inner(), vec![9, 8, 3, 4, 5]);
}

#[test]
fn frame_buffer_manager_hands_the_buffer_out_once() {
    let region = pattern(16900);
    let mut m = FrameBufferManager::new(region.clone()).unwrap();
    assert!(m.is_available());
    let b = m.acquire().unwrap();
    assert_eq!(b.len(), 16900);
    assert!(!m.is_available());
    assert_eq!(m.acquire(), None);
    m.release(b);
    assert!(m.is_available());
    assert_eq!(m.acquire().unwrap().into_inner(), region);
}

#[test]
fn scheduler_alone_passes_through_sequence_complete() {
    let mut s = TransferScheduler::new();
    assert_eq!(s.state(), TransferState::Idle);
    assert_eq!(s.on_bus_complete(Ok(())), None);
    let first = s.begin_sequence(FrameBuffer::new(vec![3u8; 16800])).unwrap();
    assert_eq!(first, Step::CommandOnly { bytes: vec![0x12] });
    assert_eq!(s.state(), TransferState::AwaitingBusCompletion);
    assert_eq!(s.in_flight().map(|b| b.len()), Some(16800));
    match s.begin_sequence(FrameBuffer::new(vec![4u8; 16800])) {
        Err((e, b)) => {
            assert_eq!(e, ErrorCode::Busy);
            assert_eq!(b.into_inner(), vec![4u8; 16800]);
        }
        Ok(_) => panic!("a second sequence was accepted"),
    }
    for i in 1..STEP_COUNT {
        assert_eq!(s.on_bus_complete(Ok(())), Some(Progress::Next(next_step(i).unwrap())));
        assert_eq!(s.step_index(), i);
    }
    assert_eq!(
        s.on_bus_complete(Ok(())),
        Some(Progress::Finished { buffer: FrameBuffer::new(vec![3u8; 16800]), outcome: Ok(()) })
    );
    assert_eq!(s.state(), TransferState::SequenceComplete);
    assert!(s.in_flight().is_none());
    match s.begin_sequence(FrameBuffer::new(vec![5u8; 16800])) {
        Err((e, _)) => assert_eq!(e, ErrorCode::Busy),
        Ok(_) => panic!("a sequence was accepted before the reset"),
    }
    s.reset();
    assert_eq!(s.state(), TransferState::Idle);
    assert_eq!(s.step_index(), 0);
    assert!(s.begin_sequence(FrameBuffer::new(vec![5u8; 16800])).is_ok());
    s.reset();
    assert_eq!(s.state(), TransferState::AwaitingBusCompletion);
    assert_eq!(
        s.on_bus_complete(Err(ErrorCode::Fail)),
        Some(Progress::Finished {
            buffer: FrameBuffer::new(vec![5u8; 16800]),
            outcome: Err(ErrorCode::Fail)
        })
    );
    assert_eq!(s.state(), TransferState::Idle);
}
