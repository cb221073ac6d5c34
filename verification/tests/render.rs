use firewheel_web_audio::buffers::{
    copy_samples, fill_samples, INPUT_REGION_LEN, OUTPUT_REGION_LEN,
};
use firewheel_web_audio::{
    handoff, BufferPool, LivenessFlag, ReceiverGone, RenderHost, SampleRate, WebAudioBackend,
};

fn start() -> (WebAudioBackend<String>, RenderHost<String, f32>) {
    let rate = SampleRate::new(48000).expect("a positive rate");
    match WebAudioBackend::start_stream(Ok(rate), 0.0f32) {
        Ok((backend, host, _info)) => (backend, host),
        Err(error) => panic!("the stream did not start: {}", error.message()),
    }
}

#[test]
fn region_lengths_are_channels_times_block_frames() {
    assert_eq!(INPUT_REGION_LEN, 0);
    assert_eq!(OUTPUT_REGION_LEN, 256);
    let pool = BufferPool::new(0.0f32);
    assert_eq!(pool.input().len(), 0);
    assert_eq!(pool.output().len(), 256);
}

#[test]
fn a_new_pool_is_silent() {
    let pool = BufferPool::new(0.0f32);
    assert!(pool.output().iter().all(|sample| *sample == 0.0));
    assert_eq!(pool.silence(), 0.0);
    let pool = BufferPool::new(7u8);
    assert!(pool.output().iter().all(|sample| *sample == 7));
}

#[test]
fn fill_samples_writes_every_sample() {
    let mut region = [1.0f32, 2.0, 3.0];
    fill_samples(&mut region, 0.5);
    assert_eq!(region, [0.5, 0.5, 0.5]);
    let mut empty: [f32; 0] = [];
    fill_samples(&mut empty, 0.5);
    assert_eq!(empty.len(), 0);
}

#[test]
fn copy_samples_copies_what_fits() {
    let mut region = [1, 2, 3, 4];
    copy_samples(&mut region, &[9, 8]);
    assert_eq!(region, [9, 8, 3, 4]);
    let mut region = [1, 2];
    copy_samples(&mut region, &[9, 8, 7]);
    assert_eq!(region, [9, 8]);
    let mut region = [1, 2];
    copy_samples(&mut region, &[]);
    assert_eq!(region, [1, 2]);
}

#[test]
fn pool_regions_can_be_written_and_read_back() {
    let mut pool = BufferPool::new(0.0f32);
    {
        let (input, output) = pool.regions();
        assert_eq!(input.len(), 0);
        assert_eq!(output.len(), 256);
        output[0] = 0.25;
        output[255] = -0.25;
    }
    assert_eq!(pool.output()[0], 0.25);
    assert_eq!(pool.output()[255], -0.25);
    let mut target = [1.0f32; 4];
    pool.store_output(&mut target);
    assert_eq!(target, [0.25, 0.0, 0.0, 0.0]);
    pool.silence_output();
    assert!(pool.output().iter().all(|sample| *sample == 0.0));
    pool.load_input(&[1.0, 2.0]);
    assert_eq!(pool.input().len(), 0);
}

#[test]
fn every_block_is_silent_before_a_processor_is_installed() {
    let (_backend, mut host) = start();
    for _ in 0..3 {
        assert!(host.begin_block(&[]).is_none());
        assert!(!host.is_active());
        assert_eq!(host.output_region().len(), 256);
        assert!(host.output_region().iter().all(|sample| *sample == 0.0));
        let mut platform_output = [1.0f32; 256];
        assert!(host.end_block(&mut platform_output));
        assert!(platform_output.iter().all(|sample| *sample == 0.0));
    }
}

#[test]
fn a_silent_block_overwrites_what_the_output_region_held() {
    let (sender, receiver) = handoff::<String>();
    let flag = LivenessFlag::new();
    let mut host = RenderHost::new(receiver, flag.observer(), 0.0f32);
    assert!(host.offer(Some(String::from("graph"))).is_none());
    match host.prepare_block(&[]) {
        Some((_processor, _input, output)) => output.fill(1.0),
        None => panic!("nothing was lent out"),
    }
    assert!(host.output_region().iter().all(|sample| *sample == 1.0));
    drop(sender);

    let (_sender, receiver) = handoff::<String>();
    let mut waiting = RenderHost::new(receiver, flag.observer(), 0.0f32);
    assert!(waiting.prepare_block(&[]).is_none());
    assert!(waiting.output_region().iter().all(|sample| *sample == 0.0));
}

#[test]
fn the_installed_processor_arrives_on_the_next_block() {
    let (mut backend, mut host) = start();
    assert!(host.begin_block(&[]).is_none());
    backend.set_processor(String::from("graph"));
    match host.begin_block(&[]) {
        Some((processor, input, output)) => {
            assert_eq!(processor.as_str(), "graph");
            assert_eq!(input.len(), 0);
            assert_eq!(output.len(), 256);
        }
        None => panic!("the processor did not arrive"),
    }
    assert!(host.is_active());
}

#[test]
fn only_the_first_processor_is_taken() {
    let (mut backend, mut host) = start();
    backend.set_processor(String::from("first"));
    backend.set_processor(String::from("second"));
    for _ in 0..4 {
        match host.begin_block(&[]) {
            Some((processor, _input, _output)) => assert_eq!(processor.as_str(), "first"),
            None => panic!("the processor did not arrive"),
        }
        host.poll_processor();
    }
}

#[test]
fn an_active_host_turns_later_arrivals_away() {
    let (_backend, mut host) = start();
    assert_eq!(host.offer(None), None);
    assert!(!host.is_active());
    assert_eq!(host.offer(Some(String::from("first"))), None);
    assert!(host.is_active());
    assert_eq!(host.offer(Some(String::from("second"))), Some(String::from("second")));
    assert_eq!(host.offer(None), None);
    match host.prepare_block(&[]) {
        Some((processor, _input, _output)) => assert_eq!(processor.as_str(), "first"),
        None => panic!("nothing was lent out"),
    }
}

#[test]
fn the_engine_writes_the_block_that_the_platform_gets() {
    let (mut backend, mut host) = start();
    backend.set_processor(String::from("graph"));
    match host.begin_block(&[]) {
        Some((processor, _input, output)) => {
            processor.push_str(" ran");
            for (index, sample) in output.iter_mut().enumerate() {
                *sample = index as f32;
            }
        }
        None => panic!("the processor did not arrive"),
    }
    let mut platform_output = [0.0f32; 256];
    assert!(host.end_block(&mut platform_output));
    for (index, sample) in platform_output.iter().enumerate() {
        assert_eq!(*sample, index as f32);
    }
    match host.begin_block(&[]) {
        Some((processor, _input, output)) => {
            assert_eq!(processor.as_str(), "graph ran");
            assert_eq!(output[255], 255.0);
        }
        None => panic!("the processor was lost"),
    }
}

#[test]
fn end_block_copies_as_much_as_the_platform_takes() {
    let (_backend, mut host) = start();
    assert!(host.offer(Some(String::from("graph"))).is_none());
    if let Some((_processor, _input, output)) = host.prepare_block(&[]) {
        output.fill(0.5);
    }
    let mut short = [0.0f32; 3];
    host.end_block(&mut short);
    assert_eq!(short, [0.5, 0.5, 0.5]);
    let mut long = [9.0f32; 300];
    host.end_block(&mut long);
    assert!(long[..256].iter().all(|sample| *sample == 0.5));
    assert!(long[256..].iter().all(|sample| *sample == 9.0));
    let mut none: [f32; 0] = [];
    host.end_block(&mut none);
}

#[test]
fn send_hands_the_value_back_when_the_receiver_is_gone() {
    let (mut sender, receiver) = handoff::<String>();
    drop(receiver);
    match sender.send(String::from("graph")) {
        Err(ReceiverGone(value)) => assert_eq!(value, "graph"),
        Ok(()) => panic!("the send did not fail"),
    }
}

#[test]
fn every_send_after_a_failed_one_fails() {
    let (mut sender, receiver) = handoff::<u32>();
    assert!(sender.send(1).is_ok());
    drop(receiver);
    for value in 2..5 {
        match sender.send(value) {
            Err(ReceiverGone(unsent)) => assert_eq!(unsent, value),
            Ok(()) => panic!("the send did not fail"),
        }
    }
}

#[test]
fn a_sent_value_is_received_once() {
    let (mut sender, mut receiver) = handoff::<u32>();
    assert_eq!(receiver.try_receive(), None);
    assert!(sender.send(7).is_ok());
    assert_eq!(receiver.try_receive(), Some(7));
    assert_eq!(receiver.try_receive(), None);
    drop(sender);
    assert_eq!(receiver.try_receive(), None);
}

#[test]
fn a_receiver_takes_one_value_in_its_life() {
    let (mut sender, mut receiver) = handoff::<u32>();
    assert!(sender.send(1).is_ok());
    assert!(sender.send(2).is_ok());
    assert_eq!(receiver.try_receive(), Some(1));
    assert_eq!(receiver.try_receive(), None);
    assert!(sender.send(3).is_ok());
    assert_eq!(receiver.try_receive(), None);
}

#[test]
fn a_sender_that_is_gone_leaves_nothing_to_receive() {
    let (sender, mut receiver) = handoff::<u32>();
    drop(sender);
    assert_eq!(receiver.try_receive(), None);
    assert_eq!(receiver.try_receive(), None);
}
