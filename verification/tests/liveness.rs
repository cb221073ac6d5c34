use firewheel_web_audio::{LivenessFlag, RenderHost, SampleRate, WebAudioBackend};

fn start() -> (WebAudioBackend<String>, RenderHost<String, f32>) {
    let rate = SampleRate::new(48000).expect("a positive rate");
    match WebAudioBackend::start_stream(Ok(rate), 0.0f32) {
        Ok((backend, host, _info)) => (backend, host),
        Err(error) => panic!("the stream did not start: {}", error.message()),
    }
}

#[test]
fn a_new_flag_is_alive() {
    let flag = LivenessFlag::new();
    assert!(flag.is_alive());
    let mut observer = flag.observer();
    assert!(observer.is_alive());
    assert!(observer.is_alive());
}

#[test]
fn a_marked_flag_never_revives() {
    let mut flag = LivenessFlag::new();
    flag.mark_dead();
    assert!(!flag.is_alive());
    flag.mark_dead();
    assert!(!flag.is_alive());
    assert!(!flag.is_alive());
}

#[test]
fn observers_see_the_flag_die() {
    let mut flag = LivenessFlag::new();
    let mut early = flag.observer();
    assert!(early.is_alive());
    flag.mark_dead();
    assert!(!early.is_alive());
    assert!(!early.is_alive());
    let mut late = flag.observer();
    assert!(!late.is_alive());
}

#[test]
fn an_observer_that_saw_the_flag_dead_stays_with_it() {
    let flag = LivenessFlag::new();
    let mut observer = flag.observer();
    assert!(observer.observe(true));
    assert!(!observer.observe(false));
    assert!(!observer.observe(true));
    assert!(!observer.is_alive());
}

#[test]
fn the_render_side_sees_the_release() {
    let (mut backend, mut host) = start();
    assert!(host.is_alive());
    let mut platform_output = [0.0f32; 256];
    assert!(host.end_block(&mut platform_output));
    let _ = backend.release();
    assert!(!host.end_block(&mut platform_output));
    assert!(!host.is_alive());
    let _ = backend.release();
    assert!(!host.is_alive());
}

#[test]
fn the_render_side_outlives_the_backend() {
    let (mut backend, mut host) = start();
    backend.set_processor(String::from("graph"));
    let _ = backend.release();
    drop(backend);
    assert!(host.begin_block(&[]).is_some());
    let mut platform_output = [0.0f32; 256];
    assert!(!host.end_block(&mut platform_output));
}
