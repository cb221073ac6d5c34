use firewheel_web_audio::bootstrap::{module_specifier, output_channel_counts};
use firewheel_web_audio::{Bootstrap, BootstrapPhase, BootstrapStep, WebAudioStartError};

#[test]
fn activation_walks_through_its_steps() {
    let mut bootstrap = Bootstrap::new();
    assert_eq!(bootstrap.phase(), BootstrapPhase::LoadingModule);
    assert_eq!(bootstrap.pending_step(), Some(BootstrapStep::LoadModule));
    assert!(bootstrap.advance(Ok(())).is_none());
    assert_eq!(bootstrap.phase(), BootstrapPhase::CreatingNode);
    assert_eq!(bootstrap.pending_step(), Some(BootstrapStep::CreateNode));
    assert!(bootstrap.advance(Ok(())).is_none());
    assert_eq!(bootstrap.phase(), BootstrapPhase::ConnectingNode);
    assert_eq!(bootstrap.pending_step(), Some(BootstrapStep::ConnectNode));
    assert!(bootstrap.advance(Ok(())).is_none());
    assert_eq!(bootstrap.phase(), BootstrapPhase::Active);
    assert_eq!(bootstrap.pending_step(), None);
}

#[test]
fn a_failed_module_load_ends_the_activation() {
    let mut bootstrap = Bootstrap::new();
    match bootstrap.advance(Err(String::from("TypeError: failed to fetch"))) {
        Some(WebAudioStartError::WorkletCreation(detail)) => {
            assert_eq!(detail, "TypeError: failed to fetch")
        }
        _ => panic!("the failure was not reported"),
    }
    assert_eq!(bootstrap.phase(), BootstrapPhase::Failed);
    assert_eq!(bootstrap.pending_step(), None);
}

#[test]
fn a_failed_node_construction_ends_the_activation() {
    let mut bootstrap = Bootstrap::new();
    assert!(bootstrap.advance(Ok(())).is_none());
    match bootstrap.advance(Err(String::from("InvalidStateError"))) {
        Some(WebAudioStartError::WorkletCreation(detail)) => assert_eq!(detail, "InvalidStateError"),
        _ => panic!("the failure was not reported"),
    }
    assert_eq!(bootstrap.phase(), BootstrapPhase::Failed);
}

#[test]
fn a_failed_connection_ends_the_activation() {
    let mut bootstrap = Bootstrap::new();
    assert!(bootstrap.advance(Ok(())).is_none());
    assert!(bootstrap.advance(Ok(())).is_none());
    assert!(bootstrap.advance(Err(String::from("IndexSizeError"))).is_some());
    assert_eq!(bootstrap.phase(), BootstrapPhase::Failed);
}

#[test]
fn outcomes_after_the_end_change_nothing() {
    let mut bootstrap = Bootstrap::new();
    assert!(bootstrap.advance(Err(String::from("first"))).is_some());
    assert!(bootstrap.advance(Err(String::from("second"))).is_none());
    assert!(bootstrap.advance(Ok(())).is_none());
    assert_eq!(bootstrap.phase(), BootstrapPhase::Failed);

    let mut bootstrap = Bootstrap::new();
    for _ in 0..3 {
        assert!(bootstrap.advance(Ok(())).is_none());
    }
    assert!(bootstrap.advance(Err(String::from("late"))).is_none());
    assert!(bootstrap.advance(Ok(())).is_none());
    assert_eq!(bootstrap.phase(), BootstrapPhase::Active);
}

#[test]
fn module_specifier_drops_leading_dots() {
    assert_eq!(module_specifier("./js/audio-worklet.js"), "/js/audio-worklet.js");
    assert_eq!(module_specifier("../js/audio-worklet.js"), "/js/audio-worklet.js");
    assert_eq!(module_specifier("/js/audio-worklet.js"), "/js/audio-worklet.js");
    assert_eq!(module_specifier("js/audio.worklet.js"), "js/audio.worklet.js");
    assert_eq!(module_specifier("..."), "");
    assert_eq!(module_specifier(""), "");
}

#[test]
fn the_node_has_one_output_with_two_channels() {
    assert_eq!(output_channel_counts(), vec![2]);
}
