use triangle_gl::window::{
    step_at, InitError, Interval, Profile, SetupStep, WindowSetup, CONTEXT_MAJOR, CONTEXT_MINOR,
    STEPS,
};

/// The steps that open a window of the given size, in order.
fn steps_in_order(width: u32, height: u32) -> Vec<SetupStep> {
    vec![
        SetupStep::Platform,
        SetupStep::Video,
        SetupStep::ContextVersion { major: 3, minor: 3 },
        SetupStep::ContextProfile { profile: Profile::Core },
        SetupStep::Window { width, height, centered: true, opengl: true },
        SetupStep::Context,
        SetupStep::Functions,
        SetupStep::SwapInterval { interval: Interval::VSync },
        SetupStep::Events,
    ]
}

#[test]
fn context_is_version_three_three() {
    assert_eq!((CONTEXT_MAJOR, CONTEXT_MINOR), (3, 3));
}

#[test]
fn steps_come_in_order() {
    let order = steps_in_order(960, 540);
    assert_eq!(STEPS, order.len());
    for at in 0..STEPS {
        assert_eq!(step_at(at, 960, 540), order[at]);
    }
}

#[test]
fn setup_keeps_title_and_size() {
    let setup = WindowSetup::new("RUST GAME", 960, 540);
    assert_eq!(setup.title(), "RUST GAME");
    assert_eq!(setup.width(), 960);
    assert_eq!(setup.height(), 540);
}

#[test]
fn setup_succeeds_where_every_step_does() {
    let mut setup = WindowSetup::new("RUST GAME", 960, 540);
    let mut asked = Vec::new();
    while let Some(step) = setup.pending() {
        assert_eq!(asked.len() < STEPS, true);
        asked.push(step);
        setup.resume(Ok(()));
    }
    assert_eq!(asked, steps_in_order(960, 540));
    assert_eq!(setup.finish(), Some(Ok(())));
}

#[test]
fn window_is_asked_for_in_the_size_of_the_setup() {
    let mut setup = WindowSetup::new("w", 1, u32::MAX);
    for _ in 0..4 {
        setup.resume(Ok(()));
    }
    assert_eq!(
        setup.pending(),
        Some(SetupStep::Window { width: 1, height: u32::MAX, centered: true, opengl: true })
    );
}

#[test]
fn first_failure_ends_the_setup() {
    let order = steps_in_order(1, 1);
    for failing in 0..STEPS {
        let mut setup = WindowSetup::new("w", 1, 1);
        let mut asked = Vec::new();
        while let Some(step) = setup.pending() {
            asked.push(step);
            if asked.len() == failing + 1 {
                setup.resume(Err(String::from("no display")));
            } else {
                setup.resume(Ok(()));
            }
        }
        assert_eq!(asked, order[..=failing].to_vec());
        assert_eq!(
            setup.finish(),
            Some(Err(InitError { step: order[failing], message: String::from("no display") }))
        );
    }
}

#[test]
fn setup_is_not_finished_while_a_step_is_pending() {
    let order = steps_in_order(0, 0);
    for passed in 0..STEPS {
        let mut setup = WindowSetup::new("", 0, 0);
        for _ in 0..passed {
            setup.resume(Ok(()));
        }
        assert_eq!(setup.pending(), Some(order[passed]));
        assert_eq!(setup.finish(), None);
    }
}

#[test]
fn outcomes_after_the_end_are_dropped() {
    let mut setup = WindowSetup::new("", 0, 0);
    setup.resume(Ok(()));
    setup.resume(Err(String::from("first")));
    setup.resume(Err(String::from("second")));
    setup.resume(Ok(()));
    assert_eq!(setup.pending(), None);
    assert_eq!(
        setup.finish(),
        Some(Err(InitError { step: SetupStep::Video, message: String::from("first") }))
    );
    let mut setup = WindowSetup::new("", 0, 0);
    for _ in 0..STEPS {
        setup.resume(Ok(()));
    }
    setup.resume(Err(String::from("late")));
    assert_eq!(setup.finish(), Some(Ok(())));
}
