use confirm_overlay::effect::{Effect, Invocation, EXIT_SUCCESS, SHELL, SHELL_COMMAND_FLAG};
use confirm_overlay::input::{
    accepts, InputEvent, ANY_BUTTON, KEY_ISO_ENTER, KEY_KP_ENTER, KEY_RETURN,
};
use confirm_overlay::resolver::{classify, effects_for, ConfirmationOutcome, Decision, Phase};

const KEY_ESCAPE: u32 = 0xff1b;
const KEY_SPACE: u32 = 0x20;

#[test]
fn accept_keys_have_their_key_values() {
    assert_eq!(KEY_RETURN, 0xff0d);
    assert_eq!(KEY_KP_ENTER, 0xff8d);
    assert_eq!(KEY_ISO_ENTER, 0xfe34);
    assert_eq!(ANY_BUTTON, 0);
}

#[test]
fn the_three_enter_keys_are_accepted() {
    assert!(accepts(KEY_RETURN));
    assert!(accepts(KEY_KP_ENTER));
    assert!(accepts(KEY_ISO_ENTER));
}

#[test]
fn other_keys_are_not_accepted() {
    assert!(!accepts(KEY_ESCAPE));
    assert!(!accepts(KEY_SPACE));
    assert!(!accepts(0));
    assert!(!accepts(u32::MAX));
    assert!(!accepts(0x0d));
    assert!(!accepts(0x0a));
}

#[test]
fn neighbours_of_the_accept_keys_are_not_accepted() {
    assert!(!accepts(KEY_RETURN - 1));
    assert!(!accepts(KEY_RETURN + 1));
    assert!(!accepts(KEY_KP_ENTER - 1));
    assert!(!accepts(KEY_KP_ENTER + 1));
    assert!(!accepts(KEY_ISO_ENTER - 1));
    assert!(!accepts(KEY_ISO_ENTER + 1));
}

#[test]
fn waiting_classifies_an_accept_key_as_confirm() {
    assert_eq!(
        classify(Phase::Waiting, InputEvent::KeyPress { keyval: KEY_RETURN }),
        Decision::Confirm
    );
    assert_eq!(
        classify(Phase::Waiting, InputEvent::KeyPress { keyval: KEY_KP_ENTER }),
        Decision::Confirm
    );
    assert_eq!(
        classify(Phase::Waiting, InputEvent::KeyPress { keyval: KEY_ISO_ENTER }),
        Decision::Confirm
    );
}

#[test]
fn waiting_classifies_any_other_key_as_dismiss() {
    assert_eq!(
        classify(Phase::Waiting, InputEvent::KeyPress { keyval: KEY_ESCAPE }),
        Decision::Dismiss
    );
    assert_eq!(
        classify(Phase::Waiting, InputEvent::KeyPress { keyval: KEY_SPACE }),
        Decision::Dismiss
    );
    assert_eq!(classify(Phase::Waiting, InputEvent::KeyPress { keyval: 0 }), Decision::Dismiss);
}

#[test]
fn waiting_classifies_a_click_of_any_button_as_dismiss() {
    for button in [0u32, 1, 2, 3, 8, u32::MAX] {
        assert_eq!(
            classify(Phase::Waiting, InputEvent::PointerClick { button }),
            Decision::Dismiss
        );
    }
}

#[test]
fn a_click_numbered_like_an_accept_key_still_dismisses() {
    assert_eq!(
        classify(Phase::Waiting, InputEvent::PointerClick { button: KEY_RETURN }),
        Decision::Dismiss
    );
}

#[test]
fn terminal_phases_ignore_every_event() {
    for phase in [Phase::Confirmed, Phase::Dismissed] {
        assert_eq!(
            classify(phase, InputEvent::KeyPress { keyval: KEY_RETURN }),
            Decision::Ignore
        );
        assert_eq!(
            classify(phase, InputEvent::KeyPress { keyval: KEY_ESCAPE }),
            Decision::Ignore
        );
        assert_eq!(classify(phase, InputEvent::PointerClick { button: 1 }), Decision::Ignore);
    }
}

#[test]
fn outcome_of_each_phase() {
    assert_eq!(Phase::Waiting.outcome(), None);
    assert_eq!(Phase::Confirmed.outcome(), Some(ConfirmationOutcome::Confirmed));
    assert_eq!(Phase::Dismissed.outcome(), Some(ConfirmationOutcome::Dismissed));
}

#[test]
fn shell_invocation_hands_the_command_over_as_one_argument() {
    let invocation = Invocation::shell("notify-send hi");
    assert_eq!(invocation.program, "sh");
    assert_eq!(invocation.args, vec![String::from("-c"), String::from("notify-send hi")]);
}

#[test]
fn shell_invocation_does_not_split_or_quote_the_command() {
    let invocation = Invocation::shell("echo 'a b' && ls -l \"$HOME\"");
    assert_eq!(invocation.program, SHELL);
    assert_eq!(invocation.args.len(), 2);
    assert_eq!(invocation.args[0], SHELL_COMMAND_FLAG);
    assert_eq!(invocation.args[1], "echo 'a b' && ls -l \"$HOME\"");
}

#[test]
fn confirm_closes_and_then_replaces_the_process() {
    assert_eq!(
        effects_for(Decision::Confirm, "rm -rf /tmp/x"),
        vec![
            Effect::CloseSurface,
            Effect::ReplaceProcess(Invocation {
                program: String::from("sh"),
                args: vec![String::from("-c"), String::from("rm -rf /tmp/x")],
            }),
        ]
    );
}

#[test]
fn dismiss_closes_and_then_exits_with_success() {
    assert_eq!(EXIT_SUCCESS, 0);
    assert_eq!(
        effects_for(Decision::Dismiss, "rm -rf /tmp/x"),
        vec![Effect::CloseSurface, Effect::Exit { code: 0 }]
    );
}

#[test]
fn ignore_has_no_effect() {
    assert_eq!(effects_for(Decision::Ignore, "rm -rf /tmp/x"), Vec::<Effect>::new());
}
