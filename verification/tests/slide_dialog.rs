use captcha_solver_ui::picture::Picture;
use captcha_solver_ui::slint_ui::{
    SlidePhase, SlideEvent, SlideOrRotateCaptchaType, SlideOrRotateSolverUi, WindowAction,
};
use captcha_solver_ui::solvers::{MRotate, MSlide, SlideOrRotateVerificationInfoTrait, SolverUiTrait};
use captcha_solver_ui::CaptchaError;

fn plain(width: u32, height: u32, byte: u8) -> Picture {
    Picture::from_raw(width, height, vec![byte; (width * height * 4) as usize]).unwrap()
}

fn pictures() -> (Picture, Picture) {
    (plain(8, 4, 1), plain(2, 2, 2))
}

fn canceled_text(result: Result<u32, CaptchaError>) -> String {
    match result {
        Err(CaptchaError::Canceled(text)) => text,
        other => panic!("expected a cancellation, got {other:?}"),
    }
}

#[test]
fn a_new_slide_dialog_is_idle() {
    let ui = SlideOrRotateSolverUi::new();
    assert_eq!(ui.phase(), SlidePhase::Idle);
    assert_eq!(ui.get_result(), 0);
    assert_eq!(ui.live_value_bits(), 0);
    assert!(!ui.is_canceled());
    assert!(!ui.is_hidden());
    assert!(ui.get_outer_image().is_none());
    assert!(ui.get_inner_image().is_none());
}

#[test]
fn confirming_reports_the_live_value_rounded() {
    let mut ui = SlideOrRotateSolverUi::new();
    assert_eq!(ui.verify(42.6f32.to_bits()), WindowAction::Hide);
    assert_eq!(ui.get_result(), 43);
    assert_eq!(f32::from_bits(ui.live_value_bits()), 42.6f32);
    assert!(ui.is_hidden());
    assert!(!ui.is_canceled());
    assert_eq!(ui.phase(), SlidePhase::Confirmed);
    assert_eq!(ui.into_result(), (false, 43));
}

#[test]
fn a_slide_dialog_gives_the_rounded_value() {
    let events = vec![SlideEvent::Verify { value_bits: 42.6f32.to_bits() }];
    assert_eq!(MSlide::ui_solver(pictures(), &events).unwrap(), 43);
    let events = vec![SlideEvent::Verify { value_bits: 42.4f32.to_bits() }];
    assert_eq!(MSlide::ui_solver(pictures(), &events).unwrap(), 42);
    let events = vec![SlideEvent::Verify { value_bits: 359.5f32.to_bits() }];
    assert_eq!(MRotate::ui_solver(pictures(), &events).unwrap(), 360);
}

#[test]
fn dragging_is_taken_as_it_comes() {
    let mut ui = SlideOrRotateSolverUi::new();
    ui.drag(10.25f32.to_bits());
    assert_eq!(ui.phase(), SlidePhase::Dragging);
    assert_eq!(f32::from_bits(ui.live_value_bits()), 10.25f32);
    assert_eq!(ui.get_result(), 0);
    ui.drag(f32::NAN.to_bits());
    assert!(f32::from_bits(ui.live_value_bits()).is_nan());
    assert_eq!(ui.handle(SlideEvent::Drag { value_bits: (-3.0f32).to_bits() }), WindowAction::Keep);
    assert!(!ui.is_hidden());
    assert_eq!(ui.get_result(), 0);
}

#[test]
fn the_value_of_the_moment_of_confirming_counts() {
    let events = vec![
        SlideEvent::Drag { value_bits: 10.0f32.to_bits() },
        SlideEvent::Drag { value_bits: 99.0f32.to_bits() },
        SlideEvent::Verify { value_bits: 57.5f32.to_bits() },
        SlideEvent::Drag { value_bits: 1.0f32.to_bits() },
        SlideEvent::Verify { value_bits: 2.0f32.to_bits() },
    ];
    assert_eq!(MSlide::ui_solver(pictures(), &events).unwrap(), 58);
}

#[test]
fn closing_a_slide_dialog_is_a_cancellation() {
    let events = vec![SlideEvent::Drag { value_bits: 10.0f32.to_bits() }, SlideEvent::CloseRequested];
    assert_eq!(canceled_text(MSlide::ui_solver(pictures(), &events)), "操作已取消。");
    let events = vec![SlideEvent::CloseRequested];
    assert_eq!(canceled_text(MRotate::ui_solver(pictures(), &events)), "操作已取消。");
}

#[test]
fn canceling_a_slide_dialog_is_a_cancellation() {
    let events = vec![SlideEvent::Drag { value_bits: 10.0f32.to_bits() }, SlideEvent::Cancel];
    assert_eq!(canceled_text(MSlide::ui_solver(pictures(), &events)), "操作已取消。");
    let mut ui = SlideOrRotateSolverUi::new();
    assert_eq!(ui.cancel(), WindowAction::Hide);
    assert_eq!(ui.phase(), SlidePhase::Canceled);
    let mut ui = SlideOrRotateSolverUi::new();
    assert_eq!(ui.close_requested(), WindowAction::Hide);
    assert_eq!(ui.phase(), SlidePhase::Canceled);
    assert_eq!(ui.into_result(), (true, 0));
}

#[test]
fn a_slide_dialog_that_just_ends_gives_zero() {
    assert_eq!(MSlide::ui_solver(pictures(), &Vec::new()).unwrap(), 0);
    let events = vec![SlideEvent::Drag { value_bits: 10.0f32.to_bits() }];
    assert_eq!(MSlide::ui_solver(pictures(), &events).unwrap(), 0);
}

#[test]
fn prepare_shows_both_pictures() {
    let mut ui = <SlideOrRotateSolverUi as SolverUiTrait<MRotate>>::new();
    <SlideOrRotateSolverUi as SolverUiTrait<MRotate>>::set_captcha_type(&mut ui);
    assert_eq!(ui.get_captcha_type(), SlideOrRotateCaptchaType::Rotate);
    let container = <SlideOrRotateSolverUi as SolverUiTrait<MRotate>>::create_data_container();
    assert_eq!(container, 0);
    <SlideOrRotateSolverUi as SolverUiTrait<MRotate>>::prepare(&mut ui, pictures(), container);
    assert_eq!(ui.get_outer_image().unwrap().dimensions(), (8, 4));
    assert_eq!(ui.get_inner_image().unwrap().dimensions(), (2, 2));
    assert_eq!(ui.get_result(), 0);
    let read = <SlideOrRotateSolverUi as SolverUiTrait<MRotate>>::get_data(17);
    assert_eq!(read.unwrap(), 17);
}

#[test]
fn slide_and_rotate_name_their_types() {
    assert_eq!(MSlide::get_captcha_type(), SlideOrRotateCaptchaType::Slide);
    assert_eq!(MRotate::get_captcha_type(), SlideOrRotateCaptchaType::Rotate);
    let mut ui = SlideOrRotateSolverUi::new();
    ui.set_captcha_type(SlideOrRotateCaptchaType::Rotate);
    assert_eq!(ui.get_captcha_type(), SlideOrRotateCaptchaType::Rotate);
    ui.set_result(5);
    assert_eq!(ui.get_result(), 5);
}
