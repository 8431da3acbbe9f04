use captcha_solver_ui::picture::Picture;
use captcha_solver_ui::point::Point;
use captcha_solver_ui::slint_ui::{
    ClickCaptchaSolverUi, ClickCaptchaType, ClickEvent, ClickPhase, SlintPoint, WindowAction,
};
use captcha_solver_ui::solvers::{
    ClickCaptchaVerificationInfoTrait, MIconClick, MObstacle, MTextClick, SolverUiTrait,
};
use captcha_solver_ui::CaptchaError;

fn numbered(width: u32, height: u32) -> Picture {
    let mut data = Vec::new();
    for y in 0..height {
        for x in 0..width {
            data.push((x % 251) as u8);
            data.push((y % 241) as u8);
            data.push(((x * 7 + y * 13) % 256) as u8);
            data.push(255);
        }
    }
    Picture::from_raw(width, height, data).unwrap()
}

fn pixel_of(x: u32, y: u32) -> [u8; 4] {
    [(x % 251) as u8, (y % 241) as u8, ((x * 7 + y * 13) % 256) as u8, 255]
}

fn click(x: i32, y: i32) -> ClickEvent {
    ClickEvent::PushPoint { x, y }
}

fn canceled_text<T: std::fmt::Debug>(result: Result<T, CaptchaError>) -> String {
    match result {
        Err(CaptchaError::Canceled(text)) => text,
        other => panic!("expected a cancellation, got {other:?}"),
    }
}

#[test]
fn a_new_dialog_is_idle_and_empty() {
    let ui = ClickCaptchaSolverUi::new();
    assert_eq!(ui.point_count(), 0);
    assert!(ui.get_points().is_empty());
    assert!(!ui.is_canceled());
    assert!(!ui.is_hidden());
    assert_eq!(ui.phase(), ClickPhase::Idle);
    assert!(ui.get_image().is_none());
    assert!(ui.get_click_icon().is_none());
    assert_eq!(ui.get_hanzi(), "");
}

#[test]
fn clicks_are_recorded_in_order() {
    let mut ui = ClickCaptchaSolverUi::new();
    ui.push_point(10, 20);
    ui.push_point(30, 40);
    assert_eq!(ui.point_count(), 2);
    assert_eq!(ui.get_points(), vec![SlintPoint { x: 10, y: 20 }, SlintPoint { x: 30, y: 40 }]);
    assert_eq!(ui.phase(), ClickPhase::Accumulating);
}

#[test]
fn a_fourth_point_changes_nothing() {
    let mut ui = ClickCaptchaSolverUi::new();
    ui.push_point(1, 2);
    ui.push_point(3, 4);
    ui.push_point(5, 6);
    let before = ui.get_points();
    ui.push_point(7, 8);
    assert_eq!(ui.get_points(), before);
    assert_eq!(ui.point_count(), 3);
    ui.push_point(9, 10);
    assert_eq!(ui.get_points(), before);
    assert_eq!(
        before,
        vec![SlintPoint { x: 1, y: 2 }, SlintPoint { x: 3, y: 4 }, SlintPoint { x: 5, y: 6 }]
    );
}

#[test]
fn undo_with_no_point_leaves_the_set_empty() {
    let mut ui = ClickCaptchaSolverUi::new();
    ui.pop_point();
    assert_eq!(ui.point_count(), 0);
    assert!(ui.get_points().is_empty());
    ui.pop_point();
    assert!(ui.get_points().is_empty());
    assert_eq!(ui.phase(), ClickPhase::Idle);
}

#[test]
fn undo_takes_back_the_last_point() {
    let mut ui = ClickCaptchaSolverUi::new();
    ui.push_point(1, 2);
    ui.push_point(3, 4);
    ui.push_point(5, 6);
    ui.pop_point();
    assert_eq!(ui.get_points(), vec![SlintPoint { x: 1, y: 2 }, SlintPoint { x: 3, y: 4 }]);
    ui.push_point(7, 8);
    assert_eq!(
        ui.get_points(),
        vec![SlintPoint { x: 1, y: 2 }, SlintPoint { x: 3, y: 4 }, SlintPoint { x: 7, y: 8 }]
    );
    ui.pop_point();
    ui.pop_point();
    ui.pop_point();
    assert!(ui.get_points().is_empty());
    assert_eq!(ui.phase(), ClickPhase::Idle);
}

#[test]
fn the_buttons_hide_the_window() {
    let mut ui = ClickCaptchaSolverUi::new();
    assert_eq!(ui.handle(click(1, 1)), WindowAction::Keep);
    assert_eq!(ui.handle(ClickEvent::PopPoint), WindowAction::Keep);
    assert!(!ui.is_hidden());
    assert_eq!(ui.handle(ClickEvent::VerifyButtonClicked), WindowAction::Hide);
    assert!(ui.is_hidden());
    assert!(!ui.is_canceled());
    assert_eq!(ui.phase(), ClickPhase::Confirmed);

    let mut ui = ClickCaptchaSolverUi::new();
    assert_eq!(ui.cancel(), WindowAction::Hide);
    assert!(ui.is_hidden());
    assert!(ui.is_canceled());
    assert_eq!(ui.phase(), ClickPhase::Canceled);

    let mut ui = ClickCaptchaSolverUi::new();
    assert_eq!(ui.close_requested(), WindowAction::Hide);
    assert!(ui.is_hidden());
    assert!(ui.is_canceled());
    assert_eq!(ui.phase(), ClickPhase::Canceled);

    let mut ui = ClickCaptchaSolverUi::new();
    assert_eq!(ui.verify_button_clicked(), WindowAction::Hide);
    assert!(ui.is_hidden());
    assert!(!ui.is_canceled());
}

#[test]
fn into_result_hands_out_flag_and_points() {
    let mut ui = ClickCaptchaSolverUi::new();
    ui.push_point(4, 5);
    ui.cancel();
    let (canceled, points) = ui.into_result();
    assert!(canceled);
    assert_eq!(slint::Model::row_count(&points), 1);
    assert_eq!(slint::Model::row_data(&points, 0), Some((4, 5)));
}

#[test]
fn a_point_loses_its_signs() {
    assert_eq!(SlintPoint { x: 3, y: 4 }.into_point(), Point { x: 3, y: 4 });
    assert_eq!(SlintPoint { x: -3, y: -4 }.into_point(), Point { x: 3, y: 4 });
    assert_eq!(SlintPoint { x: 0, y: i32::MAX }.into_point(), Point { x: 0, y: 2147483647 });
    assert_eq!(SlintPoint { x: i32::MIN, y: -1 }.into_point(), Point { x: 2147483648, y: 1 });
}

#[test]
fn each_kind_names_its_type() {
    assert_eq!(MIconClick::get_captcha_type(), ClickCaptchaType::IconClick);
    assert_eq!(MTextClick::get_captcha_type(), ClickCaptchaType::TextClick);
    assert_eq!(MObstacle::get_captcha_type(), ClickCaptchaType::Obstacle);
}

#[test]
fn icon_click_shows_picture_and_icon_strip() {
    let mut ui = ClickCaptchaSolverUi::new();
    MIconClick::set_data(&mut ui, numbered(320, 180));
    let image = ui.get_image().unwrap();
    assert_eq!(image.dimensions(), (320, 160));
    assert_eq!(image.get_pixel(0, 0), Some(pixel_of(0, 0)));
    assert_eq!(image.get_pixel(319, 159), Some(pixel_of(319, 159)));
    let icon = ui.get_click_icon().unwrap();
    assert_eq!(icon.dimensions(), (84, 20));
    assert_eq!(icon.get_pixel(0, 0), Some(pixel_of(0, 160)));
    assert_eq!(icon.get_pixel(83, 19), Some(pixel_of(83, 179)));
    assert_eq!(ui.point_count(), 0);
}

#[test]
fn obstacle_shows_picture_and_one_icon() {
    let mut ui = ClickCaptchaSolverUi::new();
    MObstacle::set_data(&mut ui, numbered(320, 180));
    let image = ui.get_image().unwrap();
    assert_eq!(image.dimensions(), (320, 160));
    let icon = ui.get_click_icon().unwrap();
    assert_eq!(icon.dimensions(), (20, 20));
    assert_eq!(icon.get_pixel(0, 0), Some(pixel_of(0, 160)));
    assert_eq!(icon.get_pixel(19, 19), Some(pixel_of(19, 179)));
}

#[test]
fn text_click_shows_picture_and_caption() {
    let mut ui = ClickCaptchaSolverUi::new();
    let source = numbered(30, 20);
    let bytes = source.as_raw().clone();
    MTextClick::set_data(&mut ui, ("天地人".to_owned(), source));
    assert_eq!(ui.get_hanzi(), "天地人");
    let image = ui.get_image().unwrap();
    assert_eq!(image.dimensions(), (30, 20));
    assert_eq!(image.as_raw(), &bytes);
    assert!(ui.get_click_icon().is_none());
}

#[test]
fn a_small_picture_is_cut_as_far_as_it_goes() {
    let mut ui = ClickCaptchaSolverUi::new();
    MIconClick::set_data(&mut ui, numbered(100, 170));
    assert_eq!(ui.get_image().unwrap().dimensions(), (100, 160));
    assert_eq!(ui.get_click_icon().unwrap().dimensions(), (84, 10));
}

#[test]
fn prepare_sets_type_data_and_container() {
    let mut ui = <ClickCaptchaSolverUi as SolverUiTrait<MObstacle>>::new();
    <ClickCaptchaSolverUi as SolverUiTrait<MObstacle>>::set_captcha_type(&mut ui);
    assert_eq!(ui.get_captcha_type(), ClickCaptchaType::Obstacle);
    ui.push_point(1, 1);
    let container = <ClickCaptchaSolverUi as SolverUiTrait<MObstacle>>::create_data_container();
    assert_eq!(slint::Model::row_count(&container), 0);
    <ClickCaptchaSolverUi as SolverUiTrait<MObstacle>>::prepare(&mut ui, numbered(320, 180), container);
    assert_eq!(ui.point_count(), 0);
    assert_eq!(ui.get_image().unwrap().dimensions(), (320, 160));
}

#[test]
fn three_points_answer_an_icon_click() {
    let events = vec![click(10, 20), click(30, 40), click(50, 60), ClickEvent::VerifyButtonClicked];
    let result = MIconClick::ui_solver(numbered(320, 180), &events);
    assert_eq!(
        result.unwrap(),
        (Point { x: 10, y: 20 }, Point { x: 30, y: 40 }, Point { x: 50, y: 60 })
    );
}

#[test]
fn three_points_answer_a_text_click() {
    let events = vec![click(1, 2), click(3, 4), click(5, 6), ClickEvent::VerifyButtonClicked];
    let result = MTextClick::ui_solver(("字".to_owned(), numbered(320, 160)), &events);
    assert_eq!(result.unwrap(), (Point { x: 1, y: 2 }, Point { x: 3, y: 4 }, Point { x: 5, y: 6 }));
}

#[test]
fn one_point_answers_an_obstacle() {
    let events = vec![click(-7, 9), ClickEvent::VerifyButtonClicked];
    let result = MObstacle::ui_solver(numbered(320, 180), &events);
    assert_eq!(result.unwrap(), Point { x: 7, y: 9 });
}

#[test]
fn an_obstacle_takes_the_first_of_several_points() {
    let events = vec![click(1, 1), click(2, 2), click(3, 3), ClickEvent::VerifyButtonClicked];
    let result = MObstacle::ui_solver(numbered(320, 180), &events);
    assert_eq!(result.unwrap(), Point { x: 1, y: 1 });
}

#[test]
fn confirming_with_too_few_points_is_a_cancellation() {
    for count in 0..3 {
        let mut events: Vec<ClickEvent> = (0..count).map(|i| click(i, i)).collect();
        events.push(ClickEvent::VerifyButtonClicked);
        let icon = MIconClick::ui_solver(numbered(320, 180), &events);
        assert_eq!(canceled_text(icon), "图标选择未完成。");
        let text = MTextClick::ui_solver(("字".to_owned(), numbered(320, 160)), &events);
        assert_eq!(canceled_text(text), "图标选择未完成。");
    }
    let obstacle = MObstacle::ui_solver(numbered(320, 180), &vec![ClickEvent::VerifyButtonClicked]);
    assert_eq!(canceled_text(obstacle), "图标选择未完成。");
}

#[test]
fn confirming_after_undo_counts_what_is_left() {
    let events = vec![
        click(1, 1),
        click(2, 2),
        click(3, 3),
        ClickEvent::PopPoint,
        ClickEvent::VerifyButtonClicked,
    ];
    assert_eq!(canceled_text(MIconClick::ui_solver(numbered(320, 180), &events)), "图标选择未完成。");
    let events = vec![
        click(1, 1),
        click(2, 2),
        click(3, 3),
        ClickEvent::PopPoint,
        click(4, 4),
        click(5, 5),
        ClickEvent::VerifyButtonClicked,
    ];
    assert_eq!(
        MIconClick::ui_solver(numbered(320, 180), &events).unwrap(),
        (Point { x: 1, y: 1 }, Point { x: 2, y: 2 }, Point { x: 4, y: 4 })
    );
}

#[test]
fn closing_the_window_is_a_cancellation() {
    let events = vec![click(1, 1), click(2, 2), click(3, 3), ClickEvent::CloseRequested];
    assert_eq!(canceled_text(MIconClick::ui_solver(numbered(320, 180), &events)), "操作已取消。");
    let events = vec![ClickEvent::CloseRequested];
    assert_eq!(canceled_text(MObstacle::ui_solver(numbered(320, 180), &events)), "操作已取消。");
    let events = vec![click(1, 1), ClickEvent::CloseRequested, ClickEvent::VerifyButtonClicked];
    assert_eq!(canceled_text(MObstacle::ui_solver(numbered(320, 180), &events)), "操作已取消。");
}

#[test]
fn the_cancel_button_is_a_cancellation() {
    let events = vec![click(1, 1), click(2, 2), click(3, 3), ClickEvent::Cancel];
    let result = MIconClick::ui_solver(numbered(320, 180), &events);
    assert!(result.as_ref().unwrap_err().is_canceled());
    assert_eq!(canceled_text(result), "操作已取消。");
}

#[test]
fn nothing_is_delivered_after_the_window_hides() {
    let events = vec![
        click(1, 1),
        ClickEvent::VerifyButtonClicked,
        ClickEvent::Cancel,
        click(2, 2),
    ];
    assert_eq!(MObstacle::ui_solver(numbered(320, 180), &events).unwrap(), Point { x: 1, y: 1 });
}

#[test]
fn a_dialog_that_just_ends_reads_its_points() {
    let events = vec![click(8, 9)];
    assert_eq!(MObstacle::ui_solver(numbered(320, 180), &events).unwrap(), Point { x: 8, y: 9 });
    assert_eq!(canceled_text(MIconClick::ui_solver(numbered(320, 180), &Vec::new())), "图标选择未完成。");
}

#[test]
fn get_data_reads_the_container() {
    let mut ui = ClickCaptchaSolverUi::new();
    ui.push_point(-1, -2);
    ui.push_point(3, 4);
    let (_, points) = ui.into_result();
    assert_eq!(MObstacle::points_to_output(&points), Some(Point { x: 1, y: 2 }));
    assert_eq!(MIconClick::points_to_output(&points), None);
    assert_eq!(MTextClick::points_to_output(&points), None);
    let result = <ClickCaptchaSolverUi as SolverUiTrait<MIconClick>>::get_data(points);
    assert_eq!(canceled_text(result), "图标选择未完成。");

    let mut ui = ClickCaptchaSolverUi::new();
    ui.push_point(-1, -2);
    ui.push_point(3, 4);
    ui.push_point(5, 6);
    let (_, points) = ui.into_result();
    assert_eq!(
        MTextClick::points_to_output(&points),
        Some((Point { x: 1, y: 2 }, Point { x: 3, y: 4 }, Point { x: 5, y: 6 }))
    );
    let result = <ClickCaptchaSolverUi as SolverUiTrait<MIconClick>>::get_data(points);
    assert_eq!(result.unwrap(), (Point { x: 1, y: 2 }, Point { x: 3, y: 4 }, Point { x: 5, y: 6 }));
}

#[test]
fn errors_read_as_sentences() {
    assert_eq!(CaptchaError::VerifyFailed.message(), "验证失败。");
    assert_eq!(
        CaptchaError::Canceled("操作已取消。".to_owned()).message(),
        "操作被主动取消：`操作已取消。`."
    );
    assert_eq!(CaptchaError::Canceled(String::new()).message(), "操作被主动取消：``.");
    assert!(!CaptchaError::VerifyFailed.is_canceled());
    assert!(CaptchaError::Canceled(String::new()).is_canceled());
}
