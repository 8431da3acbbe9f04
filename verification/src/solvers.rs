//! The five kinds of captcha: what each takes, what each gives back, and which
//! dialog asks for it.
use vstd::prelude::*;

use crate::cut_picture;
use crate::picture::Picture;
use crate::point::Point;
use crate::slint_ui::{
    point_model_row_data, point_rows, ClickCaptchaSolverUi, ClickCaptchaType, ClickDialogView,
    SlideOrRotateCaptchaType, SlintPoint,
};
use crate::CaptchaError;
use crate::CaptchaErrorView;

pub mod click_captcha;
pub mod slide_or_rotate;

verus! {

/// Three points, in the order in which they were clicked.
pub type TriplePoint = (Point, Point, Point);

/// The text of the cancellation that a canceled dialog gives.
pub open spec fn canceled_text() -> Seq<char> {
    "操作已取消。"@
}

/// The text of the cancellation that a dialog gives when it was confirmed
/// with too few points.
pub open spec fn unfinished_text() -> Seq<char> {
    "图标选择未完成。"@
}

/// The point that stands for a row of the list of points.
pub open spec fn row_point(row: (i32, i32)) -> Point {
    (SlintPoint { x: row.0, y: row.1 }).point()
}

/// The first three points of `rows`, if there are three.
pub open spec fn first_three(rows: Seq<(i32, i32)>) -> Option<TriplePoint> {
    if rows.len() >= 3 {
        Some((row_point(rows[0]), row_point(rows[1]), row_point(rows[2])))
    } else {
        None
    }
}

/// The first point of `rows`, if there is one.
pub open spec fn first_one(rows: Seq<(i32, i32)>) -> Option<Point> {
    if rows.len() >= 1 {
        Some(row_point(rows[0]))
    } else {
        None
    }
}

/// A kind of captcha: what its dialog is given and what it gives back.
pub trait Marker: Sized {
    type Input;

    type Output;
}

/// A kind of captcha that is solved by clicking points on a picture.
pub trait ClickCaptchaVerificationInfoTrait: Marker {
    /// What the person is asked to click.
    spec fn captcha_type() -> ClickCaptchaType;

    /// The window after `data` was put into it.
    spec fn with_data(window: ClickDialogView, data: Self::Input) -> ClickDialogView;

    /// How many points the answer needs.
    spec fn required_points() -> nat;

    /// The answer that the recorded points give, if they are enough.
    spec fn output(rows: Seq<(i32, i32)>) -> Option<Self::Output>;

    /// There is an answer exactly when enough points are recorded.
    proof fn lemma_output_needs_points(rows: Seq<(i32, i32)>)
        ensures
            Self::output(rows) is Some <==> rows.len() >= Self::required_points(),
    ;

    /// Putting the data into the window changes what it shows and nothing
    /// else: not its type, not the recorded points, not how it stands.
    proof fn lemma_with_data_shows_only(window: ClickDialogView, data: Self::Input)
        ensures
            Self::with_data(window, data).captcha_type == window.captcha_type,
            Self::with_data(window, data).points == window.points,
            Self::with_data(window, data).canceled == window.canceled,
            Self::with_data(window, data).hidden == window.hidden,
    ;

    fn get_captcha_type() -> (captcha_type: ClickCaptchaType)
        ensures
            captcha_type == Self::captcha_type(),
    ;

    /// Puts what the dialog is given into its window.
    fn set_data(click_captcha_window: &mut ClickCaptchaSolverUi, data: Self::Input)
        ensures
            final(click_captcha_window)@ == Self::with_data(old(click_captcha_window)@, data),
    ;

    /// Reads the answer off the list of points.
    fn points_to_output(points: &slint::VecModel<(i32, i32)>) -> (output: Option<Self::Output>)
        ensures
            output == Self::output(point_rows(*points)),
    ;
}

/// A kind of captcha that is solved by moving a slider.
pub trait SlideOrRotateVerificationInfoTrait: Marker {
    /// What the person is asked to move.
    spec fn captcha_type() -> SlideOrRotateCaptchaType;

    fn get_captcha_type() -> (captcha_type: SlideOrRotateCaptchaType)
        ensures
            captcha_type == Self::captcha_type(),
    ;
}

/// A dialog that can ask for captchas of kind `T`.
pub trait SolverUiTrait<T: Marker>: Sized {
    /// Where the dialog keeps the answer while it is open.
    type DataContainer;

    /// What a person can do in the dialog.
    type Event;

    /// What the dialog gives back for `data` when the person does `events`.
    spec fn outcome(data: T::Input, events: Seq<Self::Event>) -> Result<T::Output, CaptchaErrorView>;

    /// The container holds what a dialog starts with.
    spec fn is_unused(data_container: Self::DataContainer) -> bool;

    /// What the container gives back when the dialog was not canceled.
    spec fn answer(data_container: Self::DataContainer) -> Result<T::Output, CaptchaErrorView>;

    /// What the dialog gives back as it stands.
    spec fn result(self) -> Result<T::Output, CaptchaErrorView>;

    /// The dialog is as `new` makes it.
    spec fn is_fresh(self) -> bool;

    /// The dialog is `before` with the type of captcha set.
    spec fn is_typed(self, before: Self) -> bool;

    /// The dialog is `before` with `data` shown and `data_container` in place.
    spec fn is_prepared(self, before: Self, data: T::Input, data_container: Self::DataContainer) -> bool;

    /// Makes a dialog with nothing shown and nothing entered.
    fn new() -> (ui: Self)
        ensures
            ui.is_fresh(),
    ;

    /// Runs one dialog: opens it on `data`, hands it the events in order until
    /// its window hides, and reads the result.
    fn ui_solver(data: T::Input, events: &Vec<Self::Event>) -> (result: Result<T::Output, CaptchaError>)
        ensures
            crate::outcome_view(result) == Self::outcome(data, events@),
    ;

    /// Tells the window which captcha of kind `T` it asks for.
    fn set_captcha_type(&mut self)
        ensures
            final(self).is_typed(*old(self)),
    ;

    /// Makes the container that a dialog starts with.
    fn create_data_container() -> (data_container: Self::DataContainer)
        ensures
            Self::is_unused(data_container),
    ;

    /// Puts `data` into the window and makes `data_container` the place where
    /// the dialog keeps the answer.
    fn prepare(&mut self, data: T::Input, data_container: Self::DataContainer)
        ensures
            final(self).is_prepared(*old(self), data, data_container),
    ;

    /// Reads the answer off the container.
    fn get_data(data_container: Self::DataContainer) -> (result: Result<T::Output, CaptchaError>)
        ensures
            crate::outcome_view(result) == Self::answer(data_container),
    ;

    /// Reads the result off a dialog whose event loop has ended.
    fn finish(self) -> (result: Result<T::Output, CaptchaError>)
        ensures
            crate::outcome_view(result) == self.result(),
    ;
}

/// Slide the piece into its gap.
pub struct MSlide;

impl Marker for MSlide {
    type Input = (Picture, Picture);

    type Output = u32;
}

/// Turn the picture until it is upright.
pub struct MRotate;

impl Marker for MRotate {
    type Input = (Picture, Picture);

    type Output = u32;
}

/// Click the three icons in their order.
pub struct MIconClick;

impl Marker for MIconClick {
    type Input = Picture;

    type Output = (Point, Point, Point);
}

/// Click the three characters of the caption in their order.
pub struct MTextClick;

impl Marker for MTextClick {
    type Input = (String, Picture);

    type Output = (Point, Point, Point);
}

/// Click the one thing that is in the way.
pub struct MObstacle;

impl Marker for MObstacle {
    type Input = Picture;

    type Output = Point;
}

/// The row at `row` as a point, if the list has such a row.
fn point_at(points: &slint::VecModel<(i32, i32)>, row: usize) -> (point: Option<Point>)
    ensures
        point == if row < point_rows(*points).len() {
            Some(row_point(point_rows(*points)[row as int]))
        } else {
            None::<Point>
        },
{
    match point_model_row_data(points, row) {
        Some((x, y)) => Some((SlintPoint { x, y }).into_point()),
        None => None,
    }
}

impl ClickCaptchaVerificationInfoTrait for MIconClick {
    open spec fn captcha_type() -> ClickCaptchaType {
        ClickCaptchaType::IconClick
    }

    /// The strip of icons lies under the picture: 84 by 20 pixels from row
    /// 160 on. The picture to click on is the 320 by 160 pixels above it.
    open spec fn with_data(window: ClickDialogView, data: Picture) -> ClickDialogView {
        ClickDialogView {
            click_icon: Some(data@.crop(0, 160, 84, 20)),
            image: Some(data@.crop(0, 0, 320, 160)),
            ..window
        }
    }

    open spec fn required_points() -> nat {
        3
    }

    open spec fn output(rows: Seq<(i32, i32)>) -> Option<TriplePoint> {
        first_three(rows)
    }

    proof fn lemma_output_needs_points(rows: Seq<(i32, i32)>) {
    }

    proof fn lemma_with_data_shows_only(window: ClickDialogView, data: Self::Input) {
    }

    fn get_captcha_type() -> (captcha_type: ClickCaptchaType) {
        ClickCaptchaType::IconClick
    }

    fn set_data(click_captcha_window: &mut ClickCaptchaSolverUi, data: Picture) {
        let icon = cut_picture(&data, Point { x: 0, y: 160 }, Point { x: 84, y: 20 });
        let image = cut_picture(&data, Point { x: 0, y: 0 }, Point { x: 320, y: 160 });
        click_captcha_window.set_click_icon(icon);
        click_captcha_window.set_image(image);
    }

    fn points_to_output(points: &slint::VecModel<(i32, i32)>) -> (output: Option<TriplePoint>) {
        match point_at(points, 0) {
            Some(p0) => match point_at(points, 1) {
                Some(p1) => match point_at(points, 2) {
                    Some(p2) => Some((p0, p1, p2)),
                    None => None,
                },
                None => None,
            },
            None => None,
        }
    }
}

impl ClickCaptchaVerificationInfoTrait for MTextClick {
    open spec fn captcha_type() -> ClickCaptchaType {
        ClickCaptchaType::TextClick
    }

    /// The picture is shown whole, with the characters to click as caption.
    open spec fn with_data(window: ClickDialogView, data: (String, Picture)) -> ClickDialogView {
        ClickDialogView { image: Some(data.1@), hanzi: data.0@, ..window }
    }

    open spec fn required_points() -> nat {
        3
    }

    open spec fn output(rows: Seq<(i32, i32)>) -> Option<TriplePoint> {
        first_three(rows)
    }

    proof fn lemma_output_needs_points(rows: Seq<(i32, i32)>) {
    }

    proof fn lemma_with_data_shows_only(window: ClickDialogView, data: Self::Input) {
    }

    fn get_captcha_type() -> (captcha_type: ClickCaptchaType) {
        ClickCaptchaType::TextClick
    }

    fn set_data(click_captcha_window: &mut ClickCaptchaSolverUi, data: (String, Picture)) {
        let (hanzi, image) = data;
        click_captcha_window.set_image(image);
        click_captcha_window.set_hanzi(hanzi);
    }

    fn points_to_output(points: &slint::VecModel<(i32, i32)>) -> (output: Option<TriplePoint>) {
        MIconClick::points_to_output(points)
    }
}

impl ClickCaptchaVerificationInfoTrait for MObstacle {
    open spec fn captcha_type() -> ClickCaptchaType {
        ClickCaptchaType::Obstacle
    }

    /// The icon lies under the picture: 20 by 20 pixels from row 160 on. The
    /// picture to click on is the 320 by 160 pixels above it.
    open spec fn with_data(window: ClickDialogView, data: Picture) -> ClickDialogView {
        ClickDialogView {
            click_icon: Some(data@.crop(0, 160, 20, 20)),
            image: Some(data@.crop(0, 0, 320, 160)),
            ..window
        }
    }

    open spec fn required_points() -> nat {
        1
    }

    open spec fn output(rows: Seq<(i32, i32)>) -> Option<Point> {
        first_one(rows)
    }

    proof fn lemma_output_needs_points(rows: Seq<(i32, i32)>) {
    }

    proof fn lemma_with_data_shows_only(window: ClickDialogView, data: Self::Input) {
    }

    fn get_captcha_type() -> (captcha_type: ClickCaptchaType) {
        ClickCaptchaType::Obstacle
    }

    fn set_data(click_captcha_window: &mut ClickCaptchaSolverUi, data: Picture) {
        let icon = cut_picture(&data, Point { x: 0, y: 160 }, Point { x: 20, y: 20 });
        let image = cut_picture(&data, Point { x: 0, y: 0 }, Point { x: 320, y: 160 });
        click_captcha_window.set_click_icon(icon);
        click_captcha_window.set_image(image);
    }

    fn points_to_output(points: &slint::VecModel<(i32, i32)>) -> (output: Option<Point>) {
        point_at(points, 0)
    }
}

impl SlideOrRotateVerificationInfoTrait for MSlide {
    open spec fn captcha_type() -> SlideOrRotateCaptchaType {
        SlideOrRotateCaptchaType::Slide
    }

    fn get_captcha_type() -> (captcha_type: SlideOrRotateCaptchaType) {
        SlideOrRotateCaptchaType::Slide
    }
}

impl SlideOrRotateVerificationInfoTrait for MRotate {
    open spec fn captcha_type() -> SlideOrRotateCaptchaType {
        SlideOrRotateCaptchaType::Rotate
    }

    fn get_captcha_type() -> (captcha_type: SlideOrRotateCaptchaType) {
        SlideOrRotateCaptchaType::Rotate
    }
}

} // verus!
