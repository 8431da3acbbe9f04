//! What the two dialog windows hold and do: their properties, the list of
//! clicked points, and the handlers of their callbacks.
use vstd::prelude::*;

use crate::live_value::{round_to_u32, rounded};
use crate::picture::{Picture, PictureView};
use crate::point::Point;

verus! {

/// The list model of the `slint` crate that the clicked points are kept in.
#[verifier::external_type_specification]
#[verifier::external_body]
#[verifier::reject_recursive_types(T)]
pub struct ExVecModel<T>(slint::VecModel<T>);

/// The rows that a list of points holds, first row first.
pub uninterp spec fn point_rows(model: slint::VecModel<(i32, i32)>) -> Seq<(i32, i32)>;

/// `VecModel::from_iter` of `slint` on an empty `Vec`: a list without rows.
#[verifier::external_body]
pub(crate) fn point_model_new() -> (model: slint::VecModel<(i32, i32)>)
    ensures
        point_rows(model) == Seq::<(i32, i32)>::empty(),
{
    slint::VecModel::from_iter(Vec::new())
}

/// `Model::row_count` of `slint` on a `VecModel`: the number of rows.
#[verifier::external_body]
pub(crate) fn point_model_row_count(model: &slint::VecModel<(i32, i32)>) -> (count: usize)
    ensures
        count == point_rows(*model).len(),
{
    slint::Model::row_count(model)
}

/// `Model::row_data` of `slint` on a `VecModel`: a copy of the row at `row`, or
/// nothing where the list has no such row.
#[verifier::external_body]
pub(crate) fn point_model_row_data(model: &slint::VecModel<(i32, i32)>, row: usize) -> (data: Option<(i32, i32)>)
    ensures
        data == if row < point_rows(*model).len() {
            Some(point_rows(*model)[row as int])
        } else {
            None
        },
{
    slint::Model::row_data(model, row)
}

/// `VecModel::push` of `slint`: adds `value` as the last row. The crate changes
/// the list through a shared reference; it is taken by `&mut` here, so that the
/// change shows in the contract.
#[verifier::external_body]
pub(crate) fn point_model_push(model: &mut slint::VecModel<(i32, i32)>, value: (i32, i32))
    ensures
        point_rows(*final(model)) == point_rows(*old(model)).push(value),
{
    model.push(value)
}

/// `VecModel::remove` of `slint`: takes the row at `index` out and returns it;
/// the rows behind it move up. It panics where the list has no such row. As
/// with `push`, the list is taken by `&mut` here.
#[verifier::external_body]
pub(crate) fn point_model_remove(model: &mut slint::VecModel<(i32, i32)>, index: usize) -> (removed: (i32, i32))
    requires
        index < point_rows(*old(model)).len(),
    ensures
        point_rows(*final(model)) == point_rows(*old(model)).remove(index as int),
        removed == point_rows(*old(model))[index as int],
{
    model.remove(index)
}

/// A point as the window reports it: a click's position in signed pixels.
#[derive(Clone, Copy, Debug, PartialEq, Eq, Structural)]
pub struct SlintPoint {
    pub x: i32,
    pub y: i32,
}

/// The distance of `v` from zero.
pub open spec fn magnitude(v: int) -> nat {
    if v < 0 {
        (-v) as nat
    } else {
        v as nat
    }
}

fn unsigned_abs(v: i32) -> (r: u32)
    ensures
        r == magnitude(v as int),
{
    if v < 0 {
        (-(v as i64)) as u32
    } else {
        v as u32
    }
}

impl SlintPoint {
    /// The point that `into_point` returns.
    pub open spec fn point(self) -> Point {
        Point { x: magnitude(self.x as int) as u32, y: magnitude(self.y as int) as u32 }
    }

    /// The point with both coordinates taken without their sign.
    pub fn into_point(self) -> (point: Point)
        ensures
            point == self.point(),
            point.x == magnitude(self.x as int),
            point.y == magnitude(self.y as int),
    {
        Point { x: unsigned_abs(self.x), y: unsigned_abs(self.y) }
    }
}

/// What the person is asked to click.
#[derive(Clone, Copy, Debug, PartialEq, Eq, Structural)]
pub enum ClickCaptchaType {
    /// The icons shown beside the picture, in their order.
    IconClick,
    /// The characters named in the caption, in their order.
    TextClick,
    /// The one thing that is in the way.
    Obstacle,
}

/// What the person is asked to move.
#[derive(Clone, Copy, Debug, PartialEq, Eq, Structural)]
pub enum SlideOrRotateCaptchaType {
    /// A piece that slides into its gap.
    Slide,
    /// A picture that turns until it is upright.
    Rotate,
}

/// What the window is to do after a callback.
#[derive(Clone, Copy, Debug, PartialEq, Eq, Structural)]
pub enum WindowAction {
    /// Stay open.
    Keep,
    /// Hide, which ends the dialog.
    Hide,
}

/// Where a point-picking dialog stands.
#[derive(Clone, Copy, Debug, PartialEq, Eq, Structural)]
pub enum ClickPhase {
    /// Open, with no point recorded.
    Idle,
    /// Open, with one to three points recorded.
    Accumulating,
    /// Ended by the confirm button.
    Confirmed,
    /// Ended by the cancel button or by closing the window.
    Canceled,
}

/// Where a slide or rotate dialog stands.
#[derive(Clone, Copy, Debug, PartialEq, Eq, Structural)]
pub enum SlidePhase {
    /// Open, the slider not yet moved.
    Idle,
    /// Open, the slider moved.
    Dragging,
    /// Ended by the confirm button.
    Confirmed,
    /// Ended by the cancel button or by closing the window.
    Canceled,
}

/// The most points that a dialog records.
pub const MAX_POINTS: usize = 3;

/// What a person can do in a point-picking dialog.
#[derive(Clone, Copy, Debug, PartialEq, Eq, Structural)]
pub enum ClickEvent {
    /// A click on the picture.
    PushPoint { x: i32, y: i32 },
    /// The undo button.
    PopPoint,
    /// The confirm button.
    VerifyButtonClicked,
    /// The cancel button.
    Cancel,
    /// The window is closed by other means.
    CloseRequested,
}

/// What a point-picking dialog is: what it shows, the points recorded so far,
/// and how it stands.
pub struct ClickDialogView {
    pub captcha_type: ClickCaptchaType,
    pub click_icon: Option<PictureView>,
    pub image: Option<PictureView>,
    pub hanzi: Seq<char>,
    pub points: Seq<(i32, i32)>,
    pub canceled: bool,
    pub hidden: bool,
}

impl ClickDialogView {
    /// A dialog as it is made: nothing shown, nothing recorded, open.
    pub open spec fn fresh() -> Self {
        ClickDialogView {
            captcha_type: ClickCaptchaType::IconClick,
            click_icon: None,
            image: None,
            hanzi: Seq::empty(),
            points: Seq::empty(),
            canceled: false,
            hidden: false,
        }
    }

    /// After a click at `(x, y)`: the point is recorded behind the others,
    /// unless three are recorded already.
    pub open spec fn push_point(self, x: i32, y: i32) -> Self {
        if self.points.len() < MAX_POINTS {
            ClickDialogView { points: self.points.push((x, y)), ..self }
        } else {
            self
        }
    }

    /// After undo: the point recorded last is gone, if there was one.
    pub open spec fn pop_point(self) -> Self {
        if self.points.len() != 0 {
            ClickDialogView { points: self.points.drop_last(), ..self }
        } else {
            self
        }
    }

    /// After the confirm button: hidden.
    pub open spec fn verify_button_clicked(self) -> Self {
        ClickDialogView { hidden: true, ..self }
    }

    /// After the cancel button: canceled and hidden.
    pub open spec fn cancel(self) -> Self {
        ClickDialogView { canceled: true, hidden: true, ..self }
    }

    /// After the window was closed by other means: canceled and hidden.
    pub open spec fn close_requested(self) -> Self {
        ClickDialogView { canceled: true, hidden: true, ..self }
    }

    /// The dialog after `event`.
    pub open spec fn handle(self, event: ClickEvent) -> Self {
        match event {
            ClickEvent::PushPoint { x, y } => self.push_point(x, y),
            ClickEvent::PopPoint => self.pop_point(),
            ClickEvent::VerifyButtonClicked => self.verify_button_clicked(),
            ClickEvent::Cancel => self.cancel(),
            ClickEvent::CloseRequested => self.close_requested(),
        }
    }

    /// What the window is to do after `event`.
    pub open spec fn action(event: ClickEvent) -> WindowAction {
        match event {
            ClickEvent::PushPoint { .. } | ClickEvent::PopPoint => WindowAction::Keep,
            _ => WindowAction::Hide,
        }
    }

    /// The dialog after the events, taken in order. Once the window is
    /// hidden its event loop has ended, and what follows is never delivered.
    pub open spec fn run(self, events: Seq<ClickEvent>) -> Self
        decreases events.len(),
    {
        if events.len() == 0 || self.hidden {
            self
        } else {
            self.handle(events[0]).run(events.skip(1))
        }
    }

    /// Where the dialog stands.
    pub open spec fn phase(self) -> ClickPhase {
        if self.canceled {
            ClickPhase::Canceled
        } else if self.hidden {
            ClickPhase::Confirmed
        } else if self.points.len() == 0 {
            ClickPhase::Idle
        } else {
            ClickPhase::Accumulating
        }
    }

    /// How a dialog moves on: a click takes an open dialog to `Accumulating`;
    /// an undo takes it back to `Idle` when it takes the only point; the
    /// confirm button takes a dialog that was not canceled to `Confirmed`; the
    /// cancel button and closing the window take it to `Canceled`; and a
    /// dialog whose window is hidden takes no event at all.
    pub proof fn lemma_phases(self, event: ClickEvent, later: Seq<ClickEvent>)
        ensures
            self.phase() is Idle || self.phase() is Accumulating ==> {
                &&& event is PushPoint ==> self.handle(event).phase() is Accumulating
                &&& event is PopPoint ==> (self.handle(event).phase() is Idle <==> self.points.len() <= 1)
                &&& event is PopPoint ==> (self.handle(event).phase() is Accumulating <==> self.points.len()
                    > 1)
                &&& event is VerifyButtonClicked ==> self.handle(event).phase() is Confirmed
                &&& event is Cancel || event is CloseRequested ==> self.handle(event).phase() is Canceled
            },
            self.phase() is Confirmed ==> self.run(later) == self,
            self.phase() is Canceled && self.hidden ==> self.run(later) == self,
    {
    }

    /// None of the events hides the window: they are clicks and undos.
    pub open spec fn keep_open(events: Seq<ClickEvent>) -> bool {
        forall|i: int| 0 <= i < events.len() ==> Self::action(#[trigger] events[i]) == WindowAction::Keep
    }

    /// An open dialog takes clicks and undos one after the other, stays open
    /// and is not canceled by them. The first event after them that hides the
    /// window is handled too, and nothing after it.
    pub proof fn lemma_run_until_hidden(self, before: Seq<ClickEvent>, last: ClickEvent, after: Seq<ClickEvent>)
        requires
            !self.hidden,
            Self::keep_open(before),
            Self::action(last) == WindowAction::Hide,
        ensures
            !self.run(before).hidden,
            self.run(before).canceled == self.canceled,
            self.run(before + seq![last] + after) == self.run(before).handle(last),
        decreases before.len(),
    {
        let all = before + seq![last] + after;
        if before.len() == 0 {
            assert(all[0] == last);
            assert(self.handle(last).hidden);
            assert(self.handle(last).run(all.skip(1)) == self.handle(last));
        } else {
            let first = before[0];
            assert(all[0] == first);
            assert(Self::action(first) == WindowAction::Keep);
            assert(all.skip(1) =~= before.skip(1) + seq![last] + after);
            assert(Self::keep_open(before.skip(1))) by {
                assert forall|i: int| 0 <= i < before.skip(1).len() implies Self::action(
                    #[trigger] before.skip(1)[i],
                ) == WindowAction::Keep by {
                    assert(before.skip(1)[i] == before[i + 1]);
                }
            }
            self.handle(first).lemma_run_until_hidden(before.skip(1), last, after);
        }
    }

    /// No dialog records more than three points, however many clicks come,
    /// if it starts with three or fewer.
    pub proof fn lemma_run_keeps_cap(self, events: Seq<ClickEvent>)
        requires
            self.points.len() <= MAX_POINTS,
        ensures
            self.run(events).points.len() <= MAX_POINTS,
        decreases events.len(),
    {
        if events.len() != 0 && !self.hidden {
            self.handle(events[0]).lemma_run_keeps_cap(events.skip(1));
        }
    }
}

/// The view of a picture that may not be there.
pub open spec fn shown(picture: Option<Picture>) -> Option<PictureView> {
    match picture {
        Some(p) => Some(p@),
        None => None,
    }
}

/// A point-picking dialog: the properties of its window, the list of points
/// that its canvas draws, and the handlers of its callbacks.
pub struct ClickCaptchaSolverUi {
    captcha_type: ClickCaptchaType,
    click_icon: Option<Picture>,
    image: Option<Picture>,
    hanzi: String,
    points: slint::VecModel<(i32, i32)>,
    canceled: bool,
    hidden: bool,
}

impl View for ClickCaptchaSolverUi {
    type V = ClickDialogView;

    closed spec fn view(&self) -> ClickDialogView {
        ClickDialogView {
            captcha_type: self.captcha_type,
            click_icon: shown(self.click_icon),
            image: shown(self.image),
            hanzi: self.hanzi@,
            points: point_rows(self.points),
            canceled: self.canceled,
            hidden: self.hidden,
        }
    }
}

impl ClickCaptchaSolverUi {
    /// A dialog with nothing shown and nothing recorded.
    pub fn new() -> (ui: Self)
        ensures
            ui@ == ClickDialogView::fresh(),
    {
        ClickCaptchaSolverUi {
            captcha_type: ClickCaptchaType::IconClick,
            click_icon: None,
            image: None,
            hanzi: String::new(),
            points: point_model_new(),
            canceled: false,
            hidden: false,
        }
    }

    /// Says what the person is asked to click.
    pub fn set_captcha_type(&mut self, captcha_type: ClickCaptchaType)
        ensures
            final(self)@ == (ClickDialogView { captcha_type, ..old(self)@ }),
    {
        self.captcha_type = captcha_type;
    }

    /// Shows `icon` beside the picture.
    pub fn set_click_icon(&mut self, icon: Picture)
        ensures
            final(self)@ == (ClickDialogView { click_icon: Some(icon@), ..old(self)@ }),
    {
        self.click_icon = Some(icon);
    }

    /// Shows `image` as the picture to click on.
    pub fn set_image(&mut self, image: Picture)
        ensures
            final(self)@ == (ClickDialogView { image: Some(image@), ..old(self)@ }),
    {
        self.image = Some(image);
    }

    /// Shows `hanzi` as the caption.
    pub fn set_hanzi(&mut self, hanzi: String)
        ensures
            final(self)@ == (ClickDialogView { hanzi: hanzi@, ..old(self)@ }),
    {
        self.hanzi = hanzi;
    }

    /// Makes `points` the list that clicks are recorded in.
    pub fn set_points(&mut self, points: slint::VecModel<(i32, i32)>)
        ensures
            final(self)@ == (ClickDialogView { points: point_rows(points), ..old(self)@ }),
    {
        self.points = points;
    }

    /// What the person is asked to click.
    pub fn get_captcha_type(&self) -> (captcha_type: ClickCaptchaType)
        ensures
            captcha_type == self@.captcha_type,
    {
        self.captcha_type
    }

    /// The icon shown beside the picture, if one was set.
    pub fn get_click_icon(&self) -> (icon: Option<&Picture>)
        ensures
            icon is Some <==> self@.click_icon is Some,
            icon matches Some(p) ==> self@.click_icon == Some(p@),
    {
        self.click_icon.as_ref()
    }

    /// The picture to click on, if one was set.
    pub fn get_image(&self) -> (image: Option<&Picture>)
        ensures
            image is Some <==> self@.image is Some,
            image matches Some(p) ==> self@.image == Some(p@),
    {
        self.image.as_ref()
    }

    /// The caption.
    pub fn get_hanzi(&self) -> (hanzi: &str)
        ensures
            hanzi@ == self@.hanzi,
    {
        self.hanzi.as_str()
    }

    /// The points recorded so far, first click first.
    pub fn get_points(&self) -> (points: Vec<SlintPoint>)
        ensures
            points@.len() == self@.points.len(),
            forall|i: int|
                0 <= i < points@.len() ==> (#[trigger] points@[i]).x == self@.points[i].0 && points@[i].y
                    == self@.points[i].1,
    {
        let count = point_model_row_count(&self.points);
        let mut points: Vec<SlintPoint> = Vec::new();
        let mut row: usize = 0;
        while row < count
            invariant
                row <= count,
                count == point_rows(self.points).len(),
                points@.len() == row,
                forall|i: int|
                    0 <= i < row ==> (#[trigger] points@[i]).x == point_rows(self.points)[i].0 && points@[i].y
                        == point_rows(self.points)[i].1,
            decreases count - row,
        {
            match point_model_row_data(&self.points, row) {
                Some((x, y)) => points.push(SlintPoint { x, y }),
                None => {},
            }
            row += 1;
        }
        points
    }

    /// How many points are recorded.
    pub fn point_count(&self) -> (count: usize)
        ensures
            count == self@.points.len(),
    {
        point_model_row_count(&self.points)
    }

    /// Whether the dialog was canceled.
    pub fn is_canceled(&self) -> (canceled: bool)
        ensures
            canceled == self@.canceled,
    {
        self.canceled
    }

    /// Whether the window is hidden, which ends the dialog.
    pub fn is_hidden(&self) -> (hidden: bool)
        ensures
            hidden == self@.hidden,
    {
        self.hidden
    }

    /// Where the dialog stands.
    pub fn phase(&self) -> (phase: ClickPhase)
        ensures
            phase == self@.phase(),
    {
        if self.canceled {
            ClickPhase::Canceled
        } else if self.hidden {
            ClickPhase::Confirmed
        } else if point_model_row_count(&self.points) == 0 {
            ClickPhase::Idle
        } else {
            ClickPhase::Accumulating
        }
    }

    /// A click at `(x, y)`: recorded behind the others, unless three points
    /// are recorded already; then nothing changes.
    pub fn push_point(&mut self, x: i32, y: i32)
        ensures
            final(self)@ == old(self)@.push_point(x, y),
            old(self)@.points.len() >= MAX_POINTS ==> final(self)@ == old(self)@,
    {
        if point_model_row_count(&self.points) < MAX_POINTS {
            point_model_push(&mut self.points, (x, y));
        }
    }

    /// Undo: the point recorded last is taken back. With no point recorded
    /// nothing changes.
    pub fn pop_point(&mut self)
        ensures
            final(self)@ == old(self)@.pop_point(),
            old(self)@.points.len() == 0 ==> final(self)@ == old(self)@,
    {
        let len = point_model_row_count(&self.points);
        if len != 0 {
            let _removed = point_model_remove(&mut self.points, len - 1);
            assert(point_rows(self.points) =~= old(self)@.points.drop_last());
        }
    }

    /// The confirm button: the window hides.
    pub fn verify_button_clicked(&mut self) -> (action: WindowAction)
        ensures
            final(self)@ == old(self)@.verify_button_clicked(),
            action == WindowAction::Hide,
    {
        self.hidden = true;
        WindowAction::Hide
    }

    /// The cancel button: the dialog is canceled and the window hides.
    pub fn cancel(&mut self) -> (action: WindowAction)
        ensures
            final(self)@ == old(self)@.cancel(),
            action == WindowAction::Hide,
    {
        self.canceled = true;
        self.hidden = true;
        WindowAction::Hide
    }

    /// The window is closed by other means: the dialog is canceled and the
    /// window hides.
    pub fn close_requested(&mut self) -> (action: WindowAction)
        ensures
            final(self)@ == old(self)@.close_requested(),
            action == WindowAction::Hide,
    {
        self.canceled = true;
        self.hidden = true;
        WindowAction::Hide
    }

    /// Runs the dialog on the events, in order, until its window hides or the
    /// events end.
    pub fn run(&mut self, events: &Vec<ClickEvent>)
        ensures
            final(self)@ == old(self)@.run(events@),
    {
        assert(events@.skip(0) == events@);
        let mut next: usize = 0;
        while next < events.len() && !self.hidden
            invariant
                next <= events.len(),
                self@.run(events@.skip(next as int)) == old(self)@.run(events@),
            decreases events.len() - next,
        {
            assert(events@.skip(next as int).skip(1) == events@.skip(next as int + 1));
            self.handle(events[next]);
            next += 1;
        }
    }

    /// Hands `event` to its handler and says what the window is to do.
    pub fn handle(&mut self, event: ClickEvent) -> (action: WindowAction)
        ensures
            final(self)@ == old(self)@.handle(event),
            action == ClickDialogView::action(event),
    {
        match event {
            ClickEvent::PushPoint { x, y } => {
                self.push_point(x, y);
                WindowAction::Keep
            },
            ClickEvent::PopPoint => {
                self.pop_point();
                WindowAction::Keep
            },
            ClickEvent::VerifyButtonClicked => self.verify_button_clicked(),
            ClickEvent::Cancel => self.cancel(),
            ClickEvent::CloseRequested => self.close_requested(),
        }
    }

    /// Ends the dialog: whether it was canceled, and the list of points.
    pub fn into_result(self) -> (result: (bool, slint::VecModel<(i32, i32)>))
        ensures
            result.0 == self@.canceled,
            point_rows(result.1) == self@.points,
    {
        (self.canceled, self.points)
    }
}

/// What a person can do in a slide or rotate dialog.
#[derive(Clone, Copy, Debug, PartialEq, Eq, Structural)]
pub enum SlideEvent {
    /// The slider moved; `value_bits` are the bits of its value.
    Drag { value_bits: u32 },
    /// The confirm button, with the bits of the value that the slider has at
    /// that moment.
    Verify { value_bits: u32 },
    /// The cancel button.
    Cancel,
    /// The window is closed by other means.
    CloseRequested,
}

/// What a slide or rotate dialog is: what it shows, where the slider is, the
/// number kept for the caller, and how it stands.
pub struct SlideDialogView {
    pub captcha_type: SlideOrRotateCaptchaType,
    pub outer_image: Option<PictureView>,
    pub inner_image: Option<PictureView>,
    /// Whether the slider was moved.
    pub moved: bool,
    /// The bits of the slider's value.
    pub live: u32,
    /// The number that the caller gets.
    pub result: u32,
    pub canceled: bool,
    pub hidden: bool,
}

impl SlideDialogView {
    /// A dialog as it is made: nothing shown, the slider at zero, open.
    pub open spec fn fresh() -> Self {
        SlideDialogView {
            captcha_type: SlideOrRotateCaptchaType::Slide,
            outer_image: None,
            inner_image: None,
            moved: false,
            live: 0,
            result: 0,
            canceled: false,
            hidden: false,
        }
    }

    /// After the slider moved: its value is taken as it is.
    pub open spec fn drag(self, value_bits: u32) -> Self {
        SlideDialogView { moved: true, live: value_bits, ..self }
    }

    /// After the confirm button: the slider's value of that moment, rounded,
    /// is kept for the caller, and the window is hidden.
    pub open spec fn verify(self, value_bits: u32) -> Self {
        SlideDialogView { live: value_bits, result: rounded(value_bits), hidden: true, ..self }
    }

    /// After the cancel button: canceled and hidden.
    pub open spec fn cancel(self) -> Self {
        SlideDialogView { canceled: true, hidden: true, ..self }
    }

    /// After the window was closed by other means: canceled and hidden.
    pub open spec fn close_requested(self) -> Self {
        SlideDialogView { canceled: true, hidden: true, ..self }
    }

    /// The dialog after `event`.
    pub open spec fn handle(self, event: SlideEvent) -> Self {
        match event {
            SlideEvent::Drag { value_bits } => self.drag(value_bits),
            SlideEvent::Verify { value_bits } => self.verify(value_bits),
            SlideEvent::Cancel => self.cancel(),
            SlideEvent::CloseRequested => self.close_requested(),
        }
    }

    /// What the window is to do after `event`.
    pub open spec fn action(event: SlideEvent) -> WindowAction {
        match event {
            SlideEvent::Drag { .. } => WindowAction::Keep,
            _ => WindowAction::Hide,
        }
    }

    /// The dialog after the events, taken in order. Once the window is
    /// hidden its event loop has ended, and what follows is never delivered.
    pub open spec fn run(self, events: Seq<SlideEvent>) -> Self
        decreases events.len(),
    {
        if events.len() == 0 || self.hidden {
            self
        } else {
            self.handle(events[0]).run(events.skip(1))
        }
    }

    /// Where the dialog stands.
    pub open spec fn phase(self) -> SlidePhase {
        if self.canceled {
            SlidePhase::Canceled
        } else if self.hidden {
            SlidePhase::Confirmed
        } else if !self.moved {
            SlidePhase::Idle
        } else {
            SlidePhase::Dragging
        }
    }

    /// How a dialog moves on: a move of the slider takes an open dialog to
    /// `Dragging`; the confirm button takes a dialog that was not canceled to
    /// `Confirmed`; the cancel button and closing the window take it to
    /// `Canceled`; and a dialog whose window is hidden takes no event at all.
    pub proof fn lemma_phases(self, event: SlideEvent, later: Seq<SlideEvent>)
        ensures
            self.phase() is Idle || self.phase() is Dragging ==> {
                &&& event is Drag ==> self.handle(event).phase() is Dragging
                &&& event is Verify ==> self.handle(event).phase() is Confirmed
                &&& event is Cancel || event is CloseRequested ==> self.handle(event).phase() is Canceled
            },
            self.phase() is Confirmed ==> self.run(later) == self,
            self.phase() is Canceled && self.hidden ==> self.run(later) == self,
    {
    }

    /// None of the events hides the window: they are moves of the slider.
    pub open spec fn keep_open(events: Seq<SlideEvent>) -> bool {
        forall|i: int| 0 <= i < events.len() ==> Self::action(#[trigger] events[i]) == WindowAction::Keep
    }

    /// An open dialog takes moves of the slider one after the other, stays
    /// open and is not canceled by them, and the number kept for the caller
    /// stays as it was. The first event after them that hides the window is
    /// handled too, and nothing after it.
    pub proof fn lemma_run_until_hidden(self, before: Seq<SlideEvent>, last: SlideEvent, after: Seq<SlideEvent>)
        requires
            !self.hidden,
            Self::keep_open(before),
            Self::action(last) == WindowAction::Hide,
        ensures
            !self.run(before).hidden,
            self.run(before).canceled == self.canceled,
            self.run(before).result == self.result,
            self.run(before + seq![last] + after) == self.run(before).handle(last),
        decreases before.len(),
    {
        let all = before + seq![last] + after;
        if before.len() == 0 {
            assert(all[0] == last);
            assert(self.handle(last).hidden);
            assert(self.handle(last).run(all.skip(1)) == self.handle(last));
        } else {
            let first = before[0];
            assert(all[0] == first);
            assert(Self::action(first) == WindowAction::Keep);
            assert(all.skip(1) =~= before.skip(1) + seq![last] + after);
            assert(Self::keep_open(before.skip(1))) by {
                assert forall|i: int| 0 <= i < before.skip(1).len() implies Self::action(
                    #[trigger] before.skip(1)[i],
                ) == WindowAction::Keep by {
                    assert(before.skip(1)[i] == before[i + 1]);
                }
            }
            self.handle(first).lemma_run_until_hidden(before.skip(1), last, after);
        }
    }
}

/// A slide or rotate dialog: the properties of its window, the number kept
/// for the caller, and the handlers of its callbacks.
pub struct SlideOrRotateSolverUi {
    captcha_type: SlideOrRotateCaptchaType,
    outer_image: Option<Picture>,
    inner_image: Option<Picture>,
    moved: bool,
    live: u32,
    result: u32,
    canceled: bool,
    hidden: bool,
}

impl View for SlideOrRotateSolverUi {
    type V = SlideDialogView;

    closed spec fn view(&self) -> SlideDialogView {
        SlideDialogView {
            captcha_type: self.captcha_type,
            outer_image: shown(self.outer_image),
            inner_image: shown(self.inner_image),
            moved: self.moved,
            live: self.live,
            result: self.result,
            canceled: self.canceled,
            hidden: self.hidden,
        }
    }
}

impl SlideOrRotateSolverUi {
    /// A dialog with nothing shown and the slider at zero.
    pub fn new() -> (ui: Self)
        ensures
            ui@ == SlideDialogView::fresh(),
    {
        SlideOrRotateSolverUi {
            captcha_type: SlideOrRotateCaptchaType::Slide,
            outer_image: None,
            inner_image: None,
            moved: false,
            live: 0,
            result: 0,
            canceled: false,
            hidden: false,
        }
    }

    /// Says what the person is asked to move.
    pub fn set_captcha_type(&mut self, captcha_type: SlideOrRotateCaptchaType)
        ensures
            final(self)@ == (SlideDialogView { captcha_type, ..old(self)@ }),
    {
        self.captcha_type = captcha_type;
    }

    /// Shows `image` as the picture that stays in place.
    pub fn set_outer_image(&mut self, image: Picture)
        ensures
            final(self)@ == (SlideDialogView { outer_image: Some(image@), ..old(self)@ }),
    {
        self.outer_image = Some(image);
    }

    /// Shows `image` as the picture that moves.
    pub fn set_inner_image(&mut self, image: Picture)
        ensures
            final(self)@ == (SlideDialogView { inner_image: Some(image@), ..old(self)@ }),
    {
        self.inner_image = Some(image);
    }

    /// Makes `result` the number kept for the caller.
    pub fn set_result(&mut self, result: u32)
        ensures
            final(self)@ == (SlideDialogView { result, ..old(self)@ }),
    {
        self.result = result;
    }

    /// What the person is asked to move.
    pub fn get_captcha_type(&self) -> (captcha_type: SlideOrRotateCaptchaType)
        ensures
            captcha_type == self@.captcha_type,
    {
        self.captcha_type
    }

    /// The picture that stays in place, if one was set.
    pub fn get_outer_image(&self) -> (image: Option<&Picture>)
        ensures
            image is Some <==> self@.outer_image is Some,
            image matches Some(p) ==> self@.outer_image == Some(p@),
    {
        self.outer_image.as_ref()
    }

    /// The picture that moves, if one was set.
    pub fn get_inner_image(&self) -> (image: Option<&Picture>)
        ensures
            image is Some <==> self@.inner_image is Some,
            image matches Some(p) ==> self@.inner_image == Some(p@),
    {
        self.inner_image.as_ref()
    }

    /// The bits of the slider's value.
    pub fn live_value_bits(&self) -> (bits: u32)
        ensures
            bits == self@.live,
    {
        self.live
    }

    /// The number kept for the caller.
    pub fn get_result(&self) -> (result: u32)
        ensures
            result == self@.result,
    {
        self.result
    }

    /// Whether the dialog was canceled.
    pub fn is_canceled(&self) -> (canceled: bool)
        ensures
            canceled == self@.canceled,
    {
        self.canceled
    }

    /// Whether the window is hidden, which ends the dialog.
    pub fn is_hidden(&self) -> (hidden: bool)
        ensures
            hidden == self@.hidden,
    {
        self.hidden
    }

    /// Where the dialog stands.
    pub fn phase(&self) -> (phase: SlidePhase)
        ensures
            phase == self@.phase(),
    {
        if self.canceled {
            SlidePhase::Canceled
        } else if self.hidden {
            SlidePhase::Confirmed
        } else if !self.moved {
            SlidePhase::Idle
        } else {
            SlidePhase::Dragging
        }
    }

    /// The slider moved: its value is taken as it is, whatever it is.
    pub fn drag(&mut self, value_bits: u32)
        ensures
            final(self)@ == old(self)@.drag(value_bits),
    {
        self.moved = true;
        self.live = value_bits;
    }

    /// The confirm button: the slider's value of this moment, rounded to the
    /// nearest whole number, is kept for the caller, and the window hides.
    pub fn verify(&mut self, value_bits: u32) -> (action: WindowAction)
        ensures
            final(self)@ == old(self)@.verify(value_bits),
            action == WindowAction::Hide,
    {
        self.live = value_bits;
        self.result = round_to_u32(value_bits);
        self.hidden = true;
        WindowAction::Hide
    }

    /// The cancel button: the dialog is canceled and the window hides.
    pub fn cancel(&mut self) -> (action: WindowAction)
        ensures
            final(self)@ == old(self)@.cancel(),
            action == WindowAction::Hide,
    {
        self.canceled = true;
        self.hidden = true;
        WindowAction::Hide
    }

    /// The window is closed by other means: the dialog is canceled and the
    /// window hides.
    pub fn close_requested(&mut self) -> (action: WindowAction)
        ensures
            final(self)@ == old(self)@.close_requested(),
            action == WindowAction::Hide,
    {
        self.canceled = true;
        self.hidden = true;
        WindowAction::Hide
    }

    /// Runs the dialog on the events, in order, until its window hides or the
    /// events end.
    pub fn run(&mut self, events: &Vec<SlideEvent>)
        ensures
            final(self)@ == old(self)@.run(events@),
    {
        assert(events@.skip(0) == events@);
        let mut next: usize = 0;
        while next < events.len() && !self.hidden
            invariant
                next <= events.len(),
                self@.run(events@.skip(next as int)) == old(self)@.run(events@),
            decreases events.len() - next,
        {
            assert(events@.skip(next as int).skip(1) == events@.skip(next as int + 1));
            self.handle(events[next]);
            next += 1;
        }
    }

    /// Hands `event` to its handler and says what the window is to do.
    pub fn handle(&mut self, event: SlideEvent) -> (action: WindowAction)
        ensures
            final(self)@ == old(self)@.handle(event),
            action == SlideDialogView::action(event),
    {
        match event {
            SlideEvent::Drag { value_bits } => {
                self.drag(value_bits);
                WindowAction::Keep
            },
            SlideEvent::Verify { value_bits } => self.verify(value_bits),
            SlideEvent::Cancel => self.cancel(),
            SlideEvent::CloseRequested => self.close_requested(),
        }
    }

    /// Ends the dialog: whether it was canceled, and the number kept for the
    /// caller.
    pub fn into_result(self) -> (result: (bool, u32))
        ensures
            result.0 == self@.canceled,
            result.1 == self@.result,
    {
        (self.canceled, self.result)
    }
}

} // verus!
