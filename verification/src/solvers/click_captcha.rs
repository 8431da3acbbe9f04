//! The point-picking dialog as a solver.
use vstd::prelude::*;

use super::{
    canceled_text, unfinished_text, ClickCaptchaVerificationInfoTrait, MIconClick, MObstacle, MTextClick,
    SolverUiTrait, TriplePoint,
};
use crate::picture::Picture;
use crate::point::Point;
use crate::slint_ui::{point_model_new, point_rows, ClickCaptchaSolverUi, ClickDialogView, ClickEvent};
use crate::CaptchaError;
use crate::CaptchaErrorView;

verus! {

/// The dialog as it is opened on `data`: of the kind's type, with what
/// `data` shows, and with no point recorded.
pub open spec fn click_dialog_opened<T: ClickCaptchaVerificationInfoTrait>(data: T::Input) -> ClickDialogView {
    ClickDialogView {
        points: Seq::empty(),
        ..T::with_data(ClickDialogView { captcha_type: T::captcha_type(), ..ClickDialogView::fresh() }, data)
    }
}

/// What the recorded points give: the answer, or a cancellation where they
/// are too few.
pub open spec fn click_answer<T: ClickCaptchaVerificationInfoTrait>(rows: Seq<(i32, i32)>) -> Result<
    T::Output,
    CaptchaErrorView,
> {
    match T::output(rows) {
        Some(output) => Ok(output),
        None => Err(CaptchaErrorView::Canceled(unfinished_text())),
    }
}

/// What a dialog gives back once its window is hidden: a cancellation if it
/// was canceled, else what the recorded points give.
pub open spec fn click_dialog_result<T: ClickCaptchaVerificationInfoTrait>(end: ClickDialogView) -> Result<
    T::Output,
    CaptchaErrorView,
> {
    if end.canceled {
        Err(CaptchaErrorView::Canceled(canceled_text()))
    } else {
        click_answer::<T>(end.points)
    }
}

/// Confirming with fewer points than the kind of captcha needs gives a
/// cancellation, whatever else the dialog holds.
pub proof fn lemma_too_few_points_cancel<T: ClickCaptchaVerificationInfoTrait>(dialog: ClickDialogView)
    requires
        dialog.points.len() < T::required_points(),
    ensures
        click_dialog_result::<T>(dialog.verify_button_clicked()) is Err,
        click_dialog_result::<T>(dialog.verify_button_clicked())->Err_0 is Canceled,
        !dialog.canceled ==> click_dialog_result::<T>(dialog.verify_button_clicked()) == Err::<
            T::Output,
            CaptchaErrorView,
        >(CaptchaErrorView::Canceled(unfinished_text())),
{
    T::lemma_output_needs_points(dialog.points);
}

/// With enough points recorded, confirming a dialog that was not canceled
/// gives the answer that the points stand for.
pub proof fn lemma_enough_points_answer<T: ClickCaptchaVerificationInfoTrait>(dialog: ClickDialogView)
    requires
        dialog.points.len() >= T::required_points(),
        !dialog.canceled,
    ensures
        T::output(dialog.points) is Some,
        click_dialog_result::<T>(dialog.verify_button_clicked()) == Ok::<T::Output, CaptchaErrorView>(
            T::output(dialog.points)->Some_0,
        ),
{
    T::lemma_output_needs_points(dialog.points);
}

/// A dialog is opened with its window shown, not canceled, and with no point
/// recorded.
pub proof fn lemma_opened_is_open<T: ClickCaptchaVerificationInfoTrait>(data: T::Input)
    ensures
        !click_dialog_opened::<T>(data).hidden,
        !click_dialog_opened::<T>(data).canceled,
        click_dialog_opened::<T>(data).points.len() == 0,
        click_dialog_opened::<T>(data).captcha_type == T::captcha_type(),
{
    T::lemma_with_data_shows_only(
        ClickDialogView { captcha_type: T::captcha_type(), ..ClickDialogView::fresh() },
        data,
    );
}

/// A dialog whose window is closed, after any clicks and undos and without
/// the confirm or the cancel button, gives a cancellation.
pub proof fn lemma_closed_window_cancels<T: ClickCaptchaVerificationInfoTrait>(
    data: T::Input,
    before: Seq<ClickEvent>,
    after: Seq<ClickEvent>,
)
    requires
        ClickDialogView::keep_open(before),
    ensures
        <ClickCaptchaSolverUi as SolverUiTrait<T>>::outcome(
            data,
            before + seq![ClickEvent::CloseRequested] + after,
        ) == Err::<T::Output, CaptchaErrorView>(CaptchaErrorView::Canceled(canceled_text())),
{
    lemma_opened_is_open::<T>(data);
    click_dialog_opened::<T>(data).lemma_run_until_hidden(before, ClickEvent::CloseRequested, after);
}

/// The cancel button, after any clicks and undos, gives a cancellation.
pub proof fn lemma_cancel_button_cancels<T: ClickCaptchaVerificationInfoTrait>(
    data: T::Input,
    before: Seq<ClickEvent>,
    after: Seq<ClickEvent>,
)
    requires
        ClickDialogView::keep_open(before),
    ensures
        <ClickCaptchaSolverUi as SolverUiTrait<T>>::outcome(data, before + seq![ClickEvent::Cancel] + after)
            == Err::<T::Output, CaptchaErrorView>(CaptchaErrorView::Canceled(canceled_text())),
{
    lemma_opened_is_open::<T>(data);
    click_dialog_opened::<T>(data).lemma_run_until_hidden(before, ClickEvent::Cancel, after);
}

/// The confirm button, after any clicks and undos, gives the answer exactly
/// when enough points are recorded at that moment, and else a cancellation.
pub proof fn lemma_confirm_needs_points<T: ClickCaptchaVerificationInfoTrait>(
    data: T::Input,
    before: Seq<ClickEvent>,
    after: Seq<ClickEvent>,
)
    requires
        ClickDialogView::keep_open(before),
    ensures
        ({
            let recorded = click_dialog_opened::<T>(data).run(before).points;
            let outcome = <ClickCaptchaSolverUi as SolverUiTrait<T>>::outcome(
                data,
                before + seq![ClickEvent::VerifyButtonClicked] + after,
            );
            &&& recorded.len() <= 3
            &&& outcome == click_answer::<T>(recorded)
            &&& outcome is Ok <==> recorded.len() >= T::required_points()
            &&& outcome is Err ==> outcome == Err::<T::Output, CaptchaErrorView>(
                CaptchaErrorView::Canceled(unfinished_text()),
            )
        }),
{
    lemma_opened_is_open::<T>(data);
    let opened = click_dialog_opened::<T>(data);
    opened.lemma_run_until_hidden(before, ClickEvent::VerifyButtonClicked, after);
    opened.lemma_run_keeps_cap(before);
    T::lemma_output_needs_points(opened.run(before).points);
}

impl<T: ClickCaptchaVerificationInfoTrait> SolverUiTrait<T> for ClickCaptchaSolverUi {
    type DataContainer = slint::VecModel<(i32, i32)>;

    type Event = ClickEvent;

    open spec fn outcome(data: T::Input, events: Seq<ClickEvent>) -> Result<T::Output, CaptchaErrorView> {
        click_dialog_result::<T>(click_dialog_opened::<T>(data).run(events))
    }

    open spec fn is_unused(data_container: slint::VecModel<(i32, i32)>) -> bool {
        point_rows(data_container) == Seq::<(i32, i32)>::empty()
    }

    open spec fn answer(data_container: slint::VecModel<(i32, i32)>) -> Result<T::Output, CaptchaErrorView> {
        click_answer::<T>(point_rows(data_container))
    }

    open spec fn result(self) -> Result<T::Output, CaptchaErrorView> {
        click_dialog_result::<T>(self@)
    }

    open spec fn is_fresh(self) -> bool {
        self@ == ClickDialogView::fresh()
    }

    open spec fn is_typed(self, before: Self) -> bool {
        self@ == (ClickDialogView { captcha_type: T::captcha_type(), ..before@ })
    }

    open spec fn is_prepared(
        self,
        before: Self,
        data: T::Input,
        data_container: slint::VecModel<(i32, i32)>,
    ) -> bool {
        self@ == (ClickDialogView { points: point_rows(data_container), ..T::with_data(before@, data) })
    }

    fn new() -> (ui: Self) {
        ClickCaptchaSolverUi::new()
    }

    fn ui_solver(data: T::Input, events: &Vec<ClickEvent>) -> (result: Result<T::Output, CaptchaError>) {
        let mut ui = <Self as SolverUiTrait<T>>::new();
        let data_container = <Self as SolverUiTrait<T>>::create_data_container();
        <Self as SolverUiTrait<T>>::set_captcha_type(&mut ui);
        <Self as SolverUiTrait<T>>::prepare(&mut ui, data, data_container);
        ui.run(events);
        <Self as SolverUiTrait<T>>::finish(ui)
    }

    fn finish(self) -> (result: Result<T::Output, CaptchaError>) {
        let (canceled, data_container) = self.into_result();
        if canceled {
            return Err(CaptchaError::Canceled("操作已取消。".to_owned()));
        }
        <Self as SolverUiTrait<T>>::get_data(data_container)
    }

    fn set_captcha_type(&mut self) {
        self.set_captcha_type(T::get_captcha_type());
    }

    fn create_data_container() -> (data_container: Self::DataContainer) {
        point_model_new()
    }

    fn prepare(&mut self, data: T::Input, data_container: Self::DataContainer) {
        T::set_data(self, data);
        self.set_points(data_container);
    }

    fn get_data(data_container: Self::DataContainer) -> (result: Result<T::Output, CaptchaError>) {
        if let Some(data) = T::points_to_output(&data_container) {
            Ok(data)
        } else {
            Err(CaptchaError::Canceled("图标选择未完成。".to_owned()))
        }
    }
}

impl MIconClick {
    /// Asks for the three icons of `data` in a point-picking dialog.
    pub fn ui_solver(data: Picture, events: &Vec<ClickEvent>) -> (result: Result<TriplePoint, CaptchaError>)
        ensures
            crate::outcome_view(result) == <ClickCaptchaSolverUi as SolverUiTrait<MIconClick>>::outcome(
                data,
                events@,
            ),
    {
        <ClickCaptchaSolverUi as SolverUiTrait<MIconClick>>::ui_solver(data, events)
    }
}

impl MTextClick {
    /// Asks for the three characters named in `data` in a point-picking dialog.
    pub fn ui_solver(data: (String, Picture), events: &Vec<ClickEvent>) -> (result: Result<
        TriplePoint,
        CaptchaError,
    >)
        ensures
            crate::outcome_view(result) == <ClickCaptchaSolverUi as SolverUiTrait<MTextClick>>::outcome(
                data,
                events@,
            ),
    {
        <ClickCaptchaSolverUi as SolverUiTrait<MTextClick>>::ui_solver(data, events)
    }
}

impl MObstacle {
    /// Asks for the obstacle of `data` in a point-picking dialog.
    pub fn ui_solver(data: Picture, events: &Vec<ClickEvent>) -> (result: Result<Point, CaptchaError>)
        ensures
            crate::outcome_view(result) == <ClickCaptchaSolverUi as SolverUiTrait<MObstacle>>::outcome(
                data,
                events@,
            ),
    {
        <ClickCaptchaSolverUi as SolverUiTrait<MObstacle>>::ui_solver(data, events)
    }
}

} // verus!
