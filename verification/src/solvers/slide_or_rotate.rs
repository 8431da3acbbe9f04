//! The slide or rotate dialog as a solver.
use vstd::prelude::*;

use super::{canceled_text, MRotate, MSlide, SlideOrRotateVerificationInfoTrait, SolverUiTrait};
use crate::picture::Picture;
use crate::live_value::rounded;
use crate::slint_ui::{SlideDialogView, SlideEvent, SlideOrRotateCaptchaType, SlideOrRotateSolverUi};
use crate::CaptchaError;
use crate::CaptchaErrorView;

verus! {

/// The dialog as it is opened on the two pictures: of the given type, with
/// the pictures shown, the slider at zero and zero kept for the caller.
pub open spec fn slide_dialog_opened(
    captcha_type: SlideOrRotateCaptchaType,
    data: (Picture, Picture),
) -> SlideDialogView {
    SlideDialogView {
        captcha_type,
        outer_image: Some(data.0@),
        inner_image: Some(data.1@),
        ..SlideDialogView::fresh()
    }
}

/// What a dialog gives back once its window is hidden: a cancellation if it
/// was canceled, else the number kept for the caller.
pub open spec fn slide_dialog_result(end: SlideDialogView) -> Result<u32, CaptchaErrorView> {
    if end.canceled {
        Err(CaptchaErrorView::Canceled(canceled_text()))
    } else {
        Ok(end.result)
    }
}

/// A dialog whose window is closed, after any moves of the slider and without
/// the confirm or the cancel button, gives a cancellation.
pub proof fn lemma_closed_window_cancels(
    captcha_type: SlideOrRotateCaptchaType,
    data: (Picture, Picture),
    before: Seq<SlideEvent>,
    after: Seq<SlideEvent>,
)
    requires
        SlideDialogView::keep_open(before),
    ensures
        slide_dialog_result(
            slide_dialog_opened(captcha_type, data).run(before + seq![SlideEvent::CloseRequested] + after),
        ) == Err::<u32, CaptchaErrorView>(CaptchaErrorView::Canceled(canceled_text())),
{
    slide_dialog_opened(captcha_type, data).lemma_run_until_hidden(before, SlideEvent::CloseRequested, after);
}

/// The cancel button, after any moves of the slider, gives a cancellation.
pub proof fn lemma_cancel_button_cancels(
    captcha_type: SlideOrRotateCaptchaType,
    data: (Picture, Picture),
    before: Seq<SlideEvent>,
    after: Seq<SlideEvent>,
)
    requires
        SlideDialogView::keep_open(before),
    ensures
        slide_dialog_result(
            slide_dialog_opened(captcha_type, data).run(before + seq![SlideEvent::Cancel] + after),
        ) == Err::<u32, CaptchaErrorView>(CaptchaErrorView::Canceled(canceled_text())),
{
    slide_dialog_opened(captcha_type, data).lemma_run_until_hidden(before, SlideEvent::Cancel, after);
}

/// The confirm button, after any moves of the slider, gives the whole number
/// nearest to the value that the slider has at that moment.
pub proof fn lemma_confirm_reports_rounded(
    captcha_type: SlideOrRotateCaptchaType,
    data: (Picture, Picture),
    before: Seq<SlideEvent>,
    value_bits: u32,
    after: Seq<SlideEvent>,
)
    requires
        SlideDialogView::keep_open(before),
    ensures
        slide_dialog_result(
            slide_dialog_opened(captcha_type, data).run(
                before + seq![SlideEvent::Verify { value_bits }] + after,
            ),
        ) == Ok::<u32, CaptchaErrorView>(rounded(value_bits)),
        slide_dialog_opened(captcha_type, data).run(
            before + seq![SlideEvent::Verify { value_bits }] + after,
        ).live == value_bits,
{
    slide_dialog_opened(captcha_type, data).lemma_run_until_hidden(
        before,
        SlideEvent::Verify { value_bits },
        after,
    );
}

impl<T: SlideOrRotateVerificationInfoTrait<Input = (Picture, Picture), Output = u32>> SolverUiTrait<
    T,
> for SlideOrRotateSolverUi {
    type DataContainer = u32;

    type Event = SlideEvent;

    open spec fn outcome(data: (Picture, Picture), events: Seq<SlideEvent>) -> Result<u32, CaptchaErrorView> {
        slide_dialog_result(slide_dialog_opened(T::captcha_type(), data).run(events))
    }

    open spec fn is_unused(data_container: u32) -> bool {
        data_container == 0
    }

    open spec fn answer(data_container: u32) -> Result<u32, CaptchaErrorView> {
        Ok(data_container)
    }

    open spec fn result(self) -> Result<u32, CaptchaErrorView> {
        slide_dialog_result(self@)
    }

    open spec fn is_fresh(self) -> bool {
        self@ == SlideDialogView::fresh()
    }

    open spec fn is_typed(self, before: Self) -> bool {
        self@ == (SlideDialogView { captcha_type: T::captcha_type(), ..before@ })
    }

    open spec fn is_prepared(self, before: Self, data: (Picture, Picture), data_container: u32) -> bool {
        self@ == (SlideDialogView {
            outer_image: Some(data.0@),
            inner_image: Some(data.1@),
            result: data_container,
            ..before@
        })
    }

    fn new() -> (ui: Self) {
        SlideOrRotateSolverUi::new()
    }

    fn ui_solver(data: (Picture, Picture), events: &Vec<SlideEvent>) -> (result: Result<u32, CaptchaError>) {
        let mut ui = <Self as SolverUiTrait<T>>::new();
        let data_container = <Self as SolverUiTrait<T>>::create_data_container();
        <Self as SolverUiTrait<T>>::set_captcha_type(&mut ui);
        <Self as SolverUiTrait<T>>::prepare(&mut ui, data, data_container);
        ui.run(events);
        <Self as SolverUiTrait<T>>::finish(ui)
    }

    fn finish(self) -> (result: Result<u32, CaptchaError>) {
        let (canceled, data_container) = self.into_result();
        if canceled {
            return Err(CaptchaError::Canceled("操作已取消。".to_owned()));
        }
        <Self as SolverUiTrait<T>>::get_data(data_container)
    }

    fn set_captcha_type(&mut self) {
        self.set_captcha_type(T::get_captcha_type());
    }

    fn create_data_container() -> (data_container: u32) {
        0
    }

    fn prepare(&mut self, data: (Picture, Picture), data_container: u32) {
        let (outer_image, inner_image) = data;
        self.set_outer_image(outer_image);
        self.set_inner_image(inner_image);
        self.set_result(data_container);
    }

    fn get_data(data_container: u32) -> (result: Result<u32, CaptchaError>) {
        Ok(data_container)
    }
}

impl MSlide {
    /// Asks for the offset of the piece in a slide dialog.
    pub fn ui_solver(data: (Picture, Picture), events: &Vec<SlideEvent>) -> (result: Result<u32, CaptchaError>)
        ensures
            crate::outcome_view(result) == slide_dialog_result(
                slide_dialog_opened(SlideOrRotateCaptchaType::Slide, data).run(events@),
            ),
    {
        <SlideOrRotateSolverUi as SolverUiTrait<MSlide>>::ui_solver(data, events)
    }
}

impl MRotate {
    /// Asks for the angle of the picture in a rotate dialog.
    pub fn ui_solver(data: (Picture, Picture), events: &Vec<SlideEvent>) -> (result: Result<u32, CaptchaError>)
        ensures
            crate::outcome_view(result) == slide_dialog_result(
                slide_dialog_opened(SlideOrRotateCaptchaType::Rotate, data).run(events@),
            ),
    {
        <SlideOrRotateSolverUi as SolverUiTrait<MRotate>>::ui_solver(data, events)
    }
}

} // verus!
