//! Rendering a value as text.

use crate::call::{Funcall, FuncallView};
use crate::error::MrbError;
use crate::exchange::{Progress, Reply, Request, RequestView};
use crate::types::Ruby;
use crate::value::Mrb;
use vstd::prelude::*;

verus! {

/// A value that is being rendered.
pub struct RenderingView<S> {
    pub kind: Option<Ruby>,
    pub call: FuncallView<S, String>,
}

/// A value that is being rendered: a method of the value gives the text.
pub struct Rendering<S> {
    /// The kind of value whose name goes around the text, if one does.
    pub kind: Option<Ruby>,
    /// The call of the method.
    pub call: Funcall<S, String>,
}

impl<S> View for Rendering<S> {
    type V = RenderingView<S>;

    open spec fn view(&self) -> RenderingView<S> {
        RenderingView { kind: self.kind, call: self.call@ }
    }
}

/// The text that a method of the value gave, or a stand-in if it gave none.
pub open spec fn spec_text_or_unknown(result: Result<String, MrbError>) -> Seq<char> {
    match result {
        Ok(text) => text@,
        Err(_) => "<unknown>"@,
    }
}

/// The text that a method of the value gave, or a stand-in if it gave none.
pub fn text_or_unknown(result: Result<String, MrbError>) -> (text: String)
    ensures
        text@ == spec_text_or_unknown(result),
        result matches Ok(given) ==> text == given,
        result is Err ==> text@ == "<unknown>"@,
{
    match result {
        Ok(text) => text,
        Err(_) => "<unknown>".to_owned(),
    }
}

/// `text`, in angle brackets after the name of `kind` if there is one.
pub open spec fn spec_labelled(kind: Option<Ruby>, text: Seq<char>) -> Seq<char> {
    match kind {
        Some(kind) => kind.spec_class_name() + "<"@ + text + ">"@,
        None => text,
    }
}

/// `text`, in angle brackets after the name of `kind` if there is one.
pub fn labelled(kind: Option<Ruby>, text: String) -> (result: String)
    ensures
        result@ == spec_labelled(kind, text@),
        kind matches Some(kind) ==> result@ == kind.spec_class_name() + "<"@ + text@ + ">"@,
        kind is None ==> result == text,
{
    match kind {
        Some(kind) => {
            let mut result = kind.class_name().to_owned();
            result.append("<");
            result.append(text.as_str());
            result.append(">");
            result
        },
        None => text,
    }
}

/// The progress with the pending rendering and the text taken by their views.
pub open spec fn rendering_view<S>(progress: Progress<Rendering<S>, String>) -> Progress<
    RenderingView<S>,
    Seq<char>,
> {
    match progress {
        Progress::Pending(rendering) => Progress::Pending(rendering@),
        Progress::Done(text) => Progress::Done(text@),
    }
}

impl<S> RenderingView<S> {
    /// The rendering whose call stands where `call` says.
    pub open spec fn with(
        kind: Option<Ruby>,
        call: Progress<FuncallView<S, String>, Result<String, MrbError>>,
    ) -> Progress<RenderingView<S>, Seq<char>> {
        match call {
            Progress::Pending(call) => Progress::Pending(RenderingView { kind, call }),
            Progress::Done(result) => Progress::Done(
                spec_labelled(kind, spec_text_or_unknown(result)),
            ),
        }
    }

    /// The interpreter that the requests are for.
    pub open spec fn interp(self) -> Mrb<S> {
        self.call.interp()
    }

    /// What the rendering waits for.
    pub open spec fn request(self) -> RequestView<S> {
        self.call.request()
    }

    /// Where the rendering stands after `reply`.
    pub open spec fn after(self, reply: Reply<String>) -> Progress<RenderingView<S>, Seq<char>> {
        RenderingView::with(self.kind, self.call.after(reply))
    }
}

impl<S> Rendering<S> {
    /// The rendering whose call stands where `call` says.
    pub(crate) fn with(
        kind: Option<Ruby>,
        call: Progress<Funcall<S, String>, Result<String, MrbError>>,
    ) -> (progress: Progress<Rendering<S>, String>)
        ensures
            rendering_view(progress) == RenderingView::with(kind, call@),
            call matches Progress::Pending(call) ==> progress == Progress::<_, String>::Pending(
                Rendering { kind, call },
            ),
    {
        match call {
            Progress::Pending(call) => Progress::Pending(Rendering { kind, call }),
            Progress::Done(result) => Progress::Done(labelled(kind, text_or_unknown(result))),
        }
    }

    /// The interpreter that the requests are for.
    pub fn interp(&self) -> (interp: &Mrb<S>)
        ensures
            *interp == self@.interp(),
    {
        self.call.interp()
    }

    /// What the rendering waits for.
    pub fn request(&self) -> (request: Request<'_, S>)
        ensures
            request@ == self@.request(),
    {
        self.call.request()
    }

    /// Takes the host's reply. The result is the text: to render a value does not
    /// fail. A reply to another request is dropped.
    pub fn step(self, reply: Reply<String>) -> (progress: Progress<Rendering<S>, String>)
        ensures
            rendering_view(progress) == self@.after(reply),
    {
        Rendering::with(self.kind, self.call.step(reply))
    }
}

} // verus!
