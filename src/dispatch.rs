//! Dispatching a request line against the button settings, which the
//! dispatcher answers itself, and handing every other request to the device.
use vstd::prelude::*;
use crate::request::{parse_request, request_of, Field, Request, RequestModel, TapKind};
use crate::response::{bool_string, bool_text, error_line, error_text, success_text};
use crate::text::tokens;

verus! {

/// The part of the persisted configuration that says what each tap kind does:
/// whether it runs a shell hook, and which.
#[derive(Debug)]
pub struct ButtonSettings {
    pub single_enable: bool,
    pub double_enable: bool,
    pub long_enable: bool,
    pub single_shell: String,
    pub double_shell: String,
    pub long_shell: String,
}

/// The button settings, with text as character sequences.
pub struct ButtonsModel {
    pub single_enable: bool,
    pub double_enable: bool,
    pub long_enable: bool,
    pub single_shell: Seq<char>,
    pub double_shell: Seq<char>,
    pub long_shell: Seq<char>,
}

impl View for ButtonSettings {
    type V = ButtonsModel;

    open spec fn view(&self) -> ButtonsModel {
        ButtonsModel {
            single_enable: self.single_enable,
            double_enable: self.double_enable,
            long_enable: self.long_enable,
            single_shell: self.single_shell@,
            double_shell: self.double_shell@,
            long_shell: self.long_shell@,
        }
    }
}

impl ButtonsModel {
    /// Whether tap kind `k` runs its shell hook.
    pub open spec fn enabled(self, k: TapKind) -> bool {
        match k {
            TapKind::Single => self.single_enable,
            TapKind::Double => self.double_enable,
            TapKind::Long => self.long_enable,
        }
    }

    /// The shell hook of tap kind `k`.
    pub open spec fn shell(self, k: TapKind) -> Seq<char> {
        match k {
            TapKind::Single => self.single_shell,
            TapKind::Double => self.double_shell,
            TapKind::Long => self.long_shell,
        }
    }

    /// These settings with the flag of `k` set to `b`.
    pub open spec fn with_enabled(self, k: TapKind, b: bool) -> ButtonsModel {
        match k {
            TapKind::Single => ButtonsModel { single_enable: b, ..self },
            TapKind::Double => ButtonsModel { double_enable: b, ..self },
            TapKind::Long => ButtonsModel { long_enable: b, ..self },
        }
    }

    /// These settings with the hook of `k` set to `c`.
    pub open spec fn with_shell(self, k: TapKind, c: Seq<char>) -> ButtonsModel {
        match k {
            TapKind::Single => ButtonsModel { single_shell: c, ..self },
            TapKind::Double => ButtonsModel { double_shell: c, ..self },
            TapKind::Long => ButtonsModel { long_shell: c, ..self },
        }
    }
}

/// What the caller does after a request line was dispatched.
#[derive(Debug)]
pub enum Step {
    /// Send this line back.
    Reply(String),
    /// Persist the button settings, then send this line back.
    Save(String),
    /// Carry out this request on the device, then send back what
    /// `Request::reply` makes of the outcome.
    Device(Request),
}

/// A step, with text as character sequences.
pub enum StepModel {
    Reply(Seq<char>),
    Save(Seq<char>),
    Device(RequestModel),
}

impl View for Step {
    type V = StepModel;

    open spec fn view(&self) -> StepModel {
        match self {
            Step::Reply(s) => StepModel::Reply(s@),
            Step::Save(s) => StepModel::Save(s@),
            Step::Device(q) => StepModel::Device(q@),
        }
    }
}

/// One request applied to the button settings `b`: the settings after it, and
/// the step left to the caller. `q` is `None` for a line that makes no request.
pub open spec fn apply(b: ButtonsModel, q: Option<RequestModel>) -> (ButtonsModel, StepModel) {
    match q {
        None => (b, StepModel::Reply(error_text())),
        Some(q) => match q {
            RequestModel::Get(Field::ButtonEnable(k)) => (
                b,
                StepModel::Reply(success_text(q, bool_text(b.enabled(k)))),
            ),
            RequestModel::Get(Field::ButtonShell(k)) => (
                b,
                StepModel::Reply(success_text(q, b.shell(k))),
            ),
            RequestModel::SetButtonEnable(k, e) => (
                b.with_enabled(k, e),
                StepModel::Save(success_text(q, Seq::empty())),
            ),
            RequestModel::SetButtonShell(k, c) => (
                b.with_shell(k, c),
                StepModel::Save(success_text(q, Seq::empty())),
            ),
            _ => (b, StepModel::Device(q)),
        },
    }
}

impl ButtonSettings {
    /// Whether tap kind `k` runs its shell hook.
    pub fn enabled(&self, k: TapKind) -> (r: bool)
        ensures
            r == self@.enabled(k),
    {
        match k {
            TapKind::Single => self.single_enable,
            TapKind::Double => self.double_enable,
            TapKind::Long => self.long_enable,
        }
    }

    /// The shell hook of tap kind `k`.
    pub fn shell(&self, k: TapKind) -> (r: String)
        ensures
            r@ == self@.shell(k),
    {
        match k {
            TapKind::Single => self.single_shell.clone(),
            TapKind::Double => self.double_shell.clone(),
            TapKind::Long => self.long_shell.clone(),
        }
    }

    /// Sets whether tap kind `k` runs its shell hook.
    pub fn set_enabled(&mut self, k: TapKind, e: bool)
        ensures
            final(self)@ == old(self)@.with_enabled(k, e),
    {
        match k {
            TapKind::Single => self.single_enable = e,
            TapKind::Double => self.double_enable = e,
            TapKind::Long => self.long_enable = e,
        }
    }

    /// Sets the shell hook of tap kind `k`.
    pub fn set_shell(&mut self, k: TapKind, c: String)
        ensures
            final(self)@ == old(self)@.with_shell(k, c@),
    {
        match k {
            TapKind::Single => self.single_shell = c,
            TapKind::Double => self.double_shell = c,
            TapKind::Long => self.long_shell = c,
        }
    }

    /// Dispatches one request line: a line that makes no request is answered
    /// with the error line, the button settings are read and changed here, and
    /// every other request is handed back for the device.
    pub fn handle_line(&mut self, line: &str) -> (r: Step)
        ensures
            (final(self)@, r@) == apply(old(self)@, request_of(tokens(line@))),
    {
        match parse_request(line) {
            None => Step::Reply(error_line()),
            Some(q) => match &q {
                Request::Get(Field::ButtonEnable(k)) => {
                    let v = bool_string(self.enabled(*k));
                    Step::Reply(q.reply(Some(v)))
                },
                Request::Get(Field::ButtonShell(k)) => {
                    let v = self.shell(*k);
                    Step::Reply(q.reply(Some(v)))
                },
                Request::SetButtonEnable(k, e) => {
                    self.set_enabled(*k, *e);
                    Step::Save(q.reply(Some(String::new())))
                },
                Request::SetButtonShell(k, c) => {
                    self.set_shell(*k, c.clone());
                    Step::Save(q.reply(Some(String::new())))
                },
                _ => Step::Device(q),
            },
        }
    }
}

} // verus!
