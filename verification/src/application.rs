//! The application's state and how user intents and scan results change it.
//!
//! [`Minami`] holds the text on display, the QR code encoded from it, and
//! which screen is up. [`Minami::update`] is the whole transition function:
//! it takes one [`Message`] and says, through the [`Command`] it returns,
//! whether the host has to start a scan. The host runs the scan and feeds its
//! result back as a message (see [`finish_scan`] and [`Message::from_scan`]).
//!
//! The code that is held always belongs to the text that is held: see
//! [`MinamiView::coherent`].

use crate::decoder::{scan_image, scanned, Symbol};
use crate::screenshot::CaptureError;
use iced::widget::qr_code;
use vstd::prelude::*;

verus! {

/// Which screen is up.
#[derive(Clone, Copy, Debug, PartialEq, Eq, Structural)]
pub enum Screen {
    /// The text, its QR code, and the button to scan or clear.
    Display,
    /// A scan is in flight; nothing can be triggered until it resolves.
    Scanning,
    /// The last scan did not yield a text.
    ScanFailed,
}

/// What the user asked for, or what a scan came back with.
#[derive(Clone, Debug, PartialEq, Eq)]
pub enum Message {
    /// The text is now this: typed in, or read from the screen.
    DataChanged(String),
    /// Scan the screen for a QR code.
    Scan,
    /// The scan found nothing to show.
    ScanFailed,
    /// Throw the text away.
    Clear,
}

/// What the host has to do after an update.
#[derive(Clone, Copy, Debug, PartialEq, Eq, Structural)]
pub enum Command {
    /// Nothing.
    Idle,
    /// Start one capture-and-decode pipeline and report its result.
    Scan,
}

/// The one button next to the text field.
#[derive(Clone, Copy, Debug, PartialEq, Eq, Structural)]
pub enum Action {
    Scan,
    Clear,
}

/// What a screen is made of.
#[derive(Clone, Copy, Debug, PartialEq, Eq, Structural)]
pub enum Layout {
    /// The text field, one button, and the QR code if there is one.
    Editor { action: Action, code_shown: bool },
    /// A notice that a scan is running, and nothing to press.
    Progress,
    /// The text field, the scan button, and a notice that the scan failed.
    Retry,
}

#[verifier::external_type_specification]
#[verifier::external_body]
pub struct ExQrCodeState(qr_code::State);

#[verifier::external_type_specification]
#[verifier::external_body]
pub struct ExQrCodeError(qr_code::Error);

/// Whether `iced` can encode the given text as a QR code.
pub uninterp spec fn qr_encodable(data: Seq<char>) -> bool;

/// The text that a QR code holds: the text it was encoded from.
pub uninterp spec fn encoded_text(code: qr_code::State) -> Seq<char>;

/// Calls `iced::widget::qr_code::State::new`, which encodes the text's bytes
/// at medium error correction in the smallest symbol that holds them, and
/// fails where none does. Whether it succeeds is named by [`qr_encodable`];
/// the state it returns stores the given text as a symbol, which
/// [`encoded_text`] names.
#[verifier::external_body]
fn encode(data: &String) -> (encoded: Result<qr_code::State, qr_code::Error>)
    ensures
        encoded is Ok <==> qr_encodable(data@),
        encoded matches Ok(code) ==> encoded_text(code) == data@,
{
    qr_code::State::new(data)
}

/// The application: the text, its QR code, and the screen that is up.
#[derive(Debug)]
pub struct Minami {
    data: String,
    qr_code: Option<qr_code::State>,
    screen: Screen,
}

/// What a [`Minami`] is, mathematically.
pub struct MinamiView {
    pub data: Seq<char>,
    pub code: Option<qr_code::State>,
    pub screen: Screen,
}

impl MinamiView {
    /// The code on display is never stale: a code is held only for a text
    /// that is not empty, and it is a code of that very text.
    pub open spec fn coherent(self) -> bool {
        self.code matches Some(code) ==> self.data.len() > 0 && encoded_text(code) == self.data
    }
}

impl View for Minami {
    type V = MinamiView;

    closed spec fn view(&self) -> MinamiView {
        MinamiView { data: self.data@, code: self.qr_code, screen: self.screen }
    }
}

/// The code that goes with a text: none for the empty text and for a text
/// that cannot be encoded, and otherwise a code of that text.
pub open spec fn is_code_of(code: Option<qr_code::State>, data: Seq<char>) -> bool {
    &&& code is Some <==> data.len() > 0 && qr_encodable(data)
    &&& code matches Some(held) ==> encoded_text(held) == data
}

/// The code that is kept of what encoding came to: the one that was encoded,
/// if encoding was attempted and succeeded.
pub open spec fn kept_code(encoded: Option<Result<qr_code::State, qr_code::Error>>) -> Option<
    qr_code::State,
> {
    match encoded {
        Some(Ok(code)) => Some(code),
        _ => None,
    }
}

/// The application once a text is put on display with the given code: the
/// editor screen is up.
pub open spec fn shown(data: Seq<char>, code: Option<qr_code::State>) -> MinamiView {
    MinamiView { data, code, screen: Screen::Display }
}

/// The application after a message. A new text comes with `code`, the code
/// it was encoded to; every other message leaves `code` out of account. A
/// scan request and a failed scan change the screen and nothing else; a clear
/// drops text and code and leaves the screen.
pub open spec fn after(model: MinamiView, message: Message, code: Option<qr_code::State>) -> MinamiView {
    match message {
        Message::DataChanged(data) => shown(data@, code),
        Message::Scan => MinamiView { screen: Screen::Scanning, ..model },
        Message::ScanFailed => MinamiView { screen: Screen::ScanFailed, ..model },
        Message::Clear => MinamiView { data: Seq::empty(), code: None, ..model },
    }
}

/// What the host is asked to do after a message: a scan on request, else nothing.
pub open spec fn command_for(message: Message) -> Command {
    match message {
        Message::Scan => Command::Scan,
        _ => Command::Idle,
    }
}

/// What the screen of an application is made of.
pub open spec fn layout_of(model: MinamiView) -> Layout {
    match model.screen {
        Screen::Display => Layout::Editor {
            action: if model.data.len() == 0 {
                Action::Scan
            } else {
                Action::Clear
            },
            code_shown: model.code is Some,
        },
        Screen::Scanning => Layout::Progress,
        Screen::ScanFailed => Layout::Retry,
    }
}

/// The message a finished scan turns into: the text it read, or the notice
/// that it failed. A capture failure and a frame without a readable code look
/// the same to the user.
pub open spec fn message_for(outcome: Result<Option<String>, CaptureError>) -> Message {
    match outcome {
        Ok(Some(text)) => Message::DataChanged(text),
        _ => Message::ScanFailed,
    }
}

impl Default for Screen {
    fn default() -> (screen: Screen)
        ensures
            screen == Screen::Display,
    {
        Screen::Display
    }
}

impl Default for Minami {
    fn default() -> (app: Minami)
        ensures
            app@ == (MinamiView { data: Seq::empty(), code: None, screen: Screen::Display }),
    {
        Minami { data: String::new(), qr_code: None, screen: Screen::Display }
    }
}

impl Message {
    /// Turns the result of a scan into the message that reports it.
    pub fn from_scan(outcome: Result<Option<String>, CaptureError>) -> (message: Message)
        ensures
            message == message_for(outcome),
    {
        match outcome {
            Ok(Some(text)) => Message::DataChanged(text),
            _ => Message::ScanFailed,
        }
    }
}

impl Minami {
    /// The application as it starts: nothing to show, and nothing for the
    /// host to do.
    pub fn new() -> (start: (Minami, Command))
        ensures
            start.0@ == (MinamiView { data: Seq::empty(), code: None, screen: Screen::Display }),
            start.1 == Command::Idle,
    {
        (Minami::default(), Command::Idle)
    }

    /// The window's title.
    pub fn title(&self) -> (title: String)
        ensures
            title@ == "Minami"@,
    {
        "Minami".to_owned()
    }

    /// The text on display.
    pub fn data(&self) -> (data: &String)
        ensures
            data@ == self@.data,
    {
        &self.data
    }

    /// The QR code of the text, if there is one.
    pub fn qr_code(&self) -> (code: Option<&qr_code::State>)
        ensures
            code matches Some(held) ==> self@.code == Some(*held),
            code is None ==> self@.code is None,
    {
        self.qr_code.as_ref()
    }

    /// The screen that is up.
    pub fn screen(&self) -> (screen: Screen)
        ensures
            screen == self@.screen,
    {
        self.screen
    }

    /// What the current screen is made of.
    pub fn layout(&self) -> (layout: Layout)
        ensures
            layout == layout_of(self@),
    {
        match self.screen {
            Screen::Display => Layout::Editor {
                action: if self.data.as_str().is_empty() {
                    Action::Scan
                } else {
                    Action::Clear
                },
                code_shown: self.qr_code.is_some(),
            },
            Screen::Scanning => Layout::Progress,
            Screen::ScanFailed => Layout::Retry,
        }
    }

    /// Puts a text on display, together with what encoding it came to.
    /// `encoded` is `None` where no encoding was attempted; the code that is
    /// held afterwards is the one that was encoded, or none.
    pub fn show(&mut self, data: String, encoded: Option<Result<qr_code::State, qr_code::Error>>)
        ensures
            final(self)@ == shown(data@, kept_code(encoded)),
    {
        let code = match encoded {
            Some(Ok(code)) => Some(code),
            _ => None,
        };
        self.screen = Screen::Display;
        self.qr_code = code;
        self.data = data;
    }

    /// Applies one message and says what the host has to do next.
    ///
    /// A new text goes on display with its QR code; an empty text has none,
    /// and neither has one that cannot be encoded. A scan request puts up the
    /// scanning screen and asks the host for one scan; it leaves text and
    /// code untouched, and so does the notice that a scan failed. At most
    /// one scan is in flight at any time: a scan must not be requested while
    /// the scanning screen is up.
    pub fn update(&mut self, message: Message) -> (command: Command)
        requires
            message is Scan ==> !(old(self)@.screen is Scanning),
        ensures
            final(self)@ == after(old(self)@, message, final(self)@.code),
            message matches Message::DataChanged(data) ==> is_code_of(final(self)@.code, data@),
            old(self)@.coherent() ==> final(self)@.coherent(),
            command == command_for(message),
    {
        match message {
            Message::DataChanged(data) => {
                let encoded = if data.as_str().is_empty() {
                    None
                } else {
                    Some(encode(&data))
                };
                self.show(data, encoded);
            },
            Message::Scan => {
                self.screen = Screen::Scanning;
                return Command::Scan;
            },
            Message::ScanFailed => {
                self.screen = Screen::ScanFailed;
            },
            Message::Clear => {
                self.qr_code = None;
                self.data = String::new();
            },
        }
        Command::Idle
    }
}

/// Whether a screen offers a way to request a scan.
pub open spec fn offers_scan(layout: Layout) -> bool {
    match layout {
        Layout::Editor { action, .. } => action == Action::Scan,
        Layout::Progress => false,
        Layout::Retry => true,
    }
}

/// One scan at a time. A scan is started by a scan request and by nothing
/// else; the request puts up the scanning screen; that screen offers no way
/// to request another scan; and clearing the text does not take it down.
pub proof fn one_scan_at_a_time(model: MinamiView, message: Message, code: Option<qr_code::State>)
    ensures
        command_for(message) == Command::Scan <==> message is Scan,
        message is Scan ==> after(model, message, code).screen == Screen::Scanning,
        after(model, message, code).screen == Screen::Scanning ==> !offers_scan(
            layout_of(after(model, message, code)),
        ),
        model.screen == Screen::Scanning && message is Clear ==> after(
            model,
            message,
            code,
        ).screen == Screen::Scanning,
{
}

/// The code on display is never stale. The application starts coherent, and
/// every message keeps it so, provided that a new text comes with a code of
/// its own; a scan request and a failed scan leave text and code as they are.
pub proof fn code_belongs_to_the_text(
    model: MinamiView,
    message: Message,
    code: Option<qr_code::State>,
)
    requires
        model.coherent(),
        message matches Message::DataChanged(data) ==> is_code_of(code, data@),
    ensures
        after(model, message, code).coherent(),
        message is Scan || message is ScanFailed ==> after(model, message, code).code == model.code
            && after(model, message, code).data == model.data,
        shown(Seq::empty(), None).coherent(),
{
}

/// The last step of a scan: reads the candidates located in the captured
/// frame, or passes the capture failure on. `Ok(None)` is a clean "no code
/// found"; `Err` says that no frame could be had at all.
pub fn finish_scan(located: Result<Vec<Option<Symbol>>, CaptureError>) -> (outcome: Result<
    Option<String>,
    CaptureError,
>)
    ensures
        match located {
            Ok(candidates) => match outcome {
                Ok(Some(text)) => scanned(candidates@) == Some(text@),
                Ok(None) => scanned(candidates@) is None,
                Err(_) => false,
            },
            Err(error) => outcome == Err::<Option<String>, CaptureError>(error),
        },
{
    match located {
        Ok(candidates) => Ok(scan_image(&candidates)),
        Err(error) => Err(error),
    }
}

} // verus!
