//! State machine of the interactive shell.
//!
//! The shell lets a user pick a scene configuration, start a render, preview
//! the result, save it, and quit. Every step alternates outside work (file
//! dialogs, the render itself, writing the preview image) with a decision
//! about what to do next. The decisions are gathered here as a verified
//! transition function over a plain-value model of the shell: the application
//! layer performs the returned [`Action`], and hands the outcome back as the
//! next [`Event`].

use vstd::prelude::*;
use vstd::string::{StrSliceExecFns, StringExecFns};

verus! {

/// Phase of the shell: waiting for input, rendering, or showing a result.
#[derive(Clone, Copy, Debug, PartialEq, Eq, Structural)]
pub enum AppState {
    Ready,
    Rendering,
    Done,
}

impl Default for AppState {
    fn default() -> (s: Self)
        ensures
            s == AppState::Ready,
    {
        AppState::Ready
    }
}

/// The one failure the shell can report: a render was requested but could
/// not even be attempted.
#[derive(Clone, Debug, PartialEq, Eq, Structural)]
pub enum Error {
    TraceError,
}

/// A message from the user interface.
#[derive(Debug, PartialEq)]
pub enum Message {
    /// A render finished with the packed pixel buffer, or could not start.
    Done(Result<Vec<u8>, Error>),
    ChooseConfig,
    Trace,
    SaveImage,
    Quit,
}

/// Ghost image of a [`Message`], with buffers abstracted to sequences.
pub enum MessageV {
    Done(Result<Seq<u8>, Error>),
    ChooseConfig,
    Trace,
    SaveImage,
    Quit,
}

impl View for Message {
    type V = MessageV;

    open spec fn view(&self) -> MessageV {
        match self {
            Message::Done(Ok(buf)) => MessageV::Done(Ok(buf@)),
            Message::Done(Err(e)) => MessageV::Done(Err(*e)),
            Message::ChooseConfig => MessageV::ChooseConfig,
            Message::Trace => MessageV::Trace,
            Message::SaveImage => MessageV::SaveImage,
            Message::Quit => MessageV::Quit,
        }
    }
}

/// What the shell reacts to: a UI message, or the outcome of an action the
/// application layer performed on the shell's behalf.
#[derive(Debug, PartialEq)]
pub enum Event {
    Ui(Message),
    /// The configuration file dialog closed, with the chosen path if any.
    ConfigDialogClosed(Option<String>),
    /// The chosen configuration file was parsed, or rejected with a reason.
    ConfigLoaded(Result<(), String>),
    /// The rendered buffer was written to a preview image at the given path;
    /// the second field is a freshly generated exclamation label.
    TempImageWritten(String, String),
    /// The save dialog closed, with the destination path if any.
    SaveDialogClosed(Option<String>),
    /// Copying the preview image to the destination finished; on success the
    /// number of bytes copied, on failure a reason.
    CopyFinished(Result<u64, String>),
    /// The user answered the quit confirmation.
    QuitConfirmed(bool),
}

/// Ghost image of an [`Event`].
pub enum EventV {
    Ui(MessageV),
    ConfigDialogClosed(Option<Seq<char>>),
    ConfigLoaded(Result<(), Seq<char>>),
    TempImageWritten(Seq<char>, Seq<char>),
    SaveDialogClosed(Option<Seq<char>>),
    CopyFinished(Result<u64, Seq<char>>),
    QuitConfirmed(bool),
}

impl View for Event {
    type V = EventV;

    open spec fn view(&self) -> EventV {
        match self {
            Event::Ui(m) => EventV::Ui(m@),
            Event::ConfigDialogClosed(Some(p)) => EventV::ConfigDialogClosed(Some(p@)),
            Event::ConfigDialogClosed(None) => EventV::ConfigDialogClosed(None),
            Event::ConfigLoaded(Ok(())) => EventV::ConfigLoaded(Ok(())),
            Event::ConfigLoaded(Err(e)) => EventV::ConfigLoaded(Err(e@)),
            Event::TempImageWritten(p, l) => EventV::TempImageWritten(p@, l@),
            Event::SaveDialogClosed(Some(p)) => EventV::SaveDialogClosed(Some(p@)),
            Event::SaveDialogClosed(None) => EventV::SaveDialogClosed(None),
            Event::CopyFinished(Ok(n)) => EventV::CopyFinished(Ok(*n)),
            Event::CopyFinished(Err(e)) => EventV::CopyFinished(Err(e@)),
            Event::QuitConfirmed(b) => EventV::QuitConfirmed(*b),
        }
    }
}

/// What the application layer must do next on the shell's behalf.
#[derive(Debug, PartialEq)]
pub enum Action {
    /// Open the file dialog for a configuration file.
    OpenConfigDialog,
    /// Parse the configuration file at `config_path` of the model.
    LoadConfig,
    /// Show the configuration error box with the given reason.
    ShowConfigError(String),
    /// Start a render of the loaded configuration.
    StartRender,
    /// Write `result` of the model to a fresh preview image file.
    WriteTempImage,
    /// Tell the user that no configuration is loaded.
    ShowNoConfigError,
    /// Open the save dialog for the rendered image.
    OpenSaveDialog,
    /// Copy the preview image at `temp_image_path` of the model to the given
    /// destination.
    CopyImage(String),
    /// Show the save error box with the given reason.
    ShowSaveError(String),
    /// Ask the user to confirm quitting.
    ConfirmQuit,
    /// Leave the application.
    Exit,
}

/// Ghost image of an [`Action`].
pub enum ActionV {
    OpenConfigDialog,
    LoadConfig,
    ShowConfigError(Seq<char>),
    StartRender,
    WriteTempImage,
    ShowNoConfigError,
    OpenSaveDialog,
    CopyImage(Seq<char>),
    ShowSaveError(Seq<char>),
    ConfirmQuit,
    Exit,
}

impl View for Action {
    type V = ActionV;

    open spec fn view(&self) -> ActionV {
        match self {
            Action::OpenConfigDialog => ActionV::OpenConfigDialog,
            Action::LoadConfig => ActionV::LoadConfig,
            Action::ShowConfigError(e) => ActionV::ShowConfigError(e@),
            Action::StartRender => ActionV::StartRender,
            Action::WriteTempImage => ActionV::WriteTempImage,
            Action::ShowNoConfigError => ActionV::ShowNoConfigError,
            Action::OpenSaveDialog => ActionV::OpenSaveDialog,
            Action::CopyImage(p) => ActionV::CopyImage(p@),
            Action::ShowSaveError(e) => ActionV::ShowSaveError(e@),
            Action::ConfirmQuit => ActionV::ConfirmQuit,
            Action::Exit => ActionV::Exit,
        }
    }
}

/// Ghost image of an `Option<Action>`.
pub open spec fn opt_action_view(a: Option<Action>) -> Option<ActionV> {
    match a {
        Some(act) => Some(act@),
        None => None,
    }
}

/// The plain-value model of the shell that the transition function decides
/// over. The presentation layer owns the widgets; everything the decisions
/// read or write is here.
pub struct AppModel {
    /// The packed RGB8 buffer of the last finished render.
    pub result: Vec<u8>,
    /// Path of the preview image written for the last finished render.
    pub temp_image_path: String,
    /// Whether a preview image exists for the last finished render.
    pub has_image: bool,
    /// Whether a configuration is currently loaded.
    pub has_config: bool,
    /// Path of the last configuration file the user chose.
    pub config_path: Option<String>,
    /// Phase of the shell.
    pub state: AppState,
    /// First word of the label shown beside a finished render.
    pub rand_adj: String,
}

/// Ghost image of an [`AppModel`].
#[verifier::ext_equal]
pub struct AppModelV {
    pub result: Seq<u8>,
    pub temp_image_path: Seq<char>,
    pub has_image: bool,
    pub has_config: bool,
    pub config_path: Option<Seq<char>>,
    pub state: AppState,
    pub rand_adj: Seq<char>,
}

impl View for AppModel {
    type V = AppModelV;

    open spec fn view(&self) -> AppModelV {
        AppModelV {
            result: self.result@,
            temp_image_path: self.temp_image_path@,
            has_image: self.has_image,
            has_config: self.has_config,
            config_path: match &self.config_path {
                Some(p) => Some(p@),
                None => None,
            },
            state: self.state,
            rand_adj: self.rand_adj@,
        }
    }
}

impl AppModelV {
    /// The model the shell starts in: nothing rendered, nothing loaded.
    pub open spec fn init() -> AppModelV {
        AppModelV {
            result: Seq::empty(),
            temp_image_path: Seq::empty(),
            has_image: false,
            has_config: false,
            config_path: None,
            state: AppState::Ready,
            rand_adj: Seq::empty(),
        }
    }
}

impl Default for AppModel {
    fn default() -> (m: Self)
        ensures
            m@ =~= AppModelV::init(),
    {
        AppModel {
            result: Vec::new(),
            temp_image_path: String::new(),
            has_image: false,
            has_config: false,
            config_path: None,
            state: AppState::Ready,
            rand_adj: String::new(),
        }
    }
}

impl AppModel {
    /// A fresh shell model.
    pub fn new() -> (m: Self)
        ensures
            m@ =~= AppModelV::init(),
    {
        Self::default()
    }

    /// The window title of the shell.
    pub fn title(&self) -> (t: String)
        ensures
            t@ == "Prayer"@,
    {
        "Prayer".to_owned()
    }

    /// Whether the toolbar shows the chosen configuration path: only once
    /// the file it names has also been loaded.
    pub fn shows_config_path(&self) -> (b: bool)
        ensures
            b == (self@.config_path is Some && self@.has_config),
    {
        match &self.config_path {
            Some(_) => self.has_config,
            None => false,
        }
    }

    /// Whether the result pane appears: only for a finished render whose
    /// preview image exists.
    pub fn shows_result(&self) -> (b: bool)
        ensures
            b == (self@.state == AppState::Done && self@.has_image),
    {
        match self.state {
            AppState::Done => self.has_image,
            _ => false,
        }
    }

    /// The exclamation label shown beside a finished render.
    pub fn result_label(&self) -> (t: String)
        ensures
            t@ == self@.rand_adj + "!"@,
    {
        self.rand_adj.clone().concat("!")
    }
}

/// The model after the shell reacts to event `e` in model `m`.
pub open spec fn next_model(m: AppModelV, e: EventV) -> AppModelV {
    match e {
        EventV::Ui(msg) => match msg {
            MessageV::ChooseConfig => m,
            MessageV::Trace => AppModelV { state: AppState::Rendering, ..m },
            MessageV::Done(r) => match r {
                Ok(buf) => AppModelV { result: buf, ..m },
                Err(_) => m,
            },
            MessageV::SaveImage => m,
            MessageV::Quit => m,
        },
        EventV::ConfigDialogClosed(p) => match p {
            Some(path) => AppModelV { config_path: Some(path), ..m },
            None => m,
        },
        EventV::ConfigLoaded(r) => match r {
            Ok(_) => AppModelV { has_config: true, ..m },
            Err(_) => AppModelV { has_config: false, ..m },
        },
        EventV::TempImageWritten(path, label) => AppModelV {
            temp_image_path: path,
            has_image: true,
            rand_adj: dash_prefix(label),
            state: AppState::Done,
            ..m
        },
        EventV::SaveDialogClosed(_) => m,
        EventV::CopyFinished(_) => m,
        EventV::QuitConfirmed(_) => m,
    }
}

/// The action the shell asks for on event `e` in model `m`.
pub open spec fn next_action(m: AppModelV, e: EventV) -> Option<ActionV> {
    match e {
        EventV::Ui(msg) => match msg {
            MessageV::ChooseConfig => Some(ActionV::OpenConfigDialog),
            MessageV::Trace => if m.has_config {
                Some(ActionV::StartRender)
            } else {
                None
            },
            MessageV::Done(r) => match r {
                Ok(_) => Some(ActionV::WriteTempImage),
                Err(_) => Some(ActionV::ShowNoConfigError),
            },
            MessageV::SaveImage => Some(ActionV::OpenSaveDialog),
            MessageV::Quit => Some(ActionV::ConfirmQuit),
        },
        EventV::ConfigDialogClosed(p) => match p {
            Some(_) => Some(ActionV::LoadConfig),
            None => None,
        },
        EventV::ConfigLoaded(r) => match r {
            Ok(_) => None,
            Err(reason) => Some(ActionV::ShowConfigError(reason)),
        },
        EventV::TempImageWritten(_, _) => None,
        EventV::SaveDialogClosed(p) => match p {
            Some(dest) => Some(ActionV::CopyImage(dest)),
            None => None,
        },
        EventV::CopyFinished(r) => match r {
            Ok(_) => None,
            Err(reason) => Some(ActionV::ShowSaveError(reason)),
        },
        EventV::QuitConfirmed(confirmed) => if confirmed {
            Some(ActionV::Exit)
        } else {
            None
        },
    }
}

/// Events the shell can take in model `m`. A finished render is announced
/// only while its configuration is still loaded: the shell reads the
/// configuration's resolution when it writes the preview image.
pub open spec fn can_handle(m: AppModelV, e: EventV) -> bool {
    (e matches EventV::Ui(MessageV::Done(Ok(_)))) ==> m.has_config
}

impl AppModel {
    /// React to one event: move to the next model and say what the
    /// application layer must do on the shell's behalf, if anything.
    pub fn update(&mut self, event: Event) -> (action: Option<Action>)
        requires
            can_handle(old(self)@, event@),
        ensures
            final(self)@ =~= next_model(old(self)@, event@),
            opt_action_view(action) == next_action(old(self)@, event@),
    {
        match event {
            Event::Ui(Message::ChooseConfig) => Some(Action::OpenConfigDialog),
            Event::Ui(Message::Trace) => {
                self.state = AppState::Rendering;
                if self.has_config {
                    Some(Action::StartRender)
                } else {
                    None
                }
            },
            Event::Ui(Message::Done(Ok(buf))) => {
                self.result = buf;
                Some(Action::WriteTempImage)
            },
            Event::Ui(Message::Done(Err(_))) => Some(Action::ShowNoConfigError),
            Event::Ui(Message::SaveImage) => Some(Action::OpenSaveDialog),
            Event::Ui(Message::Quit) => Some(Action::ConfirmQuit),
            Event::ConfigDialogClosed(Some(path)) => {
                self.config_path = Some(path);
                Some(Action::LoadConfig)
            },
            Event::ConfigDialogClosed(None) => None,
            Event::ConfigLoaded(Ok(())) => {
                self.has_config = true;
                None
            },
            Event::ConfigLoaded(Err(reason)) => {
                self.has_config = false;
                Some(Action::ShowConfigError(reason))
            },
            Event::TempImageWritten(path, label) => {
                self.temp_image_path = path;
                self.has_image = true;
                self.rand_adj = first_dash_segment(label.as_str());
                self.state = AppState::Done;
                None
            },
            Event::SaveDialogClosed(Some(dest)) => Some(Action::CopyImage(dest)),
            Event::SaveDialogClosed(None) => None,
            Event::CopyFinished(Ok(_)) => None,
            Event::CopyFinished(Err(reason)) => Some(Action::ShowSaveError(reason)),
            Event::QuitConfirmed(true) => Some(Action::Exit),
            Event::QuitConfirmed(false) => None,
        }
    }
}

/// Index of the first `'-'` in `s`, or `s.len()` if there is none.
pub open spec fn dash_index(s: Seq<char>) -> int
    decreases s.len(),
{
    if s.len() == 0 {
        0
    } else if s[0] == '-' {
        0
    } else {
        1 + dash_index(s.drop_first())
    }
}

/// Everything before the first `'-'` of `s`; all of `s` if there is none.
pub open spec fn dash_prefix(s: Seq<char>) -> Seq<char> {
    s.subrange(0, dash_index(s))
}

/// A scan that found no `'-'` before position `i`, and one at `i` unless `i`
/// is the length, has found exactly `dash_index`.
proof fn lemma_dash_index_of_scan(s: Seq<char>, i: int)
    requires
        0 <= i <= s.len(),
        forall|j: int| 0 <= j < i ==> s[j] != '-',
        i < s.len() ==> s[i] == '-',
    ensures
        dash_index(s) == i,
    decreases i,
{
    if i == 0 {
    } else {
        assert(s[0] != '-');
        assert(forall|j: int| 0 <= j < i - 1 ==> s.drop_first()[j] == s[j + 1]);
        lemma_dash_index_of_scan(s.drop_first(), i - 1);
    }
}

/// Relies on `names::Generator::next`: the default generator always yields
/// a fresh `adjective-noun` label. The text comes from a thread-local
/// random generator, so nothing more is promised of it.
#[verifier::external_body]
fn generate_label() -> (r: Option<String>)
    ensures
        r is Some,
{
    names::Generator::default().next()
}

/// A freshly generated render label together with its leading word, the
/// part the result pane later shows.
pub fn fresh_label() -> (r: (String, String))
    ensures
        r.1@ == dash_prefix(r.0@),
{
    let label = generate_label().unwrap();
    let word = first_dash_segment(label.as_str());
    (label, word)
}

/// The part of a generated `adjective-noun` label before its first dash.
pub fn first_dash_segment(s: &str) -> (r: String)
    ensures
        r@ == dash_prefix(s@),
{
    let n = s.unicode_len();
    let mut i: usize = 0;
    while i < n && s.get_char(i) != '-'
        invariant
            i <= n,
            n == s@.len(),
            forall|j: int| 0 <= j < i ==> s@[j] != '-',
        decreases n - i,
    {
        i = i + 1;
    }
    proof {
        lemma_dash_index_of_scan(s@, i as int);
    }
    let seg = s.substring_char(0, i);
    seg.to_owned()
}

} // verus!
