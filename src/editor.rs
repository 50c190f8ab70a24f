//! The editor state machine: one message in, the next state and the file
//! operation to perform out.

use vstd::prelude::*;

use crate::error::EditorError;
use crate::gate::InputGate;
use crate::history::{EditHistory, HistoryView};

verus! {

/// Highlighting theme of the view. The editor only stores and echoes it.
#[derive(Clone, Copy, Debug, PartialEq, Eq, Structural)]
pub enum HighlightTheme {
    SolarizedDark,
    Base16Mocha,
    Base16Ocean,
    Base16Eighties,
    InspiredGitHub,
}

impl HighlightTheme {
    /// Whether the theme has a dark background: all but the GitHub one.
    pub fn is_dark(self) -> (r: bool)
        ensures
            r <==> self != HighlightTheme::InspiredGitHub,
    {
        match self {
            HighlightTheme::SolarizedDark
            | HighlightTheme::Base16Mocha
            | HighlightTheme::Base16Ocean
            | HighlightTheme::Base16Eighties => true,
            HighlightTheme::InspiredGitHub => false,
        }
    }
}

/// An event handed to [`Editor::update`].
#[derive(Debug)]
pub enum Message {
    /// The text widget performed an action. `mutating` tells whether the
    /// action edits text; `text`, `line` and `column` are the document and
    /// the cursor (0-based) after it.
    Edit { mutating: bool, text: String, line: usize, column: usize },
    /// A key went down with a command modifier held.
    ModifierPressed,
    /// A key went up with no command modifier held.
    ModifierReleased,
    /// Start an empty document that has no file.
    New,
    /// The user asked to open a file.
    OpenRequested,
    /// A load finished: the path and the content read, or why it failed.
    FileLoaded(Result<(String, String), EditorError>),
    /// The user asked to save.
    SaveRequested,
    /// A save finished: the path written, or why it failed.
    FileSaved(Result<String, EditorError>),
    ThemeSelected(HighlightTheme),
    Undo,
}

/// What the caller performs after a transition. The outcome of a file
/// operation comes back as a new message.
#[derive(Debug, PartialEq, Eq)]
pub enum Effect {
    Nothing,
    /// Let the user pick a file, then load it (result: `FileLoaded`).
    PickAndLoad,
    /// Load the file at this path (result: `FileLoaded`).
    Load(String),
    /// Write `text` to `path`, letting the user pick a path where there is
    /// none (result: `FileSaved`).
    Save { path: Option<String>, text: String },
    /// The document was replaced: show this text, cursor at the start.
    ShowText(String),
}

/// Model of an [`Effect`].
pub enum EffectView {
    Nothing,
    PickAndLoad,
    Load(Seq<char>),
    Save { path: Option<Seq<char>>, text: Seq<char> },
    ShowText(Seq<char>),
}

pub open spec fn opt_view(s: Option<String>) -> Option<Seq<char>> {
    match s {
        Some(p) => Some(p@),
        None => None,
    }
}

impl View for Effect {
    type V = EffectView;

    open spec fn view(&self) -> EffectView {
        match self {
            Effect::Nothing => EffectView::Nothing,
            Effect::PickAndLoad => EffectView::PickAndLoad,
            Effect::Load(p) => EffectView::Load(p@),
            Effect::Save { path, text } => EffectView::Save { path: opt_view(*path), text: text@ },
            Effect::ShowText(t) => EffectView::ShowText(t@),
        }
    }
}

/// What the status bar shows.
#[derive(Debug, PartialEq, Eq)]
pub enum StatusLabel {
    /// The last operation failed reading or writing.
    IoError(std::io::ErrorKind),
    /// The file the document belongs to.
    Path(String),
    /// The document has no file.
    NewFile,
}

/// Model of an [`Editor`].
pub struct EditorView {
    pub path: Option<Seq<char>>,
    pub text: Seq<char>,
    pub line: usize,
    pub column: usize,
    pub error: Option<EditorError>,
    pub theme: HighlightTheme,
    pub dirty: bool,
    pub suspended: bool,
    pub history: HistoryView,
}

impl EditorView {
    pub open spec fn wf(self) -> bool {
        self.history.wf()
    }

    /// The state right after start-up, before the first load completes.
    pub open spec fn initial() -> EditorView {
        EditorView {
            path: None,
            text: Seq::empty(),
            line: 0,
            column: 0,
            error: None,
            theme: HighlightTheme::Base16Mocha,
            dirty: true,
            suspended: false,
            history: HistoryView::baseline(Seq::empty()),
        }
    }

    /// This state with `text` as the document and the cursor at the start.
    pub open spec fn showing(self, text: Seq<char>) -> EditorView {
        EditorView { text: text, line: 0, column: 0, ..self }
    }

    /// The state after one message.
    pub open spec fn step(self, m: Message) -> EditorView {
        match m {
            Message::Edit { mutating, text, line, column } => {
                if self.suspended {
                    self
                } else {
                    EditorView {
                        text: text@,
                        line: line,
                        column: column,
                        error: None,
                        dirty: self.dirty || mutating,
                        history: self.history.record(text@),
                        ..self
                    }
                }
            },
            Message::ModifierPressed => EditorView { suspended: true, ..self },
            Message::ModifierReleased => EditorView { suspended: false, ..self },
            Message::New => EditorView {
                path: None,
                dirty: true,
                history: HistoryView::baseline(Seq::empty()),
                ..self.showing(Seq::empty())
            },
            Message::OpenRequested => self,
            Message::FileLoaded(Ok((path, content))) => EditorView {
                path: Some(path@),
                dirty: false,
                history: HistoryView::baseline(content@),
                ..self.showing(content@)
            },
            Message::FileLoaded(Err(e)) => EditorView { error: Some(e), ..self },
            // The baseline moves when the save is requested, before the write
            // is known to succeed; a failed save leaves it moved.
            Message::SaveRequested => EditorView {
                history: HistoryView::baseline(self.text),
                ..self
            },
            Message::FileSaved(Ok(path)) => EditorView { path: Some(path@), dirty: false, ..self },
            Message::FileSaved(Err(e)) => EditorView { error: Some(e), ..self },
            Message::ThemeSelected(theme) => EditorView { theme: theme, ..self },
            Message::Undo => {
                if self.dirty && self.history.index > 0 {
                    let h = self.history.undo();
                    EditorView {
                        dirty: !h.is_clean(),
                        history: h,
                        ..self.showing(h.snapshots[h.index as int])
                    }
                } else {
                    self
                }
            },
        }
    }

    /// The file operation, or the new document to show, after one message.
    pub open spec fn effect(self, m: Message) -> EffectView {
        match m {
            Message::New => EffectView::ShowText(Seq::empty()),
            Message::OpenRequested => EffectView::PickAndLoad,
            Message::FileLoaded(Ok((_, content))) => EffectView::ShowText(content@),
            Message::SaveRequested => EffectView::Save { path: self.path, text: self.text },
            Message::Undo => {
                if self.dirty && self.history.index > 0 {
                    EffectView::ShowText(self.step(m).text)
                } else {
                    EffectView::Nothing
                }
            },
            _ => EffectView::Nothing,
        }
    }
}

/// The editor: one document, its file, its history and the input gate.
pub struct Editor {
    path: Option<String>,
    text: String,
    line: usize,
    column: usize,
    error: Option<EditorError>,
    theme: HighlightTheme,
    is_dirty: bool,
    gate: InputGate,
    edit_history: EditHistory,
}

impl View for Editor {
    type V = EditorView;

    closed spec fn view(&self) -> EditorView {
        EditorView {
            path: opt_view(self.path),
            text: self.text@,
            line: self.line,
            column: self.column,
            error: self.error,
            theme: self.theme,
            dirty: self.is_dirty,
            suspended: self.gate.suspended,
            history: self.edit_history@,
        }
    }
}

impl Editor {
    /// The editor at start-up, and the load of `default_path` to perform.
    pub fn new(default_path: String) -> (r: (Self, Effect))
        ensures
            r.0@ == EditorView::initial(),
            r.0@.wf(),
            r.1@ == EffectView::Load(default_path@),
    {
        let editor = Editor {
            path: None,
            text: String::new(),
            line: 0,
            column: 0,
            error: None,
            theme: HighlightTheme::Base16Mocha,
            is_dirty: true,
            gate: InputGate::new(),
            edit_history: EditHistory::new(String::new()),
        };
        (editor, Effect::Load(default_path))
    }

    /// Handles one message: moves to the next state and returns what the
    /// caller must perform.
    pub fn update(&mut self, message: Message) -> (r: Effect)
        requires
            old(self)@.wf(),
        ensures
            final(self)@ == old(self)@.step(message),
            final(self)@.wf(),
            r@ == old(self)@.effect(message),
    {
        match message {
            Message::Edit { mutating, text, line, column } => {
                if !self.gate.should_apply_edit() {
                    return Effect::Nothing;
                }
                self.is_dirty = self.is_dirty || mutating;
                self.error = None;
                self.line = line;
                self.column = column;
                self.edit_history.add_edit(text.clone());
                self.text = text;
                Effect::Nothing
            },
            Message::ModifierPressed => {
                self.gate.on_modifier_press();
                Effect::Nothing
            },
            Message::ModifierReleased => {
                self.gate.on_modifier_release();
                Effect::Nothing
            },
            Message::New => {
                self.path = None;
                self.text = String::new();
                self.line = 0;
                self.column = 0;
                self.is_dirty = true;
                self.edit_history = EditHistory::new(String::new());
                Effect::ShowText(String::new())
            },
            Message::OpenRequested => Effect::PickAndLoad,
            Message::FileLoaded(Ok((path, content))) => {
                self.path = Some(path);
                self.text = content.clone();
                self.line = 0;
                self.column = 0;
                self.edit_history = EditHistory::new(content.clone());
                self.is_dirty = false;
                Effect::ShowText(content)
            },
            Message::FileLoaded(Err(error)) => {
                self.error = Some(error);
                Effect::Nothing
            },
            Message::SaveRequested => {
                let text = self.text.clone();
                self.edit_history = EditHistory::new(text.clone());
                Effect::Save { path: self.path.clone(), text }
            },
            Message::FileSaved(Ok(path)) => {
                self.path = Some(path);
                self.is_dirty = false;
                Effect::Nothing
            },
            Message::FileSaved(Err(error)) => {
                self.error = Some(error);
                Effect::Nothing
            },
            Message::ThemeSelected(theme) => {
                self.theme = theme;
                Effect::Nothing
            },
            Message::Undo => {
                if self.is_dirty {
                    if let Some(undo_text) = self.edit_history.undo() {
                        self.text = undo_text.clone();
                        self.line = 0;
                        self.column = 0;
                        if self.edit_history.is_clean() {
                            self.is_dirty = false;
                        }
                        return Effect::ShowText(undo_text);
                    }
                }
                Effect::Nothing
            },
        }
    }

    /// What the status bar shows: a read or write failure if that was the
    /// last error, else the document's path, else that it is a new file.
    pub fn status(&self) -> (r: StatusLabel)
        ensures
            match self@.error {
                Some(EditorError::IoFailed(kind)) => r == StatusLabel::IoError(kind),
                _ => match self@.path {
                    Some(p) => r matches StatusLabel::Path(q) && q@ == p,
                    None => r is NewFile,
                },
            },
    {
        if let Some(EditorError::IoFailed(kind)) = self.error {
            return StatusLabel::IoError(kind);
        }
        match &self.path {
            Some(p) => StatusLabel::Path(p.clone()),
            None => StatusLabel::NewFile,
        }
    }

    /// The document's text.
    pub fn text(&self) -> (r: &String)
        ensures
            r@ == self@.text,
    {
        &self.text
    }

    /// The path of the document's file, if it has one.
    pub fn path(&self) -> (r: &Option<String>)
        ensures
            opt_view(*r) == self@.path,
    {
        &self.path
    }

    /// Cursor line and column, 0-based.
    pub fn cursor(&self) -> (r: (usize, usize))
        ensures
            r == (self@.line, self@.column),
    {
        (self.line, self.column)
    }

    /// The error of the last operation, if it failed and no edit came since.
    pub fn error(&self) -> (r: Option<EditorError>)
        ensures
            r == self@.error,
    {
        self.error
    }

    pub fn theme(&self) -> (r: HighlightTheme)
        ensures
            r == self@.theme,
    {
        self.theme
    }

    /// Whether there are unsaved changes; the save action is offered then.
    pub fn is_dirty(&self) -> (r: bool)
        ensures
            r == self@.dirty,
    {
        self.is_dirty
    }

    /// Whether an edit would be applied now, i.e. no command chord is held.
    pub fn should_apply_edit(&self) -> (r: bool)
        ensures
            r == !self@.suspended,
    {
        self.gate.should_apply_edit()
    }

    pub fn history(&self) -> (r: &EditHistory)
        ensures
            r@ == self@.history,
    {
        &self.edit_history
    }
}

/// Keys that the chord mapping tells apart.
#[derive(Clone, Copy, Debug, PartialEq, Eq, Structural)]
pub enum Key {
    Z,
    S,
    Other,
}

/// The message for a key press: with a command modifier held, Z undoes, S
/// saves and any other key suspends edits; without one, nothing.
pub fn key_press_message(key: Key, command: bool) -> (r: Option<Message>)
    ensures
        !command ==> r is None,
        command && key == Key::Z ==> r == Some(Message::Undo),
        command && key == Key::S ==> r == Some(Message::SaveRequested),
        command && key == Key::Other ==> r == Some(Message::ModifierPressed),
{
    if command {
        match key {
            Key::Z => Some(Message::Undo),
            Key::S => Some(Message::SaveRequested),
            Key::Other => Some(Message::ModifierPressed),
        }
    } else {
        None
    }
}

/// The message for a key release: edits resume once no command modifier is
/// held.
pub fn key_release_message(command: bool) -> (r: Option<Message>)
    ensures
        !command ==> r == Some(Message::ModifierReleased),
        command ==> r is None,
{
    if command {
        None
    } else {
        Some(Message::ModifierReleased)
    }
}

/// The file opened at start-up: `src/main.rs` under `manifest_dir`.
pub fn default_file(manifest_dir: &str) -> (r: String)
    ensures
        r@ == manifest_dir@ + "/src/main.rs"@,
{
    let mut path = String::from_str(manifest_dir);
    path.append("/src/main.rs");
    path
}

/// Edit messages while edits are suspended change nothing: neither the
/// document nor the history.
pub proof fn lemma_suspended_edit_is_noop(s: EditorView, m: Message)
    requires
        s.suspended,
        m is Edit,
    ensures
        s.step(m) == s,
        s.step(m).text == s.text,
        s.step(m).history.snapshots.len() == s.history.snapshots.len(),
{
}

/// A successful load, whatever the state before, leaves the document clean,
/// showing the content, with a history of the content as its only snapshot.
pub proof fn lemma_load_resets(s: EditorView, path: String, content: String)
    ensures
        !s.step(Message::FileLoaded(Ok((path, content)))).dirty,
        s.step(Message::FileLoaded(Ok((path, content)))).text == content@,
        s.step(Message::FileLoaded(Ok((path, content)))).path == Some(path@),
        s.step(Message::FileLoaded(Ok((path, content)))).history == HistoryView::baseline(content@),
        s.step(Message::FileLoaded(Ok((path, content)))).history.snapshots.len() == 1,
        s.step(Message::FileLoaded(Ok((path, content)))).history.is_clean(),
{
}

/// A successful save leaves the document clean and belonging to the path
/// written.
pub proof fn lemma_saved_sets_path(s: EditorView, path: String)
    ensures
        !s.step(Message::FileSaved(Ok(path))).dirty,
        s.step(Message::FileSaved(Ok(path))).path == Some(path@),
{
}

} // verus!
