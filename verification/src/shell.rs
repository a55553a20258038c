//! The editor's state and what it does on each command. The window, the
//! dialogs and the files are the caller's: it hands over what the user asked
//! for and what a file held, and is told what to do next.

use crate::error::{LoadError, SaveError};
use crate::file::FileRead;
use crate::format::is_table_shape;
use crate::json::parsed_json;
use crate::keyed::TableView;
use crate::text_model::{edited, load_outcome, text_of_table, DqxTranslationsModel};
use vstd::prelude::*;

verus! {

/// What the user asked for.
#[derive(Debug, Clone)]
pub enum DqxTextAppMessage {
    /// Open a file.
    DoOpen,
    /// Save the table to the file it came from.
    DoSave,
    /// Save the table to a file that the user picks.
    DoSaveAs,
    /// Leave the editor.
    DoQuit,
    /// Change a text: the entry's identifier, the language tag, the new text.
    DoEditField(String, String, String),
}

/// What the caller has to do after a command.
#[derive(Debug, PartialEq, Eq)]
pub enum ShellAction {
    /// Show the table again; nothing else.
    Redraw,
    /// Let the user pick a file, read it, and hand what was read to
    /// `open_file`.
    ChooseFileToOpen,
    /// Write this text to the file that the table came from.
    WriteFile(String),
    /// Let the user pick a file, and write this text to it.
    ChooseFileToSave(String),
    /// Tell the user that the table could not be saved.
    ReportSaveError(SaveError),
    /// Close the window.
    Quit,
}

/// An action as mathematics.
pub ghost enum ActionView {
    Redraw,
    ChooseFileToOpen,
    WriteFile(Seq<char>),
    ChooseFileToSave(Seq<char>),
    ReportSaveError(SaveError),
    Quit,
}

impl View for ShellAction {
    type V = ActionView;

    open spec fn view(&self) -> ActionView {
        match self {
            ShellAction::Redraw => ActionView::Redraw,
            ShellAction::ChooseFileToOpen => ActionView::ChooseFileToOpen,
            ShellAction::WriteFile(text) => ActionView::WriteFile(text@),
            ShellAction::ChooseFileToSave(text) => ActionView::ChooseFileToSave(text@),
            ShellAction::ReportSaveError(error) => ActionView::ReportSaveError(*error),
            ShellAction::Quit => ActionView::Quit,
        }
    }
}

/// The editor's state: the directory of the file that was opened last, and
/// the table, once one is loaded.
#[derive(Debug)]
pub struct DqxTextApp {
    search_path: String,
    data: Option<DqxTranslationsModel>,
}

/// The editor's state as mathematics. Without a table the editor is empty.
pub ghost struct ShellView {
    pub search_path: Seq<char>,
    pub table: Option<TableView>,
}

impl View for DqxTextApp {
    type V = ShellView;

    closed spec fn view(&self) -> ShellView {
        ShellView {
            search_path: self.search_path@,
            table: match self.data {
                Some(table) => Some(table@),
                None => None,
            },
        }
    }
}

/// The state after a command. Only an edit changes it, and only the table.
pub open spec fn state_after(state: ShellView, message: DqxTextAppMessage) -> ShellView {
    match (message, state.table) {
        (DqxTextAppMessage::DoEditField(id, tag, text), Some(table)) => ShellView {
            search_path: state.search_path,
            table: Some(edited(table, id@, tag@, text@)),
        },
        _ => state,
    }
}

/// The action that a command calls for in a state. A command to save hands
/// out the JSON text of the table that is loaded, or the report that there is
/// no such text; in an empty editor there is nothing to save.
pub open spec fn action_for(state: ShellView, message: DqxTextAppMessage) -> ActionView {
    match message {
        DqxTextAppMessage::DoOpen => ActionView::ChooseFileToOpen,
        DqxTextAppMessage::DoSave => match state.table {
            Some(table) => match text_of_table(table) {
                Some(text) => ActionView::WriteFile(text),
                None => ActionView::ReportSaveError(SaveError::Encode),
            },
            None => ActionView::Redraw,
        },
        DqxTextAppMessage::DoSaveAs => match state.table {
            Some(table) => match text_of_table(table) {
                Some(text) => ActionView::ChooseFileToSave(text),
                None => ActionView::ReportSaveError(SaveError::Encode),
            },
            None => ActionView::Redraw,
        },
        DqxTextAppMessage::DoQuit => ActionView::Quit,
        DqxTextAppMessage::DoEditField(_, _, _) => ActionView::Redraw,
    }
}

/// The state after a file was read as `read` and loaded: the file's directory
/// is remembered; the table is the one that was loaded, or, where loading
/// failed, the one that was there before.
pub open spec fn state_after_open(state: ShellView, parent: Seq<char>, read: FileRead) -> ShellView {
    ShellView {
        search_path: parent,
        table: match load_outcome(read) {
            Ok(table) => Some(table),
            Err(_) => state.table,
        },
    }
}

/// A load that fails, at whatever stage, leaves the table as it was: a table
/// that was loaded before stays, and an empty editor stays empty.
pub proof fn law_failed_load_keeps_table(state: ShellView, parent: Seq<char>, read: FileRead)
    requires
        load_outcome(read) is Err,
    ensures
        state_after_open(state, parent, read).table == state.table,
{
}

/// An editor with a table never becomes empty by opening a file, and an
/// empty one gets a table only from a file that loads.
pub proof fn law_loaded_only_by_loading(state: ShellView, parent: Seq<char>, read: FileRead)
    ensures
        state.table is Some ==> state_after_open(state, parent, read).table is Some,
        state.table is None && state_after_open(state, parent, read).table is Some
            ==> load_outcome(read) is Ok,
        load_outcome(read) matches Ok(table) ==> state_after_open(state, parent, read).table
            == Some(table),
{
}

/// A file that cannot be opened gives the error `Open`, and one that cannot be
/// read to its end the error `Read`. Either way the table stays as it was.
pub proof fn law_unread_file_keeps_table(state: ShellView, parent: Seq<char>)
    ensures
        load_outcome(FileRead::OpenFailed) == Err::<TableView, LoadError>(LoadError::Open),
        load_outcome(FileRead::ReadFailed) == Err::<TableView, LoadError>(LoadError::Read),
        state_after_open(state, parent, FileRead::OpenFailed).table == state.table,
        state_after_open(state, parent, FileRead::ReadFailed).table == state.table,
{
}

/// Text that is no JSON gives the error `Parse`, and the table stays as it
/// was.
pub proof fn law_invalid_json_keeps_table(state: ShellView, parent: Seq<char>, text: String)
    requires
        parsed_json(text@) is None,
    ensures
        load_outcome(FileRead::Text(text)) == Err::<TableView, LoadError>(LoadError::Parse),
        state_after_open(state, parent, FileRead::Text(text)).table == state.table,
{
}

/// JSON of another shape than an object of objects of strings gives the error
/// `Parse`, and the table stays as it was.
pub proof fn law_wrong_shape_keeps_table(state: ShellView, parent: Seq<char>, text: String)
    requires
        parsed_json(text@) matches Some(value) && !is_table_shape(value),
    ensures
        load_outcome(FileRead::Text(text)) == Err::<TableView, LoadError>(LoadError::Parse),
        state_after_open(state, parent, FileRead::Text(text)).table == state.table,
{
}

/// No command but an edit changes the state, and none changes the directory
/// that is remembered or turns a loaded editor into an empty one.
pub proof fn law_commands_keep_the_table(state: ShellView, message: DqxTextAppMessage)
    ensures
        !(message is DoEditField) ==> state_after(state, message) == state,
        state_after(state, message).search_path == state.search_path,
        state_after(state, message).table is Some <==> state.table is Some,
{
}

impl Default for DqxTextApp {
    /// The editor as it starts: empty, with no directory remembered.
    fn default() -> (app: Self)
        ensures
            app@ == (ShellView { search_path: Seq::empty(), table: None }),
    {
        DqxTextApp { search_path: String::new(), data: None }
    }
}

impl DqxTextApp {
    /// The editor as it starts: empty, with the directory that an earlier run
    /// left behind, if there is one.
    pub fn new(stored_search_path: Option<String>) -> (app: Self)
        ensures
            app@ == (ShellView {
                search_path: match stored_search_path {
                    Some(path) => path@,
                    None => Seq::empty(),
                },
                table: None,
            }),
    {
        match stored_search_path {
            Some(path) => DqxTextApp { search_path: path, data: None },
            None => DqxTextApp { search_path: String::new(), data: None },
        }
    }

    /// The window's title.
    pub fn title(&self) -> (title: String)
        ensures
            title@ == "DQX Translation Helper"@,
    {
        "DQX Translation Helper".to_owned()
    }

    /// The directory of the file that was opened last.
    pub fn search_path(&self) -> (path: &String)
        ensures
            path@ == self@.search_path,
    {
        &self.search_path
    }

    /// The table, once one is loaded.
    pub fn data(&self) -> (table: Option<&DqxTranslationsModel>)
        ensures
            match table {
                Some(t) => self@.table == Some(t@),
                None => self@.table is None,
            },
    {
        match &self.data {
            Some(table) => Some(table),
            None => None,
        }
    }

    /// Takes in a file that the user picked: `parent` is the file's
    /// directory, `read` what reading the file gave. The directory is
    /// remembered. A table that loads replaces the one that was there; where
    /// loading fails, the error is returned and the table stays as it was.
    pub fn open_file(&mut self, parent: &str, read: &FileRead) -> (loaded: Result<(), LoadError>)
        ensures
            final(self)@ == state_after_open(old(self)@, parent@, *read),
            match loaded {
                Ok(_) => load_outcome(*read) is Ok,
                Err(e) => load_outcome(*read) == Err::<TableView, LoadError>(e) && final(self)@.table
                    == old(self)@.table,
            },
    {
        self.search_path = parent.to_owned();
        match DqxTranslationsModel::from_read(read) {
            Ok(table) => {
                self.data = Some(table);
                Ok(())
            },
            Err(error) => Err(error),
        }
    }

    /// Carries out a command and says what the caller has to do next. Only an
    /// edit changes the state; a command to save hands out the table's JSON
    /// text and leaves the table alone, whether or not there is such a text.
    pub fn update(&mut self, message: DqxTextAppMessage) -> (action: ShellAction)
        ensures
            final(self)@ == state_after(old(self)@, message),
            action@ == action_for(old(self)@, message),
    {
        match message {
            DqxTextAppMessage::DoOpen => ShellAction::ChooseFileToOpen,
            DqxTextAppMessage::DoSave => match &self.data {
                Some(table) => match table.to_json_text() {
                    Ok(text) => ShellAction::WriteFile(text),
                    Err(error) => ShellAction::ReportSaveError(error),
                },
                None => ShellAction::Redraw,
            },
            DqxTextAppMessage::DoSaveAs => match &self.data {
                Some(table) => match table.to_json_text() {
                    Ok(text) => ShellAction::ChooseFileToSave(text),
                    Err(error) => ShellAction::ReportSaveError(error),
                },
                None => ShellAction::Redraw,
            },
            DqxTextAppMessage::DoQuit => ShellAction::Quit,
            DqxTextAppMessage::DoEditField(id, tag, text) => {
                let mut data = None;
                std::mem::swap(&mut data, &mut self.data);
                match data {
                    Some(mut table) => {
                        table.set_text(&id, &tag, text);
                        self.data = Some(table);
                    },
                    None => {},
                }
                ShellAction::Redraw
            },
        }
    }
}

} // verus!
