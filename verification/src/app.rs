//! The session: two selection models (note files, lines of the open note),
//! the in-flight edit buffer, and the key-to-transition logic of the control
//! loop.
//!
//! The session itself performs no reading or writing. Each key produces one
//! state transition and one [`Action`]; the caller performs the action
//! (read the selected file, persist an edited line, feed a key to its input
//! widget) and hands the outcome back through [`App::update_content`],
//! [`App::update_content_with_selected`] and [`App::set_input`].

use vstd::prelude::*;

use crate::list::{next_index, prev_index, read_index, StatefulList};

verus! {

/// Which pane holds the focus.
#[derive(Clone, Copy, Debug, PartialEq, Eq, Structural)]
pub enum Window {
    FileList,
    Content,
}

/// Whether a line edit is in flight.
#[derive(Clone, Copy, Debug, PartialEq, Eq, Structural)]
pub enum InputMode {
    Normal,
    Editing,
}

/// A key event, as the session reads it; decoding terminal events into this
/// shape is the caller's business.
#[derive(Clone, Copy, Debug, PartialEq, Eq, Structural)]
pub enum Key {
    Char(char),
    Enter,
    Esc,
    Other,
}

/// What the caller must do after a step.
#[derive(Clone, Copy, Debug, PartialEq, Eq, Structural)]
pub enum Action {
    /// Nothing beyond the state change.
    Idle,
    /// Leave the session.
    Quit,
    /// Read the file now selected in the file list and hand its lines to
    /// [`App::update_content`].
    LoadCurrent,
    /// The edit buffer was seeded from the current line; mirror it into the
    /// input widget.
    BeginEdit,
    /// Persist the edit buffer as line `i` of the open note, then reload it
    /// through [`App::update_content_with_selected`].
    CommitEdit(usize),
    /// An editing key: feed it to the input widget and mirror the buffer
    /// back through [`App::set_input`].
    EditInput,
}

/// One browsing session.
pub struct App {
    /// The note files of the working directory.
    pub files: StatefulList,
    /// Cursor state over the lines of the open note.
    pub content_state: StatefulList,
    /// The lines of the open note.
    pub content: Vec<String>,
    /// The directory the notes live in.
    pub working_directory: String,
    /// Which pane holds the focus.
    pub focused_window: Window,
    /// Whether a line edit is in flight.
    pub input_mode: InputMode,
    /// The in-flight edit buffer; meaningful while editing.
    pub input: String,
}

impl App {
    /// A session is well formed when both cursors sit inside their items,
    /// the file list is non-empty, the content cursor ranges over the lines
    /// of the open note, a focused non-empty content pane has a highlighted
    /// line, and an edit in flight always has a line to land on.
    pub open spec fn wf(self) -> bool {
        &&& self.files.wf()
        &&& self.content_state.wf()
        &&& self.files.items_view().len() > 0
        &&& self.content_state.items_view() == self.content.deep_view()
        &&& (self.focused_window is Content && self.content.deep_view().len() > 0
            ==> self.content_state.cursor_view() is Some)
        &&& (self.input_mode is Editing ==> self.focused_window is Content
            && self.content_state.cursor_view() is Some)
    }

    /// A fresh session over the files of the working directory and the lines
    /// of the first file: the file list starts with its first entry
    /// selected, the content pane unhighlighted, no edit in flight. An empty
    /// directory is refused outright rather than indexed into.
    pub fn new(
        directory_files: Vec<String>,
        first_file_lines: Vec<String>,
        working_directory: String,
    ) -> (r: Option<App>)
        ensures
            directory_files@.len() == 0 <==> r is None,
            r matches Some(app) ==> {
                &&& app.wf()
                &&& app.files.items_view() == directory_files.deep_view()
                &&& app.files.cursor_view() == Some(0int)
                &&& app.content.deep_view() == first_file_lines.deep_view()
                &&& app.content_state.items_view() == first_file_lines.deep_view()
                &&& app.content_state.cursor_view() is None
                &&& app.working_directory@ == working_directory@
                &&& app.focused_window is FileList
                &&& app.input_mode is Normal
                &&& app.input@ == Seq::<char>::empty()
            },
    {
        if directory_files.len() == 0 {
            None
        } else {
            let content = first_file_lines;
            let content_clone = clone_lines(&content);
            Some(
                App {
                    files: StatefulList::new(directory_files, true),
                    content_state: StatefulList::new(content_clone, false),
                    content,
                    working_directory,
                    focused_window: Window::FileList,
                    input_mode: InputMode::Normal,
                    input: String::new(),
                },
            )
        }
    }

    /// The path of the file now selected in the file list: the working
    /// directory, one separator, the file name.
    pub fn get_current_file_path(&self) -> (r: String)
        requires
            self.wf(),
        ensures
            r@ == self.working_directory@ + seq!['/'] + self.files.items_view()[read_index(
                self.files.cursor_view(),
            )],
    {
        let mut r = self.working_directory.clone();
        r.append("/");
        let name = self.files.get_current();
        r.append(name.as_str());
        proof {
            reveal_strlit("/");
            assert("/"@ =~= seq!['/']);
            assert(r@ =~= self.working_directory@ + seq!['/'] + name@);
        }
        r
    }

    /// Put the freshly read lines of the selected file on display; the
    /// content cursor resets to unset.
    pub fn update_content(&mut self, lines: Vec<String>)
        requires
            old(self).wf(),
            old(self).input_mode is Normal,
            old(self).focused_window is FileList || lines@.len() == 0,
        ensures
            final(self).wf(),
            final(self).content.deep_view() == lines.deep_view(),
            final(self).content_state.items_view() == lines.deep_view(),
            final(self).content_state.cursor_view() is None,
            final(self).files == old(self).files,
            final(self).working_directory == old(self).working_directory,
            final(self).focused_window == old(self).focused_window,
            final(self).input_mode == old(self).input_mode,
            final(self).input == old(self).input,
    {
        let lines_clone = clone_lines(&lines);
        self.content = lines;
        self.content_state.set_items(lines_clone);
    }

    /// Put the freshly reloaded lines on display and keep line `index`
    /// highlighted, so a just-edited line stays selected.
    pub fn update_content_with_selected(&mut self, lines: Vec<String>, index: usize)
        requires
            old(self).wf(),
            index < lines@.len(),
        ensures
            final(self).wf(),
            final(self).content.deep_view() == lines.deep_view(),
            final(self).content_state.items_view() == lines.deep_view(),
            final(self).content_state.cursor_view() == Some(index as int),
            final(self).files == old(self).files,
            final(self).working_directory == old(self).working_directory,
            final(self).focused_window == old(self).focused_window,
            final(self).input_mode == old(self).input_mode,
            final(self).input == old(self).input,
    {
        let lines_clone = clone_lines(&lines);
        proof {
            assert(lines_clone@.len() == lines_clone.deep_view().len());
            assert(lines@.len() == lines.deep_view().len());
        }
        self.content = lines;
        self.content_state.set_items_with_index(lines_clone, index);
    }

    /// Mirror the caller's input widget into the edit buffer.
    pub fn set_input(&mut self, value: String)
        ensures
            final(self).wf() == old(self).wf(),
            final(self).input@ == value@,
            final(self).files == old(self).files,
            final(self).content_state == old(self).content_state,
            final(self).content == old(self).content,
            final(self).working_directory == old(self).working_directory,
            final(self).focused_window == old(self).focused_window,
            final(self).input_mode == old(self).input_mode,
    {
        self.input = value;
    }

    /// One step of the session: at most one state transition and one action
    /// per key, as [`step_spec`] lays out.
    pub fn handle_key(&mut self, key: Key) -> (r: Action)
        requires
            old(self).wf(),
        ensures
            final(self).wf(),
            step_spec(*old(self), key, *final(self), r),
    {
        match self.focused_window {
            Window::FileList => match key {
                Key::Char(c) => {
                    if c == 'q' {
                        Action::Quit
                    } else if c == 'e' {
                        self.focused_window = Window::Content;
                        if self.content.len() > 0 {
                            self.content_state.next();
                        }
                        Action::Idle
                    } else if c == 'j' {
                        self.files.next();
                        Action::LoadCurrent
                    } else if c == 'k' {
                        self.files.previous();
                        Action::LoadCurrent
                    } else {
                        Action::Idle
                    }
                },
                _ => Action::Idle,
            },
            Window::Content => match self.input_mode {
                InputMode::Normal => match key {
                    Key::Char(c) => {
                        if c == 'q' {
                            self.focused_window = Window::FileList;
                            self.content_state.unselect();
                            Action::Idle
                        } else if c == 'j' {
                            if self.content.len() > 0 {
                                self.content_state.next();
                            }
                            Action::Idle
                        } else if c == 'k' {
                            if self.content.len() > 0 {
                                self.content_state.previous();
                            }
                            Action::Idle
                        } else if c == 'e' {
                            if self.content.len() > 0 {
                                self.input = self.content_state.get_current();
                                self.input_mode = InputMode::Editing;
                                Action::BeginEdit
                            } else {
                                Action::Idle
                            }
                        } else {
                            Action::Idle
                        }
                    },
                    _ => Action::Idle,
                },
                InputMode::Editing => match key {
                    Key::Enter => {
                        let index: usize = match self.content_state.get_current_index() {
                            Some(i) => i,
                            None => unreached(),
                        };
                        self.input_mode = InputMode::Normal;
                        Action::CommitEdit(index)
                    },
                    Key::Esc => {
                        self.input_mode = InputMode::Normal;
                        Action::Idle
                    },
                    _ => Action::EditInput,
                },
            },
        }
    }
}

/// The transition relation of [`App::handle_key`]: given the session before
/// the step and the key, it pins the session after the step and the action.
pub open spec fn step_spec(pre: App, key: Key, post: App, action: Action) -> bool {
    if pre.focused_window is FileList {
        step_file_list(pre, key, post, action)
    } else if pre.input_mode is Normal {
        step_content_normal(pre, key, post, action)
    } else {
        step_editing(pre, key, post, action)
    }
}

/// Focus on the file list: `q` quits, `e` moves focus to the content pane
/// (highlighting its first line when there is one), `j`/`k` move the file
/// cursor circularly and ask for the newly selected file to be loaded;
/// everything else is ignored.
pub open spec fn step_file_list(pre: App, key: Key, post: App, action: Action) -> bool {
    if key == Key::Char('q') {
        post == pre && action is Quit
    } else if key == Key::Char('e') {
        &&& post.focused_window is Content
        &&& (if pre.content.deep_view().len() > 0 {
            post.content_state.items_view() == pre.content_state.items_view()
                && post.content_state.cursor_view() == Some(
                next_index(
                    pre.content_state.cursor_view(),
                    pre.content_state.items_view().len() as int,
                ),
            )
        } else {
            post.content_state == pre.content_state
        })
        &&& post.files == pre.files
        &&& post.content == pre.content
        &&& post.working_directory == pre.working_directory
        &&& post.input_mode == pre.input_mode
        &&& post.input == pre.input
        &&& action is Idle
    } else if key == Key::Char('j') || key == Key::Char('k') {
        &&& post.files.items_view() == pre.files.items_view()
        &&& post.files.cursor_view() == Some(
            if key == Key::Char('j') {
                next_index(pre.files.cursor_view(), pre.files.items_view().len() as int)
            } else {
                prev_index(pre.files.cursor_view(), pre.files.items_view().len() as int)
            },
        )
        &&& post.content_state == pre.content_state
        &&& post.content == pre.content
        &&& post.working_directory == pre.working_directory
        &&& post.focused_window == pre.focused_window
        &&& post.input_mode == pre.input_mode
        &&& post.input == pre.input
        &&& action is LoadCurrent
    } else {
        post == pre && action is Idle
    }
}

/// Focus on the content pane, no edit in flight: `q` returns focus to the
/// file list and drops the highlight, `j`/`k` move the line cursor
/// circularly, `e` seeds the edit buffer from the highlighted line and opens
/// an edit; on a note with no lines the cursor stays put and no edit opens.
pub open spec fn step_content_normal(pre: App, key: Key, post: App, action: Action) -> bool {
    if key == Key::Char('q') {
        &&& post.focused_window is FileList
        &&& post.content_state.items_view() == pre.content_state.items_view()
        &&& post.content_state.cursor_view() is None
        &&& post.files == pre.files
        &&& post.content == pre.content
        &&& post.working_directory == pre.working_directory
        &&& post.input_mode == pre.input_mode
        &&& post.input == pre.input
        &&& action is Idle
    } else if key == Key::Char('j') || key == Key::Char('k') {
        &&& (if pre.content.deep_view().len() > 0 {
            post.content_state.items_view() == pre.content_state.items_view()
                && post.content_state.cursor_view() == Some(
                if key == Key::Char('j') {
                    next_index(
                        pre.content_state.cursor_view(),
                        pre.content_state.items_view().len() as int,
                    )
                } else {
                    prev_index(
                        pre.content_state.cursor_view(),
                        pre.content_state.items_view().len() as int,
                    )
                },
            )
        } else {
            post.content_state == pre.content_state
        })
        &&& post.files == pre.files
        &&& post.content == pre.content
        &&& post.working_directory == pre.working_directory
        &&& post.focused_window == pre.focused_window
        &&& post.input_mode == pre.input_mode
        &&& post.input == pre.input
        &&& action is Idle
    } else if key == Key::Char('e') {
        if pre.content.deep_view().len() > 0 {
            &&& post.input@ == pre.content.deep_view()[read_index(pre.content_state.cursor_view())]
            &&& post.input_mode is Editing
            &&& post.files == pre.files
            &&& post.content_state == pre.content_state
            &&& post.content == pre.content
            &&& post.working_directory == pre.working_directory
            &&& post.focused_window == pre.focused_window
            &&& action is BeginEdit
        } else {
            post == pre && action is Idle
        }
    } else {
        post == pre && action is Idle
    }
}

/// An edit in flight: `Enter` closes it and asks for the buffer to be
/// persisted as the highlighted line, `Esc` discards it; any other key
/// belongs to the input widget.
pub open spec fn step_editing(pre: App, key: Key, post: App, action: Action) -> bool {
    if key == Key::Enter {
        &&& (action matches Action::CommitEdit(i) && pre.content_state.cursor_view() == Some(
            i as int,
        ))
        &&& post.input_mode is Normal
        &&& post.files == pre.files
        &&& post.content_state == pre.content_state
        &&& post.content == pre.content
        &&& post.working_directory == pre.working_directory
        &&& post.focused_window == pre.focused_window
        &&& post.input == pre.input
    } else if key == Key::Esc {
        &&& post.input_mode is Normal
        &&& post.files == pre.files
        &&& post.content_state == pre.content_state
        &&& post.content == pre.content
        &&& post.working_directory == pre.working_directory
        &&& post.focused_window == pre.focused_window
        &&& post.input == pre.input
        &&& action is Idle
    } else {
        post == pre && action is EditInput
    }
}

/// An element-for-element copy of a line vector.
fn clone_lines(lines: &Vec<String>) -> (r: Vec<String>)
    ensures
        r.deep_view() == lines.deep_view(),
{
    let mut r: Vec<String> = Vec::new();
    let mut i: usize = 0;
    proof {
        assert(r.deep_view() =~= lines.deep_view().take(0));
    }
    while i < lines.len()
        invariant
            i <= lines.len(),
            r.deep_view() == lines.deep_view().take(i as int),
        decreases lines.len() - i,
    {
        let ghost pre = r.deep_view();
        r.push(lines[i].clone());
        proof {
            assert(r.deep_view() =~= pre.push(lines.deep_view()[i as int]));
            assert(lines.deep_view().take(i + 1) =~= lines.deep_view().take(i as int).push(
                lines.deep_view()[i as int],
            ));
        }
        i = i + 1;
    }
    proof {
        assert(lines.deep_view().take(lines@.len() as int) =~= lines.deep_view());
    }
    r
}

} // verus!
