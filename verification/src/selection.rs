//! The selection state store: which project is open, and whether it has
//! changes that were not saved.

use vstd::prelude::*;

verus! {

/// The project that is open in the editor.
pub struct Project {
    pub id: String,
    pub name: String,
}

/// A signal from the application shell about the project's lifecycle.
pub enum Notification {
    /// A project was opened.
    Opened { id: String, name: String },
    /// The open project was closed.
    Closed,
    /// The content of the project was changed.
    Mutated,
}

/// What the selection state is, as a mathematical value: the identity and
/// the name of the open project, if one is open, and the dirty flag. The
/// name is there exactly when the identity is.
pub struct SelectionView {
    pub project: Option<(Seq<char>, Seq<char>)>,
    pub dirty: bool,
}

impl SelectionView {
    /// The state at start: no project, nothing to save.
    pub open spec fn initial() -> SelectionView {
        SelectionView { project: None, dirty: false }
    }

    /// The identity of the open project.
    pub open spec fn current_project_id(self) -> Option<Seq<char>> {
        match self.project {
            Some(p) => Some(p.0),
            None => None,
        }
    }

    /// The name of the open project.
    pub open spec fn current_project_name(self) -> Option<Seq<char>> {
        match self.project {
            Some(p) => Some(p.1),
            None => None,
        }
    }

    /// The state after a project was opened.
    pub open spec fn opened(self, id: Seq<char>, name: Seq<char>) -> SelectionView {
        SelectionView { project: Some((id, name)), dirty: false }
    }

    /// The state after the project was closed.
    pub open spec fn closed(self) -> SelectionView {
        SelectionView { project: None, dirty: false }
    }

    /// The state after the content was changed.
    pub open spec fn mutated(self) -> SelectionView {
        SelectionView { project: self.project, dirty: true }
    }

    /// The title that the window shows in this state.
    pub open spec fn window_title(self) -> Seq<char> {
        match self.project {
            None => "Silex"@,
            Some(p) => if self.dirty {
                "\u{2022} "@ + p.1 + " \u{2014} Silex"@
            } else {
                p.1 + " \u{2014} Silex"@
            },
        }
    }
}

/// The state after `notification`.
pub open spec fn notified(state: SelectionView, notification: Notification) -> SelectionView {
    match notification {
        Notification::Opened { id, name } => state.opened(id@, name@),
        Notification::Closed => state.closed(),
        Notification::Mutated => state.mutated(),
    }
}

/// The currently open project and its dirty flag.
pub struct SelectionState {
    project: Option<Project>,
    dirty: bool,
}

impl View for SelectionState {
    type V = SelectionView;

    closed spec fn view(&self) -> SelectionView {
        SelectionView {
            project: match self.project {
                Some(p) => Some((p.id@, p.name@)),
                None => None,
            },
            dirty: self.dirty,
        }
    }
}

impl SelectionState {
    /// The state at start: no project, nothing to save.
    pub fn new() -> (state: SelectionState)
        ensures
            state@ == SelectionView::initial(),
    {
        SelectionState { project: None, dirty: false }
    }

    /// Whether a project is open.
    pub fn has_project(&self) -> (open: bool)
        ensures
            open == self@.project is Some,
    {
        self.project.is_some()
    }

    /// The identity of the open project.
    pub fn current_project_id(&self) -> (id: Option<String>)
        ensures
            match id {
                Some(s) => self@.current_project_id() == Some(s@),
                None => self@.current_project_id() is None,
            },
    {
        match &self.project {
            Some(p) => Some(p.id.clone()),
            None => None,
        }
    }

    /// The name of the open project.
    pub fn current_project_name(&self) -> (name: Option<String>)
        ensures
            match name {
                Some(s) => self@.current_project_name() == Some(s@),
                None => self@.current_project_name() is None,
            },
    {
        match &self.project {
            Some(p) => Some(p.name.clone()),
            None => None,
        }
    }

    /// Whether the project has changes that were not saved.
    pub fn dirty(&self) -> (dirty: bool)
        ensures
            dirty == self@.dirty,
    {
        self.dirty
    }

    /// Records that the project `id`, named `name`, was opened.
    pub fn set_current_project(&mut self, id: String, name: String)
        ensures
            final(self)@ == old(self)@.opened(id@, name@),
    {
        self.project = Some(Project { id, name });
        self.dirty = false;
    }

    /// Records that the project was closed.
    pub fn clear_current_project(&mut self)
        ensures
            final(self)@ == old(self)@.closed(),
    {
        self.project = None;
        self.dirty = false;
    }

    /// Records that the content was changed.
    pub fn mark_unsaved(&mut self)
        ensures
            final(self)@ == old(self)@.mutated(),
    {
        self.dirty = true;
    }

    /// Applies one lifecycle notification.
    pub fn notify(&mut self, notification: Notification)
        ensures
            final(self)@ == notified(old(self)@, notification),
    {
        match notification {
            Notification::Opened { id, name } => self.set_current_project(id, name),
            Notification::Closed => self.clear_current_project(),
            Notification::Mutated => self.mark_unsaved(),
        }
    }

    /// The title that the window shows in this state: the application's
    /// name alone without a project, else the project's name before it,
    /// with a bullet in front while there are changes to save.
    pub fn window_title(&self) -> (title: String)
        ensures
            title@ == self@.window_title(),
    {
        match &self.project {
            None => String::from_str("Silex"),
            Some(p) => {
                if self.dirty {
                    let mut title = String::from_str("\u{2022} ");
                    title.append(p.name.as_str());
                    title.append(" \u{2014} Silex");
                    title
                } else {
                    let mut title = p.name.clone();
                    title.append(" \u{2014} Silex");
                    title
                }
            },
        }
    }
}

/// After an open or a close there is nothing to save, and after a change
/// there is; the name of the project is known exactly when its identity is.
pub proof fn law_notifications(state: SelectionView, notification: Notification)
    ensures
        notification is Opened ==> !notified(state, notification).dirty && notified(
            state,
            notification,
        ).current_project_id() is Some,
        notification is Closed ==> notified(state, notification) == SelectionView::initial(),
        notification is Mutated ==> notified(state, notification).dirty && notified(
            state,
            notification,
        ).project == state.project,
        notified(state, notification).current_project_id() is None <==> notified(
            state,
            notification,
        ).current_project_name() is None,
{
}

} // verus!
