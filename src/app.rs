//! A switcher that hosts exactly one of the two exercises at a time and routes
//! messages to it.

use vstd::prelude::*;
use crate::counter::{self, Counter};
use crate::todo::{self, TodoApp, TodoModel};

verus! {

/// Which exercise is shown.
#[derive(Debug, Clone, Copy, PartialEq, Eq, Structural)]
pub enum AppChoice {
    Counter,
    Todo,
}

/// The label under which a choice is offered.
pub open spec fn label_of(c: AppChoice) -> Seq<char> {
    match c {
        AppChoice::Counter => "Counter"@,
        AppChoice::Todo => "Todo"@,
    }
}

impl AppChoice {
    /// The label under which this choice is offered.
    pub fn label(&self) -> (r: &'static str)
        ensures
            r@ == label_of(*self),
    {
        match self {
            AppChoice::Counter => "Counter",
            AppChoice::Todo => "Todo",
        }
    }
}

/// The events the switcher reacts to: a new choice, or a message for one of
/// the exercises.
#[derive(Debug, Clone)]
pub enum AppMessage {
    SelectedApp(AppChoice),
    Counter(counter::Message),
    Todo(todo::Message),
}

/// The exercise that is running, with its state.
#[derive(Debug, Clone)]
pub enum ActiveApp {
    Counter(Counter),
    Todo(TodoApp),
}

/// What the running exercise holds.
pub enum ActiveModel {
    Counter(i32),
    Todo(TodoModel),
}

/// The switcher: the running exercise and the choice that selected it.
#[derive(Debug, Clone)]
pub struct MainApp {
    active: ActiveApp,
    selected_app: AppChoice,
}

/// What the switcher holds.
pub struct MainModel {
    pub active: ActiveModel,
    pub selected: AppChoice,
}

impl View for ActiveApp {
    type V = ActiveModel;

    open spec fn view(&self) -> ActiveModel {
        match self {
            ActiveApp::Counter(c) => ActiveModel::Counter(c.value),
            ActiveApp::Todo(t) => ActiveModel::Todo(t@),
        }
    }
}

impl View for MainApp {
    type V = MainModel;

    closed spec fn view(&self) -> MainModel {
        MainModel { active: self.active@, selected: self.selected_app }
    }
}

/// The state of a freshly started exercise of the given choice.
pub open spec fn fresh(c: AppChoice) -> ActiveModel {
    match c {
        AppChoice::Counter => ActiveModel::Counter(0),
        AppChoice::Todo => ActiveModel::Todo(TodoModel::empty()),
    }
}

impl MainModel {
    /// The choice names the exercise that runs, and a todo list has text in
    /// every item.
    pub open spec fn wf(self) -> bool {
        match self.active {
            ActiveModel::Counter(_) => self.selected == AppChoice::Counter,
            ActiveModel::Todo(t) => self.selected == AppChoice::Todo && t.wf(),
        }
    }
}

/// The switcher after handling `m`, when it was `s`.
///
/// A choice discards the running exercise and starts a fresh one; a message
/// for the exercise that is not running is dropped.
pub open spec fn step(s: MainModel, m: AppMessage) -> MainModel {
    match m {
        AppMessage::SelectedApp(c) => MainModel { active: fresh(c), selected: c },
        AppMessage::Counter(cm) => match s.active {
            ActiveModel::Counter(v) => MainModel {
                active: ActiveModel::Counter(counter::step(v, cm)),
                selected: s.selected,
            },
            ActiveModel::Todo(_) => s,
        },
        AppMessage::Todo(tm) => match s.active {
            ActiveModel::Todo(t) => MainModel {
                active: ActiveModel::Todo(todo::step(t, tm)),
                selected: s.selected,
            },
            ActiveModel::Counter(_) => s,
        },
    }
}

/// Leaving a todo list for the counter and coming back gives an empty list
/// with an empty entry field: nothing of the earlier list is kept.
pub proof fn lemma_todo_not_kept_across_switch(s: MainModel)
    requires
        s.active is Todo,
    ensures
        ({
            let back = step(step(s, AppMessage::SelectedApp(AppChoice::Counter)),
                AppMessage::SelectedApp(AppChoice::Todo));
            &&& back.selected == AppChoice::Todo
            &&& back.active == ActiveModel::Todo(TodoModel::empty())
            &&& TodoModel::empty().items.len() == 0
            &&& TodoModel::empty().input.len() == 0
        }),
{
}

impl MainApp {
    /// A switcher showing a fresh counter.
    pub fn new() -> (r: Self)
        ensures
            r@ == (MainModel { active: fresh(AppChoice::Counter), selected: AppChoice::Counter }),
            r@.wf(),
    {
        MainApp { active: ActiveApp::Counter(Counter::new()), selected_app: AppChoice::Counter }
    }

    /// Handles one message.
    pub fn update(&mut self, message: AppMessage)
        ensures
            final(self)@ == step(old(self)@, message),
            old(self)@.wf() ==> final(self)@.wf(),
    {
        match message {
            AppMessage::SelectedApp(app) => {
                self.selected_app = app;
                self.active = match app {
                    AppChoice::Counter => ActiveApp::Counter(Counter::new()),
                    AppChoice::Todo => ActiveApp::Todo(TodoApp::new()),
                };
            },
            AppMessage::Counter(msg) => {
                if let ActiveApp::Counter(c) = &mut self.active {
                    c.update(msg);
                }
            },
            AppMessage::Todo(msg) => {
                if let ActiveApp::Todo(t) = &mut self.active {
                    t.update(msg);
                }
            },
        }
    }

    /// The running exercise.
    pub fn active(&self) -> (r: &ActiveApp)
        ensures
            r@ == self@.active,
    {
        &self.active
    }

    /// The choice that selected the running exercise.
    pub fn selected_app(&self) -> (r: AppChoice)
        ensures
            r == self@.selected,
    {
        self.selected_app
    }
}

} // verus!
