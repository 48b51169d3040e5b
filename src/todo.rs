//! A todo list: items of text with a completion flag, and the pending text of
//! the entry field.

use vstd::prelude::*;

verus! {

/// The events a todo list reacts to.
#[derive(Debug, Clone)]
pub enum Message {
    /// The entry field now holds this text.
    UpdateInput(String),
    /// Add the entry field's text, trimmed, as a new item.
    Add,
    /// Delete the item at this index.
    Remove(usize),
    /// Flip the completion flag of the item at this index.
    ToggleComplete(usize),
}

/// One entry of the list.
#[derive(Debug, Clone)]
pub struct TodoItem {
    text: String,
    completed: bool,
}

/// What an item holds: its text and whether it is done.
pub struct ItemModel {
    pub text: Seq<char>,
    pub completed: bool,
}

/// The list's state: its items in order of insertion, and the entry field.
#[derive(Debug, Clone)]
pub struct TodoApp {
    todos: Vec<TodoItem>,
    input_value: String,
}

/// What a todo list holds.
pub struct TodoModel {
    pub items: Seq<ItemModel>,
    pub input: Seq<char>,
}

/// What `str::trim` returns for a string of these characters.
pub uninterp spec fn trimmed(s: Seq<char>) -> Seq<char>;

/// Relies on `str::trim`: the argument with leading and trailing whitespace
/// removed, which depends on the characters alone.
#[verifier::external_body]
fn trim(s: &str) -> (r: &str)
    ensures
        r@ == trimmed(s@),
{
    s.trim()
}

impl View for TodoItem {
    type V = ItemModel;

    closed spec fn view(&self) -> ItemModel {
        ItemModel { text: self.text@, completed: self.completed }
    }
}

impl View for TodoApp {
    type V = TodoModel;

    closed spec fn view(&self) -> TodoModel {
        TodoModel { items: self.todos@.map_values(|it: TodoItem| it@), input: self.input_value@ }
    }
}

impl TodoModel {
    /// The list that a fresh todo list holds: no items and an empty entry field.
    pub open spec fn empty() -> TodoModel {
        TodoModel { items: Seq::empty(), input: Seq::empty() }
    }

    /// Every item has some text.
    pub open spec fn wf(self) -> bool {
        forall|i: int| 0 <= i < self.items.len() ==> #[trigger] self.items[i].text.len() > 0
    }
}

/// The list after handling `m`, when it was `s`.
///
/// Adding ignores an entry that is empty once trimmed; an index outside the
/// list makes removing and toggling do nothing.
pub open spec fn step(s: TodoModel, m: Message) -> TodoModel {
    match m {
        Message::UpdateInput(v) => TodoModel { items: s.items, input: v@ },
        Message::Add => {
            let t = trimmed(s.input);
            if t.len() == 0 {
                s
            } else {
                TodoModel {
                    items: s.items.push(ItemModel { text: t, completed: false }),
                    input: Seq::empty(),
                }
            }
        },
        Message::Remove(i) => {
            if i < s.items.len() {
                TodoModel { items: s.items.remove(i as int), input: s.input }
            } else {
                s
            }
        },
        Message::ToggleComplete(i) => {
            if i < s.items.len() {
                let it = s.items[i as int];
                TodoModel {
                    items: s.items.update(
                        i as int,
                        ItemModel { text: it.text, completed: !it.completed },
                    ),
                    input: s.input,
                }
            } else {
                s
            }
        },
    }
}

/// An index at or past the end of the list makes removing and toggling leave
/// the whole state as it was.
pub proof fn lemma_out_of_range_is_noop(s: TodoModel, i: usize)
    requires
        i >= s.items.len(),
    ensures
        step(s, Message::Remove(i)) == s,
        step(s, Message::ToggleComplete(i)) == s,
{
}

/// Toggling the same valid index twice in a row restores the state.
pub proof fn lemma_toggle_twice_restores(s: TodoModel, i: usize)
    requires
        i < s.items.len(),
    ensures
        step(step(s, Message::ToggleComplete(i)), Message::ToggleComplete(i)) == s,
{
    let once = step(s, Message::ToggleComplete(i));
    let twice = step(once, Message::ToggleComplete(i));
    assert(twice.items[i as int] == s.items[i as int]);
    assert(twice.items =~= s.items);
}

/// The marker shown before an item's text: `[x] ` when done, `[ ] ` otherwise.
pub open spec fn marker_of(completed: bool) -> Seq<char> {
    if completed { "[x] "@ } else { "[ ] "@ }
}

/// The label of the control that flips an item: `Undo` when done, `Done`
/// otherwise.
pub open spec fn toggle_label_of(completed: bool) -> Seq<char> {
    if completed { "Undo"@ } else { "Done"@ }
}

impl TodoApp {
    /// An empty list with an empty entry field.
    pub fn new() -> (r: Self)
        ensures
            r@ == TodoModel::empty(),
            r@.wf(),
    {
        let r = TodoApp { todos: Vec::new(), input_value: String::new() };
        assert(r@.items =~= Seq::empty());
        r
    }

    /// Handles one message.
    pub fn update(&mut self, message: Message)
        ensures
            final(self)@ == step(old(self)@, message),
            old(self)@.wf() ==> final(self)@.wf(),
    {
        let ghost pre = self@;
        match message {
            Message::UpdateInput(value) => {
                self.input_value = value;
                assert(self@.items =~= pre.items);
            },
            Message::Add => {
                let t = trim(self.input_value.as_str());
                if !t.is_empty() {
                    let text = t.to_owned();
                    self.todos.push(TodoItem { text, completed: false });
                    self.input_value = String::new();
                    assert(self@.items =~= step(pre, message).items);
                    assert(self@.input =~= Seq::<char>::empty());
                }
            },
            Message::Remove(index) => {
                if index < self.todos.len() {
                    self.todos.remove(index);
                    assert(self@.items =~= pre.items.remove(index as int));
                }
            },
            Message::ToggleComplete(index) => {
                if index < self.todos.len() {
                    let done = self.todos[index].completed;
                    self.todos[index].completed = !done;
                    assert(self@.items =~= step(pre, message).items);
                }
            },
        }
    }

    /// The items, in order.
    pub fn todos(&self) -> (r: &Vec<TodoItem>)
        ensures
            r@.map_values(|it: TodoItem| it@) == self@.items,
    {
        &self.todos
    }

    /// The text of the entry field.
    pub fn input_value(&self) -> (r: &String)
        ensures
            r@ == self@.input,
    {
        &self.input_value
    }
}

impl TodoItem {
    /// The item's text.
    pub fn text(&self) -> (r: &String)
        ensures
            r@ == self@.text,
    {
        &self.text
    }

    /// The line that shows this item: its marker, then its text.
    pub fn display_line(&self) -> (r: String)
        ensures
            r@ == marker_of(self@.completed) + self@.text,
    {
        let mut line = String::from_str(if self.completed { "[x] " } else { "[ ] " });
        line.append(self.text.as_str());
        line
    }

    /// The label of the control that flips the item.
    pub fn toggle_label(&self) -> (r: &'static str)
        ensures
            r@ == toggle_label_of(self@.completed),
    {
        if self.completed { "Undo" } else { "Done" }
    }

    /// Whether the item is done.
    pub fn completed(&self) -> (r: bool)
        ensures
            r == self@.completed,
    {
        self.completed
    }
}

} // verus!
