//! The persisted entity and the two payloads that create and change it.

use vstd::prelude::*;

verus! {

/// What a stored todo is, as mathematics: the value every contract speaks of.
pub struct TodoData {
    pub id: i32,
    pub title: Seq<char>,
    pub description: Seq<char>,
    pub completed: bool,
}

/// What a creation payload carries.
pub struct CreateTodoData {
    pub title: Seq<char>,
    pub description: Option<Seq<char>>,
}

/// What an update payload carries: each field is present or absent.
pub struct UpdateTodoData {
    pub title: Option<Seq<char>>,
    pub description: Option<Seq<char>>,
    pub completed: Option<bool>,
}

/// The description that a store writes for `payload`: the one given, or the
/// empty text where none was given.
pub open spec fn stored_description(payload: CreateTodoData) -> Seq<char> {
    match payload.description {
        Some(text) => text,
        None => Seq::empty(),
    }
}

/// The row that a store writes for `payload` under the identifier `id`:
/// not completed, and with an empty description where none was given.
pub open spec fn new_row(id: i32, payload: CreateTodoData) -> TodoData {
    TodoData {
        id,
        title: payload.title,
        description: stored_description(payload),
        completed: false,
    }
}

/// Merge-on-write: every field that `payload` holds replaces the one in
/// `row`; every field that it lacks stays. The identifier never changes.
pub open spec fn merged(row: TodoData, payload: UpdateTodoData) -> TodoData {
    TodoData {
        id: row.id,
        title: match payload.title {
            Some(title) => title,
            None => row.title,
        },
        description: match payload.description {
            Some(text) => text,
            None => row.description,
        },
        completed: match payload.completed {
            Some(flag) => flag,
            None => row.completed,
        },
    }
}

/// A todo as the store holds it and as responses show it.
#[derive(Debug, PartialEq, Eq)]
pub struct Todo {
    id: i32,
    title: String,
    description: String,
    completed: bool,
}

impl View for Todo {
    type V = TodoData;

    closed spec fn view(&self) -> TodoData {
        TodoData {
            id: self.id,
            title: self.title@,
            description: self.description@,
            completed: self.completed,
        }
    }
}

impl Clone for Todo {
    fn clone(&self) -> (res: Self)
        ensures
            res@ == self@,
    {
        Todo {
            id: self.id,
            title: self.title.clone(),
            description: self.description.clone(),
            completed: self.completed,
        }
    }
}

impl Todo {
    /// A todo with exactly these fields.
    pub fn new(id: i32, title: String, description: String, completed: bool) -> (res: Self)
        ensures
            res@ == (TodoData { id, title: title@, description: description@, completed }),
    {
        Self { id, title, description, completed }
    }

    /// The identifier that the store gave this todo.
    pub fn id(&self) -> (res: i32)
        ensures
            res == self@.id,
    {
        self.id
    }

    /// The title.
    pub fn title(&self) -> (res: &str)
        ensures
            res@ == self@.title,
    {
        self.title.as_str()
    }

    /// The description; empty where none was ever given.
    pub fn description(&self) -> (res: &str)
        ensures
            res@ == self@.description,
    {
        self.description.as_str()
    }

    /// Whether the todo is done.
    pub fn completed(&self) -> (res: bool)
        ensures
            res == self@.completed,
    {
        self.completed
    }

    /// Applies an update payload to this todo, field by field: a field that
    /// the payload holds wins, a field that it lacks keeps its stored value.
    pub fn merge(self, payload: UpdateTodo) -> (res: Self)
        ensures
            res@ == merged(self@, payload@),
    {
        let title = match payload.title {
            Some(title) => title,
            None => self.title,
        };
        let description = match payload.description {
            Some(text) => text,
            None => self.description,
        };
        let completed = match payload.completed {
            Some(flag) => flag,
            None => self.completed,
        };
        Self { id: self.id, title, description, completed }
    }
}

/// The view of an optional text.
pub open spec fn text_of(text: Option<String>) -> Option<Seq<char>> {
    match text {
        Some(s) => Some(s@),
        None => None,
    }
}

/// The view of an optional borrowed text.
pub open spec fn borrowed_text_of(text: Option<&str>) -> Option<Seq<char>> {
    match text {
        Some(s) => Some(s@),
        None => None,
    }
}

fn borrow_text(text: &Option<String>) -> (res: Option<&str>)
    ensures
        borrowed_text_of(res) == text_of(*text),
{
    match text {
        Some(s) => Some(s.as_str()),
        None => None,
    }
}

fn clone_text(text: &Option<String>) -> (res: Option<String>)
    ensures
        text_of(res) == text_of(*text),
{
    match text {
        Some(s) => Some(s.clone()),
        None => None,
    }
}

/// The body of a creation request.
#[derive(Debug, PartialEq, Eq)]
pub struct CreateTodo {
    title: String,
    description: Option<String>,
}

impl View for CreateTodo {
    type V = CreateTodoData;

    closed spec fn view(&self) -> CreateTodoData {
        CreateTodoData { title: self.title@, description: text_of(self.description) }
    }
}

impl Clone for CreateTodo {
    fn clone(&self) -> (res: Self)
        ensures
            res@ == self@,
    {
        CreateTodo { title: self.title.clone(), description: clone_text(&self.description) }
    }
}

impl CreateTodo {
    /// A creation payload with this title and, if any, this description.
    pub fn new(title: String, description: Option<String>) -> (res: Self)
        ensures
            res@ == (CreateTodoData { title: title@, description: text_of(description) }),
    {
        Self { title, description }
    }

    /// The title, which validation checks.
    pub fn title(&self) -> (res: &str)
        ensures
            res@ == self@.title,
    {
        self.title.as_str()
    }

    /// The description, if one was given.
    pub fn description(&self) -> (res: Option<&str>)
        ensures
            borrowed_text_of(res) == self@.description,
    {
        borrow_text(&self.description)
    }

    /// The description that a store writes for this payload.
    pub fn description_or_empty(&self) -> (res: &str)
        ensures
            res@ == stored_description(self@),
    {
        match &self.description {
            Some(text) => text.as_str(),
            None => {
                proof {
                    reveal_strlit("");
                }
                ""
            },
        }
    }

    /// The todo that a store writes for this payload once it has chosen `id`.
    pub fn into_todo(self, id: i32) -> (res: Todo)
        ensures
            res@ == new_row(id, self@),
    {
        let description = match self.description {
            Some(text) => text,
            None => String::new(),
        };
        Todo { id, title: self.title, description, completed: false }
    }
}

/// The body of an update request.
#[derive(Debug, PartialEq, Eq)]
pub struct UpdateTodo {
    title: Option<String>,
    description: Option<String>,
    completed: Option<bool>,
}

impl View for UpdateTodo {
    type V = UpdateTodoData;

    closed spec fn view(&self) -> UpdateTodoData {
        UpdateTodoData {
            title: text_of(self.title),
            description: text_of(self.description),
            completed: self.completed,
        }
    }
}

impl Clone for UpdateTodo {
    fn clone(&self) -> (res: Self)
        ensures
            res@ == self@,
    {
        UpdateTodo {
            title: clone_text(&self.title),
            description: clone_text(&self.description),
            completed: self.completed,
        }
    }
}

impl UpdateTodo {
    /// An update payload that holds the fields given and lacks the others.
    pub fn new(title: Option<String>, description: Option<String>, completed: Option<bool>) -> (res:
        Self)
        ensures
            res@ == (UpdateTodoData {
                title: text_of(title),
                description: text_of(description),
                completed,
            }),
    {
        Self { title, description, completed }
    }

    /// The new title, if the payload holds one.
    pub fn title(&self) -> (res: Option<&str>)
        ensures
            borrowed_text_of(res) == self@.title,
    {
        borrow_text(&self.title)
    }

    /// The new description, if the payload holds one.
    pub fn description(&self) -> (res: Option<&str>)
        ensures
            borrowed_text_of(res) == self@.description,
    {
        borrow_text(&self.description)
    }

    /// The new completion flag, if the payload holds one.
    pub fn completed(&self) -> (res: Option<bool>)
        ensures
            res == self@.completed,
    {
        self.completed
    }
}

} // verus!
