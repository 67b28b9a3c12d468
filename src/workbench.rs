//! The rows of the workbench, the typed requests that an action's payload
//! becomes, and their effect on the store.
use vstd::prelude::*;
use vstd::string::StringExecFns;
use crate::action::{ActionKind, ActionError, Failure, text_field, get_required_str,
    get_optional_str};
use crate::json::{JsonValue, str_field, bool_field, int_field, number_field};
use crate::store::{Row, opt_view, copy_opt, rows_view, ids_unique, has_id, index_of, delete_row,
    insert_row, find_row, delete_by_id, insert_new, replace_row, copy_rows, ids_are_unique};

verus! {

pub struct Todo {
    pub id: String,
    pub title: String,
    pub completed: bool,
    pub priority: String,
    pub created_at: Option<String>,
}

pub struct Project {
    pub id: String,
    pub title: String,
    pub deadline: Option<String>,
    pub progress: i32,
    pub status: String,
}

pub struct CalendarEvent {
    pub id: String,
    pub title: String,
    pub date: String,
    pub color: String,
    pub note: Option<String>,
}

/// A personal item; its budget is kept as the decimal text of a number.
pub struct PersonalItem {
    pub id: String,
    pub title: String,
    pub budget: Option<String>,
    pub date: Option<String>,
    pub location: Option<String>,
    pub note: Option<String>,
}

pub struct TodoView {
    pub id: Seq<char>,
    pub title: Seq<char>,
    pub completed: bool,
    pub priority: Seq<char>,
    pub created_at: Option<Seq<char>>,
}

pub struct ProjectView {
    pub id: Seq<char>,
    pub title: Seq<char>,
    pub deadline: Option<Seq<char>>,
    pub progress: i32,
    pub status: Seq<char>,
}

pub struct EventView {
    pub id: Seq<char>,
    pub title: Seq<char>,
    pub date: Seq<char>,
    pub color: Seq<char>,
    pub note: Option<Seq<char>>,
}

pub struct PersonalView {
    pub id: Seq<char>,
    pub title: Seq<char>,
    pub budget: Option<Seq<char>>,
    pub date: Option<Seq<char>>,
    pub location: Option<Seq<char>>,
    pub note: Option<Seq<char>>,
}

impl View for Todo {
    type V = TodoView;

    open spec fn view(&self) -> TodoView {
        TodoView {
            id: self.id@,
            title: self.title@,
            completed: self.completed,
            priority: self.priority@,
            created_at: opt_view(self.created_at),
        }
    }
}

impl View for Project {
    type V = ProjectView;

    open spec fn view(&self) -> ProjectView {
        ProjectView {
            id: self.id@,
            title: self.title@,
            deadline: opt_view(self.deadline),
            progress: self.progress,
            status: self.status@,
        }
    }
}

impl View for CalendarEvent {
    type V = EventView;

    open spec fn view(&self) -> EventView {
        EventView {
            id: self.id@,
            title: self.title@,
            date: self.date@,
            color: self.color@,
            note: opt_view(self.note),
        }
    }
}

impl View for PersonalItem {
    type V = PersonalView;

    open spec fn view(&self) -> PersonalView {
        PersonalView {
            id: self.id@,
            title: self.title@,
            budget: opt_view(self.budget),
            date: opt_view(self.date),
            location: opt_view(self.location),
            note: opt_view(self.note),
        }
    }
}

impl Row for Todo {
    open spec fn row_id(v: TodoView) -> Seq<char> {
        v.id
    }

    fn id(&self) -> (r: &String) {
        &self.id
    }

    fn duplicate(&self) -> (r: Self) {
        Todo {
            id: self.id.clone(),
            title: self.title.clone(),
            completed: self.completed,
            priority: self.priority.clone(),
            created_at: copy_opt(&self.created_at),
        }
    }
}

impl Row for Project {
    open spec fn row_id(v: ProjectView) -> Seq<char> {
        v.id
    }

    fn id(&self) -> (r: &String) {
        &self.id
    }

    fn duplicate(&self) -> (r: Self) {
        Project {
            id: self.id.clone(),
            title: self.title.clone(),
            deadline: copy_opt(&self.deadline),
            progress: self.progress,
            status: self.status.clone(),
        }
    }
}

impl Row for CalendarEvent {
    open spec fn row_id(v: EventView) -> Seq<char> {
        v.id
    }

    fn id(&self) -> (r: &String) {
        &self.id
    }

    fn duplicate(&self) -> (r: Self) {
        CalendarEvent {
            id: self.id.clone(),
            title: self.title.clone(),
            date: self.date.clone(),
            color: self.color.clone(),
            note: copy_opt(&self.note),
        }
    }
}

impl Row for PersonalItem {
    open spec fn row_id(v: PersonalView) -> Seq<char> {
        v.id
    }

    fn id(&self) -> (r: &String) {
        &self.id
    }

    fn duplicate(&self) -> (r: Self) {
        PersonalItem {
            id: self.id.clone(),
            title: self.title.clone(),
            budget: copy_opt(&self.budget),
            date: copy_opt(&self.date),
            location: copy_opt(&self.location),
            note: copy_opt(&self.note),
        }
    }
}

pub struct CreateTodoRequest {
    pub title: String,
    pub priority: Option<String>,
}

pub struct UpdateTodoRequest {
    pub id: String,
    pub title: Option<String>,
    pub completed: Option<bool>,
    pub priority: Option<String>,
}

pub struct CreateProjectRequest {
    pub title: String,
    pub deadline: String,
}

pub struct UpdateProjectRequest {
    pub id: String,
    pub title: Option<String>,
    pub deadline: Option<String>,
    pub progress: Option<i32>,
    pub status: Option<String>,
}

pub struct CreateEventRequest {
    pub title: String,
    pub date: String,
    pub color: Option<String>,
    pub note: Option<String>,
}

pub struct UpdateEventRequest {
    pub id: String,
    pub title: Option<String>,
    pub date: Option<String>,
    pub color: Option<String>,
    pub note: Option<String>,
}

/// The fields of a new personal item; the budget is the decimal text of a number.
pub struct CreatePersonalRequest {
    pub title: String,
    pub budget: Option<String>,
    pub date: Option<String>,
    pub location: Option<String>,
    pub note: Option<String>,
}

pub struct UpdatePersonalRequest {
    pub id: String,
    pub title: Option<String>,
    pub budget: Option<String>,
    pub date: Option<String>,
    pub location: Option<String>,
    pub note: Option<String>,
}

/// One typed change to the store. A create carries the id that the payload
/// gave, if any.
#[allow(inconsistent_fields)]
pub enum Mutation {
    CreateTodo { id: Option<String>, request: CreateTodoRequest },
    UpdateTodo(UpdateTodoRequest),
    DeleteTodo { id: String },
    CreateProject { id: Option<String>, request: CreateProjectRequest },
    UpdateProject(UpdateProjectRequest),
    DeleteProject { id: String },
    CreateEvent { id: Option<String>, request: CreateEventRequest },
    UpdateEvent(UpdateEventRequest),
    DeleteEvent { id: String },
    CreatePersonal { id: Option<String>, request: CreatePersonalRequest },
    UpdatePersonal(UpdatePersonalRequest),
    DeletePersonal { id: String },
    Snapshot,
}

/// The view of a `Mutation`.
#[allow(inconsistent_fields)]
pub enum Change {
    CreateTodo { id: Option<Seq<char>>, title: Seq<char>, priority: Option<Seq<char>> },
    UpdateTodo {
        id: Seq<char>,
        title: Option<Seq<char>>,
        completed: Option<bool>,
        priority: Option<Seq<char>>,
    },
    DeleteTodo { id: Seq<char> },
    CreateProject { id: Option<Seq<char>>, title: Seq<char>, deadline: Seq<char> },
    UpdateProject {
        id: Seq<char>,
        title: Option<Seq<char>>,
        deadline: Option<Seq<char>>,
        progress: Option<i32>,
        status: Option<Seq<char>>,
    },
    DeleteProject { id: Seq<char> },
    CreateEvent {
        id: Option<Seq<char>>,
        title: Seq<char>,
        date: Seq<char>,
        color: Option<Seq<char>>,
        note: Option<Seq<char>>,
    },
    UpdateEvent {
        id: Seq<char>,
        title: Option<Seq<char>>,
        date: Option<Seq<char>>,
        color: Option<Seq<char>>,
        note: Option<Seq<char>>,
    },
    DeleteEvent { id: Seq<char> },
    CreatePersonal {
        id: Option<Seq<char>>,
        title: Seq<char>,
        budget: Option<Seq<char>>,
        date: Option<Seq<char>>,
        location: Option<Seq<char>>,
        note: Option<Seq<char>>,
    },
    UpdatePersonal {
        id: Seq<char>,
        title: Option<Seq<char>>,
        budget: Option<Seq<char>>,
        date: Option<Seq<char>>,
        location: Option<Seq<char>>,
        note: Option<Seq<char>>,
    },
    DeletePersonal { id: Seq<char> },
    Snapshot,
}

impl View for Mutation {
    type V = Change;

    open spec fn view(&self) -> Change {
        match self {
            Mutation::CreateTodo { id, request } => Change::CreateTodo {
                id: opt_view(*id),
                title: request.title@,
                priority: opt_view(request.priority),
            },
            Mutation::UpdateTodo(q) => Change::UpdateTodo {
                id: q.id@,
                title: opt_view(q.title),
                completed: q.completed,
                priority: opt_view(q.priority),
            },
            Mutation::DeleteTodo { id } => Change::DeleteTodo { id: id@ },
            Mutation::CreateProject { id, request } => Change::CreateProject {
                id: opt_view(*id),
                title: request.title@,
                deadline: request.deadline@,
            },
            Mutation::UpdateProject(q) => Change::UpdateProject {
                id: q.id@,
                title: opt_view(q.title),
                deadline: opt_view(q.deadline),
                progress: q.progress,
                status: opt_view(q.status),
            },
            Mutation::DeleteProject { id } => Change::DeleteProject { id: id@ },
            Mutation::CreateEvent { id, request } => Change::CreateEvent {
                id: opt_view(*id),
                title: request.title@,
                date: request.date@,
                color: opt_view(request.color),
                note: opt_view(request.note),
            },
            Mutation::UpdateEvent(q) => Change::UpdateEvent {
                id: q.id@,
                title: opt_view(q.title),
                date: opt_view(q.date),
                color: opt_view(q.color),
                note: opt_view(q.note),
            },
            Mutation::DeleteEvent { id } => Change::DeleteEvent { id: id@ },
            Mutation::CreatePersonal { id, request } => Change::CreatePersonal {
                id: opt_view(*id),
                title: request.title@,
                budget: opt_view(request.budget),
                date: opt_view(request.date),
                location: opt_view(request.location),
                note: opt_view(request.note),
            },
            Mutation::UpdatePersonal(q) => Change::UpdatePersonal {
                id: q.id@,
                title: opt_view(q.title),
                budget: opt_view(q.budget),
                date: opt_view(q.date),
                location: opt_view(q.location),
                note: opt_view(q.note),
            },
            Mutation::DeletePersonal { id } => Change::DeletePersonal { id: id@ },
            Mutation::Snapshot => Change::Snapshot,
        }
    }
}

/// The view of a planned change or of the error that stopped it.
pub open spec fn plan_view(r: Result<Mutation, ActionError>) -> Result<Change, Failure> {
    match r {
        Ok(m) => Ok(m@),
        Err(e) => Err(e@),
    }
}

/// The member `progress` of a payload, as the store's 32-bit column keeps it.
pub open spec fn progress_field(p: JsonValue) -> Option<i32> {
    match int_field(p, "progress"@) {
        Some(v) => Some(v as i32),
        None => None,
    }
}

/// The typed change that the payload `p` of an action of type `kind` asks for,
/// or the missing field that stops it. Required fields are read in order;
/// an update must name at least one field to change.
pub open spec fn plan_spec(kind: ActionKind, p: JsonValue) -> Result<Change, Failure> {
    match kind {
        ActionKind::TodoCreate => match text_field(p, "title"@) {
            None => Err(Failure::Missing("title"@)),
            Some(title) => Ok(
                Change::CreateTodo {
                    id: str_field(p, "id"@),
                    title,
                    priority: text_field(p, "priority"@),
                },
            ),
        },
        ActionKind::TodoUpdate => match text_field(p, "id"@) {
            None => Err(Failure::Missing("id"@)),
            Some(id) => if text_field(p, "title"@) is None && bool_field(p, "completed"@) is None
                && text_field(p, "priority"@) is None {
                Err(Failure::NothingToUpdate(kind))
            } else {
                Ok(
                    Change::UpdateTodo {
                        id,
                        title: text_field(p, "title"@),
                        completed: bool_field(p, "completed"@),
                        priority: text_field(p, "priority"@),
                    },
                )
            },
        },
        ActionKind::TodoDelete => match text_field(p, "id"@) {
            None => Err(Failure::Missing("id"@)),
            Some(id) => Ok(Change::DeleteTodo { id }),
        },
        ActionKind::ProjectCreate => match text_field(p, "title"@) {
            None => Err(Failure::Missing("title"@)),
            Some(title) => match text_field(p, "deadline"@) {
                None => Err(Failure::Missing("deadline"@)),
                Some(deadline) => Ok(
                    Change::CreateProject { id: str_field(p, "id"@), title, deadline },
                ),
            },
        },
        ActionKind::ProjectUpdateProgress => match text_field(p, "id"@) {
            None => Err(Failure::Missing("id"@)),
            Some(id) => match progress_field(p) {
                None => Err(Failure::Missing("progress"@)),
                Some(progress) => Ok(
                    Change::UpdateProject {
                        id,
                        title: None,
                        deadline: None,
                        progress: Some(progress),
                        status: None,
                    },
                ),
            },
        },
        ActionKind::ProjectDelete => match text_field(p, "id"@) {
            None => Err(Failure::Missing("id"@)),
            Some(id) => Ok(Change::DeleteProject { id }),
        },
        ActionKind::EventCreate => match text_field(p, "title"@) {
            None => Err(Failure::Missing("title"@)),
            Some(title) => match text_field(p, "date"@) {
                None => Err(Failure::Missing("date"@)),
                Some(date) => Ok(
                    Change::CreateEvent {
                        id: str_field(p, "id"@),
                        title,
                        date,
                        color: text_field(p, "color"@),
                        note: text_field(p, "note"@),
                    },
                ),
            },
        },
        ActionKind::EventUpdate => match text_field(p, "id"@) {
            None => Err(Failure::Missing("id"@)),
            Some(id) => if text_field(p, "title"@) is None && text_field(p, "date"@) is None
                && text_field(p, "color"@) is None && text_field(p, "note"@) is None {
                Err(Failure::NothingToUpdate(kind))
            } else {
                Ok(
                    Change::UpdateEvent {
                        id,
                        title: text_field(p, "title"@),
                        date: text_field(p, "date"@),
                        color: text_field(p, "color"@),
                        note: text_field(p, "note"@),
                    },
                )
            },
        },
        ActionKind::EventDelete => match text_field(p, "id"@) {
            None => Err(Failure::Missing("id"@)),
            Some(id) => Ok(Change::DeleteEvent { id }),
        },
        ActionKind::PersonalCreate => match text_field(p, "title"@) {
            None => Err(Failure::Missing("title"@)),
            Some(title) => Ok(
                Change::CreatePersonal {
                    id: str_field(p, "id"@),
                    title,
                    budget: number_field(p, "budget"@),
                    date: text_field(p, "date"@),
                    location: text_field(p, "location"@),
                    note: text_field(p, "note"@),
                },
            ),
        },
        ActionKind::PersonalUpdate => match text_field(p, "id"@) {
            None => Err(Failure::Missing("id"@)),
            Some(id) => if text_field(p, "title"@) is None && number_field(p, "budget"@) is None
                && text_field(p, "date"@) is None && text_field(p, "location"@) is None
                && text_field(p, "note"@) is None {
                Err(Failure::NothingToUpdate(kind))
            } else {
                Ok(
                    Change::UpdatePersonal {
                        id,
                        title: text_field(p, "title"@),
                        budget: number_field(p, "budget"@),
                        date: text_field(p, "date"@),
                        location: text_field(p, "location"@),
                        note: text_field(p, "note"@),
                    },
                )
            },
        },
        ActionKind::PersonalDelete => match text_field(p, "id"@) {
            None => Err(Failure::Missing("id"@)),
            Some(id) => Ok(Change::DeletePersonal { id }),
        },
        ActionKind::QuerySnapshot => Ok(Change::Snapshot),
    }
}

/// A string member, whatever it holds.
fn get_any_str(payload: &JsonValue, key: &str) -> (r: Option<String>)
    ensures
        opt_view(r) == str_field(*payload, key@),
{
    match payload.get_str(key) {
        Some(s) => Some(s.clone()),
        None => None,
    }
}

/// Converts the payload of an action of type `kind` into a typed change.
pub fn plan_action(kind: ActionKind, payload: &JsonValue) -> (r: Result<Mutation, ActionError>)
    ensures
        plan_view(r) == plan_spec(kind, *payload),
{
    match kind {
        ActionKind::TodoCreate => {
            let title = get_required_str(payload, "title")?;
            let priority = get_optional_str(payload, "priority");
            Ok(
                Mutation::CreateTodo {
                    id: get_any_str(payload, "id"),
                    request: CreateTodoRequest { title, priority },
                },
            )
        },
        ActionKind::TodoUpdate => {
            let id = get_required_str(payload, "id")?;
            let title = get_optional_str(payload, "title");
            let completed = payload.get_bool("completed");
            let priority = get_optional_str(payload, "priority");
            if title.is_none() && completed.is_none() && priority.is_none() {
                return Err(ActionError::NothingToUpdate(kind));
            }
            Ok(Mutation::UpdateTodo(UpdateTodoRequest { id, title, completed, priority }))
        },
        ActionKind::TodoDelete => {
            let id = get_required_str(payload, "id")?;
            Ok(Mutation::DeleteTodo { id })
        },
        ActionKind::ProjectCreate => {
            let title = get_required_str(payload, "title")?;
            let deadline = get_required_str(payload, "deadline")?;
            Ok(
                Mutation::CreateProject {
                    id: get_any_str(payload, "id"),
                    request: CreateProjectRequest { title, deadline },
                },
            )
        },
        ActionKind::ProjectUpdateProgress => {
            let id = get_required_str(payload, "id")?;
            match payload.get_i64("progress") {
                None => Err(ActionError::MissingField(String::from_str("progress"))),
                Some(v) => {
                    let progress = #[verifier::truncate] (v as i32);
                    Ok(
                        Mutation::UpdateProject(
                            UpdateProjectRequest {
                                id,
                                title: None,
                                deadline: None,
                                progress: Some(progress),
                                status: None,
                            },
                        ),
                    )
                },
            }
        },
        ActionKind::ProjectDelete => {
            let id = get_required_str(payload, "id")?;
            Ok(Mutation::DeleteProject { id })
        },
        ActionKind::EventCreate => {
            let title = get_required_str(payload, "title")?;
            let date = get_required_str(payload, "date")?;
            let color = get_optional_str(payload, "color");
            let note = get_optional_str(payload, "note");
            Ok(
                Mutation::CreateEvent {
                    id: get_any_str(payload, "id"),
                    request: CreateEventRequest { title, date, color, note },
                },
            )
        },
        ActionKind::EventUpdate => {
            let id = get_required_str(payload, "id")?;
            let title = get_optional_str(payload, "title");
            let date = get_optional_str(payload, "date");
            let color = get_optional_str(payload, "color");
            let note = get_optional_str(payload, "note");
            if title.is_none() && date.is_none() && color.is_none() && note.is_none() {
                return Err(ActionError::NothingToUpdate(kind));
            }
            Ok(Mutation::UpdateEvent(UpdateEventRequest { id, title, date, color, note }))
        },
        ActionKind::EventDelete => {
            let id = get_required_str(payload, "id")?;
            Ok(Mutation::DeleteEvent { id })
        },
        ActionKind::PersonalCreate => {
            let title = get_required_str(payload, "title")?;
            let budget = payload.get_number_text("budget");
            let date = get_optional_str(payload, "date");
            let location = get_optional_str(payload, "location");
            let note = get_optional_str(payload, "note");
            Ok(
                Mutation::CreatePersonal {
                    id: get_any_str(payload, "id"),
                    request: CreatePersonalRequest { title, budget, date, location, note },
                },
            )
        },
        ActionKind::PersonalUpdate => {
            let id = get_required_str(payload, "id")?;
            let title = get_optional_str(payload, "title");
            let budget = payload.get_number_text("budget");
            let date = get_optional_str(payload, "date");
            let location = get_optional_str(payload, "location");
            let note = get_optional_str(payload, "note");
            if title.is_none() && budget.is_none() && date.is_none() && location.is_none()
                && note.is_none() {
                return Err(ActionError::NothingToUpdate(kind));
            }
            Ok(
                Mutation::UpdatePersonal(
                    UpdatePersonalRequest { id, title, budget, date, location, note },
                ),
            )
        },
        ActionKind::PersonalDelete => {
            let id = get_required_str(payload, "id")?;
            Ok(Mutation::DeletePersonal { id })
        },
        ActionKind::QuerySnapshot => Ok(Mutation::Snapshot),
    }
}

} // verus!

verus! {

/// The workbench data store: one table per kind of row.
pub struct Workbench {
    pub todos: Vec<Todo>,
    pub projects: Vec<Project>,
    pub events: Vec<CalendarEvent>,
    pub personal: Vec<PersonalItem>,
}

#[verifier::ext_equal]
pub struct WorkbenchView {
    pub todos: Seq<TodoView>,
    pub projects: Seq<ProjectView>,
    pub events: Seq<EventView>,
    pub personal: Seq<PersonalView>,
}

impl View for Workbench {
    type V = WorkbenchView;

    open spec fn view(&self) -> WorkbenchView {
        WorkbenchView {
            todos: rows_view(self.todos@),
            projects: rows_view(self.projects@),
            events: rows_view(self.events@),
            personal: rows_view(self.personal@),
        }
    }
}

/// Every table keys its rows by unique ids.
pub open spec fn store_wf(w: WorkbenchView) -> bool {
    &&& ids_unique::<Todo>(w.todos)
    &&& ids_unique::<Project>(w.projects)
    &&& ids_unique::<CalendarEvent>(w.events)
    &&& ids_unique::<PersonalItem>(w.personal)
}

/// The given value, else the current one.
pub open spec fn patch<T>(given: Option<T>, current: T) -> T {
    match given {
        Some(v) => v,
        None => current,
    }
}

/// The given value, else the current optional one.
pub open spec fn patch_opt<T>(given: Option<T>, current: Option<T>) -> Option<T> {
    match given {
        Some(v) => Some(v),
        None => current,
    }
}

/// The table with the row whose id is `id`, if any, replaced by `f` of it.
pub open spec fn update_where<T: Row>(rows: Seq<T::V>, id: Seq<char>, f: spec_fn(T::V) -> T::V) -> Seq<T::V> {
    if has_id::<T>(rows, id) {
        let i = index_of::<T>(rows, id);
        rows.update(i, f(rows[i]))
    } else {
        rows
    }
}

/// The store after a change; `Duplicate` where a create reuses a taken id.
/// A create without an id of its own takes `fresh_id`; a new todo is stamped
/// with `now`. An update or delete of an id that no row has changes nothing.
pub open spec fn apply_spec(w: WorkbenchView, c: Change, fresh_id: Seq<char>, now: Seq<char>) -> Result<WorkbenchView, Failure> {
    match c {
        Change::CreateTodo { id, title, priority } => {
            let row = TodoView {
                id: patch(id, fresh_id),
                title,
                completed: false,
                priority: patch(priority, "normal"@),
                created_at: Some(now),
            };
            match insert_row::<Todo>(w.todos, row) {
                Some(t) => Ok(WorkbenchView { todos: t, ..w }),
                None => Err(Failure::Duplicate(row.id)),
            }
        },
        Change::UpdateTodo { id, title, completed, priority } => Ok(
            WorkbenchView {
                todos: update_where::<Todo>(
                    w.todos,
                    id,
                    |t: TodoView|
                        TodoView {
                            title: patch(title, t.title),
                            completed: patch(completed, t.completed),
                            priority: patch(priority, t.priority),
                            ..t
                        },
                ),
                ..w
            },
        ),
        Change::DeleteTodo { id } => Ok(
            WorkbenchView { todos: delete_row::<Todo>(w.todos, id), ..w },
        ),
        Change::CreateProject { id, title, deadline } => {
            let row = ProjectView {
                id: patch(id, fresh_id),
                title,
                deadline: Some(deadline),
                progress: 0,
                status: "active"@,
            };
            match insert_row::<Project>(w.projects, row) {
                Some(t) => Ok(WorkbenchView { projects: t, ..w }),
                None => Err(Failure::Duplicate(row.id)),
            }
        },
        Change::UpdateProject { id, title, deadline, progress, status } => Ok(
            WorkbenchView {
                projects: update_where::<Project>(
                    w.projects,
                    id,
                    |p: ProjectView|
                        ProjectView {
                            title: patch(title, p.title),
                            deadline: patch_opt(deadline, p.deadline),
                            progress: patch(progress, p.progress),
                            status: patch(status, p.status),
                            ..p
                        },
                ),
                ..w
            },
        ),
        Change::DeleteProject { id } => Ok(
            WorkbenchView { projects: delete_row::<Project>(w.projects, id), ..w },
        ),
        Change::CreateEvent { id, title, date, color, note } => {
            let row = EventView {
                id: patch(id, fresh_id),
                title,
                date,
                color: patch(color, "blue"@),
                note,
            };
            match insert_row::<CalendarEvent>(w.events, row) {
                Some(t) => Ok(WorkbenchView { events: t, ..w }),
                None => Err(Failure::Duplicate(row.id)),
            }
        },
        Change::UpdateEvent { id, title, date, color, note } => Ok(
            WorkbenchView {
                events: update_where::<CalendarEvent>(
                    w.events,
                    id,
                    |e: EventView|
                        EventView {
                            title: patch(title, e.title),
                            date: patch(date, e.date),
                            color: patch(color, e.color),
                            note: patch_opt(note, e.note),
                            ..e
                        },
                ),
                ..w
            },
        ),
        Change::DeleteEvent { id } => Ok(
            WorkbenchView { events: delete_row::<CalendarEvent>(w.events, id), ..w },
        ),
        Change::CreatePersonal { id, title, budget, date, location, note } => {
            let row = PersonalView { id: patch(id, fresh_id), title, budget, date, location, note };
            match insert_row::<PersonalItem>(w.personal, row) {
                Some(t) => Ok(WorkbenchView { personal: t, ..w }),
                None => Err(Failure::Duplicate(row.id)),
            }
        },
        Change::UpdatePersonal { id, title, budget, date, location, note } => Ok(
            WorkbenchView {
                personal: update_where::<PersonalItem>(
                    w.personal,
                    id,
                    |p: PersonalView|
                        PersonalView {
                            title: patch(title, p.title),
                            budget: patch_opt(budget, p.budget),
                            date: patch_opt(date, p.date),
                            location: patch_opt(location, p.location),
                            note: patch_opt(note, p.note),
                            ..p
                        },
                ),
                ..w
            },
        ),
        Change::DeletePersonal { id } => Ok(
            WorkbenchView { personal: delete_row::<PersonalItem>(w.personal, id), ..w },
        ),
        Change::Snapshot => Ok(w),
    }
}

/// The given string, else a copy of the current one.
fn patch_string(given: Option<String>, current: &String) -> (r: String)
    ensures
        r@ == patch(opt_view(given), current@),
{
    match given {
        Some(v) => v,
        None => current.clone(),
    }
}

/// The given string, else a copy of the current optional one.
fn patch_opt_string(given: Option<String>, current: &Option<String>) -> (r: Option<String>)
    ensures
        opt_view(r) == patch_opt(opt_view(given), opt_view(*current)),
{
    match given {
        Some(v) => Some(v),
        None => copy_opt(current),
    }
}

/// The given id, else a copy of `fresh_id`.
fn id_or(id: Option<String>, fresh_id: &str) -> (r: String)
    ensures
        r@ == patch(opt_view(id), fresh_id@),
{
    match id {
        Some(v) => v,
        None => String::from_str(fresh_id),
    }
}

impl Workbench {
    /// An empty store.
    pub fn new() -> (r: Workbench)
        ensures
            r@.todos.len() == 0,
            r@.projects.len() == 0,
            r@.events.len() == 0,
            r@.personal.len() == 0,
            store_wf(r@),
    {
        Workbench { todos: Vec::new(), projects: Vec::new(), events: Vec::new(), personal: Vec::new() }
    }

    /// Whether every table keys its rows by unique ids.
    pub fn is_well_formed(&self) -> (r: bool)
        ensures
            r == store_wf(self@),
    {
        ids_are_unique(&self.todos) && ids_are_unique(&self.projects) && ids_are_unique(&self.events)
            && ids_are_unique(&self.personal)
    }

    /// A copy of the whole store.
    pub fn duplicate(&self) -> (r: Workbench)
        ensures
            r@ == self@,
    {
        Workbench {
            todos: copy_rows(&self.todos),
            projects: copy_rows(&self.projects),
            events: copy_rows(&self.events),
            personal: copy_rows(&self.personal),
        }
    }

    /// Applies one change. On an error nothing changes.
    pub fn apply(&mut self, m: Mutation, fresh_id: &str, now: &str) -> (r: Result<(), ActionError>)
        requires
            store_wf(old(self)@),
        ensures
            store_wf(final(self)@),
            match r {
                Ok(()) => apply_spec(old(self)@, m@, fresh_id@, now@) == Ok::<WorkbenchView, Failure>(final(self)@),
                Err(e) => apply_spec(old(self)@, m@, fresh_id@, now@) == Err::<WorkbenchView, Failure>(e@)
                    && final(self)@ == old(self)@,
            },
    {
        let ghost w = self@;
        let ghost c = m@;
        match m {
            Mutation::CreateTodo { id, request } => {
                let row = Todo {
                    id: id_or(id, fresh_id),
                    title: request.title,
                    completed: false,
                    priority: match request.priority {
                        Some(p) => p,
                        None => String::from_str("normal"),
                    },
                    created_at: Some(String::from_str(now)),
                };
                let rid = row.id.clone();
                if insert_new(&mut self.todos, row) {
                    Ok(())
                } else {
                    Err(ActionError::DuplicateId(rid))
                }
            },
            Mutation::UpdateTodo(q) => {
                if let Some(i) = find_row(&self.todos, q.id.as_str()) {
                    let t = &self.todos[i];
                    let row = Todo {
                        id: t.id.clone(),
                        title: patch_string(q.title, &t.title),
                        completed: match q.completed {
                            Some(b) => b,
                            None => t.completed,
                        },
                        priority: patch_string(q.priority, &t.priority),
                        created_at: copy_opt(&t.created_at),
                    };
                    replace_row(&mut self.todos, i, row);
                }
                proof {
                    assert(self@ =~= apply_spec(w, c, fresh_id@, now@)->Ok_0);
                }
                Ok(())
            },
            Mutation::DeleteTodo { id } => {
                delete_by_id(&mut self.todos, id.as_str());
                Ok(())
            },
            Mutation::CreateProject { id, request } => {
                let row = Project {
                    id: id_or(id, fresh_id),
                    title: request.title,
                    deadline: Some(request.deadline),
                    progress: 0,
                    status: String::from_str("active"),
                };
                let rid = row.id.clone();
                if insert_new(&mut self.projects, row) {
                    Ok(())
                } else {
                    Err(ActionError::DuplicateId(rid))
                }
            },
            Mutation::UpdateProject(q) => {
                if let Some(i) = find_row(&self.projects, q.id.as_str()) {
                    let p = &self.projects[i];
                    let row = Project {
                        id: p.id.clone(),
                        title: patch_string(q.title, &p.title),
                        deadline: patch_opt_string(q.deadline, &p.deadline),
                        progress: match q.progress {
                            Some(v) => v,
                            None => p.progress,
                        },
                        status: patch_string(q.status, &p.status),
                    };
                    replace_row(&mut self.projects, i, row);
                }
                proof {
                    assert(self@ =~= apply_spec(w, c, fresh_id@, now@)->Ok_0);
                }
                Ok(())
            },
            Mutation::DeleteProject { id } => {
                delete_by_id(&mut self.projects, id.as_str());
                Ok(())
            },
            Mutation::CreateEvent { id, request } => {
                let row = CalendarEvent {
                    id: id_or(id, fresh_id),
                    title: request.title,
                    date: request.date,
                    color: match request.color {
                        Some(c) => c,
                        None => String::from_str("blue"),
                    },
                    note: request.note,
                };
                let rid = row.id.clone();
                if insert_new(&mut self.events, row) {
                    Ok(())
                } else {
                    Err(ActionError::DuplicateId(rid))
                }
            },
            Mutation::UpdateEvent(q) => {
                if let Some(i) = find_row(&self.events, q.id.as_str()) {
                    let e = &self.events[i];
                    let row = CalendarEvent {
                        id: e.id.clone(),
                        title: patch_string(q.title, &e.title),
                        date: patch_string(q.date, &e.date),
                        color: patch_string(q.color, &e.color),
                        note: patch_opt_string(q.note, &e.note),
                    };
                    replace_row(&mut self.events, i, row);
                }
                proof {
                    assert(self@ =~= apply_spec(w, c, fresh_id@, now@)->Ok_0);
                }
                Ok(())
            },
            Mutation::DeleteEvent { id } => {
                delete_by_id(&mut self.events, id.as_str());
                Ok(())
            },
            Mutation::CreatePersonal { id, request } => {
                let row = PersonalItem {
                    id: id_or(id, fresh_id),
                    title: request.title,
                    budget: request.budget,
                    date: request.date,
                    location: request.location,
                    note: request.note,
                };
                let rid = row.id.clone();
                if insert_new(&mut self.personal, row) {
                    Ok(())
                } else {
                    Err(ActionError::DuplicateId(rid))
                }
            },
            Mutation::UpdatePersonal(q) => {
                if let Some(i) = find_row(&self.personal, q.id.as_str()) {
                    let p = &self.personal[i];
                    let row = PersonalItem {
                        id: p.id.clone(),
                        title: patch_string(q.title, &p.title),
                        budget: patch_opt_string(q.budget, &p.budget),
                        date: patch_opt_string(q.date, &p.date),
                        location: patch_opt_string(q.location, &p.location),
                        note: patch_opt_string(q.note, &p.note),
                    };
                    replace_row(&mut self.personal, i, row);
                }
                proof {
                    assert(self@ =~= apply_spec(w, c, fresh_id@, now@)->Ok_0);
                }
                Ok(())
            },
            Mutation::DeletePersonal { id } => {
                delete_by_id(&mut self.personal, id.as_str());
                Ok(())
            },
            Mutation::Snapshot => Ok(()),
        }
    }
}

} // verus!
