//! The closed vocabulary of actions, their validation, and the conversion of an
//! action's payload into a typed request.
use vstd::prelude::*;
use vstd::string::StringExecFns;
use crate::json::{JsonValue, str_field};
use crate::text::{chars_of, chars_equal, trim, trim_bounds};

verus! {

/// One of the action types that the agent may propose.
#[derive(Clone, Copy, Debug, PartialEq, Eq, Structural)]
pub enum ActionKind {
    TodoCreate,
    TodoUpdate,
    TodoDelete,
    ProjectCreate,
    ProjectUpdateProgress,
    ProjectDelete,
    EventCreate,
    EventUpdate,
    EventDelete,
    PersonalCreate,
    PersonalUpdate,
    PersonalDelete,
    QuerySnapshot,
}

/// The wire name of an action type.
pub open spec fn kind_name(k: ActionKind) -> Seq<char> {
    match k {
        ActionKind::TodoCreate => "todo.create"@,
        ActionKind::TodoUpdate => "todo.update"@,
        ActionKind::TodoDelete => "todo.delete"@,
        ActionKind::ProjectCreate => "project.create"@,
        ActionKind::ProjectUpdateProgress => "project.update_progress"@,
        ActionKind::ProjectDelete => "project.delete"@,
        ActionKind::EventCreate => "event.create"@,
        ActionKind::EventUpdate => "event.update"@,
        ActionKind::EventDelete => "event.delete"@,
        ActionKind::PersonalCreate => "personal.create"@,
        ActionKind::PersonalUpdate => "personal.update"@,
        ActionKind::PersonalDelete => "personal.delete"@,
        ActionKind::QuerySnapshot => "query.snapshot"@,
    }
}

/// The action type that a wire name denotes, if it is one of the vocabulary.
pub open spec fn kind_of_name(name: Seq<char>) -> Option<ActionKind> {
    if name == "todo.create"@ {
        Some(ActionKind::TodoCreate)
    } else if name == "todo.update"@ {
        Some(ActionKind::TodoUpdate)
    } else if name == "todo.delete"@ {
        Some(ActionKind::TodoDelete)
    } else if name == "project.create"@ {
        Some(ActionKind::ProjectCreate)
    } else if name == "project.update_progress"@ {
        Some(ActionKind::ProjectUpdateProgress)
    } else if name == "project.delete"@ {
        Some(ActionKind::ProjectDelete)
    } else if name == "event.create"@ {
        Some(ActionKind::EventCreate)
    } else if name == "event.update"@ {
        Some(ActionKind::EventUpdate)
    } else if name == "event.delete"@ {
        Some(ActionKind::EventDelete)
    } else if name == "personal.create"@ {
        Some(ActionKind::PersonalCreate)
    } else if name == "personal.update"@ {
        Some(ActionKind::PersonalUpdate)
    } else if name == "personal.delete"@ {
        Some(ActionKind::PersonalDelete)
    } else if name == "query.snapshot"@ {
        Some(ActionKind::QuerySnapshot)
    } else {
        None
    }
}

impl ActionKind {
    /// The wire name of this action type.
    pub fn name(&self) -> (r: &'static str)
        ensures
            r@ == kind_name(*self),
    {
        match self {
            ActionKind::TodoCreate => "todo.create",
            ActionKind::TodoUpdate => "todo.update",
            ActionKind::TodoDelete => "todo.delete",
            ActionKind::ProjectCreate => "project.create",
            ActionKind::ProjectUpdateProgress => "project.update_progress",
            ActionKind::ProjectDelete => "project.delete",
            ActionKind::EventCreate => "event.create",
            ActionKind::EventUpdate => "event.update",
            ActionKind::EventDelete => "event.delete",
            ActionKind::PersonalCreate => "personal.create",
            ActionKind::PersonalUpdate => "personal.update",
            ActionKind::PersonalDelete => "personal.delete",
            ActionKind::QuerySnapshot => "query.snapshot",
        }
    }

    /// The action type named `name`, if the vocabulary has it.
    pub fn from_name(name: &str) -> (r: Option<ActionKind>)
        ensures
            r == kind_of_name(name@),
    {
        let n = chars_of(name);
        let all = [
            ActionKind::TodoCreate,
            ActionKind::TodoUpdate,
            ActionKind::TodoDelete,
            ActionKind::ProjectCreate,
            ActionKind::ProjectUpdateProgress,
            ActionKind::ProjectDelete,
            ActionKind::EventCreate,
            ActionKind::EventUpdate,
            ActionKind::EventDelete,
            ActionKind::PersonalCreate,
            ActionKind::PersonalUpdate,
            ActionKind::PersonalDelete,
            ActionKind::QuerySnapshot,
        ];
        let mut i: usize = 0;
        while i < 13
            invariant
                n@ == name@,
                i <= 13,
                all@ == seq![
                    ActionKind::TodoCreate,
                    ActionKind::TodoUpdate,
                    ActionKind::TodoDelete,
                    ActionKind::ProjectCreate,
                    ActionKind::ProjectUpdateProgress,
                    ActionKind::ProjectDelete,
                    ActionKind::EventCreate,
                    ActionKind::EventUpdate,
                    ActionKind::EventDelete,
                    ActionKind::PersonalCreate,
                    ActionKind::PersonalUpdate,
                    ActionKind::PersonalDelete,
                    ActionKind::QuerySnapshot,
                ],
                forall|j: int| 0 <= j < i ==> name@ != kind_name(#[trigger] all@[j]),
            decreases 13 - i,
        {
            let candidate = chars_of(all[i].name());
            if chars_equal(&n, &candidate) {
                return Some(all[i]);
            }
            i += 1;
        }
        None
    }
}

/// The names of every action type, in the order of the vocabulary.
pub open spec fn vocabulary() -> Seq<Seq<char>> {
    seq![
        "todo.create"@,
        "todo.update"@,
        "todo.delete"@,
        "project.create"@,
        "project.update_progress"@,
        "project.delete"@,
        "event.create"@,
        "event.update"@,
        "event.delete"@,
        "personal.create"@,
        "personal.update"@,
        "personal.delete"@,
        "query.snapshot"@,
    ]
}

/// The names of every action type, in the order of the vocabulary.
pub fn action_vocabulary() -> (r: Vec<String>)
    ensures
        r@.map_values(|s: String| s@) == vocabulary(),
{
    let r = vec![
        String::from_str("todo.create"),
        String::from_str("todo.update"),
        String::from_str("todo.delete"),
        String::from_str("project.create"),
        String::from_str("project.update_progress"),
        String::from_str("project.delete"),
        String::from_str("event.create"),
        String::from_str("event.update"),
        String::from_str("event.delete"),
        String::from_str("personal.create"),
        String::from_str("personal.update"),
        String::from_str("personal.delete"),
        String::from_str("query.snapshot"),
    ];
    assert(r@.map_values(|s: String| s@) =~= vocabulary());
    r
}

/// A structured proposal of one mutation, as a model proposes it.
pub struct ActionProposal {
    pub id: String,
    pub action_type: String,
    pub title: String,
    pub reason: String,
    pub payload: JsonValue,
    pub requires_approval: bool,
}

/// Why an action was refused or failed.
pub enum ActionError {
    /// The type is not in the vocabulary.
    UnsupportedAction(String),
    /// The payload is not a key/value object.
    MalformedPayload,
    /// A field that the action needs is absent, blank or of the wrong kind.
    MissingField(String),
    /// An update names no field to change.
    NothingToUpdate(ActionKind),
    /// A create action reuses an id that its table already holds.
    DuplicateId(String),
}

/// The view of an `ActionError`.
pub enum Failure {
    Unsupported(Seq<char>),
    Malformed,
    Missing(Seq<char>),
    NothingToUpdate(ActionKind),
    Duplicate(Seq<char>),
}

impl View for ActionError {
    type V = Failure;

    open spec fn view(&self) -> Failure {
        match self {
            ActionError::UnsupportedAction(t) => Failure::Unsupported(t@),
            ActionError::MalformedPayload => Failure::Malformed,
            ActionError::MissingField(k) => Failure::Missing(k@),
            ActionError::NothingToUpdate(k) => Failure::NothingToUpdate(*k),
            ActionError::DuplicateId(id) => Failure::Duplicate(id@),
        }
    }
}

/// The text that reports an error.
pub open spec fn failure_text(f: Failure) -> Seq<char> {
    match f {
        Failure::Unsupported(t) => "Action is not allowed: "@ + t,
        Failure::Malformed => "Action payload must be an object"@,
        Failure::Missing(k) => "Missing required field: "@ + k,
        Failure::NothingToUpdate(k) => kind_name(k) + " 缺少可更新字段"@,
        Failure::Duplicate(id) => "Duplicate id: "@ + id,
    }
}

impl ActionError {
    /// The text that reports this error.
    pub fn message(&self) -> (r: String)
        ensures
            r@ == failure_text(self@),
    {
        match self {
            ActionError::UnsupportedAction(t) => {
                let mut s = String::from_str("Action is not allowed: ");
                s.append(t.as_str());
                s
            },
            ActionError::MalformedPayload => String::from_str("Action payload must be an object"),
            ActionError::MissingField(k) => {
                let mut s = String::from_str("Missing required field: ");
                s.append(k.as_str());
                s
            },
            ActionError::NothingToUpdate(k) => {
                let mut s = String::from_str(k.name());
                s.append(" 缺少可更新字段");
                s
            },
            ActionError::DuplicateId(id) => {
                let mut s = String::from_str("Duplicate id: ");
                s.append(id.as_str());
                s
            },
        }
    }
}

/// The error is `MissingField(key)`.
pub open spec fn is_missing(e: ActionError, key: Seq<char>) -> bool {
    match e {
        ActionError::MissingField(k) => k@ == key,
        _ => false,
    }
}

/// The result of validating an action type and payload: the action type when it
/// is in the vocabulary and the payload is an object.
pub open spec fn validation_ok(action_type: Seq<char>, payload: JsonValue) -> Option<ActionKind> {
    if payload.is_object_value() {
        kind_of_name(action_type)
    } else {
        None
    }
}

/// Checks that `action_type` is in the vocabulary (else `UnsupportedAction`),
/// then that `payload` is an object (else `MalformedPayload`).
pub fn validate_action(action_type: &str, payload: &JsonValue) -> (r: Result<ActionKind, ActionError>)
    ensures
        match r {
            Ok(k) => kind_of_name(action_type@) == Some(k) && payload.is_object_value(),
            Err(ActionError::UnsupportedAction(t)) => kind_of_name(action_type@).is_none()
                && t@ == action_type@,
            Err(ActionError::MalformedPayload) => kind_of_name(action_type@).is_some()
                && !payload.is_object_value(),
            Err(_) => false,
        },
{
    match ActionKind::from_name(action_type) {
        None => Err(ActionError::UnsupportedAction(String::from_str(action_type))),
        Some(k) => {
            if payload.is_object() {
                Ok(k)
            } else {
                Err(ActionError::MalformedPayload)
            }
        },
    }
}

/// A string member that holds more than whitespace.
pub open spec fn text_field(p: JsonValue, key: Seq<char>) -> Option<Seq<char>> {
    match str_field(p, key) {
        Some(s) => if trim(s).len() > 0 {
            Some(s)
        } else {
            None
        },
        None => None,
    }
}

/// The member `key` of `payload`, where it is a string that holds more than
/// whitespace; else `MissingField(key)`.
pub fn get_required_str(payload: &JsonValue, key: &str) -> (r: Result<String, ActionError>)
    ensures
        match r {
            Ok(s) => text_field(*payload, key@) == Some(s@),
            Err(e) => text_field(*payload, key@).is_none() && is_missing(e, key@),
        },
{
    match get_optional_str(payload, key) {
        Some(s) => Ok(s),
        None => Err(ActionError::MissingField(String::from_str(key))),
    }
}

/// The member `key` of `payload`, where it is a string that holds more than
/// whitespace.
pub fn get_optional_str(payload: &JsonValue, key: &str) -> (r: Option<String>)
    ensures
        match r {
            Some(s) => text_field(*payload, key@) == Some(s@),
            None => text_field(*payload, key@).is_none(),
        },
{
    match payload.get_str(key) {
        Some(s) => {
            let cs = chars_of(s.as_str());
            let (a, b) = trim_bounds(&cs);
            if a < b {
                Some(s.clone())
            } else {
                None
            }
        },
        None => None,
    }
}

} // verus!
