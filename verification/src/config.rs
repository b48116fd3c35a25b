//! The task model and how tasks are read from the configuration document.
//!
//! The document itself is parsed elsewhere; the library sees each field as a
//! [`FieldValue`]: the typed scalar that the document held at that key, or
//! `Absent`, or `Other` for a shape no task field accepts. [`build_task`]
//! turns the fields of one document entry into a [`Task`], rejecting exactly
//! the combinations the runner treats as fatal configuration errors; an
//! unrecognized action yields [`TaskKind::Unknown`], which is skipped, not
//! rejected.

use vstd::prelude::*;
use crate::strutil::str_eq;
use crate::radix::{is_valid_number, number_val, parse_u32_radix};

verus! {

/// A scalar read from the configuration document at some key.
pub enum FieldValue {
    /// The key held an integer.
    Int(i64),
    /// The key held a string.
    Str(String),
    /// The key held a boolean.
    Bool(bool),
    /// The key was not present.
    Absent,
    /// The key held something else (a float, an array, a table, a date).
    Other,
}

/// The mathematical value of a [`FieldValue`].
pub enum FieldV {
    Int(i64),
    Str(Seq<char>),
    Bool(bool),
    Absent,
    Other,
}

impl View for FieldValue {
    type V = FieldV;

    open spec fn view(&self) -> FieldV {
        match self {
            FieldValue::Int(n) => FieldV::Int(*n),
            FieldValue::Str(s) => FieldV::Str(s@),
            FieldValue::Bool(b) => FieldV::Bool(*b),
            FieldValue::Absent => FieldV::Absent,
            FieldValue::Other => FieldV::Other,
        }
    }
}

/// The fields one task entry of the document may carry.
pub struct TaskFields {
    pub message: FieldValue,
    pub action: FieldValue,
    pub from: FieldValue,
    pub to: FieldValue,
    pub target: FieldValue,
    pub uid: FieldValue,
    pub gid: FieldValue,
    pub mode: FieldValue,
}

/// The mathematical value of [`TaskFields`].
pub struct TaskFieldsV {
    pub message: FieldV,
    pub action: FieldV,
    pub from: FieldV,
    pub to: FieldV,
    pub target: FieldV,
    pub uid: FieldV,
    pub gid: FieldV,
    pub mode: FieldV,
}

impl View for TaskFields {
    type V = TaskFieldsV;

    open spec fn view(&self) -> TaskFieldsV {
        TaskFieldsV {
            message: self.message@,
            action: self.action@,
            from: self.from@,
            to: self.to@,
            target: self.target@,
            uid: self.uid@,
            gid: self.gid@,
            mode: self.mode@,
        }
    }
}

/// One provisioning step: a human-readable message and the action to take.
#[derive(Debug)]
pub struct Task {
    pub message: String,
    pub kind: TaskKind,
}

/// The action of a task, with its action-specific fields already typed.
#[derive(Debug)]
pub enum TaskKind {
    /// Copy every match of the pattern `from` under the directory `to`,
    /// overwriting files that are already there.
    Copy { from: String, to: String },
    /// As `Copy`, but a file is copied only where the destination is absent.
    CopyIfAbsent { from: String, to: String },
    /// Rename the literal path `from` to the literal path `to`.
    Move { from: String, to: String },
    /// Set ownership on the pattern's literal root and on every match; an
    /// absent id leaves that identity component unchanged.
    Chown { target: String, uid: Option<u32>, gid: Option<u32> },
    /// Set permission bits on the pattern's literal root and on every match.
    Chmod { target: String, mode: u32 },
    /// Create an empty file at `target` when nothing is there yet.
    Mkfile { target: String },
    /// Create the directory `target` and its missing parents.
    Mkdir { target: String },
    /// An unrecognized action: logged and skipped, never fatal.
    Unknown,
}

/// The mathematical value of a [`Task`].
pub struct TaskV {
    pub message: Seq<char>,
    pub kind: TaskKindV,
}

/// The mathematical value of a [`TaskKind`].
pub enum TaskKindV {
    Copy { from: Seq<char>, to: Seq<char> },
    CopyIfAbsent { from: Seq<char>, to: Seq<char> },
    Move { from: Seq<char>, to: Seq<char> },
    Chown { target: Seq<char>, uid: Option<u32>, gid: Option<u32> },
    Chmod { target: Seq<char>, mode: u32 },
    Mkfile { target: Seq<char> },
    Mkdir { target: Seq<char> },
    Unknown,
}

impl View for TaskKind {
    type V = TaskKindV;

    open spec fn view(&self) -> TaskKindV {
        match self {
            TaskKind::Copy { from, to } => TaskKindV::Copy { from: from@, to: to@ },
            TaskKind::CopyIfAbsent { from, to } => TaskKindV::CopyIfAbsent {
                from: from@,
                to: to@,
            },
            TaskKind::Move { from, to } => TaskKindV::Move { from: from@, to: to@ },
            TaskKind::Chown { target, uid, gid } => TaskKindV::Chown {
                target: target@,
                uid: *uid,
                gid: *gid,
            },
            TaskKind::Chmod { target, mode } => TaskKindV::Chmod {
                target: target@,
                mode: *mode,
            },
            TaskKind::Mkfile { target } => TaskKindV::Mkfile { target: target@ },
            TaskKind::Mkdir { target } => TaskKindV::Mkdir { target: target@ },
            TaskKind::Unknown => TaskKindV::Unknown,
        }
    }
}

impl View for Task {
    type V = TaskV;

    open spec fn view(&self) -> TaskV {
        TaskV { message: self.message@, kind: self.kind@ }
    }
}

/// A fatal configuration error: a required field missing or of the wrong type,
/// or a numeric field that cannot be read.
#[derive(Clone, Copy, Debug, PartialEq, Eq, Structural)]
pub enum ConfigError {
    MessageNotString,
    ActionNotString,
    FromNotString,
    ToNotString,
    TargetNotString,
    ModeNotString,
    InvalidMode,
    InvalidUid,
    InvalidGid,
    ArgvEntryNotString,
}

/// How an optional identity field is read: an integer is taken modulo the id
/// width, a string must spell a decimal number, anything else leaves the
/// identity unchanged.
pub open spec fn id_field_spec(v: FieldV) -> Result<Option<u32>, ()> {
    match v {
        FieldV::Int(n) => Ok(Some(n as u32)),
        FieldV::Str(s) => if is_valid_number(s, 10) && number_val(s, 10) <= u32::MAX {
            Ok(Some(number_val(s, 10) as u32))
        } else {
            Err(())
        },
        _ => Ok(None),
    }
}

fn id_field(v: &FieldValue) -> (r: Result<Option<u32>, ()>)
    ensures
        r == id_field_spec(v@),
{
    match v {
        FieldValue::Int(n) => Ok(Some(#[verifier::truncate] (*n as u32))),
        FieldValue::Str(s) => match parse_u32_radix(s.as_str(), 10) {
            Some(x) => Ok(Some(x)),
            None => Err(()),
        },
        _ => Ok(None),
    }
}

pub open spec fn copy_task_spec(msg: Seq<char>, f: TaskFieldsV, if_absent: bool) -> Result<
    TaskV,
    ConfigError,
> {
    match f.from {
        FieldV::Str(fr) => match f.to {
            FieldV::Str(t) => Ok(
                TaskV {
                    message: msg,
                    kind: if if_absent {
                        TaskKindV::CopyIfAbsent { from: fr, to: t }
                    } else {
                        TaskKindV::Copy { from: fr, to: t }
                    },
                },
            ),
            _ => Err(ConfigError::ToNotString),
        },
        _ => Err(ConfigError::FromNotString),
    }
}

pub open spec fn move_task_spec(msg: Seq<char>, f: TaskFieldsV) -> Result<TaskV, ConfigError> {
    match f.from {
        FieldV::Str(fr) => match f.to {
            FieldV::Str(t) => Ok(TaskV { message: msg, kind: TaskKindV::Move { from: fr, to: t } }),
            _ => Err(ConfigError::ToNotString),
        },
        _ => Err(ConfigError::FromNotString),
    }
}

pub open spec fn chown_task_spec(msg: Seq<char>, f: TaskFieldsV) -> Result<TaskV, ConfigError> {
    match f.target {
        FieldV::Str(tg) => match id_field_spec(f.uid) {
            Ok(uid) => match id_field_spec(f.gid) {
                Ok(gid) => Ok(
                    TaskV { message: msg, kind: TaskKindV::Chown { target: tg, uid, gid } },
                ),
                Err(_) => Err(ConfigError::InvalidGid),
            },
            Err(_) => Err(ConfigError::InvalidUid),
        },
        _ => Err(ConfigError::TargetNotString),
    }
}

pub open spec fn chmod_task_spec(msg: Seq<char>, f: TaskFieldsV) -> Result<TaskV, ConfigError> {
    match f.target {
        FieldV::Str(tg) => match f.mode {
            FieldV::Str(m) => if is_valid_number(m, 8) && number_val(m, 8) <= u32::MAX {
                Ok(
                    TaskV {
                        message: msg,
                        kind: TaskKindV::Chmod { target: tg, mode: number_val(m, 8) as u32 },
                    },
                )
            } else {
                Err(ConfigError::InvalidMode)
            },
            _ => Err(ConfigError::ModeNotString),
        },
        _ => Err(ConfigError::TargetNotString),
    }
}

pub open spec fn mk_task_spec(msg: Seq<char>, f: TaskFieldsV, dir: bool) -> Result<
    TaskV,
    ConfigError,
> {
    match f.target {
        FieldV::Str(tg) => Ok(
            TaskV {
                message: msg,
                kind: if dir {
                    TaskKindV::Mkdir { target: tg }
                } else {
                    TaskKindV::Mkfile { target: tg }
                },
            },
        ),
        _ => Err(ConfigError::TargetNotString),
    }
}

/// What [`build_task`] returns for given document fields: the message and
/// action must be strings; each recognized action requires its own fields to
/// be well typed; any other action string becomes `Unknown`.
pub open spec fn build_task_spec(f: TaskFieldsV) -> Result<TaskV, ConfigError> {
    match f.message {
        FieldV::Str(msg) => match f.action {
            FieldV::Str(a) => if a == "copy"@ {
                copy_task_spec(msg, f, false)
            } else if a == "copy-if-absent"@ {
                copy_task_spec(msg, f, true)
            } else if a == "move"@ {
                move_task_spec(msg, f)
            } else if a == "chown"@ {
                chown_task_spec(msg, f)
            } else if a == "chmod"@ {
                chmod_task_spec(msg, f)
            } else if a == "mkfile"@ {
                mk_task_spec(msg, f, false)
            } else if a == "mkdir"@ {
                mk_task_spec(msg, f, true)
            } else {
                Ok(TaskV { message: msg, kind: TaskKindV::Unknown })
            },
            _ => Err(ConfigError::ActionNotString),
        },
        _ => Err(ConfigError::MessageNotString),
    }
}

/// The value of a task-building result, for stating contracts.
pub open spec fn task_res_view(r: Result<Task, ConfigError>) -> Result<TaskV, ConfigError> {
    match r {
        Ok(t) => Ok(t@),
        Err(e) => Err(e),
    }
}

/// Builds the in-memory task from the fields of one document entry.
pub fn build_task(f: &TaskFields) -> (r: Result<Task, ConfigError>)
    ensures
        task_res_view(r) == build_task_spec(f@),
{
    let msg: &String = match &f.message {
        FieldValue::Str(s) => s,
        _ => {
            return Err(ConfigError::MessageNotString);
        },
    };
    let action: &String = match &f.action {
        FieldValue::Str(s) => s,
        _ => {
            return Err(ConfigError::ActionNotString);
        },
    };
    if str_eq(action.as_str(), "copy") || str_eq(action.as_str(), "copy-if-absent") {
        let if_absent = str_eq(action.as_str(), "copy-if-absent");
        proof {
            reveal_strlit("copy");
            reveal_strlit("copy-if-absent");
            assert("copy"@.len() == 4);
            assert("copy-if-absent"@.len() == 14);
        }
        let from: &String = match &f.from {
            FieldValue::Str(s) => s,
            _ => {
                return Err(ConfigError::FromNotString);
            },
        };
        let to: &String = match &f.to {
            FieldValue::Str(s) => s,
            _ => {
                return Err(ConfigError::ToNotString);
            },
        };
        let kind = if if_absent {
            TaskKind::CopyIfAbsent { from: from.clone(), to: to.clone() }
        } else {
            TaskKind::Copy { from: from.clone(), to: to.clone() }
        };
        Ok(Task { message: msg.clone(), kind })
    } else if str_eq(action.as_str(), "move") {
        let from: &String = match &f.from {
            FieldValue::Str(s) => s,
            _ => {
                return Err(ConfigError::FromNotString);
            },
        };
        let to: &String = match &f.to {
            FieldValue::Str(s) => s,
            _ => {
                return Err(ConfigError::ToNotString);
            },
        };
        Ok(Task { message: msg.clone(), kind: TaskKind::Move { from: from.clone(), to: to.clone() } })
    } else if str_eq(action.as_str(), "chown") {
        let target: &String = match &f.target {
            FieldValue::Str(s) => s,
            _ => {
                return Err(ConfigError::TargetNotString);
            },
        };
        let uid = match id_field(&f.uid) {
            Ok(v) => v,
            Err(_) => {
                return Err(ConfigError::InvalidUid);
            },
        };
        let gid = match id_field(&f.gid) {
            Ok(v) => v,
            Err(_) => {
                return Err(ConfigError::InvalidGid);
            },
        };
        Ok(
            Task {
                message: msg.clone(),
                kind: TaskKind::Chown { target: target.clone(), uid, gid },
            },
        )
    } else if str_eq(action.as_str(), "chmod") {
        let target: &String = match &f.target {
            FieldValue::Str(s) => s,
            _ => {
                return Err(ConfigError::TargetNotString);
            },
        };
        let mode_s: &String = match &f.mode {
            FieldValue::Str(s) => s,
            _ => {
                return Err(ConfigError::ModeNotString);
            },
        };
        let mode = match parse_u32_radix(mode_s.as_str(), 8) {
            Some(m) => m,
            None => {
                return Err(ConfigError::InvalidMode);
            },
        };
        Ok(
            Task {
                message: msg.clone(),
                kind: TaskKind::Chmod { target: target.clone(), mode },
            },
        )
    } else if str_eq(action.as_str(), "mkfile") {
        let target: &String = match &f.target {
            FieldValue::Str(s) => s,
            _ => {
                return Err(ConfigError::TargetNotString);
            },
        };
        Ok(Task { message: msg.clone(), kind: TaskKind::Mkfile { target: target.clone() } })
    } else if str_eq(action.as_str(), "mkdir") {
        let target: &String = match &f.target {
            FieldValue::Str(s) => s,
            _ => {
                return Err(ConfigError::TargetNotString);
            },
        };
        Ok(Task { message: msg.clone(), kind: TaskKind::Mkdir { target: target.clone() } })
    } else {
        Ok(Task { message: msg.clone(), kind: TaskKind::Unknown })
    }
}

/// True when the runner must delete itself and its configuration afterwards:
/// always, unless `keep` is the boolean `true`.
pub fn should_cleanup(keep: &FieldValue) -> (r: bool)
    ensures
        r == (keep@ != FieldV::Bool(true)),
{
    match keep {
        FieldValue::Bool(b) => !*b,
        _ => true,
    }
}

/// The decision of the copy actions on one matched file: copy when
/// overwriting is allowed or nothing is at the destination yet.
pub fn should_copy_file(overwrite: bool, dest_exists: bool) -> (r: bool)
    ensures
        r == (overwrite || !dest_exists),
{
    overwrite || !dest_exists
}

/// Builds the handoff argument vector: every configured entry must be a
/// string, and the entries become the target's arguments in order.
pub fn build_argv(args: &Vec<FieldValue>) -> (r: Result<Vec<String>, ConfigError>)
    ensures
        r is Ok <==> (forall|i: int| 0 <= i < args@.len() ==> #[trigger] args@[i]@ is Str),
        r matches Ok(v) ==> v@.len() == args@.len() && (forall|i: int|
            0 <= i < args@.len() ==> #[trigger] v@[i]@ == args@[i]@->Str_0),
        r matches Err(e) ==> e == ConfigError::ArgvEntryNotString,
{
    let mut out: Vec<String> = Vec::new();
    let mut i: usize = 0;
    while i < args.len()
        invariant
            i <= args@.len(),
            out@.len() == i,
            forall|k: int| 0 <= k < i ==> #[trigger] args@[k]@ is Str,
            forall|k: int| 0 <= k < i ==> #[trigger] out@[k]@ == args@[k]@->Str_0,
        decreases args@.len() - i,
    {
        let a = &args[i];
        proof {
            assert(*a == args@[i as int]);
        }
        match a {
            FieldValue::Str(s) => {
                out.push(s.clone());
                proof {
                    assert(out@[i as int]@ == args@[i as int]@->Str_0);
                }
            },
            FieldValue::Int(_) | FieldValue::Bool(_) | FieldValue::Absent | FieldValue::Other => {
                proof {
                    assert(!(args@[i as int]@ is Str));
                }
                return Err(ConfigError::ArgvEntryNotString);
            },
        }
        i += 1;
    }
    Ok(out)
}

} // verus!
