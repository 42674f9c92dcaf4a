//! The stored command definitions, and the statement that updates one.
//!
//! The database itself is the host's: here are the records that go in and
//! out, and the text of the one statement that depends on its input.

use vstd::prelude::*;
use vstd::string::*;
use crate::state::clone_opt_string;

verus! {

/// A stored command definition.
#[derive(Debug)]
pub struct Command {
    pub id: i64,
    pub name: String,
    pub command: String,
    pub sudo: bool,
    pub working_directory: Option<String>,
    pub url: Option<String>,
    pub notification_when_finished: bool,
    pub sort_order: i64,
    pub created_at: String,
    pub updated_at: String,
}

impl Clone for Command {
    fn clone(&self) -> (r: Self)
        ensures
            r == *self,
    {
        Command {
            id: self.id,
            name: self.name.clone(),
            command: self.command.clone(),
            sudo: self.sudo,
            working_directory: clone_opt_string(&self.working_directory),
            url: clone_opt_string(&self.url),
            notification_when_finished: self.notification_when_finished,
            sort_order: self.sort_order,
            created_at: self.created_at.clone(),
            updated_at: self.updated_at.clone(),
        }
    }
}

/// What is needed to store a new command definition.
#[derive(Debug)]
pub struct CreateCommandInput {
    pub name: String,
    pub command: String,
    pub sudo: bool,
    pub working_directory: Option<String>,
    pub url: Option<String>,
    pub notification_when_finished: bool,
}

impl Clone for CreateCommandInput {
    fn clone(&self) -> (r: Self)
        ensures
            r == *self,
    {
        CreateCommandInput {
            name: self.name.clone(),
            command: self.command.clone(),
            sudo: self.sudo,
            working_directory: clone_opt_string(&self.working_directory),
            url: clone_opt_string(&self.url),
            notification_when_finished: self.notification_when_finished,
        }
    }
}

/// The fields of a command definition to change; `None` leaves a field as
/// it is.
#[derive(Debug)]
pub struct UpdateCommandInput {
    pub name: Option<String>,
    pub command: Option<String>,
    pub sudo: Option<bool>,
    pub working_directory: Option<String>,
    pub url: Option<String>,
    pub notification_when_finished: Option<bool>,
}

impl Clone for UpdateCommandInput {
    fn clone(&self) -> (r: Self)
        ensures
            r == *self,
    {
        UpdateCommandInput {
            name: clone_opt_string(&self.name),
            command: clone_opt_string(&self.command),
            sudo: self.sudo,
            working_directory: clone_opt_string(&self.working_directory),
            url: clone_opt_string(&self.url),
            notification_when_finished: self.notification_when_finished,
        }
    }
}

/// A column of the command table that an update can set.
#[derive(Debug, Clone, Copy, PartialEq, Eq, Structural)]
pub enum UpdateColumn {
    Name,
    Command,
    Sudo,
    WorkingDirectory,
    Url,
    NotificationWhenFinished,
}

impl UpdateColumn {
    /// The column's name in the table.
    pub open spec fn name(self) -> Seq<char> {
        match self {
            UpdateColumn::Name => "name"@,
            UpdateColumn::Command => "command"@,
            UpdateColumn::Sudo => "sudo"@,
            UpdateColumn::WorkingDirectory => "working_directory"@,
            UpdateColumn::Url => "url"@,
            UpdateColumn::NotificationWhenFinished => "notification_when_finished"@,
        }
    }

    /// The column's name in the table.
    pub fn as_str(&self) -> (r: &'static str)
        ensures
            r@ == self.name(),
    {
        match self {
            UpdateColumn::Name => "name",
            UpdateColumn::Command => "command",
            UpdateColumn::Sudo => "sudo",
            UpdateColumn::WorkingDirectory => "working_directory",
            UpdateColumn::Url => "url",
            UpdateColumn::NotificationWhenFinished => "notification_when_finished",
        }
    }
}

/// `columns`, followed by `column` where `present`.
pub open spec fn with_column(columns: Seq<UpdateColumn>, present: bool, column: UpdateColumn) -> Seq<
    UpdateColumn,
> {
    if present {
        columns.push(column)
    } else {
        columns
    }
}

/// The columns that an update sets: those of the fields that are given, in
/// the order of the table.
pub open spec fn columns_of(input: UpdateCommandInput) -> Seq<UpdateColumn> {
    let a = with_column(Seq::empty(), input.name is Some, UpdateColumn::Name);
    let b = with_column(a, input.command is Some, UpdateColumn::Command);
    let c = with_column(b, input.sudo is Some, UpdateColumn::Sudo);
    let d = with_column(c, input.working_directory is Some, UpdateColumn::WorkingDirectory);
    let e = with_column(d, input.url is Some, UpdateColumn::Url);
    with_column(
        e,
        input.notification_when_finished is Some,
        UpdateColumn::NotificationWhenFinished,
    )
}

/// The assignments of an update statement: for each column its name, a
/// placeholder and a comma.
pub open spec fn assignments(columns: Seq<UpdateColumn>) -> Seq<char>
    decreases columns.len(),
{
    if columns.len() == 0 {
        Seq::empty()
    } else {
        assignments(columns.drop_last()) + columns.last().name() + " = ?, "@
    }
}

/// The statement that updates a command definition. It sets the given
/// columns and the time of the update, for the row whose id is bound last;
/// there is none where no field is given.
pub open spec fn update_sql(input: UpdateCommandInput) -> Option<Seq<char>> {
    if columns_of(input).len() == 0 {
        None
    } else {
        Some(
            "UPDATE commands SET "@ + assignments(columns_of(input))
                + "updated_at = CURRENT_TIMESTAMP WHERE id = ?"@,
        )
    }
}

/// The columns that an update sets, in the order in which their values are
/// bound.
pub fn update_columns(input: &UpdateCommandInput) -> (r: Vec<UpdateColumn>)
    ensures
        r@ == columns_of(*input),
{
    let mut v: Vec<UpdateColumn> = Vec::new();
    if input.name.is_some() {
        v.push(UpdateColumn::Name);
    }
    if input.command.is_some() {
        v.push(UpdateColumn::Command);
    }
    if input.sudo.is_some() {
        v.push(UpdateColumn::Sudo);
    }
    if input.working_directory.is_some() {
        v.push(UpdateColumn::WorkingDirectory);
    }
    if input.url.is_some() {
        v.push(UpdateColumn::Url);
    }
    if input.notification_when_finished.is_some() {
        v.push(UpdateColumn::NotificationWhenFinished);
    }
    v
}

/// The statement that updates a command definition; `None` where the input
/// changes nothing, so that nothing is to be executed.
pub fn update_statement(input: &UpdateCommandInput) -> (r: Option<String>)
    ensures
        crate::state::opt_text(r) == update_sql(*input),
{
    let columns = update_columns(input);
    if columns.len() == 0 {
        return None;
    }
    let mut sql = String::from_str("UPDATE commands SET ");
    let ghost head = sql@;
    let mut i: usize = 0;
    assert(columns@.take(0) =~= Seq::<UpdateColumn>::empty());
    assert(head + Seq::<char>::empty() =~= head);
    while i < columns.len()
        invariant
            i <= columns.len(),
            sql@ == head + assignments(columns@.take(i as int)),
        decreases columns.len() - i,
    {
        let ghost prefix = columns@.take(i + 1);
        proof {
            assert(prefix.drop_last() =~= columns@.take(i as int));
            assert(prefix.last() == columns@[i as int]);
        }
        sql.append(columns[i].as_str());
        sql.append(" = ?, ");
        assert(sql@ =~= head + assignments(prefix));
        i += 1;
    }
    assert(columns@.take(columns.len() as int) =~= columns@);
    sql.append("updated_at = CURRENT_TIMESTAMP WHERE id = ?");
    Some(sql)
}

} // verus!
