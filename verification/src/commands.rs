//! Export and import of command definitions: the shape of an exported
//! definition, and the bookkeeping of an import.
//!
//! An import takes the definitions one by one. For each the host asks
//! `validate`, then looks the definition up in its store and tells
//! `duplicate_checked`, then stores it and tells `created`; a step that
//! answers `false` ends the work on that definition.

use vstd::prelude::*;
use vstd::string::*;
use crate::db::{Command, CreateCommandInput};
use crate::state::{clone_opt_string, ExecuteCommandParams};
use crate::text::{is_blank, str_is_blank};

verus! {

/// The request to run a stored definition.
pub fn execution_params(command: Command) -> (r: ExecuteCommandParams)
    ensures
        r == (ExecuteCommandParams {
            command_id: command.id,
            command_name: command.name,
            command: command.command,
            sudo: command.sudo,
            working_directory: command.working_directory,
            notification_when_finished: command.notification_when_finished,
        }),
{
    ExecuteCommandParams {
        command_id: command.id,
        command_name: command.name,
        command: command.command,
        sudo: command.sudo,
        working_directory: command.working_directory,
        notification_when_finished: command.notification_when_finished,
    }
}

/// A command definition as it is exported: without id, position and dates.
#[derive(Debug)]
pub struct ExportCommand {
    pub name: String,
    pub command: String,
    pub sudo: bool,
    pub working_directory: Option<String>,
    pub url: Option<String>,
    pub notification_when_finished: bool,
}

impl Clone for ExportCommand {
    fn clone(&self) -> (r: Self)
        ensures
            r == *self,
    {
        ExportCommand {
            name: self.name.clone(),
            command: self.command.clone(),
            sudo: self.sudo,
            working_directory: clone_opt_string(&self.working_directory),
            url: clone_opt_string(&self.url),
            notification_when_finished: self.notification_when_finished,
        }
    }
}

/// What is exported of a stored definition.
pub open spec fn export_of(cmd: Command) -> ExportCommand {
    ExportCommand {
        name: cmd.name,
        command: cmd.command,
        sudo: cmd.sudo,
        working_directory: cmd.working_directory,
        url: cmd.url,
        notification_when_finished: cmd.notification_when_finished,
    }
}

/// What is exported of stored definitions: of each its exported part, in
/// the same order.
pub fn export_all(commands: &Vec<Command>) -> (r: Vec<ExportCommand>)
    ensures
        r@ == commands@.map_values(|c: Command| export_of(c)),
{
    let mut out: Vec<ExportCommand> = Vec::new();
    let mut i: usize = 0;
    while i < commands.len()
        invariant
            i <= commands.len(),
            out@ == commands@.take(i as int).map_values(|c: Command| export_of(c)),
        decreases commands.len() - i,
    {
        let c = &commands[i];
        out.push(
            ExportCommand {
                name: c.name.clone(),
                command: c.command.clone(),
                sudo: c.sudo,
                working_directory: clone_opt_string(&c.working_directory),
                url: clone_opt_string(&c.url),
                notification_when_finished: c.notification_when_finished,
            },
        );
        assert(out@ =~= commands@.take(i + 1).map_values(|c: Command| export_of(c)));
        i += 1;
    }
    assert(commands@.take(commands.len() as int) =~= commands@);
    out
}

/// What is stored for an imported definition.
pub fn create_input(cmd: ExportCommand) -> (r: CreateCommandInput)
    ensures
        r == (CreateCommandInput {
            name: cmd.name,
            command: cmd.command,
            sudo: cmd.sudo,
            working_directory: cmd.working_directory,
            url: cmd.url,
            notification_when_finished: cmd.notification_when_finished,
        }),
{
    CreateCommandInput {
        name: cmd.name,
        command: cmd.command,
        sudo: cmd.sudo,
        working_directory: cmd.working_directory,
        url: cmd.url,
        notification_when_finished: cmd.notification_when_finished,
    }
}

/// A definition that was not imported.
#[derive(Debug)]
pub struct FailedItem {
    /// Its position in the imported list.
    pub index: usize,
    /// Why it was not imported.
    pub reason: String,
}

/// The mathematical content of a [`FailedItem`].
pub struct FailedItemView {
    pub index: usize,
    pub reason: Seq<char>,
}

impl View for FailedItem {
    type V = FailedItemView;

    open spec fn view(&self) -> FailedItemView {
        FailedItemView { index: self.index, reason: self.reason@ }
    }
}

/// The outcome of an import.
#[derive(Debug)]
pub struct ImportResult {
    /// How many definitions were stored.
    pub success_count: usize,
    /// How many were not.
    pub skip_count: usize,
    /// Those that were not, with the reason of each.
    pub failed_items: Vec<FailedItem>,
}

/// The mathematical content of an [`ImportResult`].
pub struct ImportResultView {
    pub success_count: usize,
    pub skip_count: usize,
    pub failed_items: Seq<FailedItemView>,
}

impl View for ImportResult {
    type V = ImportResultView;

    open spec fn view(&self) -> ImportResultView {
        ImportResultView {
            success_count: self.success_count,
            skip_count: self.skip_count,
            failed_items: self.failed_items@.map_values(|f: FailedItem| f@),
        }
    }
}

impl ImportResultView {
    /// The outcome after one more definition was skipped.
    pub open spec fn skipped(self, index: usize, reason: Seq<char>) -> ImportResultView {
        ImportResultView {
            success_count: self.success_count,
            skip_count: (self.skip_count + 1) as usize,
            failed_items: self.failed_items.push(FailedItemView { index, reason }),
        }
    }

    /// The outcome after one more definition was stored.
    pub open spec fn stored(self) -> ImportResultView {
        ImportResultView { success_count: (self.success_count + 1) as usize, ..self }
    }
}

/// Why a definition is refused before the store is asked: its name is
/// blank, or its command is.
pub open spec fn validation_failure(name: Seq<char>, command: Seq<char>) -> Option<Seq<char>> {
    if is_blank(name) {
        Some("命令名称不能为空"@)
    } else if is_blank(command) {
        Some("命令内容不能为空"@)
    } else {
        None
    }
}

/// Why a definition is refused after the store was asked for a definition
/// of the same name and command: there is one, or the store failed.
pub open spec fn duplicate_failure(outcome: Result<bool, String>) -> Option<Seq<char>> {
    match outcome {
        Ok(exists) => if exists {
            Some("命令已存在（名称和内容重复）"@)
        } else {
            None
        },
        Err(e) => Some("检查重复失败: "@ + e@),
    }
}

impl ImportResult {
    /// The outcome of an import that has not begun.
    pub fn new() -> (r: Self)
        ensures
            r@ == (ImportResultView {
                success_count: 0,
                skip_count: 0,
                failed_items: Seq::empty(),
            }),
    {
        let r = ImportResult { success_count: 0, skip_count: 0, failed_items: Vec::new() };
        assert(r@.failed_items =~= Seq::empty());
        r
    }

    fn skip(&mut self, index: usize, reason: String)
        requires
            old(self).skip_count < usize::MAX,
        ensures
            final(self)@ == old(self)@.skipped(index, reason@),
    {
        let item = FailedItem { index, reason };
        self.failed_items.push(item);
        self.skip_count = self.skip_count + 1;
        assert(self@.failed_items =~= old(self)@.failed_items.push(item@));
    }

    /// Checks the definition at `index` before the store is asked. A
    /// definition with a blank name or a blank command is skipped with the
    /// reason, and the answer is `false`; otherwise nothing is recorded and
    /// the answer is `true`.
    pub fn validate(&mut self, index: usize, cmd: &ExportCommand) -> (proceed: bool)
        requires
            old(self).skip_count < usize::MAX,
        ensures
            match validation_failure(cmd.name@, cmd.command@) {
                Some(reason) => !proceed && final(self)@ == old(self)@.skipped(index, reason),
                None => proceed && final(self)@ == old(self)@,
            },
    {
        if str_is_blank(cmd.name.as_str()) {
            self.skip(index, String::from_str("命令名称不能为空"));
            false
        } else if str_is_blank(cmd.command.as_str()) {
            self.skip(index, String::from_str("命令内容不能为空"));
            false
        } else {
            true
        }
    }

    /// Takes the store's answer to whether the definition at `index` exists
    /// already. A definition that exists, or for which the store failed, is
    /// skipped with the reason, and the answer is `false`; otherwise
    /// nothing is recorded and the answer is `true`.
    pub fn duplicate_checked(&mut self, index: usize, outcome: &Result<bool, String>) -> (proceed:
        bool)
        requires
            old(self).skip_count < usize::MAX,
        ensures
            match duplicate_failure(*outcome) {
                Some(reason) => !proceed && final(self)@ == old(self)@.skipped(index, reason),
                None => proceed && final(self)@ == old(self)@,
            },
    {
        match outcome {
            Ok(exists) => {
                if *exists {
                    self.skip(index, String::from_str("命令已存在（名称和内容重复）"));
                    false
                } else {
                    true
                }
            },
            Err(e) => {
                let mut reason = String::from_str("检查重复失败: ");
                reason.append(e.as_str());
                self.skip(index, reason);
                false
            },
        }
    }

    /// Takes the store's answer to storing the definition at `index`: one
    /// more success, or one more skipped definition with the store's error.
    pub fn created(&mut self, index: usize, outcome: &Result<(), String>)
        requires
            old(self).skip_count < usize::MAX,
            old(self).success_count < usize::MAX,
        ensures
            match *outcome {
                Ok(_) => final(self)@ == old(self)@.stored(),
                Err(e) => final(self)@ == old(self)@.skipped(index, "创建命令失败: "@ + e@),
            },
    {
        match outcome {
            Ok(_) => {
                self.success_count = self.success_count + 1;
            },
            Err(e) => {
                let mut reason = String::from_str("创建命令失败: ");
                reason.append(e.as_str());
                self.skip(index, reason);
            },
        }
    }
}

} // verus!
