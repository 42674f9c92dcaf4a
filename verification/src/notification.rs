//! What the user is told when a run ends.

use vstd::prelude::*;
use vstd::string::*;
use crate::state::CommandStatus;
use crate::text::{decimal, push_decimal};

verus! {

/// A notification for the desktop: a title and a body.
#[derive(Debug)]
pub struct Notification {
    pub title: String,
    pub body: String,
}

/// The mathematical content of a [`Notification`].
pub struct NotificationView {
    pub title: Seq<char>,
    pub body: Seq<char>,
}

impl View for Notification {
    type V = NotificationView;

    open spec fn view(&self) -> NotificationView {
        NotificationView { title: self.title@, body: self.body@ }
    }
}

/// The view of an optional notification.
pub open spec fn opt_notification(n: Option<Notification>) -> Option<NotificationView> {
    match n {
        Some(v) => Some(v@),
        None => None,
    }
}

/// The notification that the end of a run calls for. Only `Success` and
/// `Failed` are announced; a failure names the exit code where one is known.
pub open spec fn notification_of(
    command_name: Seq<char>,
    status: CommandStatus,
    exit_code: Option<i32>,
) -> Option<NotificationView> {
    match status {
        CommandStatus::Success => Some(
            NotificationView {
                title: "命令执行成功"@,
                body: "命令 \""@ + command_name + "\" 已成功完成"@,
            },
        ),
        CommandStatus::Failed => Some(
            NotificationView {
                title: "命令执行失败"@,
                body: match exit_code {
                    Some(code) => "命令 \""@ + command_name + "\" 执行失败 (退出码: "@ + decimal(
                        code as int,
                    ) + ")"@,
                    None => "命令 \""@ + command_name + "\" 执行失败"@,
                },
            },
        ),
        _ => None,
    }
}

/// Builds the notification that the end of a run calls for.
pub fn build_notification(command_name: &str, status: CommandStatus, exit_code: Option<i32>) -> (r:
    Option<Notification>)
    ensures
        opt_notification(r) == notification_of(command_name@, status, exit_code),
{
    match status {
        CommandStatus::Success => {
            let mut body = String::from_str("命令 \"");
            body.append(command_name);
            body.append("\" 已成功完成");
            Some(Notification { title: String::from_str("命令执行成功"), body })
        },
        CommandStatus::Failed => {
            let mut body = String::from_str("命令 \"");
            body.append(command_name);
            match exit_code {
                Some(code) => {
                    body.append("\" 执行失败 (退出码: ");
                    push_decimal(&mut body, code as i64);
                    body.append(")");
                },
                None => {
                    body.append("\" 执行失败");
                },
            }
            Some(Notification { title: String::from_str("命令执行失败"), body })
        },
        _ => None,
    }
}

} // verus!
