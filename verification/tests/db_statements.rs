use rusqlite::{Connection, ToSql};
use sigil::db::{update_columns, update_statement, UpdateColumn, UpdateCommandInput};

fn open_database() -> Connection {
    let conn = Connection::open_in_memory().unwrap();
    conn.execute(
        "CREATE TABLE IF NOT EXISTS commands (
            id INTEGER PRIMARY KEY AUTOINCREMENT,
            name TEXT NOT NULL,
            command TEXT NOT NULL,
            sudo BOOLEAN NOT NULL DEFAULT 0,
            working_directory TEXT,
            url TEXT,
            notification_when_finished BOOLEAN NOT NULL DEFAULT 0,
            sort_order INTEGER NOT NULL DEFAULT 0,
            created_at TIMESTAMP DEFAULT CURRENT_TIMESTAMP,
            updated_at TIMESTAMP DEFAULT CURRENT_TIMESTAMP
        )",
        [],
    )
    .unwrap();
    conn
}

fn insert(conn: &Connection, name: &str, command: &str) -> i64 {
    let no_text: Option<String> = None;
    let values: [&dyn ToSql; 7] = [&name, &command, &false, &no_text, &no_text, &false, &0i64];
    conn.execute(
        "INSERT INTO commands (name, command, sudo, working_directory, url, notification_when_finished, sort_order)
         VALUES (?1, ?2, ?3, ?4, ?5, ?6, ?7)",
        values.as_slice(),
    )
    .unwrap();
    conn.last_insert_rowid()
}

fn update(conn: &Connection, id: i64, input: &UpdateCommandInput) -> usize {
    let Some(sql) = update_statement(input) else {
        return 0;
    };
    let mut values: Vec<Box<dyn ToSql>> = Vec::new();
    for column in update_columns(input) {
        match column {
            UpdateColumn::Name => values.push(Box::new(input.name.clone())),
            UpdateColumn::Command => values.push(Box::new(input.command.clone())),
            UpdateColumn::Sudo => values.push(Box::new(input.sudo)),
            UpdateColumn::WorkingDirectory => values.push(Box::new(input.working_directory.clone())),
            UpdateColumn::Url => values.push(Box::new(input.url.clone())),
            UpdateColumn::NotificationWhenFinished => {
                values.push(Box::new(input.notification_when_finished))
            }
        }
    }
    values.push(Box::new(id));
    let refs: Vec<&dyn ToSql> = values.iter().map(|b| b.as_ref()).collect();
    conn.execute(&sql, refs.as_slice()).unwrap()
}

fn text(conn: &Connection, id: i64, column: &str) -> Option<String> {
    conn.query_row(&format!("SELECT {} FROM commands WHERE id = ?1", column), [id], |row| row.get(0))
        .unwrap()
}

fn flag(conn: &Connection, id: i64, column: &str) -> bool {
    conn.query_row(&format!("SELECT {} FROM commands WHERE id = ?1", column), [id], |row| row.get(0))
        .unwrap()
}

#[test]
fn test_update_command() {
    let conn = open_database();
    let id = insert(&conn, "原始名称", "echo original");

    let update_input = UpdateCommandInput {
        name: Some("新名称".to_string()),
        command: None,
        sudo: None,
        working_directory: None,
        url: None,
        notification_when_finished: None,
    };
    assert_eq!(update(&conn, id, &update_input), 1);

    assert_eq!(text(&conn, id, "name").unwrap(), "新名称");
    assert_eq!(text(&conn, id, "command").unwrap(), "echo original");
}

#[test]
fn update_of_every_column_reaches_the_database() {
    let conn = open_database();
    let id = insert(&conn, "a", "echo a");
    let other = insert(&conn, "b", "echo b");

    let input = UpdateCommandInput {
        name: Some("n".to_string()),
        command: Some("c".to_string()),
        sudo: Some(true),
        working_directory: Some("/w".to_string()),
        url: Some("http://u".to_string()),
        notification_when_finished: Some(true),
    };
    assert_eq!(update(&conn, id, &input), 1);
    assert_eq!(text(&conn, id, "name").unwrap(), "n");
    assert_eq!(text(&conn, id, "command").unwrap(), "c");
    assert!(flag(&conn, id, "sudo"));
    assert_eq!(text(&conn, id, "working_directory").unwrap(), "/w");
    assert_eq!(text(&conn, id, "url").unwrap(), "http://u");
    assert!(flag(&conn, id, "notification_when_finished"));
    // the other row is untouched
    assert_eq!(text(&conn, other, "name").unwrap(), "b");
    assert_eq!(text(&conn, other, "working_directory"), None);

    let input = UpdateCommandInput {
        name: None,
        command: None,
        sudo: Some(false),
        working_directory: None,
        url: None,
        notification_when_finished: Some(false),
    };
    assert_eq!(update(&conn, id, &input), 1);
    assert!(!flag(&conn, id, "sudo"));
    assert!(!flag(&conn, id, "notification_when_finished"));
    assert_eq!(text(&conn, id, "name").unwrap(), "n");
}

#[test]
fn update_without_fields_executes_nothing() {
    let conn = open_database();
    let id = insert(&conn, "a", "echo a");
    let input = UpdateCommandInput {
        name: None,
        command: None,
        sudo: None,
        working_directory: None,
        url: None,
        notification_when_finished: None,
    };
    assert_eq!(update(&conn, id, &input), 0);
    assert_eq!(text(&conn, id, "name").unwrap(), "a");
}
