use authkit::migrations::runner::{split_statements, strip_leading_comments};

#[test]
fn test_strip_leading_comments_simple() {
    let sql = "-- This is a comment\nCREATE TABLE users (id TEXT)";
    let result = strip_leading_comments(sql);
    assert_eq!(result, "CREATE TABLE users (id TEXT)");
}

#[test]
fn test_strip_leading_comments_multiple_comments() {
    let sql = "-- Comment 1\n-- Comment 2\n-- Comment 3\nCREATE TABLE users (id TEXT)";
    let result = strip_leading_comments(sql);
    assert_eq!(result, "CREATE TABLE users (id TEXT)");
}

#[test]
fn test_strip_leading_comments_with_blank_lines() {
    let sql = "-- Comment\n\n-- Another comment\n\nCREATE TABLE users (id TEXT)";
    let result = strip_leading_comments(sql);
    assert_eq!(result, "CREATE TABLE users (id TEXT)");
}

#[test]
fn test_strip_leading_comments_no_comments() {
    let sql = "CREATE TABLE users (id TEXT)";
    let result = strip_leading_comments(sql);
    assert_eq!(result, "CREATE TABLE users (id TEXT)");
}

#[test]
fn test_strip_leading_comments_only_comments() {
    let sql = "-- Just a comment\n-- Another comment";
    let result = strip_leading_comments(sql);
    assert_eq!(result, "");
}

#[test]
fn test_strip_leading_comments_preserves_inline_comments() {
    let sql = "-- Leading comment\nCREATE TABLE users (\n    id TEXT, -- inline comment\n    name TEXT\n)";
    let result = strip_leading_comments(sql);
    assert_eq!(
        result,
        "CREATE TABLE users (\n    id TEXT, -- inline comment\n    name TEXT\n)"
    );
}

#[test]
fn test_strip_leading_comments_multiline_statement() {
    let sql = r#"-- Accounts table: Links authentication providers to users
-- For email/password, provider = 'credential' and password_hash is set
-- For OAuth (future), provider = 'google'/'github'/etc
CREATE TABLE IF NOT EXISTS accounts (
    id TEXT PRIMARY KEY,
    user_id TEXT NOT NULL REFERENCES users(id) ON DELETE CASCADE,
    provider TEXT NOT NULL
)"#;
    let result = strip_leading_comments(sql);
    assert!(result.starts_with("CREATE TABLE IF NOT EXISTS accounts"));
    assert!(result.contains("id TEXT PRIMARY KEY"));
}

#[test]
fn test_strip_leading_comments_round_trip() {
    let result = strip_leading_comments("-- c1\n\n-- c2\nCREATE TABLE t (id INT)");
    assert_eq!(result, "CREATE TABLE t (id INT)");
}

#[test]
fn test_strip_leading_comments_inline_body_unchanged() {
    let body = "id TEXT, -- note\n  name TEXT";
    let result = strip_leading_comments(body);
    assert_eq!(result, "id TEXT, -- note\n  name TEXT");
}

#[test]
fn test_split_statements_two_statements() {
    let sql = "CREATE TABLE a (id INT);\nCREATE TABLE b (id INT);";
    let statements = split_statements(sql);
    assert_eq!(statements.len(), 2);
    assert_eq!(statements[0], "CREATE TABLE a (id INT)");
    assert_eq!(statements[1], "CREATE TABLE b (id INT)");
}

#[test]
fn test_split_statements_drops_comment_only_pieces() {
    let sql = "-- header comment\nCREATE TABLE a (id INT);\n-- trailing comment block\n";
    let statements = split_statements(sql);
    assert_eq!(statements.len(), 1);
    assert_eq!(statements[0], "CREATE TABLE a (id INT)");
}

#[test]
fn test_split_statements_empty_input() {
    let statements = split_statements("");
    assert!(statements.is_empty());
}

#[test]
fn test_split_statements_preserves_order() {
    let sql = "INSERT INTO t VALUES (1);INSERT INTO t VALUES (2);INSERT INTO t VALUES (3)";
    let statements = split_statements(sql);
    assert_eq!(statements.len(), 3);
    assert_eq!(statements[0], "INSERT INTO t VALUES (1)");
    assert_eq!(statements[1], "INSERT INTO t VALUES (2)");
    assert_eq!(statements[2], "INSERT INTO t VALUES (3)");
}

#[test]
fn test_split_statements_base_schema() {
    let statements = split_statements(authkit::schema::features::base::POSTGRES_UP);
    assert_eq!(statements.len(), 13);
    assert!(statements[0].starts_with("CREATE TABLE IF NOT EXISTS users"));
    assert!(statements[12].starts_with("CREATE INDEX IF NOT EXISTS idx_verification_expires_at"));
}
