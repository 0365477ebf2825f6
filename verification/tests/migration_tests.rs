use easy_lang::migrations::{
    latest_version, migrations, pending_migrations, split_script, version_table_commands,
    Migration, CREATE_VERSION_TABLE, INSERT_FIRST_VERSION, SCHEMA_V1,
};

#[test]
fn the_schema_migration() {
    let m = migrations();
    assert_eq!(m.len(), 1);
    assert_eq!((m[0].from, m[0].to), (0, 1));
    assert!(m[0].script.contains("CREATE TABLE IF NOT EXISTS users"));
    assert_eq!(latest_version(&m), 1);
    assert_eq!(m[0].script, SCHEMA_V1);
}

#[test]
fn version_table_first() {
    let c = version_table_commands();
    assert_eq!(c, vec![CREATE_VERSION_TABLE, INSERT_FIRST_VERSION]);
}

#[test]
fn pending_keeps_order_and_filters() {
    let ms = vec![
        Migration { from: 0, to: 1, script: "a;" },
        Migration { from: 1, to: 2, script: "b;" },
        Migration { from: 2, to: 3, script: "c;" },
    ];
    let p = pending_migrations(&ms, 1);
    assert_eq!(p.iter().map(|m| m.from).collect::<Vec<_>>(), vec![1, 2]);
    assert_eq!(pending_migrations(&ms, 0).len(), 3);
    assert_eq!(pending_migrations(&ms, 5).len(), 0);
    assert_eq!(latest_version(&ms), 3);
}

#[test]
fn split_simple_statements() {
    let s = split_script("CREATE TABLE a (x INT);\nINSERT INTO a VALUES (1);\n");
    assert_eq!(s, vec!["CREATE TABLE a (x INT);\n", "INSERT INTO a VALUES (1);\n"]);
}

#[test]
fn split_multiline_statement_and_blank_tail() {
    let s = split_script("\n  CREATE TABLE a (\n  x INT\n);\n\n   ");
    assert_eq!(s, vec!["\n  CREATE TABLE a (\n  x INT\n);\n"]);
}

#[test]
fn split_keeps_dollar_blocks_together() {
    let script = "CREATE FUNCTION f() RETURNS void AS $$\nBEGIN\n  x;\n  y;\nEND;\n$$ LANGUAGE plpgsql;\nSELECT 1;";
    let s = split_script(script);
    assert_eq!(s, vec![
        "CREATE FUNCTION f() RETURNS void AS $$\nBEGIN\n  x;\n  y;\nEND;\n$$ LANGUAGE plpgsql;\n",
        "SELECT 1;\n",
    ]);
}

#[test]
fn split_unterminated_tail_is_kept() {
    let s = split_script("SELECT 1;\r\nSELECT 2");
    assert_eq!(s, vec!["SELECT 1;\n", "SELECT 2\n"]);
}

#[test]
fn split_the_schema() {
    let s = split_script(SCHEMA_V1);
    assert_eq!(s.len(), 18);
    assert!(s[0].contains("CREATE TABLE IF NOT EXISTS users"));
    assert!(s[7].contains("-- Insert some default language levels"));
    assert!(s[17].contains("'Spanish'"));
    for st in &s {
        assert!(!st.trim().is_empty());
    }
    // nothing but white space is lost
    let joined: String = s.concat();
    let mut expected = String::new();
    for line in SCHEMA_V1.lines() {
        expected.push_str(line);
        expected.push('\n');
    }
    assert!(expected.starts_with(&joined));
    assert!(expected[joined.len()..].trim().is_empty());
}

#[test]
fn split_empty_script() {
    assert!(split_script("").is_empty());
    assert!(split_script("  \n\t\n").is_empty());
}

#[test]
fn split_restores_plain_script() {
    let script = "CREATE TABLE a (x INT);\n\nINSERT INTO a VALUES (1);\n   \n";
    let s = split_script(script);
    let joined: String = s.concat();
    assert_eq!(joined, "CREATE TABLE a (x INT);\n\nINSERT INTO a VALUES (1);\n");
    assert!(script.starts_with(&joined));
    assert!(script[joined.len()..].trim().is_empty());
}

#[test]
fn second_run_applies_nothing() {
    let ms = vec![
        Migration { from: 0, to: 1, script: "a;" },
        Migration { from: 1, to: 2, script: "b;" },
    ];
    let first = pending_migrations(&ms, 0);
    let stored = first.last().unwrap().to;
    assert!(pending_migrations(&ms, stored).is_empty());
    let all = migrations();
    let stored = pending_migrations(&all, 0).last().unwrap().to;
    assert!(pending_migrations(&all, stored).is_empty());
}
