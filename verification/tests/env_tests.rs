use backend::env::{debug_hint, get_var, marked_key, parse_env_line, require_var};

fn entry(key: &str, value: &str) -> Option<(String, String)> {
    Some((key.to_string(), value.to_string()))
}

#[test]
fn plain_lines_set_a_variable() {
    assert_eq!(parse_env_line("PORT=3001"), entry("PORT", "3001"));
    assert_eq!(parse_env_line("  MONGO_DB = dazabaze  "), entry("MONGO_DB", "dazabaze"));
    assert_eq!(parse_env_line("KEY=value\r"), entry("KEY", "value"));
    assert_eq!(parse_env_line("KEY="), entry("KEY", ""));
}

#[test]
fn value_starts_after_the_first_equals_sign() {
    assert_eq!(
        parse_env_line("MONGO_URI=mongodb://h/db?a=b&c=d"),
        entry("MONGO_URI", "mongodb://h/db?a=b&c=d")
    );
    assert_eq!(parse_env_line("A==b"), entry("A", "=b"));
}

#[test]
fn empty_lines_comments_and_lines_without_equals_set_nothing() {
    for line in ["", "   ", "# comment", "  # KEY=value", "#", "KEY", "KEY value", "=value", "  = value", "\u{feff}=x"] {
        assert_eq!(parse_env_line(line), None, "{:?}", line);
    }
}

#[test]
fn quotes_around_a_value_are_removed_once() {
    assert_eq!(parse_env_line("S=\"dev secret\""), entry("S", "dev secret"));
    assert_eq!(parse_env_line("S = \" padded \" "), entry("S", " padded "));
    assert_eq!(parse_env_line("S=\"\""), entry("S", ""));
    assert_eq!(parse_env_line("S=\"\"x\"\""), entry("S", "\"x\""));
    assert_eq!(parse_env_line("S=\""), entry("S", "\""));
    assert_eq!(parse_env_line("S=\"open"), entry("S", "\"open"));
    assert_eq!(parse_env_line("S=close\""), entry("S", "close\""));
    assert_eq!(parse_env_line("S='single'"), entry("S", "'single'"));
    assert_eq!(parse_env_line("S=\"é\""), entry("S", "é"));
}

#[test]
fn byte_order_marks_before_the_key_are_removed() {
    assert_eq!(parse_env_line("\u{feff}MONGO_URI=x"), entry("MONGO_URI", "x"));
    assert_eq!(parse_env_line("\u{feff}\u{feff}K=x"), entry("K", "x"));
    assert_eq!(parse_env_line(" \u{feff}K =x"), entry("K", "x"));
    // the key is trimmed before the marks are removed, not after
    assert_eq!(parse_env_line("\u{feff} K=x"), entry(" K", "x"));
    // marks elsewhere stay
    assert_eq!(parse_env_line("K\u{feff}=\u{feff}x"), entry("K\u{feff}", "\u{feff}x"));
}

#[test]
fn marked_key_is_the_mark_and_the_key() {
    assert_eq!(marked_key("MONGO_URI"), "\u{feff}MONGO_URI");
    assert_eq!(marked_key(""), "\u{feff}");
}

#[test]
fn variable_is_read_under_its_key_first() {
    let (a, b) = (Some("a".to_string()), Some("b".to_string()));
    assert_eq!(get_var(a.clone(), b.clone()), a);
    assert_eq!(get_var(a.clone(), None), a);
    assert_eq!(get_var(None, b.clone()), b);
    assert_eq!(get_var(None, None), None);
}

#[test]
fn required_variable_is_there_or_named_in_the_message() {
    assert_eq!(require_var("MONGO_URI", Some("mongodb://h".to_string()), "cwd=/srv"), Ok("mongodb://h".to_string()));
    assert_eq!(
        require_var("MONGO_URI", None, "cwd=/srv; .env exists? false"),
        Err("Missing required env var: MONGO_URI. cwd=/srv; .env exists? false".to_string())
    );
    assert_eq!(require_var("", None, ""), Err("Missing required env var: . ".to_string()));
}

#[test]
fn hint_names_the_directory_and_the_files() {
    assert_eq!(
        debug_hint("/srv/app", true, false, true),
        "cwd=/srv/app; .env exists? true ; backend/.env exists? false ; ../.env exists? true"
    );
    assert_eq!(
        debug_hint("<unknown>", false, false, false),
        "cwd=<unknown>; .env exists? false ; backend/.env exists? false ; ../.env exists? false"
    );
}
