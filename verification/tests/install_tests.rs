use sclauncher::install::{
    choose_game_path, executable_path, install_location_value, join, uninstall_key, key_name_matches, key_pattern, needs_search,
    pattern_for_literal, subkey_path,
};
use sclauncher::prompt::{
    choose_installed, launch_count, launch_count_from, path_error_message, typed_path,
    typed_path_from, PathError, DEFAULT_LAUNCHES,
};

#[test]
fn first_search_result_decides_the_path() {
    let matches = vec![(
        "HKEY_LOCAL_MACHINE\\SOFTWARE\\StarCraft\\1.0".to_string(),
        "D:\\Games\\SC".to_string(),
    )];
    assert_eq!(
        choose_game_path(None, &matches, true),
        Some("D:\\Games\\SC\\x86_64\\StarCraft.exe".to_string())
    );
    assert_eq!(
        choose_game_path(None, &matches, false),
        Some("D:\\Games\\SC\\x86\\StarCraft.exe".to_string())
    );
}

#[test]
fn search_result_overrides_the_direct_lookup() {
    let matches = vec![
        ("a".to_string(), "E:\\SC".to_string()),
        ("b".to_string(), "F:\\Other".to_string()),
    ];
    assert_eq!(
        choose_game_path(Some("C:\\direct\\x86\\StarCraft.exe".to_string()), &matches, false),
        Some("E:\\SC\\x86\\StarCraft.exe".to_string())
    );
}

#[test]
fn direct_lookup_stands_without_search_results() {
    let direct = Some("C:\\direct\\x86_64\\StarCraft.exe".to_string());
    assert_eq!(choose_game_path(direct.clone(), &vec![], true), direct);
    assert_eq!(choose_game_path(None, &vec![], true), None);
}

#[test]
fn search_is_needed_when_asked_or_when_nothing_was_found() {
    assert!(needs_search(true, true));
    assert!(needs_search(true, false));
    assert!(needs_search(false, false));
    assert!(!needs_search(false, true));
}

#[test]
fn executable_path_by_architecture() {
    assert_eq!(executable_path("D:\\Games\\SC", true), "D:\\Games\\SC\\x86_64\\StarCraft.exe");
    assert_eq!(executable_path("D:\\Games\\SC", false), "D:\\Games\\SC\\x86\\StarCraft.exe");
    assert_eq!(executable_path("D:\\Games\\SC\\", false), "D:\\Games\\SC\\x86\\StarCraft.exe");
    assert_eq!(executable_path("D:/Games/SC/", true), "D:/Games/SC/x86_64\\StarCraft.exe");
    assert_eq!(executable_path("", true), "x86_64\\StarCraft.exe");
}

#[test]
fn join_adds_one_separator_where_none_ends_the_path() {
    assert_eq!(join("C:\\a".to_string(), "b"), "C:\\a\\b");
    assert_eq!(join("C:\\a\\".to_string(), "b"), "C:\\a\\b");
    assert_eq!(join("C:/a/".to_string(), "b"), "C:/a/b");
    assert_eq!(join(String::new(), "b"), "b");
}

#[test]
fn key_pattern_is_the_escaped_lower_case_term() {
    assert_eq!(key_pattern("StarCraft"), "(?i)^starcraft$");
    assert_eq!(key_pattern("Star.Craft (x86)"), "(?i)^star\\.craft \\(x86\\)$");
    assert_eq!(
        key_pattern("\\.+*?()|[]{}^$#&-~"),
        "(?i)^\\\\\\.\\+\\*\\?\\(\\)\\|\\[\\]\\{\\}\\^\\$\\#\\&\\-\\~$"
    );
    assert_eq!(key_pattern("%/!\"e \u{e9}"), "(?i)^%/!\"e \u{e9}$");
    assert_eq!(pattern_for_literal("abc"), "(?i)^abc$");
    assert_eq!(pattern_for_literal(""), "(?i)^$");
}

#[test]
fn key_names_match_whole_and_without_case() {
    assert_eq!(key_name_matches("StarCraft", "StarCraft"), Some(true));
    assert_eq!(key_name_matches("StarCraft", "STARCRAFT"), Some(true));
    assert_eq!(key_name_matches("StarCraft", "starcraft"), Some(true));
    assert_eq!(key_name_matches("StarCraft", "StarCraft II"), Some(false));
    assert_eq!(key_name_matches("StarCraft", "My StarCraft"), Some(false));
    assert_eq!(key_name_matches("StarCraft", ""), Some(false));
}

#[test]
fn key_terms_are_taken_literally() {
    assert_eq!(key_name_matches("a.c", "abc"), Some(false));
    assert_eq!(key_name_matches("a.c", "A.C"), Some(true));
    assert_eq!(key_name_matches("x+", "xx"), Some(false));
    assert_eq!(key_name_matches("(1)", "(1)"), Some(true));
}

#[test]
fn subkey_path_joins_with_a_backslash() {
    assert_eq!(
        subkey_path("HKEY_LOCAL_MACHINE", "SOFTWARE"),
        "HKEY_LOCAL_MACHINE\\SOFTWARE"
    );
    assert_eq!(subkey_path("", ""), "\\");
}

#[test]
fn launch_count_reads_a_number_or_falls_back() {
    assert_eq!(DEFAULT_LAUNCHES, 2);
    assert_eq!(launch_count("5\n"), 5);
    assert_eq!(launch_count("  12  \r\n"), 12);
    assert_eq!(launch_count("0"), 0);
    assert_eq!(launch_count(""), 2);
    assert_eq!(launch_count("   \n"), 2);
    assert_eq!(launch_count("many"), 2);
    assert_eq!(launch_count("-1"), 2);
    assert_eq!(launch_count("4294967296"), 2);
    assert_eq!(launch_count("4294967295"), 4294967295);
}

#[test]
fn launch_count_from_its_parts() {
    assert_eq!(launch_count_from(true, Some(9)), 2);
    assert_eq!(launch_count_from(true, None), 2);
    assert_eq!(launch_count_from(false, Some(9)), 9);
    assert_eq!(launch_count_from(false, None), 2);
}

#[test]
fn typed_path_is_trimmed() {
    assert_eq!(typed_path("  D:\\Games\\StarCraft \r\n"), Ok("D:\\Games\\StarCraft"));
    assert_eq!(typed_path(" \n"), Err(PathError::NoPath));
    assert_eq!(typed_path(""), Err(PathError::NoPath));
    assert_eq!(typed_path_from("x"), Ok("x"));
    assert_eq!(typed_path_from(""), Err(PathError::NoPath));
}

#[test]
fn installed_executable_is_chosen_from_what_exists() {
    assert_eq!(choose_installed("D:\\SC", false, true, true), Err(PathError::MissingBase));
    assert_eq!(
        choose_installed("D:\\SC", true, true, true),
        Ok("D:\\SC\\x86\\StarCraft.exe".to_string())
    );
    assert_eq!(
        choose_installed("D:\\SC", true, false, true),
        Ok("D:\\SC\\x86_64\\StarCraft.exe".to_string())
    );
    assert_eq!(choose_installed("D:\\SC", true, false, false), Err(PathError::NoExecutable));
}

#[test]
fn path_error_messages() {
    assert_eq!(path_error_message(PathError::NoPath, "a", "b"), "No path provided.");
    assert_eq!(
        path_error_message(PathError::MissingBase, "a", "b"),
        "The provided base path does not exist."
    );
    assert_eq!(
        path_error_message(PathError::NoExecutable, "D:\\x86\\S.exe", "D:\\x86_64\\S.exe"),
        "Neither 'D:\\x86\\S.exe' nor 'D:\\x86_64\\S.exe' exist."
    );
}

#[test]
fn uninstall_keys() {
    assert_eq!(
        uninstall_key(false),
        "SOFTWARE\\Microsoft\\Windows\\CurrentVersion\\Uninstall\\StarCraft"
    );
    assert_eq!(
        uninstall_key(true),
        "SOFTWARE\\WOW6432Node\\Microsoft\\Windows\\CurrentVersion\\Uninstall\\StarCraft"
    );
    assert_eq!(install_location_value(), "InstallLocation");
}
