use lk::bash_file::BashFile;
use lk::config::{Config, ConfigFile};
use lk::executables::{is_ignored, mode_is_executable, Executable, Executables};
use lk::script::{clean_comment_line, get_function, is_function_header_line, Script};
use lk::strutil::str_eq;

fn executable(path: &str) -> Executable {
    Executable {
        short_name: path.rsplit('/').next().unwrap().to_string(),
        path: path.to_string(),
        absolute_path: format!("/home/user/{}", path),
    }
}

#[test]
fn it_works() {
    let result = 2 + 2;
    assert_eq!(result, 4);
}

#[test]
fn test_clean_comment_line() {
    assert_eq!(clean_comment_line("#First line"), "First line");
    assert_eq!(clean_comment_line("# First line"), "First line");
    assert_eq!(clean_comment_line("# First # line"), "First # line");
    assert_eq!(clean_comment_line("## First # line"), "First # line");
    assert_eq!(clean_comment_line("### First # line"), "First # line");
    assert_eq!(clean_comment_line("### #First # line"), "#First # line");
    assert_eq!(clean_comment_line("#"), "");
    assert_eq!(clean_comment_line("#    "), "");
    assert_eq!(clean_comment_line("#   "), "");
    assert_eq!(clean_comment_line("##   "), "");
}

#[test]
fn test_get_function() {
    // Given
    let line = String::from("some_function(){");
    let comments = vec![String::from("First line"), String::from("Second line")];

    // When
    let function = get_function(line, &comments);

    // Then
    assert_eq!(function.name, "some_function");
    assert_eq!(function.comment, vec!["First line", "Second line"]);
}

#[test]
fn test_get_function_edge() {
    // Given
    let line = String::from("   some_function   ()   {");
    let comments = vec![String::from("First line"), String::from("Second # line")];

    // When
    let function = get_function(line, &comments);

    // Then
    assert_eq!(function.name, "some_function");
    assert_eq!(function.comment, vec!["First line", "Second # line"]);
}

#[test]
fn test_is_function_header_line() {
    assert!(is_function_header_line(&String::from("some_function(){")));
    assert!(is_function_header_line(&String::from(
        "some_function    () {"
    )));
    assert!(is_function_header_line(&String::from(
        "some_function    ()     {"
    )));
    assert!(is_function_header_line(&String::from(
        "    some_function    ()     {"
    )));
}

#[test]
fn header_line_rejects_private_and_plain_lines() {
    assert!(!is_function_header_line("_private(){"));
    assert!(!is_function_header_line("   _private () {"));
    assert!(!is_function_header_line("echo hello"));
    assert!(!is_function_header_line("some_function()"));
    assert!(!is_function_header_line(""));
}

#[test]
fn parse_script_header_and_functions() {
    let lines = vec![
        String::from("#!/usr/bin/env bash"),
        String::from("# My script"),
        String::from(""),
        String::from("# does things"),
        String::from("# on two lines"),
        String::from("do_stuff(){"),
        String::from("}"),
        String::from("_hidden(){"),
        String::from("}"),
    ];
    let script = Script::new(&executable("dir/run.sh"), &lines);
    assert_eq!(script.comment, vec!["My script"]);
    assert_eq!(script.functions.len(), 1);
    assert_eq!(script.functions[0].name, "do_stuff");
    assert_eq!(
        script.functions[0].comment,
        vec!["does things", "on two lines"]
    );
    assert_eq!(script.path, "dir/run.sh");
}

#[test]
fn parse_blank_line_between_hashbang_and_header_is_skipped() {
    let lines = vec![
        String::from("#!/bin/sh"),
        String::from("#   "),
        String::from("# Real header"),
    ];
    let script = Script::new(&executable("x.sh"), &lines);
    assert_eq!(script.comment, vec!["Real header"]);
}

#[test]
fn script_get_finds_first_by_name() {
    let lines = vec![
        String::from("alpha(){"),
        String::from("beta(){"),
    ];
    let script = Script::new(&executable("s.sh"), &lines);
    assert!(script.get("alpha").is_some());
    assert_eq!(script.get("alpha").unwrap().name, "alpha");
    assert!(script.get("gamma").is_none());
}

#[test]
fn script_path_parts() {
    let lines: Vec<String> = Vec::new();
    let script = Script::new(&executable("a/b/c.sh"), &lines);
    assert_eq!(script.file_name(), "c.sh");
    assert_eq!(script.path(), "a/b");
    assert_eq!(script.working_dir_absolute(), "/home/user/a/b");
}

#[test]
fn pretty_print_pads_names_and_aligns_comments() {
    let lines = vec![
        String::from("# one"),
        String::from("# two"),
        String::from("foo(){"),
        String::from("barbaz(){"),
    ];
    let script = Script::new(&executable("s.sh"), &lines);
    let out = script.pretty_print();
    // Longest name is six characters, so names pad to eight columns.
    assert_eq!(out.len(), 3);
    assert_eq!(out[0], "\u{1b}[38;2;168;204;140m     foo\u{1b}[39m one");
    assert_eq!(out[1], "         two");
    assert_eq!(out[2], "\u{1b}[38;2;168;204;140m  barbaz\u{1b}[39m");
}

#[test]
fn pretty_print_empty_script_lists_nothing() {
    let lines: Vec<String> = Vec::new();
    let script = Script::new(&executable("s.sh"), &lines);
    assert!(script.pretty_print().is_empty());
}

#[test]
fn executables_get_by_short_name() {
    let list = Executables::new(vec![executable("a/x.sh"), executable("b/y.sh")]);
    assert!(list.get("y.sh").is_some());
    assert_eq!(list.get("y.sh").unwrap().path, "b/y.sh");
    assert!(list.get("z.sh").is_none());
    let printed = list.pretty_print();
    assert_eq!(printed[0], "x.sh -- a/x.sh");
}

#[test]
fn ignore_and_permission_rules() {
    let ignored = vec![String::from(".git"), String::from("target")];
    assert!(is_ignored("target", &ignored));
    assert!(!is_ignored("src", &ignored));
    assert!(mode_is_executable(0o755));
    assert!(mode_is_executable(0o100));
    assert!(!mode_is_executable(0o644));
}

#[test]
fn bash_file_location_and_content() {
    let lines = vec![String::from("go(){")];
    let script = Script::new(&executable("a/b/run.sh"), &lines);
    let function = script.functions[0].clone();
    let file = BashFile::new(script, function);
    assert_eq!(file.location.len(), 16);
    assert!(file.location.starts_with("./~lk_"));
    let content = file.content();
    assert!(content.starts_with("#!/usr/bin/env bash\n"));
    // The header keeps the original's blank line before the source line.
    assert!(content.ends_with("gitignore it.\n\n source a/b && go\n"));
}

#[test]
fn config_file_path_and_initial_mode() {
    let config = Config::initial();
    assert_eq!(config.default_mode, "list");
    let file = ConfigFile::new(config, "/home/user/.config/lk", "lk.toml");
    assert_eq!(file.path(), "/home/user/.config/lk/lk.toml");
}

#[test]
fn str_eq_compares_by_characters() {
    assert!(str_eq("abc", "abc"));
    assert!(!str_eq("abc", "abd"));
    assert!(!str_eq("abc", "ab"));
    assert!(str_eq("", ""));
}
