use macrotis::paths::existing_files;
use macrotis::paths::pick_resolved;
use macrotis::paths::read_image_arguments;
use macrotis::paths::reads_paths_from_stdin;
use macrotis::paths::resolve_path;
use macrotis::paths::resolve_paths;
use macrotis::paths::split_lines;
use macrotis::paths::PathCheck;

fn strings(items: &[&str]) -> Vec<String> {
    items.iter().map(|s| s.to_string()).collect()
}

#[test]
fn only_a_single_dash_asks_for_standard_input() {
    assert!(reads_paths_from_stdin(&strings(&["-"])));
    assert!(!reads_paths_from_stdin(&strings(&[])));
    assert!(!reads_paths_from_stdin(&strings(&["-", "-"])));
    assert!(!reads_paths_from_stdin(&strings(&["--"])));
    assert!(!reads_paths_from_stdin(&strings(&[""])));
    assert!(!reads_paths_from_stdin(&strings(&["a.png"])));
}

#[test]
fn split_lines_splits_at_line_feeds() {
    assert_eq!(split_lines("a.png\nb.png"), strings(&["a.png", "b.png"]));
    assert_eq!(split_lines("a.png"), strings(&["a.png"]));
    assert_eq!(split_lines(""), strings(&[""]));
    assert_eq!(split_lines("a.png\n"), strings(&["a.png", ""]));
    assert_eq!(split_lines("\n\nx"), strings(&["", "", "x"]));
    assert_eq!(split_lines("\u{e9}t\u{e9}.png\nb"), strings(&["\u{e9}t\u{e9}.png", "b"]));
}

#[test]
fn split_lines_keeps_carriage_returns() {
    assert_eq!(split_lines("a.png\r\nb.png"), strings(&["a.png\r", "b.png"]));
}

#[test]
fn split_lines_joined_is_the_input() {
    for input in ["", "\n", "a\nb\n\nc", "one line", "\n\n"] {
        let lines = split_lines(input);
        assert!(lines.iter().all(|l| !l.contains('\n')));
        assert_eq!(lines.join("\n"), input);
    }
}

#[test]
fn image_arguments_from_standard_input() {
    assert_eq!(
        read_image_arguments(strings(&["-"]), "a.png\nb.png"),
        strings(&["a.png", "b.png"])
    );
    assert_eq!(read_image_arguments(strings(&["x.png", "y.png"]), "a.png"), strings(&["x.png", "y.png"]));
    assert_eq!(read_image_arguments(strings(&[]), "a.png"), strings(&[]));
}

#[test]
fn relative_path_is_joined_to_the_working_directory() {
    assert_eq!(resolve_path("/home/user", "x.png"), "/home/user/x.png");
    assert_eq!(resolve_path("/home/user/", "pics/x.png"), "/home/user/pics/x.png");
}

#[test]
fn absolute_path_is_unchanged() {
    assert_eq!(resolve_path("/home/user", "/tmp/x.png"), "/tmp/x.png");
}

#[test]
fn pick_resolved_takes_the_joined_path_only_where_relative() {
    assert_eq!(pick_resolved("x.png", true, "/a/x.png".to_string()), "/a/x.png");
    assert_eq!(pick_resolved("/x.png", false, "/a/x.png".to_string()), "/x.png");
}

#[test]
fn resolve_paths_resolves_each_path() {
    assert_eq!(
        resolve_paths("/work", &strings(&["a.png", "/abs/b.png", "dir/c.png"])),
        strings(&["/work/a.png", "/abs/b.png", "/work/dir/c.png"])
    );
    assert_eq!(resolve_paths("/work", &strings(&[])), strings(&[]));
}

#[test]
fn paths_without_a_file_are_left_out() {
    let checks = vec![
        PathCheck { path: "/work/a.png".to_string(), is_file: true },
        PathCheck { path: "/work/dir".to_string(), is_file: false },
        PathCheck { path: "/work/missing.png".to_string(), is_file: false },
        PathCheck { path: "/work/b.png".to_string(), is_file: true },
    ];
    assert_eq!(existing_files(&checks), strings(&["/work/a.png", "/work/b.png"]));
    assert_eq!(existing_files(&Vec::new()), strings(&[]));
}

#[test]
fn paths_from_standard_input_are_resolved() {
    let arguments = read_image_arguments(strings(&["-"]), "a.png\nb.png");
    let resolved = resolve_paths("/cwd", &arguments);
    assert_eq!(resolved, strings(&["/cwd/a.png", "/cwd/b.png"]));
    let checks: Vec<PathCheck> =
        resolved.into_iter().map(|path| PathCheck { path, is_file: true }).collect();
    assert_eq!(existing_files(&checks).len(), 2);
}
