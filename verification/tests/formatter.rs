use dockwatch::formatter::{
    format_log_line, kill_notice, launch_failure_line, list_notice, pull_notice,
};
use dockwatch::printer::{color_println_fmt, reset_code, tint, Color};

#[test]
fn every_color_has_its_code() {
    assert_eq!(Color::Red.code(), "\x1b[1;31m");
    assert_eq!(Color::Green.code(), "\x1b[1;32m");
    assert_eq!(Color::Blue.code(), "\x1b[1;34m");
    assert_eq!(Color::Yellow.code(), "\x1b[1;33m");
    assert_eq!(Color::Magenta.code(), "\x1b[1;35m");
    assert_eq!(Color::Cyan.code(), "\x1b[1;36m");
    assert_eq!(Color::White.code(), "\x1b[1;37m");
    assert_eq!(reset_code(), "\x1b[0m");
}

#[test]
fn color_println_fmt_wraps_the_text() {
    assert_eq!(color_println_fmt(Color::Red, "boom"), "\x1b[1;31mboom\x1b[0m");
    assert_eq!(color_println_fmt(Color::White, ""), "\x1b[1;37m\x1b[0m");
}

#[test]
fn tint_leaves_the_text_alone_without_color() {
    assert_eq!(tint(false, Color::Red, "boom"), "boom");
    assert_eq!(tint(true, Color::Blue, "boom"), "\x1b[1;34mboom\x1b[0m");
}

#[test]
fn plain_log_line_keeps_the_three_parts_in_order() {
    let line = format_log_line(false, "2024-05-06T07:08:09", "web", "GET / 200");
    assert_eq!(line, "[2024-05-06T07:08:09 | web] GET / 200");
    assert!(!line.contains('\x1b'));
}

#[test]
fn colored_log_line_wraps_time_and_name_only() {
    let line = format_log_line(true, "2024-05-06T07:08:09", "web", "GET / 200");
    assert_eq!(
        line,
        "[\x1b[1;36m2024-05-06T07:08:09\x1b[0m | \x1b[1;32mweb\x1b[0m] GET / 200"
    );
    assert!(line.ends_with("] GET / 200"));
    assert_eq!(line.matches("\x1b[0m").count(), 2);
}

#[test]
fn log_line_leaves_escape_codes_of_the_line_alone() {
    let raw = "\x1b[31mred from the container\x1b[0m [x | y] ";
    assert_eq!(
        format_log_line(false, "t", "n", raw),
        format!("[t | n] {}", raw)
    );
    assert_eq!(
        format_log_line(true, "t", "n", raw),
        format!("[\x1b[1;36mt\x1b[0m | \x1b[1;32mn\x1b[0m] {}", raw)
    );
}

#[test]
fn log_line_of_empty_parts() {
    assert_eq!(format_log_line(false, "", "", ""), "[ | ] ");
    assert_eq!(
        format_log_line(true, "", "", ""),
        "[\x1b[1;36m\x1b[0m | \x1b[1;32m\x1b[0m] "
    );
}

#[test]
fn launch_failure_line_names_the_container() {
    assert_eq!(launch_failure_line("web", false), "[ERROR] - Failed to log web");
    assert_eq!(
        launch_failure_line("web", true),
        "\x1b[1;31m[ERROR] - Failed to log web\x1b[0m"
    );
}

#[test]
fn list_notice_is_shown_on_a_terminal_only() {
    assert_eq!(list_notice(false), None);
    assert_eq!(
        list_notice(true),
        Some("\x1b[1;35mListing docker containers...\x1b[0m".to_string())
    );
}

#[test]
fn kill_notice_in_both_modes() {
    assert_eq!(kill_notice(false), "Killing docker containers...");
    assert_eq!(kill_notice(true), "\x1b[1;33mKilling docker containers...\x1b[0m");
}

#[test]
fn pull_notice_in_both_modes() {
    assert_eq!(
        pull_notice("web", "nginx:latest", false),
        "Pulling image for web: nginx:latest"
    );
    assert_eq!(
        pull_notice("web", "nginx:latest", true),
        "\x1b[1;36mPulling image for web: nginx:latest\x1b[0m"
    );
}
