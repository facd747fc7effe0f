use waysight::args::{parse_args, CliMessage};
use waysight::utils::text::{find_char, str_eq};
use waysight::UserData;

fn run(args: &[&str]) -> (UserData, Vec<CliMessage>) {
    let mut data = UserData::new();
    let args: Vec<String> = args.iter().map(|s| s.to_string()).collect();
    let messages = parse_args(&args, &mut data);
    (data, messages)
}

#[test]
fn no_arguments_change_nothing() {
    let (data, messages) = run(&[]);
    assert_eq!(data.config_path, None);
    assert_eq!(data.backend, None);
    assert_eq!(messages, vec![]);
}

#[test]
fn config_path_long_and_short() {
    let (data, messages) = run(&["--config=/tmp/a.toml"]);
    assert_eq!(data.config_path, Some("/tmp/a.toml".to_string()));
    assert_eq!(messages, vec![]);
    let (data, _) = run(&["-c=b.toml"]);
    assert_eq!(data.config_path, Some("b.toml".to_string()));
}

#[test]
fn backend_long_and_short() {
    let (data, messages) = run(&["--backend=winit"]);
    assert_eq!(data.backend, Some("winit".to_string()));
    assert_eq!(messages, vec![]);
    let (data, _) = run(&["-b=x11"]);
    assert_eq!(data.backend, Some("x11".to_string()));
}

#[test]
fn value_is_split_at_the_first_equals_sign() {
    let (data, _) = run(&["--config=a=b.toml"]);
    assert_eq!(data.config_path, Some("a=b.toml".to_string()));
    let (data, _) = run(&["-c="]);
    assert_eq!(data.config_path, Some("".to_string()));
}

#[test]
fn later_value_replaces_earlier() {
    let (data, _) = run(&["-c=a", "--backend=drm", "--config=b", "-b=winit"]);
    assert_eq!(data.config_path, Some("b".to_string()));
    assert_eq!(data.backend, Some("winit".to_string()));
}

#[test]
fn help_prints_usage() {
    assert_eq!(run(&["--help"]).1, vec![CliMessage::Usage]);
    assert_eq!(run(&["-h"]).1, vec![CliMessage::Usage]);
}

#[test]
fn unknown_long_flag_prints_usage() {
    assert_eq!(run(&["--verbose"]).1, vec![CliMessage::Usage]);
    assert_eq!(run(&["--"]).1, vec![CliMessage::Usage]);
}

#[test]
fn unknown_key_prints_usage_and_parsing_goes_on() {
    let (data, messages) = run(&["--colour=red", "-c=x.toml"]);
    assert_eq!(messages, vec![CliMessage::Usage]);
    assert_eq!(data.config_path, Some("x.toml".to_string()));
    assert_eq!(run(&["=value"]).1, vec![CliMessage::Usage]);
}

#[test]
fn short_flags_are_read_letter_by_letter() {
    assert_eq!(
        run(&["-ah"]).1,
        vec![CliMessage::UnknownFlag('a'), CliMessage::Usage, CliMessage::Usage]
    );
    assert_eq!(run(&["-"]).1, vec![]);
    assert_eq!(run(&["-x-"]).1, vec![CliMessage::UnknownFlag('x'), CliMessage::Usage]);
}

#[test]
fn plain_words_are_passed_over() {
    let (data, messages) = run(&["waysight", "config", ""]);
    assert_eq!(messages, vec![]);
    assert_eq!(data.config_path, None);
}

#[test]
fn messages_come_in_the_order_of_the_arguments() {
    assert_eq!(
        run(&["-q", "--help", "-c=a", "-h"]).1,
        vec![
            CliMessage::UnknownFlag('q'),
            CliMessage::Usage,
            CliMessage::Usage,
            CliMessage::Usage
        ]
    );
}

#[test]
fn arguments_beyond_ascii() {
    let (data, messages) = run(&["--config=/tmp/é=ü.toml", "-ß"]);
    assert_eq!(data.config_path, Some("/tmp/é=ü.toml".to_string()));
    assert_eq!(messages, vec![CliMessage::UnknownFlag('ß'), CliMessage::Usage]);
}

#[test]
fn find_char_gives_the_first_position() {
    assert_eq!(find_char("a=b=c", '='), Some(1));
    assert_eq!(find_char("=", '='), Some(0));
    assert_eq!(find_char("abc", '='), None);
    assert_eq!(find_char("", '='), None);
    assert_eq!(find_char("éé=", '='), Some(2));
}

#[test]
fn str_eq_compares_characters() {
    assert!(str_eq("", ""));
    assert!(str_eq("drm", "drm"));
    assert!(!str_eq("drm", "drn"));
    assert!(!str_eq("drm", "dr"));
    assert!(!str_eq("é", "e"));
}
