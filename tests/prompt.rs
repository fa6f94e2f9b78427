use quotekeeper::config::{Config, QuoteSource, Settings};
use quotekeeper::prompt::{
    editor_result, get_author, get_date, get_quote_stdin, prompt_user, prompt_yes_or_no, retry_choice,
    yes_or_no_of, EditorStep, YesOrNo,
};
use quotekeeper::text::normalize;

#[test]
fn yes_or_no_reads_both_spellings() {
    assert_eq!(prompt_yes_or_no("y\n", YesOrNo::No), YesOrNo::Yes);
    assert_eq!(prompt_yes_or_no("  YES ", YesOrNo::No), YesOrNo::Yes);
    assert_eq!(prompt_yes_or_no("n", YesOrNo::Yes), YesOrNo::No);
    assert_eq!(prompt_yes_or_no("No\n", YesOrNo::Yes), YesOrNo::No);
}

#[test]
fn yes_or_no_falls_back_to_default() {
    assert_eq!(prompt_yes_or_no("\n", YesOrNo::No), YesOrNo::No);
    assert_eq!(prompt_yes_or_no("maybe", YesOrNo::Yes), YesOrNo::Yes);
    assert_eq!(yes_or_no_of("Y", YesOrNo::No), YesOrNo::No);
    assert_eq!(yes_or_no_of("yes", YesOrNo::No), YesOrNo::Yes);
}

#[test]
fn prompt_user_trims_and_rejects_blank() {
    assert_eq!(prompt_user("  hello there \n"), Some("hello there".to_string()));
    assert_eq!(prompt_user(" \t\n"), None);
    assert_eq!(get_author("Seneca\n"), Some("Seneca".to_string()));
    assert_eq!(get_author("\n"), None);
    assert_eq!(get_quote_stdin(" Carpe diem\r\n"), Some("Carpe diem".to_string()));
}

#[test]
fn custom_date_is_kept() {
    assert_eq!(get_date(Some("yesterday".to_string())), "yesterday");
}

#[test]
fn machine_date_has_the_date_layout() {
    let d: Vec<char> = get_date(None).chars().collect();
    assert_eq!(d.len(), 19);
    assert_eq!(d[2], '-');
    assert_eq!(d[5], '-');
    assert_eq!(d[10], ' ');
    assert_eq!(d[13], ':');
    assert_eq!(d[16], ':');
    assert!(!d.contains(&'.'));
}

#[test]
fn editor_failure_is_fatal() {
    assert!(matches!(editor_result(false, "a quote"), EditorStep::Fail));
}

#[test]
fn editor_quote_is_trimmed() {
    match editor_result(true, "\n  Know thyself.\n\n") {
        EditorStep::Accept(q) => assert_eq!(q, "Know thyself."),
        _ => panic!("expected a quote"),
    }
}

#[test]
fn blank_editor_quote_then_decline_aborts() {
    assert!(matches!(editor_result(true, "  \n\t"), EditorStep::AskRetry));
    assert!(matches!(retry_choice("n\n"), EditorStep::Abort));
    assert!(matches!(retry_choice("NO"), EditorStep::Abort));
}

#[test]
fn blank_editor_quote_retry_defaults_to_yes() {
    assert!(matches!(retry_choice("\n"), EditorStep::Relaunch));
    assert!(matches!(retry_choice("y"), EditorStep::Relaunch));
}

#[test]
fn trim_and_normalize() {
    assert_eq!(prompt_user("\u{2003}x y\t"), Some("x y".to_string()));
    assert_eq!(normalize("  AbC \n"), "abc");
}

fn config(editor: &str) -> Config {
    Config { settings: Settings { editor: editor.to_string(), enable_quote_grading: true } }
}

#[test]
fn editor_setting_picks_the_source() {
    assert_eq!(config("stdin").quote_source(), QuoteSource::Stdin);
    assert_eq!(config("default").quote_source(), QuoteSource::DefaultEditor);
    assert_eq!(config("nvim").quote_source(), QuoteSource::Editor("nvim".to_string()));
}
