//! Tests of the configuration prompts' buffer editing, digit parsing, and
//! the other string utilities.

use cli_monitor::cli_monitor::Key;
use cli_monitor::config::{masked_input_step, numeric_input_step};
use cli_monitor::errors::{APIError, ConfigError, TerminalError};
use cli_monitor::strutil::{join_ids, parse_u64_digits, truncate_ellipsis, u32_to_dec};

#[test]
fn masked_prompt_edits_like_a_line() {
    let mut pw = String::new();
    assert!(!masked_input_step(&mut pw, &Key::Char('a')));
    assert!(!masked_input_step(&mut pw, &Key::Char('b')));
    assert_eq!(pw, "ab");
    assert!(!masked_input_step(&mut pw, &Key::Backspace));
    assert_eq!(pw, "a");
    // Backspace on an empty buffer is harmless.
    assert!(!masked_input_step(&mut pw, &Key::Backspace));
    assert!(!masked_input_step(&mut pw, &Key::Backspace));
    assert_eq!(pw, "");
    // Other keys change nothing; Enter finishes.
    assert!(!masked_input_step(&mut pw, &Key::Left));
    assert!(masked_input_step(&mut pw, &Key::Enter));
    assert_eq!(pw, "");
}

#[test]
fn numeric_prompt_accepts_only_digits() {
    let mut n = String::new();
    assert!(!numeric_input_step(&mut n, &Key::Char('1')));
    assert!(!numeric_input_step(&mut n, &Key::Char('x')));
    assert!(!numeric_input_step(&mut n, &Key::Char('2')));
    assert_eq!(n, "12");
    assert!(!numeric_input_step(&mut n, &Key::Backspace));
    assert_eq!(n, "1");
    assert!(numeric_input_step(&mut n, &Key::Enter));
    assert_eq!(n, "1");
}

#[test]
fn digit_parsing_is_exact() {
    assert_eq!(parse_u64_digits("0"), Some(0));
    assert_eq!(parse_u64_digits("123"), Some(123));
    assert_eq!(parse_u64_digits("18446744073709551615"), Some(u64::MAX));
}

#[test]
fn digit_parsing_rejects_bad_input() {
    assert_eq!(parse_u64_digits(""), None);
    assert_eq!(parse_u64_digits("12a"), None);
    assert_eq!(parse_u64_digits("-3"), None);
    // One past u64::MAX overflows.
    assert_eq!(parse_u64_digits("18446744073709551616"), None);
}

#[test]
fn decimal_rendering_is_exact() {
    assert_eq!(u32_to_dec(0), "0");
    assert_eq!(u32_to_dec(7), "7");
    assert_eq!(u32_to_dec(12345), "12345");
    assert_eq!(u32_to_dec(u32::MAX), "4294967295");
}

#[test]
fn join_ids_uses_single_commas() {
    assert_eq!(join_ids(&vec![]), "");
    assert_eq!(join_ids(&vec!["x".to_string()]), "x");
    assert_eq!(
        join_ids(&vec!["x".to_string(), "y".to_string(), "z".to_string()]),
        "x,y,z"
    );
}

#[test]
fn truncation_marks_the_cut() {
    assert_eq!(truncate_ellipsis("hello", 5), "hello");
    assert_eq!(truncate_ellipsis("hello world", 5), "hell…");
    assert_eq!(truncate_ellipsis("", 3), "");
}

#[test]
fn config_error_messages_name_each_failure() {
    assert_eq!(
        ConfigError::Parsing("x".to_string()).message(),
        "Erro ao tentar parsear x"
    );
    assert_eq!(
        ConfigError::ReadLineError("x".to_string()).message(),
        "Erro ao tentar ler linha x"
    );
    assert_eq!(
        ConfigError::ReadWithMaskError("x".to_string()).message(),
        "Erro ao tentar ler senha x"
    );
    assert_eq!(
        ConfigError::WriteFileError("x".to_string()).message(),
        "Erro ao tentar escrever arquivo x"
    );
    assert_eq!(
        ConfigError::ReadNumberLineError("x".to_string()).message(),
        "Erro ao tentar ler linha numerica x"
    );
}

#[test]
fn fatal_errors_keep_their_prefixes() {
    // A startup failure carries the inner failure's full message.
    let e = TerminalError::from_config(&ConfigError::Parsing("x".to_string()));
    assert_eq!(
        e.message(),
        "Erro ao tentar carregar config Erro ao tentar parsear x"
    );
    let e = TerminalError::from_api(&APIError::AuthFail("denied".to_string()));
    assert_eq!(
        e.message(),
        "Erro ao tentar autenticar Falha na Autenticação denied"
    );
}

#[test]
fn terminal_error_messages_name_each_failure() {
    assert_eq!(
        TerminalError::AuthError("x".to_string()).message(),
        "Erro ao tentar autenticar x"
    );
    assert_eq!(
        TerminalError::ConfigError("x".to_string()).message(),
        "Erro ao tentar carregar config x"
    );
    assert_eq!(
        TerminalError::DrawError("x".to_string()).message(),
        "Erro ao tentar desenhar terminal x"
    );
}
