use judger::languages::get_language_config;
use judger::languages::LanguageError;

#[test]
fn python3_has_no_compile_step() {
    let c = get_language_config("PYTHON3").unwrap();
    assert_eq!(c.language, "PYTHON3");
    assert_eq!(c.ext, "py");
    assert!(c.compile_command.is_empty());
    assert_eq!(c.run_command, vec!["python3".to_string(), "main.py".to_string()]);
}

#[test]
fn c99_compiles_with_gcc() {
    let c = get_language_config("C99").unwrap();
    assert_eq!(c.ext, "c");
    assert_eq!(
        c.compile_command,
        vec![
            "gcc".to_string(),
            "-std=c99".to_string(),
            "main.c".to_string(),
            "-o".to_string(),
            "main".to_string(),
        ]
    );
    assert_eq!(c.run_command, vec!["./main".to_string()]);
}

#[test]
fn cpp20_compiles_with_gpp() {
    let c = get_language_config("CPP20").unwrap();
    assert_eq!(c.ext, "cpp");
    assert_eq!(c.compile_command[0], "g++");
    assert_eq!(c.compile_command[1], "-std=c++20");
}

#[test]
fn java_runs_the_class() {
    let c = get_language_config("JAVA_17").unwrap();
    assert_eq!(c.ext, "java");
    assert_eq!(c.compile_command, vec!["javac".to_string(), "main.java".to_string()]);
    assert_eq!(c.run_command, vec!["java".to_string(), "main".to_string()]);
}

#[test]
fn unknown_language_is_a_typed_error() {
    let e = get_language_config("BRAINMUCK").unwrap_err();
    assert_eq!(e, LanguageError::UnknownLanguage);
    assert!(get_language_config("python3").is_err());
    assert!(get_language_config("").is_err());
}
