//! Language registry: the static table mapping a language identifier to
//! its source extension and compile/run argument vectors.  An empty
//! compile command means the language is run without a compilation step.

use vstd::prelude::*;
use vstd::string::StringExecFns;

use crate::models::LangSpec;
use crate::models::LanguageConfig;
use crate::strutil::str_eq;

verus! {

/// Failure of a registry lookup.
#[derive(Clone, Copy, Debug, PartialEq, Eq, Structural)]
pub enum LanguageError {
    UnknownLanguage,
}

/// The languages the worker supports, in registry order.
pub open spec fn language_table() -> Seq<LangSpec> {
    seq![
        LangSpec {
            language: "C99"@,
            ext: "c"@,
            compile_command: seq!["gcc"@, "-std=c99"@, "main.c"@, "-o"@, "main"@],
            run_command: seq!["./main"@],
        },
        LangSpec {
            language: "C11"@,
            ext: "c"@,
            compile_command: seq!["gcc"@, "-std=c11"@, "main.c"@, "-o"@, "main"@],
            run_command: seq!["./main"@],
        },
        LangSpec {
            language: "C17"@,
            ext: "c"@,
            compile_command: seq!["gcc"@, "-std=c17"@, "main.c"@, "-o"@, "main"@],
            run_command: seq!["./main"@],
        },
        LangSpec {
            language: "C23"@,
            ext: "c"@,
            compile_command: seq!["gcc"@, "-std=c2x"@, "main.c"@, "-o"@, "main"@],
            run_command: seq!["./main"@],
        },
        LangSpec {
            language: "CPP03"@,
            ext: "cpp"@,
            compile_command: seq!["g++"@, "-std=c++03"@, "main.cpp"@, "-o"@, "main"@],
            run_command: seq!["./main"@],
        },
        LangSpec {
            language: "CPP11"@,
            ext: "cpp"@,
            compile_command: seq!["g++"@, "-std=c++11"@, "main.cpp"@, "-o"@, "main"@],
            run_command: seq!["./main"@],
        },
        LangSpec {
            language: "CPP14"@,
            ext: "cpp"@,
            compile_command: seq!["g++"@, "-std=c++14"@, "main.cpp"@, "-o"@, "main"@],
            run_command: seq!["./main"@],
        },
        LangSpec {
            language: "CPP17"@,
            ext: "cpp"@,
            compile_command: seq!["g++"@, "-std=c++17"@, "main.cpp"@, "-o"@, "main"@],
            run_command: seq!["./main"@],
        },
        LangSpec {
            language: "CPP20"@,
            ext: "cpp"@,
            compile_command: seq!["g++"@, "-std=c++20"@, "main.cpp"@, "-o"@, "main"@],
            run_command: seq!["./main"@],
        },
        LangSpec {
            language: "CPP23"@,
            ext: "cpp"@,
            compile_command: seq!["g++"@, "-std=c++23"@, "main.cpp"@, "-o"@, "main"@],
            run_command: seq!["./main"@],
        },
        LangSpec {
            language: "JAVA_8"@,
            ext: "java"@,
            compile_command: seq!["javac"@, "main.java"@],
            run_command: seq!["java"@, "main"@],
        },
        LangSpec {
            language: "JAVA_11"@,
            ext: "java"@,
            compile_command: seq!["javac"@, "main.java"@],
            run_command: seq!["java"@, "main"@],
        },
        LangSpec {
            language: "JAVA_17"@,
            ext: "java"@,
            compile_command: seq!["javac"@, "main.java"@],
            run_command: seq!["java"@, "main"@],
        },
        LangSpec {
            language: "PYTHON2"@,
            ext: "py"@,
            compile_command: Seq::empty(),
            run_command: seq!["python2"@, "main.py"@],
        },
        LangSpec {
            language: "PYTHON3"@,
            ext: "py"@,
            compile_command: Seq::empty(),
            run_command: seq!["python3"@, "main.py"@],
        },
    ]
}

/// Whether some registry entry carries this language identifier.
pub open spec fn known_language(name: Seq<char>) -> bool {
    exists|k: int|
        0 <= k < language_table().len() && #[trigger] language_table()[k].language == name
}

/// No two registry entries share a language identifier, so a lookup
/// that succeeds names exactly one entry.
pub proof fn lemma_language_table_distinct()
    ensures
        forall|i: int, j: int|
            0 <= i < j < language_table().len() ==> language_table()[i].language
                != language_table()[j].language,
{
    reveal_strlit("C99");
    reveal_strlit("C11");
    reveal_strlit("C17");
    reveal_strlit("C23");
    reveal_strlit("CPP03");
    reveal_strlit("CPP11");
    reveal_strlit("CPP14");
    reveal_strlit("CPP17");
    reveal_strlit("CPP20");
    reveal_strlit("CPP23");
    reveal_strlit("JAVA_8");
    reveal_strlit("JAVA_11");
    reveal_strlit("JAVA_17");
    reveal_strlit("PYTHON2");
    reveal_strlit("PYTHON3");
    assert forall|i: int, j: int|
        0 <= i < j < language_table().len() implies language_table()[i].language
        != language_table()[j].language by {
        let a = language_table()[i].language;
        let b = language_table()[j].language;
        if a == b {
            assert(a.len() == b.len());
            assert(a[0] == b[0]);
            assert(a[1] == b[1]);
            assert(a[2] == b[2]);
            assert(a[3] == b[3]);
            assert(a[4] == b[4]);
            assert(a[5] == b[5]);
            assert(a[6] == b[6]);
            assert(false);
        }
    }
}

/// An empty argument vector.
fn args0() -> (r: Vec<String>)
    ensures
        r.deep_view() == Seq::<Seq<char>>::empty(),
{
    let r: Vec<String> = Vec::new();
    proof {
        assert(r.deep_view() =~= Seq::<Seq<char>>::empty());
    }
    r
}

/// The argument vector `[a]`.
fn args1(a: &str) -> (r: Vec<String>)
    ensures
        r.deep_view() == seq![a@],
{
    let mut r: Vec<String> = Vec::new();
    r.push(a.to_owned());
    proof {
        assert(r.deep_view() =~= seq![a@]);
    }
    r
}

/// The argument vector `[a, b]`.
fn args2(a: &str, b: &str) -> (r: Vec<String>)
    ensures
        r.deep_view() == seq![a@, b@],
{
    let mut r: Vec<String> = Vec::new();
    r.push(a.to_owned());
    r.push(b.to_owned());
    proof {
        assert(r.deep_view() =~= seq![a@, b@]);
    }
    r
}

/// The argument vector `[a, b, c, d, e]`.
fn args5(a: &str, b: &str, c: &str, d: &str, e: &str) -> (r: Vec<String>)
    ensures
        r.deep_view() == seq![a@, b@, c@, d@, e@],
{
    let mut r: Vec<String> = Vec::new();
    r.push(a.to_owned());
    r.push(b.to_owned());
    r.push(c.to_owned());
    r.push(d.to_owned());
    r.push(e.to_owned());
    proof {
        assert(r.deep_view() =~= seq![a@, b@, c@, d@, e@]);
    }
    r
}

/// Assemble one registry record.
fn cfg(language: &str, ext: &str, compile_command: Vec<String>, run_command: Vec<String>) -> (c:
    LanguageConfig)
    ensures
        c@ == (LangSpec {
            language: language@,
            ext: ext@,
            compile_command: compile_command.deep_view(),
            run_command: run_command.deep_view(),
        }),
{
    LanguageConfig {
        language: language.to_owned(),
        ext: ext.to_owned(),
        compile_command,
        run_command,
    }
}

/// Look a language identifier up in the registry.  Succeeds exactly on
/// the identifiers the table lists, with that entry's record.
pub fn get_language_config(language: &str) -> (r: Result<LanguageConfig, LanguageError>)
    ensures
        match r {
            Ok(c) => known_language(language@) && language_table().contains(c@) && c@.language
                == language@,
            Err(e) => !known_language(language@) && e == LanguageError::UnknownLanguage,
        },
{
    let r: Result<LanguageConfig, LanguageError> = if str_eq(language, "C99") {
        let c = cfg("C99", "c", args5("gcc", "-std=c99", "main.c", "-o", "main"), args1("./main"));
        proof {
            assert(language_table()[0] == c@);
            assert(language_table()[0].language == language@);
        }
        Ok(c)
    } else if str_eq(language, "C11") {
        let c = cfg("C11", "c", args5("gcc", "-std=c11", "main.c", "-o", "main"), args1("./main"));
        proof {
            assert(language_table()[1] == c@);
            assert(language_table()[1].language == language@);
        }
        Ok(c)
    } else if str_eq(language, "C17") {
        let c = cfg("C17", "c", args5("gcc", "-std=c17", "main.c", "-o", "main"), args1("./main"));
        proof {
            assert(language_table()[2] == c@);
            assert(language_table()[2].language == language@);
        }
        Ok(c)
    } else if str_eq(language, "C23") {
        let c = cfg("C23", "c", args5("gcc", "-std=c2x", "main.c", "-o", "main"), args1("./main"));
        proof {
            assert(language_table()[3] == c@);
            assert(language_table()[3].language == language@);
        }
        Ok(c)
    } else if str_eq(language, "CPP03") {
        let c = cfg(
            "CPP03",
            "cpp",
            args5("g++", "-std=c++03", "main.cpp", "-o", "main"),
            args1("./main"),
        );
        proof {
            assert(language_table()[4] == c@);
            assert(language_table()[4].language == language@);
        }
        Ok(c)
    } else if str_eq(language, "CPP11") {
        let c = cfg(
            "CPP11",
            "cpp",
            args5("g++", "-std=c++11", "main.cpp", "-o", "main"),
            args1("./main"),
        );
        proof {
            assert(language_table()[5] == c@);
            assert(language_table()[5].language == language@);
        }
        Ok(c)
    } else if str_eq(language, "CPP14") {
        let c = cfg(
            "CPP14",
            "cpp",
            args5("g++", "-std=c++14", "main.cpp", "-o", "main"),
            args1("./main"),
        );
        proof {
            assert(language_table()[6] == c@);
            assert(language_table()[6].language == language@);
        }
        Ok(c)
    } else if str_eq(language, "CPP17") {
        let c = cfg(
            "CPP17",
            "cpp",
            args5("g++", "-std=c++17", "main.cpp", "-o", "main"),
            args1("./main"),
        );
        proof {
            assert(language_table()[7] == c@);
            assert(language_table()[7].language == language@);
        }
        Ok(c)
    } else if str_eq(language, "CPP20") {
        let c = cfg(
            "CPP20",
            "cpp",
            args5("g++", "-std=c++20", "main.cpp", "-o", "main"),
            args1("./main"),
        );
        proof {
            assert(language_table()[8] == c@);
            assert(language_table()[8].language == language@);
        }
        Ok(c)
    } else if str_eq(language, "CPP23") {
        let c = cfg(
            "CPP23",
            "cpp",
            args5("g++", "-std=c++23", "main.cpp", "-o", "main"),
            args1("./main"),
        );
        proof {
            assert(language_table()[9] == c@);
            assert(language_table()[9].language == language@);
        }
        Ok(c)
    } else if str_eq(language, "JAVA_8") {
        let c = cfg("JAVA_8", "java", args2("javac", "main.java"), args2("java", "main"));
        proof {
            assert(language_table()[10] == c@);
            assert(language_table()[10].language == language@);
        }
        Ok(c)
    } else if str_eq(language, "JAVA_11") {
        let c = cfg("JAVA_11", "java", args2("javac", "main.java"), args2("java", "main"));
        proof {
            assert(language_table()[11] == c@);
            assert(language_table()[11].language == language@);
        }
        Ok(c)
    } else if str_eq(language, "JAVA_17") {
        let c = cfg("JAVA_17", "java", args2("javac", "main.java"), args2("java", "main"));
        proof {
            assert(language_table()[12] == c@);
            assert(language_table()[12].language == language@);
        }
        Ok(c)
    } else if str_eq(language, "PYTHON2") {
        let c = cfg("PYTHON2", "py", args0(), args2("python2", "main.py"));
        proof {
            assert(language_table()[13] == c@);
            assert(language_table()[13].language == language@);
        }
        Ok(c)
    } else if str_eq(language, "PYTHON3") {
        let c = cfg("PYTHON3", "py", args0(), args2("python3", "main.py"));
        proof {
            assert(language_table()[14] == c@);
            assert(language_table()[14].language == language@);
        }
        Ok(c)
    } else {
        proof {
            assert forall|k: int| 0 <= k < language_table().len() implies language_table()[
                k
            ].language != language@ by {
                assert(language_table().len() == 15);
            }
        }
        Err(LanguageError::UnknownLanguage)
    };
    r
}

} // verus!
