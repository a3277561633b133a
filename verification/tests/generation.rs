use std::path::PathBuf;
use xcpp::paths::{
    executable_under, join_path, text_or_invalid, uniform_or_invalid, PathError,
};
use xcpp::text::normalize_separators;
use xcpp::project::{
    after_step, complete, failure_aborts, first_step, generate, generation_from, project_steps,
    render_bundle, substitution, Progress, Step,
};
use xcpp::template::Bindings;

#[test]
fn separators_become_slashes() {
    assert_eq!(normalize_separators("E:\\a\\b/c"), "E:/a/b/c");
    assert_eq!(normalize_separators("/usr/bin"), "/usr/bin");
    assert_eq!(normalize_separators(""), "");
    assert_eq!(normalize_separators("\\"), "/");
}

#[test]
fn joined_path_is_text() {
    let joined = join_path("tc", "g++.exe").unwrap();
    assert!(joined.starts_with("tc"));
    assert!(joined.ends_with("g++.exe"));
    assert_eq!(joined.len(), "tc".len() + 1 + "g++.exe".len());
    assert_eq!(PathBuf::from(joined), PathBuf::from("tc").join("g++.exe"));
}

#[test]
fn join_of_any_two_texts_succeeds() {
    assert_eq!(join_path("", "gdb.exe"), Ok("gdb.exe".to_string()));
    assert!(join_path("", "").is_ok());
    assert!(join_path("a/b/", "c").unwrap().ends_with("c"));
    assert!(join_path("a", "/abs").is_ok());
    assert!(join_path("\u{e9}t\u{e9}", "g++.exe").unwrap().starts_with("\u{e9}t\u{e9}"));
}

#[test]
fn absent_text_is_an_invalid_path() {
    assert_eq!(text_or_invalid(None), Err(PathError::InvalidPath));
    assert_eq!(text_or_invalid(Some("a/b".to_string())), Ok("a/b".to_string()));
}

#[test]
fn executables_have_uniform_separators() {
    let p = executable_under("E:\\mingw64\\bin", "gdb.exe").unwrap();
    assert!(!p.contains('\\'));
    assert!(p.starts_with("E:/mingw64/bin"));
    assert!(p.ends_with("gdb.exe"));
}

#[test]
fn executable_lies_under_the_toolchain() {
    let p = executable_under("/opt/tc/bin", "g++.exe").unwrap();
    assert!(p.starts_with("/opt/tc/bin"));
    assert!(p.ends_with("g++.exe"));
    assert_ne!(p, "/opt/tc/bin");
    assert_ne!(p, "g++.exe");
}

#[test]
fn substitution_binds_the_five_names() {
    let b = substitution("hello", "/w/hello", "c++20", "/tc/g++.exe", "/tc/gdb.exe");
    assert_eq!(b.get("project"), Some("hello".to_string()));
    assert_eq!(b.get("current_dir"), Some("/w/hello".to_string()));
    assert_eq!(b.get("stdc++"), Some("c++20".to_string()));
    assert_eq!(b.get("g++"), Some("/tc/g++.exe".to_string()));
    assert_eq!(b.get("gdb"), Some("/tc/gdb.exe".to_string()));
    assert_eq!(b.get("std"), None);
}

#[test]
fn makefile_is_rendered() {
    let b = substitution("hello", "/w/hello", "c++20", "/tc/g++.exe", "/tc/gdb.exe");
    let steps = render_bundle(&b);
    assert_eq!(steps.len(), 5);
    match &steps[4] {
        Step::WriteFile { path, content } => {
            assert_eq!(path, "makefile");
            assert!(content.starts_with(
                "TARPATH = /w/hello/target/\nCXX = /tc/g++.exe\nEXEC = hello\n"
            ));
            assert!(content.contains("-std=c++20 -g -O1 -Wall -DLOCAL"));
        }
        other => panic!("unexpected step {:?}", other),
    }
}

#[test]
fn unbound_names_stay_in_the_bundle() {
    let steps = render_bundle(&Bindings::new());
    match &steps[0] {
        Step::WriteFile { path, content } => {
            assert_eq!(path, ".vscode/c_cpp_properties.json");
            assert!(content.contains("\"cppStandard\": \"{{stdc++}}\""));
            assert!(content.contains("\"compilerPath\": \"{{g++}}\""));
        }
        other => panic!("unexpected step {:?}", other),
    }
}

#[test]
fn fixed_steps_follow_the_bundle() {
    let steps = complete(Vec::new());
    assert_eq!(
        steps,
        vec![
            Step::WriteFile { path: "data.in".to_string(), content: String::new() },
            Step::WriteFile { path: "data.out".to_string(), content: String::new() },
            Step::CreateDir { path: "target".to_string() },
            Step::WriteFile {
                path: ".gitignore".to_string(),
                content: ".vscode/\ntarget/\n".to_string()
            },
            Step::WriteFile {
                path: "main.cpp".to_string(),
                content: "#include <iostream>\nusing namespace std;\n\nint main(){\n    cout << \"Hello, World\" << '\\n';\n    return 0;\n}\n".to_string()
            },
            Step::InitRepository,
        ]
    );
}

#[test]
fn complete_keeps_what_was_rendered() {
    let first = Step::WriteFile { path: "a".to_string(), content: "b".to_string() };
    let steps = complete(vec![first.clone()]);
    assert_eq!(steps.len(), 7);
    assert_eq!(steps[0], first);
    assert_eq!(steps[6], Step::InitRepository);
}

#[test]
fn project_is_written_in_order() {
    let steps = project_steps("hello", "/w/hello", "c++17", "/tc/g++.exe", "/tc/gdb.exe");
    let paths: Vec<String> = steps
        .iter()
        .map(|s| match s {
            Step::CreateDir { path } => format!("dir {}", path),
            Step::WriteFile { path, .. } => format!("file {}", path),
            Step::InitRepository => "init".to_string(),
        })
        .collect();
    assert_eq!(
        paths,
        vec![
            "file .vscode/c_cpp_properties.json",
            "file .vscode/launch.json",
            "file .vscode/settings.json",
            "file .vscode/tasks.json",
            "file makefile",
            "file data.in",
            "file data.out",
            "dir target",
            "file .gitignore",
            "file main.cpp",
            "init",
        ]
    );
    for s in &steps {
        if let Step::WriteFile { content, .. } = s {
            assert!(!content.contains("{{"));
        }
    }
}

#[test]
fn only_the_repository_may_fail() {
    assert!(!failure_aborts(&Step::InitRepository));
    assert!(failure_aborts(&Step::CreateDir { path: "target".to_string() }));
    assert!(failure_aborts(&Step::WriteFile { path: "a".to_string(), content: String::new() }));
}

#[test]
fn generation_derives_the_executables() {
    let g = generate("hello", "C:\\w\\hello", "c++14", "tc").unwrap();
    assert!(g.compiler.starts_with("tc") && g.compiler.ends_with("g++.exe"));
    assert!(g.debugger.starts_with("tc") && g.debugger.ends_with("gdb.exe"));
    assert_eq!(PathBuf::from(&g.compiler), PathBuf::from("tc").join("g++.exe"));
    assert_eq!(PathBuf::from(&g.debugger), PathBuf::from("tc").join("gdb.exe"));
    assert_eq!(
        g.steps,
        project_steps("hello", "C:/w/hello", "c++14", &g.compiler, &g.debugger)
    );
    match &g.steps[4] {
        Step::WriteFile { content, .. } => {
            assert!(content.starts_with("TARPATH = C:/w/hello/target/\n"));
            assert!(content.contains(&format!("CXX = {}\n", g.compiler)));
        }
        other => panic!("unexpected step {:?}", other),
    }
    match &g.steps[1] {
        Step::WriteFile { content, .. } => {
            assert!(content.contains(&format!("\"miDebuggerPath\": \"{}\"", g.debugger)));
        }
        other => panic!("unexpected step {:?}", other),
    }
}

#[test]
fn generation_runs_step_by_step() {
    let steps = project_steps("hello", "/w/hello", "c++17", "/tc/g++.exe", "/tc/gdb.exe");
    assert_eq!(first_step(&steps), Progress::Next { index: 0 });
    assert_eq!(first_step(&Vec::new()), Progress::Finished);
    for i in 0..10 {
        assert_eq!(after_step(&steps, i, true), Progress::Next { index: i + 1 });
        assert_eq!(after_step(&steps, i, false), Progress::Aborted { at: i });
    }
    assert_eq!(after_step(&steps, 10, true), Progress::Finished);
    assert_eq!(after_step(&steps, 11, false), Progress::Finished);
    assert_eq!(after_step(&steps, usize::MAX, true), Progress::Finished);
}

#[test]
fn failed_repository_does_not_fail_the_project() {
    let steps = project_steps("hello", "/w/hello", "c++17", "/tc/g++.exe", "/tc/gdb.exe");
    assert_eq!(steps[10], Step::InitRepository);
    assert_eq!(after_step(&steps, 10, false), Progress::Finished);
    let early = vec![Step::InitRepository, Step::CreateDir { path: "target".to_string() }];
    assert_eq!(after_step(&early, 0, false), Progress::Next { index: 1 });
    assert_eq!(after_step(&early, 1, false), Progress::Aborted { at: 1 });
}

#[test]
fn joined_text_gets_uniform_separators() {
    assert_eq!(
        uniform_or_invalid(Ok("E:\\mingw64\\bin\\g++.exe".to_string())),
        Ok("E:/mingw64/bin/g++.exe".to_string())
    );
    assert_eq!(uniform_or_invalid(Ok("/tc/gdb.exe".to_string())), Ok("/tc/gdb.exe".to_string()));
    assert_eq!(uniform_or_invalid(Err(PathError::InvalidPath)), Err(PathError::InvalidPath));
}

#[test]
fn plan_holds_the_executables_it_was_given() {
    let g = generation_from(
        "hello",
        "C:\\w\\hello",
        "c++11",
        Ok("/tc/g++.exe".to_string()),
        Ok("/tc/gdb.exe".to_string()),
    )
    .unwrap();
    assert_eq!(g.compiler, "/tc/g++.exe");
    assert_eq!(g.debugger, "/tc/gdb.exe");
    assert_eq!(
        g.steps,
        project_steps("hello", "C:/w/hello", "c++11", "/tc/g++.exe", "/tc/gdb.exe")
    );
}

#[test]
fn plan_fails_without_an_executable() {
    let found = || Ok("/tc/x.exe".to_string());
    assert_eq!(
        generation_from("hello", "/w", "c++11", Err(PathError::InvalidPath), found()),
        Err(PathError::InvalidPath)
    );
    assert_eq!(
        generation_from("hello", "/w", "c++11", found(), Err(PathError::InvalidPath)),
        Err(PathError::InvalidPath)
    );
    assert_eq!(
        generation_from(
            "hello",
            "/w",
            "c++11",
            Err(PathError::InvalidPath),
            Err(PathError::InvalidPath)
        ),
        Err(PathError::InvalidPath)
    );
}
