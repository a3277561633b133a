//! The files that every new project starts with: where each goes, relative to
//! the project's root, and the template of its text.

use vstd::prelude::*;

verus! {

/// The include paths and compiler that the editor assumes.
pub const PROPERTIES_PATH: &'static str = ".vscode/c_cpp_properties.json";

pub const PROPERTIES_TEMPLATE: &'static str =
r#"{
    "configurations": [
        {
            "name": "Win32",
            "includePath": [
                "${workspaceFolder}/**"
            ],
            "defines": [
                "_DEBUG",
                "UNICODE",
                "_UNICODE"
            ],
            "cStandard": "c17",
            "cppStandard": "{{stdc++}}",
            "intelliSenseMode": "linux-gcc-x64",
            "compilerPath": "{{g++}}",
            "compilerArgs": [
                "/Zc:__cplusplus"
            ]
        }
    ],
    "version": 4
}"#;

/// The debugger launch configurations.
pub const LAUNCH_PATH: &'static str = ".vscode/launch.json";

pub const LAUNCH_TEMPLATE: &'static str =
r#"{
    "version": "0.2.0",
    "configurations": [
        {
            "name": "make: g++.exe Testing",
            "type": "cppdbg",
            "request": "launch",
            "program": "${workspaceFolder}/target/${workspaceFolderBasename}.exe",
            "args": ["<", "data.in", ">", "data.out"],
            "stopAtEntry": false,
            "cwd": "${fileDirname}",
            "environment": [],
            "externalConsole": false,
            "MIMode": "gdb",
            "miDebuggerPath": "{{gdb}}",
            "setupCommands": [
                {
                    "description": "为 gdb 启用整齐打印",
                    "text": "-enable-pretty-printing",
                    "ignoreFailures": true
                },
                {
                    "description": "将反汇编风格设置为 Intel",
                    "text": "-gdb-set disassembly-flavor intel",
                    "ignoreFailures": true
                }
            ],
            "preLaunchTask": "make"
        },
        {
            "name": "C/C++: g++.exe Testing",
            "type": "cppdbg",
            "request": "launch",
            "program": "${workspaceFolder}/target/${workspaceFolderBasename}.exe",
            "args": ["<", "data.in", ">", "data.out"],
            "stopAtEntry": false,
            "cwd": "${fileDirname}",
            "environment": [],
            "externalConsole": false,
            "MIMode": "gdb",
            "miDebuggerPath": "{{gdb}}",
            "setupCommands": [
                {
                    "description": "为 gdb 启用整齐打印",
                    "text": "-enable-pretty-printing",
                    "ignoreFailures": true
                },
                {
                    "description": "将反汇编风格设置为 Intel",
                    "text": "-gdb-set disassembly-flavor intel",
                    "ignoreFailures": true
                }
            ],
            "preLaunchTask": "C++: -O0"
        },
        {
            "name": "C/C++: g++.exe O1",
            "type": "cppdbg",
            "request": "launch",
            "program": "${workspaceFolder}/target/${workspaceFolderBasename}.exe",
            "args": ["<", "data.in", ">", "data.out"],
            "stopAtEntry": false,
            "cwd": "${fileDirname}",
            "environment": [],
            "externalConsole": false,
            "MIMode": "gdb",
            "miDebuggerPath": "{{gdb}}",
            "setupCommands": [
                {
                    "description": "为 gdb 启用整齐打印",
                    "text": "-enable-pretty-printing",
                    "ignoreFailures": true
                },
                {
                    "description": "将反汇编风格设置为 Intel",
                    "text": "-gdb-set disassembly-flavor intel",
                    "ignoreFailures": true
                }
            ],
            "preLaunchTask": "C/C++: -O1"
        },
        {
            "name": "C/C++: g++.exe O2",
            "type": "cppdbg",
            "request": "launch",
            "program": "${workspaceFolder}/target/${workspaceFolderBasename}.exe",
            "args": ["<", "data.in", ">", "data.out"],
            "stopAtEntry": false,
            "cwd": "${fileDirname}",
            "environment": [],
            "externalConsole": false,
            "MIMode": "gdb",
            "miDebuggerPath": "{{gdb}}",
            "setupCommands": [
                {
                    "description": "为 gdb 启用整齐打印",
                    "text": "-enable-pretty-printing",
                    "ignoreFailures": true
                },
                {
                    "description": "将反汇编风格设置为 Intel",
                    "text": "-gdb-set disassembly-flavor intel",
                    "ignoreFailures": true
                }
            ],
            "preLaunchTask": "C/C++: -O2"
        },
        {
            "name": "C/C++: g++.exe O3",
            "type": "cppdbg",
            "request": "launch",
            "program": "${workspaceFolder}/target/${workspaceFolderBasename}.exe",
            "args": ["<", "data.in", ">", "data.out"],
            "stopAtEntry": false,
            "cwd": "${fileDirname}",
            "environment": [],
            "externalConsole": false,
            "MIMode": "gdb",
            "miDebuggerPath": "{{gdb}}",
            "setupCommands": [
                {
                    "description": "为 gdb 启用整齐打印",
                    "text": "-enable-pretty-printing",
                    "ignoreFailures": true
                },
                {
                    "description": "将反汇编风格设置为 Intel",
                    "text": "-gdb-set disassembly-flavor intel",
                    "ignoreFailures": true
                }
            ],
            "preLaunchTask": "C/C++: -O3"
        },
        {
            "name": "外部发行版测试",
            "type": "cppdbg",
            "request": "launch",
            "program": "${fileDirname}/${fileBasenameNoExtension}.exe",
            "args": ["<", "data.in", ">", "data.out"],
            "stopAtEntry": false,
            "cwd": "${fileDirname}",
            "environment": [],
            "externalConsole": true,
            "MIMode": "gdb",
            "miDebuggerPath": "{{gdb}}",
            "setupCommands": [
                {
                    "description": "为 gdb 启用整齐打印",
                    "text": "-enable-pretty-printing",
                    "ignoreFailures": true
                },
                {
                    "description": "将反汇编风格设置为 Intel",
                    "text": "-gdb-set disassembly-flavor intel",
                    "ignoreFailures": true
                }
            ],
            "preLaunchTask": "Release"
        },
    ]
}
"#;

/// The editor settings.
pub const SETTINGS_PATH: &'static str = ".vscode/settings.json";

pub const SETTINGS_TEMPLATE: &'static str =
r#"{
    "files.associations": {
        "iostream": "cpp",
        "*.tcc": "cpp",
        "optional": "cpp",
        "future": "cpp",
        "cmath": "cpp",
        "ostream": "cpp",
        "complex": "cpp",
        "cstdarg": "cpp",
        "cstdint": "cpp",
        "cstdio": "cpp",
        "cstdlib": "cpp",
        "type_traits": "cpp",
        "limits": "cpp",
        "typeinfo": "cpp",
        "bitset": "cpp",
        "algorithm": "cpp",
        "array": "cpp",
        "atomic": "cpp",
        "cctype": "cpp",
        "cfenv": "cpp",
        "charconv": "cpp",
        "chrono": "cpp",
        "cinttypes": "cpp",
        "clocale": "cpp",
        "codecvt": "cpp",
        "condition_variable": "cpp",
        "csetjmp": "cpp",
        "csignal": "cpp",
        "cstddef": "cpp",
        "cstring": "cpp",
        "ctime": "cpp",
        "cuchar": "cpp",
        "cwchar": "cpp",
        "cwctype": "cpp",
        "deque": "cpp",
        "forward_list": "cpp",
        "list": "cpp",
        "unordered_map": "cpp",
        "unordered_set": "cpp",
        "vector": "cpp",
        "exception": "cpp",
        "functional": "cpp",
        "iterator": "cpp",
        "map": "cpp",
        "memory": "cpp",
        "memory_resource": "cpp",
        "numeric": "cpp",
        "random": "cpp",
        "ratio": "cpp",
        "regex": "cpp",
        "set": "cpp",
        "string": "cpp",
        "string_view": "cpp",
        "system_error": "cpp",
        "tuple": "cpp",
        "utility": "cpp",
        "fstream": "cpp",
        "initializer_list": "cpp",
        "iomanip": "cpp",
        "iosfwd": "cpp",
        "istream": "cpp",
        "mutex": "cpp",
        "new": "cpp",
        "scoped_allocator": "cpp",
        "shared_mutex": "cpp",
        "sstream": "cpp",
        "stdexcept": "cpp",
        "streambuf": "cpp",
        "thread": "cpp",
        "typeindex": "cpp",
        "valarray": "cpp",
        "cassert": "cpp",
        "ccomplex": "cpp",
        "cerrno": "cpp",
        "cfloat": "cpp",
        "ciso646": "cpp",
        "climits": "cpp",
        "cstdalign": "cpp",
        "cstdbool": "cpp",
        "ctgmath": "cpp",
        "filesystem": "cpp",
        "ios": "cpp",
        "locale": "cpp",
        "queue": "cpp",
        "stack": "cpp",
        "any": "cpp",
        "barrier": "cpp",
        "bit": "cpp",
        "compare": "cpp",
        "concepts": "cpp",
        "coroutine": "cpp",
        "expected": "cpp",
        "source_location": "cpp",
        "latch": "cpp",
        "numbers": "cpp",
        "ranges": "cpp",
        "semaphore": "cpp",
        "span": "cpp",
        "spanstream": "cpp",
        "stacktrace": "cpp",
        "stop_token": "cpp",
        "syncstream": "cpp",
        "variant": "cpp",
        "nfafragmentstack.h": "c",
        "posttonfa.h": "c",
        "regexptopost.h": "c",
        "format": "cpp",
        "generator": "cpp",
        "print": "cpp",
        "stdfloat": "cpp",
        "text_encoding": "cpp"
    },
    "cmake.configureOnOpen": false,
    "C_Cpp.errorSquiggles": "enabled",
    "editor.formatOnPaste": false,
    "editor.formatOnSaveMode": "modifications"
}"#;

/// The build tasks.
pub const TASKS_PATH: &'static str = ".vscode/tasks.json";

pub const TASKS_TEMPLATE: &'static str =
r#"{
    "version": "2.0.0",
    "tasks": [
        {
            "type": "cppbuild",
            "label": "make",
            "command": "make",
            "args": [],
            "options": {
                "cwd": "${fileDirname}"
            },
            "problemMatcher": [
                "$gcc"
            ],
            "group": "build",
            "detail": "wow, cmake"
        },
        {
            "type": "cppbuild",
            "label": "C++: -O0",
            "command": "{{g++}}",
            "args": [
                "-fdiagnostics-color=always",
                "-std={{stdc++}}",
                "-g",
                "-Wall",
                "-DLOCAL",
                "${fileDirname}/*.cpp",
                // "${fileDirname}/*.c",
                "-o",
                "${workspaceFolder}/target/${workspaceFolderBasename}.exe"
            ],
            "options": {
                "cwd": "${fileDirname}"
            },
            "problemMatcher": [
                "$gcc"
            ],
            "group": "build",
            "detail": "g++ -std={{stdc++}} -g -O0"
        },
        {
            "type": "cppbuild",
            "label": "C/C++: -O1",
            "command": "{{g++}}",
            "args": [
                "-fdiagnostics-color=always",
                "-std={{stdc++}}",
                "-g",
                "-DLOCAL",
                "-Wall",
                "-O1",
                "${fileDirname}/*.cpp",
                "-o",
                "${workspaceFolder}/target/${workspaceFolderBasename}.exe"
            ],
            "options": {
                "cwd": "${fileDirname}"
            },
            "problemMatcher": [
                "$gcc"
            ],
            "group": "build",
            "detail": "g++ -std={{stdc++}} -g -O1"
        },
        {
            "type": "cppbuild",
            "label": "C/C++: -O2",
            "command": "{{g++}}",
            "args": [
                "-fdiagnostics-color=always",
                "-std={{stdc++}}",
                "-g",
                "-DLOCAL",
                "-Wall",
                "-O2",
                "${fileDirname}/*.cpp",
                "-o",
                "${workspaceFolder}/target/${workspaceFolderBasename}.exe"
            ],
            "options": {
                "cwd": "${fileDirname}"
            },
            "problemMatcher": [
                "$gcc"
            ],
            "group": "build",
            "detail": "g++ -std={{stdc++}} -g -O2"
        },
        {
            "type": "cppbuild",
            "label": "C/C++: -O3",
            "command": "{{g++}}",
            "args": [
                "-fdiagnostics-color=always",
                "-std={{stdc++}}",
                "-g",
                "-DLOCAL",
                "-Wall",
                "-O3",
                //"-march=native", 生成的binary将与本地机器相关，不建议使用
                // "-Wl,--stack=536870912", 扩栈
                // "${file}",
                "${fileDirname}/*.cpp",
                // "${fileDirname}/*.c",
                "-o",
                "${workspaceFolder}/target/${workspaceFolderBasename}.exe"
            ],
            "options": {
                "cwd": "${fileDirname}"
            },
            "problemMatcher": [
                "$gcc"
            ],
            "group": "build",
            "detail": "g++ -std={{stdc++}} -g -O3"
        },
        {
            "type": "cppbuild",
            "label": "Release",
            "command": "{{g++}}",
            "args": [
                "-fdiagnostics-color=always",
                "-std={{stdc++}}",
                "-static",
                // "-g",
                "-Wall",
                "-O3",
                // "${file}",
                "${fileDirname}/*.cpp",
                // "${fileDirname}/*.c",
                "-o",
                "${workspaceFolder}/target/${workspaceFolderBasename}.exe"
            ],
            "options": {
                "cwd": "${fileDirname}"
            },
            "problemMatcher": [
                "$gcc"
            ],
            "group": "build",
            "detail": "g++ -std={{stdc++}} -static -O3"
        },
    ]
}
"#;

/// The build recipe.
pub const MAKEFILE_PATH: &'static str = "makefile";

pub const MAKEFILE_TEMPLATE: &'static str =
r#"TARPATH = {{current_dir}}/target/
CXX = {{g++}}
EXEC = {{project}}
SRC = $(wildcard *.cpp)
OBJ = $(patsubst %.cpp, $(TARPATH)%.o, $(SRC))

CFLAGS = -c -fdiagnostics-color=always -std={{stdc++}} -g -O1 -Wall -DLOCAL

$(TARPATH)$(EXEC): $(OBJ)
	$(CXX) -o $@ $^

$(TARPATH)%.o: %.cpp
	$(CXX) $(CFLAGS) $< -o $@


.PHONY: clean
TARPATH2 = $(subst /,\,$(TARPATH))
clean:
	del $(TARPATH2)*.o $(TARPATH2)$(EXEC).exe

"#;

/// One file of the bundle: its place under the project's root, and its
/// template.
#[derive(Debug, Clone, Copy)]
pub struct ConfigFile {
    pub path: &'static str,
    pub content: &'static str,
}

/// The places of the bundle's files, in the order in which they are written.
pub open spec fn bundle_paths() -> Seq<Seq<char>> {
    seq![PROPERTIES_PATH@, LAUNCH_PATH@, SETTINGS_PATH@, TASKS_PATH@, MAKEFILE_PATH@]
}

/// The templates of the bundle's files, in the same order.
pub open spec fn bundle_templates() -> Seq<Seq<char>> {
    seq![
        PROPERTIES_TEMPLATE@,
        LAUNCH_TEMPLATE@,
        SETTINGS_TEMPLATE@,
        TASKS_TEMPLATE@,
        MAKEFILE_TEMPLATE@,
    ]
}

/// Whether some segment of `path`, its parts between slashes, is `..`.
pub open spec fn has_parent_segment(path: Seq<char>) -> bool {
    exists|i: int|
        0 <= i && i + 1 < path.len() && #[trigger] path[i] == '.' && path[i + 1] == '.' && (i == 0
            || path[i - 1] == '/') && (i + 2 == path.len() || path[i + 2] == '/')
}

/// Whether `path` names a place under the root it is relative to: it is not
/// empty, does not start at the file system's root, and never steps up.
pub open spec fn stays_under_root(path: Seq<char>) -> bool {
    path.len() > 0 && path[0] != '/' && path[0] != '\\' && !has_parent_segment(path)
}

/// Every file of the bundle goes under the project's root.
pub proof fn lemma_bundle_stays_under_root()
    ensures
        bundle_paths().len() == 5,
        forall|i: int| 0 <= i < 5 ==> stays_under_root(#[trigger] bundle_paths()[i]),
{
    reveal_strlit(".vscode/c_cpp_properties.json");
    reveal_strlit(".vscode/launch.json");
    reveal_strlit(".vscode/settings.json");
    reveal_strlit(".vscode/tasks.json");
    reveal_strlit("makefile");
    assert(stays_under_root(PROPERTIES_PATH@));
    assert(stays_under_root(LAUNCH_PATH@));
    assert(stays_under_root(SETTINGS_PATH@));
    assert(stays_under_root(TASKS_PATH@));
    assert(stays_under_root(MAKEFILE_PATH@));
}

/// The bundle.
pub fn files() -> (r: Vec<ConfigFile>)
    ensures
        r@.len() == 5,
        forall|i: int| 0 <= i < 5 ==> (#[trigger] r@[i]).path@ == bundle_paths()[i],
        forall|i: int| 0 <= i < 5 ==> (#[trigger] r@[i]).content@ == bundle_templates()[i],
{
    let mut r: Vec<ConfigFile> = Vec::new();
    r.push(ConfigFile { path: PROPERTIES_PATH, content: PROPERTIES_TEMPLATE });
    r.push(ConfigFile { path: LAUNCH_PATH, content: LAUNCH_TEMPLATE });
    r.push(ConfigFile { path: SETTINGS_PATH, content: SETTINGS_TEMPLATE });
    r.push(ConfigFile { path: TASKS_PATH, content: TASKS_TEMPLATE });
    r.push(ConfigFile { path: MAKEFILE_PATH, content: MAKEFILE_TEMPLATE });
    r
}

} // verus!
