use xcpp::config::{check_admission, diagnostic, resolve, ConfigRecord, ValidationError};
use xcpp::standards::{cpp_standards, is_cpp_standard, is_sentinel};

fn stored(standard: &str, path: &str) -> ConfigRecord {
    ConfigRecord { standard: standard.to_string(), toolchain_path: path.to_string() }
}

#[test]
fn invalid_std_argument() {
    assert!(!cpp_standards().contains(&"c++18"));
    assert!(!is_cpp_standard("c++18"));
}

#[test]
fn standards_are_listed_in_order() {
    assert_eq!(
        cpp_standards(),
        ["c++98", "c++03", "c++11", "c++14", "c++17", "c++20", "c++23", "cfg"]
    );
}

#[test]
fn every_real_standard_is_known() {
    for s in &cpp_standards()[..7] {
        assert!(is_cpp_standard(s));
        assert!(!is_sentinel(s));
    }
}

#[test]
fn sentinel_is_no_standard() {
    assert!(is_sentinel("cfg"));
    assert!(!is_cpp_standard("cfg"));
    assert!(!is_cpp_standard(""));
    assert!(!is_cpp_standard("c++1"));
    assert!(!is_cpp_standard("C++17"));
}

#[test]
fn explicit_arguments_win() {
    let r = resolve("c++17", "/tc", &stored("", "")).unwrap();
    assert_eq!(r.standard, "c++17");
    assert_eq!(r.toolchain_path, "/tc");
    assert!(!r.standard_from_store);
    assert!(!r.path_from_store);
}

#[test]
fn explicit_arguments_win_over_stored_values() {
    let r = resolve("c++11", "/mine", &stored("c++20", "/theirs")).unwrap();
    assert_eq!(r.standard, "c++11");
    assert_eq!(r.toolchain_path, "/mine");
    assert!(!r.standard_from_store);
    assert!(!r.path_from_store);
}

#[test]
fn stored_sentinel_is_refused() {
    assert_eq!(
        resolve("cfg", "", &stored("cfg", "/tc")),
        Err(ValidationError::InvalidStandard)
    );
}

#[test]
fn standard_failure_comes_first() {
    assert_eq!(resolve("cfg", "", &stored("", "")), Err(ValidationError::InvalidStandard));
}

#[test]
fn unknown_stored_standard_is_refused() {
    assert_eq!(
        resolve("cfg", "/tc", &stored("c++18", "/tc")),
        Err(ValidationError::InvalidStandard)
    );
    assert_eq!(resolve("cfg", "/tc", &stored("", "/tc")), Err(ValidationError::InvalidStandard));
}

#[test]
fn missing_toolchain_path_is_reported() {
    assert_eq!(
        resolve("c++17", "", &stored("", "")),
        Err(ValidationError::MissingToolchainPath)
    );
    assert_eq!(
        resolve("cfg", "", &stored("c++14", "")),
        Err(ValidationError::MissingToolchainPath)
    );
}

#[test]
fn stored_defaults_fill_the_gaps() {
    let r = resolve("cfg", "", &stored("c++20", "E:/mingw64/bin")).unwrap();
    assert_eq!(r.standard, "c++20");
    assert_eq!(r.toolchain_path, "E:/mingw64/bin");
    assert!(r.standard_from_store);
    assert!(r.path_from_store);
}

#[test]
fn stored_path_alone_is_used() {
    let r = resolve("c++98", "", &stored("", "/tc")).unwrap();
    assert_eq!(r.standard, "c++98");
    assert_eq!(r.toolchain_path, "/tc");
    assert!(!r.standard_from_store);
    assert!(r.path_from_store);
}

#[test]
fn existing_destination_is_refused() {
    assert_eq!(check_admission(true, true), Err(ValidationError::DestinationExists));
}

#[test]
fn missing_toolchain_is_refused_first() {
    assert_eq!(check_admission(false, false), Err(ValidationError::ToolchainNotFound));
    assert_eq!(check_admission(false, true), Err(ValidationError::ToolchainNotFound));
    assert_eq!(check_admission(true, false), Ok(()));
}

#[test]
fn empty_record_has_no_values() {
    let r = ConfigRecord::empty();
    assert_eq!(r.standard, "");
    assert_eq!(r.toolchain_path, "");
}

#[test]
fn stored_record_keeps_its_values() {
    let r = ConfigRecord::for_store("c++17", "E:\\Environment\\mingw64\\bin").unwrap();
    assert_eq!(r.standard, "c++17");
    assert_eq!(r.toolchain_path, "E:/Environment/mingw64/bin");
    let again = ConfigRecord::for_store(&r.standard, &r.toolchain_path).unwrap();
    assert_eq!(again, r);
}

#[test]
fn sentinel_cannot_be_stored() {
    assert_eq!(ConfigRecord::for_store("cfg", "/tc"), Err(ValidationError::InvalidStandard));
    assert_eq!(ConfigRecord::for_store("c++18", "/tc"), Err(ValidationError::InvalidStandard));
}

#[test]
fn stored_record_resolves_to_itself() {
    let r = ConfigRecord::for_store("c++23", "C:\\tc").unwrap();
    let v = resolve("cfg", "", &r).unwrap();
    assert_eq!(v.standard, "c++23");
    assert_eq!(v.toolchain_path, "C:/tc");
}

#[test]
fn diagnostics_name_the_value_at_fault() {
    assert_eq!(
        diagnostic(ValidationError::InvalidStandard, "cfg", "/tc", "proj"),
        "`std=cfg` cannot be used in `config.toml`"
    );
    assert_eq!(
        diagnostic(ValidationError::InvalidStandard, "c++18", "/tc", "proj"),
        "Invalid argument in config.toml: `std=c++18`"
    );
    assert_eq!(
        diagnostic(ValidationError::InvalidStandard, "", "/tc", "proj"),
        "Invalid argument in config.toml: `std=`"
    );
    assert_eq!(
        diagnostic(ValidationError::MissingToolchainPath, "c++17", "", "proj"),
        "Missing argument: `--path`, try to pass it or specify it in `config.toml`"
    );
    assert_eq!(
        diagnostic(ValidationError::ToolchainNotFound, "c++17", "/tc", "proj"),
        "/tc doesn't exist, setup of mingw64 is required."
    );
    assert_eq!(
        diagnostic(ValidationError::DestinationExists, "c++17", "/tc", "proj"),
        "Destination `proj` already exists"
    );
}
