//! The stored defaults, and the rules by which a command's arguments and the
//! stored defaults settle the standard and the toolchain of a new project.

use vstd::prelude::*;
use vstd::string::StringExecFns;
use crate::standards::{is_cpp_standard, is_sentinel, is_standard, lemma_standards_are_real, sentinel};
use crate::text::{normalize_separators, normalized};

verus! {

/// The defaults that a user has stored. An empty field is unset.
#[derive(Debug, Clone, PartialEq, Eq)]
pub struct ConfigRecord {
    pub standard: String,
    pub toolchain_path: String,
}

/// Why a new project cannot be started.
#[derive(Debug, Clone, Copy, PartialEq, Eq, Structural)]
pub enum ValidationError {
    /// No standard was given and the stored one is unset, unknown or the sentinel.
    InvalidStandard,
    /// Neither the command nor the stored defaults name a toolchain.
    MissingToolchainPath,
    /// The toolchain directory does not exist.
    ToolchainNotFound,
    /// Something already stands where the project would go.
    DestinationExists,
}

/// The standard and toolchain that a new project will use, and which of them
/// came from the stored defaults.
#[derive(Debug, Clone, PartialEq, Eq)]
pub struct Resolved {
    pub standard: String,
    pub toolchain_path: String,
    pub standard_from_store: bool,
    pub path_from_store: bool,
}

/// The standard in force: the command's unless it is the sentinel, else the
/// stored one if it is a real standard.
pub open spec fn standard_in_force(command: Seq<char>, stored: Seq<char>) -> Option<Seq<char>> {
    if command != sentinel() {
        Some(command)
    } else if is_standard(stored) {
        Some(stored)
    } else {
        None
    }
}

/// The toolchain in force: the command's unless it is empty, else the stored
/// one unless that is empty too.
pub open spec fn toolchain_in_force(command: Seq<char>, stored: Seq<char>) -> Option<Seq<char>> {
    if command.len() > 0 {
        Some(command)
    } else if stored.len() > 0 {
        Some(stored)
    } else {
        None
    }
}

/// The outcome of resolution: the standard is settled first, so that its
/// failure is the one reported when the toolchain is missing as well.
pub open spec fn resolution(
    command_standard: Seq<char>,
    command_path: Seq<char>,
    stored_standard: Seq<char>,
    stored_path: Seq<char>,
) -> Result<(Seq<char>, Seq<char>), ValidationError> {
    match standard_in_force(command_standard, stored_standard) {
        None => Err(ValidationError::InvalidStandard),
        Some(standard) => match toolchain_in_force(command_path, stored_path) {
            None => Err(ValidationError::MissingToolchainPath),
            Some(path) => Ok((standard, path)),
        },
    }
}

/// The outcome of the two checks that precede every write: the toolchain must
/// exist, and then the destination must be free.
pub open spec fn admission(toolchain_exists: bool, destination_exists: bool) -> Result<
    (),
    ValidationError,
> {
    if !toolchain_exists {
        Err(ValidationError::ToolchainNotFound)
    } else if destination_exists {
        Err(ValidationError::DestinationExists)
    } else {
        Ok(())
    }
}

impl ConfigRecord {
    /// The record of a user who has stored nothing.
    pub fn empty() -> (r: ConfigRecord)
        ensures
            r.standard@.len() == 0,
            r.toolchain_path@.len() == 0,
    {
        ConfigRecord { standard: String::new(), toolchain_path: String::new() }
    }

    /// The record to store for `standard` and `path`. The standard must be a
    /// real one; the path is stored with uniform separators.
    pub fn for_store(standard: &str, path: &str) -> (r: Result<ConfigRecord, ValidationError>)
        ensures
            is_standard(standard@) ==> r is Ok,
            !is_standard(standard@) ==> r == Err::<ConfigRecord, ValidationError>(
                ValidationError::InvalidStandard,
            ),
            r is Ok ==> r->Ok_0.standard@ == standard@,
            r is Ok ==> r->Ok_0.toolchain_path@ == normalized(path@),
    {
        if !is_cpp_standard(standard) {
            return Err(ValidationError::InvalidStandard);
        }
        Ok(ConfigRecord { standard: standard.to_owned(), toolchain_path: normalize_separators(path) })
    }
}

/// Settles the standard and the toolchain of a new project from the command's
/// arguments and the stored defaults.
pub fn resolve(command_standard: &str, command_path: &str, stored: &ConfigRecord) -> (r: Result<
    Resolved,
    ValidationError,
>)
    ensures
        match r {
            Ok(v) => resolution(
                command_standard@,
                command_path@,
                stored.standard@,
                stored.toolchain_path@,
            ) == Ok::<(Seq<char>, Seq<char>), ValidationError>((v.standard@, v.toolchain_path@))
                && v.standard_from_store == (command_standard@ == sentinel())
                && v.path_from_store == (command_path@.len() == 0),
            Err(e) => resolution(
                command_standard@,
                command_path@,
                stored.standard@,
                stored.toolchain_path@,
            ) == Err::<(Seq<char>, Seq<char>), ValidationError>(e),
        },
{
    let standard_from_store = is_sentinel(command_standard);
    let standard = if !standard_from_store {
        command_standard.to_owned()
    } else if is_cpp_standard(stored.standard.as_str()) {
        stored.standard.clone()
    } else {
        return Err(ValidationError::InvalidStandard);
    };
    let path_from_store = command_path.is_empty();
    let toolchain_path = if !path_from_store {
        command_path.to_owned()
    } else if !stored.toolchain_path.as_str().is_empty() {
        stored.toolchain_path.clone()
    } else {
        return Err(ValidationError::MissingToolchainPath);
    };
    Ok(Resolved { standard, toolchain_path, standard_from_store, path_from_store })
}

/// Decides, once the toolchain and the destination have been looked up,
/// whether generation may begin.
pub fn check_admission(toolchain_exists: bool, destination_exists: bool) -> (r: Result<
    (),
    ValidationError,
>)
    ensures
        r == admission(toolchain_exists, destination_exists),
{
    if !toolchain_exists {
        Err(ValidationError::ToolchainNotFound)
    } else if destination_exists {
        Err(ValidationError::DestinationExists)
    } else {
        Ok(())
    }
}

/// What the user is told of the failure `e`, given the stored standard, the
/// toolchain path that was settled on, and the project's name.
pub open spec fn diagnostic_text(
    e: ValidationError,
    stored_standard: Seq<char>,
    toolchain_path: Seq<char>,
    name: Seq<char>,
) -> Seq<char> {
    match e {
        ValidationError::InvalidStandard => if stored_standard == sentinel() {
            "`std=cfg` cannot be used in `config.toml`"@
        } else {
            "Invalid argument in config.toml: `std="@ + stored_standard + "`"@
        },
        ValidationError::MissingToolchainPath => {
            "Missing argument: `--path`, try to pass it or specify it in `config.toml`"@
        },
        ValidationError::ToolchainNotFound => toolchain_path
            + " doesn't exist, setup of mingw64 is required."@,
        ValidationError::DestinationExists => "Destination `"@ + name + "` already exists"@,
    }
}

/// Words the failure `e` for the user, naming the value at fault.
pub fn diagnostic(e: ValidationError, stored_standard: &str, toolchain_path: &str, name: &str) -> (r:
    String)
    ensures
        r@ == diagnostic_text(e, stored_standard@, toolchain_path@, name@),
{
    match e {
        ValidationError::InvalidStandard => {
            if is_sentinel(stored_standard) {
                String::from_str("`std=cfg` cannot be used in `config.toml`")
            } else {
                String::from_str("Invalid argument in config.toml: `std=").concat(
                    stored_standard,
                ).concat("`")
            }
        },
        ValidationError::MissingToolchainPath => String::from_str(
            "Missing argument: `--path`, try to pass it or specify it in `config.toml`",
        ),
        ValidationError::ToolchainNotFound => String::from_str(toolchain_path).concat(
            " doesn't exist, setup of mingw64 is required.",
        ),
        ValidationError::DestinationExists => String::from_str("Destination `").concat(
            name,
        ).concat("` already exists"),
    }
}

/// Arguments given on the command line always win: with a standard other
/// than the sentinel and a toolchain path that is not empty, resolution
/// yields exactly those two, whatever is stored.
pub proof fn lemma_explicit_arguments_win(
    command_standard: Seq<char>,
    command_path: Seq<char>,
    stored_standard: Seq<char>,
    stored_path: Seq<char>,
)
    requires
        command_standard != sentinel(),
        command_path.len() > 0,
    ensures
        resolution(command_standard, command_path, stored_standard, stored_path) == Ok::<
            (Seq<char>, Seq<char>),
            ValidationError,
        >((command_standard, command_path)),
{
}

/// The sentinel is never accepted as a stored default: where the command defers
/// to the store and the store holds the sentinel, an unknown token or nothing,
/// resolution fails with `InvalidStandard`, and it does so whether or not a
/// toolchain path can be had.
pub proof fn lemma_standard_is_settled_first(
    command_path: Seq<char>,
    stored_standard: Seq<char>,
    stored_path: Seq<char>,
)
    requires
        stored_standard == sentinel() || stored_standard.len() == 0 || !is_standard(
            stored_standard,
        ),
    ensures
        resolution(sentinel(), command_path, stored_standard, stored_path) == Err::<
            (Seq<char>, Seq<char>),
            ValidationError,
        >(ValidationError::InvalidStandard),
{
    if is_standard(stored_standard) {
        lemma_standards_are_real(stored_standard);
    }
}

/// Where the command defers to the store for both values and the store holds
/// a real standard and a path, resolution yields exactly what is stored.
pub proof fn lemma_stored_defaults_are_used(stored_standard: Seq<char>, stored_path: Seq<char>)
    requires
        is_standard(stored_standard),
        stored_path.len() > 0,
    ensures
        resolution(sentinel(), Seq::empty(), stored_standard, stored_path) == Ok::<
            (Seq<char>, Seq<char>),
            ValidationError,
        >((stored_standard, stored_path)),
{
}

/// What resolution yields can be used: the standard is never the sentinel,
/// and the toolchain path is never empty.
pub proof fn lemma_resolution_is_usable(
    command_standard: Seq<char>,
    command_path: Seq<char>,
    stored_standard: Seq<char>,
    stored_path: Seq<char>,
)
    requires
        resolution(command_standard, command_path, stored_standard, stored_path) is Ok,
    ensures
        resolution(command_standard, command_path, stored_standard, stored_path)->Ok_0.0
            != sentinel(),
        resolution(command_standard, command_path, stored_standard, stored_path)->Ok_0.1.len() > 0,
{
    if command_standard == sentinel() {
        lemma_standards_are_real(stored_standard);
    }
}

} // verus!
