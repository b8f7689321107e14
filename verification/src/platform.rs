//! Platform targets and their file-naming conventions.
//!
//! Each supported platform family locates the backend library and the
//! extension module through one fixed file name, and joins path components
//! with its own separator. The POSIX loader flags computed here are the
//! ones handed to the platform's dynamic-loading primitive.

use vstd::prelude::*;

verus! {

/// A build-time platform target. Selection between the loading primitives
/// happens per target; this enum lets the sequencing logic be stated and
/// checked once for all three families.
#[derive(Clone, Copy, PartialEq, Eq, Structural, Debug)]
pub enum Platform {
    Linux,
    MacOs,
    Windows,
}

/// Lazy symbol binding: symbols are resolved on first use, not at load time.
pub const RTLD_LAZY: i32 = 0x00001;

/// Loaded symbols become resolvable by libraries loaded afterward.
pub const RTLD_GLOBAL: i32 = 0x00100;

/// The fixed file name of the debugger backend library on this platform.
pub open spec fn spec_backend_file_name(p: Platform) -> Seq<char> {
    match p {
        Platform::Linux => "liblldb.so"@,
        Platform::MacOs => "liblldb.dylib"@,
        Platform::Windows => "liblldb.dll"@,
    }
}

/// The fixed file name of the extension module shipped beside the executable.
pub open spec fn spec_extension_file_name(p: Platform) -> Seq<char> {
    match p {
        Platform::Linux => "libcodelldb.so"@,
        Platform::MacOs => "libcodelldb.dylib"@,
        Platform::Windows => "codelldb.dll"@,
    }
}

/// The path separator the platform's loader expects.
pub open spec fn spec_separator(p: Platform) -> Seq<char> {
    match p {
        Platform::Windows => "\\"@,
        _ => "/"@,
    }
}

pub fn backend_file_name(p: Platform) -> (r: &'static str)
    ensures
        r@ == spec_backend_file_name(p),
{
    match p {
        Platform::Linux => "liblldb.so",
        Platform::MacOs => "liblldb.dylib",
        Platform::Windows => "liblldb.dll",
    }
}

pub fn extension_file_name(p: Platform) -> (r: &'static str)
    ensures
        r@ == spec_extension_file_name(p),
{
    match p {
        Platform::Linux => "libcodelldb.so",
        Platform::MacOs => "libcodelldb.dylib",
        Platform::Windows => "codelldb.dll",
    }
}

/// The prerequisite runtime library loaded on the Windows target only; its
/// load outcome is not inspected further by the sequencer.
pub fn runtime_file_name() -> (r: &'static str)
    ensures
        r@ == "python36.dll"@,
{
    "python36.dll"
}

/// The single well-known symbol resolved from the extension module.
pub fn entry_symbol_name() -> (r: &'static str)
    ensures
        r@ == "entry"@,
{
    "entry"
}

pub fn separator(p: Platform) -> (r: &'static str)
    ensures
        r@ == spec_separator(p),
{
    match p {
        Platform::Windows => "\\",
        _ => "/",
    }
}

/// Flags for the POSIX dynamic-loading primitive: always lazy binding, and
/// globally visible symbols exactly when the load asks for them. The Windows
/// target has no equivalent flag at this granularity and ignores visibility.
pub fn posix_load_flags(global_symbols: bool) -> (r: i32)
    ensures
        r == if global_symbols {
            RTLD_LAZY | RTLD_GLOBAL
        } else {
            RTLD_LAZY
        },
{
    if global_symbols {
        RTLD_LAZY | RTLD_GLOBAL
    } else {
        RTLD_LAZY
    }
}

/// Joins a directory and a file name with the platform's separator.
pub fn join_path(dir: &str, file: &str, p: Platform) -> (r: String)
    ensures
        r@ == dir@ + spec_separator(p) + file@,
{
    let mut s = String::from_str(dir);
    s.append(separator(p));
    s.append(file);
    s
}

/// The concrete backend library path: a directory is suffixed with the
/// platform's canonical backend file name, a file path is taken as given.
pub open spec fn spec_resolve_backend_path(path: Seq<char>, is_dir: bool, p: Platform) -> Seq<char> {
    if is_dir {
        path + spec_separator(p) + spec_backend_file_name(p)
    } else {
        path
    }
}

pub fn resolve_backend_path(path: &str, is_dir: bool, p: Platform) -> (r: String)
    ensures
        r@ == spec_resolve_backend_path(path@, is_dir, p),
{
    if is_dir {
        join_path(path, backend_file_name(p), p)
    } else {
        String::from_str(path)
    }
}

} // verus!
