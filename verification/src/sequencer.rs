//! The bootstrap sequence: which libraries are mapped, in which order, with
//! which symbol visibility, and the single foreign entry call prepared from
//! the extension module's handle.
//!
//! The order is fixed: the backend library first, with global visibility,
//! so the extension module can resolve the backend's symbols without the
//! sequencer wiring them; on the Windows target a prerequisite runtime
//! library next, locally, with its outcome deliberately not inspected; the
//! extension module last, locally, from the executable's own directory. A
//! failure to load the backend or the extension is fatal and stops the
//! sequence; nothing loaded so far is unloaded.

use vstd::prelude::*;

use crate::loader::{
    after_load, handle_after, handle_exports, load_error_matches, loadable, loader_wf,
    lookup_export, Handle, Image, LoadError, LoadedLibrary, Loader, SymbolError,
};
use crate::platform::{
    entry_symbol_name, extension_file_name, join_path, resolve_backend_path, runtime_file_name,
    spec_extension_file_name, spec_resolve_backend_path, spec_separator, Platform,
};

verus! {

/// Everything the bootstrap is configured with: where the backend library
/// lives (a file, or a directory to be suffixed with the platform's
/// canonical file name), where the running executable's own directory is,
/// and what the entry call is handed.
pub struct BootstrapConfig {
    pub platform: Platform,
    /// Path to the backend library, or to the directory holding it.
    pub backend_path: String,
    /// Whether `backend_path` names a directory rather than a file.
    pub backend_is_dir: bool,
    /// The directory the running executable sits in; the extension module
    /// is located here under its platform-specific fixed name.
    pub exe_dir: String,
    /// Network port handed to the entry call; zero means "choose
    /// automatically" and is interpreted by the invoked session.
    pub port: u16,
    /// Multi-session flag handed to the entry call.
    pub multi_session: bool,
}

/// One load the sequencer performs: a path, the visibility to load it
/// with, and whether a failure aborts the whole bootstrap.
pub struct LoadStep {
    pub path: String,
    pub global_symbols: bool,
    pub fatal: bool,
}

/// The prepared foreign entry call: a resolved non-null address to be
/// reinterpreted as a callable with the fixed signature
/// `(port: u16, multi_session: bool) -> ()`, and its two arguments.
#[derive(Clone, Copy, PartialEq, Eq, Structural, Debug)]
pub struct EntryInvocation {
    pub address: u64,
    pub port: u16,
    pub multi_session: bool,
}

/// The path the backend library is loaded from.
pub open spec fn spec_backend_target(c: BootstrapConfig) -> Seq<char> {
    spec_resolve_backend_path(c.backend_path@, c.backend_is_dir, c.platform)
}

/// The path the extension module is loaded from: the executable's own
/// directory, suffixed with the platform's fixed extension file name.
pub open spec fn spec_extension_target(c: BootstrapConfig) -> Seq<char> {
    c.exe_dir@ + spec_separator(c.platform) + spec_extension_file_name(c.platform)
}

/// The load order after the backend load.
pub open spec fn loaded_after_backend(
    images: Seq<Image>,
    loaded: Seq<LoadedLibrary>,
    c: BootstrapConfig,
) -> Seq<LoadedLibrary> {
    after_load(images, loaded, spec_backend_target(c), true)
}

/// The load order after the Windows-only runtime prerequisite: untouched on
/// the other targets, and extended only if that library is itself loadable.
pub open spec fn loaded_after_runtime(
    images: Seq<Image>,
    loaded: Seq<LoadedLibrary>,
    c: BootstrapConfig,
) -> Seq<LoadedLibrary> {
    if c.platform is Windows {
        after_load(images, loaded_after_backend(images, loaded, c), "python36.dll"@, false)
    } else {
        loaded_after_backend(images, loaded, c)
    }
}

/// The load order after the extension module load.
pub open spec fn loaded_after_extension(
    images: Seq<Image>,
    loaded: Seq<LoadedLibrary>,
    c: BootstrapConfig,
) -> Seq<LoadedLibrary> {
    after_load(images, loaded_after_runtime(images, loaded, c), spec_extension_target(c), false)
}

/// The loads the sequencer performs, in order: the backend globally and
/// fatally; on Windows only, the runtime prerequisite locally and
/// non-fatally; the extension module last, locally and fatally.
pub fn bootstrap_steps(config: &BootstrapConfig) -> (r: Vec<LoadStep>)
    ensures
        r@.len() == if config.platform is Windows { 3int } else { 2int },
        r@[0].path@ == spec_backend_target(*config),
        r@[0].global_symbols && r@[0].fatal,
        config.platform is Windows ==> r@[1].path@ == "python36.dll"@ && !r@[1].global_symbols
            && !r@[1].fatal,
        r@[r@.len() - 1].path@ == spec_extension_target(*config),
        !r@[r@.len() - 1].global_symbols && r@[r@.len() - 1].fatal,
{
    let mut steps: Vec<LoadStep> = Vec::new();
    let backend = resolve_backend_path(
        config.backend_path.as_str(),
        config.backend_is_dir,
        config.platform,
    );
    steps.push(LoadStep { path: backend, global_symbols: true, fatal: true });
    if matches!(config.platform, Platform::Windows) {
        let runtime = String::from_str(runtime_file_name());
        steps.push(LoadStep { path: runtime, global_symbols: false, fatal: false });
    }
    let extension = join_path(
        config.exe_dir.as_str(),
        extension_file_name(config.platform),
        config.platform,
    );
    steps.push(LoadStep { path: extension, global_symbols: false, fatal: true });
    steps
}

/// Resolves the well-known `entry` symbol from the extension module's
/// handle and packages the call the bootstrap hands control to: the
/// resolved non-null address together with the configured port and
/// multi-session flag. Fails exactly when the extension module does not
/// export `entry`.
pub fn prepare_entry(l: &Loader, extension: Handle, port: u16, multi_session: bool) -> (r: Result<
    EntryInvocation,
    SymbolError,
>)
    requires
        loader_wf(*l),
        extension.id < l.loaded@.len(),
    ensures
        match r {
            Ok(inv) => lookup_export(handle_exports(*l, extension), "entry"@) == Some(inv.address)
                && inv.address != 0 && inv.port == port && inv.multi_session == multi_session,
            Err(SymbolError::NotExported(n)) => n@ == "entry"@ && lookup_export(
                handle_exports(*l, extension),
                "entry"@,
            ) is None,
        },
{
    let name = String::from_str(entry_symbol_name());
    match l.find_symbol(extension, &name) {
        Ok(address) => Ok(EntryInvocation { address, port, multi_session }),
        Err(e) => Err(e),
    }
}

/// What a completed bootstrap leaves behind: the two fatal handles, both
/// resident for the remaining lifetime of the process, and the prepared
/// entry call.
pub struct BootstrapOutcome {
    pub backend: Handle,
    pub extension: Handle,
    pub invocation: EntryInvocation,
}

/// Why a bootstrap stopped: a fatal load failed, or the extension module
/// does not export the entry symbol.
#[derive(Debug)]
pub enum BootstrapError {
    Load(LoadError),
    Symbol(SymbolError),
}

/// Runs the whole bootstrap sequence against a loader state: backend
/// first with global visibility, then on Windows only the runtime
/// prerequisite (outcome not inspected), then the extension module from
/// the executable's directory, then the entry resolution.
///
/// Exactly one of the following holds: the backend was not loadable and
/// nothing changed; the extension was not loadable and the state stops
/// after the first two steps; the entry symbol was missing and all loads
/// stand; or everything succeeded and the prepared call carries the
/// extension's `entry` address with the configured port and flag.
pub fn run_bootstrap(loader: &mut Loader, config: &BootstrapConfig) -> (r: Result<
    BootstrapOutcome,
    BootstrapError,
>)
    requires
        loader_wf(*old(loader)),
    ensures
        loader_wf(*final(loader)),
        final(loader).images@ == old(loader).images@,
        ({
            let images = old(loader).images@;
            let l0 = old(loader).loaded@;
            let bt = spec_backend_target(*config);
            let l2 = loaded_after_runtime(images, l0, *config);
            let et = spec_extension_target(*config);
            if !loadable(images, l0, bt) {
                final(loader).loaded@ == l0 && (r matches Err(BootstrapError::Load(e))
                    && load_error_matches(images, l0, bt, e))
            } else if !loadable(images, l2, et) {
                final(loader).loaded@ == l2 && (r matches Err(BootstrapError::Load(e))
                    && load_error_matches(images, l2, et, e))
            } else {
                final(loader).loaded@ == loaded_after_extension(images, l0, *config) && {
                    let h = handle_after(images, l2, et);
                    let exports = images[final(loader).loaded@[h].image as int].exports@;
                    match lookup_export(exports, "entry"@) {
                        None => r matches Err(BootstrapError::Symbol(SymbolError::NotExported(n)))
                            && n@ == "entry"@,
                        Some(a) => r matches Ok(out) && out.backend.id as int == handle_after(
                            images,
                            l0,
                            bt,
                        ) && out.extension.id as int == h && out.invocation == (EntryInvocation {
                            address: a,
                            port: config.port,
                            multi_session: config.multi_session,
                        }),
                    }
                }
            }
        }),
{
    let backend_path = resolve_backend_path(
        config.backend_path.as_str(),
        config.backend_is_dir,
        config.platform,
    );
    let backend = match loader.load(&backend_path, true) {
        Ok(h) => h,
        Err(e) => {
            return Err(BootstrapError::Load(e));
        },
    };
    if matches!(config.platform, Platform::Windows) {
        let runtime = String::from_str(runtime_file_name());
        // The runtime prerequisite's outcome is deliberately not inspected.
        let _ = loader.load(&runtime, false);
    }
    let extension_path = join_path(
        config.exe_dir.as_str(),
        extension_file_name(config.platform),
        config.platform,
    );
    let extension = match loader.load(&extension_path, false) {
        Ok(h) => h,
        Err(e) => {
            return Err(BootstrapError::Load(e));
        },
    };
    match prepare_entry(loader, extension, config.port, config.multi_session) {
        Ok(invocation) => Ok(BootstrapOutcome { backend, extension, invocation }),
        Err(e) => Err(BootstrapError::Symbol(e)),
    }
}

} // verus!
