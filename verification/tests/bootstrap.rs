use codelldb::loader::{Image, LoadError, Loader, SymbolDef, SymbolError};
use codelldb::platform::{
    backend_file_name, entry_symbol_name, extension_file_name, join_path, posix_load_flags,
    resolve_backend_path, runtime_file_name, separator, Platform, RTLD_GLOBAL, RTLD_LAZY,
};
use codelldb::sequencer::{
    bootstrap_steps, prepare_entry, run_bootstrap, BootstrapConfig, BootstrapError,
    EntryInvocation,
};

fn image(path: &str, exports: Vec<(&str, u64)>, imports: Vec<&str>) -> Image {
    Image {
        path: String::from(path),
        exports: exports
            .into_iter()
            .map(|(name, address)| SymbolDef { name: String::from(name), address })
            .collect(),
        imports: imports.into_iter().map(String::from).collect(),
    }
}

fn lldb_config(platform: Platform) -> BootstrapConfig {
    BootstrapConfig {
        platform,
        backend_path: String::from("/opt/lldb/lib"),
        backend_is_dir: true,
        exe_dir: String::from("/opt/ext"),
        port: 9000,
        multi_session: true,
    }
}

#[test]
fn load_then_find_symbol_returns_same_nonnull_address() {
    let images = vec![image("/opt/liblldb.so", vec![("lldb_init", 0x1000)], vec![])];
    let mut l = Loader::new(images);
    let path = String::from("/opt/liblldb.so");
    let h = l.load(&path, true).expect("valid library must load");
    let name = String::from("lldb_init");
    let first = l.find_symbol(h, &name).expect("exported name must resolve");
    assert_ne!(first, 0);
    assert_eq!(first, 0x1000);
    let again = l.find_symbol(h, &name).expect("exported name must resolve");
    assert_eq!(first, again);
}

#[test]
fn load_nonexistent_path_fails_and_changes_nothing() {
    let images = vec![image("/opt/liblldb.so", vec![("lldb_init", 0x1000)], vec![])];
    let mut l = Loader::new(images);
    let path = String::from("/no/such/file.so");
    let r = l.load(&path, true);
    match r {
        Err(LoadError::NotFound(p)) => assert_eq!(p, "/no/such/file.so"),
        _ => panic!("a nonexistent path must fail with a not-found error"),
    }
    assert_eq!(l.loaded.len(), 0);
}

#[test]
fn find_symbol_of_unexported_name_fails() {
    let images = vec![image("/opt/liblldb.so", vec![("lldb_init", 0x1000)], vec![])];
    let mut l = Loader::new(images);
    let path = String::from("/opt/liblldb.so");
    let h = l.load(&path, false).expect("valid library must load");
    let name = String::from("absent");
    match l.find_symbol(h, &name) {
        Err(SymbolError::NotExported(n)) => assert_eq!(n, "absent"),
        _ => panic!("an unexported name must fail with a symbol error"),
    }
}

#[test]
fn directory_resolution_loads_correctly_named_library() {
    let images = vec![image("/opt/lldb/lib/liblldb.so", vec![("lldb_init", 0x1000)], vec![])];
    let mut l = Loader::new(images);
    let resolved = resolve_backend_path("/opt/lldb/lib", true, Platform::Linux);
    assert_eq!(resolved, "/opt/lldb/lib/liblldb.so");
    assert!(l.load(&resolved, true).is_ok());
}

#[test]
fn directory_resolution_fails_without_the_library_file() {
    let images = vec![image("/opt/lldb/lib/other.so", vec![("lldb_init", 0x1000)], vec![])];
    let mut l = Loader::new(images);
    let resolved = resolve_backend_path("/opt/lldb/lib", true, Platform::Linux);
    match l.load(&resolved, true) {
        Err(LoadError::NotFound(p)) => assert_eq!(p, "/opt/lldb/lib/liblldb.so"),
        _ => panic!("a directory without the platform file must not load"),
    }
}

#[test]
fn file_path_is_taken_as_given() {
    let resolved = resolve_backend_path("/opt/custom/mylldb.so", false, Platform::Linux);
    assert_eq!(resolved, "/opt/custom/mylldb.so");
}

#[test]
fn global_visibility_lets_later_load_resolve() {
    let images = vec![
        image("/a.so", vec![("shared_sym", 0x10)], vec![]),
        image("/b.so", vec![("b_sym", 0x20)], vec!["shared_sym"]),
    ];
    let mut l = Loader::new(images);
    let a = String::from("/a.so");
    let b = String::from("/b.so");
    l.load(&a, true).expect("self-contained library must load");
    assert!(l.load(&b, false).is_ok());
}

#[test]
fn local_visibility_makes_later_load_fail_unresolved() {
    let images = vec![
        image("/a.so", vec![("shared_sym", 0x10)], vec![]),
        image("/b.so", vec![("b_sym", 0x20)], vec!["shared_sym"]),
    ];
    let mut l = Loader::new(images);
    let a = String::from("/a.so");
    let b = String::from("/b.so");
    l.load(&a, false).expect("self-contained library must load");
    match l.load(&b, false) {
        Err(LoadError::UnresolvedImport(s)) => assert_eq!(s, "shared_sym"),
        _ => panic!("a need met only locally must fail as unresolved"),
    }
    assert_eq!(l.loaded.len(), 1);
}

#[test]
fn reloading_a_path_returns_the_same_handle_and_can_promote() {
    let images = vec![image("/a.so", vec![("shared_sym", 0x10)], vec![])];
    let mut l = Loader::new(images);
    let a = String::from("/a.so");
    let h1 = l.load(&a, false).expect("valid library must load");
    assert!(!l.loaded[h1.id].global);
    let h2 = l.load(&a, true).expect("a resident path must stay loadable");
    assert_eq!(h1, h2);
    assert_eq!(l.loaded.len(), 1);
    assert!(l.loaded[h2.id].global);
}

#[test]
fn earlier_handles_survive_later_loads() {
    let images = vec![
        image("/a.so", vec![("a_sym", 0x10)], vec![]),
        image("/b.so", vec![("b_sym", 0x20)], vec![]),
    ];
    let mut l = Loader::new(images);
    let a_path = String::from("/a.so");
    let b_path = String::from("/b.so");
    let a = l.load(&a_path, true).expect("valid library must load");
    let name = String::from("a_sym");
    let before = l.find_symbol(a, &name).expect("exported name must resolve");
    l.load(&b_path, false).expect("valid library must load");
    let after = l.find_symbol(a, &name).expect("the old handle must stay valid");
    assert_eq!(before, after);
}

#[test]
fn platform_file_names_and_separators() {
    assert_eq!(backend_file_name(Platform::Linux), "liblldb.so");
    assert_eq!(backend_file_name(Platform::MacOs), "liblldb.dylib");
    assert_eq!(backend_file_name(Platform::Windows), "liblldb.dll");
    assert_eq!(extension_file_name(Platform::Linux), "libcodelldb.so");
    assert_eq!(extension_file_name(Platform::MacOs), "libcodelldb.dylib");
    assert_eq!(extension_file_name(Platform::Windows), "codelldb.dll");
    assert_eq!(runtime_file_name(), "python36.dll");
    assert_eq!(entry_symbol_name(), "entry");
    assert_eq!(separator(Platform::Linux), "/");
    assert_eq!(separator(Platform::MacOs), "/");
    assert_eq!(separator(Platform::Windows), "\\");
    assert_eq!(join_path("C:\\ext", "codelldb.dll", Platform::Windows), "C:\\ext\\codelldb.dll");
}

#[test]
fn posix_flags_are_lazy_and_global_on_request() {
    assert_eq!(posix_load_flags(false), RTLD_LAZY);
    assert_eq!(posix_load_flags(false), 0x1);
    assert_eq!(posix_load_flags(true), RTLD_LAZY | RTLD_GLOBAL);
    assert_eq!(posix_load_flags(true), 0x101);
}

#[test]
fn bootstrap_steps_linux_order_and_visibility() {
    let steps = bootstrap_steps(&lldb_config(Platform::Linux));
    assert_eq!(steps.len(), 2);
    assert_eq!(steps[0].path, "/opt/lldb/lib/liblldb.so");
    assert!(steps[0].global_symbols && steps[0].fatal);
    assert_eq!(steps[1].path, "/opt/ext/libcodelldb.so");
    assert!(!steps[1].global_symbols && steps[1].fatal);
}

#[test]
fn bootstrap_steps_windows_carry_nonfatal_runtime() {
    let mut config = lldb_config(Platform::Windows);
    config.backend_path = String::from("C:\\lldb\\bin");
    config.exe_dir = String::from("C:\\ext");
    let steps = bootstrap_steps(&config);
    assert_eq!(steps.len(), 3);
    assert_eq!(steps[0].path, "C:\\lldb\\bin\\liblldb.dll");
    assert!(steps[0].global_symbols && steps[0].fatal);
    assert_eq!(steps[1].path, "python36.dll");
    assert!(!steps[1].global_symbols && !steps[1].fatal);
    assert_eq!(steps[2].path, "C:\\ext\\codelldb.dll");
    assert!(!steps[2].global_symbols && steps[2].fatal);
}

#[test]
fn end_to_end_bootstrap_loads_resolves_and_prepares_entry() {
    let images = vec![
        image("/opt/lldb/lib/liblldb.so", vec![("lldb_init", 0x100)], vec![]),
        image(
            "/opt/ext/libcodelldb.so",
            vec![("entry", 0x200)],
            // The extension resolves against the backend, which must
            // therefore have been loaded first, with global visibility.
            vec!["lldb_init"],
        ),
    ];
    let mut l = Loader::new(images);
    let outcome = run_bootstrap(&mut l, &lldb_config(Platform::Linux)).expect("bootstrap must succeed");
    assert_eq!(l.loaded.len(), 2);
    assert!(l.loaded[outcome.backend.id].global);
    assert!(!l.loaded[outcome.extension.id].global);
    assert_eq!(outcome.backend.id, 0);
    assert_eq!(outcome.extension.id, 1);
    assert_eq!(
        outcome.invocation,
        EntryInvocation { address: 0x200, port: 9000, multi_session: true }
    );
}

#[test]
fn bootstrap_fails_fatally_without_backend() {
    let images = vec![image("/opt/ext/libcodelldb.so", vec![("entry", 0x200)], vec![])];
    let mut l = Loader::new(images);
    match run_bootstrap(&mut l, &lldb_config(Platform::Linux)) {
        Err(BootstrapError::Load(LoadError::NotFound(p))) => {
            assert_eq!(p, "/opt/lldb/lib/liblldb.so")
        },
        _ => panic!("a missing backend must abort the bootstrap"),
    }
    assert_eq!(l.loaded.len(), 0);
}

#[test]
fn bootstrap_fails_fatally_without_extension() {
    let images = vec![image("/opt/lldb/lib/liblldb.so", vec![("lldb_init", 0x100)], vec![])];
    let mut l = Loader::new(images);
    match run_bootstrap(&mut l, &lldb_config(Platform::Linux)) {
        Err(BootstrapError::Load(LoadError::NotFound(p))) => {
            assert_eq!(p, "/opt/ext/libcodelldb.so")
        },
        _ => panic!("a missing extension must abort the bootstrap"),
    }
    assert_eq!(l.loaded.len(), 1);
}

#[test]
fn bootstrap_fails_without_entry_symbol() {
    let images = vec![
        image("/opt/lldb/lib/liblldb.so", vec![("lldb_init", 0x100)], vec![]),
        image("/opt/ext/libcodelldb.so", vec![("not_entry", 0x200)], vec![]),
    ];
    let mut l = Loader::new(images);
    match run_bootstrap(&mut l, &lldb_config(Platform::Linux)) {
        Err(BootstrapError::Symbol(SymbolError::NotExported(n))) => assert_eq!(n, "entry"),
        _ => panic!("a missing entry symbol must abort the bootstrap"),
    }
    assert_eq!(l.loaded.len(), 2);
}

#[test]
fn windows_bootstrap_survives_missing_runtime_library() {
    let images = vec![
        image("C:\\lldb\\bin\\liblldb.dll", vec![("lldb_init", 0x100)], vec![]),
        image("C:\\ext\\codelldb.dll", vec![("entry", 0x200)], vec![]),
    ];
    let mut l = Loader::new(images);
    let mut config = lldb_config(Platform::Windows);
    config.backend_path = String::from("C:\\lldb\\bin");
    config.exe_dir = String::from("C:\\ext");
    let outcome = run_bootstrap(&mut l, &config).expect("the runtime prerequisite is not fatal");
    // The runtime library was absent, so only the two fatal loads stand.
    assert_eq!(l.loaded.len(), 2);
    assert_eq!(outcome.invocation.port, 9000);
}

#[test]
fn windows_bootstrap_loads_runtime_when_present() {
    let images = vec![
        image("C:\\lldb\\bin\\liblldb.dll", vec![("lldb_init", 0x100)], vec![]),
        image("python36.dll", vec![("py_init", 0x300)], vec![]),
        image("C:\\ext\\codelldb.dll", vec![("entry", 0x200)], vec![]),
    ];
    let mut l = Loader::new(images);
    let mut config = lldb_config(Platform::Windows);
    config.backend_path = String::from("C:\\lldb\\bin");
    config.exe_dir = String::from("C:\\ext");
    let outcome = run_bootstrap(&mut l, &config).expect("bootstrap must succeed");
    assert_eq!(l.loaded.len(), 3);
    // Backend first and global, runtime second and local, extension last.
    assert_eq!(outcome.backend.id, 0);
    assert!(l.loaded[0].global);
    assert!(!l.loaded[1].global);
    assert_eq!(outcome.extension.id, 2);
    assert!(!l.loaded[2].global);
}

#[test]
fn prepare_entry_carries_port_and_flag() {
    let images = vec![image("/opt/ext/libcodelldb.so", vec![("entry", 0x200)], vec![])];
    let mut l = Loader::new(images);
    let path = String::from("/opt/ext/libcodelldb.so");
    let h = l.load(&path, false).expect("valid library must load");
    let inv = prepare_entry(&l, h, 0, false).expect("entry must resolve");
    assert_eq!(inv, EntryInvocation { address: 0x200, port: 0, multi_session: false });
}
