use bottlerocket_settings_plugin::loader::{library_file_name, LoadState, LoadStep};
use bottlerocket_settings_plugin::opaque::{self, OpaqueSettingsPluginLoader};
use bottlerocket_settings_plugin::settings::{self, BottlerocketSettingsPluginLoader};

fn is_open(step: &LoadStep, expected: &str) -> bool {
    matches!(step, LoadStep::Open { file } if file == expected)
}

fn is_report(step: &LoadStep, expected: &str) -> bool {
    matches!(step, LoadStep::Report { message } if message == expected)
}

#[test]
fn library_file_names() {
    assert_eq!(library_file_name("settings"), "libsettings.so");
    assert_eq!(library_file_name("x"), "libx.so");
    assert_eq!(library_file_name(""), "lib.so");
    assert_eq!(settings::ROOT_MODULE_NAME, "settings");
    assert_eq!(opaque::ROOT_MODULE_NAME, "settings");
}

#[test]
fn first_request_opens_the_library() {
    let loader = BottlerocketSettingsPluginLoader::new();
    assert!(is_open(&loader.load(), "libsettings.so"));
    // Asking again before an outcome is known still asks to open it.
    assert!(is_open(&loader.load(), "libsettings.so"));
    assert!(!loader.is_loaded());
}

#[test]
fn successful_open_is_kept() {
    let mut loader = BottlerocketSettingsPluginLoader::new();
    assert!(matches!(loader.opened(Ok(())), LoadStep::Ready));
    assert!(loader.is_loaded());
    assert!(matches!(loader.load(), LoadStep::Ready));
    // A later outcome changes nothing.
    assert!(matches!(loader.opened(Err("gone".to_string())), LoadStep::Ready));
    assert!(loader.is_loaded());
}

#[test]
fn failure_is_reported_on_every_request() {
    let mut loader = BottlerocketSettingsPluginLoader::new();
    let err = "libsettings.so: cannot open shared object file".to_string();
    assert!(is_report(&loader.opened(Err(err.clone())), &err));
    assert!(!loader.is_loaded());
    for _ in 0..3 {
        assert!(is_report(&loader.load(), &err));
    }
    assert!(is_report(&loader.opened(Ok(())), &err));
    assert!(is_report(&loader.load(), &err));
    assert!(!loader.is_loaded());
}

#[test]
fn opaque_loader_behaves_alike() {
    let mut loader = OpaqueSettingsPluginLoader::new();
    assert!(is_open(&loader.load(), "libsettings.so"));
    assert!(is_report(&loader.opened(Err("bad".to_string())), "bad"));
    assert!(is_report(&loader.load(), "bad"));
    let mut ok = OpaqueSettingsPluginLoader::new();
    assert!(matches!(ok.opened(Ok(())), LoadStep::Ready));
    assert!(ok.is_loaded());
    assert!(matches!(ok.load(), LoadStep::Ready));
}

#[test]
fn load_state_records_only_the_first_outcome() {
    let mut state = LoadState::Unloaded;
    assert!(is_open(&state.next_step("f".to_string()), "f"));
    state.record(Err("e1".to_string()));
    state.record(Err("e2".to_string()));
    state.record(Ok(()));
    assert!(is_report(&state.next_step("f".to_string()), "e1"));
    let mut loaded = LoadState::Unloaded;
    loaded.record(Ok(()));
    loaded.record(Err("late".to_string()));
    assert!(matches!(loaded.next_step("f".to_string()), LoadStep::Ready));
    assert!(matches!(loaded, LoadState::Loaded));
}
