use webview2::builder::{CreateStep, EnvironmentBuilder, LoadStep, ResolveStep};
use webview2::status::{check_hresult, Error, E_INVALIDARG};

fn wide(text: &str) -> Vec<u16> {
    text.encode_utf16().collect()
}

fn read(answer: (i32, Option<&webview2::wide::WideString>)) -> (i32, Option<Vec<u16>>) {
    (answer.0, answer.1.map(|wide| wide.as_slice_with_nul().to_vec()))
}

fn terminated(text: &str) -> Vec<u16> {
    let mut units = wide(text);
    units.push(0);
    units
}

#[test]
fn builder_remembers_its_option_strings() {
    let builder = EnvironmentBuilder::new();
    assert_eq!(builder.additional_browser_arguments(), None);
    assert_eq!(builder.language(), None);
    assert_eq!(builder.target_compatible_browser_version(), None);
    let builder = builder
        .with_additional_browser_arguments("--disable-gpu")
        .with_language("de")
        .with_target_compatible_browser_version("82.0.448.0");
    assert_eq!(builder.additional_browser_arguments(), Some("--disable-gpu"));
    assert_eq!(builder.language(), Some("de"));
    assert_eq!(builder.target_compatible_browser_version(), Some("82.0.448.0"));
}

#[test]
fn default_builder_has_nothing_set() {
    let builder = EnvironmentBuilder::default();
    assert_eq!(builder.additional_browser_arguments(), None);
    assert_eq!(builder.language(), None);
    assert_eq!(builder.target_compatible_browser_version(), None);
    assert!(matches!(builder.build(false), LoadStep::NotConfigured));
}

#[test]
fn later_setting_replaces_the_earlier_one() {
    let builder = EnvironmentBuilder::new().with_language("de").with_language("fr");
    assert_eq!(builder.language(), Some("fr"));
}

#[test]
fn path_leads_to_loading_from_the_file() {
    let path = wide("C:\\loader\\WebView2Loader.dll");
    let step = EnvironmentBuilder::new().with_dll_file_path(&path).build(true);
    match step {
        LoadStep::FromFile { path: encoded, .. } => {
            assert_eq!(encoded.as_slice_with_nul(), &terminated("C:\\loader\\WebView2Loader.dll")[..]);
        }
        other => panic!("unexpected step {:?}", other),
    }
}

#[test]
fn path_with_a_zero_fails_before_anything_is_loaded() {
    let path = [0x43u16, 0, 0x44];
    let step = EnvironmentBuilder::new().with_dll_file_path(&path).build(true);
    assert!(matches!(step, LoadStep::Failed { error } if error == Error::new(E_INVALIDARG)));
}

#[test]
fn no_path_leads_to_the_image_in_memory() {
    assert!(matches!(EnvironmentBuilder::new().build(true), LoadStep::FromMemory { .. }));
}

#[test]
fn no_path_and_no_image_is_a_configuration_mistake() {
    assert!(matches!(EnvironmentBuilder::new().build(false), LoadStep::NotConfigured));
}

#[test]
fn path_wins_over_the_image() {
    let path = wide("loader.dll");
    assert!(matches!(
        EnvironmentBuilder::new().with_dll_file_path(&path).build(false),
        LoadStep::FromFile { .. }
    ));
}

fn pending_library(path: &[u16]) -> webview2::builder::PendingLibrary {
    match EnvironmentBuilder::new().with_dll_file_path(path).build(false) {
        LoadStep::FromFile { pending, .. } => pending,
        other => panic!("unexpected step {:?}", other),
    }
}

#[test]
fn null_module_ends_with_the_error_of_the_system() {
    let path = wide("missing.dll");
    let step = pending_library(&path).file_loaded(0, 126);
    assert!(
        matches!(step, ResolveStep::Failed { error } if error.hresult() as u32 == 0x8007_007E)
    );
}

#[test]
fn loaded_file_leads_to_the_lookup() {
    let path = wide("loader.dll");
    let step = pending_library(&path).file_loaded(0x1800_0000, 0);
    assert!(matches!(
        step,
        ResolveStep::Resolve { library: 0x1800_0000, embedded: false, .. }
    ));
}

#[test]
fn loaded_image_leads_to_the_lookup_in_memory() {
    let pending = match EnvironmentBuilder::new().build(true) {
        LoadStep::FromMemory { pending } => pending,
        other => panic!("unexpected step {:?}", other),
    };
    assert!(matches!(
        pending.image_loaded(Ok(0x2200_0000)),
        ResolveStep::Resolve { library: 0x2200_0000, embedded: true, .. }
    ));
}

#[test]
fn failed_image_ends_with_the_error_of_its_code() {
    let pending = match EnvironmentBuilder::new().build(true) {
        LoadStep::FromMemory { pending } => pending,
        other => panic!("unexpected step {:?}", other),
    };
    assert!(matches!(
        pending.image_loaded(Err(193)),
        ResolveStep::Failed { error } if error.hresult() as u32 == 0x8007_00C1
    ));
}

fn pending_entry(builder: EnvironmentBuilder<'_>) -> webview2::builder::PendingEntry {
    let pending = match builder.build(true) {
        LoadStep::FromMemory { pending } => pending,
        other => panic!("unexpected step {:?}", other),
    };
    match pending.image_loaded(Ok(0x2200_0000)) {
        ResolveStep::Resolve { pending, .. } => pending,
        other => panic!("unexpected step {:?}", other),
    }
}

#[test]
fn null_address_ends_with_the_error_of_the_system() {
    let step = pending_entry(EnvironmentBuilder::new()).resolved(0, 127);
    assert!(
        matches!(step, CreateStep::Failed { error } if error.hresult() as u32 == 0x8007_007F)
    );
}

#[test]
fn bare_builder_creates_with_null_folders_and_unset_options() {
    match pending_entry(EnvironmentBuilder::new()).resolved(0x3300_0000, 0) {
        CreateStep::Create { entry, call } => {
            assert_eq!(entry, 0x3300_0000);
            assert!(call.browser_executable_folder.is_none());
            assert!(call.user_data_folder.is_none());
            assert_eq!(read(call.options.get_additional_browser_arguments()), (0, None));
            assert_eq!(read(call.options.get_language()), (0, None));
            assert_eq!(read(call.options.get_target_compatible_browser_version()), (0, None));
        }
        other => panic!("unexpected step {:?}", other),
    }
}

#[test]
fn settings_arrive_encoded_in_the_call() {
    let browser = wide("C:\\edge");
    let data = wide("C:\\data");
    let builder = EnvironmentBuilder::new()
        .with_browser_executable_folder(&browser)
        .with_user_data_folder(&data)
        .with_additional_browser_arguments("--flag")
        .with_language("en-GB")
        .with_target_compatible_browser_version("83.0");
    match pending_entry(builder).resolved(0x3300_0000, 0) {
        CreateStep::Create { entry, call } => {
            assert_eq!(entry, 0x3300_0000);
            assert_eq!(
                call.browser_executable_folder.unwrap().as_slice_with_nul(),
                &terminated("C:\\edge")[..]
            );
            assert_eq!(
                call.user_data_folder.unwrap().as_slice_with_nul(),
                &terminated("C:\\data")[..]
            );
            assert_eq!(
                read(call.options.get_additional_browser_arguments()),
                (0, Some(terminated("--flag")))
            );
            assert_eq!(read(call.options.get_language()), (0, Some(terminated("en-GB"))));
            assert_eq!(
                read(call.options.get_target_compatible_browser_version()),
                (0, Some(terminated("83.0")))
            );
        }
        other => panic!("unexpected step {:?}", other),
    }
}

fn refused(builder: EnvironmentBuilder<'_>, embedded_available: bool) -> bool {
    matches!(
        builder.build(embedded_available),
        LoadStep::Failed { error } if error == Error::new(E_INVALIDARG)
    )
}

#[test]
fn setting_that_cannot_be_encoded_fails_before_anything_is_loaded() {
    let path = wide("loader.dll");
    let bad_folder = [0x61u16, 0, 0x62];
    let with_path = || EnvironmentBuilder::new().with_dll_file_path(&path);
    assert!(refused(with_path().with_browser_executable_folder(&bad_folder), false));
    assert!(refused(with_path().with_user_data_folder(&bad_folder), false));
    assert!(refused(with_path().with_additional_browser_arguments("a\0"), false));
    assert!(refused(with_path().with_language("en\0US"), false));
    assert!(refused(with_path().with_target_compatible_browser_version("8\03"), false));
}

#[test]
fn setting_that_cannot_be_encoded_fails_before_the_image_is_loaded() {
    let bad_folder = [0u16];
    assert!(refused(EnvironmentBuilder::new().with_browser_executable_folder(&bad_folder), true));
    assert!(refused(EnvironmentBuilder::new().with_user_data_folder(&bad_folder), true));
    assert!(refused(EnvironmentBuilder::new().with_additional_browser_arguments("\0"), true));
    assert!(refused(EnvironmentBuilder::new().with_language("\0"), true));
    assert!(refused(EnvironmentBuilder::new().with_target_compatible_browser_version("\0"), true));
}

#[test]
fn setting_that_cannot_be_encoded_counts_before_a_missing_source() {
    assert!(refused(EnvironmentBuilder::new().with_language("en\0US"), false));
}

#[test]
fn failed_load_after_valid_settings_ends_with_the_error_of_the_system() {
    let path = [97u16];
    let step = EnvironmentBuilder::new().with_dll_file_path(&path).with_language("en-US").build(false);
    let pending = match step {
        LoadStep::FromFile { pending, .. } => pending,
        other => panic!("unexpected step {:?}", other),
    };
    assert!(matches!(
        pending.file_loaded(0, 2),
        ResolveStep::Failed { error } if error.hresult() as u32 == 0x8007_0002
    ));
}

#[test]
fn returned_status_says_whether_the_creation_was_accepted() {
    assert_eq!(check_hresult(0), Ok(()));
    assert_eq!(
        check_hresult(0x8007_0002u32 as i32),
        Err(Error::new(0x8007_0002u32 as i32))
    );
}
