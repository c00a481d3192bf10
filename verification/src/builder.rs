//! The entry surface: a builder that gathers what the creation of an
//! environment needs, and the steps that lead from it to the creating call.
//!
//! Creating an environment takes several native calls, and what each
//! returns decides what comes next. The steps here decide; the caller
//! performs each call and reports what it returned. First every setting is
//! encoded, so that a setting that cannot cross the boundary ends the
//! attempt before any native call. Then the loader library is loaded, from
//! the file that the builder names or else from the image in memory. Then
//! the creating function is looked up in it, and then it is called. Each
//! step may end the attempt with an error instead.

use crate::options::{encoding_of, text_has_nul, units_of, EnvironmentOptions,
    EnvironmentOptionsView};
use crate::status::{Error, E_INVALIDARG};
use crate::wide::WideString;
use vstd::prelude::*;

verus! {

/// What a builder holds: the code units of each path and the characters of
/// each option string that is set.
pub struct EnvironmentBuilderView {
    /// The path of the loader library's file.
    pub dll_file_path: Option<Seq<u16>>,
    /// The folder that holds the browser's executable files.
    pub browser_executable_folder: Option<Seq<u16>>,
    /// The folder in which the browser keeps the user's data.
    pub user_data_folder: Option<Seq<u16>>,
    /// Additional arguments for the browser process.
    pub additional_browser_arguments: Option<Seq<char>>,
    /// The language of the browser's user interface.
    pub language: Option<Seq<char>>,
    /// The version that the browser has to be compatible with.
    pub target_compatible_browser_version: Option<Seq<char>>,
}

/// Gathers the settings for creating an environment. Paths are given as the
/// code units in which the operating system holds them.
#[derive(Debug)]
pub struct EnvironmentBuilder<'a> {
    dll_file_path: Option<&'a [u16]>,
    browser_executable_folder: Option<&'a [u16]>,
    user_data_folder: Option<&'a [u16]>,
    additional_browser_arguments: Option<&'a str>,
    language: Option<&'a str>,
    target_compatible_browser_version: Option<&'a str>,
}

/// The code units of a path that may be absent.
pub open spec fn path_view(path: Option<&[u16]>) -> Option<Seq<u16>> {
    match path {
        Some(units) => Some(units@),
        None => None,
    }
}

/// The characters of a text that may be absent.
pub open spec fn text_view(text: Option<&str>) -> Option<Seq<char>> {
    match text {
        Some(t) => Some(t@),
        None => None,
    }
}

/// Tells whether a path that may be absent holds a zero unit.
pub open spec fn path_has_nul(path: Option<Seq<u16>>) -> bool {
    path matches Some(units) && units.contains(0u16)
}

impl<'a> View for EnvironmentBuilder<'a> {
    type V = EnvironmentBuilderView;

    /// The settings that were made on the builder.
    closed spec fn view(&self) -> EnvironmentBuilderView {
        EnvironmentBuilderView {
            dll_file_path: path_view(self.dll_file_path),
            browser_executable_folder: path_view(self.browser_executable_folder),
            user_data_folder: path_view(self.user_data_folder),
            additional_browser_arguments: text_view(self.additional_browser_arguments),
            language: text_view(self.language),
            target_compatible_browser_version: text_view(self.target_compatible_browser_version),
        }
    }
}

/// The settings of a builder on which nothing was set.
pub open spec fn empty_builder() -> EnvironmentBuilderView {
    EnvironmentBuilderView {
        dll_file_path: None,
        browser_executable_folder: None,
        user_data_folder: None,
        additional_browser_arguments: None,
        language: None,
        target_compatible_browser_version: None,
    }
}

impl<'a> EnvironmentBuilder<'a> {
    /// A builder on which nothing is set.
    pub fn new() -> (builder: Self)
        ensures
            builder@ == empty_builder(),
    {
        EnvironmentBuilder {
            dll_file_path: None,
            browser_executable_folder: None,
            user_data_folder: None,
            additional_browser_arguments: None,
            language: None,
            target_compatible_browser_version: None,
        }
    }

    /// Sets the folder that holds the browser's executable files.
    pub fn with_browser_executable_folder(self, browser_executable_folder: &'a [u16]) -> (builder:
        Self)
        ensures
            builder@ == (EnvironmentBuilderView {
                browser_executable_folder: Some(browser_executable_folder@),
                ..self@
            }),
    {
        EnvironmentBuilder { browser_executable_folder: Some(browser_executable_folder), ..self }
    }

    /// Sets the folder in which the browser keeps the user's data.
    pub fn with_user_data_folder(self, user_data_folder: &'a [u16]) -> (builder: Self)
        ensures
            builder@ == (EnvironmentBuilderView {
                user_data_folder: Some(user_data_folder@),
                ..self@
            }),
    {
        EnvironmentBuilder { user_data_folder: Some(user_data_folder), ..self }
    }

    /// Sets additional arguments for the browser process.
    pub fn with_additional_browser_arguments(self, additional_browser_arguments: &'a str) -> (builder:
        Self)
        ensures
            builder@ == (EnvironmentBuilderView {
                additional_browser_arguments: Some(additional_browser_arguments@),
                ..self@
            }),
    {
        EnvironmentBuilder {
            additional_browser_arguments: Some(additional_browser_arguments),
            ..self
        }
    }

    /// Sets the language of the browser's user interface.
    pub fn with_language(self, language: &'a str) -> (builder: Self)
        ensures
            builder@ == (EnvironmentBuilderView { language: Some(language@), ..self@ }),
    {
        EnvironmentBuilder { language: Some(language), ..self }
    }

    /// Sets the version that the browser has to be compatible with.
    pub fn with_target_compatible_browser_version(self, version: &'a str) -> (builder: Self)
        ensures
            builder@ == (EnvironmentBuilderView {
                target_compatible_browser_version: Some(version@),
                ..self@
            }),
    {
        EnvironmentBuilder { target_compatible_browser_version: Some(version), ..self }
    }

    /// Sets the path of the loader library's file. With a path set, the
    /// library is loaded from that file and not from the image in memory.
    pub fn with_dll_file_path(self, dll_file_path: &'a [u16]) -> (builder: Self)
        ensures
            builder@ == (EnvironmentBuilderView { dll_file_path: Some(dll_file_path@), ..self@ }),
    {
        EnvironmentBuilder { dll_file_path: Some(dll_file_path), ..self }
    }

    /// The additional arguments for the browser process, if set.
    pub fn additional_browser_arguments(&self) -> (text: Option<&'a str>)
        ensures
            text_view(text) == self@.additional_browser_arguments,
    {
        self.additional_browser_arguments
    }

    /// The language of the browser's user interface, if set.
    pub fn language(&self) -> (text: Option<&'a str>)
        ensures
            text_view(text) == self@.language,
    {
        self.language
    }

    /// The version that the browser has to be compatible with, if set.
    pub fn target_compatible_browser_version(&self) -> (text: Option<&'a str>)
        ensures
            text_view(text) == self@.target_compatible_browser_version,
    {
        self.target_compatible_browser_version
    }

    /// Starts the creation of an environment. Every setting is encoded
    /// first: a path or a folder with a zero unit, or an option string with
    /// a zero character, ends the attempt with the invalid-argument status
    /// before any native call is made. Else the step says where the loader
    /// library is to come from: from the file at the path, where one is
    /// set; without a path from the image in memory, where the program
    /// holds one (`embedded_available`); and where it holds none, the
    /// builder is not configured for any source. The encoded arguments of
    /// the creating call travel with the steps that follow.
    pub fn build(self, embedded_available: bool) -> (step: LoadStep)
        ensures
            !can_encode(self@) ==> (step matches LoadStep::Failed { error } && error.hresult
                == E_INVALIDARG),
            can_encode(self@) ==> match self@.dll_file_path {
                Some(units) => step matches LoadStep::FromFile { path, pending } && path@ == units
                    && call_matches(pending@, self@),
                None => if embedded_available {
                    step matches LoadStep::FromMemory { pending } && call_matches(pending@, self@)
                } else {
                    step is NotConfigured
                },
            },
    {
        let path = match encode_path(self.dll_file_path) {
            Ok(path) => path,
            Err(error) => {
                return LoadStep::Failed { error };
            },
        };
        let browser_executable_folder = match encode_path(self.browser_executable_folder) {
            Ok(folder) => folder,
            Err(error) => {
                return LoadStep::Failed { error };
            },
        };
        let user_data_folder = match encode_path(self.user_data_folder) {
            Ok(folder) => folder,
            Err(error) => {
                return LoadStep::Failed { error };
            },
        };
        let options = match EnvironmentOptions::from_builder(&self) {
            Ok(options) => options,
            Err(error) => {
                return LoadStep::Failed { error };
            },
        };
        let call = CreationCall { browser_executable_folder, user_data_folder, options };
        match path {
            Some(path) => LoadStep::FromFile { path, pending: PendingLibrary { call } },
            None => if embedded_available {
                LoadStep::FromMemory { pending: PendingLibrary { call } }
            } else {
                LoadStep::NotConfigured
            },
        }
    }
}

impl<'a> Default for EnvironmentBuilder<'a> {
    /// A builder on which nothing is set.
    fn default() -> (builder: Self)
        ensures
            builder@ == empty_builder(),
    {
        EnvironmentBuilder::new()
    }
}

/// The arguments of the creating call, encoded for the native side. An
/// absent folder is passed as a null pointer.
#[derive(Debug)]
pub struct CreationCall {
    /// The folder that holds the browser's executable files.
    pub browser_executable_folder: Option<WideString>,
    /// The folder in which the browser keeps the user's data.
    pub user_data_folder: Option<WideString>,
    /// The options object that the call reads.
    pub options: EnvironmentOptions,
}

/// Tells whether the settings of a builder can all be encoded: no path or
/// folder holds a zero unit and no option string a zero character.
pub open spec fn can_encode(settings: EnvironmentBuilderView) -> bool {
    &&& !path_has_nul(settings.dll_file_path)
    &&& !path_has_nul(settings.browser_executable_folder)
    &&& !path_has_nul(settings.user_data_folder)
    &&& !text_has_nul(settings.additional_browser_arguments)
    &&& !text_has_nul(settings.language)
    &&& !text_has_nul(settings.target_compatible_browser_version)
}

/// Tells whether a call carries exactly the settings of a builder.
pub open spec fn call_matches(call: CreationCall, settings: EnvironmentBuilderView) -> bool {
    &&& units_of(call.browser_executable_folder) == settings.browser_executable_folder
    &&& units_of(call.user_data_folder) == settings.user_data_folder
    &&& call.options@ == (EnvironmentOptionsView {
        additional_browser_arguments: encoding_of(settings.additional_browser_arguments),
        language: encoding_of(settings.language),
        target_compatible_browser_version: encoding_of(
            settings.target_compatible_browser_version,
        ),
    })
}

/// Encodes a path that may be absent.
fn encode_path(path: Option<&[u16]>) -> (result: Result<Option<WideString>, Error>)
    ensures
        result is Ok <==> !path_has_nul(path_view(path)),
        result matches Ok(wide) ==> units_of(wide) == path_view(path),
        result matches Err(e) ==> e.hresult == E_INVALIDARG,
{
    match path {
        Some(units) => match WideString::from_units(units) {
            Ok(wide) => Ok(Some(wide)),
            Err(e) => Err(e),
        },
        None => Ok(None),
    }
}

/// The first step of a creation.
#[derive(Debug)]
pub enum LoadStep {
    /// Load the library from the file at `path`, then report the module to
    /// `pending` with [`PendingLibrary::file_loaded`].
    FromFile { path: WideString, pending: PendingLibrary },
    /// Load the library from the image in memory, once for the whole
    /// process, then report the outcome to `pending` with
    /// [`PendingLibrary::image_loaded`].
    FromMemory { pending: PendingLibrary },
    /// The attempt is over before any native call: a setting cannot be
    /// passed to the native side.
    Failed { error: Error },
    /// The attempt cannot start: no path is set and the program holds no
    /// image. This is a mistake in how the builder is used, not a failure
    /// to load.
    NotConfigured,
}

/// A creation that waits for the loader library.
#[derive(Debug)]
pub struct PendingLibrary {
    call: CreationCall,
}

impl View for PendingLibrary {
    type V = CreationCall;

    /// The arguments that the creating call will get.
    closed spec fn view(&self) -> CreationCall {
        self.call
    }
}

/// The second step of a creation.
#[derive(Debug)]
pub enum ResolveStep {
    /// Look up the creating function in `library`, by the means that fit a
    /// module loaded from memory where `embedded` is set and by those of
    /// the operating system else, then report the address to `pending`
    /// with [`PendingEntry::resolved`].
    Resolve { library: usize, embedded: bool, pending: PendingEntry },
    /// The attempt is over: the library could not be loaded.
    Failed { error: Error },
}

impl PendingLibrary {
    /// Takes what loading the file returned: the module, and the operating
    /// system's last error, which counts only where the module is null. A
    /// null module ends the attempt with the error of that code.
    pub fn file_loaded(self, module: usize, os_error: i32) -> (step: ResolveStep)
        ensures
            module == 0 ==> (step matches ResolveStep::Failed { error } && error
                == Error::of_os_error(Some(os_error))),
            module != 0 ==> (step matches ResolveStep::Resolve { library, embedded, pending }
                && library == module && !embedded && pending@ == self@),
    {
        if module == 0 {
            ResolveStep::Failed { error: Error::from_raw_os_error(Some(os_error)) }
        } else {
            ResolveStep::Resolve {
                library: module,
                embedded: false,
                pending: PendingEntry { call: self.call },
            }
        }
    }

    /// Takes what loading the image in memory came to, now or when it was
    /// first tried: the module, or the operating-system error code of the
    /// failed attempt, which ends this attempt with the error of that code.
    pub fn image_loaded(self, outcome: Result<usize, i32>) -> (step: ResolveStep)
        ensures
            outcome matches Err(code) ==> (step matches ResolveStep::Failed { error } && error
                == Error::of_os_error(Some(code))),
            outcome matches Ok(module) ==> (step matches ResolveStep::Resolve {
                library,
                embedded,
                pending,
            } && library == module && embedded && pending@ == self@),
    {
        match outcome {
            Err(code) => ResolveStep::Failed { error: Error::from_raw_os_error(Some(code)) },
            Ok(module) => ResolveStep::Resolve {
                library: module,
                embedded: true,
                pending: PendingEntry { call: self.call },
            },
        }
    }
}

/// A creation that waits for the address of the creating function.
#[derive(Debug)]
pub struct PendingEntry {
    call: CreationCall,
}

impl View for PendingEntry {
    type V = CreationCall;

    /// The arguments that the creating call will get.
    closed spec fn view(&self) -> CreationCall {
        self.call
    }
}

/// The third step of a creation.
#[derive(Debug)]
pub enum CreateStep {
    /// Call the function at `entry` with the arguments of `call` and a
    /// completion handler; the status that it returns, once checked, says
    /// whether the creation was accepted.
    Create { entry: usize, call: CreationCall },
    /// The attempt is over: the function was not found in the library.
    Failed { error: Error },
}

impl PendingEntry {
    /// Takes what the lookup returned: the address of the creating
    /// function, and the operating system's last error, which counts only
    /// where the address is null. A null address ends the attempt with the
    /// error of that code. Else the call is ready, with the arguments that
    /// were encoded when the creation started.
    pub fn resolved(self, address: usize, os_error: i32) -> (step: CreateStep)
        ensures
            address == 0 ==> (step matches CreateStep::Failed { error } && error
                == Error::of_os_error(Some(os_error))),
            address != 0 ==> (step matches CreateStep::Create { entry, call } && entry == address
                && call == self@),
    {
        if address == 0 {
            CreateStep::Failed { error: Error::from_raw_os_error(Some(os_error)) }
        } else {
            CreateStep::Create { entry: address, call: self.call }
        }
    }
}

} // verus!
