//! Environments that live for one command and may be written to: the overlay
//! that lets such an environment see its parent's packages, and the settings
//! that tell other tools about it.

use vstd::prelude::*;

use crate::error::ProjectError;

verus! {

/// The name of the overlay file in the package directory.
pub const OVERLAY_FILE_NAME: &'static str = "_uv_ephemeral_overlay.pth";

/// The setting that lets an environment see the system's packages.
pub const SYSTEM_SITE_PACKAGES_KEY: &'static str = "include-system-site-packages";

/// The setting that names the environment which this one extends.
pub const EXTENDS_ENVIRONMENT_KEY: &'static str = "extends-environment";

/// One line of an environment's configuration: a key and its value.
#[derive(Clone, Debug, PartialEq, Eq)]
pub struct ConfigSetting {
    pub key: String,
    pub value: String,
}

/// A file to be written: its directory, its name and its contents.
#[derive(Clone, Debug, PartialEq, Eq)]
pub struct FileWrite {
    pub directory: String,
    pub file_name: String,
    pub contents: Vec<u8>,
}

/// What a [`FileWrite`] is.
pub struct FileWriteView {
    pub directory: Seq<char>,
    pub file_name: Seq<char>,
    pub contents: Seq<u8>,
}

impl View for ConfigSetting {
    type V = (Seq<char>, Seq<char>);

    open spec fn view(&self) -> (Seq<char>, Seq<char>) {
        (self.key@, self.value@)
    }
}

impl View for FileWrite {
    type V = FileWriteView;

    open spec fn view(&self) -> FileWriteView {
        FileWriteView {
            directory: self.directory@,
            file_name: self.file_name@,
            contents: self.contents@,
        }
    }
}

/// The settings of an environment, in the order of its configuration's lines.
pub type Settings = Seq<(Seq<char>, Seq<char>)>;

/// `i` is the first line of `settings` that holds `key`.
pub open spec fn is_first_with_key(settings: Settings, key: Seq<char>, i: int) -> bool {
    &&& 0 <= i < settings.len()
    &&& settings[i].0 == key
    &&& forall|j: int| 0 <= j < i ==> (#[trigger] settings[j]).0 != key
}

/// Some line of `settings` holds `key`.
pub open spec fn has_key(settings: Settings, key: Seq<char>) -> bool {
    exists|i: int| is_first_with_key(settings, key, i)
}

/// The first line of `settings` that holds `key`.
pub open spec fn line_of(settings: Settings, key: Seq<char>) -> int {
    choose|i: int| is_first_with_key(settings, key, i)
}

/// The value that `settings` gives to `key`: that of the first line which
/// holds the key.
pub open spec fn setting_of(settings: Settings, key: Seq<char>) -> Option<Seq<char>> {
    if has_key(settings, key) {
        Some(settings[line_of(settings, key)].1)
    } else {
        None
    }
}

/// The settings after `key` is set to `value`: the first line that holds the
/// key gets the value; where no line holds it, a line is added at the end.
pub open spec fn with_setting(settings: Settings, key: Seq<char>, value: Seq<char>) -> Settings {
    if has_key(settings, key) {
        settings.update(line_of(settings, key), (key, value))
    } else {
        settings.push((key, value))
    }
}

/// A path as text in which every backslash and every double quote has a
/// backslash put before it.
pub open spec fn escaped_for_python(path: Seq<char>) -> Seq<char>
    decreases path.len(),
{
    if path.len() == 0 {
        Seq::<char>::empty()
    } else {
        escaped_char(path[0]) + escaped_for_python(path.drop_first())
    }
}

/// One character of a path, escaped.
pub open spec fn escaped_char(c: char) -> Seq<char> {
    if c == '\\' {
        seq!['\\', '\\']
    } else if c == '"' {
        seq!['\\', '"']
    } else {
        seq![c]
    }
}

/// Only one line is the first that holds a key.
pub proof fn lemma_first_with_key_is_unique(settings: Settings, key: Seq<char>, i: int, j: int)
    requires
        is_first_with_key(settings, key, i),
        is_first_with_key(settings, key, j),
    ensures
        i == j,
{
    if i < j {
        assert(settings[i].0 != key);
    } else if j < i {
        assert(settings[j].0 != key);
    }
}

/// Where `i` is the first line that holds `key`, it is the line of the key.
pub proof fn lemma_line_of_first(settings: Settings, key: Seq<char>, i: int)
    requires
        is_first_with_key(settings, key, i),
    ensures
        has_key(settings, key),
        line_of(settings, key) == i,
{
    lemma_first_with_key_is_unique(settings, key, i, line_of(settings, key));
}

/// A key that was set reads back as the value it was set to.
pub proof fn lemma_setting_reads_back(settings: Settings, key: Seq<char>, value: Seq<char>)
    ensures
        setting_of(with_setting(settings, key, value), key) == Some(value),
{
    let after = with_setting(settings, key, value);
    if has_key(settings, key) {
        let i = line_of(settings, key);
        assert(is_first_with_key(after, key, i)) by {
            assert forall|j: int| 0 <= j < i implies (#[trigger] after[j]).0 != key by {
                assert(settings[j].0 != key);
            }
        }
        lemma_line_of_first(after, key, i);
    } else {
        let i = settings.len() as int;
        assert(is_first_with_key(after, key, i)) by {
            assert forall|j: int| 0 <= j < i implies (#[trigger] after[j]).0 != key by {
                if settings[j].0 == key {
                    lemma_some_line_gives_first(settings, key, j);
                }
            }
        }
        lemma_line_of_first(after, key, i);
    }
}

/// Where some line holds a key, some line is the first to hold it.
pub proof fn lemma_some_line_gives_first(settings: Settings, key: Seq<char>, i: int)
    requires
        0 <= i < settings.len(),
        settings[i].0 == key,
    ensures
        has_key(settings, key),
        line_of(settings, key) <= i,
    decreases i,
{
    if exists|j: int| 0 <= j < i && (#[trigger] settings[j]).0 == key {
        let j = choose|j: int| 0 <= j < i && (#[trigger] settings[j]).0 == key;
        lemma_some_line_gives_first(settings, key, j);
    } else {
        assert(is_first_with_key(settings, key, i));
        lemma_line_of_first(settings, key, i);
    }
}

/// Setting one key leaves the value of every other key as it was.
pub proof fn lemma_setting_keeps_other_keys(
    settings: Settings,
    key: Seq<char>,
    value: Seq<char>,
    other: Seq<char>,
)
    requires
        other != key,
    ensures
        setting_of(with_setting(settings, key, value), other) == setting_of(settings, other),
{
    let after = with_setting(settings, key, value);
    // The lines that hold `other` are the same before and after.
    assert forall|j: int| 0 <= j < settings.len() implies (after[j].0 == other <==> settings[j].0
        == other) && (settings[j].0 == other ==> after[j] == settings[j]) by {}
    if has_key(settings, other) {
        let i = line_of(settings, other);
        assert(is_first_with_key(after, other, i)) by {
            assert forall|j: int| 0 <= j < i implies (#[trigger] after[j]).0 != other by {
                assert(settings[j].0 != other);
            }
        }
        lemma_line_of_first(after, other, i);
    } else if has_key(after, other) {
        let i = line_of(after, other);
        assert(i < settings.len());
        lemma_some_line_gives_first(settings, other, i);
    }
}

/// Setting a key twice to the same value is the same as setting it once.
pub proof fn lemma_setting_is_idempotent(settings: Settings, key: Seq<char>, value: Seq<char>)
    ensures
        with_setting(with_setting(settings, key, value), key, value) == with_setting(
            settings,
            key,
            value,
        ),
{
    let once = with_setting(settings, key, value);
    lemma_setting_reads_back(settings, key, value);
    let i = line_of(once, key);
    assert(once[i] == (key, value));
    assert(once.update(i, (key, value)) =~= once);
}

/// Calls `uv_fs::PythonExt::escape_for_python` on a path. Trusted: in the
/// result every backslash and every double quote of the path has a backslash
/// before it, and nothing else is changed.
#[verifier::external_body]
fn escape_for_python(path: &str) -> (escaped: String)
    ensures
        escaped@ == escaped_for_python(path@),
{
    uv_fs::PythonExt::escape_for_python(&path)
}

/// The lines of a list of settings.
pub open spec fn lines(settings: Seq<ConfigSetting>) -> Settings {
    settings.map_values(|c: ConfigSetting| c@)
}

/// The texts of a list of strings.
pub open spec fn texts(strings: Seq<String>) -> Seq<Seq<char>> {
    strings.map_values(|s: String| s@)
}

/// An environment that lives for one command. It is not shared, so it may be
/// written to after it was made: an overlay may be put into its package
/// directory, and settings into its configuration. The value keeps what was
/// written so far.
#[derive(Clone, Debug, PartialEq, Eq)]
pub struct EphemeralEnvironment {
    site_packages: Vec<String>,
    scripts: String,
    sys_executable: String,
    sys_prefix: String,
    overlay: Option<Vec<u8>>,
    settings: Vec<ConfigSetting>,
}

/// What an [`EphemeralEnvironment`] is: its directories, and the overlay and
/// the settings that were written to it.
pub struct EnvironmentView {
    pub site_packages: Seq<Seq<char>>,
    pub scripts: Seq<char>,
    pub sys_executable: Seq<char>,
    pub sys_prefix: Seq<char>,
    pub overlay: Option<Seq<u8>>,
    pub settings: Settings,
}

impl View for EphemeralEnvironment {
    type V = EnvironmentView;

    closed spec fn view(&self) -> EnvironmentView {
        EnvironmentView {
            site_packages: texts(self.site_packages@),
            scripts: self.scripts@,
            sys_executable: self.sys_executable@,
            sys_prefix: self.sys_prefix@,
            overlay: match self.overlay {
                Some(contents) => Some(contents@),
                None => None,
            },
            settings: lines(self.settings@),
        }
    }
}

/// The write that puts an overlay into a package directory.
pub open spec fn overlay_write(directory: Seq<char>, contents: Seq<u8>) -> FileWriteView {
    FileWriteView { directory, file_name: OVERLAY_FILE_NAME@, contents }
}

/// Sets a key in a list of settings.
fn put_setting(settings: &mut Vec<ConfigSetting>, setting: ConfigSetting)
    ensures
        lines(final(settings)@) == with_setting(lines(old(settings)@), setting@.0, setting@.1),
{
    let ghost before = lines(settings@);
    let ghost key = setting@.0;
    let mut i: usize = 0;
    while i < settings.len()
        invariant
            i <= settings.len(),
            lines(settings@) == before,
            before == lines(old(settings)@),
            key == setting@.0,
            forall|j: int| 0 <= j < i ==> (#[trigger] before[j]).0 != key,
        decreases settings.len() - i,
    {
        if settings[i].key == setting.key {
            proof {
                assert(before[i as int] == settings@[i as int]@);
                lemma_line_of_first(before, key, i as int);
            }
            let ghost line = setting@;
            settings[i] = setting;
            assert(lines(settings@) =~= before.update(i as int, line));
            return ;
        }
        proof {
            assert(before[i as int] == settings@[i as int]@);
        }
        i = i + 1;
    }
    proof {
        if has_key(before, key) {
            let at = line_of(before, key);
            assert(before[at].0 == key);
        }
    }
    let ghost line = setting@;
    settings.push(setting);
    assert(lines(settings@) =~= before.push(line));
}

impl ConfigSetting {
    /// A copy of the setting.
    pub fn duplicate(&self) -> (setting: ConfigSetting)
        ensures
            setting@ == self@,
    {
        ConfigSetting { key: self.key.clone(), value: self.value.clone() }
    }
}

impl EphemeralEnvironment {
    /// An environment with the given package directories, in the order in
    /// which they were found, to which nothing was written yet.
    pub fn new(
        site_packages: Vec<String>,
        scripts: String,
        sys_executable: String,
        sys_prefix: String,
    ) -> (environment: EphemeralEnvironment)
        ensures
            environment@ == (EnvironmentView {
                site_packages: texts(site_packages@),
                scripts: scripts@,
                sys_executable: sys_executable@,
                sys_prefix: sys_prefix@,
                overlay: None,
                settings: Seq::empty(),
            }),
    {
        let environment = EphemeralEnvironment {
            site_packages,
            scripts,
            sys_executable,
            sys_prefix,
            overlay: None,
            settings: Vec::new(),
        };
        assert(lines(environment.settings@) =~= Seq::empty());
        environment
    }

    /// Sets the overlay of the environment: a file of a fixed name in the
    /// first package directory, which holds `contents` as they are. Returns
    /// the write that puts it there.
    ///
    /// Fails, and changes nothing, where the environment has no package
    /// directory.
    pub fn set_overlay(&mut self, contents: &[u8]) -> (write: Result<FileWrite, ProjectError>)
        ensures
            old(self)@.site_packages.len() == 0 ==> write == Err::<FileWrite, ProjectError>(
                ProjectError::NoSitePackages,
            ) && final(self)@ == old(self)@,
            old(self)@.site_packages.len() > 0 ==> write is Ok && write->Ok_0@ == overlay_write(
                old(self)@.site_packages[0],
                contents@,
            ) && final(self)@ == (EnvironmentView { overlay: Some(contents@), ..old(self)@ }),
    {
        if self.site_packages.len() == 0 {
            return Err(ProjectError::NoSitePackages);
        }
        let directory = self.site_packages[0].clone();
        self.overlay = Some(vstd::slice::slice_to_vec(contents));
        Ok(
            FileWrite {
                directory,
                file_name: OVERLAY_FILE_NAME.to_owned(),
                contents: vstd::slice::slice_to_vec(contents),
            },
        )
    }

    /// Lets the environment see the system's packages. Returns the setting to
    /// put into the environment's configuration.
    pub fn set_system_site_packages(&mut self) -> (setting: ConfigSetting)
        ensures
            setting@ == (SYSTEM_SITE_PACKAGES_KEY@, "true"@),
            final(self)@ == (EnvironmentView {
                settings: with_setting(old(self)@.settings, setting@.0, setting@.1),
                ..old(self)@
            }),
    {
        let setting = ConfigSetting {
            key: SYSTEM_SITE_PACKAGES_KEY.to_owned(),
            value: "true".to_owned(),
        };
        put_setting(&mut self.settings, setting.duplicate());
        setting
    }

    /// Records which environment this one extends: the parent's prefix,
    /// escaped so that it can stand in a string of the interpreter's language.
    /// Returns the setting to put into the environment's configuration.
    ///
    /// The setting is for tools that read the configuration. What the
    /// interpreter sees of the parent is decided by the overlay alone.
    pub fn set_parent_environment(&mut self, parent_environment_sys_prefix: &str) -> (setting:
        ConfigSetting)
        ensures
            setting@ == (
                EXTENDS_ENVIRONMENT_KEY@,
                escaped_for_python(parent_environment_sys_prefix@),
            ),
            final(self)@ == (EnvironmentView {
                settings: with_setting(old(self)@.settings, setting@.0, setting@.1),
                ..old(self)@
            }),
    {
        let setting = ConfigSetting {
            key: EXTENDS_ENVIRONMENT_KEY.to_owned(),
            value: escape_for_python(parent_environment_sys_prefix),
        };
        put_setting(&mut self.settings, setting.duplicate());
        setting
    }

    /// The environment's scripts directory.
    pub fn scripts(&self) -> (path: &str)
        ensures
            path@ == self@.scripts,
    {
        self.scripts.as_str()
    }

    /// The environment's executable.
    pub fn sys_executable(&self) -> (path: &str)
        ensures
            path@ == self@.sys_executable,
    {
        self.sys_executable.as_str()
    }

    /// The environment's prefix.
    pub fn sys_prefix(&self) -> (path: &str)
        ensures
            path@ == self@.sys_prefix,
    {
        self.sys_prefix.as_str()
    }

    /// The overlay that was set, if one was.
    pub fn overlay(&self) -> (contents: Option<&[u8]>)
        ensures
            contents is Some == self@.overlay is Some,
            contents is Some ==> contents->Some_0@ == self@.overlay->Some_0,
    {
        match &self.overlay {
            Some(contents) => Some(contents.as_slice()),
            None => None,
        }
    }

    /// The value that the environment's settings give to a key, if they hold
    /// it.
    pub fn setting(&self, key: &str) -> (value: Option<&str>)
        ensures
            value is Some == setting_of(self@.settings, key@) is Some,
            value is Some ==> value->Some_0@ == setting_of(self@.settings, key@)->Some_0,
    {
        let wanted = key.to_owned();
        let ghost all = lines(self.settings@);
        let mut i: usize = 0;
        while i < self.settings.len()
            invariant
                i <= self.settings.len(),
                all == lines(self.settings@),
                wanted@ == key@,
                forall|j: int| 0 <= j < i ==> (#[trigger] all[j]).0 != key@,
            decreases self.settings.len() - i,
        {
            proof {
                assert(all[i as int] == self.settings@[i as int]@);
            }
            if self.settings[i].key == wanted {
                proof {
                    lemma_line_of_first(all, key@, i as int);
                }
                return Some(self.settings[i].value.as_str());
            }
            i = i + 1;
        }
        proof {
            if has_key(all, key@) {
                let at = line_of(all, key@);
                assert(all[at].0 == key@);
            }
        }
        None
    }
}

} // verus!
