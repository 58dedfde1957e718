//! What the mod loader is given to start the game: the credentials on its
//! command line, the script that it runs, and the settings in its files.

use crate::config::profiles::{AuthKind, Profile, ProfileView};
use crate::path::{LocalPath, PathView};
use crate::tasks::install::GAME_DIRECTORY;
use crate::text::{
    chars_of, decimal, count_string, lemma_push_deep_view, occurs_at, range_starts_with,
    string_of,
};
use vstd::prelude::*;
use vstd::string::StringExecFns;

verus! {

/// Why the credentials of a profile cannot be told.
#[derive(Debug, Clone, Copy, PartialEq, Eq, Structural)]
pub enum AuthError {
    MissingUsername,
    MissingTokenPath,
    NoStoredPassword,
    NoProvidedPassword,
}

impl AuthError {
    /// The error in words.
    pub fn message(&self) -> (r: String)
        ensures
            r@ == (match *self {
                AuthError::MissingUsername => "Missing username."@,
                AuthError::MissingTokenPath => "Missing token path."@,
                AuthError::NoStoredPassword => "No password stored locally."@,
                AuthError::NoProvidedPassword => "Expected a provided password."@,
            }),
    {
        match self {
            AuthError::MissingUsername => "Missing username.".to_owned(),
            AuthError::MissingTokenPath => "Missing token path.".to_owned(),
            AuthError::NoStoredPassword => "No password stored locally.".to_owned(),
            AuthError::NoProvidedPassword => "Expected a provided password.".to_owned(),
        }
    }
}

/// What the boot loader is told about the account.
#[derive(Debug)]
pub struct Credentials {
    pub account_name: String,
    /// The password, where one is passed on.
    pub password: Option<String>,
    /// The token file, as the platform writes its path, where one is used.
    pub token_file: Option<String>,
}

/// The mathematical model of [`Credentials`].
pub struct CredentialsView {
    pub account_name: Seq<char>,
    pub password: Option<Seq<char>>,
    pub token_file: Option<Seq<char>>,
}

impl View for Credentials {
    type V = CredentialsView;

    open spec fn view(&self) -> CredentialsView {
        CredentialsView {
            account_name: self.account_name@,
            password: self.password.deep_view(),
            token_file: self.token_file.deep_view(),
        }
    }
}

impl DeepView for Credentials {
    type V = CredentialsView;

    open spec fn deep_view(&self) -> CredentialsView {
        self.view()
    }
}

/// The credentials that a profile is started with. A retail profile and one
/// that signs in by hand pass none. Every other needs an account name; with
/// a token it passes the token file and, if one was just given, the
/// password; with a stored password that one; with a password asked for at
/// every start the one that was just given.
pub open spec fn credentials_of(
    profile: ProfileView,
    provided_password: Option<Seq<char>>,
    token_file: Option<Seq<char>>,
) -> Result<Option<CredentialsView>, AuthError> {
    if profile.manual_auth || profile.is_retail {
        Ok(None)
    } else {
        match profile.account_name {
            None => Err(AuthError::MissingUsername),
            Some(account_name) => match profile.auth_kind {
                AuthKind::Token => match token_file {
                    Some(file) => Ok(
                        Some(
                            CredentialsView {
                                account_name,
                                password: provided_password,
                                token_file: Some(file),
                            },
                        ),
                    ),
                    None => Err(AuthError::MissingTokenPath),
                },
                AuthKind::Password => match profile.password {
                    Some(stored) => Ok(
                        Some(
                            CredentialsView {
                                account_name,
                                password: Some(stored),
                                token_file: None,
                            },
                        ),
                    ),
                    None => Err(AuthError::NoStoredPassword),
                },
                AuthKind::ManualPassword => match provided_password {
                    Some(provided) => Ok(
                        Some(
                            CredentialsView {
                                account_name,
                                password: Some(provided),
                                token_file: None,
                            },
                        ),
                    ),
                    None => Err(AuthError::NoProvidedPassword),
                },
            },
        }
    }
}

/// The credentials that a profile is started with. `token_file` is the path
/// of the account's token file as the platform writes it, where the path
/// can be told.
pub fn credentials(
    profile: &Profile,
    provided_password: Option<String>,
    token_file: Option<String>,
) -> (r: Result<Option<Credentials>, AuthError>)
    ensures
        match r {
            Ok(found) => credentials_of(
                profile@,
                provided_password.deep_view(),
                token_file.deep_view(),
            ) == Ok::<Option<CredentialsView>, AuthError>(found.deep_view()),
            Err(e) => credentials_of(
                profile@,
                provided_password.deep_view(),
                token_file.deep_view(),
            ) == Err::<Option<CredentialsView>, AuthError>(e),
        },
{
    if profile.manual_auth || profile.is_retail {
        return Ok(None);
    }
    let account_name = match &profile.account_name {
        Some(name) => name.clone(),
        None => {
            return Err(AuthError::MissingUsername);
        },
    };
    match profile.auth_kind {
        AuthKind::Token => match token_file {
            Some(file) => Ok(
                Some(Credentials { account_name, password: provided_password, token_file: Some(file) }),
            ),
            None => Err(AuthError::MissingTokenPath),
        },
        AuthKind::Password => match &profile.password {
            Some(stored) => Ok(
                Some(
                    Credentials { account_name, password: Some(stored.clone()), token_file: None },
                ),
            ),
            None => Err(AuthError::NoStoredPassword),
        },
        AuthKind::ManualPassword => match provided_password {
            Some(provided) => Ok(
                Some(Credentials { account_name, password: Some(provided), token_file: None }),
            ),
            None => Err(AuthError::NoProvidedPassword),
        },
    }
}

/// The name of the mod loader's executable, below its directory.
pub const ASHITA_EXECUTABLE: &'static str = "Ashita-cli.exe";

/// The arguments that pass credentials on the command line, one word each.
pub open spec fn credential_args(credentials: Option<CredentialsView>) -> Seq<Seq<char>> {
    match credentials {
        None => Seq::empty(),
        Some(c) => (match c.password {
            Some(password) => seq!["--user"@, c.account_name, "--pass"@, password],
            None => Seq::empty(),
        }) + (match c.token_file {
            Some(file) => seq!["--tokenfile"@, file],
            None => Seq::empty(),
        }),
    }
}

/// The arguments with which the mod loader is started: the name of the
/// profile's settings file, then the credentials.
pub open spec fn launch_args(profile: ProfileView, credentials: Option<CredentialsView>) -> Seq<
    Seq<char>,
> {
    seq![profile.profile_filename() + ".ini"@] + credential_args(credentials)
}

/// The arguments with which the mod loader is started for a profile.
pub fn launch_game(profile: &Profile, credentials: &Option<Credentials>) -> (r: Vec<String>)
    ensures
        r.deep_view() == launch_args(profile@, credentials.deep_view()),
{
    let mut arguments: Vec<String> = Vec::new();
    arguments.push(profile.get_profile_filename().concat(".ini"));
    match credentials {
        Some(c) => {
            match &c.password {
                Some(password) => {
                    arguments.push("--user".to_owned());
                    arguments.push(c.account_name.clone());
                    arguments.push("--pass".to_owned());
                    arguments.push(password.clone());
                },
                None => {},
            }
            match &c.token_file {
                Some(file) => {
                    arguments.push("--tokenfile".to_owned());
                    arguments.push(file.clone());
                },
                None => {},
            }
        },
        None => {},
    }
    assert(arguments.deep_view() =~= launch_args(profile@, credentials.deep_view()));
    arguments
}

/// The line that marks the start of the part of a script that the launcher
/// looks after.
pub const XIL_START: &'static str = "\n## XI_LAUNCHER START";

/// The line that marks the end of the part of a script that the launcher
/// looks after.
pub const XIL_END: &'static str = "\n## XI_LAUNCHER END";

/// What a new script begins with, before the part that the launcher looks
/// after.
pub const SCRIPT_HEAD: &'static str = "\n/load thirdparty\n/load addons\n/load screenshot\n";

/// What a new script ends with, behind the part that the launcher looks
/// after.
pub const SCRIPT_TAIL: &'static str =
    "\n\n/bind insert /ashita\n/bind SYSRQ /screenshot hide\n/bind ^v /paste\n/bind F11 /ambient\n/bind F12 /fps\n/bind ^F1 /ta <a10>\n/bind ^F2 /ta <a11>\n/bind ^F3 /ta <a12>\n/bind ^F4 /ta <a13>\n/bind ^F5 /ta <a14>\n/bind ^F6 /ta <a15>\n/bind !F1 /ta <a20>\n/bind !F2 /ta <a21>\n/bind !F3 /ta <a22>\n/bind !F4 /ta <a23>\n/bind !F5 /ta <a24>\n/bind !F6 /ta <a25>\n\n/wait 3\n/ambient 255 255 255\n";

/// One line for each of `names`: `command`, the name, and the end of the line.
pub open spec fn command_lines(command: Seq<char>, names: Seq<Seq<char>>) -> Seq<char>
    decreases names.len(),
{
    if names.len() == 0 {
        Seq::empty()
    } else {
        command_lines(command, names.drop_last()) + command + names.last() + seq!['\n']
    }
}

/// The names of a list that may be missing.
pub open spec fn names_of(list: Option<Seq<Seq<char>>>) -> Seq<Seq<char>> {
    match list {
        Some(names) => names,
        None => Seq::empty(),
    }
}

/// The part of a script that the launcher looks after: between the two
/// marks, a line that loads each plugin, then one that loads each addon.
pub open spec fn managed_block(profile: ProfileView) -> Seq<char> {
    XIL_START@ + seq!['\n'] + command_lines("/load "@, names_of(profile.enabled_plugins))
        + command_lines("/addon load "@, names_of(profile.enabled_addons)) + XIL_END@
}

/// The place of the first occurrence of `needle` in `s` at or after `from`,
/// or -1 where there is none.
pub open spec fn find_from(s: Seq<char>, needle: Seq<char>, from: int) -> int
    decreases s.len() - from,
{
    if from < 0 || from + needle.len() > s.len() {
        -1
    } else if occurs_at(s, needle, from) {
        from
    } else if from >= s.len() {
        -1
    } else {
        find_from(s, needle, from + 1)
    }
}

/// Why a script cannot be brought up to date.
#[derive(Debug, Clone, Copy, PartialEq, Eq, Structural)]
pub enum ScriptError {
    /// The script does not hold the mark of the start.
    StartMarkMissing,
    /// The script does not hold the mark of the end behind that of the start.
    EndMarkMissing,
}

/// A script with the part that the launcher looks after replaced by
/// `block`: the part reaches from the first mark of the start to the end of
/// the first mark of the end that follows.
pub open spec fn with_block(content: Seq<char>, block: Seq<char>) -> Result<Seq<char>, ScriptError> {
    let start = find_from(content, XIL_START@, 0);
    if start < 0 {
        Err(ScriptError::StartMarkMissing)
    } else {
        let end = find_from(content, XIL_END@, start);
        if end < 0 {
            Err(ScriptError::EndMarkMissing)
        } else {
            Ok(content.take(start) + block + content.skip(end + XIL_END@.len()))
        }
    }
}

/// `find_from` gives the first place at which the needle stands.
pub proof fn lemma_find_from(s: Seq<char>, needle: Seq<char>, from: int)
    requires
        0 <= from,
    ensures
        find_from(s, needle, from) >= 0 ==> from <= find_from(s, needle, from) && occurs_at(
            s,
            needle,
            find_from(s, needle, from),
        ),
        forall|k: int|
            from <= k && (k < find_from(s, needle, from) || find_from(s, needle, from) < 0)
                ==> !occurs_at(s, needle, k),
    decreases s.len() - from,
{
    if from + needle.len() > s.len() {
    } else if occurs_at(s, needle, from) {
    } else if from >= s.len() {
    } else {
        lemma_find_from(s, needle, from + 1);
    }
}

/// The place of the first occurrence of `needle` in `chars` at or after `from`.
pub fn find_in(chars: &Vec<char>, needle: &Vec<char>, from: usize) -> (r: Option<usize>)
    ensures
        match r {
            Some(at) => at == find_from(chars@, needle@, from as int),
            None => find_from(chars@, needle@, from as int) < 0,
        },
{
    if from > chars.len() {
        return None;
    }
    let mut at: usize = from;
    while at < chars.len() && needle.len() <= chars.len() - at
        invariant
            from <= at <= chars.len(),
            find_from(chars@, needle@, from as int) == find_from(chars@, needle@, at as int),
        decreases chars.len() - at,
    {
        let found = range_starts_with(chars, at, chars.len(), needle);
        assert(chars@.subrange(at as int, chars.len() as int).take(needle.len() as int)
            =~= chars@.subrange(at as int, at + needle.len()));
        if found {
            return Some(at);
        }
        at += 1;
    }
    if at == chars.len() && needle.len() == 0 {
        assert(chars@.subrange(at as int, at as int) =~= needle@);
        Some(at)
    } else {
        None
    }
}

fn append_lines(out: &mut String, command: &str, names: &Vec<String>)
    ensures
        final(out)@ == old(out)@ + command_lines(command@, names.deep_view()),
{
    let mut i: usize = 0;
    assert(names.deep_view().take(0) =~= Seq::<Seq<char>>::empty());
    assert(out@ + Seq::<char>::empty() =~= out@);
    while i < names.len()
        invariant
            i <= names.len(),
            out@ == old(out)@ + command_lines(command@, names.deep_view().take(i as int)),
        decreases names.len() - i,
    {
        let ghost all = names.deep_view();
        assert(all.take(i + 1).drop_last() =~= all.take(i as int));
        assert(all.take(i + 1).last() == names[i as int]@);
        out.append(command);
        out.append(names[i].as_str());
        out.push('\n');
        assert(out@ =~= old(out)@ + command_lines(command@, all.take(i + 1)));
        i += 1;
    }
    assert(names.deep_view().take(names.len() as int) =~= names.deep_view());
}

fn append_optional_lines(out: &mut String, command: &str, names: &Option<Vec<String>>)
    ensures
        final(out)@ == old(out)@ + command_lines(command@, names_of(names.deep_view())),
{
    match names {
        Some(list) => {
            append_lines(out, command, list);
        },
        None => {
            assert(out@ + Seq::<char>::empty() =~= out@);
        },
    }
}

/// The part of a script that the launcher looks after, for a profile.
pub fn script_block(profile: &Profile) -> (r: String)
    ensures
        r@ == managed_block(profile@),
{
    let mut out = XIL_START.to_owned();
    out.push('\n');
    append_optional_lines(&mut out, "/load ", &profile.enabled_plugins);
    append_optional_lines(&mut out, "/addon load ", &profile.enabled_addons);
    out.append(XIL_END);
    assert(out@ =~= managed_block(profile@));
    out
}

/// The script of a profile that has none yet.
pub fn new_script_file(profile: &Profile) -> (r: String)
    ensures
        r@ == SCRIPT_HEAD@ + managed_block(profile@) + SCRIPT_TAIL@,
{
    let mut out = SCRIPT_HEAD.to_owned();
    out.append(script_block(profile).as_str());
    out.append(SCRIPT_TAIL);
    out
}

/// The script `content` with the part that the launcher looks after brought
/// up to date for the profile; what stands around that part stays.
pub fn update_script_file(profile: &Profile, content: &str) -> (r: Result<String, ScriptError>)
    ensures
        match r {
            Ok(script) => with_block(content@, managed_block(profile@)) == Ok::<
                Seq<char>,
                ScriptError,
            >(script@),
            Err(e) => with_block(content@, managed_block(profile@)) == Err::<
                Seq<char>,
                ScriptError,
            >(e),
        },
{
    let chars = chars_of(content);
    let start_mark = chars_of(XIL_START);
    let end_mark = chars_of(XIL_END);
    let start = match find_in(&chars, &start_mark, 0) {
        Some(start) => start,
        None => {
            return Err(ScriptError::StartMarkMissing);
        },
    };
    let end = match find_in(&chars, &end_mark, start) {
        Some(end) => end,
        None => {
            return Err(ScriptError::EndMarkMissing);
        },
    };
    proof {
        lemma_find_from(chars@, start_mark@, 0);
        lemma_find_from(chars@, end_mark@, start as int);
        assert(occurs_at(chars@, start_mark@, start as int));
        assert(occurs_at(chars@, end_mark@, end as int));
    }
    let total = chars.len();
    assert(end + end_mark.len() <= total);
    let rest = end + end_mark.len();
    let mut out = string_of(&chars, 0, start);
    out.append(script_block(profile).as_str());
    out.append(string_of(&chars, rest, chars.len()).as_str());
    proof {
        assert(chars@.subrange(0, start as int) =~= chars@.take(start as int));
        assert(chars@.subrange(rest as int, chars.len() as int) =~= chars@.skip(rest as int));
    }
    Ok(out)
}

/// The script to write for a profile: the script that is there, brought up
/// to date, if that can be done; else a new one.
pub fn make_script_file(profile: &Profile, existing: Option<&str>) -> (r: String)
    ensures
        r@ == (match existing {
            Some(content) => match with_block(content@, managed_block(profile@)) {
                Ok(script) => script,
                Err(_) => SCRIPT_HEAD@ + managed_block(profile@) + SCRIPT_TAIL@,
            },
            None => SCRIPT_HEAD@ + managed_block(profile@) + SCRIPT_TAIL@,
        }),
{
    match existing {
        Some(content) => match update_script_file(profile, content) {
            Ok(script) => script,
            Err(_) => new_script_file(profile),
        },
        None => new_script_file(profile),
    }
}

/// One overlay of the data redirection: its number and its folder.
#[derive(Debug)]
pub struct Overlay {
    pub key: String,
    pub folder: String,
}

/// The mathematical model of an [`Overlay`].
pub struct OverlayView {
    pub key: Seq<char>,
    pub folder: Seq<char>,
}

impl DeepView for Overlay {
    type V = OverlayView;

    open spec fn deep_view(&self) -> OverlayView {
        OverlayView { key: self.key@, folder: self.folder@ }
    }
}

/// The folders that are laid over the game's data, in order: the server's
/// own, if it is there, then those that the profile adds.
pub open spec fn overlay_folders(
    server_folder: Seq<char>,
    server_folder_exists: bool,
    extra_pivots: Seq<Seq<char>>,
) -> Seq<Seq<char>> {
    if server_folder_exists {
        seq![server_folder] + extra_pivots
    } else {
        extra_pivots
    }
}

/// The overlays of the data redirection for a profile, numbered from 0 in
/// their order.
pub fn generate_pivot_ini(profile: &Profile, server_folder: &str, server_folder_exists: bool) -> (r:
    Vec<Overlay>)
    ensures
        r.len() == overlay_folders(
            server_folder@,
            server_folder_exists,
            profile@.extra_pivots,
        ).len(),
        forall|i: int|
            0 <= i < r.len() ==> (#[trigger] r.deep_view()[i]) == (OverlayView {
                key: decimal(i as nat),
                folder: overlay_folders(
                    server_folder@,
                    server_folder_exists,
                    profile@.extra_pivots,
                )[i],
            }),
{
    let mut overlays: Vec<Overlay> = Vec::new();
    let ghost folders = overlay_folders(
        server_folder@,
        server_folder_exists,
        profile@.extra_pivots,
    );
    if server_folder_exists {
        let ghost before = overlays;
        let overlay = Overlay { key: count_string(0), folder: server_folder.to_owned() };
        overlays.push(overlay);
        proof {
            lemma_push_deep_view(before, overlays, overlay);
        }
    }
    let offset = overlays.len();
    let mut i: usize = 0;
    while i < profile.extra_pivots.len()
        invariant
            i <= profile.extra_pivots.len(),
            offset <= 1,
            offset == if server_folder_exists {
                1usize
            } else {
                0usize
            },
            overlays.len() == offset + i,
            folders == overlay_folders(
                server_folder@,
                server_folder_exists,
                profile@.extra_pivots,
            ),
            forall|k: int|
                0 <= k < overlays.len() ==> (#[trigger] overlays.deep_view()[k]) == (OverlayView {
                    key: decimal(k as nat),
                    folder: folders[k],
                }),
        decreases profile.extra_pivots.len() - i,
    {
        let ghost before = overlays;
        let overlay = Overlay {
            key: count_string(overlays.len()),
            folder: profile.extra_pivots[i].clone(),
        };
        overlays.push(overlay);
        proof {
            lemma_push_deep_view(before, overlays, overlay);
            assert(profile@.extra_pivots[i as int] == profile.extra_pivots[i as int]@);
        }
        i += 1;
    }
    overlays
}

/// A value in a settings file.
#[derive(Debug)]
pub enum SettingValue {
    /// A text, written as it is.
    Text(String),
    /// A path, written as the platform writes it.
    Path(LocalPath),
}

/// The mathematical model of a [`SettingValue`].
pub enum SettingValueView {
    Text(Seq<char>),
    Path(PathView),
}

/// One entry of a settings file.
#[derive(Debug)]
pub struct Setting {
    pub section: String,
    pub key: String,
    pub value: SettingValue,
}

/// The mathematical model of a [`Setting`].
pub struct SettingView {
    pub section: Seq<char>,
    pub key: Seq<char>,
    pub value: SettingValueView,
}

impl DeepView for Setting {
    type V = SettingView;

    open spec fn deep_view(&self) -> SettingView {
        SettingView {
            section: self.section@,
            key: self.key@,
            value: match self.value {
                SettingValue::Text(text) => SettingValueView::Text(text@),
                SettingValue::Path(path) => SettingValueView::Path(path@),
            },
        }
    }
}

/// An entry with a text for its value.
pub open spec fn text_setting(section: Seq<char>, key: Seq<char>, text: Seq<char>) -> SettingView {
    SettingView { section, key, value: SettingValueView::Text(text) }
}

/// An entry with a path for its value.
pub open spec fn path_setting(section: Seq<char>, key: Seq<char>, path: PathView) -> SettingView {
    SettingView { section, key, value: SettingValueView::Path(path) }
}

/// The words that tell the boot loader which server to sign in to and how.
pub open spec fn boot_command(profile: ProfileView) -> Seq<char> {
    match profile.server {
        Some(server) => "--server "@ + server + if profile.hairpin {
            " --hairpin"@
        } else {
            Seq::empty()
        },
        None => if profile.hairpin {
            "--hairpin"@
        } else {
            Seq::empty()
        },
    }
}

/// The entries that tell the mod loader what to start: for a retail
/// profile the game's own launcher; else the boot loader with the words
/// for the server, if there are any.
pub open spec fn boot_settings(
    profile: ProfileView,
    game_directory: PathView,
    ashita_directory: PathView,
) -> Seq<SettingView> {
    if profile.is_retail {
        seq![
            path_setting(
                "ashita.boot"@,
                "file"@,
                game_directory.join("PlayOnlineViewer\\pol.exe"@),
            ),
            text_setting("ashita.boot"@, "command"@, "/game eAZcFcB"@),
        ]
    } else if profile.server is Some || profile.hairpin {
        seq![
            text_setting("ashita.boot"@, "command"@, boot_command(profile)),
            path_setting(
                "ashita.boot"@,
                "file"@,
                ashita_directory.join(
                    "bootloader\\"@ + profile.server_filename() + "\\xiloader.exe"@,
                ),
            ),
        ]
    } else {
        Seq::empty()
    }
}

/// The entries for the sizes of the game's window, background and menus.
pub open spec fn resolution_settings(profile: ProfileView) -> Seq<SettingView> {
    seq![
        text_setting("ffxi.registry"@, "0001"@, decimal(profile.resolution.width as nat)),
        text_setting("ffxi.registry"@, "0002"@, decimal(profile.resolution.height as nat)),
        text_setting(
            "ffxi.registry"@,
            "0003"@,
            decimal(profile.background_resolution.width as nat),
        ),
        text_setting(
            "ffxi.registry"@,
            "0004"@,
            decimal(profile.background_resolution.height as nat),
        ),
        text_setting("ffxi.registry"@, "0037"@, decimal(profile.menu_resolution.width as nat)),
        text_setting("ffxi.registry"@, "0038"@, decimal(profile.menu_resolution.height as nat)),
    ]
}

/// The entries that the launcher sets in the mod loader's settings file of
/// a profile, in the order in which they are set.
pub open spec fn ashita_settings(
    profile: ProfileView,
    game_directory: PathView,
    ashita_directory: PathView,
) -> Seq<SettingView> {
    (match profile.name {
        Some(name) => seq![text_setting("ashita.launcher"@, "name"@, name)],
        None => Seq::empty(),
    }) + seq![
        text_setting("ashita.boot"@, "script"@, profile.profile_filename() + ".txt"@),
    ] + boot_settings(profile, game_directory, ashita_directory) + seq![
        path_setting("sandbox.paths"@, "pol"@, game_directory.join("PlayOnlineViewer"@)),
        path_setting("sandbox.paths"@, "ffxi"@, game_directory.join(GAME_DIRECTORY@)),
    ] + resolution_settings(profile) + seq![
        text_setting("ashita.polplugins"@, "pivot"@, "1"@),
        text_setting("ashita.polplugins.args"@, "pivot"@, profile.profile_filename()),
    ]
}

/// Why the settings of a profile cannot be told.
#[derive(Debug, Clone, Copy, PartialEq, Eq, Structural)]
pub enum SettingsError {
    MissingAshitaDirectory,
    MissingGameDirectory,
}

impl SettingsError {
    /// The error in words.
    pub fn message(&self) -> (r: String)
        ensures
            r@ == (match *self {
                SettingsError::MissingAshitaDirectory => "Missing Ashita directory."@,
                SettingsError::MissingGameDirectory => "Missing game directory."@,
            }),
    {
        match self {
            SettingsError::MissingAshitaDirectory => "Missing Ashita directory.".to_owned(),
            SettingsError::MissingGameDirectory => "Missing game directory.".to_owned(),
        }
    }
}

fn push_text(settings: &mut Vec<Setting>, section: &str, key: &str, text: String)
    ensures
        final(settings).deep_view() == old(settings).deep_view().push(
            text_setting(section@, key@, text@),
        ),
{
    let ghost before = *settings;
    let setting = Setting {
        section: section.to_owned(),
        key: key.to_owned(),
        value: SettingValue::Text(text),
    };
    settings.push(setting);
    proof {
        lemma_push_deep_view(before, *settings, setting);
    }
}

fn push_path(settings: &mut Vec<Setting>, section: &str, key: &str, path: LocalPath)
    ensures
        final(settings).deep_view() == old(settings).deep_view().push(
            path_setting(section@, key@, path@),
        ),
{
    let ghost before = *settings;
    let setting = Setting {
        section: section.to_owned(),
        key: key.to_owned(),
        value: SettingValue::Path(path),
    };
    settings.push(setting);
    proof {
        lemma_push_deep_view(before, *settings, setting);
    }
}

fn boot_words(profile: &Profile) -> (r: String)
    ensures
        r@ == boot_command(profile@),
{
    match &profile.server {
        Some(server) => {
            let mut words = "--server ".to_owned();
            words.append(server.as_str());
            if profile.hairpin {
                words.append(" --hairpin");
            } else {
                assert(words@ + Seq::<char>::empty() =~= words@);
            }
            words
        },
        None => if profile.hairpin {
            "--hairpin".to_owned()
        } else {
            String::new()
        },
    }
}

fn decimal_of(n: u16) -> (r: String)
    ensures
        r@ == decimal(n as nat),
{
    count_string(n as usize)
}

/// The entries that the launcher sets in the mod loader's settings file of
/// a profile, in the order in which they are set.
pub fn update_ashita_files(profile: &Profile) -> (r: Result<Vec<Setting>, SettingsError>)
    ensures
        match r {
            Ok(settings) => {
                &&& profile@.install.ashita_dir() is Some
                &&& profile@.install.directory is Some
                &&& settings.deep_view() == ashita_settings(
                    profile@,
                    profile@.install.directory->0,
                    profile@.install.ashita_dir()->0,
                )
            },
            Err(e) => if profile@.install.ashita_dir() is None {
                e == SettingsError::MissingAshitaDirectory
            } else {
                e == SettingsError::MissingGameDirectory && profile@.install.directory is None
            },
        },
{
    let ashita_directory = match profile.install.get_ashita_dir() {
        Some(directory) => directory,
        None => {
            return Err(SettingsError::MissingAshitaDirectory);
        },
    };
    let game_directory = match &profile.install.directory {
        Some(directory) => directory.clone(),
        None => {
            return Err(SettingsError::MissingGameDirectory);
        },
    };
    let profile_filename = profile.get_profile_filename();
    let mut settings: Vec<Setting> = Vec::new();
    assert(settings.deep_view() =~= Seq::<SettingView>::empty());
    match &profile.name {
        Some(name) => {
            push_text(&mut settings, "ashita.launcher", "name", name.clone());
        },
        None => {},
    }
    push_text(&mut settings, "ashita.boot", "script", profile_filename.clone().concat(".txt"));
    if profile.is_retail {
        push_path(
            &mut settings,
            "ashita.boot",
            "file",
            game_directory.join("PlayOnlineViewer\\pol.exe"),
        );
        push_text(&mut settings, "ashita.boot", "command", "/game eAZcFcB".to_owned());
    } else if profile.server.is_some() || profile.hairpin {
        let mut loader = "bootloader\\".to_owned();
        loader.append(profile.get_server_filename().as_str());
        loader.append("\\xiloader.exe");
        push_text(&mut settings, "ashita.boot", "command", boot_words(profile));
        push_path(&mut settings, "ashita.boot", "file", ashita_directory.join(loader.as_str()));
    }
    push_path(&mut settings, "sandbox.paths", "pol", game_directory.join("PlayOnlineViewer"));
    push_path(&mut settings, "sandbox.paths", "ffxi", game_directory.join(GAME_DIRECTORY));
    push_text(&mut settings, "ffxi.registry", "0001", decimal_of(profile.resolution.width));
    push_text(&mut settings, "ffxi.registry", "0002", decimal_of(profile.resolution.height));
    push_text(
        &mut settings,
        "ffxi.registry",
        "0003",
        decimal_of(profile.background_resolution.width),
    );
    push_text(
        &mut settings,
        "ffxi.registry",
        "0004",
        decimal_of(profile.background_resolution.height),
    );
    push_text(&mut settings, "ffxi.registry", "0037", decimal_of(profile.menu_resolution.width));
    push_text(&mut settings, "ffxi.registry", "0038", decimal_of(profile.menu_resolution.height));
    push_text(&mut settings, "ashita.polplugins", "pivot", "1".to_owned());
    push_text(&mut settings, "ashita.polplugins.args", "pivot", profile_filename);
    assert(settings.deep_view() =~= ashita_settings(
        profile@,
        profile@.install.directory->0,
        profile@.install.ashita_dir()->0,
    ));
    Ok(settings)
}

/// The value that stands for a setting of the game pad that the system
/// does not hold.
pub const GAMEPAD_UNSET: &'static str = "-1";

/// The entries for the game pad in the mod loader's settings file: for
/// each of the three settings what the system holds, else the value that
/// stands for none.
pub fn update_gamepad_config(
    padmode: Option<String>,
    padsin: Option<String>,
    padguid: Option<String>,
) -> (r: Vec<Setting>)
    ensures
        r.deep_view() == seq![
            text_setting(
                "ffxi.registry"@,
                "padmode000"@,
                match padmode {
                    Some(value) => value@,
                    None => GAMEPAD_UNSET@,
                },
            ),
            text_setting(
                "ffxi.registry"@,
                "padsin000"@,
                match padsin {
                    Some(value) => value@,
                    None => GAMEPAD_UNSET@,
                },
            ),
            text_setting(
                "ffxi.registry"@,
                "padguid000"@,
                match padguid {
                    Some(value) => value@,
                    None => GAMEPAD_UNSET@,
                },
            ),
        ],
{
    let mut settings: Vec<Setting> = Vec::new();
    assert(settings.deep_view() =~= Seq::<SettingView>::empty());
    push_text(
        &mut settings,
        "ffxi.registry",
        "padmode000",
        match padmode {
            Some(value) => value,
            None => GAMEPAD_UNSET.to_owned(),
        },
    );
    push_text(
        &mut settings,
        "ffxi.registry",
        "padsin000",
        match padsin {
            Some(value) => value,
            None => GAMEPAD_UNSET.to_owned(),
        },
    );
    push_text(
        &mut settings,
        "ffxi.registry",
        "padguid000",
        match padguid {
            Some(value) => value,
            None => GAMEPAD_UNSET.to_owned(),
        },
    );
    assert(settings.deep_view() =~= seq![
        settings.deep_view()[0],
        settings.deep_view()[1],
        settings.deep_view()[2],
    ]);
    settings
}

} // verus!
