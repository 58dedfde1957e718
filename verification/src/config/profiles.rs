//! Profiles: one per way of starting the game, and the list of them.

use crate::path::{LocalPath, PathView};
use crate::text::{decimal, decimal_string, replace_char, replace_in};
use std::collections::BTreeMap;
use vstd::prelude::*;
use vstd::string::StringExecFns;

verus! {

broadcast use {vstd::std_specs::btree::group_btree_axioms, vstd::laws_cmp::group_laws_cmp};

/// How a profile proves to the server who is playing.
#[derive(Debug, Clone, Copy, Eq)]
pub enum AuthKind {
    /// A token file that the boot loader keeps; the password is asked for once.
    Token,
    /// A password stored with the profile.
    Password,
    /// A password asked for at every start.
    ManualPassword,
}

impl PartialEq for AuthKind {
    fn eq(&self, other: &Self) -> (r: bool) {
        match (self, other) {
            (AuthKind::Token, AuthKind::Token) => true,
            (AuthKind::Password, AuthKind::Password) => true,
            (AuthKind::ManualPassword, AuthKind::ManualPassword) => true,
            _ => false,
        }
    }
}

impl vstd::std_specs::cmp::PartialEqSpecImpl for AuthKind {
    open spec fn obeys_eq_spec() -> bool {
        true
    }

    /// Two ways of signing in are equal when they are the same way.
    open spec fn eq_spec(&self, other: &Self) -> bool {
        *self == *other
    }
}

impl Default for AuthKind {
    fn default() -> (r: Self)
        ensures
            r == AuthKind::Token,
    {
        AuthKind::Token
    }
}

/// Where the game and the mod loader are installed.
#[derive(Debug)]
pub struct InstallConfig {
    pub directory: Option<LocalPath>,
    /// Where it is `None` and `directory` is set, the mod loader is taken to
    /// stand in `directory` below the name `Ashita`.
    pub ashita_directory: Option<LocalPath>,
}

/// The mathematical model of an [`InstallConfig`].
pub struct InstallConfigView {
    pub directory: Option<PathView>,
    pub ashita_directory: Option<PathView>,
}

impl InstallConfigView {
    /// The mod loader's directory: the one configured, else `Ashita` below
    /// the game's directory, else none.
    pub open spec fn ashita_dir(self) -> Option<PathView> {
        match self.ashita_directory {
            Some(dir) => Some(dir),
            None => match self.directory {
                Some(dir) => Some(dir.join("Ashita"@)),
                None => None,
            },
        }
    }
}

impl View for InstallConfig {
    type V = InstallConfigView;

    open spec fn view(&self) -> InstallConfigView {
        InstallConfigView {
            directory: self.directory.deep_view(),
            ashita_directory: self.ashita_directory.deep_view(),
        }
    }
}

impl Default for InstallConfig {
    fn default() -> (r: Self)
        ensures
            r@ == (InstallConfigView { directory: None, ashita_directory: None }),
    {
        InstallConfig { directory: None, ashita_directory: None }
    }
}

impl Clone for InstallConfig {
    fn clone(&self) -> (r: Self)
        ensures
            r@ == self@,
    {
        InstallConfig {
            directory: clone_path(&self.directory),
            ashita_directory: clone_path(&self.ashita_directory),
        }
    }
}

/// Why no mod loader directory could be named.
#[derive(Debug, Clone, Copy, PartialEq, Eq, Structural)]
pub enum InstallConfigError {
    /// Neither the mod loader's directory nor the game's is configured.
    MissingAshitaDirectory,
}

impl InstallConfigError {
    /// The error in words.
    pub fn message(&self) -> (r: String)
        ensures
            r@ == "Missing Ashita directory."@,
    {
        "Missing Ashita directory.".to_owned()
    }
}

impl InstallConfig {
    /// The mod loader's directory, if one can be named.
    pub fn get_ashita_dir(&self) -> (r: Option<LocalPath>)
        ensures
            r.deep_view() == self@.ashita_dir(),
    {
        match &self.ashita_directory {
            Some(dir) => Some(dir.clone()),
            None => match &self.directory {
                Some(dir) => Some(dir.join("Ashita")),
                None => None,
            },
        }
    }

    /// The mod loader's directory, or the reason why there is none.
    pub fn try_get_ashita_dir(&self) -> (r: Result<LocalPath, InstallConfigError>)
        ensures
            match r {
                Ok(dir) => self@.ashita_dir() == Some(dir@),
                Err(e) => self@.ashita_dir() is None && e
                    == InstallConfigError::MissingAshitaDirectory,
            },
    {
        match self.get_ashita_dir() {
            Some(dir) => Ok(dir),
            None => Err(InstallConfigError::MissingAshitaDirectory),
        }
    }
}

/// A size on screen, in pixels.
#[derive(Debug, Clone, Copy, PartialEq, Eq, Structural)]
pub struct Resolution {
    pub width: u16,
    pub height: u16,
}

impl Default for Resolution {
    fn default() -> (r: Self)
        ensures
            r == (Resolution { width: 1920, height: 1080 }),
    {
        Resolution { width: 1920, height: 1080 }
    }
}

/// One way of starting the game: the server, the account, the directories
/// and the settings that go with it.
#[derive(Debug)]
pub struct Profile {
    pub id: u32,
    pub name: Option<String>,
    pub server: Option<String>,
    pub server_nickname: Option<String>,
    pub server_info_addr: Option<String>,
    pub is_retail: bool,
    pub install: InstallConfig,
    pub account_name: Option<String>,
    pub password: Option<String>,
    pub auth_kind: AuthKind,
    pub manual_auth: bool,
    pub hairpin: bool,
    pub resolution: Resolution,
    pub background_resolution: Resolution,
    pub menu_resolution: Resolution,
    pub enabled_addons: Option<Vec<String>>,
    pub enabled_plugins: Option<Vec<String>>,
    pub extra_pivots: Vec<String>,
}

/// The mathematical model of a [`Profile`].
pub struct ProfileView {
    pub id: u32,
    pub name: Option<Seq<char>>,
    pub server: Option<Seq<char>>,
    pub server_nickname: Option<Seq<char>>,
    pub server_info_addr: Option<Seq<char>>,
    pub is_retail: bool,
    pub install: InstallConfigView,
    pub account_name: Option<Seq<char>>,
    pub password: Option<Seq<char>>,
    pub auth_kind: AuthKind,
    pub manual_auth: bool,
    pub hairpin: bool,
    pub resolution: Resolution,
    pub background_resolution: Resolution,
    pub menu_resolution: Resolution,
    pub enabled_addons: Option<Seq<Seq<char>>>,
    pub enabled_plugins: Option<Seq<Seq<char>>>,
    pub extra_pivots: Seq<Seq<char>>,
}

impl View for Profile {
    type V = ProfileView;

    open spec fn view(&self) -> ProfileView {
        ProfileView {
            id: self.id,
            name: self.name.deep_view(),
            server: self.server.deep_view(),
            server_nickname: self.server_nickname.deep_view(),
            server_info_addr: self.server_info_addr.deep_view(),
            is_retail: self.is_retail,
            install: self.install@,
            account_name: self.account_name.deep_view(),
            password: self.password.deep_view(),
            auth_kind: self.auth_kind,
            manual_auth: self.manual_auth,
            hairpin: self.hairpin,
            resolution: self.resolution,
            background_resolution: self.background_resolution,
            menu_resolution: self.menu_resolution,
            enabled_addons: self.enabled_addons.deep_view(),
            enabled_plugins: self.enabled_plugins.deep_view(),
            extra_pivots: self.extra_pivots.deep_view(),
        }
    }
}

impl DeepView for Profile {
    type V = ProfileView;

    open spec fn deep_view(&self) -> ProfileView {
        self.view()
    }
}

/// The pattern whose matches are replaced in a server's name before the name
/// serves as a directory name.
pub const SERVER_NAME_PATTERN: &'static str = "\\.\\\\/";

/// The port at which a server answers questions about itself, where the
/// profile names no address of its own.
pub const SERVER_INFO_PORT: &'static str = ":15850";

/// What `regex::Regex::replace_all` returns for the expression compiled from
/// `pattern`, the text `haystack` and the replacement `replacement`; `None`
/// where `regex::Regex::new` rejects `pattern`.
pub uninterp spec fn regex_replace_all(
    pattern: Seq<char>,
    haystack: Seq<char>,
    replacement: Seq<char>,
) -> Option<Seq<char>>;

/// Calls `regex::Regex::new` on `pattern` and, where that yields an
/// expression, `regex::Regex::replace_all` on `haystack` with `replacement`.
/// Both depend on their arguments alone; the contract gives the outcome the
/// name `regex_replace_all` and claims nothing else of it.
#[verifier::external_body]
fn replace_all_matches(pattern: &str, haystack: &str, replacement: &str) -> (r: Option<String>)
    ensures
        r.deep_view() == regex_replace_all(pattern@, haystack@, replacement@),
{
    match regex::Regex::new(pattern) {
        Ok(re) => Some(re.replace_all(haystack, replacement).into_owned()),
        Err(_) => None,
    }
}

/// The name of an account's token file below the mod loader's directory,
/// for the directory name of the server and the name of the account.
pub open spec fn token_file_name(server_filename: Seq<char>, account: Seq<char>) -> Seq<char> {
    "bootloader/"@ + server_filename + "/"@ + account + ".token"@
}

/// The name of an account's token file below the mod loader's directory,
/// for the directory name of the server and the name of the account.
pub fn token_name(server_filename: &str, account: &str) -> (r: String)
    ensures
        r@ == token_file_name(server_filename@, account@),
{
    let mut name = "bootloader/".to_owned();
    name.append(server_filename);
    name.append("/");
    name.append(account);
    name.append(".token");
    name
}

impl ProfileView {
    /// The name under which the profile's own files are kept: the profile's
    /// name, or `anon`, with `_` for every blank.
    pub open spec fn profile_filename(self) -> Seq<char> {
        replace_char(
            match self.name {
                Some(name) => name,
                None => "anon"@,
            },
            ' ',
            '_',
        )
    }

    /// The server's name before it is made fit for a directory name.
    pub open spec fn raw_server_name(self) -> Seq<char> {
        match self.server {
            Some(server) => server,
            None => if self.is_retail {
                "retail"@
            } else {
                "localhost"@
            },
        }
    }

    /// The name of the directories that hold what belongs to the server: the
    /// raw name with `_` for every match of [`SERVER_NAME_PATTERN`].
    pub open spec fn server_filename(self) -> Seq<char> {
        match regex_replace_all(SERVER_NAME_PATTERN@, self.raw_server_name(), "_"@) {
            Some(name) => name,
            None => self.raw_server_name(),
        }
    }

    /// The address at which the server answers questions about itself.
    pub open spec fn server_info_addr(self) -> Seq<char> {
        match self.server_info_addr {
            Some(addr) => addr,
            None => match self.server {
                Some(server) => server + SERVER_INFO_PORT@,
                None => "localhost"@ + SERVER_INFO_PORT@,
            },
        }
    }

    /// The name by which the boot loader knows the account: the account's
    /// name, or the profile's id where it has none.
    pub open spec fn token_account(self) -> Seq<char> {
        match self.account_name {
            Some(account) => account,
            None => decimal(self.id as nat),
        }
    }

    /// The name of the account's token file, without its directory.
    pub open spec fn token_name(self) -> Seq<char> {
        token_file_name(self.server_filename(), self.token_account())
    }

    /// Where the boot loader keeps the account's token.
    pub open spec fn token_path(self) -> Option<PathView> {
        match self.install.ashita_dir() {
            Some(dir) => Some(dir.join(self.token_name())),
            None => None,
        }
    }
}

impl Default for Profile {
    fn default() -> (r: Self)
        ensures
            r@ == (ProfileView {
                id: 0,
                name: None,
                server: None,
                server_nickname: None,
                server_info_addr: None,
                is_retail: false,
                install: InstallConfigView { directory: None, ashita_directory: None },
                account_name: None,
                password: None,
                auth_kind: AuthKind::Token,
                manual_auth: false,
                hairpin: false,
                resolution: Resolution { width: 1920, height: 1080 },
                background_resolution: Resolution { width: 1920, height: 1080 },
                menu_resolution: Resolution { width: 1920, height: 1080 },
                enabled_addons: None,
                enabled_plugins: None,
                extra_pivots: Seq::empty(),
            }),
    {
        let r = Profile {
            id: 0,
            name: None,
            server: None,
            server_nickname: None,
            server_info_addr: None,
            is_retail: false,
            install: InstallConfig::default(),
            account_name: None,
            password: None,
            auth_kind: AuthKind::default(),
            manual_auth: false,
            hairpin: false,
            resolution: Resolution::default(),
            background_resolution: Resolution::default(),
            menu_resolution: Resolution::default(),
            enabled_addons: None,
            enabled_plugins: None,
            extra_pivots: Vec::new(),
        };
        assert(r.extra_pivots.deep_view() =~= Seq::<Seq<char>>::empty());
        r
    }
}

impl Clone for Profile {
    fn clone(&self) -> (r: Self)
        ensures
            r@ == self@,
    {
        Profile {
            id: self.id,
            name: clone_text(&self.name),
            server: clone_text(&self.server),
            server_nickname: clone_text(&self.server_nickname),
            server_info_addr: clone_text(&self.server_info_addr),
            is_retail: self.is_retail,
            install: self.install.clone(),
            account_name: clone_text(&self.account_name),
            password: clone_text(&self.password),
            auth_kind: self.auth_kind,
            manual_auth: self.manual_auth,
            hairpin: self.hairpin,
            resolution: self.resolution,
            background_resolution: self.background_resolution,
            menu_resolution: self.menu_resolution,
            enabled_addons: clone_names(&self.enabled_addons),
            enabled_plugins: clone_names(&self.enabled_plugins),
            extra_pivots: clone_texts(&self.extra_pivots),
        }
    }
}

/// A copy of an optional location.
pub fn clone_path(path: &Option<LocalPath>) -> (r: Option<LocalPath>)
    ensures
        r.deep_view() == path.deep_view(),
{
    match path {
        Some(p) => Some(p.clone()),
        None => None,
    }
}

/// A copy of an optional text.
pub fn clone_text(text: &Option<String>) -> (r: Option<String>)
    ensures
        r.deep_view() == text.deep_view(),
{
    match text {
        Some(t) => Some(t.clone()),
        None => None,
    }
}

/// A copy of a list of texts.
pub fn clone_texts(texts: &Vec<String>) -> (r: Vec<String>)
    ensures
        r.deep_view() == texts.deep_view(),
{
    let r = texts.clone();
    assert(r.deep_view() =~= texts.deep_view());
    r
}

/// A copy of an optional list of texts.
pub fn clone_names(names: &Option<Vec<String>>) -> (r: Option<Vec<String>>)
    ensures
        r.deep_view() == names.deep_view(),
{
    match names {
        Some(n) => Some(clone_texts(n)),
        None => None,
    }
}

impl Profile {
    /// Where the boot loader keeps the account's token, if the mod loader's
    /// directory can be named.
    pub fn get_token_path(&self) -> (r: Option<LocalPath>)
        ensures
            r.deep_view() == self@.token_path(),
    {
        match self.install.get_ashita_dir() {
            None => None,
            Some(dir) => {
                let account = match &self.account_name {
                    Some(account) => account.clone(),
                    None => decimal_string(self.id),
                };
                let name = token_name(self.get_server_filename().as_str(), account.as_str());
                Some(dir.join(name.as_str()))
            },
        }
    }

    /// The name under which the profile's own files are kept.
    pub fn get_profile_filename(&self) -> (r: String)
        ensures
            r@ == self@.profile_filename(),
    {
        match &self.name {
            Some(name) => replace_in(name.as_str(), ' ', '_'),
            None => replace_in("anon", ' ', '_'),
        }
    }

    /// The server's name before it is made fit for a directory name: the
    /// configured one, else `retail` or `localhost`.
    pub fn raw_server_name(&self) -> (r: String)
        ensures
            r@ == self@.raw_server_name(),
    {
        match &self.server {
            Some(server) => server.clone(),
            None => if self.is_retail {
                "retail".to_owned()
            } else {
                "localhost".to_owned()
            },
        }
    }

    /// The name of the directories that hold what belongs to the server.
    ///
    /// Should the expression engine reject [`SERVER_NAME_PATTERN`], the raw
    /// name is returned as it is.
    pub fn get_server_filename(&self) -> (r: String)
        ensures
            r@ == self@.server_filename(),
    {
        let raw = self.raw_server_name();
        match replace_all_matches(SERVER_NAME_PATTERN, raw.as_str(), "_") {
            Some(name) => name,
            None => raw,
        }
    }

    /// The address at which the server answers questions about itself.
    pub fn get_server_info_addr(&self) -> (r: String)
        ensures
            r@ == self@.server_info_addr(),
    {
        match &self.server_info_addr {
            Some(addr) => addr.clone(),
            None => {
                let host = match &self.server {
                    Some(server) => server.clone(),
                    None => "localhost".to_owned(),
                };
                host.concat(SERVER_INFO_PORT)
            },
        }
    }
}

/// The profiles, by id, and the order in which they are shown.
#[derive(Debug)]
pub struct Profiles {
    pub ids: Vec<u32>,
    pub map: BTreeMap<u32, Profile>,
}

/// The mathematical model of [`Profiles`].
pub struct ProfilesView {
    pub ids: Seq<u32>,
    pub map: Map<u32, ProfileView>,
}

impl View for Profiles {
    type V = ProfilesView;

    open spec fn view(&self) -> ProfilesView {
        ProfilesView { ids: self.ids@, map: self.map@.map_values(|p: Profile| p@) }
    }
}

/// The greatest of `ids`, or 0 where there is none.
pub open spec fn highest_id(ids: Seq<u32>) -> int
    decreases ids.len(),
{
    if ids.len() == 0 {
        0
    } else if highest_id(ids.drop_last()) >= ids.last() {
        highest_id(ids.drop_last())
    } else {
        ids.last() as int
    }
}

/// The id that the next new profile gets: one more than the greatest id in
/// the list, and 2 for an empty list.
pub open spec fn next_id(ids: Seq<u32>) -> int {
    if ids.len() == 0 {
        2
    } else {
        highest_id(ids) + 1
    }
}

/// No id of the list reaches the id that the next new profile gets.
pub proof fn lemma_next_id_is_fresh(ids: Seq<u32>)
    ensures
        forall|i: int| 0 <= i < ids.len() ==> ids[i] < next_id(ids),
        !ids.contains(next_id(ids) as u32) || next_id(ids) > u32::MAX,
    decreases ids.len(),
{
    if ids.len() > 0 {
        lemma_next_id_is_fresh(ids.drop_last());
        assert forall|i: int| 0 <= i < ids.len() implies ids[i] < next_id(ids) by {
            if i < ids.len() - 1 {
                assert(ids.drop_last()[i] == ids[i]);
            }
        }
    }
}

/// The name of the file that holds the profiles.
pub const PROFILES_CONFIG_FILENAME: &'static str = "profiles.json";

impl Default for Profiles {
    fn default() -> (r: Self)
        ensures
            r@ == (ProfilesView { ids: Seq::empty(), map: Map::empty() }),
    {
        let r = Profiles { ids: Vec::new(), map: BTreeMap::new() };
        assert(r@.map =~= Map::<u32, ProfileView>::empty());
        r
    }
}

impl Profiles {
    /// Where the profiles are stored below the application's data directory.
    pub fn get_path(dir: &LocalPath) -> (r: LocalPath)
        ensures
            r@ == dir@.join(PROFILES_CONFIG_FILENAME@),
    {
        dir.join(PROFILES_CONFIG_FILENAME)
    }

    /// The greatest id of the list, or 0 where it is empty.
    pub fn highest_id(&self) -> (r: u32)
        ensures
            r == highest_id(self.ids@),
    {
        let mut best: u32 = 0;
        let mut i: usize = 0;
        assert(self.ids@.take(0) =~= Seq::<u32>::empty());
        while i < self.ids.len()
            invariant
                i <= self.ids.len(),
                best == highest_id(self.ids@.take(i as int)),
            decreases self.ids.len() - i,
        {
            assert(self.ids@.take(i + 1).drop_last() =~= self.ids@.take(i as int));
            if self.ids[i] > best {
                best = self.ids[i];
            }
            i += 1;
        }
        assert(self.ids@.take(self.ids.len() as int) =~= self.ids@);
        best
    }

    /// The profile with the id, if there is one.
    pub fn get(&self, id: u32) -> (r: Option<&Profile>)
        ensures
            match r {
                Some(profile) => self@.map.contains_key(id) && self@.map[id] == profile@,
                None => !self@.map.contains_key(id),
            },
    {
        self.map.get(&id)
    }

    /// Is there an id left for one more profile?
    pub fn has_room(&self) -> (r: bool)
        ensures
            r == (next_id(self.ids@) <= u32::MAX),
    {
        self.ids.len() == 0 || self.highest_id() < u32::MAX
    }

    /// Adds `profile` under a new id, at the end of the list.
    pub fn add_new_profile(&mut self, profile: Profile)
        requires
            next_id(old(self).ids@) <= u32::MAX,
        ensures
            final(self)@.ids == old(self)@.ids.push(next_id(old(self).ids@) as u32),
            final(self)@.map == old(self)@.map.insert(
                next_id(old(self).ids@) as u32,
                ProfileView { id: next_id(old(self).ids@) as u32, ..profile@ },
            ),
    {
        let new_id: u32 = if self.ids.len() == 0 {
            2
        } else {
            self.highest_id() + 1
        };
        let mut profile = profile;
        profile.id = new_id;
        self.ids.push(new_id);
        self.map.insert(new_id, profile);
        assert(self@.map =~= old(self)@.map.insert(new_id, profile@));
    }
}

} // verus!
