//! What a server publishes about its files, and the comparison of that with
//! the version markers kept on disk.

use crate::config::profiles::{Profile, ProfileView};
use crate::text::lemma_push_deep_view;
use vstd::prelude::*;
use vstd::string::StringExecFns;

verus! {

/// The published state of one part: where to fetch it and which version it is.
#[derive(Debug)]
pub struct VersionInfo {
    pub url: String,
    pub version: String,
}

/// The mathematical model of a [`VersionInfo`].
pub struct VersionInfoView {
    pub url: Seq<char>,
    pub version: Seq<char>,
}

impl View for VersionInfo {
    type V = VersionInfoView;

    open spec fn view(&self) -> VersionInfoView {
        VersionInfoView { url: self.url@, version: self.version@ }
    }
}

impl DeepView for VersionInfo {
    type V = VersionInfoView;

    open spec fn deep_view(&self) -> VersionInfoView {
        self.view()
    }
}

impl Clone for VersionInfo {
    fn clone(&self) -> (r: Self)
        ensures
            r@ == self@,
    {
        VersionInfo { url: self.url.clone(), version: self.version.clone() }
    }
}

/// What a server publishes: an entry for each part that it keeps up to date.
#[derive(Debug)]
pub struct VersionsInfo {
    pub dats: Option<VersionInfo>,
    pub bootloader: Option<VersionInfo>,
}

/// The mathematical model of a [`VersionsInfo`].
pub struct VersionsInfoView {
    pub dats: Option<VersionInfoView>,
    pub bootloader: Option<VersionInfoView>,
}

impl View for VersionsInfo {
    type V = VersionsInfoView;

    open spec fn view(&self) -> VersionsInfoView {
        VersionsInfoView { dats: self.dats.deep_view(), bootloader: self.bootloader.deep_view() }
    }
}

impl DeepView for VersionsInfo {
    type V = VersionsInfoView;

    open spec fn deep_view(&self) -> VersionsInfoView {
        self.view()
    }
}

/// A copy of an optional entry.
pub fn clone_entry(entry: &Option<VersionInfo>) -> (r: Option<VersionInfo>)
    ensures
        r.deep_view() == entry.deep_view(),
{
    match entry {
        Some(info) => Some(info.clone()),
        None => None,
    }
}

impl Clone for VersionsInfo {
    fn clone(&self) -> (r: Self)
        ensures
            r@ == self@,
    {
        VersionsInfo { dats: clone_entry(&self.dats), bootloader: clone_entry(&self.bootloader) }
    }
}

impl Default for VersionsInfo {
    fn default() -> (r: Self)
        ensures
            r@ == (VersionsInfoView { dats: None, bootloader: None }),
    {
        VersionsInfo { dats: None, bootloader: None }
    }
}

/// One file that an installation consists of.
#[derive(Debug)]
pub struct FileInstallConfig {
    pub url: String,
}

impl View for FileInstallConfig {
    type V = Seq<char>;

    open spec fn view(&self) -> Seq<char> {
        self.url@
    }
}

impl DeepView for FileInstallConfig {
    type V = Seq<char>;

    open spec fn deep_view(&self) -> Seq<char> {
        self.url@
    }
}

impl Clone for FileInstallConfig {
    fn clone(&self) -> (r: Self)
        ensures
            r@ == self@,
    {
        FileInstallConfig { url: self.url.clone() }
    }
}

impl Default for FileInstallConfig {
    fn default() -> (r: Self)
        ensures
            r@ == Seq::<char>::empty(),
    {
        FileInstallConfig { url: String::new() }
    }
}

/// The files that an installation consists of.
pub type DownloadInfo = Vec<FileInstallConfig>;

/// A copy of a list of files.
pub fn clone_download_info(info: &DownloadInfo) -> (r: DownloadInfo)
    ensures
        r.deep_view() == info.deep_view(),
{
    let mut out: Vec<FileInstallConfig> = Vec::new();
    let mut i: usize = 0;
    while i < info.len()
        invariant
            i <= info.len(),
            out.deep_view() == info.deep_view().take(i as int),
        decreases info.len() - i,
    {
        let ghost before = out;
        let item = info[i].clone();
        out.push(item);
        proof {
            lemma_push_deep_view(before, out, item);
            assert(out.deep_view() =~= info.deep_view().take(i + 1));
        }
        i += 1;
    }
    assert(info.deep_view().take(info.len() as int) =~= info.deep_view());
    out
}

/// What an attempt to read a version marker gave.
#[derive(Debug)]
pub enum MarkerRead {
    /// There is no marker file.
    Absent,
    /// There is a marker file, and it could not be read.
    Unreadable,
    /// The marker file holds this text.
    Contents(String),
}

/// The mathematical model of a [`MarkerRead`].
pub enum MarkerView {
    Absent,
    Unreadable,
    Contents(Seq<char>),
}

impl View for MarkerRead {
    type V = MarkerView;

    open spec fn view(&self) -> MarkerView {
        match self {
            MarkerRead::Absent => MarkerView::Absent,
            MarkerRead::Unreadable => MarkerView::Unreadable,
            MarkerRead::Contents(text) => MarkerView::Contents(text@),
        }
    }
}

impl Clone for MarkerRead {
    fn clone(&self) -> (r: Self)
        ensures
            r@ == self@,
    {
        match self {
            MarkerRead::Absent => MarkerRead::Absent,
            MarkerRead::Unreadable => MarkerRead::Unreadable,
            MarkerRead::Contents(text) => MarkerRead::Contents(text.clone()),
        }
    }
}

/// One of the two parts that are kept up to date separately.
#[derive(Debug, Clone, Copy, PartialEq, Eq, Structural)]
pub enum Part {
    /// The boot loader's executable.
    Bootloader,
    /// The archive of game data.
    Dats,
}

impl Part {
    /// The name by which progress messages speak of the part.
    pub fn name(&self) -> (r: &'static str)
        ensures
            r@ == (match *self {
                Part::Bootloader => "Bootloader"@,
                Part::Dats => "DATs"@,
            }),
    {
        match self {
            Part::Bootloader => "Bootloader",
            Part::Dats => "DATs",
        }
    }
}

impl VersionsInfoView {
    /// The entry of one part.
    pub open spec fn entry(self, part: Part) -> Option<VersionInfoView> {
        match part {
            Part::Bootloader => self.bootloader,
            Part::Dats => self.dats,
        }
    }
}

impl VersionsInfo {
    /// The entry of one part.
    pub fn entry(&self, part: Part) -> (r: &Option<VersionInfo>)
        ensures
            r.deep_view() == self@.entry(part),
    {
        match part {
            Part::Bootloader => &self.bootloader,
            Part::Dats => &self.dats,
        }
    }
}

/// The directory that holds a part's files for a server, below the mod
/// loader's directory.
pub open spec fn part_dir_name(part: Part, server_filename: Seq<char>) -> Seq<char> {
    match part {
        Part::Bootloader => "bootloader/"@ + server_filename,
        Part::Dats => "polplugins/DATs/"@ + server_filename,
    }
}

/// The version marker of a part for a server, below the mod loader's directory.
pub open spec fn marker_name(part: Part, server_filename: Seq<char>) -> Seq<char> {
    part_dir_name(part, server_filename) + "/version.txt"@
}

/// The directory that holds a part's files for a server, below the mod
/// loader's directory.
pub fn part_dir(part: Part, server_filename: &str) -> (r: String)
    ensures
        r@ == part_dir_name(part, server_filename@),
{
    let prefix = match part {
        Part::Bootloader => "bootloader/",
        Part::Dats => "polplugins/DATs/",
    };
    prefix.to_owned().concat(server_filename)
}

/// The version marker of a part for a server, below the mod loader's directory.
pub fn marker_file(part: Part, server_filename: &str) -> (r: String)
    ensures
        r@ == marker_name(part, server_filename@),
{
    part_dir(part, server_filename).concat("/version.txt")
}

/// Is a part out of date? It is when the server publishes an entry for it
/// and the marker on disk is absent, unreadable, or holds another text than
/// the published version.
pub open spec fn part_is_stale(info: Option<VersionInfoView>, marker: MarkerView) -> bool {
    match info {
        None => false,
        Some(published) => match marker {
            MarkerView::Absent => true,
            MarkerView::Unreadable => true,
            MarkerView::Contents(text) => text != published.version,
        },
    }
}

/// Is any part out of date?
pub open spec fn any_part_is_stale(
    versions: VersionsInfoView,
    bootloader_marker: MarkerView,
    dats_marker: MarkerView,
) -> bool {
    part_is_stale(versions.bootloader, bootloader_marker) || part_is_stale(
        versions.dats,
        dats_marker,
    )
}

/// The published entry of a part if the part is out of date, else `None`.
pub fn part_needs_update<'a>(version_info: &'a Option<VersionInfo>, marker: &MarkerRead) -> (r:
    Option<&'a VersionInfo>)
    ensures
        r is Some <==> part_is_stale(version_info.deep_view(), marker@),
        r matches Some(info) ==> *version_info == Some(*info),
{
    match version_info {
        None => None,
        Some(info) => match marker {
            MarkerRead::Absent => Some(info),
            MarkerRead::Unreadable => Some(info),
            MarkerRead::Contents(text) => if *text == info.version {
                None
            } else {
                Some(info)
            },
        },
    }
}

/// What the server published, if any part is out of date, else `None`.
pub fn needs_update(
    versions_info: Option<VersionsInfo>,
    bootloader_marker: &MarkerRead,
    dats_marker: &MarkerRead,
) -> (r: Option<VersionsInfo>)
    ensures
        match versions_info {
            Some(versions) => if any_part_is_stale(versions@, bootloader_marker@, dats_marker@) {
                r == Some(versions)
            } else {
                r is None
            },
            None => r is None,
        },
{
    match versions_info {
        None => None,
        Some(versions) => {
            if part_needs_update(&versions.bootloader, bootloader_marker).is_some() {
                return Some(versions);
            }
            if part_needs_update(&versions.dats, dats_marker).is_some() {
                return Some(versions);
            }
            None
        },
    }
}

/// Where nothing is published, nothing is out of date, whatever is on disk.
pub proof fn lemma_nothing_published_nothing_stale(
    versions: VersionsInfoView,
    bootloader_marker: MarkerView,
    dats_marker: MarkerView,
)
    requires
        versions.bootloader is None,
        versions.dats is None,
    ensures
        !part_is_stale(versions.bootloader, bootloader_marker),
        !part_is_stale(versions.dats, dats_marker),
        !any_part_is_stale(versions, bootloader_marker, dats_marker),
{
}

/// A published part is out of date exactly when its marker is absent, is
/// unreadable, or differs from the published version.
pub proof fn lemma_stale_iff_marker_differs(published: VersionInfoView, marker: MarkerView)
    ensures
        part_is_stale(Some(published), marker) <==> (marker is Absent || marker is Unreadable
            || marker != MarkerView::Contents(published.version)),
{
}

impl ProfileView {
    /// Does the profile name a server that can be asked about its files?
    pub open spec fn asks_server(self) -> bool {
        !self.is_retail && self.server is Some
    }

    /// The address of the list of published versions.
    pub open spec fn versions_url(self) -> Option<Seq<char>> {
        if self.asks_server() {
            Some("http://"@ + self.server_info_addr() + "/versions"@)
        } else {
            None
        }
    }

    /// The address of the list of files to install.
    pub open spec fn install_url(self) -> Option<Seq<char>> {
        if self.asks_server() {
            Some("http://"@ + self.server_info_addr() + "/install"@)
        } else {
            None
        }
    }
}

/// The address at which the profile's server lists its published versions;
/// `None` for a profile that has no server to ask.
pub fn versions_url(profile: &Profile) -> (r: Option<String>)
    ensures
        r.deep_view() == profile@.versions_url(),
{
    if profile.is_retail || profile.server.is_none() {
        return None;
    }
    let addr = profile.get_server_info_addr();
    Some("http://".to_owned().concat(addr.as_str()).concat("/versions"))
}

/// The address at which the profile's server lists the files to install;
/// `None` for a profile that has no server to ask.
pub fn install_url(profile: &Profile) -> (r: Option<String>)
    ensures
        r.deep_view() == profile@.install_url(),
{
    if profile.is_retail || profile.server.is_none() {
        return None;
    }
    let addr = profile.get_server_info_addr();
    Some("http://".to_owned().concat(addr.as_str()).concat("/install"))
}

} // verus!
