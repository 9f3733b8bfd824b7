//! Locations of the Antigravity configuration.
//!
//! The directory is chosen from, in order of priority: a user override; on
//! Windows, `%APPDATA%\Antigravity\User\globalStorage`; otherwise
//! `~/.config/Antigravity/User/globalStorage`. The state database is
//! `state.vscdb` inside it.

use vstd::prelude::*;

use crate::error::AppError;
use crate::text::{
    chars_of, is_blank, is_blank_chars, is_white_space, lemma_not_blank, lemma_trim_keeps_unpadded,
    lemma_trim_shape, trim, trim_str,
};

verus! {

/// Where a configuration path starts.
#[derive(Clone, Debug)]
pub enum PathBase {
    /// The directory the user set as an override.
    Override,
    /// The (trimmed) `APPDATA` directory.
    AppData(String),
    /// The user's home directory.
    Home,
}

/// The abstract form of a [`PathBase`].
pub ghost enum PathBaseView {
    Override,
    AppData(Seq<char>),
    Home,
}

impl View for PathBase {
    type V = PathBaseView;

    open spec fn view(&self) -> PathBaseView {
        match self {
            PathBase::Override => PathBaseView::Override,
            PathBase::AppData(dir) => PathBaseView::AppData(dir@),
            PathBase::Home => PathBaseView::Home,
        }
    }
}

/// A path: a base directory and the components joined onto it, in order.
#[derive(Clone, Debug)]
pub struct ConfigPath {
    pub base: PathBase,
    pub components: Vec<String>,
}

impl View for ConfigPath {
    type V = (PathBaseView, Seq<Seq<char>>);

    open spec fn view(&self) -> (PathBaseView, Seq<Seq<char>>) {
        (self.base@, self.components.deep_view())
    }
}

/// The Antigravity configuration directory, given whether the user set an
/// override and, on Windows, the value of `APPDATA`.
pub open spec fn spec_antigravity_dir(has_override: bool, appdata: Option<Seq<char>>) -> (
    PathBaseView,
    Seq<Seq<char>>,
) {
    if has_override {
        (PathBaseView::Override, Seq::empty())
    } else if appdata is Some && !is_blank(appdata->0) {
        (PathBaseView::AppData(trim(appdata->0)), seq!["Antigravity"@, "User"@, "globalStorage"@])
    } else {
        (PathBaseView::Home, seq![".config"@, "Antigravity"@, "User"@, "globalStorage"@])
    }
}

/// The Antigravity state database file.
pub open spec fn spec_antigravity_state_db_path(
    has_override: bool,
    appdata: Option<Seq<char>>,
) -> (PathBaseView, Seq<Seq<char>>) {
    let dir = spec_antigravity_dir(has_override, appdata);
    (dir.0, dir.1.push("state.vscdb"@))
}

/// Pushes a component onto a list of components.
fn push_component(components: &mut Vec<String>, c: &str)
    ensures
        final(components).deep_view() == old(components).deep_view().push(c@),
{
    components.push(c.to_owned());
    assert(final(components).deep_view() =~= old(components).deep_view().push(c@));
}

/// The Antigravity configuration directory.
///
/// `has_override` says whether the user set a directory in the settings (it
/// wins over everything else); `windows_appdata` is the value of `APPDATA`
/// on Windows and `None` elsewhere.
pub fn get_antigravity_dir(has_override: bool, windows_appdata: Option<&str>) -> (d: ConfigPath)
    ensures
        d@ == spec_antigravity_dir(has_override, windows_appdata.deep_view()),
{
    let mut components: Vec<String> = Vec::new();
    assert(components.deep_view() =~= Seq::<Seq<char>>::empty());
    if has_override {
        return ConfigPath { base: PathBase::Override, components };
    }
    if let Some(appdata) = windows_appdata {
        let chars = chars_of(appdata);
        if !is_blank_chars(chars.as_slice()) {
            let trimmed = trim_str(appdata);
            push_component(&mut components, "Antigravity");
            push_component(&mut components, "User");
            push_component(&mut components, "globalStorage");
            return ConfigPath { base: PathBase::AppData(trimmed.to_owned()), components };
        }
    }
    push_component(&mut components, ".config");
    push_component(&mut components, "Antigravity");
    push_component(&mut components, "User");
    push_component(&mut components, "globalStorage");
    ConfigPath { base: PathBase::Home, components }
}

/// Path to the Antigravity state database file (`state.vscdb` in the
/// configuration directory).
pub fn get_antigravity_state_db_path(has_override: bool, windows_appdata: Option<&str>) -> (p:
    ConfigPath)
    ensures
        p@ == spec_antigravity_state_db_path(has_override, windows_appdata.deep_view()),
{
    let mut dir = get_antigravity_dir(has_override, windows_appdata);
    push_component(&mut dir.components, "state.vscdb");
    dir
}

/// The error for a missing state database.
pub open spec fn is_state_db_missing_error(e: AppError) -> bool {
    e matches AppError::Localized { key, zh, en } && key@ == "antigravity.state.missing"@ && zh@
        == "Antigravity 配置文件不存在：state.vscdb"@ && en@
        == "Antigravity configuration file missing: state.vscdb"@
}

/// Reading the state database requires it to exist: `Ok` when it does,
/// otherwise the localized "missing" error.
pub fn require_state_db_exists(exists: bool) -> (r: Result<(), AppError>)
    ensures
        r is Ok <==> exists,
        r matches Err(e) ==> is_state_db_missing_error(e),
{
    if exists {
        Ok(())
    } else {
        Err(
            AppError::localized(
                "antigravity.state.missing",
                "Antigravity 配置文件不存在：state.vscdb",
                "Antigravity configuration file missing: state.vscdb",
            ),
        )
    }
}

/// For every input, the state database path is the configuration directory
/// with `state.vscdb` appended.
pub proof fn lemma_state_db_path_is_in_dir(has_override: bool, appdata: Option<Seq<char>>)
    ensures
        spec_antigravity_state_db_path(has_override, appdata).0 == spec_antigravity_dir(
            has_override,
            appdata,
        ).0,
        spec_antigravity_state_db_path(has_override, appdata).1 == spec_antigravity_dir(
            has_override,
            appdata,
        ).1.push("state.vscdb"@),
{
}

/// A user override wins whatever `APPDATA` holds: the directory is the
/// override itself and the database is `state.vscdb` directly inside it.
pub proof fn lemma_override_wins(appdata: Option<Seq<char>>)
    ensures
        spec_antigravity_dir(true, appdata) == (PathBaseView::Override, Seq::<Seq<char>>::empty()),
        spec_antigravity_state_db_path(true, appdata) == (
            PathBaseView::Override,
            seq!["state.vscdb"@],
        ),
{
    assert(Seq::<Seq<char>>::empty().push("state.vscdb"@) =~= seq!["state.vscdb"@]);
}

/// Without an override, an `APPDATA` holding some non-white-space character
/// gives `APPDATA\Antigravity\User\globalStorage`, where the base is
/// `APPDATA` with only its leading and trailing white space removed: a
/// range `lo..hi` of it outside which everything is white space and whose
/// first and last characters are not (interior characters are kept).
pub proof fn lemma_appdata_base_is_trimmed(appdata: Seq<char>, i: int)
    requires
        0 <= i < appdata.len(),
        !is_white_space(appdata[i]),
    ensures
        spec_antigravity_dir(false, Some(appdata)).1 == seq![
            "Antigravity"@,
            "User"@,
            "globalStorage"@,
        ],
        exists|lo: int, hi: int|
            {
                &&& 0 <= lo < hi <= appdata.len()
                &&& spec_antigravity_dir(false, Some(appdata)).0 == PathBaseView::AppData(
                    appdata.subrange(lo, hi),
                )
                &&& forall|j: int| 0 <= j < lo ==> is_white_space(#[trigger] appdata[j])
                &&& forall|j: int| hi <= j < appdata.len() ==> is_white_space(#[trigger] appdata[j])
                &&& !is_white_space(appdata[lo])
                &&& !is_white_space(appdata[hi - 1])
            },
{
    lemma_not_blank(appdata, i);
    let r = lemma_trim_shape(appdata);
    assert(r.0 < r.1);
}

/// Without an override, an `APPDATA` that neither starts nor ends with white
/// space is used exactly as it is.
pub proof fn lemma_unpadded_appdata_is_kept(appdata: Seq<char>)
    requires
        appdata.len() > 0,
        !is_white_space(appdata[0]),
        !is_white_space(appdata.last()),
    ensures
        spec_antigravity_dir(false, Some(appdata)).0 == PathBaseView::AppData(appdata),
{
    lemma_not_blank(appdata, 0);
    lemma_trim_keeps_unpadded(appdata);
}

/// Without an override, a missing `APPDATA` or one made only of white space
/// gives `~/.config/Antigravity/User/globalStorage`.
pub proof fn lemma_home_fallback(appdata: Option<Seq<char>>)
    requires
        appdata matches Some(a) ==> forall|j: int| 0 <= j < a.len() ==> is_white_space(#[trigger] a[j]),
    ensures
        spec_antigravity_dir(false, appdata) == (
            PathBaseView::Home,
            seq![".config"@, "Antigravity"@, "User"@, "globalStorage"@],
        ),
{
    if let Some(a) = appdata {
        let r = lemma_trim_shape(a);
        if r.0 < r.1 {
            assert(is_white_space(a[r.0]));
        }
        assert(trim(a).len() == 0);
    }
}

} // verus!
