use vstd::prelude::*;

verus! {

/// The model of an optional piece of text.
pub open spec fn opt_text_view(t: Option<String>) -> Option<Seq<char>> {
    match t {
        Some(s) => Some(s@),
        None => None,
    }
}

/// Description of a release found by the version source.
pub struct UpdateInfo {
    /// Version of the candidate release.
    pub version: String,
    /// Version of the running application.
    pub current_version: String,
    /// Release notes, when the source gives them.
    pub body: Option<String>,
    /// Release date in the source's own notation, opaque here.
    pub date: Option<String>,
    /// Advertised size of the artifact in bytes, when the source gives it.
    pub download_size: Option<u64>,
}

/// Abstract value of an [`UpdateInfo`].
pub ghost struct UpdateInfoView {
    pub version: Seq<char>,
    pub current_version: Seq<char>,
    pub body: Option<Seq<char>>,
    pub date: Option<Seq<char>>,
    pub download_size: Option<u64>,
}

impl UpdateInfoView {
    /// A release is a real update only when it names another version than the running one.
    pub open spec fn is_newer_release(self) -> bool {
        self.version != self.current_version
    }
}

impl View for UpdateInfo {
    type V = UpdateInfoView;

    open spec fn view(&self) -> UpdateInfoView {
        UpdateInfoView {
            version: self.version@,
            current_version: self.current_version@,
            body: opt_text_view(self.body),
            date: opt_text_view(self.date),
            download_size: self.download_size,
        }
    }
}

fn clone_opt_text(t: &Option<String>) -> (r: Option<String>)
    ensures
        opt_text_view(r) == opt_text_view(*t),
{
    match t {
        Some(s) => Some(s.clone()),
        None => None,
    }
}

impl UpdateInfo {
    /// Builds the description of a release.
    pub fn new(
        version: String,
        current_version: String,
        body: Option<String>,
        date: Option<String>,
        download_size: Option<u64>,
    ) -> (r: UpdateInfo)
        ensures
            r@ == (UpdateInfoView {
                version: version@,
                current_version: current_version@,
                body: opt_text_view(body),
                date: opt_text_view(date),
                download_size,
            }),
    {
        UpdateInfo { version, current_version, body, date, download_size }
    }

    /// A copy with the same abstract value.
    pub fn duplicate(&self) -> (r: UpdateInfo)
        ensures
            r@ == self@,
    {
        UpdateInfo {
            version: self.version.clone(),
            current_version: self.current_version.clone(),
            body: clone_opt_text(&self.body),
            date: clone_opt_text(&self.date),
            download_size: self.download_size,
        }
    }

    /// True when the release names a version other than the running one.
    pub fn is_newer_release(&self) -> (r: bool)
        ensures
            r == self@.is_newer_release(),
    {
        !(self.version == self.current_version)
    }
}

} // verus!
