use vstd::prelude::*;

verus! {

/// One entry of a syndicated feed; every field may be absent.
pub struct RssData {
    pub title: Option<String>,
    pub description: Option<String>,
    pub link: Option<String>,
}

/// Ghost image of an [`RssData`], with every present string replaced by its
/// view.
pub ghost struct RssDataView {
    pub title: Option<Seq<char>>,
    pub description: Option<Seq<char>>,
    pub link: Option<Seq<char>>,
}

/// The view of an optional string.
pub open spec fn opt_view(s: Option<String>) -> Option<Seq<char>> {
    match s {
        None => None,
        Some(t) => Some(t@),
    }
}

impl View for RssData {
    type V = RssDataView;

    open spec fn view(&self) -> RssDataView {
        RssDataView {
            title: opt_view(self.title),
            description: opt_view(self.description),
            link: opt_view(self.link),
        }
    }
}

impl RssData {
    /// Packs the three optional fields of a feed entry.
    pub fn new(title: Option<String>, description: Option<String>, link: Option<String>) -> (r:
        Self)
        ensures
            r.title == title,
            r.description == description,
            r.link == link,
    {
        Self { title, description, link }
    }

    /// A feed entry carries information only when at least one field is present.
    pub fn is_valid(&self) -> (r: bool)
        ensures
            r == (self.title is Some || self.description is Some || self.link is Some),
    {
        self.title.is_some() || self.description.is_some() || self.link.is_some()
    }
}

} // verus!
