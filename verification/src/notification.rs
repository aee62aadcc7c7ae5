use vstd::prelude::*;
use crate::summary_model::{ArticlesResponse, CategoryView};

verus! {

/// A failure while delivering a notification batch.
#[derive(Debug)]
pub enum NotificationError {
    SendError(String),
}

impl NotificationError {
    /// A readable description of the failure.
    pub fn message(&self) -> (r: String)
        ensures
            self matches NotificationError::SendError(e) ==> r@ == "Notification send error: "@
                + e@,
    {
        match self {
            NotificationError::SendError(e) => {
                let mut m = String::from_str("Notification send error: ");
                m.append(e.as_str());
                m
            },
        }
    }
}

/// One name/value pair inside a notification.
pub struct NotificationField {
    pub name: String,
    pub value: String,
}

/// Ghost image of a [`NotificationField`].
pub ghost struct NotificationFieldView {
    pub name: Seq<char>,
    pub value: Seq<char>,
}

impl View for NotificationField {
    type V = NotificationFieldView;

    open spec fn view(&self) -> NotificationFieldView {
        NotificationFieldView { name: self.name@, value: self.value@ }
    }
}

/// One deliverable message: a title and one field per article.
pub struct Notification {
    pub title: String,
    pub fields: Vec<NotificationField>,
}

/// Ghost image of a [`Notification`].
pub ghost struct NotificationView {
    pub title: Seq<char>,
    pub fields: Seq<NotificationFieldView>,
}

impl View for Notification {
    type V = NotificationView;

    open spec fn view(&self) -> NotificationView {
        NotificationView {
            title: self.title@,
            fields: self.fields@.map_values(|f: NotificationField| f@),
        }
    }
}

/// A destination for notification batches; hosts implement it for their transport.
pub trait NotificationService {
    /// Delivers a batch of notifications.
    fn send_notifications(&self, notifications: Vec<Notification>) -> Result<(), NotificationError>;
}

/// The fixed call-to-action label placed inside each field's markdown link.
pub open spec fn link_label() -> Seq<char> {
    "この記事を読む"@
}

/// The text of one notification field: the article's description, a line
/// break, and a markdown link around the article's address.
pub open spec fn field_value_spec(description: Seq<char>, link: Seq<char>) -> Seq<char> {
    description + "\n["@ + link_label() + "]("@ + link + ")"@
}

/// The field a single article becomes.
pub open spec fn field_view_of(a: crate::summary_model::ArticleView) -> NotificationFieldView {
    NotificationFieldView { name: a.title, value: field_value_spec(a.description, a.link) }
}

/// The notification a single category becomes.
pub open spec fn notification_view_of(c: CategoryView) -> NotificationView {
    NotificationView { title: c.name, fields: c.details.articles.map_values(|a: crate::summary_model::ArticleView| field_view_of(a)) }
}

/// The whole notification list a summary becomes, one entry per category.
pub open spec fn notifications_of(categories: Seq<CategoryView>) -> Seq<NotificationView> {
    categories.map_values(|c: CategoryView| notification_view_of(c))
}

/// Builds the text of one notification field.
fn field_value(description: &String, link: &String) -> (r: String)
    ensures
        r@ == field_value_spec(description@, link@),
{
    let mut s = description.clone();
    s.append("\n[");
    s.append("この記事を読む");
    s.append("](");
    s.append(link.as_str());
    s.append(")");
    proof {
        assert(s@ =~= field_value_spec(description@, link@));
    }
    s
}

/// Maps a structured summary to its notification list: one notification per
/// category, titled with the category's name, holding one field per article
/// in the articles' original order.
pub fn create_notifications(articles_response: &ArticlesResponse) -> (r: Vec<Notification>)
    ensures
        r@.map_values(|n: Notification| n@) == notifications_of(articles_response@.data.summary),
{
    let mut out: Vec<Notification> = Vec::new();
    let categories = &articles_response.data.summary;
    let ghost cat_views = articles_response@.data.summary;
    for i in 0..categories.len()
        invariant
            cat_views == categories@.map_values(|c: crate::summary_model::Category| c@),
            out@.len() == i,
            forall|k: int| 0 <= k < i ==> #[trigger] out@[k]@ == notification_view_of(cat_views[k]),
    {
        let category = &categories[i];
        let mut fields: Vec<NotificationField> = Vec::new();
        let articles = &category.details.articles;
        let ghost art_views = category@.details.articles;
        for j in 0..articles.len()
            invariant
                art_views == articles@.map_values(|a: crate::summary_model::Article| a@),
                fields@.len() == j,
                forall|k: int| 0 <= k < j ==> #[trigger] fields@[k]@ == field_view_of(art_views[k]),
        {
            let article = &articles[j];
            let value = field_value(&article.description, &article.link);
            fields.push(NotificationField { name: article.title.clone(), value });
        }
        let ghost built_fields = fields@.map_values(|f: NotificationField| f@);
        proof {
            assert(built_fields =~= art_views.map_values(
                |a: crate::summary_model::ArticleView| field_view_of(a),
            ));
        }
        out.push(Notification { title: category.name.clone(), fields });
        proof {
            assert(out@[i as int]@ == notification_view_of(cat_views[i as int]));
        }
    }
    proof {
        assert(out@.map_values(|n: Notification| n@) =~= notifications_of(cat_views));
    }
    out
}

/// A sequence cut down to at most `limit` entries: the first `limit` in their
/// original order when it is longer, the sequence itself otherwise.
pub open spec fn limited_seq<A>(s: Seq<A>, limit: nat) -> Seq<A> {
    if s.len() > limit {
        s.take(limit as int)
    } else {
        s
    }
}

/// A record of one truncation: how many notifications were built and the
/// limit they were cut down to.
pub struct TruncationNote {
    pub original: usize,
    pub limit: usize,
}

/// Truncates a notification list to at most `limit` entries, keeping the
/// first entries in their original order; a list within the limit is
/// returned unchanged. A diagnostic noting the original count and the limit
/// is returned exactly when the list was cut.
pub fn limit_notifications_noted(notifications: Vec<Notification>, limit: usize) -> (r: (
    Vec<Notification>,
    Option<TruncationNote>,
))
    ensures
        r.0@ == limited_seq(notifications@, limit as nat),
        notifications@.len() > limit ==> r.1 == Some(
            TruncationNote { original: notifications@.len() as usize, limit },
        ),
        notifications@.len() <= limit ==> r.1 is None,
{
    if notifications.len() > limit {
        let original = notifications.len();
        let mut out = notifications;
        out.truncate(limit);
        proof {
            assert(out@ =~= limited_seq(out@, limit as nat));
        }
        (out, Some(TruncationNote { original, limit }))
    } else {
        (notifications, None)
    }
}

/// Truncates a notification list to at most `limit` entries, keeping the
/// first entries in their original order; a list within the limit is
/// returned unchanged.
pub fn limit_notifications(notifications: Vec<Notification>, limit: usize) -> (r: Vec<Notification>)
    ensures
        r@ == limited_seq(notifications@, limit as nat),
{
    let (out, _) = limit_notifications_noted(notifications, limit);
    out
}

/// Cutting a list down to a limit is idempotent: a list already within the
/// limit, in particular one the limit has produced, passes through unchanged.
pub proof fn lemma_limited_seq_idempotent<A>(s: Seq<A>, limit: nat)
    ensures
        limited_seq(limited_seq(s, limit), limit) == limited_seq(s, limit),
{
    if s.len() > limit {
        assert(limited_seq(s, limit).len() == limit);
    }
}

/// One notification per category: a summary whose categories each carry one
/// name/details pair yields exactly one notification for each category, and
/// that notification holds exactly one field per article of the category.
pub proof fn lemma_one_notification_per_category(categories: Seq<CategoryView>)
    ensures
        notifications_of(categories).len() == categories.len(),
        forall|i: int|
            0 <= i < categories.len() ==> #[trigger] notifications_of(categories)[i].fields.len()
                == categories[i].details.articles.len(),
        forall|i: int|
            0 <= i < categories.len() ==> #[trigger] notifications_of(categories)[i].title
                == categories[i].name,
{
}

} // verus!
