use vstd::prelude::*;
use crate::notification::{
    limited_seq, notifications_of, Notification, NotificationFieldView, NotificationView,
    TruncationNote,
};
use crate::summary_model::ArticlesResponse;

verus! {

/// The hard downstream platform limit on entries per outbound payload.
pub const EMBED_LIMIT: usize = 10;

/// One name/value pair of an outbound payload entry.
pub struct EmbedField {
    pub name: String,
    pub value: String,
}

impl View for EmbedField {
    type V = NotificationFieldView;

    open spec fn view(&self) -> NotificationFieldView {
        NotificationFieldView { name: self.name@, value: self.value@ }
    }
}

/// One entry of the outbound payload: a title and its fields.
pub struct Embed {
    pub title: String,
    pub fields: Vec<EmbedField>,
}

impl View for Embed {
    type V = NotificationView;

    open spec fn view(&self) -> NotificationView {
        NotificationView {
            title: self.title@,
            fields: self.fields@.map_values(|f: EmbedField| f@),
        }
    }
}

/// The outbound payload: a bounded list of embeds.
pub struct EmbedData {
    pub embeds: Vec<Embed>,
}

impl View for EmbedData {
    type V = Seq<NotificationView>;

    open spec fn view(&self) -> Seq<NotificationView> {
        self.embeds@.map_values(|e: Embed| e@)
    }
}

/// Recasts a notification list as an outbound payload, cut down to the
/// platform limit: the first entries in their original order.
pub fn to_discord_data(notifications: Vec<Notification>) -> (r: EmbedData)
    ensures
        r@ == limited_seq(notifications@.map_values(|n: Notification| n@), EMBED_LIMIT as nat),
{
    let mut embeds: Vec<Embed> = Vec::new();
    let n = notifications.len();
    let bound = if n > EMBED_LIMIT {
        EMBED_LIMIT
    } else {
        n
    };
    for i in 0..bound
        invariant
            bound <= notifications@.len(),
            embeds@.len() == i,
            forall|k: int| 0 <= k < i ==> #[trigger] embeds@[k]@ == notifications@[k]@,
    {
        let source = &notifications[i];
        let mut fields: Vec<EmbedField> = Vec::new();
        for j in 0..source.fields.len()
            invariant
                fields@.len() == j,
                forall|k: int| 0 <= k < j ==> #[trigger] fields@[k]@ == source.fields@[k]@,
        {
            let f = &source.fields[j];
            fields.push(EmbedField { name: f.name.clone(), value: f.value.clone() });
        }
        proof {
            assert(fields@.map_values(|f: EmbedField| f@) =~= source.fields@.map_values(
                |f: crate::notification::NotificationField| f@,
            ));
        }
        embeds.push(Embed { title: source.title.clone(), fields });
        proof {
            assert(embeds@[i as int]@ == notifications@[i as int]@);
        }
    }
    let r = EmbedData { embeds };
    proof {
        assert(r@ =~= limited_seq(
            notifications@.map_values(|n: Notification| n@),
            EMBED_LIMIT as nat,
        ));
    }
    r
}

/// Maps a structured summary straight to the outbound payload: one embed per
/// category, cut down to the platform limit. A diagnostic noting how many
/// embeds were built and the limit they were cut to is returned exactly when
/// the payload was cut.
pub fn to_post_data_noted(articles_response: &ArticlesResponse) -> (r: (
    EmbedData,
    Option<TruncationNote>,
))
    ensures
        r.0@ == limited_seq(notifications_of(articles_response@.data.summary), EMBED_LIMIT as nat),
        notifications_of(articles_response@.data.summary).len() > EMBED_LIMIT ==> r.1 == Some(
            TruncationNote {
                original: notifications_of(articles_response@.data.summary).len() as usize,
                limit: EMBED_LIMIT,
            },
        ),
        notifications_of(articles_response@.data.summary).len() <= EMBED_LIMIT ==> r.1 is None,
{
    let notifications = crate::notification::create_notifications(articles_response);
    let original = notifications.len();
    let data = to_discord_data(notifications);
    if original > EMBED_LIMIT {
        (data, Some(TruncationNote { original, limit: EMBED_LIMIT }))
    } else {
        (data, None)
    }
}

/// Maps a structured summary straight to the outbound payload: one embed per
/// category, cut down to the platform limit.
pub fn to_post_data(articles_response: &ArticlesResponse) -> (r: EmbedData)
    ensures
        r@ == limited_seq(notifications_of(articles_response@.data.summary), EMBED_LIMIT as nat),
{
    let (data, _) = to_post_data_noted(articles_response);
    data
}

} // verus!
