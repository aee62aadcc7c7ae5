use vstd::prelude::*;
use vstd::string::StringExecFns;
use crate::config::{decoded_config, get_decoded_config, get_gemini_api_url};
use crate::errors::RssSummaryError;
use crate::events::RssEvent;
use crate::extract::{all_texts, extract_summary_from_response, first_parsed};
use crate::gemini_request::GeminiRequest;
use crate::gemini_response::GeminiResponse;
use crate::json_encode::rss_items_json;
use crate::notification::{
    create_notifications, limit_notifications_noted, limited_seq, notifications_of, Notification,
    NotificationError, TruncationNote,
};
use crate::rss_data::RssData;
use crate::summary_model::CategoryView;

verus! {

/// The unified failure taxonomy a pipeline run surfaces: one coarse category
/// per stage.
#[derive(Debug)]
pub enum AppError {
    RssError(String),
    SummaryError(String),
    NotificationError(String),
}

impl AppError {
    /// A readable description of the failure.
    pub fn message(&self) -> (r: String)
        ensures
            self matches AppError::RssError(e) ==> r@ == "RSS error: "@ + e@,
            self matches AppError::SummaryError(e) ==> r@ == "Summary error: "@ + e@,
            self matches AppError::NotificationError(e) ==> r@ == "Notification error: "@ + e@,
    {
        match self {
            AppError::RssError(e) => crate::errors::prefixed("RSS error: ", e.as_str()),
            AppError::SummaryError(e) => crate::errors::prefixed("Summary error: ", e.as_str()),
            AppError::NotificationError(e) => crate::errors::prefixed(
                "Notification error: ",
                e.as_str(),
            ),
        }
    }
}

/// Where a run stands: which stage's outside work is awaited, or how it
/// ended.
pub enum PipelineState {
    Start,
    AwaitingFeed,
    AwaitingSummary,
    AwaitingDelivery { count: usize },
    Completed,
    Failed,
}

/// The outside work the host must perform next, or the run's end.
pub enum PipelineAction {
    /// Fetch the feed at this address and convert its entries.
    Fetch { url: String },
    /// Send this request to the backend at this address.
    Query { url: String, request: GeminiRequest },
    /// Deliver this batch to the sink, logging the note if one is present.
    Deliver { notifications: Vec<Notification>, note: Option<TruncationNote> },
    /// The run is over, with this outcome.
    Stop { outcome: Result<(), AppError> },
}

/// What the host reports back after performing an action; a failure carries
/// the collaborator's own description.
pub enum StageOutcome {
    Fetched(Result<Vec<RssData>, String>),
    Responded(Result<GeminiResponse, String>),
    Delivered(Result<(), String>),
}

/// Whether an outcome answers the action the machine last asked for.
pub open spec fn expects(state: PipelineState, outcome: StageOutcome) -> bool {
    match (state, outcome) {
        (PipelineState::AwaitingFeed, StageOutcome::Fetched(_)) => true,
        (PipelineState::AwaitingSummary, StageOutcome::Responded(_)) => true,
        (PipelineState::AwaitingDelivery { .. }, StageOutcome::Delivered(_)) => true,
        _ => false,
    }
}

/// Whether an action ends the run with the given feed-stage error text.
pub open spec fn stops_with_rss_error(a: PipelineAction, m: Seq<char>) -> bool {
    match a {
        PipelineAction::Stop { outcome } => match outcome {
            Err(e) => match e {
                AppError::RssError(s) => s@ == m,
                _ => false,
            },
            _ => false,
        },
        _ => false,
    }
}

/// Whether an action ends the run with the given summary-stage error text.
pub open spec fn stops_with_summary_error(a: PipelineAction, m: Seq<char>) -> bool {
    match a {
        PipelineAction::Stop { outcome } => match outcome {
            Err(e) => match e {
                AppError::SummaryError(s) => s@ == m,
                _ => false,
            },
            _ => false,
        },
        _ => false,
    }
}

/// Whether an action ends the run with a summary-stage error of any text.
pub open spec fn stops_with_summary_error_any(a: PipelineAction) -> bool {
    match a {
        PipelineAction::Stop { outcome } => match outcome {
            Err(e) => e is SummaryError,
            _ => false,
        },
        _ => false,
    }
}

/// Whether an action ends the run with the given delivery-stage error text.
pub open spec fn stops_with_notification_error(a: PipelineAction, m: Seq<char>) -> bool {
    match a {
        PipelineAction::Stop { outcome } => match outcome {
            Err(e) => match e {
                AppError::NotificationError(s) => s@ == m,
                _ => false,
            },
            _ => false,
        },
        _ => false,
    }
}

/// Whether an action ends the run successfully.
pub open spec fn stops_ok(a: PipelineAction) -> bool {
    match a {
        PipelineAction::Stop { outcome } => outcome is Ok,
        _ => false,
    }
}

/// Whether an action asks the backend at `url` for exactly the text `text`.
pub open spec fn queries_backend(a: PipelineAction, url: Seq<char>, text: Seq<char>) -> bool {
    match a {
        PipelineAction::Query { url: u, request } => u@ == url && request.contents@.len() == 1
            && request.contents@[0].parts@.len() == 1 && request.contents@[0].parts@[0].text@
            == text,
        _ => false,
    }
}

/// Whether an action delivers exactly the bounded notification list the
/// categories yield, with a truncation note exactly when the list was cut.
pub open spec fn delivers(a: PipelineAction, cats: Seq<CategoryView>, limit: nat) -> bool {
    match a {
        PipelineAction::Deliver { notifications, note } => {
            &&& notifications@.map_values(|n: Notification| n@) == limited_seq(
                notifications_of(cats),
                limit,
            )
            &&& (cats.len() > limit ==> note == Some(
                TruncationNote { original: cats.len() as usize, limit: limit as usize },
            ))
            &&& (cats.len() <= limit ==> note is None)
        },
        _ => false,
    }
}

/// The backend request text for a prompt and a feed entry list: the decoded
/// prompt followed by the entries as a JSON array.
pub open spec fn prompt_text(prompt: Seq<char>, items: Seq<crate::rss_data::RssDataView>) -> Seq<
    char,
> {
    prompt + rss_items_json(items)
}

/// Builds the backend request for a decoded prompt and the feed entries:
/// one text fragment holding the prompt followed by the entries as JSON.
pub fn create_gemini_request(prompt: &str, rss_data: &Vec<RssData>) -> (r: GeminiRequest)
    ensures
        r.contents@.len() == 1,
        r.contents@[0].parts@.len() == 1,
        r.contents@[0].parts@[0].text@ == prompt_text(
            prompt@,
            rss_data@.map_values(|d: RssData| d@),
        ),
{
    let json = crate::json_encode::rss_items_to_json(rss_data);
    let mut text = String::from_str(prompt);
    text.append(json.as_str());
    GeminiRequest::new(text)
}

/// One pipeline run: a linear state machine that decides every transition,
/// error mapping and milestone event, while the host performs the outside
/// work each action asks for.
pub struct PipelineMachine {
    pub feed_url: String,
    pub notification_limit: usize,
    pub encoded_prompt: Option<String>,
    pub gemini_api_url: Option<String>,
    pub state: PipelineState,
}

impl PipelineMachine {
    /// A run over the given feed, limit and configuration, not yet begun.
    pub fn new(
        feed_url: String,
        notification_limit: usize,
        encoded_prompt: Option<String>,
        gemini_api_url: Option<String>,
    ) -> (r: Self)
        ensures
            r.feed_url == feed_url,
            r.notification_limit == notification_limit,
            r.encoded_prompt == encoded_prompt,
            r.gemini_api_url == gemini_api_url,
            r.state is Start,
    {
        Self { feed_url, notification_limit, encoded_prompt, gemini_api_url, state: PipelineState::Start }
    }

    /// Starts the run: the host must fetch the configured feed.
    pub fn begin(&mut self) -> (r: PipelineAction)
        requires
            old(self).state is Start,
        ensures
            final(self).state is AwaitingFeed,
            final(self).feed_url == old(self).feed_url,
            final(self).notification_limit == old(self).notification_limit,
            final(self).encoded_prompt == old(self).encoded_prompt,
            final(self).gemini_api_url == old(self).gemini_api_url,
            r matches PipelineAction::Fetch { url } && url == old(self).feed_url,
    {
        self.state = PipelineState::AwaitingFeed;
        PipelineAction::Fetch { url: self.feed_url.clone() }
    }

    /// Advances the run on the outcome of the last action. Returns the next
    /// action and the milestone events the completed stage publishes, in
    /// order; a stage failure ends the run at once, mapped into its coarse
    /// error category, and no later stage is ever asked for.
    pub fn step(&mut self, outcome: StageOutcome) -> (r: (PipelineAction, Vec<RssEvent>))
        requires
            expects(old(self).state, outcome),
        ensures
            final(self).feed_url == old(self).feed_url,
            final(self).notification_limit == old(self).notification_limit,
            final(self).encoded_prompt == old(self).encoded_prompt,
            final(self).gemini_api_url == old(self).gemini_api_url,
            outcome matches StageOutcome::Fetched(fres) ==> (match fres {
                Ok(items) => {
                    &&& r.1@ == seq![
                        RssEvent::FeedFetched {
                            url: old(self).feed_url,
                            item_count: items@.len() as usize,
                        },
                        RssEvent::DataConverted { item_count: items@.len() as usize },
                    ]
                    &&& (old(self).encoded_prompt is None ==> final(self).state is Failed
                        && stops_with_summary_error(r.0, "Summary error: using empty prompt."@))
                    &&& (match old(self).encoded_prompt {
                        Some(enc) => {
                            &&& (decoded_config(enc@) is None ==> final(self).state is Failed
                                && stops_with_summary_error_any(r.0))
                            &&& (match decoded_config(enc@) {
                                Some(prompt) => {
                                    &&& (!url_configured(old(self).gemini_api_url)
                                        ==> final(self).state is Failed
                                        && stops_with_summary_error(
                                        r.0,
                                        "Environment variable error: GEMINI_API_URL is empty"@,
                                    ))
                                    &&& (url_configured(old(self).gemini_api_url)
                                        ==> final(self).state is AwaitingSummary
                                        && queries_backend(
                                        r.0,
                                        old(self).gemini_api_url->0@,
                                        prompt_text(
                                            prompt,
                                            items@.map_values(|d: RssData| d@),
                                        ),
                                    ))
                                },
                                None => true,
                            })
                        },
                        None => true,
                    })
                },
                Err(m) => r.1@.len() == 0 && final(self).state is Failed && stops_with_rss_error(
                    r.0,
                    m@,
                ),
            }),
            outcome matches StageOutcome::Responded(rres) ==> (match rres {
                Ok(response) => (match first_parsed(all_texts(response@.candidates)) {
                    Some(sv) => {
                        &&& r.1@ == seq![
                            RssEvent::SummaryGenerated { article_count: sv.data.total },
                        ]
                        &&& final(self).state matches PipelineState::AwaitingDelivery { count }
                            && count as nat == limited_seq(
                            notifications_of(sv.data.summary),
                            old(self).notification_limit as nat,
                        ).len()
                        &&& delivers(
                            r.0,
                            sv.data.summary,
                            old(self).notification_limit as nat,
                        )
                    },
                    None => r.1@.len() == 0 && final(self).state is Failed
                        && stops_with_summary_error(
                        r.0,
                        "Summary error: Failed to extract summary from response"@,
                    ),
                }),
                Err(m) => r.1@.len() == 0 && final(self).state is Failed
                    && stops_with_summary_error(r.0, "HTTP error: "@ + m@),
            }),
            outcome matches StageOutcome::Delivered(dres) ==> (match dres {
                Ok(_) => {
                    &&& (old(self).state matches PipelineState::AwaitingDelivery { count }
                        ==> r.1@ == seq![RssEvent::NotificationSent { count }])
                    &&& final(self).state is Completed
                    &&& stops_ok(r.0)
                },
                Err(m) => r.1@.len() == 0 && final(self).state is Failed
                    && stops_with_notification_error(r.0, "Notification send error: "@ + m@),
            }),
    {
        match outcome {
            StageOutcome::Fetched(fres) => match fres {
                Ok(items) => {
                    let n = items.len();
                    let mut events: Vec<RssEvent> = Vec::new();
                    events.push(
                        RssEvent::FeedFetched { url: self.feed_url.clone(), item_count: n },
                    );
                    events.push(RssEvent::DataConverted { item_count: n });
                    proof {
                        assert(events@ =~= seq![
                            RssEvent::FeedFetched {
                                url: old(self).feed_url,
                                item_count: n,
                            },
                            RssEvent::DataConverted { item_count: n },
                        ]);
                    }
                    let prompt = match get_decoded_config(self.encoded_prompt.as_ref()) {
                        Ok(Some(p)) => p,
                        Ok(None) => {
                            self.state = PipelineState::Failed;
                            let e = RssSummaryError::SummaryError(
                                String::from_str("using empty prompt."),
                            );
                            proof {
                                reveal_strlit("Summary error: ");
                                reveal_strlit("using empty prompt.");
                                reveal_strlit("Summary error: using empty prompt.");
                                assert("Summary error: "@ + "using empty prompt."@
                                    =~= "Summary error: using empty prompt."@);
                            }
                            return (
                                PipelineAction::Stop {
                                    outcome: Err(AppError::SummaryError(e.message())),
                                },
                                events,
                            );
                        },
                        Err(e) => {
                            self.state = PipelineState::Failed;
                            let act = PipelineAction::Stop {
                                outcome: Err(AppError::SummaryError(e.message())),
                            };
                            proof {
                                assert(decoded_config(old(self).encoded_prompt->0@) is None);
                            }
                            return (act, events);
                        },
                    };
                    let url_opt: Option<String> = match &self.gemini_api_url {
                        None => None,
                        Some(u) => Some(u.clone()),
                    };
                    proof {
                        assert(url_opt == old(self).gemini_api_url);
                    }
                    let url = match get_gemini_api_url(url_opt) {
                        Ok(u) => u,
                        Err(e) => {
                            self.state = PipelineState::Failed;
                            proof {
                                reveal_strlit("Environment variable error: ");
                                reveal_strlit("GEMINI_API_URL is empty");
                                reveal_strlit("Environment variable error: GEMINI_API_URL is empty");
                                assert("Environment variable error: "@ + "GEMINI_API_URL is empty"@
                                    =~= "Environment variable error: GEMINI_API_URL is empty"@);
                                assert(!url_configured(old(self).gemini_api_url));
                            }
                            return (
                                PipelineAction::Stop {
                                    outcome: Err(AppError::SummaryError(e.message())),
                                },
                                events,
                            );
                        },
                    };
                    let request = create_gemini_request(prompt.as_str(), &items);
                    self.state = PipelineState::AwaitingSummary;
                    (PipelineAction::Query { url, request }, events)
                },
                Err(m) => {
                    self.state = PipelineState::Failed;
                    (
                        PipelineAction::Stop { outcome: Err(AppError::RssError(m)) },
                        Vec::new(),
                    )
                },
            },
            StageOutcome::Responded(rres) => match rres {
                Ok(response) => match extract_summary_from_response(&response) {

                    Ok(summary) => {
                        let mut events: Vec<RssEvent> = Vec::new();
                        events.push(
                            RssEvent::SummaryGenerated {
                                article_count: summary.data.total_articles(),
                            },
                        );
                        proof {
                            assert(events@ =~= seq![
                                RssEvent::SummaryGenerated { article_count: summary.data.total },
                            ]);
                        }
                        let built = create_notifications(&summary);
                        let ghost built_map = built@.map_values(|n: Notification| n@);
                        let ghost cats = summary@.data.summary;
                        let (notifications, note) = limit_notifications_noted(
                            built,
                            self.notification_limit,
                        );
                        proof {
                            assert(built_map == notifications_of(cats));
                            assert(built_map.len() == cats.len());
                            assert(notifications@.map_values(|n: Notification| n@) =~= limited_seq(
                                built_map,
                                old(self).notification_limit as nat,
                            ));
                        }
                        let count = notifications.len();
                        self.state = PipelineState::AwaitingDelivery { count };
                        (PipelineAction::Deliver { notifications, note }, events)
                    },
                    Err(e) => {
                        self.state = PipelineState::Failed;
                        proof {
                            reveal_strlit("Summary error: ");
                            reveal_strlit("Failed to extract summary from response");
                            reveal_strlit("Summary error: Failed to extract summary from response");
                            assert("Summary error: "@ + "Failed to extract summary from response"@
                                =~= "Summary error: Failed to extract summary from response"@);
                        }
                        (
                            PipelineAction::Stop {
                                outcome: Err(AppError::SummaryError(e.message())),
                            },
                            Vec::new(),
                        )
                    },
                },
                Err(m) => {
                    self.state = PipelineState::Failed;
                    let he = RssSummaryError::HttpError(m);
                    (
                        PipelineAction::Stop {
                            outcome: Err(AppError::SummaryError(he.message())),
                        },
                        Vec::new(),
                    )
                },
            },
            StageOutcome::Delivered(dres) => {
                let count: usize = match &self.state {
                    PipelineState::AwaitingDelivery { count } => *count,
                    _ => 0,
                };
                match dres {
                    Ok(_) => {
                        let mut events: Vec<RssEvent> = Vec::new();
                        events.push(RssEvent::NotificationSent { count });
                        proof {
                            assert(events@ =~= seq![RssEvent::NotificationSent { count }]);
                        }
                        self.state = PipelineState::Completed;
                        (PipelineAction::Stop { outcome: Ok(()) }, events)
                    },
                    Err(m) => {
                        self.state = PipelineState::Failed;
                        let ne = NotificationError::SendError(m);
                        (
                            PipelineAction::Stop {
                                outcome: Err(AppError::NotificationError(ne.message())),
                            },
                            Vec::new(),
                        )
                    },
                }
            },
        }
    }
}

/// Whether the backend address setting is present and non-empty.
pub open spec fn url_configured(url: Option<String>) -> bool {
    match url {
        None => false,
        Some(u) => u@.len() > 0,
    }
}

} // verus!
