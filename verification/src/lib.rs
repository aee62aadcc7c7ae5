mod ai_service;
mod config;
mod events;
mod embed;
mod errors;
mod extract;
pub mod gemini_request;
pub mod gemini_response;
mod json;
mod json_encode;
mod notification;
mod pipeline;
mod rss_data;
mod summary_model;
mod text;

pub use embed::{
    to_discord_data, to_post_data, to_post_data_noted, Embed, EmbedData, EmbedField, EMBED_LIMIT,
};
pub use ai_service::{gemini_request_for, AiRequest, AiResponse, AiService};
pub use config::{get_decoded_config, get_gemini_api_url};
pub use events::{
    EventPublisher, EventSubscriber, InMemoryEventPublisher, LoggingEventSubscriber, RssEvent,
};
pub use errors::{AiServiceError, RssRepositoryError, RssSummaryError};
pub use extract::{
    extract_first_parsable, extract_summary_from_response, extract_text_from_response,
    lemma_first_parsed_first_wins, lemma_first_parsed_none, parse_json_response,
    try_parse_summary,
};
pub use gemini_request::GeminiRequest;
pub use gemini_response::GeminiResponse;
pub use json::parse_json;
pub use json_encode::rss_items_to_json;
pub use notification::{
    create_notifications, limit_notifications, limit_notifications_noted, Notification, NotificationError, NotificationField,
    NotificationService, TruncationNote,
};
pub use pipeline::{
    create_gemini_request, AppError, PipelineAction, PipelineMachine, PipelineState, StageOutcome,
};
pub use rss_data::RssData;
pub use summary_model::{Article, ArticlesData, ArticlesResponse, Category, CategoryDetails};
pub use text::strip_code_fences;
