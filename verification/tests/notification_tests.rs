use rss_read_kun::{
    create_notifications, limit_notifications, limit_notifications_noted, to_discord_data,
    to_post_data, to_post_data_noted, Article, ArticlesData, ArticlesResponse, Category,
    CategoryDetails, Notification, NotificationError, NotificationField, TruncationNote,
};

fn article(title: &str, description: &str, link: &str) -> Article {
    Article {
        title: title.to_string(),
        description: description.to_string(),
        link: link.to_string(),
    }
}

fn category(name: &str, articles: Vec<Article>) -> Category {
    Category {
        name: name.to_string(),
        details: CategoryDetails { category_count: None, articles },
    }
}

fn summary_of(categories: Vec<Category>, total: usize) -> ArticlesResponse {
    ArticlesResponse {
        message: "ok".to_string(),
        data: ArticlesData { total, summary: categories },
    }
}

fn numbered_notifications(n: usize) -> Vec<Notification> {
    (0..n)
        .map(|i| Notification {
            title: format!("t{}", i),
            fields: Vec::new(),
        })
        .collect()
}

#[test]
fn field_value_has_description_newline_and_link() {
    let summary = summary_of(
        vec![category("tech", vec![article("A", "summary of A", "https://example.com/a")])],
        1,
    );
    let notifications = create_notifications(&summary);
    assert_eq!(notifications.len(), 1);
    assert_eq!(notifications[0].title, "tech");
    assert_eq!(notifications[0].fields.len(), 1);
    assert_eq!(notifications[0].fields[0].name, "A");
    assert_eq!(
        notifications[0].fields[0].value,
        "summary of A\n[この記事を読む](https://example.com/a)"
    );
}

#[test]
fn one_notification_per_category_with_matching_field_counts() {
    let summary = summary_of(
        vec![
            category("a", vec![article("a1", "d", "l")]),
            category("b", vec![article("b1", "d", "l"), article("b2", "d", "l")]),
            category(
                "c",
                vec![
                    article("c1", "d", "l"),
                    article("c2", "d", "l"),
                    article("c3", "d", "l"),
                ],
            ),
        ],
        6,
    );
    let notifications = create_notifications(&summary);
    assert_eq!(notifications.len(), 3);
    assert_eq!(notifications[0].title, "a");
    assert_eq!(notifications[1].title, "b");
    assert_eq!(notifications[2].title, "c");
    assert_eq!(notifications[0].fields.len(), 1);
    assert_eq!(notifications[1].fields.len(), 2);
    assert_eq!(notifications[2].fields.len(), 3);
    assert_eq!(notifications[1].fields[1].name, "b2");
}

#[test]
fn fields_keep_article_order() {
    let summary = summary_of(
        vec![category(
            "news",
            vec![
                article("first", "d1", "l1"),
                article("second", "d2", "l2"),
                article("third", "d3", "l3"),
            ],
        )],
        3,
    );
    let notifications = create_notifications(&summary);
    let names: Vec<&str> = notifications[0].fields.iter().map(|f| f.name.as_str()).collect();
    assert_eq!(names, vec!["first", "second", "third"]);
}

#[test]
fn limit_truncates_to_first_entries_in_order() {
    let out = limit_notifications(numbered_notifications(5), 3);
    assert_eq!(out.len(), 3);
    assert_eq!(out[0].title, "t0");
    assert_eq!(out[1].title, "t1");
    assert_eq!(out[2].title, "t2");
}

#[test]
fn limit_leaves_short_list_unchanged() {
    let out = limit_notifications(numbered_notifications(3), 3);
    assert_eq!(out.len(), 3);
    let out = limit_notifications(out, 10);
    assert_eq!(out.len(), 3);
    assert_eq!(out[2].title, "t2");
}

#[test]
fn limit_is_idempotent() {
    let once = limit_notifications(numbered_notifications(9), 4);
    let titles_once: Vec<String> = once.iter().map(|n| n.title.clone()).collect();
    let twice = limit_notifications(once, 4);
    let titles_twice: Vec<String> = twice.iter().map(|n| n.title.clone()).collect();
    assert_eq!(titles_once, titles_twice);
}

#[test]
fn limit_records_note_exactly_when_truncating() {
    let (out, note) = limit_notifications_noted(numbered_notifications(14), 10);
    assert_eq!(out.len(), 10);
    assert!(matches!(note, Some(TruncationNote { original: 14, limit: 10 })));

    let (out, note) = limit_notifications_noted(numbered_notifications(10), 10);
    assert_eq!(out.len(), 10);
    assert!(note.is_none());
}

#[test]
fn notification_error_message_is_prefixed() {
    let e = NotificationError::SendError("timeout".to_string());
    assert_eq!(e.message(), "Notification send error: timeout");
}

#[test]
fn to_discord_data_keeps_titles_and_fields() {
    let notifications = vec![
        Notification {
            title: "x".to_string(),
            fields: vec![NotificationField { name: "n".to_string(), value: "v".to_string() }],
        },
        Notification { title: "y".to_string(), fields: Vec::new() },
    ];
    let data = to_discord_data(notifications);
    assert_eq!(data.embeds.len(), 2);
    assert_eq!(data.embeds[0].title, "x");
    assert_eq!(data.embeds[0].fields.len(), 1);
    assert_eq!(data.embeds[0].fields[0].name, "n");
    assert_eq!(data.embeds[0].fields[0].value, "v");
    assert_eq!(data.embeds[1].title, "y");
}

#[test]
fn to_discord_data_caps_at_ten_embeds() {
    let data = to_discord_data(numbered_notifications(14));
    assert_eq!(data.embeds.len(), 10);
    assert_eq!(data.embeds[0].title, "t0");
    assert_eq!(data.embeds[9].title, "t9");
}

#[test]
fn to_post_data_builds_and_caps_embeds() {
    let categories: Vec<Category> = (0..14)
        .map(|i| {
            category(
                &format!("cat{}", i),
                vec![article(&format!("a{}", i), "d", "https://e/x")],
            )
        })
        .collect();
    let summary = summary_of(categories, 14);
    let data = to_post_data(&summary);
    assert_eq!(data.embeds.len(), 10);
    assert_eq!(data.embeds[0].title, "cat0");
    assert_eq!(data.embeds[9].title, "cat9");
    assert_eq!(data.embeds[0].fields[0].value, "d\n[この記事を読む](https://e/x)");
}

#[test]
fn to_post_data_noted_records_the_cut() {
    let many: Vec<Category> = (0..14)
        .map(|i| category(&format!("c{}", i), vec![article("t", "d", "l")]))
        .collect();
    let (data, note) = to_post_data_noted(&summary_of(many, 14));
    assert_eq!(data.embeds.len(), 10);
    assert!(matches!(note, Some(TruncationNote { original: 14, limit: 10 })));

    let few: Vec<Category> = (0..3)
        .map(|i| category(&format!("c{}", i), vec![article("t", "d", "l")]))
        .collect();
    let (data, note) = to_post_data_noted(&summary_of(few, 3));
    assert_eq!(data.embeds.len(), 3);
    assert!(note.is_none());
}
