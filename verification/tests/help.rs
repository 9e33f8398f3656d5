use msc_agent::help::{
    CalloutStyle, ChecklistStepBlock, HelpContent, HelpContentBlock, content_error, help_not_found,
    RuntimePorts, parse_topic, read_server_port, runtime_ports, topic_or_not_found,
};

#[test]
fn parses_every_content_block_variant() {
    let topic = parse_topic(
        "---\nid: handbook.fixture\ntitle: Fixture\ncategory: test\nsubtitle: \"A subtitle: with punctuation\"\nanalogy: \"An analogy\"\nrelatedIds: []\n---\nPreamble.\n\n### Body\nA second paragraph.\n\n### Bullet List\n- First\n- Second\n\n### Callout: warning\nBe careful.\n\n### In This App\n- One setting\n\n### Advanced Details\nMore detail.\n\n### Checklist: Phase 1 — Setup\n1. **Install Java** — Use Java 21.\n\n### Table\n| Players | Min RAM | Max RAM |\n|---|---|---|\n| 1–2 players | 2 GB | 4 GB |\n",
        "inline fixture".into(),
    )
    .unwrap();

    assert_eq!(
        topic.subtitle.as_deref(),
        Some("A subtitle: with punctuation")
    );
    assert_eq!(topic.body, "Preamble.");
    assert!(matches!(
        &topic.sections[0],
        HelpContentBlock::Body { markdown } if markdown == "A second paragraph."
    ));
    assert!(matches!(
        &topic.sections[1],
        HelpContentBlock::BulletList { items } if items == &["First", "Second"]
    ));
    assert!(matches!(
        &topic.sections[2],
        HelpContentBlock::Callout { style: CalloutStyle::Warning, text } if text == "Be careful."
    ));
    assert!(matches!(
        &topic.sections[3],
        HelpContentBlock::InApp { items } if items == &["One setting"]
    ));
    assert!(matches!(
        &topic.sections[4],
        HelpContentBlock::Advanced { markdown } if markdown == "More detail."
    ));
    assert!(matches!(
        &topic.sections[5],
        HelpContentBlock::Checklist { phase, steps }
            if phase == "Phase 1 — Setup"
                && steps == &[ChecklistStepBlock {
                    number: 1,
                    title: "Install Java".into(),
                    detail: "Use Java 21.".into(),
                }]
    ));
    assert!(matches!(
        &topic.sections[6],
        HelpContentBlock::Table { headers, rows }
            if headers == &["Players", "Min RAM", "Max RAM"]
                && rows == &[["1–2 players", "2 GB", "4 GB"].map(String::from).to_vec()]
    ));
}

#[test]
fn rejects_an_unrecognized_content_heading() {
    let error = parse_topic(
        "---\nid: handbook.fixture\ntitle: Fixture\ncategory: test\n---\n### Unknown\nText.",
        "inline fixture".into(),
    )
    .unwrap_err();
    assert!(error.contains("unrecognized content heading"));
}

#[test]
fn flat_topic_keeps_its_trimmed_body_and_no_sections() {
    let topic = parse_topic(
        "---\r\nid: bedrock.runtime-unavailable\r\ntitle: Unavailable\r\ncategory: bedrock\r\nrelatedIds: [a, b ,, c]\r\n---\r\n\n  The reason code explains it.  \n",
        "flat".into(),
    )
    .unwrap();
    assert_eq!(topic.body, "The reason code explains it.");
    assert!(topic.sections.is_empty());
    assert!(topic.subtitle.is_none());
    assert_eq!(topic.related_ids, vec!["a", "b", "c"]);
}

#[test]
fn reports_each_front_matter_error() {
    assert_eq!(
        parse_topic("id: x\n", "f.md".into()).unwrap_err(),
        "f.md: missing YAML front matter"
    );
    assert_eq!(
        parse_topic("---\nid: x\n", "f.md".into()).unwrap_err(),
        "f.md: unterminated YAML front matter"
    );
    assert_eq!(
        parse_topic("---\nid x\n---\nbody", "f.md".into()).unwrap_err(),
        "f.md: malformed front-matter line 'id x'"
    );
    assert!(parse_topic("---\nid: \"x\n---\nbody", "f.md".into())
        .unwrap_err()
        .starts_with("f.md: invalid quoted front-matter value: "));
    assert_eq!(
        parse_topic("---\ntitle: T\ncategory: c\n---\nbody", "f.md".into()).unwrap_err(),
        "f.md: missing id"
    );
    assert_eq!(
        parse_topic("---\nid: x\ncategory: c\n---\nbody", "f.md".into()).unwrap_err(),
        "f.md: missing title"
    );
    assert_eq!(
        parse_topic("---\nid: x\ntitle: T\n---\nbody", "f.md".into()).unwrap_err(),
        "f.md: missing category"
    );
}

#[test]
fn reports_each_content_block_error() {
    let head = "---\nid: x\ntitle: T\ncategory: c\n---\n";
    let case = |body: &str| parse_topic(&format!("{head}{body}"), "f.md".into()).unwrap_err();
    assert_eq!(case("### Body\n\n"), "f.md: content heading '### Body' has no content");
    assert_eq!(
        case("### Bullet List\nnot a list\n"),
        "f.md: '### Bullet List' contains a non-list line"
    );
    assert_eq!(
        case("### In This App\n\n"),
        "f.md: list heading '### In This App' has no items"
    );
    assert_eq!(
        case("### Callout: loud\nHey.\n"),
        "f.md: unknown callout style 'loud'"
    );
    assert_eq!(
        case("### Checklist: P\nstep one\n"),
        "f.md: malformed checklist line in '### Checklist: P'"
    );
    assert_eq!(
        case("### Checklist: P\nx. **A** — b\n"),
        "f.md: invalid checklist number 'x'"
    );
    assert_eq!(
        case("### Checklist: P\n1. **** — b\n"),
        "f.md: incomplete checklist line in '### Checklist: P'"
    );
    assert_eq!(
        case("### Checklist: P\n\n"),
        "f.md: checklist heading '### Checklist: P' has no steps"
    );
    assert_eq!(
        case("### Table\n| a |\n|---|\n"),
        "f.md: table needs a header, divider, and row"
    );
    assert_eq!(
        case("### Table\n| a |\n| b |\n| c |\n"),
        "f.md: malformed table divider"
    );
    assert_eq!(
        case("### Table\n| a |\n|---|\n| c | d |\n"),
        "f.md: table row has the wrong number of cells"
    );
    assert_eq!(
        case("### Table\n| a |\n|---|\nc |\n"),
        "f.md: malformed table row"
    );
}

#[test]
fn handbook_rejects_duplicates_and_empty_corpora_and_finds_topics_by_id() {
    let doc = |id: &str| format!("---\nid: {id}\ntitle: Title {id}\ncategory: c\n---\nBody.");
    let docs = vec![
        ("help/b.md".to_string(), doc("b")),
        ("help/readme.txt".to_string(), "not markdown".to_string()),
        ("help/a.md".to_string(), doc("a")),
    ];
    let content = HelpContent::from_documents(&docs).unwrap();
    let catalog = content.catalog();
    let ids: Vec<&str> = catalog.topics.iter().map(|e| e.help_id.as_str()).collect();
    assert_eq!(ids, vec!["a", "b"]);
    assert_eq!(content.topic("b").unwrap().title, "Title b");
    assert!(content.topic("c").is_none());

    let duplicate = vec![
        ("help/a.md".to_string(), doc("a")),
        ("help/again.md".to_string(), doc("a")),
    ];
    assert_eq!(
        HelpContent::from_documents(&duplicate).unwrap_err(),
        "duplicate help id in help/again.md"
    );
    let none = vec![("help/.md".to_string(), doc("a"))];
    assert_eq!(
        HelpContent::from_documents(&none).unwrap_err(),
        "embedded help corpus contains no Markdown topics"
    );
}

#[test]
fn unknown_topics_are_answered_not_found() {
    let doc = "---\nid: a\ntitle: Title a\ncategory: c\n---\nBody.".to_string();
    let content = HelpContent::from_documents(&vec![("help/a.md".to_string(), doc)]).unwrap();
    assert_eq!(topic_or_not_found(&content, "a").unwrap().title, "Title a");
    let e = topic_or_not_found(&content, "b").unwrap_err();
    assert_eq!(e, help_not_found("b"));
    assert_eq!((e.status, e.code.as_str()), (404, "not_found"));
    assert_eq!(e.message, "No help topic named 'b'.");
    let e = content_error("bad corpus");
    assert_eq!((e.status, e.code.as_str(), e.message.as_str()), (500, "content_invalid", "bad corpus"));
}

#[test]
fn guide_ports_come_from_the_server() {
    let props = "motd=x\nserver-port=abc\nserver-port= 25570 \n";
    assert_eq!(read_server_port(Some(props), 25565), 25570);
    assert_eq!(read_server_port(Some("motd=x\n"), 25565), 25565);
    assert_eq!(read_server_port(None, 7), 7);
    assert_eq!(read_server_port(Some("server-port=99999999999\n"), 1), 1);
    let java = runtime_ports(true, false, None, false, Some(props));
    assert_eq!(java, RuntimePorts { java_port: Some(25570), bedrock_port: None, bedrock_enabled: false });
    let geyser = runtime_ports(true, false, Some(19140), false, None);
    assert_eq!(geyser, RuntimePorts { java_port: Some(25565), bedrock_port: Some(19140), bedrock_enabled: true });
    let bedrock = runtime_ports(false, true, None, false, None);
    assert_eq!(bedrock, RuntimePorts { java_port: None, bedrock_port: Some(19132), bedrock_enabled: true });
}
