use paperscraper::agent::{
    collect_outcomes, merge_completion, merge_output, AgentError, BedrockText, EnrichError,
    ModelInput, ModelMessage, ModelOutput, ModelResponse, ModelUsage, PROMPT,
};
use paperscraper::config::{ArxivConfig, Config, NameConfig};
use paperscraper::format::Formatter;
use paperscraper::harvest::{HarvestLoop, HarvestState};
use paperscraper::model::{ArxivResult, ProcessedResult};
use paperscraper::parser::{build_query_url, ArxivParser};
use paperscraper::storage::{jsonl_document, StorageError};
use paperscraper::text::{signed_text, unsigned_text};
use paperscraper::time::UtcTime;
use paperscraper::utils::LocalSaver;
use paperscraper::xml::{
    decode_document, decode_tokens, resolve_entity, trim_xml_text, ArxivDocument, ArxivEntry,
    LinkField, LinkType, XmlDecoder, XmlToken,
};

fn cats() -> Vec<String> {
    vec!["cs.CL".to_string(), "cs.AI".to_string(), "cs.LG".to_string(), "cs.MA".to_string()]
}

fn entry_xml(n: usize) -> String {
    format!(
        "<entry><id>http://arxiv.org/abs/{n}</id><published>2024-12-30T10:00:00Z</published>\
         <title>Paper {n}</title><summary>Summary {n}</summary>\
         <author><name>Author {n}</name></author>\
         <link href=\"http://arxiv.org/abs/{n}\" rel=\"alternate\" type=\"text/html\"/></entry>"
    )
}

fn feed_of(entries: &[usize]) -> String {
    let mut s = String::from("<?xml version=\"1.0\" encoding=\"UTF-8\"?>\n<feed xmlns=\"http://www.w3.org/2005/Atom\"><title>q</title>");
    for n in entries {
        s.push_str(&entry_xml(*n));
    }
    s.push_str("</feed>");
    s
}

const TWO_ENTRIES: &str = "<?xml version=\"1.0\" encoding=\"UTF-8\"?>
<feed xmlns=\"http://www.w3.org/2005/Atom\">
  <link href=\"http://arxiv.org/api/query\" rel=\"self\" type=\"application/atom+xml\"/>
  <title type=\"html\">ArXiv Query</title>
  <entry>
    <id>http://arxiv.org/abs/2412.00001v1</id>
    <published>2024-12-30T10:00:00Z</published>
    <title>First
      Paper</title>
    <summary>  Line one.
 Line two &amp; more.
</summary>
    <author>
      <name>Alice A</name>
    </author>
    <author>
      <name>Bob B</name>
      <arxiv:affiliation xmlns:arxiv=\"http://arxiv.org/schemas/atom\">Somewhere</arxiv:affiliation>
    </author>
    <link title=\"pdf\" href=\"http://arxiv.org/pdf/2412.00001v1\" rel=\"related\" type=\"application/pdf\"/>
    <link href=\"http://arxiv.org/abs/2412.00001v1\" rel=\"alternate\" type=\"text/html\"/>
    <link title=\"doi\" href=\"http://dx.doi.org/10.1/x\" rel=\"related\" type=\"application/x-other\"/>
  </entry>
  <entry>
    <id>http://arxiv.org/abs/2412.00002v1</id>
    <published>not a date</published>
    <title>Second</title>
    <summary>S</summary>
    <author><name>Carol C</name></author>
    <author><name>Dan D</name></author>
    <link href=\"http://arxiv.org/abs/2412.00002v1\" rel=\"alternate\" type=\"text/html\"/>
    <link title=\"pdf\" href=\"http://arxiv.org/pdf/2412.00002v1\" rel=\"related\" type=\"application/pdf\"/>
    <link title=\"doi\" href=\"http://dx.doi.org/10.1/y\" rel=\"related\"/>
  </entry>
</feed>
";

fn record(id: usize, summary: &str) -> ArxivResult {
    ArxivResult::new(
        id,
        format!("Title {id}"),
        summary.to_string(),
        vec!["A".to_string()],
        UtcTime::epoch(),
        String::new(),
    )
}

#[test]
fn query_window_is_the_day_before_the_offset() {
    let now = UtcTime::from_unix(1_735_689_601, 0).unwrap();
    let parser = ArxivParser::from_config(ArxivConfig::new(50, 10, 1, cats()));
    let url = parser.create_query_url(now, 0);
    assert!(url.contains("submittedDate:[202412300000+TO+202412310000]"));
    assert!(url.ends_with("&start=0&max_results=50"));
    let again = parser.create_query_url(now, 0);
    assert_eq!(url, again);
    let later = parser.create_query_url(now, 100);
    assert!(later.ends_with("&start=100&max_results=50"));
}

#[test]
fn query_from_parts() {
    let url = build_query_url(&vec!["cs.AI".to_string()], "20240101", "20240102", 0, 5);
    assert_eq!(
        url,
        "https://export.arxiv.org/api/query/?search_query=%28cat:cs.AI%29+AND+submittedDate:[202401010000+TO+202401020000]&start=0&max_results=5"
    );
    let none = build_query_url(&vec![], "20240101", "20240102", -3, -1);
    assert!(none.contains("%28%29"));
    assert!(none.ends_with("&start=-3&max_results=-1"));
}

#[test]
fn decoder_keeps_every_author_and_link() {
    let doc = decode_document(TWO_ENTRIES).expect("decodes");
    assert_eq!(doc.entries.len(), 2);
    for e in &doc.entries {
        assert_eq!(e.authors.len(), 2);
        assert_eq!(e.links.len(), 3);
    }
    let first = &doc.entries[0];
    assert_eq!(first.authors, vec!["Alice A".to_string(), "Bob B".to_string()]);
    assert_eq!(first.links[0].link_type, Some(LinkType::Pdf));
    assert_eq!(first.links[1].link_type, Some(LinkType::Home));
    assert_eq!(first.links[2].link_type, Some(LinkType::Unknown));
    assert_eq!(first.title, "First\n      Paper");
    assert_eq!(first.summary, "Line one.\n Line two & more.");
    assert_eq!(doc.entries[1].links[2].link_type, None);

    let records: Vec<ArxivResult> = decode_document(TWO_ENTRIES)
        .unwrap()
        .entries
        .into_iter()
        .enumerate()
        .map(|(i, e)| ArxivResult::from_entry(i, e))
        .collect();
    assert_eq!(records[0].link, "http://arxiv.org/abs/2412.00001v1");
    assert_eq!(records[1].link, "http://arxiv.org/abs/2412.00002v1");
    assert_eq!(records[0].title, "First Paper");
    assert_eq!(records[0].summary, "Line one. Line two & more.");
    assert_eq!(records[0].published, UtcTime::from_unix(1_735_552_800, 0).unwrap());
    assert_eq!(records[1].published, UtcTime::epoch());
    assert_eq!(records[1].authors, vec!["Carol C".to_string(), "Dan D".to_string()]);
}

#[test]
fn decoder_rejects_malformed_and_accepts_empty() {
    assert!(decode_document("<feed><entry></feed>").is_none());
    assert!(decode_document("<feed><entry>").is_none());
    assert!(decode_document("<feed>&bogus;</feed>").is_none());
    let empty = decode_document("").expect("no root is no entry");
    assert!(empty.entries.is_empty());
    let no_entries = decode_document("<feed><title>x</title></feed>").unwrap();
    assert!(no_entries.entries.is_empty());
}

#[test]
fn decoder_resolves_references_and_cdata() {
    let doc = decode_document(
        "<feed><entry><title>a &lt;b&gt; &#65;<![CDATA[ <c> ]]></title></entry></feed>",
    )
    .unwrap();
    assert_eq!(doc.entries[0].title, "a <b> A <c>");
    assert!(doc.entries[0].links.is_empty());
    assert_eq!(resolve_entity(&"quot".to_string()), Some("\"".to_string()));
    assert_eq!(resolve_entity(&"nbsp".to_string()), None);
}

#[test]
fn decoder_on_tokens() {
    let tokens = vec![
        XmlToken::Start { name: "feed".to_string(), href: None, kind: None },
        XmlToken::Start { name: "entry".to_string(), href: None, kind: None },
        XmlToken::Empty {
            name: "link".to_string(),
            href: Some("h".to_string()),
            kind: Some("text/html".to_string()),
        },
        XmlToken::Start { name: "author".to_string(), href: None, kind: None },
        XmlToken::Start { name: "name".to_string(), href: None, kind: None },
        XmlToken::Text { text: " N ".to_string() },
        XmlToken::End { name: "name".to_string() },
        XmlToken::End { name: "author".to_string() },
        XmlToken::End { name: "entry".to_string() },
        XmlToken::Skip,
        XmlToken::End { name: "feed".to_string() },
        XmlToken::Finish,
    ];
    let doc = decode_tokens(&tokens).unwrap();
    assert_eq!(doc.entries.len(), 1);
    assert_eq!(doc.entries[0].authors, vec!["N".to_string()]);
    assert_eq!(doc.entries[0].links[0].link, "h");
    let bad = vec![
        XmlToken::Start { name: "feed".to_string(), href: None, kind: None },
        XmlToken::End { name: "entry".to_string() },
        XmlToken::Finish,
    ];
    assert!(decode_tokens(&bad).is_none());
    let mut d = XmlDecoder::new();
    d.feed(&XmlToken::Malformed);
    assert!(d.is_done());
    assert!(d.finish().is_none());
}

#[test]
fn trims_xml_whitespace_only() {
    assert_eq!(trim_xml_text(" \t\n a b \r\n"), "a b");
    assert_eq!(trim_xml_text("   "), "");
    assert_eq!(trim_xml_text("\u{a0}x\u{a0}"), "\u{a0}x\u{a0}");
}

#[test]
fn normalizer_collapses_whitespace() {
    let entry = ArxivEntry {
        title: "a\n\n b   c".to_string(),
        summary: "x\u{2003}\t y".to_string(),
        authors: vec![],
        published: "2025-01-01T01:00:01+01:00".to_string(),
        links: vec![
            LinkField { link: "pdf".to_string(), link_type: Some(LinkType::Pdf) },
            LinkField { link: "other".to_string(), link_type: None },
        ],
    };
    let r = ArxivResult::from_entry(4, entry);
    assert_eq!(r.id, 4);
    assert_eq!(r.title, "a b c");
    assert_eq!(r.summary, "x y");
    assert_eq!(r.link, "");
    assert_eq!(r.published, UtcTime::from_unix(1_735_689_601, 0).unwrap());
}

#[test]
fn normalizing_and_formatting_twice_is_identical() {
    let make = || ArxivEntry {
        title: " T\n t ".to_string(),
        summary: "s".to_string(),
        authors: vec!["A".to_string()],
        published: "2024-12-30T10:00:00.25Z".to_string(),
        links: vec![LinkField { link: "l".to_string(), link_type: Some(LinkType::Home) }],
    };
    let a = ArxivResult::from_entry(0, make());
    let b = ArxivResult::from_entry(0, make());
    assert_eq!(Formatter::to_readme(&a), Formatter::to_readme(&b));
    assert_eq!(Formatter::to_jsonl(&a), Formatter::to_jsonl(&b));
    let renormalized = ArxivResult::from_entry(
        0,
        ArxivEntry {
            title: a.title.clone(),
            summary: a.summary.clone(),
            authors: vec![],
            published: String::new(),
            links: vec![],
        },
    );
    assert_eq!(renormalized.title, a.title);
}

#[test]
fn ids_continue_across_pages() {
    let mut h = HarvestLoop::new(&ArxivConfig::new(3, 10, 1, cats()));
    assert_eq!(h.next_start(), Some(0));
    h.accept_xml(&feed_of(&[0, 1, 2]));
    assert_eq!(h.next_start(), Some(3));
    h.accept_xml(&feed_of(&[3, 4]));
    assert_eq!(h.state(), HarvestState::Fetching(2));
    let ids: Vec<usize> = h.into_records().iter().map(|r| r.id).collect();
    assert_eq!(ids, vec![0, 1, 2, 3, 4]);
}

#[test]
fn harvest_stops_at_first_empty_page() {
    let pages = vec![feed_of(&[0, 1]), feed_of(&[2, 3]), feed_of(&[]), feed_of(&[9])];
    let mut h = HarvestLoop::new(&ArxivConfig::new(2, 10, 1, cats()));
    let mut fetched = 0;
    while let Some(start) = h.next_start() {
        assert_eq!(start, 2 * fetched as i64);
        h.accept_xml(&pages[fetched]);
        fetched += 1;
    }
    assert_eq!(fetched, 3);
    assert_eq!(h.state(), HarvestState::Exhausted);
    let titles: Vec<String> = h.into_records().into_iter().map(|r| r.title).collect();
    assert_eq!(titles, vec!["Paper 0", "Paper 1", "Paper 2", "Paper 3"]);
}

#[test]
fn harvest_stops_at_page_limit_and_on_failures() {
    let mut h = HarvestLoop::new(&ArxivConfig::new(1, 2, 1, cats()));
    h.accept_xml(&feed_of(&[0]));
    h.accept_xml(&feed_of(&[1]));
    assert_eq!(h.state(), HarvestState::Done);
    assert_eq!(h.next_start(), None);
    assert_eq!(h.into_records().len(), 2);

    let mut failed = HarvestLoop::new(&ArxivConfig::new(1, 5, 1, cats()));
    failed.accept_xml("");
    assert_eq!(failed.state(), HarvestState::Exhausted);
    let mut broken = HarvestLoop::new(&ArxivConfig::new(1, 5, 1, cats()));
    broken.accept_xml("<feed><entry>");
    assert_eq!(broken.state(), HarvestState::Exhausted);

    let none = HarvestLoop::new(&ArxivConfig::new(1, 0, 1, cats()));
    assert_eq!(none.state(), HarvestState::Done);

    let mut paged = HarvestLoop::new(&ArxivConfig::new(1, 5, 1, cats()));
    paged.accept_page(ArxivDocument::empty());
    assert_eq!(paged.state(), HarvestState::Exhausted);
}

#[test]
fn enrichment_drops_only_the_failed_record() {
    let inputs: Vec<ArxivResult> = (0..5).map(|i| record(i, "abstract")).collect();
    let outcomes: Vec<Result<ArxivResult, EnrichError>> = inputs
        .into_iter()
        .enumerate()
        .map(|(i, r)| {
            if i == 2 {
                Err(EnrichError::ProviderRejected(AgentError::new("rejected")))
            } else {
                merge_output(r, format!("short {i}"))
            }
        })
        .collect();
    let report = collect_outcomes(outcomes);
    assert_eq!(report.records.len(), 4);
    assert_eq!(report.failures.len(), 1);
    let ids: Vec<usize> = report.records.iter().map(|r| r.id).collect();
    assert_eq!(ids, vec![0, 1, 3, 4]);
    assert_eq!(report.records[2].summary, "short 3");
    assert_eq!(report.failures[0].message(), "provider error: rejected");
}

#[test]
fn empty_output_is_a_failure() {
    assert!(matches!(merge_output(record(0, "x"), String::new()), Err(EnrichError::EmptyOutput)));
    assert!(matches!(
        merge_completion(record(0, "x"), None),
        Err(EnrichError::MalformedResponse(_))
    ));
    assert!(matches!(
        merge_completion(record(0, "x"), Some(String::new())),
        Err(EnrichError::EmptyOutput)
    ));
    let ok = merge_completion(record(0, "x"), Some("y".to_string())).unwrap();
    assert_eq!(ok.summary, "y");
    assert_eq!(ok.title, "Title 0");
    assert_eq!(EnrichError::EmptyOutput.message(), "summary is empty");
    assert_eq!(
        EnrichError::TaskFailure(AgentError::new("join")).message(),
        "task failure: join"
    );
    assert_eq!(
        EnrichError::MalformedResponse(AgentError::new("m")).message(),
        "malformed response: m"
    );
}

fn response(texts: &[&str]) -> ModelResponse {
    ModelResponse {
        output: ModelOutput {
            message: ModelMessage {
                content: texts.iter().map(|t| BedrockText { text: t.to_string() }).collect(),
                role: "assistant".to_string(),
            },
        },
        stop_reason: "end_turn".to_string(),
        usage: ModelUsage { input_tokens: 1, output_tokens: 2, total_tokens: 3 },
    }
}

#[test]
fn invoke_response_takes_first_block() {
    assert_eq!(response(&["first", "second"]).get_output(), "first");
    assert_eq!(response(&[]).get_output(), "");
    let r = response(&["new"]).combine_arxiv(record(1, "old")).unwrap();
    assert_eq!(r.summary, "new");
    assert_eq!(r.id, 1);
    assert!(matches!(
        response(&[""]).combine_arxiv(record(1, "old")),
        Err(EnrichError::EmptyOutput)
    ));
}

#[test]
fn invoke_request_body() {
    let body = ModelInput::new("sys \"x\"", "line\nbreak").to_json();
    assert_eq!(
        body,
        "{\"system\":[{\"text\":\"sys \\\"x\\\"\"}],\"messages\":[{\"role\":\"user\",\"content\":[{\"text\":\"line\\nbreak\"}]}],\"inferenceConfig\":{\"max_new_tokens\":150,\"top_p\":0.9,\"top_k\":20,\"temperature\":0.5}}"
    );
    let d = ModelInput::default("abc");
    assert_eq!(d.system, PROMPT);
    assert!(d.to_json().contains("\"text\":\"abc\""));
}

#[test]
fn configs_and_names() {
    let c = Config::default();
    assert_eq!((c.num_entries, c.date_offset), (500, 1));
    assert_eq!(c.categories, cats());
    let a = ArxivConfig::default();
    assert_eq!((a.num_entries, a.num_pages, a.date_offset), (50, 10, 1));
    assert_eq!(a.categories, cats());
    let n = Config::new(1, 2, vec![]);
    assert_eq!((n.num_entries, n.date_offset), (1, 2));

    let names = NameConfig::new("bucket", "k1");
    assert_eq!(names.bucket, "bucket");
    assert_eq!(names.raw_jsonl_path(), "raw/raw_k1.jsonl");
    assert_eq!(names.processed_jsonl_path(), "processed/processed_k1.jsonl");
    let dated = NameConfig::default("b", UtcTime::from_unix(1_735_689_601, 0).unwrap());
    assert_eq!(dated.raw_jsonl_path(), "raw/raw_250101000001.jsonl");
    assert_eq!(StorageError::new("e").message, "e");
}

#[test]
fn instants_and_numbers() {
    assert!(UtcTime::from_unix(0, 1_000_000_000).is_none());
    assert!(UtcTime::from_unix(59, 1_500_000_000).is_some());
    assert!(UtcTime::from_unix(-1, 1_500_000_000).is_some());
    assert!(UtcTime::from_unix(9_000_000_000_000, 0).is_none());
    assert_eq!(signed_text(-120), "-120");
    assert_eq!(signed_text(i64::MIN), "-9223372036854775808");
    assert_eq!(unsigned_text(0), "0");
    assert_eq!(unsigned_text(u64::MAX), "18446744073709551615");
}

#[test]
fn documents_for_files() {
    let records = vec![record(0, "s0"), record(1, "s1")];
    let md = LocalSaver::readme_document(&records);
    assert_eq!(md.matches("### ").count(), 2);
    assert!(md.starts_with("### Title 0\n_A_<br/>\ns0<br/>\n_Published: 1970.01.01_"));
    let processed = vec![ProcessedResult::from_result(record(5, "orig"), "new".to_string())];
    assert_eq!(
        jsonl_document(&processed),
        "{\"id\":5,\"title\":\"Title 5\",\"original\":\"orig\",\"summary\":\"new\",\"authors\":[\"A\"],\"published\":\"1970-01-01T00:00:00Z\",\"link\":\"\"}\n"
    );
    assert_eq!(jsonl_document(&vec![]), "");
}

#[test]
fn normalizer_takes_a_parsed_date_or_the_epoch() {
    let entry = || ArxivEntry {
        title: "t".to_string(),
        summary: "s".to_string(),
        authors: vec!["A".to_string()],
        published: "whatever".to_string(),
        links: vec![LinkField { link: "h".to_string(), link_type: Some(LinkType::Home) }],
    };
    let at = UtcTime::from_unix(86_400, 0).unwrap();
    assert_eq!(ArxivResult::from_parsed_entry(1, entry(), Some(at)).published, at);
    let r = ArxivResult::from_parsed_entry(1, entry(), None);
    assert_eq!(r.published, UtcTime::epoch());
    assert_eq!(r.link, "h");
}

#[test]
fn readme_from_written_date() {
    let text = paperscraper::format::readme_text(
        &"T".to_string(),
        &vec!["A".to_string(), "B".to_string()],
        &"S".to_string(),
        "DATE",
        &"L".to_string(),
    );
    assert_eq!(text, "### T\n_A, B_<br/>\nS<br/>\n_Published: DATE_, [L](L)\n\n");
}

#[test]
fn undecodable_page_counts_as_empty_and_is_reported() {
    let mut h = HarvestLoop::new(&ArxivConfig::new(2, 10, 1, cats()));
    let first = h.accept_xml(&feed_of(&[0, 1]));
    assert_eq!(first, paperscraper::harvest::PageReport { decoded: true, undated: 0 });
    let second = h.accept_xml("<feed><entry>");
    assert!(!second.decoded);
    assert_eq!(h.state(), HarvestState::Exhausted);
    assert_eq!(h.next_start(), None);
    assert_eq!(h.into_records().len(), 2);

    let mut g = HarvestLoop::new(&ArxivConfig::new(2, 10, 1, cats()));
    assert_eq!(g.accept_decoded(None), 0);
    assert_eq!(g.state(), HarvestState::Exhausted);
}

#[test]
fn undated_entries_are_counted() {
    let mut h = HarvestLoop::new(&ArxivConfig::new(2, 10, 1, cats()));
    let report = h.accept_xml(TWO_ENTRIES);
    assert_eq!(report, paperscraper::harvest::PageReport { decoded: true, undated: 1 });
    let records = h.into_records();
    assert_eq!(records[1].published, UtcTime::epoch());
    assert!(paperscraper::normalize::published_parses("2024-12-30T10:00:00Z"));
    assert!(!paperscraper::normalize::published_parses("not a date"));
}

#[test]
fn json_escapes_controls_as_serde_json_does() {
    let r = ArxivResult::new(
        0,
        "a\u{1}b\tc\\d/é".to_string(),
        "\u{8}\u{c}\r\n\u{1f}".to_string(),
        vec![],
        UtcTime::epoch(),
        String::new(),
    );
    assert_eq!(
        Formatter::to_jsonl(&r),
        "{\"id\":0,\"title\":\"a\\u0001b\\tc\\\\d/é\",\"summary\":\"\\b\\f\\r\\n\\u001f\",\"authors\":[],\"published\":\"1970-01-01T00:00:00Z\",\"link\":\"\"}\n"
    );
}
