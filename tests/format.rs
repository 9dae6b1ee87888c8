use paperscraper::format::Formatter;
use paperscraper::model::ArxivResult;
use paperscraper::time::UtcTime;

fn get_sample_arxiv() -> ArxivResult {
    ArxivResult {
        id: 0,
        title: "title".to_string(),
        summary: "summary".to_string(),
        authors: vec!["john doe".to_string()],
        published: UtcTime::epoch(),
        link: "www.example.com".to_string(),
    }
}

const BASE_README: &str = "### title\n_john doe_<br/>\nsummary<br/>\n_Published: 1970.01.01_, \
    [www.example.com](www.example.com)\n\n";

const BASE_JSONL: &str = "{\"authors\":[\"john doe\"],\"id\":0,\"link\":\"www.example.com\",\"published\":\"1970-01-01T00:00:00Z\",\
    \"summary\":\"summary\",\"title\":\"title\"}\n";

#[test]
fn test_readme() {
    let base = String::from(BASE_README);
    let readme = Formatter::to_readme(&get_sample_arxiv());
    assert_eq!(base, readme);
}

#[test]
fn test_jsonl() {
    let base = String::from(BASE_JSONL);
    let jsonl = Formatter::to_jsonl_with_id(0, &get_sample_arxiv());
    assert_eq!(base, jsonl);
}

#[test]
fn jsonl_escapes_and_orders_fields() {
    let r = ArxivResult {
        id: 7,
        title: "A \"quoted\" title".to_string(),
        summary: "s".to_string(),
        authors: vec!["a".to_string(), "b".to_string()],
        published: UtcTime::from_unix(1_735_689_601, 500_000_000).unwrap(),
        link: "".to_string(),
    };
    assert_eq!(
        Formatter::to_jsonl(&r),
        "{\"id\":7,\"title\":\"A \\\"quoted\\\" title\",\"summary\":\"s\",\"authors\":[\"a\",\"b\"],\"published\":\"2025-01-01T00:00:01.500Z\",\"link\":\"\"}\n"
    );
    assert_eq!(
        Formatter::to_jsonl_with_id(3, &r),
        "{\"authors\":[\"a\",\"b\"],\"id\":3,\"link\":\"\",\"published\":\"2025-01-01T00:00:01.500Z\",\"summary\":\"s\",\"title\":\"A \\\"quoted\\\" title\"}\n"
    );
}

#[test]
fn readme_joins_several_authors_and_no_author() {
    let mut r = get_sample_arxiv();
    r.authors = vec!["A".to_string(), "B".to_string(), "C".to_string()];
    r.published = UtcTime::from_unix(1_735_689_601, 0).unwrap();
    assert_eq!(
        Formatter::to_readme(&r),
        "### title\n_A, B, C_<br/>\nsummary<br/>\n_Published: 2025.01.01_, [www.example.com](www.example.com)\n\n"
    );
    r.authors = vec![];
    assert!(Formatter::to_readme(&r).starts_with("### title\n__<br/>\n"));
}
