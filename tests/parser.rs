use paperscraper::parser::ArxivParser;
use paperscraper::time::UtcTime;

const ACTUAL: &str = "https://export.arxiv.org/api/query/\
    ?search_query=%28cat:cs.CL+OR+cat:cs.AI+OR+cat:cs.LG+OR+cat:cs.MA%29+AND+\
    submittedDate:[202412300000+TO+202412310000]&start=0&max_results=50";

#[test]
fn parser_test_url_generation() {
    // 2025-01-01T00:00:01Z
    let date = UtcTime::from_unix(1_735_689_601, 0).unwrap();
    let parser = ArxivParser::new();
    let url = parser.create_query_url(date, 0);
    assert_eq!(url, ACTUAL, "URL improperly formatted");
}
