use ruskeros::dorks::dork_lines;
use ruskeros::export::{encode_table, export_job, export_job_for_stem, join_records, table_rows};
use ruskeros::results::{extract, SearchResult};
use ruskeros::scrape::{Action, Draw, Event, ScrapeConfig, Scraper};

fn result(title: &str, link: &str) -> SearchResult {
    SearchResult { title: title.to_string(), link: link.to_string() }
}

fn read_back(bytes: &[u8]) -> Vec<Vec<String>> {
    let mut rdr = csv::ReaderBuilder::new().has_headers(false).from_reader(bytes);
    rdr.records().map(|r| r.unwrap().iter().map(|f| f.to_string()).collect()).collect()
}

#[test]
fn table_has_header_then_rows() {
    let rows = table_rows(&vec![result("a", "b"), result("c", "")]);
    assert_eq!(rows, vec![vec!["Title", "Link"], vec!["a", "b"], vec!["c", ""]]);
    assert_eq!(table_rows(&vec![]), vec![vec!["Title", "Link"]]);
}

#[test]
fn delimited_round_trip() {
    let results = vec![
        result("plain", "https://x.example/"),
        result("with, comma", "https://y.example/?a=1,2"),
        result("quote \" inside", ""),
        result("line\nbreak", "z"),
    ];
    let bytes = encode_table(&table_rows(&results));
    let back = read_back(&bytes);
    assert_eq!(back.len(), results.len() + 1);
    assert_eq!(back[0], vec!["Title", "Link"]);
    for (row, r) in back[1..].iter().zip(results.iter()) {
        assert_eq!(row, &vec![r.title.clone(), r.link.clone()]);
    }
}

#[test]
fn empty_export_is_header_only() {
    let bytes = encode_table(&table_rows(&vec![]));
    assert_eq!(bytes, b"Title,Link\n".to_vec());
}

#[test]
fn records_are_joined_in_order() {
    assert_eq!(join_records(&vec![b"ab".to_vec(), vec![], b"c".to_vec()]), b"abc".to_vec());
}

#[test]
fn file_names_come_from_sanitized_dork() {
    let job = export_job("site:a.com/b?c", &vec![]);
    assert_eq!(job.csv_name, "sitea.combc_results.csv");
    assert_eq!(job.xlsx_name, "sitea.combc_results.xlsx");
    let job = export_job_for_stem("plain", &vec![result("t", "l")]);
    assert_eq!(job.csv_name, "plain_results.csv");
    assert_eq!(job.rows, vec![vec!["Title", "Link"], vec!["t", "l"]]);
}

fn run_dork(fetch_ok: bool) -> Vec<SearchResult> {
    let config = ScrapeConfig::new(1, 0, 0, 1, true).unwrap();
    let mut s = Scraper::new(config, vec!["ua".to_string()]).unwrap();
    let draw = || Draw { user_agent: "ua".to_string(), delay: 0 };
    let mut action = s.step(Event::Start, draw());
    loop {
        let event = match action {
            Action::Fetch { .. } => {
                if fetch_ok {
                    Event::Fetched(extract("<h3><a href=\"https://hit/\">Hit</a></h3>").unwrap())
                } else {
                    Event::FetchFailed
                }
            }
            Action::Sleep { .. } => Event::Slept,
            Action::Finished => break,
        };
        action = s.step(event, draw());
    }
    s.into_results()
}

#[test]
fn two_dorks_give_two_jobs_of_one_result() {
    let dorks = dork_lines("a\nb\n");
    let jobs: Vec<_> = dorks.iter().map(|d| export_job(d, &run_dork(true))).collect();
    assert_eq!(jobs.len(), 2);
    assert_eq!(jobs[0].csv_name, "a_results.csv");
    assert_eq!(jobs[1].csv_name, "b_results.csv");
    for job in &jobs {
        assert_eq!(job.rows.len(), 2);
        assert_eq!(job.rows[1], vec!["Hit", "https://hit/"]);
    }
}

#[test]
fn failing_dork_does_not_stop_the_batch() {
    let dorks = dork_lines("a\nb");
    let jobs: Vec<_> = dorks.iter().map(|d| export_job(d, &run_dork(d.as_str() != "a"))).collect();
    // the failed dork still gets its files, holding the header alone
    assert_eq!(jobs[0].csv_name, "a_results.csv");
    assert_eq!(jobs[0].rows, vec![vec!["Title", "Link"]]);
    assert_eq!(encode_table(&jobs[0].rows), b"Title,Link\n".to_vec());
    assert_eq!(jobs[1].csv_name, "b_results.csv");
    assert_eq!(jobs[1].rows, vec![vec!["Title", "Link"], vec!["Hit", "https://hit/"]]);
}

#[test]
fn plain_dork_names_its_files_unchanged() {
    let job = export_job("Plain_dork-42", &vec![]);
    assert_eq!(job.csv_name, "Plain_dork-42_results.csv");
    assert_eq!(job.xlsx_name, "Plain_dork-42_results.xlsx");
}

#[test]
fn csv_quoting_edge_cases() {
    let rows = |v: Vec<Vec<&str>>| -> Vec<Vec<String>> {
        v.into_iter().map(|r| r.into_iter().map(|f| f.to_string()).collect()).collect()
    };
    assert_eq!(encode_table(&rows(vec![vec![""]])), b"\"\"\n".to_vec());
    assert_eq!(encode_table(&rows(vec![vec!["", ""]])), b",\n".to_vec());
    assert_eq!(encode_table(&rows(vec![vec!["", "a\"b"]])), b",\"a\"\"b\"\n".to_vec());
    assert_eq!(
        encode_table(&rows(vec![vec!["é", "x,y"], vec!["cr\r", "lf\n"]])),
        "é,\"x,y\"\n\"cr\r\",\"lf\n\"\n".as_bytes().to_vec()
    );
}
