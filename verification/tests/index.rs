use eve_sde::error::RecordFault;
use eve_sde::error::ResolveError;
use eve_sde::index::AssetIndex;
use eve_sde::index::Tree;
use eve_sde::locator::Locator;

fn row(fields: &[&str]) -> Result<Vec<String>, ()> {
    Ok(fields.iter().map(|f| f.to_string()).collect())
}

fn path_of<'a>(index: &'a AssetIndex, url: &str) -> Option<&'a str> {
    let url = Locator::parse(url).expect("a URL");
    index.get(&url).map(|p| p.as_str())
}

fn failure(r: Result<AssetIndex, ResolveError>) -> ResolveError {
    match r {
        Ok(_) => panic!("an index was built"),
        Err(e) => e,
    }
}

fn built(r: Result<AssetIndex, ResolveError>) -> AssetIndex {
    match r {
        Ok(index) => index,
        Err(e) => panic!("no index was built: {:?}", e),
    }
}

#[test]
fn min_columns_are_six_and_five() {
    assert_eq!(Tree::Binaries.min_columns(), 6);
    assert_eq!(Tree::Resources.min_columns(), 5);
}

#[test]
fn new_index_is_empty() {
    let index = AssetIndex::new();
    assert_eq!(index.len(), 0);
    assert_eq!(path_of(&index, "app:/a"), None);
}

#[test]
fn insert_then_get() {
    let mut index = AssetIndex::new();
    index.insert(Locator::parse("app:/a").expect("a URL"), "x/a".to_string());
    index.insert(Locator::parse("app:/b").expect("a URL"), "x/b".to_string());
    assert_eq!(index.len(), 2);
    assert_eq!(path_of(&index, "app:/a"), Some("x/a"));
    assert_eq!(path_of(&index, "app:/b"), Some("x/b"));
    assert_eq!(path_of(&index, "app:/c"), None);
}

#[test]
fn insert_replaces_an_earlier_path() {
    let mut index = AssetIndex::new();
    index.insert(Locator::parse("app:/a").expect("a URL"), "old".to_string());
    index.insert(Locator::parse("app:/a").expect("a URL"), "new".to_string());
    assert_eq!(index.len(), 1);
    assert_eq!(path_of(&index, "app:/a"), Some("new"));
}

#[test]
fn keys_are_compared_in_normal_form() {
    let mut index = AssetIndex::new();
    index.insert(Locator::parse("APP:/a").expect("a URL"), "x/a".to_string());
    assert_eq!(path_of(&index, "app:/a"), Some("x/a"));
}

#[test]
fn from_rows_maps_each_url_to_its_path() {
    let rows = vec![
        row(&["app:/Launcher.exe", "launcher/Launcher.exe", "h1", "10", "20", "1"]),
        row(&["app:/resfileindex.txt", "a9/a9_index", "h2", "30", "40", "1"]),
    ];
    let index = built(AssetIndex::from_rows(&rows, Tree::Binaries));
    assert_eq!(index.len(), 2);
    assert_eq!(path_of(&index, "app:/Launcher.exe"), Some("launcher/Launcher.exe"));
    assert_eq!(path_of(&index, "app:/resfileindex.txt"), Some("a9/a9_index"));
    assert_eq!(path_of(&index, "app:/other"), None);
}

#[test]
fn from_rows_lets_the_last_record_win() {
    let rows = vec![
        row(&["res:/a", "first", "h", "1", "2"]),
        row(&["res:/b", "other", "h", "1", "2"]),
        row(&["res:/a", "second", "h", "1", "2"]),
    ];
    let index = built(AssetIndex::from_rows(&rows, Tree::Resources));
    assert_eq!(index.len(), 2);
    assert_eq!(path_of(&index, "res:/a"), Some("second"));
    assert_eq!(path_of(&index, "res:/b"), Some("other"));
}

#[test]
fn from_rows_of_nothing_is_the_empty_index() {
    let rows: Vec<Result<Vec<String>, ()>> = Vec::new();
    let index = built(AssetIndex::from_rows(&rows, Tree::Binaries));
    assert_eq!(index.len(), 0);
}

#[test]
fn from_rows_takes_more_columns_than_it_needs() {
    let rows = vec![row(&["app:/a", "p", "3", "4", "5", "6", "7", "8"])];
    let index = built(AssetIndex::from_rows(&rows, Tree::Binaries));
    assert_eq!(path_of(&index, "app:/a"), Some("p"));
    let index = built(AssetIndex::from_rows(&rows, Tree::Resources));
    assert_eq!(path_of(&index, "app:/a"), Some("p"));
}

#[test]
fn from_rows_refuses_too_few_columns() {
    let rows = vec![row(&["app:/a", "p", "3", "4", "5"])];
    assert_eq!(
        failure(AssetIndex::from_rows(&rows, Tree::Binaries)),
        ResolveError::IndexParse { record: 0, fault: RecordFault::Columns }
    );
    let rows = vec![row(&["res:/a", "p", "3", "4"])];
    assert_eq!(
        failure(AssetIndex::from_rows(&rows, Tree::Resources)),
        ResolveError::IndexParse { record: 0, fault: RecordFault::Columns }
    );
    let rows = vec![row(&[])];
    assert_eq!(
        failure(AssetIndex::from_rows(&rows, Tree::Resources)),
        ResolveError::IndexParse { record: 0, fault: RecordFault::Columns }
    );
}

#[test]
fn from_rows_refuses_a_first_column_that_is_no_url() {
    let rows = vec![
        row(&["app:/a", "p", "3", "4", "5", "6"]),
        row(&["launcher/Launcher.exe", "p", "3", "4", "5", "6"]),
    ];
    assert_eq!(
        failure(AssetIndex::from_rows(&rows, Tree::Binaries)),
        ResolveError::IndexParse { record: 1, fault: RecordFault::Url }
    );
}

#[test]
fn from_rows_refuses_a_record_that_could_not_be_read() {
    let rows = vec![row(&["res:/a", "p", "3", "4", "5"]), Err(())];
    assert_eq!(
        failure(AssetIndex::from_rows(&rows, Tree::Resources)),
        ResolveError::IndexParse { record: 1, fault: RecordFault::Unreadable }
    );
}

#[test]
fn from_rows_is_fail_fast() {
    let rows = vec![
        row(&["app:/a", "p", "3", "4", "5", "6"]),
        row(&["app:/b", "q", "3", "4", "5", "6"]),
        row(&["app:/c", "r"]),
        row(&["no url", "s", "3", "4", "5", "6"]),
        row(&["app:/d", "t", "3", "4", "5", "6"]),
    ];
    assert_eq!(
        failure(AssetIndex::from_rows(&rows, Tree::Binaries)),
        ResolveError::IndexParse { record: 2, fault: RecordFault::Columns }
    );
}

#[test]
fn parse_reads_a_binaries_index() {
    let data = b"app:/Launcher.exe,launcher/Launcher.exe,0123abcd,1024,512,33\n\
app:/resfileindex.txt,a9/a9c3_resfileindex.txt,89ef,2048,700,33\n";
    let index = built(AssetIndex::parse(data, Tree::Binaries));
    assert_eq!(index.len(), 2);
    assert_eq!(path_of(&index, "app:/Launcher.exe"), Some("launcher/Launcher.exe"));
    assert_eq!(path_of(&index, "app:/resfileindex.txt"), Some("a9/a9c3_resfileindex.txt"));
}

#[test]
fn parse_reads_a_resources_index() {
    let data = b"res:/ui/texture.png,4f/4f00_texture,beef,10,9\n\
res:/sde/types.bin,77/7700_types,cafe,20,18";
    let index = built(AssetIndex::parse(data, Tree::Resources));
    assert_eq!(index.len(), 2);
    assert_eq!(path_of(&index, "res:/ui/texture.png"), Some("4f/4f00_texture"));
    assert_eq!(path_of(&index, "res:/sde/types.bin"), Some("77/7700_types"));
}

#[test]
fn parse_takes_the_first_line_as_a_record() {
    let data = b"app:/first,p1,3,4,5,6\napp:/second,p2,3,4,5,6\n";
    let index = built(AssetIndex::parse(data, Tree::Binaries));
    assert_eq!(path_of(&index, "app:/first"), Some("p1"));
}

#[test]
fn parse_reads_quoted_fields() {
    let data = b"\"app:/a,b\",\"dir/with \"\"quotes\"\"\",3,4,5,6\n";
    let index = built(AssetIndex::parse(data, Tree::Binaries));
    assert_eq!(path_of(&index, "app:/a,b"), Some("dir/with \"quotes\""));
}

#[test]
fn parse_of_nothing_is_the_empty_index() {
    let index = built(AssetIndex::parse(b"", Tree::Binaries));
    assert_eq!(index.len(), 0);
}

#[test]
fn parse_takes_a_binaries_file_as_a_resources_index() {
    let data = b"app:/a,p,3,4,5,6\n";
    let index = built(AssetIndex::parse(data, Tree::Resources));
    assert_eq!(path_of(&index, "app:/a"), Some("p"));
}

#[test]
fn parse_refuses_a_resources_file_as_a_binaries_index() {
    let data = b"res:/a,p,3,4,5\n";
    assert_eq!(
        failure(AssetIndex::parse(data, Tree::Binaries)),
        ResolveError::IndexParse { record: 0, fault: RecordFault::Columns }
    );
}

#[test]
fn parse_refuses_records_of_unequal_length() {
    let data = b"app:/a,p,3,4,5,6\napp:/b,q,3,4,5,6,7\napp:/c,r,3,4,5,6\n";
    assert_eq!(
        failure(AssetIndex::parse(data, Tree::Binaries)),
        ResolveError::IndexParse { record: 1, fault: RecordFault::Unreadable }
    );
}

#[test]
fn parse_refuses_text_that_is_not_utf8() {
    let data = b"app:/a,p,3,4,5,6\napp:/b,\xff\xfe,3,4,5,6\n";
    assert_eq!(
        failure(AssetIndex::parse(data, Tree::Binaries)),
        ResolveError::IndexParse { record: 1, fault: RecordFault::Unreadable }
    );
}

#[test]
fn parse_refuses_a_malformed_url_after_good_records() {
    let data = b"app:/a,p,3,4,5,6\napp:/b,q,3,4,5,6\nnot-a-url,r,3,4,5,6\napp:/d,s,3,4,5,6\n";
    assert_eq!(
        failure(AssetIndex::parse(data, Tree::Binaries)),
        ResolveError::IndexParse { record: 2, fault: RecordFault::Url }
    );
}

#[test]
fn parse_reports_the_first_of_two_faults() {
    let data = b"app:/a,p,3,4,5,6\nnot-a-url,q,3,4,5,6\napp:/c,r,3\n";
    assert_eq!(
        failure(AssetIndex::parse(data, Tree::Binaries)),
        ResolveError::IndexParse { record: 1, fault: RecordFault::Url }
    );
}

#[test]
fn entry_holds_the_url_and_the_path() {
    let read = row(&["APP:/a", "dir/a", "3", "4", "5", "6"]);
    let (url, path) = AssetIndex::entry(&read, Tree::Binaries).expect("an entry");
    assert_eq!(url.as_str(), "app:/a");
    assert_eq!(path, "dir/a");
}

#[test]
fn entry_names_what_is_wrong_with_a_record() {
    let unreadable: Result<Vec<String>, ()> = Err(());
    assert_eq!(AssetIndex::entry(&unreadable, Tree::Binaries), Err(RecordFault::Unreadable));
    assert_eq!(
        AssetIndex::entry(&row(&["app:/a", "p", "3", "4", "5"]), Tree::Binaries),
        Err(RecordFault::Columns)
    );
    assert_eq!(
        AssetIndex::entry(&row(&["/a", "p", "3", "4", "5"]), Tree::Resources),
        Err(RecordFault::Url)
    );
}

#[test]
fn entry_counts_the_columns_before_it_reads_the_url() {
    assert_eq!(
        AssetIndex::entry(&row(&["no url", "p"]), Tree::Resources),
        Err(RecordFault::Columns)
    );
}
