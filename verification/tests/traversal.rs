use hugo_to_json::file_location::FileLocation;
use hugo_to_json::hugo_to_json_error::HugotoJsonError;
use hugo_to_json::operation_result::{OperationResult, Skip};
use hugo_to_json::page_index::PageIndex;
use hugo_to_json::traverse_results::TraverseResults;
use hugo_to_json::{create_page_index, outcome_of};

fn page(title: &str) -> PageIndex {
    let location = FileLocation {
        extension: String::from("md"),
        relative_directory_to_content: String::new(),
        absolute_path: String::from("/c/a.md"),
        file_stem: String::from("a"),
        file_name: String::from("a.md"),
    };
    PageIndex::new(
        Some(title),
        None,
        Some("2019-01-25"),
        None,
        Vec::new(),
        Vec::new(),
        Vec::new(),
        Vec::new(),
        String::new(),
        &location,
        None,
    )
    .unwrap()
}

#[test]
fn create_page_index_splits_pages_and_errors_in_order() {
    let index: Vec<Result<PageIndex, OperationResult>> = vec![
        Ok(page("one")),
        Err(OperationResult::Skip(Skip::new("/c/x.md", "Is draft"))),
        Ok(page("two")),
        Err(OperationResult::Skip(Skip::new("/c/y.md", "Not a file"))),
        Ok(page("three")),
    ];
    let results = create_page_index(index);
    let titles: Vec<&str> = results.page_index.iter().map(|p| p.title.as_str()).collect();
    assert_eq!(titles, vec!["one", "two", "three"]);
    assert_eq!(results.error_count, 2);
    assert_eq!(results.errors.len(), 2);
    assert_eq!(results.errors[0].message(), "Skipped: Skipping /c/x.md. Is draft");
    assert_eq!(results.errors[1].message(), "Skipped: Skipping /c/y.md. Not a file");
    assert!(matches!(outcome_of(&results), Err(HugotoJsonError::Meta { total: 2 })));
}

#[test]
fn all_pages_means_success() {
    let results = create_page_index(vec![Ok(page("one")), Ok(page("two"))]);
    assert_eq!(results.page_index.len(), 2);
    assert_eq!(results.error_count, 0);
    assert!(outcome_of(&results).is_ok());
}

#[test]
fn empty_traversal_gives_empty_index() {
    let results = create_page_index(Vec::new());
    assert!(results.page_index.is_empty());
    assert!(results.errors.is_empty());
    assert_eq!(results.error_count, 0);
    assert!(outcome_of(&results).is_ok());
}

#[test]
fn traverse_results_counts_errors() {
    let results = TraverseResults::new(
        vec![page("p")],
        vec![
            OperationResult::Skip(Skip::new("a", "b")),
            OperationResult::Skip(Skip::new("c", "d")),
            OperationResult::Skip(Skip::new("e", "f")),
        ],
    );
    assert_eq!(results.error_count, 3);
    assert_eq!(results.page_index.len(), 1);
    assert!(matches!(outcome_of(&results), Err(HugotoJsonError::Meta { total: 3 })));
}
