use iani::batch::DownloadTask;
use iani::error::ClientError;
use iani::files::{file_operation, FileOperation};
use iani::routes::Route;

fn strings(v: &[&str]) -> Vec<String> {
    v.iter().map(|s| s.to_string()).collect()
}

#[test]
fn list_operation_routes_the_listing() {
    assert_eq!(
        file_operation("list", "trait", "E", Some("S"), None, None, None),
        Ok(FileOperation::List {
            route: Route::TraitStudyFiles { trait_id: "E".to_string(), study_accession: "S".to_string() }
        })
    );
    assert_eq!(
        file_operation("list", "study", "S", Some("E"), None, None, None),
        Err(ClientError::InvalidFileScope)
    );
}

#[test]
fn download_operation_plans_tasks_and_workers() {
    let op = file_operation(
        "download",
        "study",
        "S",
        None,
        Some(strings(&["http://h/a", "http://h/b"])),
        Some(strings(&["a", "b"])),
        Some(2),
    );
    assert_eq!(
        op,
        Ok(FileOperation::Download {
            tasks: vec![
                DownloadTask { url: "http://h/a".to_string(), path: "a".to_string() },
                DownloadTask { url: "http://h/b".to_string(), path: "b".to_string() },
            ],
            workers: 2,
        })
    );
    let op = file_operation("download", "", "", None, Some(Vec::new()), Some(Vec::new()), None);
    assert_eq!(op, Ok(FileOperation::Download { tasks: Vec::new(), workers: 4 }));
}

#[test]
fn download_operation_errors() {
    assert_eq!(
        file_operation(
            "download",
            "study",
            "S",
            None,
            Some(strings(&["u1", "u2", "u3"])),
            Some(strings(&["p1", "p2"])),
            None
        ),
        Err(ClientError::LengthMismatch { urls: 3, paths: 2 })
    );
    assert_eq!(
        file_operation("download", "study", "S", None, Some(strings(&["u"])), None, None),
        Err(ClientError::MissingDownloadLists)
    );
    assert_eq!(
        file_operation("delete", "study", "S", None, None, None, None),
        Err(ClientError::UnsupportedOperation { operation: "delete".to_string() })
    );
}
