use std::io::Write;

use atom_node::archive::{ExtractAction, PackageArchive};
use atom_node::errors::AppError;

fn plan_package(bytes: Vec<u8>) -> Result<Vec<ExtractAction>, AppError> {
    PackageArchive::open(bytes)?.plan_extraction()
}

fn zip_bytes(entries: &[(&str, Option<&[u8]>)]) -> Vec<u8> {
    let cursor = std::io::Cursor::new(Vec::new());
    let mut writer = zip::ZipWriter::new(cursor);
    let options = zip::write::SimpleFileOptions::default();
    for (name, contents) in entries {
        match contents {
            Some(data) => {
                writer.start_file(name.to_string(), options).expect("start_file");
                writer.write_all(data).expect("write entry");
            }
            None => {
                writer.add_directory(name.to_string(), options).expect("add_directory");
            }
        }
    }
    writer.finish().expect("finish").into_inner()
}

#[test]
fn a_well_formed_package_plans_every_entry_verbatim() {
    let bytes = zip_bytes(&[
        ("main.py", Some(b"print('hello')\n".as_slice())),
        ("sub", None),
        ("sub/data.txt", Some(b"42".as_slice())),
    ]);
    let plan = plan_package(bytes).expect("safe package is accepted");
    assert_eq!(plan.len(), 3);
    match &plan[0] {
        ExtractAction::WriteFile(path, data) => {
            assert_eq!(path, "main.py");
            assert_eq!(data.as_slice(), b"print('hello')\n");
        }
        _ => panic!("first entry should be a file"),
    }
    match &plan[1] {
        ExtractAction::MakeDir(path) => assert_eq!(path, "sub/"),
        _ => panic!("second entry should be a directory"),
    }
    match &plan[2] {
        ExtractAction::WriteFile(path, data) => {
            assert_eq!(path, "sub/data.txt");
            assert_eq!(data.as_slice(), b"42");
        }
        _ => panic!("third entry should be a file"),
    }
}

#[test]
fn a_traversal_entry_rejects_the_whole_package() {
    let bytes = zip_bytes(&[
        ("main.py", Some(b"ok".as_slice())),
        ("../evil", Some(b"boom".as_slice())),
    ]);
    assert!(matches!(plan_package(bytes), Err(AppError::Validation(_))));
}

#[test]
fn an_absolute_entry_rejects_the_whole_package() {
    let bytes = zip_bytes(&[("/etc/passwd", Some(b"boom".as_slice()))]);
    assert!(matches!(plan_package(bytes), Err(AppError::Validation(_))));
}

#[test]
fn a_nested_traversal_entry_rejects_the_whole_package() {
    let bytes = zip_bytes(&[("sub/../../evil", Some(b"boom".as_slice()))]);
    assert!(matches!(plan_package(bytes), Err(AppError::Validation(_))));
}

#[test]
fn garbage_bytes_are_not_an_archive() {
    let r = plan_package(vec![0x50, 0x4b, 0x00, 0x00, 0x01]);
    match r {
        Err(AppError::Execution(m)) => assert!(m.contains("invalid zip archive")),
        _ => panic!("expected an execution error for a corrupt container"),
    }
}

#[test]
fn an_empty_archive_plans_nothing() {
    let bytes = zip_bytes(&[]);
    let plan = plan_package(bytes).expect("empty package is fine");
    assert!(plan.is_empty());
}
