use std::io::Write;

use zedup::errors::AppError;
use zedup::installer::{InstallPlan, extract_entries, plan_install, split_extension};
use zedup::release::{Asset, Release, downloading_asset_line, file_line, found_release_line};

fn zip_bytes(entries: &[(&str, &[u8])]) -> Vec<u8> {
    let mut writer = zip::ZipWriter::new(std::io::Cursor::new(Vec::new()));
    for (name, data) in entries {
        writer
            .start_file(*name, zip::write::SimpleFileOptions::default())
            .unwrap();
        writer.write_all(data).unwrap();
    }
    writer.finish().unwrap().into_inner()
}

#[test]
fn empty_release_has_no_asset() {
    let release = Release {
        tag_name: "v1.2.3".to_string(),
        body: None,
        assets: Vec::new(),
    };
    match release.first_asset() {
        Ok(_) => panic!("an empty asset list must be refused"),
        Err(e) => {
            assert!(matches!(&e, AppError::NoAsset { tag } if tag == "v1.2.3"));
            assert_eq!(e.message(), "No asset found on latest release v1.2.3");
        }
    }
}

#[test]
fn first_asset_is_taken() {
    let release = Release {
        tag_name: "v2".to_string(),
        body: None,
        assets: vec![
            Asset {
                name: "one.zip".to_string(),
                url: "https://example.invalid/one.zip".to_string(),
            },
            Asset {
                name: "two.zip".to_string(),
                url: "https://example.invalid/two.zip".to_string(),
            },
        ],
    };
    let asset = release.first_asset().unwrap();
    assert_eq!(asset.name, "one.zip");
    assert_eq!(asset.url, "https://example.invalid/one.zip");
}

#[test]
fn name_without_dot_is_refused() {
    assert!(split_extension("archive").is_none());
    let r = plan_install(&"archive".to_string(), vec![1, 2, 3]);
    match r {
        Err(AppError::Extension) => {}
        _ => panic!("a name without a dot must give the missing-extension error"),
    }
    assert_eq!(AppError::Extension.message(), "asset has no extension");
}

#[test]
fn unknown_extension_is_refused() {
    let r = plan_install(&"tool.tar.gz".to_string(), vec![0]);
    match r {
        Err(AppError::UnsupportedFormat { ext }) => {
            assert_eq!(ext, "gz");
            assert_eq!(
                AppError::UnsupportedFormat { ext }.message(),
                "extension gz is unsupported"
            );
        }
        _ => panic!("an unknown extension must give the unsupported-format error"),
    }
}

#[test]
fn empty_extension_is_refused() {
    let r = plan_install(&"tool.".to_string(), vec![0]);
    match r {
        Err(AppError::UnsupportedFormat { ext }) => assert_eq!(ext, ""),
        _ => panic!("a trailing dot leaves an empty, unsupported extension"),
    }
}

#[test]
fn extension_is_after_final_dot() {
    assert_eq!(split_extension("a.b.c.zip").unwrap(), "zip");
    assert_eq!(split_extension("tool.exe").unwrap(), "exe");
    assert_eq!(split_extension(".hidden").unwrap(), "hidden");
}

#[test]
fn zip_asset_extracts_both_entries() {
    let bytes = zip_bytes(&[("a.txt", b"alpha"), ("dir/b.txt", b"beta")]);
    let r = plan_install(&"asset.zip".to_string(), bytes);
    match r {
        Ok(InstallPlan::Extract { entries }) => {
            let names: Vec<&str> = entries.iter().map(|e| e.name.as_str()).collect();
            assert_eq!(names, vec!["a.txt", "dir/b.txt"]);
            assert_eq!(entries[0].data, b"alpha");
            assert_eq!(entries[1].data, b"beta");
            let lines: Vec<String> = entries.iter().map(|e| file_line(&e.name)).collect();
            assert_eq!(lines, vec!["File: a.txt", "File: dir/b.txt"]);
        }
        _ => panic!("a readable zip asset must extract"),
    }
}

#[test]
fn corrupt_zip_is_an_extract_error() {
    let r = plan_install(&"asset.zip".to_string(), vec![0x50, 0x4b, 0x00, 0x00]);
    match r {
        Err(AppError::Extract) => {}
        _ => panic!("unreadable bytes must give the extract error"),
    }
    assert!(extract_entries(&vec![1, 2, 3]).is_err());
}

#[test]
fn exe_asset_is_written_verbatim() {
    let content = vec![0x4du8, 0x5a, 0x00, 0x01, 0xff];
    let r = plan_install(&"tool.exe".to_string(), content.clone());
    match r {
        Ok(InstallPlan::WriteFile { name, data }) => {
            assert_eq!(name, "tool.exe");
            assert_eq!(data, content);
        }
        _ => panic!("an exe asset must be written under its own name"),
    }
}

#[test]
fn progress_lines_are_exact() {
    assert_eq!(found_release_line("v1.2.3"), "Found release v1.2.3");
    assert_eq!(downloading_asset_line("tool.exe"), "Downloading asset tool.exe");
    assert_eq!(file_line("dir/b.txt"), "File: dir/b.txt");
}

#[test]
fn error_messages_are_exact() {
    assert_eq!(
        AppError::Lookup.message(),
        "failed to look up the latest release"
    );
    assert_eq!(AppError::Download.message(), "failed to download the asset");
    assert_eq!(AppError::Extract.message(), "failed to extract the archive");
    assert_eq!(
        AppError::Io {
            name: "tool.exe".to_string()
        }
        .message(),
        "failed to write tool.exe"
    );
    assert_eq!(
        AppError::UnsupportedMarkdown.message(),
        "release notes contain unsupported markdown"
    );
}
