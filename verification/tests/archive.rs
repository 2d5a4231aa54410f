use std::io::{Cursor, Write};
use ytmp3::archive::{extract_entry, select_entry, ExtractionError};
use zip::write::SimpleFileOptions;
use zip::{CompressionMethod, ZipWriter};

fn archive_of(entries: &[(&str, &[u8])], method: CompressionMethod) -> Vec<u8> {
    let mut writer = ZipWriter::new(Cursor::new(Vec::new()));
    let options = SimpleFileOptions::default().compression_method(method);
    for (name, data) in entries {
        writer.start_file(*name, options).unwrap();
        writer.write_all(data).unwrap();
    }
    writer.finish().unwrap().into_inner()
}

fn names_of(names: &[&str]) -> Vec<String> {
    names.iter().map(|n| n.to_string()).collect()
}

#[test]
fn select_entry_takes_the_first_suffix_match() {
    let names = names_of(&["docs/readme.txt", "bin/ffmpeg"]);
    assert_eq!(select_entry(&names, "ffmpeg"), Some(1));
}

#[test]
fn select_entry_prefers_the_earlier_of_two_matches() {
    let names = names_of(&["a.txt", "debug/ffmpeg", "release/ffmpeg"]);
    assert_eq!(select_entry(&names, "ffmpeg"), Some(1));
    let names = names_of(&["not-ffmpeg", "ffmpeg"]);
    assert_eq!(select_entry(&names, "ffmpeg"), Some(0));
}

#[test]
fn select_entry_finds_nothing_where_no_name_matches() {
    let names = names_of(&["docs/readme.txt", "bin/ffmpeg.exe", "ffmpeg/"]);
    assert_eq!(select_entry(&names, "ffmpeg"), None);
    assert_eq!(select_entry(&Vec::new(), "ffmpeg"), None);
}

#[test]
fn select_entry_with_empty_suffix_takes_the_first_entry() {
    assert_eq!(select_entry(&names_of(&["x", "y"]), ""), Some(0));
    assert_eq!(select_entry(&Vec::new(), ""), None);
}

#[test]
fn extracts_the_matching_entry_of_a_stored_archive() {
    let bytes = archive_of(
        &[("docs/readme.txt", b"read me"), ("bin/ffmpeg", b"\x7fELF transcoder")],
        CompressionMethod::Stored,
    );
    assert_eq!(extract_entry(bytes, "ffmpeg"), Ok(b"\x7fELF transcoder".to_vec()));
}

#[test]
fn extracts_the_matching_entry_of_a_deflated_archive() {
    let content: Vec<u8> = (0..20_000u32).map(|i| (i % 7) as u8).collect();
    let bytes = archive_of(
        &[("docs/readme.txt", b"read me"), ("bin/ffmpeg", &content)],
        CompressionMethod::Deflated,
    );
    assert!(bytes.len() < content.len());
    assert_eq!(extract_entry(bytes, "ffmpeg"), Ok(content));
}

#[test]
fn extracts_the_first_of_several_matches() {
    let bytes = archive_of(
        &[("debug/ffmpeg", b"debug build"), ("release/ffmpeg", b"release build")],
        CompressionMethod::Stored,
    );
    assert_eq!(extract_entry(bytes, "ffmpeg"), Ok(b"debug build".to_vec()));
}

#[test]
fn extracts_an_empty_entry() {
    let bytes = archive_of(&[("ffmpeg", b"")], CompressionMethod::Stored);
    assert_eq!(extract_entry(bytes, "ffmpeg"), Ok(Vec::new()));
}

#[test]
fn archive_without_a_match_gives_entry_not_found() {
    let bytes = archive_of(
        &[("docs/readme.txt", b"read me"), ("bin/ffprobe", b"probe")],
        CompressionMethod::Stored,
    );
    assert_eq!(extract_entry(bytes, "ffmpeg"), Err(ExtractionError::EntryNotFound));
}

#[test]
fn empty_archive_gives_entry_not_found() {
    let bytes = archive_of(&[], CompressionMethod::Stored);
    assert_eq!(extract_entry(bytes, "ffmpeg"), Err(ExtractionError::EntryNotFound));
}

#[test]
fn bytes_that_are_no_archive_give_invalid_archive() {
    match extract_entry(b"this is not a zip archive".to_vec(), "ffmpeg") {
        Err(ExtractionError::InvalidArchive(text)) => assert!(!text.is_empty()),
        other => panic!("expected an invalid archive, got {:?}", other),
    }
    assert!(matches!(
        extract_entry(Vec::new(), "ffmpeg"),
        Err(ExtractionError::InvalidArchive(_))
    ));
}

#[test]
fn damaged_entry_gives_unreadable_entry() {
    let content = b"UNIQUE-TRANSCODER-CONTENT";
    let mut bytes = archive_of(&[("bin/ffmpeg", content)], CompressionMethod::Stored);
    let at = bytes.windows(content.len()).position(|w| w == content).unwrap();
    bytes[at] ^= 0xff;
    match extract_entry(bytes, "ffmpeg") {
        Err(ExtractionError::UnreadableEntry(text)) => assert!(!text.is_empty()),
        other => panic!("expected an unreadable entry, got {:?}", other),
    }
}

#[test]
fn an_earlier_damaged_entry_does_not_matter() {
    let content = b"UNIQUE-README-CONTENT";
    let mut bytes = archive_of(
        &[("docs/readme.txt", content), ("bin/ffmpeg", b"transcoder")],
        CompressionMethod::Stored,
    );
    let at = bytes.windows(content.len()).position(|w| w == content).unwrap();
    bytes[at] ^= 0xff;
    assert_eq!(extract_entry(bytes, "ffmpeg"), Ok(b"transcoder".to_vec()));
}
