use std::io::{Cursor, Write};

use minetui::archive::{modpack_index_bytes, modpack_index_from_lookup, native_files, ZipLookup};

fn zip_with(name: &str, contents: &[u8]) -> Vec<u8> {
    let mut buf: Vec<u8> = Vec::new();
    {
        let mut w = zip::ZipWriter::new(Cursor::new(&mut buf));
        let options = zip::write::SimpleFileOptions::default().compression_method(zip::CompressionMethod::Stored);
        w.start_file(name, options).unwrap();
        w.write_all(contents).unwrap();
        w.finish().unwrap();
    }
    buf
}

#[test]
fn index_is_read_from_archive() {
    let archive = zip_with("modrinth.index.json", b"{\"game\":\"minecraft\"}");
    assert_eq!(modpack_index_bytes(&archive), Ok(b"{\"game\":\"minecraft\"}".to_vec()));
}

#[test]
fn archive_without_index_is_refused() {
    let archive = zip_with("overrides/options.txt", b"x");
    let r = modpack_index_bytes(&archive);
    assert!(r.unwrap_err().starts_with("Modpack missing index: "));
}

#[test]
fn bytes_that_are_no_zip_are_refused() {
    let r = modpack_index_bytes(b"not a zip at all");
    assert!(r.unwrap_err().starts_with("Failed to open zip: "));
}

#[test]
fn lookup_errors_carry_their_prefix() {
    assert_eq!(
        modpack_index_from_lookup(ZipLookup::NotZip("bad".to_string())),
        Err("Failed to open zip: bad".to_string())
    );
    assert_eq!(
        modpack_index_from_lookup(ZipLookup::Refused("gone".to_string())),
        Err("Modpack missing index: gone".to_string())
    );
    assert_eq!(
        modpack_index_from_lookup(ZipLookup::Unreadable("eof".to_string())),
        Err("Failed to parse index: eof".to_string())
    );
    assert_eq!(modpack_index_from_lookup(ZipLookup::Found(vec![1, 2])), Ok(vec![1, 2]));
}

#[test]
fn native_jar_yields_its_libraries_only() {
    let mut buf: Vec<u8> = Vec::new();
    {
        let mut w = zip::ZipWriter::new(Cursor::new(&mut buf));
        let options = zip::write::SimpleFileOptions::default().compression_method(zip::CompressionMethod::Stored);
        w.start_file("META-INF/MANIFEST.MF", options).unwrap();
        w.write_all(b"Manifest-Version: 1.0").unwrap();
        w.add_directory("linux/", options).unwrap();
        w.start_file("linux/liblwjgl.so", options).unwrap();
        w.write_all(b"ELF").unwrap();
        w.start_file("libglfw.so", options).unwrap();
        w.write_all(b"GL").unwrap();
        w.finish().unwrap();
    }
    let extraction = native_files(&buf);
    assert!(extraction.error.is_none());
    let got: Vec<(String, Vec<u8>)> = extraction.files.into_iter().map(|f| (f.path, f.contents)).collect();
    assert_eq!(got, vec![("linux/liblwjgl.so".to_string(), b"ELF".to_vec()), ("libglfw.so".to_string(), b"GL".to_vec())]);
    let junk = native_files(b"junk");
    assert!(junk.files.is_empty());
    assert!(junk.error.unwrap().starts_with("Failed to read native jar: "));
}

#[test]
fn native_jar_with_a_bad_entry_keeps_the_entries_before_it() {
    let mut buf: Vec<u8> = Vec::new();
    {
        let mut w = zip::ZipWriter::new(Cursor::new(&mut buf));
        let options = zip::write::SimpleFileOptions::default().compression_method(zip::CompressionMethod::Stored);
        w.start_file("first.so", options).unwrap();
        w.write_all(b"AAAAAAAA").unwrap();
        w.start_file("second.so", options).unwrap();
        w.write_all(b"QQQQQQQQ").unwrap();
        w.finish().unwrap();
    }
    let at = buf.windows(8).position(|w| w == b"QQQQQQQQ").unwrap();
    buf[at] = b'Z';
    let extraction = native_files(&buf);
    let got: Vec<(String, Vec<u8>)> = extraction.files.into_iter().map(|f| (f.path, f.contents)).collect();
    assert_eq!(got, vec![("first.so".to_string(), b"AAAAAAAA".to_vec())]);
    assert!(extraction.error.is_some());
}
