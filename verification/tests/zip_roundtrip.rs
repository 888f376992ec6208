use std::io::Cursor;

use async_zip::base::write::ZipFileWriter;
use async_zip::tokio::read::seek::ZipFileReader;
use async_zip::{Compression, ZipEntryBuilder};
use tokio::io::{AsyncReadExt, BufReader};
use tokio_util::compat::FuturesAsyncReadCompatExt;

#[test]
fn zip_round_trip_preserves_metadata() {
    let metadata = "{\"formatVersion\":1,\"game\":\"minecraft\"}".to_owned();
    let mods = vec![ferium::modpack::modrinth::ModFile {
        filename: "extra.jar".to_owned(),
        data: b"jarbytes".to_vec(),
    }];
    let entries = ferium::modpack::modrinth::create(&metadata, &vec![], &mods);
    let rt = tokio::runtime::Runtime::new().unwrap();
    let read_back = rt.block_on(async {
        let mut writer = ZipFileWriter::with_tokio(Cursor::new(Vec::new()));
        for e in &entries {
            writer
                .write_entry_whole(
                    ZipEntryBuilder::new(e.name.clone().into(), Compression::Deflate),
                    &e.data,
                )
                .await
                .unwrap();
        }
        let buf = writer.close().await.unwrap().into_inner().into_inner();
        let mut reader =
            ZipFileReader::with_tokio(BufReader::new(Cursor::new(buf))).await.unwrap();
        let index = reader
            .file()
            .entries()
            .iter()
            .position(|e| {
                e.filename().as_str().map(|n| n == "modrinth.index.json").unwrap_or(false)
            })
            .expect("the metadata entry exists in the archive");
        let mut contents = String::new();
        reader
            .reader_with_entry(index)
            .await
            .unwrap()
            .compat()
            .read_to_string(&mut contents)
            .await
            .unwrap();
        contents
    });
    assert_eq!(read_back, metadata);
}
