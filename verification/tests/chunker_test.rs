use mm_dlp_core::download::chunker::{assembly_parts, calculate_chunks, part_file_name, CHUNK_SIZE};
use mm_dlp_core::download::manager::{queued_task, range_header, DownloadStatus};

#[test]
fn test_calculate_chunks() {
    let total_size = CHUNK_SIZE * 3 + 100;
    let chunks = calculate_chunks(total_size);
    assert_eq!(chunks.len(), 4);
    assert_eq!(chunks[0], (0, CHUNK_SIZE - 1));
    assert_eq!(chunks[1], (CHUNK_SIZE, CHUNK_SIZE * 2 - 1));
    assert_eq!(chunks[2], (CHUNK_SIZE * 2, CHUNK_SIZE * 3 - 1));
    assert_eq!(chunks[3], (CHUNK_SIZE * 3, total_size - 1));
}

#[test]
fn chunks_of_empty_download() {
    assert!(calculate_chunks(0).is_empty());
}

#[test]
fn chunks_of_exact_multiple_partition_the_file() {
    let total = CHUNK_SIZE * 2;
    let chunks = calculate_chunks(total);
    assert_eq!(chunks, vec![(0, CHUNK_SIZE - 1), (CHUNK_SIZE, total - 1)]);
    let covered: u64 = chunks.iter().map(|(s, e)| e - s + 1).sum();
    assert_eq!(covered, total);
}

#[test]
fn chunk_of_one_byte() {
    assert_eq!(calculate_chunks(1), vec![(0, 0)]);
}

#[test]
fn range_header_names_both_ends() {
    assert_eq!(range_header(0, 4194303), "bytes=0-4194303");
    assert_eq!(range_header(12, 12), "bytes=12-12");
}

#[test]
fn queued_task_is_pending() {
    let t = queued_task("https://a/b".to_string(), "/tmp/x".to_string());
    assert_eq!(t.url, "https://a/b");
    assert_eq!(t.destination_path, "/tmp/x");
    assert_eq!(t.total_bytes, 0);
    assert_eq!(t.downloaded_bytes, 0);
    assert_eq!(t.status, DownloadStatus::Pending);
}

fn names(v: &[&str]) -> Vec<String> {
    v.iter().map(|s| s.to_string()).collect()
}

#[test]
fn assembly_reads_every_written_part_in_order() {
    // Three chunk files of a 21-byte download, listed out of order beside
    // another file: all three are read, chunk_0 first.
    let present = names(&["chunk_2", "notes.txt", "chunk_0", "chunk_1"]);
    assert_eq!(assembly_parts(&present), names(&["chunk_0", "chunk_1", "chunk_2"]));
    // Two whole chunks give two part files, and no third is asked for.
    assert_eq!(assembly_parts(&names(&["chunk_1", "chunk_0"])), names(&["chunk_0", "chunk_1"]));
}

#[test]
fn assembly_stops_at_the_first_missing_part() {
    assert_eq!(assembly_parts(&names(&["chunk_0", "chunk_2"])), names(&["chunk_0"]));
    assert_eq!(assembly_parts(&names(&["chunk_1"])), Vec::<String>::new());
    assert_eq!(assembly_parts(&Vec::new()), Vec::<String>::new());
    assert_eq!(assembly_parts(&names(&["chunk_00", "chunk_0"])), names(&["chunk_0"]));
}

#[test]
fn part_files_are_numbered() {
    assert_eq!(part_file_name(0), "chunk_0");
    assert_eq!(part_file_name(17), "chunk_17");
}
