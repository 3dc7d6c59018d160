use aviutl2::logger::{log_length_limit, split_into_chunks, LineBuffer, LogLevel};

#[test]
fn test_split_into_chunks() {
    let message = "a".repeat(5000);
    let chunks = split_into_chunks(&message, log_length_limit(dll_name().len(), "VERBOSE".len()));
    let dylib_name = dll_name();
    for chunk in chunks {
        assert!(chunk.len() <= log_length_limit(dylib_name.len(), "VERBOSE".len()));
        assert!(
            format!(
                "[01/23 08:43:47] [VERBOSE] [Plugin::{}] {}",
                dylib_name, chunk
            )
            .len()
                <= 1023
        );
    }
}

fn dll_name() -> String {
    process_path::get_dylib_path()
        .and_then(|path| {
            path.file_name()
                .map(|name| name.to_string_lossy().into_owned())
        })
        .unwrap_or_else(|| "plugin.aux2".to_string())
}

#[test]
fn chunks_put_together_give_the_message() {
    let message = "héllo wörld ✓ 😀 end";
    for limit in [4usize, 5, 7, 100] {
        let chunks = split_into_chunks(message, limit);
        assert_eq!(chunks.concat(), message);
        for c in &chunks {
            assert!(!c.is_empty());
            assert!(c.len() <= limit);
        }
    }
    assert_eq!(split_into_chunks("", 10), Vec::<String>::new());
    assert_eq!(split_into_chunks("abcdef", 4), vec!["abcd", "ef"]);
}

#[test]
fn too_small_limit_gives_empty_first_chunk() {
    // A character longer than the limit closes the (empty) chunk before it.
    assert_eq!(split_into_chunks("😀", 2), vec!["", "😀"]);
}

#[test]
fn log_limits() {
    assert_eq!(log_length_limit(0, 0), 988);
    assert_eq!(log_length_limit(8, LogLevel::Verbose.name().len()), 973);
    assert_eq!(LogLevel::Plugin.name(), "PLUGIN");
    assert_eq!(LogLevel::Warn.name(), "WARN");
}

#[test]
fn line_buffer_splits_lines() {
    let mut b = LineBuffer::new();
    assert!(b.write(b"abc").is_empty());
    let lines = b.write(b"def\nxy\n\nz");
    assert_eq!(lines, vec![b"abcdef".to_vec(), b"xy".to_vec(), Vec::new()]);
    let lines = b.write(b"\n");
    assert_eq!(lines, vec![b"z".to_vec()]);
    assert!(b.write(b"").is_empty());
}
