use sentinel::alert::chunk_message;

#[test]
fn chunk_message_keeps_short_messages_whole() {
    assert_eq!(chunk_message("short alert", 75), vec!["short alert"]);
}

#[test]
fn chunk_message_splits_long_messages_without_empty_chunks() {
    let chunks = chunk_message("one two three four five six seven", 13);

    assert_eq!(chunks, vec!["one two three", " four five", " six seven"]);
    assert!(chunks.iter().all(|chunk| !chunk.is_empty()));
}

#[test]
fn chunk_message_of_empty_message_is_empty() {
    assert!(chunk_message("", 75).is_empty());
}

#[test]
fn chunks_concatenate_back_to_the_message() {
    let message = "a long alert text that will be cut into several chunks at its spaces";
    let chunks = chunk_message(message, 10);
    assert!(chunks.len() > 1);
    assert_eq!(chunks.concat(), message);
}

#[test]
fn chunks_after_the_first_begin_at_a_space() {
    let message = "a long alert text that will be cut into several chunks at its spaces";
    let chunks = chunk_message(message, 10);
    assert!(chunks.len() > 1);
    assert!(chunks.iter().all(|chunk| !chunk.is_empty()));
    assert!(chunks.iter().skip(1).all(|chunk| chunk.starts_with(' ')));
}
