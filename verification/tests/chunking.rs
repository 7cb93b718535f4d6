use chat_relay::chunk::{owned_chunks, sub_strings};

#[test]
fn empty_text_has_no_chunk() {
    assert!(sub_strings("", 1).is_empty());
    assert!(sub_strings("", 2000).is_empty());
    assert!(owned_chunks("", 5).is_empty());
}

#[test]
fn short_text_is_one_chunk() {
    assert_eq!(sub_strings("hello", 5), vec!["hello"]);
    assert_eq!(sub_strings("hello", 2000), vec!["hello"]);
    assert_eq!(sub_strings("a", 1), vec!["a"]);
}

#[test]
fn exact_multiple_has_no_short_chunk() {
    assert_eq!(sub_strings("abcdef", 2), vec!["ab", "cd", "ef"]);
    assert_eq!(sub_strings("abcdef", 3), vec!["abc", "def"]);
}

#[test]
fn remainder_goes_to_last_chunk() {
    assert_eq!(sub_strings("abcde", 2), vec!["ab", "cd", "e"]);
    assert_eq!(sub_strings("abcdefg", 3), vec!["abc", "def", "g"]);
}

#[test]
fn width_one_gives_each_scalar() {
    assert_eq!(sub_strings("xyz", 1), vec!["x", "y", "z"]);
}

#[test]
fn multibyte_scalars_are_counted_once() {
    assert_eq!(sub_strings("héllo wörld", 4), vec!["héll", "o wö", "rld"]);
    assert_eq!(sub_strings("日本語のテキスト", 3), vec!["日本語", "のテキ", "スト"]);
    assert_eq!(sub_strings("a😀b😀c", 2), vec!["a😀", "b😀", "c"]);
}

#[test]
fn chunks_rebuild_the_text() {
    let texts = ["", "a", "hello world", "héllo wörld ñandú", "😀😀😀😀😀", "line\nbreak\ttab"];
    for text in texts {
        for width in 1..8usize {
            let parts = sub_strings(text, width);
            assert_eq!(parts.concat(), text);
            let scalars = text.chars().count();
            assert_eq!(parts.len(), (scalars + width - 1) / width);
            for (i, part) in parts.iter().enumerate() {
                let n = part.chars().count();
                assert!(n >= 1 && n <= width);
                if i + 1 < parts.len() {
                    assert_eq!(n, width);
                }
            }
        }
    }
}

#[test]
fn long_reply_is_cut_at_the_width() {
    let text = "x".repeat(4500);
    let parts = sub_strings(&text, 2000);
    assert_eq!(parts.len(), 3);
    assert_eq!(parts[0].len(), 2000);
    assert_eq!(parts[1].len(), 2000);
    assert_eq!(parts[2].len(), 500);
}

#[test]
fn owned_chunks_hold_the_same_pieces() {
    let owned = owned_chunks("héllo wörld", 4);
    assert_eq!(owned, vec!["héll".to_string(), "o wö".to_string(), "rld".to_string()]);
}
