use aws_secrets::text::split;

fn join(pieces: &[String], sep: char) -> String {
    let mut text = String::new();
    for (i, piece) in pieces.iter().enumerate() {
        if i > 0 {
            text.push(sep);
        }
        text.push_str(piece);
    }
    text
}

#[test]
fn it_works() {
    let result = 2 + 2;
    assert_eq!(result, 4);
}

#[test]
fn split_three_items() {
    assert_eq!(split("a,b,c", ','), vec!["a", "b", "c"]);
}

#[test]
fn split_without_separator_is_one_piece() {
    assert_eq!(split("solo", ','), vec!["solo"]);
}

#[test]
fn split_empty_text_is_one_empty_piece() {
    assert_eq!(split("", ','), vec![""]);
}

#[test]
fn split_does_not_trim() {
    assert_eq!(split(" a , b", ','), vec![" a ", " b"]);
}

#[test]
fn split_keeps_empty_pieces() {
    assert_eq!(split(",a,,b,", ','), vec!["", "a", "", "b", ""]);
    assert_eq!(split(",", ','), vec!["", ""]);
}

#[test]
fn split_keeps_duplicates_in_order() {
    assert_eq!(split("b,a,b,a", ','), vec!["b", "a", "b", "a"]);
}

#[test]
fn split_handles_characters_of_several_bytes() {
    assert_eq!(split("é,日本,𝄞", ','), vec!["é", "日本", "𝄞"]);
}

#[test]
fn split_on_another_separator() {
    assert_eq!(split("a,b;c", ';'), vec!["a,b", "c"]);
    assert_eq!(split("k=v=w", '='), vec!["k", "v", "w"]);
}

#[test]
fn split_agrees_with_std() {
    for text in ["", ",", "a", "a,", ",a", "a,b", "a,,b", " , ", "x,y,z,", ",,,"] {
        let expected: Vec<String> = text.split(',').map(str::to_string).collect();
        assert_eq!(split(text, ','), expected);
    }
}

#[test]
fn join_of_split_is_the_text() {
    for text in ["", ",", "a", "a,", ",a", "a,b", "a,,b", " , ", "x,y,z,", ",,,"] {
        assert_eq!(join(&split(text, ','), ','), text);
    }
}

#[test]
fn split_pieces_hold_no_separator() {
    for text in ["", ",", "a,b", "a,,b", "x,y,z,"] {
        let pieces = split(text, ',');
        assert!(!pieces.is_empty());
        assert!(pieces.iter().all(|piece| !piece.contains(',')));
        assert_eq!(pieces.len(), text.matches(',').count() + 1);
    }
}

#[test]
fn split_of_join_is_the_pieces() {
    let lists: Vec<Vec<String>> = vec![
        vec!["".to_string()],
        vec!["a".to_string()],
        vec!["".to_string(), "".to_string()],
        vec!["a".to_string(), "".to_string(), "bc".to_string()],
    ];
    for pieces in lists {
        assert_eq!(split(&join(&pieces, ','), ','), pieces);
    }
}
