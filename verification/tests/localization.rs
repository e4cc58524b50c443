use pore::location::{positions_to_lines, sort_positions, split_lines};

#[test]
fn split_lines_drops_terminators() {
    let lines = split_lines("alpha beta\ngamma alpha\n");
    assert_eq!(lines, vec![String::from("alpha beta"), String::from("gamma alpha")]);
}

#[test]
fn split_lines_keeps_interior_empty_lines() {
    let lines = split_lines("a\n\nb");
    assert_eq!(
        lines,
        vec![String::from("a"), String::from(""), String::from("b")]
    );
}

#[test]
fn split_lines_of_empty_text_is_empty() {
    assert!(split_lines("").is_empty());
}

#[test]
fn sort_positions_orders_and_keeps_occurrences() {
    let sorted = sort_positions(&vec![5, 1, 3, 1]);
    assert_eq!(sorted, vec![1, 1, 3, 5]);
}

#[test]
fn line_collapse_reports_a_line_once() {
    // One line, three tokens, two of them occurrences of the term:
    // exactly one reported entry.
    let texts = vec![String::from("alpha alpha beta")];
    let counts = vec![3];
    let positions = vec![0, 1];
    let lines = positions_to_lines(&texts, &counts, &positions);
    assert_eq!(lines.len(), 1);
    assert_eq!(lines[0].number, 1);
    assert_eq!(lines[0].text, "alpha alpha beta");
}

#[test]
fn positions_map_to_their_lines_in_order() {
    let texts = vec![
        String::from("alpha beta"),
        String::from("nothing here"),
        String::from("gamma alpha  "),
    ];
    let counts = vec![2, 2, 2];
    // token ranges: line 1 = [0, 2), line 2 = [2, 4), line 3 = [4, 6)
    let positions = vec![0, 5];
    let lines = positions_to_lines(&texts, &counts, &positions);
    assert_eq!(lines.len(), 2);
    assert_eq!(lines[0].number, 1);
    assert_eq!(lines[0].text, "alpha beta");
    assert_eq!(lines[1].number, 3);
    // trailing whitespace is trimmed from the reported text
    assert_eq!(lines[1].text, "gamma alpha");
}

#[test]
fn positions_past_the_last_line_resolve_to_nothing() {
    let texts = vec![String::from("alpha")];
    let counts = vec![1];
    let positions = vec![4];
    let lines = positions_to_lines(&texts, &counts, &positions);
    assert!(lines.is_empty());
}

#[test]
fn zero_token_lines_never_match() {
    let texts = vec![String::from(""), String::from("alpha")];
    let counts = vec![0, 1];
    let positions = vec![0];
    let lines = positions_to_lines(&texts, &counts, &positions);
    assert_eq!(lines.len(), 1);
    assert_eq!(lines[0].number, 2);
}
