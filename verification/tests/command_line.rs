use mozwer::command_line::parse_child_data;

#[test]
fn parses_parent_pid_and_address_from_the_tail() {
    let line = "firefox.exe -contentproc --channel=1234 4242 tab 1f3c0a80";
    assert_eq!(parse_child_data(line), Ok((4242, 0x1f3c0a80)));
}

#[test]
fn whatever_stands_before_the_tail_does_not_matter() {
    assert_eq!(parse_child_data("a b c d e 1 x ff"), Ok((1, 255)));
    assert_eq!(parse_child_data(" 7 junk 10"), Ok((7, 16)));
    assert_eq!(parse_child_data("7 junk 10"), Ok((7, 16)));
}

#[test]
fn address_is_read_in_either_case_and_with_a_plus() {
    assert_eq!(parse_child_data("x 12 y DeadBeef"), Ok((12, 0xdead_beef)));
    assert_eq!(parse_child_data("x +12 y +a"), Ok((12, 10)));
}

#[test]
fn fails_with_fewer_than_three_pieces() {
    assert_eq!(parse_child_data("4242 1f3c0a80"), Err(()));
    assert_eq!(parse_child_data("1f3c0a80"), Err(()));
    assert_eq!(parse_child_data(""), Err(()));
}

#[test]
fn fails_on_numbers_that_are_none() {
    assert_eq!(parse_child_data("x 12a y ff"), Err(()));
    assert_eq!(parse_child_data("x 12 y fg"), Err(()));
    assert_eq!(parse_child_data("x -12 y ff"), Err(()));
    assert_eq!(parse_child_data("x + y ff"), Err(()));
    assert_eq!(parse_child_data("x 12 y "), Err(()));
}

#[test]
fn every_space_ends_a_piece() {
    // Two spaces in a row enclose an empty piece, which counts as a piece
    // and is no number.
    assert_eq!(parse_child_data("x 12  ff"), Ok((12, 255)));
    assert_eq!(parse_child_data("x 12 y  ff"), Err(()));
    assert_eq!(parse_child_data("12   ff"), Err(()));
}

#[test]
fn fails_on_numbers_that_do_not_fit() {
    assert_eq!(parse_child_data("x 4294967295 y 0"), Ok((u32::MAX, 0)));
    assert_eq!(parse_child_data("x 4294967296 y 0"), Err(()));
    assert_eq!(
        parse_child_data("x 1 y ffffffffffffffff"),
        Ok((1, 0xffff_ffff_ffff_ffff))
    );
    assert_eq!(parse_child_data("x 1 y 10000000000000000"), Err(()));
    assert_eq!(
        parse_child_data("x 0000000000001 y 00000000000000000000ff"),
        Ok((1, 255))
    );
}

#[test]
fn same_as_the_standard_parsers() {
    for pid in ["0", "1", "+5", "99999", "4294967295", "4294967296", "", "+", "-1", "1_0", "١"] {
        for address in ["0", "abc", "ABC", "+ff", "ffffffffffffffff", "1ffffffffffffffff", "g", ""] {
            let line = format!("head {} junk {}", pid, address);
            let expected = match (
                u32::from_str_radix(pid, 10),
                usize::from_str_radix(address, 16),
            ) {
                (Ok(p), Ok(a)) => Ok((p, a)),
                _ => Err(()),
            };
            assert_eq!(parse_child_data(&line), expected, "{}", line);
        }
    }
}
