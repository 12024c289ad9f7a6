//! What a child process's command line says of its parent: the last piece is
//! the address of the child's shared record in the parent, in hexadecimal, and
//! the third piece from the end is the parent's process id, in decimal. Pieces
//! are what lies between single spaces.
use crate::text::{
    chars_of, decimal_text, find_last, last_index, lemma_decimal_text_parses, lemma_last_index,
    lemma_last_index_is, parse_unsigned, parse_unsigned_range, rsplit_piece,
};
use vstd::prelude::*;

verus! {

/// The parent's process id and the address of the shared record that a child's
/// command line names, or `None` where it names none.
pub open spec fn child_data(line: Seq<char>) -> Option<(u32, usize)> {
    match (rsplit_piece(line, ' ', 0), rsplit_piece(line, ' ', 2)) {
        (Some(address), Some(pid)) => match (
            parse_unsigned(address, 16, usize::MAX as int),
            parse_unsigned(pid, 10, u32::MAX as int),
        ) {
            (Some(a), Some(p)) => Some((p as u32, a as usize)),
            _ => None,
        },
        _ => None,
    }
}

/// How often `c` occurs in `s`.
pub open spec fn count_char(s: Seq<char>, c: char) -> nat
    decreases s.len(),
{
    if s.len() == 0 {
        0
    } else {
        count_char(s.drop_last(), c) + if s.last() == c {
            1nat
        } else {
            0nat
        }
    }
}

/// Reads the parent's process id and the address of the shared record from a
/// child's command line.
pub fn parse_child_data(command_line: &str) -> (r: Result<(u32, usize), ()>)
    ensures
        match r {
            Ok(found) => child_data(command_line@) == Some(found),
            Err(_) => child_data(command_line@) is None,
        },
{
    let chars = chars_of(command_line);
    let n = chars.len();
    let after_last = find_last(&chars, n, ' ');
    proof {
        assert(chars@.take(n as int) == chars@);
        assert(chars@.skip(after_last as int) == chars@.subrange(after_last as int, n as int));
    }
    if after_last == 0 {
        return Err(());
    }
    let end_second: usize = after_last - 1;
    let after_middle = find_last(&chars, end_second, ' ');
    proof {
        let rest0 = chars@.take(end_second as int);
        assert(rsplit_piece(chars@, ' ', 2) == rsplit_piece(rest0, ' ', 1));
    }
    if after_middle == 0 {
        return Err(());
    }
    let end_third: usize = after_middle - 1;
    let start_third = find_last(&chars, end_third, ' ');
    proof {
        let rest0 = chars@.take(end_second as int);
        let rest1 = rest0.take(end_third as int);
        assert(rest1 == chars@.take(end_third as int));
        assert(rsplit_piece(chars@, ' ', 2) == rsplit_piece(rest0, ' ', 1));
        assert(rsplit_piece(rest0, ' ', 1) == rsplit_piece(rest1, ' ', 0));
        assert(rest1.skip(start_third as int) == chars@.subrange(
            start_third as int,
            end_third as int,
        ));
    }
    let address = parse_unsigned_range(&chars, after_last, n, 16, usize::MAX as u64);
    let pid = parse_unsigned_range(&chars, start_third, end_third, 10, u32::MAX as u64);
    match (address, pid) {
        (Some(a), Some(p)) => Ok((p as u32, a as usize)),
        _ => Err(()),
    }
}

/// Behind a space that is followed by no other, the last piece is what follows
/// it and the pieces before are those of what precedes it.
pub proof fn lemma_rsplit_after_space(head: Seq<char>, tail: Seq<char>, n: nat)
    requires
        forall|i: int| 0 <= i < tail.len() ==> tail[i] != ' ',
    ensures
        rsplit_piece(head + seq![' '] + tail, ' ', 0) == Some(tail),
        rsplit_piece(head + seq![' '] + tail, ' ', n + 1) == rsplit_piece(head, ' ', n),
{
    let line = head + seq![' '] + tail;
    lemma_last_index_is(line, ' ', head.len() as int);
    assert(line.skip(head.len() as int + 1) == tail);
    assert(line.take(head.len() as int) == head);
}

/// A line that ends in a decimal process id, one more piece and a hexadecimal
/// address, each set off by a single space, names exactly that id and that
/// address, whatever stands before them, and also where nothing does.
pub proof fn lemma_child_data_of_tail(
    front: Seq<char>,
    pid_text: Seq<char>,
    middle: Seq<char>,
    address_text: Seq<char>,
    pid: u32,
    address: usize,
)
    requires
        forall|i: int| 0 <= i < pid_text.len() ==> pid_text[i] != ' ',
        forall|i: int| 0 <= i < middle.len() ==> middle[i] != ' ',
        forall|i: int| 0 <= i < address_text.len() ==> address_text[i] != ' ',
        parse_unsigned(pid_text, 10, u32::MAX as int) == Some(pid as nat),
        parse_unsigned(address_text, 16, usize::MAX as int) == Some(address as nat),
    ensures
        child_data(front + seq![' '] + pid_text + seq![' '] + middle + seq![' '] + address_text)
            == Some((pid, address)),
        child_data(pid_text + seq![' '] + middle + seq![' '] + address_text) == Some(
            (pid, address),
        ),
{
    let a = front + seq![' '] + pid_text;
    let b = a + seq![' '] + middle;
    lemma_rsplit_after_space(b, address_text, 1);
    lemma_rsplit_after_space(a, middle, 0);
    lemma_rsplit_after_space(front, pid_text, 0);
    let c = pid_text + seq![' '] + middle;
    lemma_rsplit_after_space(c, address_text, 1);
    lemma_rsplit_after_space(pid_text, middle, 0);
    lemma_last_index_is(pid_text, ' ', -1);
    assert(pid_text.skip(0) == pid_text);
}

/// The decimal numeral of a process id holds no space and reads back as that
/// id: a line that ends in it, one more piece and a hexadecimal address names
/// that id.
pub proof fn lemma_decimal_pid_is_read(pid: u32)
    ensures
        forall|i: int|
            0 <= i < decimal_text(pid as nat).len() ==> #[trigger] decimal_text(pid as nat)[i]
                != ' ',
        parse_unsigned(decimal_text(pid as nat), 10, u32::MAX as int) == Some(pid as nat),
{
    lemma_decimal_text_parses(pid as nat);
    let text = decimal_text(pid as nat);
    assert(crate::text::is_digit(text[0], 10));
}

/// The last index of a character is negative exactly where it does not occur,
/// and cutting the sequence there removes one occurrence.
pub proof fn lemma_count_and_last_index(s: Seq<char>, c: char)
    ensures
        last_index(s, c) < 0 <==> count_char(s, c) == 0,
        last_index(s, c) >= 0 ==> count_char(s.take(last_index(s, c)), c) + 1 == count_char(s, c),
    decreases s.len(),
{
    lemma_last_index(s, c);
    if s.len() > 0 {
        if s.last() == c {
            assert(s.take(s.len() - 1) == s.drop_last());
        } else {
            lemma_count_and_last_index(s.drop_last(), c);
            lemma_last_index(s.drop_last(), c);
            let j = last_index(s, c);
            if j >= 0 {
                assert(s.drop_last().take(j) == s.take(j));
            }
        }
    }
}

/// A sequence has a piece `n` from the back exactly where the delimiter occurs
/// at least `n` times.
pub proof fn lemma_rsplit_piece_exists(s: Seq<char>, c: char, n: nat)
    ensures
        rsplit_piece(s, c, n) is Some <==> count_char(s, c) >= n,
    decreases n,
{
    lemma_count_and_last_index(s, c);
    lemma_last_index(s, c);
    if n > 0 && last_index(s, c) >= 0 {
        lemma_rsplit_piece_exists(s.take(last_index(s, c)), c, (n - 1) as nat);
    }
}

/// A command line with fewer than three pieces, that is with fewer than two
/// spaces, names no parent.
pub proof fn lemma_child_data_needs_three_pieces(line: Seq<char>)
    requires
        count_char(line, ' ') < 2,
    ensures
        child_data(line) is None,
{
    lemma_rsplit_piece_exists(line, ' ', 2);
}

} // verus!
