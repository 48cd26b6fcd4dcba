//! What the access log says of a request: its target, the client's address,
//! and the line itself.

use crate::text::{decimal, push_decimal};
use vstd::prelude::*;
use vstd::string::*;

verus! {

/// Whether the character is white space.
pub open spec fn is_space(c: char) -> bool {
    let code = c as u32;
    (9 <= code <= 13) || code == 0x20 || code == 0x85 || code == 0xA0 || code == 0x1680 || (0x2000
        <= code <= 0x200A) || code == 0x2028 || code == 0x2029 || code == 0x202F || code == 0x205F
        || code == 0x3000
}

fn is_space_char(c: char) -> (space: bool)
    ensures
        space == is_space(c),
{
    let code: u32 = c as u32;
    (9 <= code && code <= 13) || code == 0x20 || code == 0x85 || code == 0xA0 || code == 0x1680 || (
    0x2000 <= code && code <= 0x200A) || code == 0x2028 || code == 0x2029 || code == 0x202F || code
        == 0x205F || code == 0x3000
}

/// Where the first comma of `text` stands, or its length if it has none.
pub open spec fn comma_at(text: Seq<char>) -> int
    decreases text.len(),
{
    if text.len() == 0 || text[0] == ',' {
        0
    } else {
        1 + comma_at(text.drop_first())
    }
}

/// How many characters of white space `text` begins with.
pub open spec fn leading_spaces(text: Seq<char>) -> int
    decreases text.len(),
{
    if text.len() == 0 || !is_space(text[0]) {
        0
    } else {
        1 + leading_spaces(text.drop_first())
    }
}

/// How many characters of white space `text` ends with.
pub open spec fn trailing_spaces(text: Seq<char>) -> int
    decreases text.len(),
{
    if text.len() == 0 || !is_space(text.last()) {
        0
    } else {
        1 + trailing_spaces(text.drop_last())
    }
}

/// `text` without the white space at its two ends.
pub open spec fn trimmed(text: Seq<char>) -> Seq<char> {
    if leading_spaces(text) == text.len() {
        Seq::empty()
    } else {
        text.subrange(leading_spaces(text), text.len() - trailing_spaces(text))
    }
}

/// The first entry of a list whose entries are parted by commas, without the
/// white space around it.
pub open spec fn first_entry(list: Seq<char>) -> Seq<char> {
    trimmed(list.subrange(0, comma_at(list)))
}

/// `comma_at` is the least position that holds a comma.
pub proof fn lemma_comma_at(text: Seq<char>)
    ensures
        0 <= comma_at(text) <= text.len(),
        comma_at(text) < text.len() ==> text[comma_at(text)] == ',',
        forall|i: int| 0 <= i < comma_at(text) ==> #[trigger] text[i] != ',',
    decreases text.len(),
{
    if text.len() > 0 && text[0] != ',' {
        let rest = text.drop_first();
        lemma_comma_at(rest);
        assert forall|i: int| 0 <= i < comma_at(text) implies #[trigger] text[i] != ',' by {
            if i > 0 {
                assert(text[i] == rest[i - 1]);
            }
        }
    }
}

/// `leading_spaces` is the least position that holds no white space.
pub proof fn lemma_leading_spaces(text: Seq<char>)
    ensures
        0 <= leading_spaces(text) <= text.len(),
        leading_spaces(text) < text.len() ==> !is_space(text[leading_spaces(text)]),
        forall|i: int| 0 <= i < leading_spaces(text) ==> is_space(#[trigger] text[i]),
    decreases text.len(),
{
    if text.len() > 0 && is_space(text[0]) {
        let rest = text.drop_first();
        lemma_leading_spaces(rest);
        assert forall|i: int| 0 <= i < leading_spaces(text) implies is_space(
            #[trigger] text[i],
        ) by {
            if i > 0 {
                assert(text[i] == rest[i - 1]);
            }
        }
    }
}

/// Behind the last `trailing_spaces` characters stands white space only, and
/// before them none.
pub proof fn lemma_trailing_spaces(text: Seq<char>)
    ensures
        0 <= trailing_spaces(text) <= text.len(),
        trailing_spaces(text) < text.len() ==> !is_space(
            text[text.len() - trailing_spaces(text) - 1],
        ),
        forall|i: int|
            text.len() - trailing_spaces(text) <= i < text.len() ==> is_space(#[trigger] text[i]),
    decreases text.len(),
{
    if text.len() > 0 && is_space(text.last()) {
        let rest = text.drop_last();
        lemma_trailing_spaces(rest);
        assert forall|i: int|
            text.len() - trailing_spaces(text) <= i < text.len() implies is_space(
            #[trigger] text[i],
        ) by {
            if i < text.len() - 1 {
                assert(text[i] == rest[i]);
            }
        }
        if trailing_spaces(text) < text.len() {
            assert(rest[rest.len() - trailing_spaces(rest) - 1] == text[text.len()
                - trailing_spaces(text) - 1]);
        }
    }
}

/// The first entry of a list whose entries are parted by commas, without the
/// white space around it.
pub fn first_listed(list: &str) -> (entry: &str)
    ensures
        entry@ == first_entry(list@),
{
    let len = list.unicode_len();
    let mut end: usize = 0;
    loop
        invariant
            len == list@.len(),
            end <= len,
            forall|i: int| 0 <= i < end ==> #[trigger] list@[i] != ',',
        ensures
            end <= len,
            forall|i: int| 0 <= i < end ==> #[trigger] list@[i] != ',',
            end == len || list@[end as int] == ',',
        decreases len - end,
    {
        if end >= len {
            break ;
        }
        if list.get_char(end) == ',' {
            break ;
        }
        end += 1;
    }
    let ghost part = list@.subrange(0, end as int);
    proof {
        lemma_comma_at(list@);
        assert(comma_at(list@) == end);
    }
    let mut start: usize = 0;
    loop
        invariant
            len == list@.len(),
            start <= end <= len,
            forall|i: int| 0 <= i < start ==> is_space(#[trigger] list@[i]),
        ensures
            start <= end,
            forall|i: int| 0 <= i < start ==> is_space(#[trigger] list@[i]),
            start == end || !is_space(list@[start as int]),
        decreases end - start,
    {
        if start >= end {
            break ;
        }
        if !is_space_char(list.get_char(start)) {
            break ;
        }
        start += 1;
    }
    proof {
        lemma_leading_spaces(part);
        let lead = leading_spaces(part);
        if lead < start {
            assert(part[lead] == list@[lead]);
        }
        if start < lead {
            assert(part[start as int] == list@[start as int]);
        }
        assert(lead == start);
    }
    let mut stop: usize = end;
    loop
        invariant
            len == list@.len(),
            start <= stop <= end <= len,
            forall|i: int| stop <= i < end ==> is_space(#[trigger] list@[i]),
        ensures
            start <= stop <= end,
            forall|i: int| stop <= i < end ==> is_space(#[trigger] list@[i]),
            stop == start || !is_space(list@[stop - 1]),
        decreases stop - start,
    {
        if stop <= start {
            break ;
        }
        if !is_space_char(list.get_char(stop - 1)) {
            break ;
        }
        stop -= 1;
    }
    proof {
        lemma_trailing_spaces(part);
        let trail = trailing_spaces(part);
        if start < end {
            let kept = end - trail;
            if kept < stop {
                assert(part[stop - 1] == list@[stop - 1]);
            }
            if stop < kept {
                assert(part[kept - 1] == list@[kept - 1]);
            }
            assert(kept == stop);
            assert(list@.subrange(start as int, stop as int) =~= part.subrange(
                start as int,
                stop as int,
            ));
        } else {
            assert(list@.subrange(start as int, stop as int) =~= Seq::<char>::empty());
        }
    }
    list.substring_char(start, stop)
}

/// A header's value as plain values.
pub open spec fn header_view(value: Option<&str>) -> Option<Seq<char>> {
    match value {
        Some(text) => Some(text@),
        None => None,
    }
}

/// The client's address as the log gives it: the first entry of the
/// forwarding header where the request has one, else the real-address
/// header, else a dash.
pub open spec fn client_text(forwarded_for: Option<Seq<char>>, real_ip: Option<Seq<char>>) -> Seq<
    char,
> {
    match forwarded_for {
        Some(list) => first_entry(list),
        None => match real_ip {
            Some(address) => address,
            None => "-"@,
        },
    }
}

/// The client's address as the log gives it.
pub fn client_address(forwarded_for: Option<&str>, real_ip: Option<&str>) -> (address: String)
    ensures
        address@ == client_text(header_view(forwarded_for), header_view(real_ip)),
{
    match forwarded_for {
        Some(list) => String::from_str(first_listed(list)),
        None => match real_ip {
            Some(address) => String::from_str(address),
            None => String::from_str("-"),
        },
    }
}

/// The request's target as the log gives it: the path, and behind a question
/// mark the query where there is one.
pub open spec fn target_text(path: Seq<char>, query: Option<Seq<char>>) -> Seq<char> {
    match query {
        Some(q) => path + "?"@ + q,
        None => path,
    }
}

/// The request's target as the log gives it.
pub fn request_target(path: &str, query: Option<&str>) -> (target: String)
    ensures
        target@ == target_text(path@, header_view(query)),
{
    let mut target = String::from_str(path);
    match query {
        Some(q) => {
            target.append("?");
            target.append(q);
        },
        None => {},
    }
    target
}

/// One line of the access log: method, target, user agent in quotes,
/// client, status, length of the answer, and the time it took in
/// milliseconds.
pub open spec fn line_text(
    method: Seq<char>,
    target: Seq<char>,
    user_agent: Seq<char>,
    client: Seq<char>,
    status: u16,
    length: Seq<char>,
    millis: Seq<char>,
) -> Seq<char> {
    method + " "@ + target + " \""@ + user_agent + "\" "@ + client + " "@ + decimal(status as int)
        + " "@ + length + " "@ + millis + "ms"@
}

/// One line of the access log. `millis` is the duration as text.
pub fn access_line(
    method: &str,
    target: &str,
    user_agent: &str,
    client: &str,
    status: u16,
    length: &str,
    millis: &str,
) -> (line: String)
    ensures
        line@ == line_text(method@, target@, user_agent@, client@, status, length@, millis@),
{
    let mut line = String::from_str(method);
    line.append(" ");
    line.append(target);
    line.append(" \"");
    line.append(user_agent);
    line.append("\" ");
    line.append(client);
    line.append(" ");
    push_decimal(&mut line, status as i32);
    line.append(" ");
    line.append(length);
    line.append(" ");
    line.append(millis);
    line.append("ms");
    line
}

} // verus!
