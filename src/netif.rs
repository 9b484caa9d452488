use vstd::prelude::*;
use vstd::string::StrSliceExecFns;

use crate::report::text_view;

verus! {

/// An ASCII letter or digit.
pub open spec fn is_ascii_alphanumeric(c: char) -> bool {
    ('a' <= c && c <= 'z') || ('A' <= c && c <= 'Z') || ('0' <= c && c <= '9')
}

/// Whether `name` may be handed to the network tool as an interface name:
/// only ASCII letters and digits, so that it cannot carry a command.
pub fn is_valid_interface_name(name: &str) -> (r: bool)
    ensures
        r == forall|i: int| 0 <= i < name@.len() ==> is_ascii_alphanumeric(#[trigger] name@[i]),
{
    let n = name.unicode_len();
    let mut i: usize = 0;
    while i < n
        invariant
            n == name@.len(),
            i <= n,
            forall|j: int| 0 <= j < i ==> is_ascii_alphanumeric(#[trigger] name@[j]),
        decreases n - i,
    {
        let c = name.get_char(i);
        if !(('a' <= c && c <= 'z') || ('A' <= c && c <= 'Z') || ('0' <= c && c <= '9')) {
            return false;
        }
        i = i + 1;
    }
    true
}

/// The text of the first capture group of the regular expression `pattern`
/// on `text`: none where the pattern does not compile, does not match, or the
/// group takes no part in the match.
pub uninterp spec fn capture1_of(pattern: Seq<char>, text: Seq<char>) -> Option<Seq<char>>;

/// Relies on regex::Regex::new and regex::Regex::captures: the first capture
/// group of the leftmost match of `pattern` in `text`.
#[verifier::external_body]
fn regex_capture1(pattern: &str, text: &str) -> (r: Option<String>)
    ensures
        text_view(r) == capture1_of(pattern@, text@),
{
    let re = match regex::Regex::new(pattern) {
        Ok(re) => re,
        Err(_) => return None,
    };
    match re.captures(text) {
        Some(c) => match c.get(1) {
            Some(m) => Some(m.as_str().to_owned()),
            None => None,
        },
        None => None,
    }
}

/// The pattern of a line of the address listing that names an interface: an
/// index, a colon and a space, then the name, up to the line's last colon.
pub open spec fn interface_pattern() -> Seq<char> {
    "^\\d+: (.+):"@
}

/// The interface that one line of the address listing names, if any.
pub fn interface_of_line(line: &str) -> (r: Option<String>)
    ensures
        text_view(r) == capture1_of(interface_pattern(), line@),
{
    regex_capture1("^\\d+: (.+):", line)
}

/// The names among `caps` that are present, in order.
pub open spec fn present(caps: Seq<Option<Seq<char>>>) -> Seq<Seq<char>>
    decreases caps.len(),
{
    if caps.len() == 0 {
        Seq::empty()
    } else {
        match caps.last() {
            Some(name) => present(caps.drop_last()).push(name),
            None => present(caps.drop_last()),
        }
    }
}

/// What the line pattern captures on each of `lines`.
pub open spec fn line_captures(lines: Seq<Seq<char>>) -> Seq<Option<Seq<char>>> {
    lines.map_values(|l: Seq<char>| capture1_of(interface_pattern(), l))
}

/// The texts that `caps` hold.
pub open spec fn texts_of(caps: Seq<Option<String>>) -> Seq<Option<Seq<char>>> {
    caps.map_values(|c: Option<String>| text_view(c))
}

/// The interfaces that the lines of an address listing name, in order.
pub open spec fn listed_interfaces(lines: Seq<Seq<char>>) -> Seq<Seq<char>> {
    present(line_captures(lines))
}

/// The names that are present among `caps`, in order.
pub fn present_names(caps: &Vec<Option<String>>) -> (r: Vec<String>)
    ensures
        r@.map_values(|s: String| s@) == present(texts_of(caps@)),
{
    let ghost views = texts_of(caps@);
    let mut r: Vec<String> = Vec::new();
    let mut i: usize = 0;
    while i < caps.len()
        invariant
            i <= caps@.len(),
            views == texts_of(caps@),
            r@.map_values(|s: String| s@) == present(views.subrange(0, i as int)),
        decreases caps@.len() - i,
    {
        assert(views.subrange(0, i + 1).drop_last() =~= views.subrange(0, i as int));
        assert(views.subrange(0, i + 1).last() == text_view(caps@[i as int]));
        let ghost before = r@.map_values(|s: String| s@);
        match &caps[i] {
            Some(name) => {
                r.push(name.clone());
                assert(r@.map_values(|s: String| s@) =~= before.push(name@));
            },
            None => {
                assert(r@.map_values(|s: String| s@) =~= before);
            },
        }
        i = i + 1;
    }
    assert(views.subrange(0, caps@.len() as int) =~= views);
    r
}

/// The interfaces that the lines of an address listing name, in order.
pub fn interface_names(lines: &Vec<String>) -> (r: Vec<String>)
    ensures
        r@.map_values(|s: String| s@) == listed_interfaces(lines@.map_values(|s: String| s@)),
{
    let ghost views = lines@.map_values(|s: String| s@);
    let mut caps: Vec<Option<String>> = Vec::new();
    let mut i: usize = 0;
    while i < lines.len()
        invariant
            i <= lines@.len(),
            views == lines@.map_values(|s: String| s@),
            texts_of(caps@) =~= line_captures(views.subrange(0, i as int)),
        decreases lines@.len() - i,
    {
        let c = interface_of_line(lines[i].as_str());
        assert(lines@[i as int]@ == views[i as int]);
        caps.push(c);
        assert(texts_of(caps@) =~= line_captures(views.subrange(0, i as int)).push(
            capture1_of(interface_pattern(), views[i as int]),
        ));
        assert(line_captures(views.subrange(0, i + 1)) =~= line_captures(
            views.subrange(0, i as int),
        ).push(capture1_of(interface_pattern(), views[i as int])));
        i = i + 1;
    }
    assert(views.subrange(0, lines@.len() as int) =~= views);
    present_names(&caps)
}

} // verus!
